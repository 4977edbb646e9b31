//! Native backend of a playlist desktop application.
//!
//! The backend exposes one operation to the front-end — opening a URL in the
//! user's default browser — and declares the schema migrations of the
//! embedded store. Both live here with their contracts: the command forwards
//! its URL unchanged and reports every failure as a non-empty message, and
//! the migration list is pinned down to the single statement that creates
//! the `playlists` table.

pub mod commands;
pub mod migrations;
