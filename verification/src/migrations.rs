//! Schema migrations of the embedded store: the model of the `playlists`
//! table, the rendering of that model into SQL, and the versioned migration
//! list that the application applies once at startup.

use vstd::prelude::*;
use vstd::string::StringExecFns;

verus! {

/// The column types the schema uses.
#[derive(Clone, Copy, Debug, PartialEq, Eq, Structural)]
pub enum ColumnType {
    Integer,
    Text,
    DateTime,
}

/// One column of a table: its name, its type, and the constraints attached
/// to it.
pub struct Column {
    pub name: String,
    pub ctype: ColumnType,
    /// The store assigns the value: `PRIMARY KEY AUTOINCREMENT`.
    pub auto_primary_key: bool,
    /// The column is mandatory: `NOT NULL`.
    pub required: bool,
    /// The store fills an omitted value with the time of insertion:
    /// `DEFAULT CURRENT_TIMESTAMP`.
    pub default_now: bool,
}

/// The mathematical model of a column.
#[verifier::ext_equal]
pub struct ColumnModel {
    pub name: Seq<char>,
    pub ctype: ColumnType,
    pub auto_primary_key: bool,
    pub required: bool,
    pub default_now: bool,
}

impl View for Column {
    type V = ColumnModel;

    open spec fn view(&self) -> ColumnModel {
        ColumnModel {
            name: self.name@,
            ctype: self.ctype,
            auto_primary_key: self.auto_primary_key,
            required: self.required,
            default_now: self.default_now,
        }
    }
}

/// A table: its name and its columns, in declaration order.
pub struct TableSchema {
    pub name: String,
    pub columns: Vec<Column>,
}

/// The mathematical model of a table.
#[verifier::ext_equal]
pub struct TableSchemaModel {
    pub name: Seq<char>,
    pub columns: Seq<ColumnModel>,
}

impl View for TableSchema {
    type V = TableSchemaModel;

    open spec fn view(&self) -> TableSchemaModel {
        TableSchemaModel {
            name: self.name@,
            columns: self.columns@.map_values(|c: Column| c@),
        }
    }
}

/// The SQL word for a column type.
pub open spec fn type_sql(t: ColumnType) -> Seq<char> {
    match t {
        ColumnType::Integer => "INTEGER"@,
        ColumnType::Text => "TEXT"@,
        ColumnType::DateTime => "DATETIME"@,
    }
}

/// The SQL fragment declaring one column: its name, its type, and each
/// constraint it carries, in that order.
pub open spec fn column_sql_model(c: ColumnModel) -> Seq<char> {
    c.name + " "@ + type_sql(c.ctype) + (if c.auto_primary_key {
        " PRIMARY KEY AUTOINCREMENT"@
    } else {
        Seq::<char>::empty()
    }) + (if c.required {
        " NOT NULL"@
    } else {
        Seq::<char>::empty()
    }) + (if c.default_now {
        " DEFAULT CURRENT_TIMESTAMP"@
    } else {
        Seq::<char>::empty()
    })
}

/// The declarations of all columns, joined by `", "`.
pub open spec fn columns_sql_model(cols: Seq<ColumnModel>) -> Seq<char>
    decreases cols.len(),
{
    if cols.len() == 0 {
        Seq::<char>::empty()
    } else if cols.len() == 1 {
        column_sql_model(cols[0])
    } else {
        columns_sql_model(cols.drop_last()) + ", "@ + column_sql_model(cols.last())
    }
}

/// The statement that creates the table where it does not exist yet.
pub open spec fn create_table_sql_model(t: TableSchemaModel) -> Seq<char> {
    "CREATE TABLE IF NOT EXISTS "@ + t.name + " ("@ + columns_sql_model(t.columns) + ");"@
}

/// Renders the declaration of one column.
pub fn column_sql(c: &Column) -> (r: String)
    ensures
        r@ == column_sql_model(c@),
{
    let mut s = c.name.clone();
    s.append(" ");
    match c.ctype {
        ColumnType::Integer => s.append("INTEGER"),
        ColumnType::Text => s.append("TEXT"),
        ColumnType::DateTime => s.append("DATETIME"),
    }
    if c.auto_primary_key {
        s.append(" PRIMARY KEY AUTOINCREMENT");
    }
    if c.required {
        s.append(" NOT NULL");
    }
    if c.default_now {
        s.append(" DEFAULT CURRENT_TIMESTAMP");
    }
    proof {
        assert(s@ =~= column_sql_model(c@));
    }
    s
}

/// Renders the declarations of all columns, joined by `", "`.
pub fn columns_sql(cols: &Vec<Column>) -> (r: String)
    ensures
        r@ == columns_sql_model(cols@.map_values(|c: Column| c@)),
{
    let ghost m = cols@.map_values(|c: Column| c@);
    let mut s = String::new();
    let mut i: usize = 0;
    while i < cols.len()
        invariant
            i <= cols.len(),
            m == cols@.map_values(|c: Column| c@),
            s@ == columns_sql_model(m.take(i as int)),
        decreases cols.len() - i,
    {
        if i > 0 {
            s.append(", ");
        }
        let piece = column_sql(&cols[i]);
        s.append(piece.as_str());
        proof {
            assert(m.take(i + 1 as int).drop_last() =~= m.take(i as int));
            assert(s@ =~= columns_sql_model(m.take(i + 1 as int)));
        }
        i += 1;
    }
    proof {
        assert(m.take(cols@.len() as int) =~= m);
    }
    s
}

/// Renders the statement that creates `t` where it does not exist yet.
pub fn create_table_sql(t: &TableSchema) -> (r: String)
    ensures
        r@ == create_table_sql_model(t@),
{
    let mut s = String::from_str("CREATE TABLE IF NOT EXISTS ");
    s.append(t.name.as_str());
    s.append(" (");
    let cols = columns_sql(&t.columns);
    s.append(cols.as_str());
    s.append(");");
    proof {
        assert(s@ =~= create_table_sql_model(t@));
    }
    s
}

/// The schema of the `playlists` table: the store assigns `id`; `name`, the
/// file location and the serialized track list are mandatory; the artist and
/// the image are optional; `created_at` defaults to the time of insertion.
pub open spec fn playlists_schema() -> TableSchemaModel {
    TableSchemaModel {
        name: "playlists"@,
        columns: seq![
            ColumnModel {
                name: "id"@,
                ctype: ColumnType::Integer,
                auto_primary_key: true,
                required: false,
                default_now: false,
            },
            ColumnModel {
                name: "name"@,
                ctype: ColumnType::Text,
                auto_primary_key: false,
                required: true,
                default_now: false,
            },
            ColumnModel {
                name: "artist"@,
                ctype: ColumnType::Text,
                auto_primary_key: false,
                required: false,
                default_now: false,
            },
            ColumnModel {
                name: "image"@,
                ctype: ColumnType::Text,
                auto_primary_key: false,
                required: false,
                default_now: false,
            },
            ColumnModel {
                name: "file_location"@,
                ctype: ColumnType::Text,
                auto_primary_key: false,
                required: true,
                default_now: false,
            },
            ColumnModel {
                name: "playlist"@,
                ctype: ColumnType::Text,
                auto_primary_key: false,
                required: true,
                default_now: false,
            },
            ColumnModel {
                name: "created_at"@,
                ctype: ColumnType::DateTime,
                auto_primary_key: false,
                required: false,
                default_now: true,
            },
        ],
    }
}

/// Builds the `playlists` table.
pub fn playlists_table() -> (r: TableSchema)
    ensures
        r@ == playlists_schema(),
{
    let mut columns: Vec<Column> = Vec::new();
    columns.push(Column {
        name: "id".to_owned(),
        ctype: ColumnType::Integer,
        auto_primary_key: true,
        required: false,
        default_now: false,
    });
    columns.push(Column {
        name: "name".to_owned(),
        ctype: ColumnType::Text,
        auto_primary_key: false,
        required: true,
        default_now: false,
    });
    columns.push(Column {
        name: "artist".to_owned(),
        ctype: ColumnType::Text,
        auto_primary_key: false,
        required: false,
        default_now: false,
    });
    columns.push(Column {
        name: "image".to_owned(),
        ctype: ColumnType::Text,
        auto_primary_key: false,
        required: false,
        default_now: false,
    });
    columns.push(Column {
        name: "file_location".to_owned(),
        ctype: ColumnType::Text,
        auto_primary_key: false,
        required: true,
        default_now: false,
    });
    columns.push(Column {
        name: "playlist".to_owned(),
        ctype: ColumnType::Text,
        auto_primary_key: false,
        required: true,
        default_now: false,
    });
    columns.push(Column {
        name: "created_at".to_owned(),
        ctype: ColumnType::DateTime,
        auto_primary_key: false,
        required: false,
        default_now: true,
    });
    let t = TableSchema { name: "playlists".to_owned(), columns };
    proof {
        assert(t@.columns =~= playlists_schema().columns);
        assert(t@ =~= playlists_schema());
    }
    t
}

/// How a migration is applied: forward or as a rollback.
#[derive(Clone, Copy, Debug, PartialEq, Eq, Structural)]
pub enum MigrationKind {
    Up,
    Down,
}

/// One versioned schema change of the embedded store.
pub struct Migration {
    pub version: i64,
    pub description: String,
    pub sql: String,
    pub kind: MigrationKind,
}

/// The migrations of the embedded store, in the order they are applied:
/// exactly one, version 1, creating the `playlists` table.
pub fn migrations() -> (r: Vec<Migration>)
    ensures
        r@.len() == 1,
        r@[0].version == 1,
        r@[0].description@ == "create_playlists_table"@,
        r@[0].sql@ == create_table_sql_model(playlists_schema()),
        r@[0].kind == MigrationKind::Up,
{
    let table = playlists_table();
    let sql = create_table_sql(&table);
    let m = Migration {
        version: 1,
        description: "create_playlists_table".to_owned(),
        sql,
        kind: MigrationKind::Up,
    };
    let mut r: Vec<Migration> = Vec::new();
    r.push(m);
    r
}

/// Applied to an empty store, the migration list creates exactly one table,
/// named `playlists`, whose first column is the auto-assigned integer primary
/// key and whose six further columns are the declared data columns. (Which
/// identifier the store then hands the first inserted row is the engine's
/// affair, not modelled here.)
pub proof fn lemma_migrations_create_playlists_table()
    ensures
        playlists_schema().name == "playlists"@,
        playlists_schema().columns.len() == 7,
        playlists_schema().columns[0].name == "id"@,
        playlists_schema().columns[0].ctype == ColumnType::Integer,
        playlists_schema().columns[0].auto_primary_key,
        playlists_schema().columns[1].name == "name"@,
        playlists_schema().columns[2].name == "artist"@,
        playlists_schema().columns[3].name == "image"@,
        playlists_schema().columns[4].name == "file_location"@,
        playlists_schema().columns[5].name == "playlist"@,
        playlists_schema().columns[6].name == "created_at"@,
        forall|i: int|
            1 <= i < playlists_schema().columns.len()
                ==> !(#[trigger] playlists_schema().columns[i]).auto_primary_key,
{
}

} // verus!
