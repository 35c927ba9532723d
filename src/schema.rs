//! The catalog entities of one database and the marking of key columns.

use vstd::prelude::*;
use vstd::string::StringExecFns;

verus! {

/// A base table, identified by its schema and name.
#[derive(Debug, Clone, PartialEq, Eq)]
pub struct Table {
    pub schema: String,
    pub name: String,
    pub description: Option<String>,
}

/// A column of a table, with its position in the table's column order.
#[derive(Debug, Clone, PartialEq, Eq)]
pub struct Column {
    pub table_schema: String,
    pub table_name: String,
    pub name: String,
    pub data_type: String,
    pub is_nullable: bool,
    pub is_primary_key: bool,
    pub is_foreign_key: bool,
    pub ordinal_position: i32,
    pub description: Option<String>,
}

/// One referencing column of a foreign-key constraint.
#[derive(Debug, Clone, PartialEq, Eq)]
pub struct ForeignKey {
    pub constraint_name: String,
    pub parent_table: String,
    pub parent_column: String,
    pub referenced_table: String,
    pub referenced_column: String,
}

/// One column that takes part in a table's primary key.
#[derive(Debug, Clone, PartialEq, Eq)]
pub struct PrimaryKey {
    pub table_name: String,
    pub column_name: String,
}

/// Everything extracted from one database in one pass.
#[derive(Debug, Clone, PartialEq, Eq)]
pub struct SchemaData {
    pub tables: Vec<Table>,
    pub columns: Vec<Column>,
    pub foreign_keys: Vec<ForeignKey>,
    pub primary_keys: Vec<PrimaryKey>,
}

/// Values that can be copied field by field, with the copy provably equal.
pub trait Duplicate: Sized {
    fn duplicate(&self) -> (r: Self)
        ensures
            r == *self,
    ;
}

/// A copy of an optional text.
pub fn copy_text(t: &Option<String>) -> (r: Option<String>)
    ensures
        r == *t,
{
    match t {
        Some(s) => Some(s.clone()),
        None => None,
    }
}

/// A copy of every element, in order.
pub fn duplicate_all<T: Duplicate>(v: &Vec<T>) -> (r: Vec<T>)
    ensures
        r@ == v@,
{
    let mut r: Vec<T> = Vec::new();
    let mut i: usize = 0;
    while i < v.len()
        invariant
            i <= v@.len(),
            r@ == v@.subrange(0, i as int),
        decreases v@.len() - i,
    {
        r.push(v[i].duplicate());
        i = i + 1;
    }
    assert(r@ =~= v@);
    r
}

impl Duplicate for Table {
    fn duplicate(&self) -> (r: Table) {
        Table { schema: self.schema.clone(), name: self.name.clone(), description: copy_text(&self.description) }
    }
}

impl Duplicate for Column {
    fn duplicate(&self) -> (r: Column) {
        Column {
            table_schema: self.table_schema.clone(),
            table_name: self.table_name.clone(),
            name: self.name.clone(),
            data_type: self.data_type.clone(),
            is_nullable: self.is_nullable,
            is_primary_key: self.is_primary_key,
            is_foreign_key: self.is_foreign_key,
            ordinal_position: self.ordinal_position,
            description: copy_text(&self.description),
        }
    }
}

impl Duplicate for ForeignKey {
    fn duplicate(&self) -> (r: ForeignKey) {
        ForeignKey {
            constraint_name: self.constraint_name.clone(),
            parent_table: self.parent_table.clone(),
            parent_column: self.parent_column.clone(),
            referenced_table: self.referenced_table.clone(),
            referenced_column: self.referenced_column.clone(),
        }
    }
}

impl Duplicate for PrimaryKey {
    fn duplicate(&self) -> (r: PrimaryKey) {
        PrimaryKey { table_name: self.table_name.clone(), column_name: self.column_name.clone() }
    }
}

/// The four row sequences of a schema.
pub struct SchemaView {
    pub tables: Seq<Table>,
    pub columns: Seq<Column>,
    pub foreign_keys: Seq<ForeignKey>,
    pub primary_keys: Seq<PrimaryKey>,
}

impl View for SchemaData {
    type V = SchemaView;

    open spec fn view(&self) -> SchemaView {
        SchemaView {
            tables: self.tables@,
            columns: self.columns@,
            foreign_keys: self.foreign_keys@,
            primary_keys: self.primary_keys@,
        }
    }
}

impl SchemaData {
    /// A schema with no rows.
    pub fn empty() -> (r: SchemaData)
        ensures
            r@.tables.len() == 0,
            r@.columns.len() == 0,
            r@.foreign_keys.len() == 0,
            r@.primary_keys.len() == 0,
    {
        SchemaData { tables: Vec::new(), columns: Vec::new(), foreign_keys: Vec::new(), primary_keys: Vec::new() }
    }

    /// A copy with the same rows in the same order.
    pub fn duplicate(&self) -> (r: SchemaData)
        ensures
            r@ == self@,
    {
        SchemaData {
            tables: duplicate_all(&self.tables),
            columns: duplicate_all(&self.columns),
            foreign_keys: duplicate_all(&self.foreign_keys),
            primary_keys: duplicate_all(&self.primary_keys),
        }
    }
}

/// The code of a character with an ASCII capital mapped to its lower case.
pub open spec fn ascii_folded(c: char) -> u32 {
    if 65 <= c as u32 && c as u32 <= 90 {
        (c as u32 + 32) as u32
    } else {
        c as u32
    }
}

/// Two names are equal when ASCII letters are compared without case.
pub open spec fn same_ignoring_ascii_case(a: Seq<char>, b: Seq<char>) -> bool {
    a.len() == b.len() && forall|i: int| 0 <= i < a.len() ==> ascii_folded(a[i]) == ascii_folded(b[i])
}

/// Relies on str::eq_ignore_ascii_case: the two texts match once ASCII
/// capitals are lowered, every other character compared as it stands.
#[verifier::external_body]
fn eq_ignore_case(a: &str, b: &str) -> (r: bool)
    ensures
        r == same_ignoring_ascii_case(a@, b@),
{
    a.eq_ignore_ascii_case(b)
}

/// Some primary-key row names this column of this table.
pub open spec fn in_primary_key(pks: Seq<PrimaryKey>, table: Seq<char>, column: Seq<char>) -> bool {
    exists|k: int|
        0 <= k < pks.len() && same_ignoring_ascii_case(pks[k].table_name@, table)
            && same_ignoring_ascii_case(pks[k].column_name@, column)
}

/// Some foreign-key row has this column of this table as its referencing side.
pub open spec fn in_foreign_key(fks: Seq<ForeignKey>, table: Seq<char>, column: Seq<char>) -> bool {
    exists|k: int|
        0 <= k < fks.len() && same_ignoring_ascii_case(fks[k].parent_table@, table)
            && same_ignoring_ascii_case(fks[k].parent_column@, column)
}

/// The column with both key flags replaced.
pub open spec fn with_key_flags(c: Column, pk: bool, fk: bool) -> Column {
    Column {
        table_schema: c.table_schema,
        table_name: c.table_name,
        name: c.name,
        data_type: c.data_type,
        is_nullable: c.is_nullable,
        is_primary_key: pk,
        is_foreign_key: fk,
        ordinal_position: c.ordinal_position,
        description: c.description,
    }
}

/// The column with its key flags set from the key rows.
pub open spec fn marked(c: Column, pks: Seq<PrimaryKey>, fks: Seq<ForeignKey>) -> Column {
    with_key_flags(
        c,
        in_primary_key(pks, c.table_name@, c.name@),
        in_foreign_key(fks, c.table_name@, c.name@),
    )
}

/// Whether a primary-key row names the column, matching names without ASCII case.
pub fn is_primary_key_column(pks: &Vec<PrimaryKey>, table: &str, column: &str) -> (r: bool)
    ensures
        r == in_primary_key(pks@, table@, column@),
{
    let mut k: usize = 0;
    while k < pks.len()
        invariant
            k <= pks@.len(),
            forall|j: int|
                0 <= j < k ==> !(same_ignoring_ascii_case(pks@[j].table_name@, table@)
                    && same_ignoring_ascii_case(pks@[j].column_name@, column@)),
        decreases pks@.len() - k,
    {
        if eq_ignore_case(pks[k].table_name.as_str(), table) && eq_ignore_case(pks[k].column_name.as_str(), column) {
            return true;
        }
        k = k + 1;
    }
    false
}

/// Whether a foreign-key row has the column as its referencing side, matching
/// names without ASCII case.
pub fn is_foreign_key_column(fks: &Vec<ForeignKey>, table: &str, column: &str) -> (r: bool)
    ensures
        r == in_foreign_key(fks@, table@, column@),
{
    let mut k: usize = 0;
    while k < fks.len()
        invariant
            k <= fks@.len(),
            forall|j: int|
                0 <= j < k ==> !(same_ignoring_ascii_case(fks@[j].parent_table@, table@)
                    && same_ignoring_ascii_case(fks@[j].parent_column@, column@)),
        decreases fks@.len() - k,
    {
        if eq_ignore_case(fks[k].parent_table.as_str(), table) && eq_ignore_case(fks[k].parent_column.as_str(), column) {
            return true;
        }
        k = k + 1;
    }
    false
}

/// Sets each column's key flags: primary key when a primary-key row names it,
/// foreign key when a foreign-key row has it as referencing side; every other
/// field, and the order of the columns, stays as it was.
pub fn mark_key_columns(columns: &mut Vec<Column>, pks: &Vec<PrimaryKey>, fks: &Vec<ForeignKey>)
    ensures
        final(columns)@.len() == old(columns)@.len(),
        forall|i: int| 0 <= i < old(columns)@.len() ==> final(columns)@[i] == marked(old(columns)@[i], pks@, fks@),
{
    let ghost before = columns@;
    let mut i: usize = 0;
    while i < columns.len()
        invariant
            columns@.len() == before.len(),
            i <= before.len(),
            forall|j: int| 0 <= j < i ==> columns@[j] == marked(before[j], pks@, fks@),
            forall|j: int| i <= j < before.len() ==> columns@[j] == before[j],
        decreases before.len() - i,
    {
        let pk = is_primary_key_column(pks, columns[i].table_name.as_str(), columns[i].name.as_str());
        let fk = is_foreign_key_column(fks, columns[i].table_name.as_str(), columns[i].name.as_str());
        let mut c = columns[i].duplicate();
        c.is_primary_key = pk;
        c.is_foreign_key = fk;
        columns.set(i, c);
        i = i + 1;
    }
}

/// The schema of one extraction: the rows of the four catalog queries, with
/// each column's key flags set from the key rows.
pub fn assemble_schema(
    tables: Vec<Table>,
    columns: Vec<Column>,
    primary_keys: Vec<PrimaryKey>,
    foreign_keys: Vec<ForeignKey>,
) -> (r: SchemaData)
    ensures
        r@.tables == tables@,
        r@.primary_keys == primary_keys@,
        r@.foreign_keys == foreign_keys@,
        r@.columns.len() == columns@.len(),
        forall|i: int| 0 <= i < columns@.len() ==> r@.columns[i] == marked(columns@[i], primary_keys@, foreign_keys@),
{
    let mut columns = columns;
    mark_key_columns(&mut columns, &primary_keys, &foreign_keys);
    SchemaData { tables, columns, foreign_keys, primary_keys }
}


/// The text, or `default` when the catalog gave none.
pub open spec fn text_or(t: Option<String>, default: Seq<char>) -> Seq<char> {
    match t {
        Some(s) => s@,
        None => default,
    }
}

/// The text, or `default` when it is absent.
fn unwrap_text(t: Option<String>, default: &str) -> (r: String)
    ensures
        r@ == text_or(t, default@),
{
    match t {
        Some(s) => s,
        None => default.to_owned(),
    }
}

/// A table from one row of the tables query; a missing schema reads as
/// `dbo`, a missing name as empty.
pub fn table_from_row(schema: Option<String>, name: Option<String>) -> (r: Table)
    ensures
        r.schema@ == text_or(schema, "dbo"@),
        r.name@ == text_or(name, ""@),
        r.description is None,
{
    Table { schema: unwrap_text(schema, "dbo"), name: unwrap_text(name, ""), description: None }
}

/// A column from one row of the columns query. A missing schema reads as
/// `dbo`, a missing nullability as `YES`, a missing position as 0, other
/// missing texts as empty; the key flags start cleared.
pub fn column_from_row(
    table_schema: Option<String>,
    table_name: Option<String>,
    name: Option<String>,
    data_type: Option<String>,
    is_nullable: Option<String>,
    ordinal_position: Option<i32>,
) -> (r: Column)
    ensures
        r.table_schema@ == text_or(table_schema, "dbo"@),
        r.table_name@ == text_or(table_name, ""@),
        r.name@ == text_or(name, ""@),
        r.data_type@ == text_or(data_type, ""@),
        r.is_nullable == (text_or(is_nullable, "YES"@) == "YES"@),
        !r.is_primary_key,
        !r.is_foreign_key,
        r.ordinal_position == (match ordinal_position {
            Some(p) => p,
            None => 0,
        }),
        r.description is None,
{
    let nullable = unwrap_text(is_nullable, "YES");
    Column {
        table_schema: unwrap_text(table_schema, "dbo"),
        table_name: unwrap_text(table_name, ""),
        name: unwrap_text(name, ""),
        data_type: unwrap_text(data_type, ""),
        is_nullable: nullable.eq(&String::from_str("YES")),
        is_primary_key: false,
        is_foreign_key: false,
        ordinal_position: match ordinal_position {
            Some(p) => p,
            None => 0,
        },
        description: None,
    }
}

/// A primary-key membership from one row of the primary-key query; missing
/// names read as empty.
pub fn primary_key_from_row(table_name: Option<String>, column_name: Option<String>) -> (r: PrimaryKey)
    ensures
        r.table_name@ == text_or(table_name, ""@),
        r.column_name@ == text_or(column_name, ""@),
{
    PrimaryKey { table_name: unwrap_text(table_name, ""), column_name: unwrap_text(column_name, "") }
}

/// A foreign-key column pair from one row of the foreign-key query; missing
/// names read as empty.
pub fn foreign_key_from_row(
    constraint_name: Option<String>,
    parent_table: Option<String>,
    parent_column: Option<String>,
    referenced_table: Option<String>,
    referenced_column: Option<String>,
) -> (r: ForeignKey)
    ensures
        r.constraint_name@ == text_or(constraint_name, ""@),
        r.parent_table@ == text_or(parent_table, ""@),
        r.parent_column@ == text_or(parent_column, ""@),
        r.referenced_table@ == text_or(referenced_table, ""@),
        r.referenced_column@ == text_or(referenced_column, ""@),
{
    ForeignKey {
        constraint_name: unwrap_text(constraint_name, ""),
        parent_table: unwrap_text(parent_table, ""),
        parent_column: unwrap_text(parent_column, ""),
        referenced_table: unwrap_text(referenced_table, ""),
        referenced_column: unwrap_text(referenced_column, ""),
    }
}

} // verus!
