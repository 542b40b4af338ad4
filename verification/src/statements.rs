//! The SQL text of each operation on a table.

use vstd::prelude::*;
use crate::text::{join, joined, texts, trim_end, trimmed_end};

verus! {

/// The statements of one table, as text with `?` for each parameter.
#[derive(Debug, PartialEq, Eq)]
pub struct Statements {
    /// Selects every row.
    pub select_base: String,
    /// Counts every row.
    pub count_base: String,
    /// Selects the row with a given key.
    pub find: String,
    /// Deletes the row with a given key.
    pub delete: String,
    /// Inserts a row.
    pub insert: String,
    /// Updates the row with a given key.
    pub update: String,
    /// Selects a page of the rows that meet a condition: a pattern with `{}`
    /// for the condition, the offset and the row count.
    pub page_select: String,
    /// Counts the rows that meet a condition: a pattern with `{}` for the
    /// condition.
    pub count_where: String,
}

/// The text of each statement.
pub struct StatementsView {
    pub select_base: Seq<char>,
    pub count_base: Seq<char>,
    pub find: Seq<char>,
    pub delete: Seq<char>,
    pub insert: Seq<char>,
    pub update: Seq<char>,
    pub page_select: Seq<char>,
    pub count_where: Seq<char>,
}

impl View for Statements {
    type V = StatementsView;

    open spec fn view(&self) -> StatementsView {
        StatementsView {
            select_base: self.select_base@,
            count_base: self.count_base@,
            find: self.find@,
            delete: self.delete@,
            insert: self.insert@,
            update: self.update@,
            page_select: self.page_select@,
            count_where: self.count_where@,
        }
    }
}

/// The column list of a statement: the names separated by `, `, without
/// white space at the end.
pub open spec fn column_list(columns: Seq<Seq<char>>) -> Seq<char> {
    trimmed_end(joined(columns, ", "@))
}

/// `n` parameter marks separated by `, `.
pub open spec fn placeholders(n: nat) -> Seq<char> {
    joined(Seq::new(n, |i: int| "?"@), ", "@)
}

/// One `column = ?` for each column, separated by `, `.
pub open spec fn assignments(columns: Seq<Seq<char>>) -> Seq<char> {
    joined(columns.map_values(|column: Seq<char>| column + " = ?"@), ", "@)
}

pub open spec fn select_base_sql(table: Seq<char>, id: Seq<char>, columns: Seq<Seq<char>>) -> Seq<
    char,
> {
    "SELECT "@ + id + ", "@ + column_list(columns) + " FROM "@ + table
}

pub open spec fn count_base_sql(table: Seq<char>) -> Seq<char> {
    "SELECT count(1) FROM "@ + table
}

pub open spec fn find_sql(table: Seq<char>, id: Seq<char>, columns: Seq<Seq<char>>) -> Seq<char> {
    select_base_sql(table, id, columns) + " WHERE "@ + id + " = ?"@
}

pub open spec fn delete_sql(table: Seq<char>, id: Seq<char>) -> Seq<char> {
    "DELETE FROM "@ + table + " WHERE "@ + id + " = ?"@
}

pub open spec fn insert_sql(table: Seq<char>, columns: Seq<Seq<char>>) -> Seq<char> {
    "INSERT INTO "@ + table + " ("@ + column_list(columns) + ") VALUES("@ + placeholders(
        columns.len(),
    ) + ")"@
}

pub open spec fn update_sql(table: Seq<char>, id: Seq<char>, columns: Seq<Seq<char>>) -> Seq<
    char,
> {
    "UPDATE "@ + table + " SET "@ + assignments(columns) + " WHERE "@ + id + " = ?"@
}

pub open spec fn page_select_sql(table: Seq<char>, id: Seq<char>, columns: Seq<Seq<char>>) -> Seq<
    char,
> {
    select_base_sql(table, id, columns) + " WHERE {} LIMIT {}, {}"@
}

pub open spec fn count_where_sql(table: Seq<char>) -> Seq<char> {
    count_base_sql(table) + " WHERE {}"@
}

/// The statements of the table `table` with the key column `id` and the
/// other columns `columns`.
pub open spec fn statements_of(table: Seq<char>, id: Seq<char>, columns: Seq<Seq<char>>)
    -> StatementsView {
    StatementsView {
        select_base: select_base_sql(table, id, columns),
        count_base: count_base_sql(table),
        find: find_sql(table, id, columns),
        delete: delete_sql(table, id),
        insert: insert_sql(table, columns),
        update: update_sql(table, id, columns),
        page_select: page_select_sql(table, id, columns),
        count_where: count_where_sql(table),
    }
}

/// The text of `n` parameter marks.
pub fn placeholder_list(n: usize) -> (text: String)
    ensures
        text@ == placeholders(n as nat),
{
    let mut text = String::new();
    let mut i: usize = 0;
    while i < n
        invariant
            i <= n,
            text@ == placeholders(i as nat),
        decreases n - i,
    {
        proof {
            let before = Seq::new(i as nat, |k: int| "?"@);
            let after = Seq::new((i + 1) as nat, |k: int| "?"@);
            assert(after.drop_last() =~= before);
            if i == 0 {
                assert(text@ + "?"@ =~= after[0]);
            }
        }
        if i > 0 {
            text.append(", ");
        }
        text.append("?");
        i += 1;
    }
    text
}

/// The text of one `column = ?` for each column.
pub fn assignment_list(columns: &Vec<String>) -> (text: String)
    ensures
        text@ == assignments(texts(columns@)),
{
    let mut parts: Vec<String> = Vec::new();
    let mut i: usize = 0;
    while i < columns.len()
        invariant
            i <= columns.len(),
            parts@.len() == i,
            forall|k: int| 0 <= k < i ==> (#[trigger] parts@[k])@ == columns@[k]@ + " = ?"@,
        decreases columns.len() - i,
    {
        let mut part = columns[i].clone();
        part.append(" = ?");
        parts.push(part);
        i += 1;
    }
    assert(texts(parts@) =~= texts(columns@).map_values(|column: Seq<char>| column + " = ?"@));
    join(&parts, ", ")
}

impl Statements {
    /// Writes the statements of a table.
    pub fn build(table: &str, id: &str, columns: &Vec<String>) -> (sql: Statements)
        ensures
            sql@ == statements_of(table@, id@, texts(columns@)),
    {
        let all = join(columns, ", ");
        let list = trim_end(all.as_str());

        let mut select_base = String::from_str("SELECT ");
        select_base.append(id);
        select_base.append(", ");
        select_base.append(list);
        select_base.append(" FROM ");
        select_base.append(table);

        let mut count_base = String::from_str("SELECT count(1) FROM ");
        count_base.append(table);

        let mut find = select_base.clone();
        find.append(" WHERE ");
        find.append(id);
        find.append(" = ?");

        let mut delete = String::from_str("DELETE FROM ");
        delete.append(table);
        delete.append(" WHERE ");
        delete.append(id);
        delete.append(" = ?");

        let marks = placeholder_list(columns.len());
        let mut insert = String::from_str("INSERT INTO ");
        insert.append(table);
        insert.append(" (");
        insert.append(list);
        insert.append(") VALUES(");
        insert.append(marks.as_str());
        insert.append(")");

        let set = assignment_list(columns);
        let mut update = String::from_str("UPDATE ");
        update.append(table);
        update.append(" SET ");
        update.append(set.as_str());
        update.append(" WHERE ");
        update.append(id);
        update.append(" = ?");

        let mut page_select = select_base.clone();
        page_select.append(" WHERE {} LIMIT {}, {}");

        let mut count_where = count_base.clone();
        count_where.append(" WHERE {}");

        Statements {
            select_base,
            count_base,
            find,
            delete,
            insert,
            update,
            page_select,
            count_where,
        }
    }
}

} // verus!
