//! The statement: a table, the columns to select and the predicates to
//! filter by, put together as query text.

use vstd::prelude::*;
use crate::filter::Filter;
use crate::ident::{snake_case, snake_case_text};
use crate::text::{join, joined, texts};

verus! {

/// What a statement holds, as plain text.
pub struct Statement {
    /// The table's name.
    pub table: Seq<char>,
    /// The columns to select, if any were set.
    pub cols: Option<Seq<Seq<char>>>,
    /// The text of each predicate, if any were set.
    pub predicates: Option<Seq<Seq<char>>>,
}

/// The canonical form of each name, in the same order.
pub open spec fn snake_names(names: Seq<Seq<char>>) -> Seq<Seq<char>> {
    names.map_values(|name: Seq<char>| snake_case_text(name))
}

/// The column list: `*` where no column is named, else the canonical form of
/// each column, in the given order, with a comma and no space between two.
pub open spec fn select_list(cols: Option<Seq<Seq<char>>>) -> Seq<char> {
    match cols {
        Some(names) if names.len() > 0 => joined(snake_names(names), ","@),
        _ => "*"@,
    }
}

/// The line of the predicate at position `idx`: two spaces, `AND ` unless it
/// is the first, the predicate in parentheses, and a line break.
pub open spec fn where_line(idx: int, predicate: Seq<char>) -> Seq<char> {
    if idx > 0 {
        "  "@ + "AND "@ + "("@ + predicate + ")"@ + "\n"@
    } else {
        "  "@ + "("@ + predicate + ")"@ + "\n"@
    }
}

/// The lines of the first `n` predicates, in their order.
pub open spec fn where_lines(predicates: Seq<Seq<char>>, n: nat) -> Seq<char>
    decreases n,
{
    if n == 0 {
        Seq::empty()
    } else {
        where_lines(predicates, (n - 1) as nat) + where_line(n - 1, predicates[n - 1])
    }
}

/// The `WHERE` section: nothing where there is no predicate, else the line
/// `WHERE` and then one line for each predicate.
pub open spec fn where_section(predicates: Option<Seq<Seq<char>>>) -> Seq<char> {
    match predicates {
        Some(ps) if ps.len() > 0 => "WHERE\n"@ + where_lines(ps, ps.len()),
        _ => Seq::empty(),
    }
}

/// The text of the whole query: the `SELECT` section, the `FROM` section with
/// the table's name as it is, and the `WHERE` section.
pub open spec fn query_text(st: Statement) -> Seq<char> {
    "SELECT\n  "@ + select_list(st.cols) + "\n"@ + "FROM "@ + st.table + "\n"@ + where_section(
        st.predicates,
    )
}

/// The text of each filter, in the same order.
pub open spec fn predicates_of(filters: Seq<Box<dyn Filter>>) -> Seq<Seq<char>> {
    filters.map_values(|f: Box<dyn Filter>| f.predicate())
}

/// A query on one table. Columns and predicates are set as a whole; the text
/// is made when it is asked for.
pub struct SQLable {
    table: String,
    cols: Option<Vec<String>>,
    filter: Option<Vec<Box<dyn Filter>>>,
}

impl View for SQLable {
    type V = Statement;

    closed spec fn view(&self) -> Statement {
        Statement {
            table: self.table@,
            cols: match self.cols {
                Some(names) => Some(texts(names@)),
                None => None,
            },
            predicates: match self.filter {
                Some(filters) => Some(predicates_of(filters@)),
                None => None,
            },
        }
    }
}

impl SQLable {
    /// A statement on the table `tbl`, with no column and no predicate set.
    pub fn new(tbl: &str) -> (st: Self)
        ensures
            st@ == (Statement { table: tbl@, cols: None, predicates: None }),
    {
        SQLable { table: tbl.to_owned(), cols: None, filter: None }
    }

    /// The columns as they were set.
    pub fn get_cols(&self) -> (cols: &Option<Vec<String>>)
        ensures
            cols is Some <==> self@.cols is Some,
            cols matches Some(names) ==> texts(names@) == self@.cols->0,
    {
        &self.cols
    }

    /// The columns in their canonical form.
    pub fn get_snake_cols(&self) -> (cols: Option<Vec<String>>)
        ensures
            cols is Some <==> self@.cols is Some,
            cols matches Some(names) ==> texts(names@) == snake_names(self@.cols->0),
    {
        match &self.cols {
            Some(names) => Some(snake_all(names)),
            None => None,
        }
    }

    fn prepare_select(&self) -> (s: String)
        ensures
            s@ == select_list(self@.cols),
    {
        if self.cols.is_none() {
            return "*".to_owned();
        }
        let cols = self.cols.as_ref().unwrap();
        if cols.is_empty() {
            return "*".to_owned();
        }
        let names = snake_all(cols);
        join(&names, ",")
    }

    fn prepare_filter(&self) -> (lines: Vec<String>)
        ensures
            texts(lines@) == match self@.predicates {
                Some(ps) => ps,
                None => Seq::empty(),
            },
    {
        if self.filter.is_none() {
            return Vec::new();
        }
        let filter = self.filter.as_ref().unwrap();
        let mut result: Vec<String> = Vec::with_capacity(filter.len());
        let mut i: usize = 0;
        while i < filter.len()
            invariant
                i <= filter.len(),
                result@.len() == i,
                forall|j: int| 0 <= j < i ==> (#[trigger] result@[j])@ == filter@[j].predicate(),
            decreases filter.len() - i,
        {
            result.push(filter[i].apply_filter());
            i = i + 1;
        }
        result
    }

    /// Sets the columns to select, in place of any set before.
    pub fn select(&mut self, cols: Vec<String>) -> (st: &mut Self)
        ensures
            st@ == (Statement { cols: Some(texts(cols@)), ..old(self)@ }),
            *final(self) == *final(st),
    {
        self.cols = Some(cols);
        self
    }

    /// Sets the predicates to filter by, in place of any set before.
    pub fn filter(&mut self, cols: Vec<Box<dyn Filter>>) -> (st: &mut Self)
        ensures
            st@ == (Statement { predicates: Some(predicates_of(cols@)), ..old(self)@ }),
            *final(self) == *final(st),
    {
        self.filter = Some(cols);
        self
    }

    /// The text of the query.
    pub fn prepare(&self) -> (output: String)
        ensures
            output@ == query_text(self@),
    {
        let mut output = String::from_str("SELECT\n  ");
        let select = self.prepare_select();
        output.append(select.as_str());
        output.append("\n");
        output.append("FROM ");
        output.append(self.table.as_str());
        output.append("\n");
        let f = self.prepare_filter();
        let ghost sections = output@;
        if !f.is_empty() {
            output.append("WHERE\n");
            let ghost head = output@;
            let mut idx: usize = 0;
            while idx < f.len()
                invariant
                    idx <= f.len(),
                    output@ == head + where_lines(texts(f@), idx as nat),
                decreases f.len() - idx,
            {
                output.append("  ");
                if idx > 0 {
                    output.append("AND ");
                }
                output.append("(");
                output.append(f[idx].as_str());
                output.append(")");
                output.append("\n");
                idx = idx + 1;
            }
            assert(texts(f@).len() == f@.len());
        }
        output
    }
}

/// The canonical form of each name, in the same order.
fn snake_all(names: &Vec<String>) -> (result: Vec<String>)
    ensures
        texts(result@) == snake_names(texts(names@)),
{
    let mut result: Vec<String> = Vec::with_capacity(names.len());
    let mut i: usize = 0;
    while i < names.len()
        invariant
            i <= names.len(),
            result@.len() == i,
            forall|j: int| 0 <= j < i ==> (#[trigger] result@[j])@ == snake_case_text(names@[j]@),
        decreases names.len() - i,
    {
        result.push(snake_case(names[i].as_str()));
        i = i + 1;
    }
    result
}

/// A statement with no column and no predicate set selects every column of
/// its table and has no `WHERE` section.
pub proof fn lemma_bare_statement(table: Seq<char>)
    ensures
        query_text(Statement { table, cols: None, predicates: None }) == "SELECT\n  *\nFROM "@
            + table + "\n"@,
{
    reveal_strlit("SELECT\n  ");
    reveal_strlit("*");
    reveal_strlit("\n");
    reveal_strlit("FROM ");
    reveal_strlit("SELECT\n  *\nFROM ");
}

/// With two predicates the `WHERE` section has three lines: `WHERE`, the
/// first predicate with no keyword before it, and the second behind `AND`.
/// They stand in the order in which they were given.
pub proof fn lemma_two_predicates(first: Seq<char>, second: Seq<char>)
    ensures
        where_section(Some(seq![first, second])) == "WHERE\n"@ + "  ("@ + first + ")\n"@
            + "  AND ("@ + second + ")\n"@,
{
    reveal_strlit("  ");
    reveal_strlit("AND ");
    reveal_strlit("(");
    reveal_strlit(")");
    reveal_strlit("\n");
    reveal_strlit("  (");
    reveal_strlit(")\n");
    reveal_strlit("  AND (");
    reveal_with_fuel(where_lines, 3);
}

/// Each predicate's line depends on its own text and on whether it is the
/// first, and the lines stand in the order of the predicates: one more
/// predicate at the end adds its line at the end and changes no line before
/// it.
pub proof fn lemma_predicate_appended(predicates: Seq<Seq<char>>, last: Seq<char>)
    ensures
        where_lines(predicates.push(last), predicates.len() + 1) == where_lines(
            predicates,
            predicates.len(),
        ) + where_line(predicates.len() as int, last),
{
    lemma_where_lines_of_prefix(predicates, predicates.push(last), predicates.len());
}

proof fn lemma_where_lines_of_prefix(a: Seq<Seq<char>>, b: Seq<Seq<char>>, n: nat)
    requires
        n <= a.len() <= b.len(),
        forall|i: int| 0 <= i < n ==> a[i] == b[i],
    ensures
        where_lines(a, n) == where_lines(b, n),
    decreases n,
{
    if n > 0 {
        lemma_where_lines_of_prefix(a, b, (n - 1) as nat);
    }
}

/// Two texts made of one statement are the same text: what `prepare` returns
/// depends on what the statement holds and on nothing else.
pub proof fn lemma_prepare_repeatable(st: SQLable, first: String, second: String)
    requires
        first@ == query_text(st@),
        second@ == query_text(st@),
    ensures
        first@ == second@,
{
}

} // verus!
