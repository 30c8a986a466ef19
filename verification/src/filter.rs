//! A predicate: one column compared with one value.

use vstd::prelude::*;
use crate::value::{comparison, SQLComp, ToSql};

verus! {

/// The text of a predicate: the column, a space, and the comparison.
pub open spec fn predicate_text(column: Seq<char>, comparison: Seq<char>) -> Seq<char> {
    column + " "@ + comparison
}

/// A column compared with a value in one of the six ways. The column's name
/// is written out as it is given.
pub struct SQLFilter<T: ToSql> {
    pub column: String,
    pub filter: T,
    pub cmp: SQLComp,
}

/// Something that renders as one boolean SQL expression.
pub trait Filter {
    /// The expression.
    spec fn predicate(&self) -> Seq<char>;

    /// Renders the expression.
    fn apply_filter(&self) -> (s: String)
        ensures
            s@ == self.predicate(),
    ;
}

impl<T: ToSql> Filter for SQLFilter<T> {
    /// `<column> <operator> <literal>`, operator and literal being those of
    /// the value for this filter's comparison.
    open spec fn predicate(&self) -> Seq<char> {
        predicate_text(
            self.column@,
            comparison(self.filter.operator(self.cmp), self.filter.literal()),
        )
    }

    fn apply_filter(&self) -> (s: String) {
        let right = self.filter.compare(&self.cmp);
        let mut s = self.column.clone();
        s.append(" ");
        s.append(right.as_str());
        s
    }
}

} // verus!
