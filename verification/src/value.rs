//! Values that can stand on the right-hand side of a comparison: the literal
//! text of each, and the operator that each asks for.

use vstd::prelude::*;
use crate::decimal::{decimal_text, Numeric};
use crate::text::{join, joined, quote, quoted, texts};

verus! {

/// The six ways to compare a column with a value.
pub enum SQLComp {
    EQ,
    NEQ,
    GT,
    LT,
    GEQ,
    LEQ,
}

/// The operator of each comparison for a single value that is present.
pub open spec fn standard_operator(kind: SQLComp) -> Seq<char> {
    match kind {
        SQLComp::EQ => "="@,
        SQLComp::NEQ => "<>"@,
        SQLComp::GT => ">"@,
        SQLComp::LT => "<"@,
        SQLComp::GEQ => ">="@,
        SQLComp::LEQ => "<="@,
    }
}

/// The operator of each comparison for a value that may be absent. An absent
/// value is tested with `IS` and `IS NOT`; a present one with `=` and `<>`,
/// whatever it holds. The four ordering operators stay as they are.
pub open spec fn optional_operator(absent: bool, kind: SQLComp) -> Seq<char> {
    match kind {
        SQLComp::EQ => if absent { "IS"@ } else { "="@ },
        SQLComp::NEQ => if absent { "IS NOT"@ } else { "<>"@ },
        _ => standard_operator(kind),
    }
}

/// The operator of each comparison for a list of `len` values. More than one
/// value is tested with `IN` and `NOT IN`. The four ordering operators stay as
/// they are, however many values there are.
pub open spec fn list_operator(len: nat, kind: SQLComp) -> Seq<char> {
    match kind {
        SQLComp::EQ => if len > 1 { "IN"@ } else { "="@ },
        SQLComp::NEQ => if len > 1 { "NOT IN"@ } else { "<>"@ },
        _ => standard_operator(kind),
    }
}

/// The literal of a list, given the literal of each of its values. One value
/// stands alone, without parentheses. Any other number of values is joined by
/// commas and wrapped in parentheses; a list that holds nothing gives `()`.
pub open spec fn list_literal(items: Seq<Seq<char>>) -> Seq<char> {
    if items.len() == 1 {
        items[0]
    } else {
        "("@ + joined(items, ","@) + ")"@
    }
}

/// The right-hand side of a comparison: an operator and a literal, parted by
/// one space.
pub open spec fn comparison(operator: Seq<char>, literal: Seq<char>) -> Seq<char> {
    operator + " "@ + literal
}

/// A value that has an SQL literal and, for each comparison, an operator.
/// The operator may depend on the value: on whether it is absent, on how many
/// items it holds.
pub trait ToSql {
    /// The SQL literal of the value.
    spec fn literal(&self) -> Seq<char>;

    /// The operator that compares a column with this value in the given way.
    spec fn operator(&self, kind: SQLComp) -> Seq<char>;

    /// Renders the value as its SQL literal.
    fn to_sql(&self) -> (s: String)
        ensures
            s@ == self.literal(),
    ;

    /// The operator that tests a column for being equal to this value.
    fn op_eq(&self) -> (op: &str)
        ensures
            op@ == self.operator(SQLComp::EQ),
    ;

    /// The operator that tests a column for differing from this value.
    fn op_neq(&self) -> (op: &str)
        ensures
            op@ == self.operator(SQLComp::NEQ),
    ;

    /// The operator that tests a column for being greater than this value.
    fn op_gt(&self) -> (op: &str)
        ensures
            op@ == self.operator(SQLComp::GT),
    ;

    /// The operator that tests a column for being less than this value.
    fn op_lt(&self) -> (op: &str)
        ensures
            op@ == self.operator(SQLComp::LT),
    ;

    /// The operator that tests a column for being this value or greater.
    fn op_geq(&self) -> (op: &str)
        ensures
            op@ == self.operator(SQLComp::GEQ),
    ;

    /// The operator that tests a column for being this value or less.
    fn op_leq(&self) -> (op: &str)
        ensures
            op@ == self.operator(SQLComp::LEQ),
    ;

    /// The operator for `cmp`: the one of the six above that `cmp` names.
    fn operator_for(&self, cmp: &SQLComp) -> (op: &str)
        ensures
            op@ == self.operator(*cmp),
    {
        match cmp {
            SQLComp::EQ => self.op_eq(),
            SQLComp::NEQ => self.op_neq(),
            SQLComp::GT => self.op_gt(),
            SQLComp::LT => self.op_lt(),
            SQLComp::GEQ => self.op_geq(),
            SQLComp::LEQ => self.op_leq(),
        }
    }

    /// The right-hand side of a comparison with this value: the operator for
    /// `cmp`, a space, and the literal.
    fn compare(&self, cmp: &SQLComp) -> (s: String)
        ensures
            s@ == comparison(self.operator(*cmp), self.literal()),
    {
        let op = self.operator_for(cmp);
        let literal = self.to_sql();
        let mut s = String::from_str(op);
        s.append(" ");
        s.append(literal.as_str());
        s
    }
}

/// Text is written between single quotes; a quote inside it is not escaped.
impl ToSql for &str {
    open spec fn literal(&self) -> Seq<char> {
        quoted(self@)
    }

    open spec fn operator(&self, kind: SQLComp) -> Seq<char> {
        standard_operator(kind)
    }

    fn to_sql(&self) -> (s: String) {
        quote(self)
    }

    fn op_eq(&self) -> (op: &str) {
        "="
    }

    fn op_neq(&self) -> (op: &str) {
        "<>"
    }

    fn op_gt(&self) -> (op: &str) {
        ">"
    }

    fn op_lt(&self) -> (op: &str) {
        "<"
    }

    fn op_geq(&self) -> (op: &str) {
        ">="
    }

    fn op_leq(&self) -> (op: &str) {
        "<="
    }
}

/// Text is written between single quotes; a quote inside it is not escaped.
impl ToSql for String {
    open spec fn literal(&self) -> Seq<char> {
        quoted(self@)
    }

    open spec fn operator(&self, kind: SQLComp) -> Seq<char> {
        standard_operator(kind)
    }

    fn to_sql(&self) -> (s: String) {
        quote(self.as_str())
    }

    fn op_eq(&self) -> (op: &str) {
        "="
    }

    fn op_neq(&self) -> (op: &str) {
        "<>"
    }

    fn op_gt(&self) -> (op: &str) {
        ">"
    }

    fn op_lt(&self) -> (op: &str) {
        "<"
    }

    fn op_geq(&self) -> (op: &str) {
        ">="
    }

    fn op_leq(&self) -> (op: &str) {
        "<="
    }
}

/// A number is written as its decimal text, with no quotes.
impl<T: Numeric> ToSql for T {
    open spec fn literal(&self) -> Seq<char> {
        decimal_text(self.as_int())
    }

    open spec fn operator(&self, kind: SQLComp) -> Seq<char> {
        standard_operator(kind)
    }

    fn to_sql(&self) -> (s: String) {
        self.to_decimal()
    }

    fn op_eq(&self) -> (op: &str) {
        "="
    }

    fn op_neq(&self) -> (op: &str) {
        "<>"
    }

    fn op_gt(&self) -> (op: &str) {
        ">"
    }

    fn op_lt(&self) -> (op: &str) {
        "<"
    }

    fn op_geq(&self) -> (op: &str) {
        ">="
    }

    fn op_leq(&self) -> (op: &str) {
        "<="
    }
}

/// A literal that the caller has written out already, such as the decimal
/// text of a number that has a fraction. It is taken as it is, with no quotes
/// added, and compared with the standard operators.
pub struct Verbatim(pub String);

impl ToSql for Verbatim {
    open spec fn literal(&self) -> Seq<char> {
        self.0@
    }

    open spec fn operator(&self, kind: SQLComp) -> Seq<char> {
        standard_operator(kind)
    }

    fn to_sql(&self) -> (s: String) {
        self.0.clone()
    }

    fn op_eq(&self) -> (op: &str) {
        "="
    }

    fn op_neq(&self) -> (op: &str) {
        "<>"
    }

    fn op_gt(&self) -> (op: &str) {
        ">"
    }

    fn op_lt(&self) -> (op: &str) {
        "<"
    }

    fn op_geq(&self) -> (op: &str) {
        ">="
    }

    fn op_leq(&self) -> (op: &str) {
        "<="
    }
}

/// A list of values of one type. Its literal and its operators for equality
/// depend on how many values it holds.
impl<T: ToSql> ToSql for Vec<T> {
    open spec fn literal(&self) -> Seq<char> {
        list_literal(self@.map_values(|item: T| item.literal()))
    }

    open spec fn operator(&self, kind: SQLComp) -> Seq<char> {
        list_operator(self@.len(), kind)
    }

    fn to_sql(&self) -> (s: String) {
        let mut v: Vec<String> = Vec::new();
        let mut i: usize = 0;
        while i < self.len()
            invariant
                i <= self.len(),
                v@.len() == i,
                forall|j: int| 0 <= j < i ==> (#[trigger] v@[j])@ == self@[j].literal(),
            decreases self.len() - i,
        {
            v.push(self[i].to_sql());
            i = i + 1;
        }
        assert(texts(v@) =~= self@.map_values(|item: T| item.literal()));
        if v.len() == 1 {
            return v[0].clone();
        }
        let mut s = String::from_str("(");
        let items = join(&v, ",");
        s.append(items.as_str());
        s.append(")");
        s
    }

    fn op_eq(&self) -> (op: &str) {
        if self.len() > 1 {
            return "IN";
        }
        "="
    }

    fn op_neq(&self) -> (op: &str) {
        if self.len() > 1 {
            return "NOT IN";
        }
        "<>"
    }

    fn op_gt(&self) -> (op: &str) {
        ">"
    }

    fn op_lt(&self) -> (op: &str) {
        "<"
    }

    fn op_geq(&self) -> (op: &str) {
        ">="
    }

    fn op_leq(&self) -> (op: &str) {
        "<="
    }
}

/// A value that may be absent. An absent value is `NULL`; a present one
/// renders as what it holds.
impl<T: ToSql> ToSql for Option<T> {
    open spec fn literal(&self) -> Seq<char> {
        match self {
            Some(v) => v.literal(),
            None => "NULL"@,
        }
    }

    open spec fn operator(&self, kind: SQLComp) -> Seq<char> {
        optional_operator(self is None, kind)
    }

    fn to_sql(&self) -> (s: String) {
        match self {
            Some(v) => v.to_sql(),
            None => String::from_str("NULL"),
        }
    }

    fn op_eq(&self) -> (op: &str) {
        if self.is_none() {
            return "IS";
        }
        "="
    }

    fn op_neq(&self) -> (op: &str) {
        if self.is_none() {
            return "IS NOT";
        }
        "<>"
    }

    fn op_gt(&self) -> (op: &str) {
        ">"
    }

    fn op_lt(&self) -> (op: &str) {
        "<"
    }

    fn op_geq(&self) -> (op: &str) {
        ">="
    }

    fn op_leq(&self) -> (op: &str) {
        "<="
    }
}

} // verus!
