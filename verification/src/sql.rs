//! Parameterised SQL statements: the values bound to placeholders and the
//! `column = $n, ` assignments of update statements.
use crate::date::Date;
use crate::text::{push_signed_decimal, signed_decimal};
use vstd::prelude::*;
use vstd::string::*;

verus! {

/// A value bound to a placeholder of a statement.
#[derive(Debug, Clone, PartialEq)]
pub enum SqlParam {
    I16(i16),
    I32(i32),
    I64(i64),
    /// `NULL` in an integer column.
    NullI32,
    Text(String),
    /// A text column that may be `NULL`.
    OptText(Option<String>),
    /// An integer column that may be `NULL`.
    OptI32(Option<i32>),
    /// An array of integers.
    IntArray(Vec<i32>),
    /// An array of integers that may be `NULL`.
    OptIntArray(Option<Vec<i32>>),
    Date(Date),
    DateTime(chrono::NaiveDateTime),
}

/// The value of a placeholder binding, with texts as character sequences.
pub enum SqlValue {
    I16(i16),
    I32(i32),
    I64(i64),
    NullI32,
    Text(Seq<char>),
    OptText(Option<Seq<char>>),
    OptI32(Option<i32>),
    IntArray(Seq<i32>),
    OptIntArray(Option<Seq<i32>>),
    Date(Date),
    DateTime(chrono::NaiveDateTime),
}

impl View for SqlParam {
    type V = SqlValue;

    open spec fn view(&self) -> SqlValue {
        match self {
            SqlParam::I16(v) => SqlValue::I16(*v),
            SqlParam::I32(v) => SqlValue::I32(*v),
            SqlParam::I64(v) => SqlValue::I64(*v),
            SqlParam::NullI32 => SqlValue::NullI32,
            SqlParam::Text(s) => SqlValue::Text(s@),
            SqlParam::OptText(o) => SqlValue::OptText(o.deep_view()),
            SqlParam::OptI32(o) => SqlValue::OptI32(*o),
            SqlParam::IntArray(v) => SqlValue::IntArray(v@),
            SqlParam::OptIntArray(o) => SqlValue::OptIntArray(match o {
                Some(v) => Some(v@),
                None => None,
            }),
            SqlParam::Date(d) => SqlValue::Date(*d),
            SqlParam::DateTime(t) => SqlValue::DateTime(*t),
        }
    }
}

/// The values bound to a statement's placeholders `$1`, `$2`, ... in order.
pub open spec fn values_of(params: Seq<SqlParam>) -> Seq<SqlValue> {
    params.map_values(|p: SqlParam| p@)
}

/// A statement and the values for its placeholders.
#[derive(Debug, Clone)]
pub struct SqlStatement {
    pub sql: String,
    pub params: Vec<SqlParam>,
}

/// The text `column = $n, ` of one assignment of an update statement.
pub open spec fn assignment(column: Seq<char>, n: int) -> Seq<char> {
    column + " = $"@ + signed_decimal(n) + ", "@
}

/// The assignments of the given columns, numbered from `first` on.
pub open spec fn assignments(columns: Seq<Seq<char>>, first: int) -> Seq<char>
    decreases columns.len(),
{
    if columns.len() == 0 {
        Seq::empty()
    } else {
        assignments(columns.drop_last(), first) + assignment(columns.last(), first + columns.len() - 1)
    }
}

/// Advances the placeholder counter and writes the assignment of `field_name`
/// to the new placeholder.
pub fn make_query(index: &mut i32, field_name: &str) -> (r: String)
    requires
        *old(index) < i32::MAX,
    ensures
        *final(index) == *old(index) + 1,
        r@ == assignment(field_name@, *final(index) as int),
{
    *index = *index + 1;
    let mut s = String::from_str(field_name);
    s.append(" = $");
    push_signed_decimal(&mut s, *index as i64);
    s.append(", ");
    s
}

/// Appends to a statement under construction the assignment of one more
/// column, under the next placeholder number.
pub fn append_assignment(
    sql: &mut String,
    index: &mut i32,
    name: &str,
    Ghost(prefix): Ghost<Seq<char>>,
    Ghost(columns): Ghost<Seq<Seq<char>>>,
    Ghost(first): Ghost<int>,
) -> (new_columns: Ghost<Seq<Seq<char>>>)
    requires
        *old(index) == first - 1 + columns.len(),
        *old(index) < i32::MAX,
        old(sql)@ == prefix + assignments(columns, first),
    ensures
        new_columns@ == columns.push(name@),
        *final(index) == first - 1 + new_columns@.len(),
        final(sql)@ == prefix + assignments(new_columns@, first),
{
    let piece = make_query(index, name);
    sql.append(piece.as_str());
    proof {
        lemma_assignments_push(columns, name@, first);
    }
    assert(final(sql)@ =~= prefix + assignments(columns.push(name@), first));
    Ghost(columns.push(name@))
}

/// Appending one more column to a list of assignments adds its assignment at
/// the end, under the next number.
pub proof fn lemma_assignments_push(columns: Seq<Seq<char>>, c: Seq<char>, first: int)
    ensures
        assignments(columns.push(c), first) == assignments(columns, first) + assignment(c, first + columns.len()),
{
    assert(columns.push(c).drop_last() =~= columns);
}

} // verus!
