//! Values shared by the repositories: how a column is to change, and the
//! rows that checked update and delete statements return.
use vstd::prelude::*;

verus! {

/// A calendar date and time of day without time zone, as the database
/// stores timestamps; the library only carries such values along.
#[verifier::external_type_specification]
#[verifier::external_body]
pub struct ExNaiveDateTime(chrono::NaiveDateTime);

/// `NaiveDateTime` is `Copy`: its derived `clone` gives back an equal value.
pub assume_specification[ <chrono::NaiveDateTime as Clone>::clone ](t: &chrono::NaiveDateTime) -> (r: chrono::NaiveDateTime)
    ensures
        r == *t,
;

/// How one column of a stored row is to be changed by an update request.
#[derive(Clone, PartialEq, Debug)]
pub enum FieldUpdate<T> {
    /// Store the given value.
    SetValue(T),
    /// Store SQL `NULL`.
    SetNone,
    /// Leave the column as it is.
    NoChange,
}

impl<T: View> View for FieldUpdate<T> {
    type V = FieldUpdate<T::V>;

    open spec fn view(&self) -> FieldUpdate<T::V> {
        match self {
            FieldUpdate::SetValue(v) => FieldUpdate::SetValue(v@),
            FieldUpdate::SetNone => FieldUpdate::SetNone,
            FieldUpdate::NoChange => FieldUpdate::NoChange,
        }
    }
}

impl<T> FieldUpdate<T> {
    /// Whether a value is to be stored (not `NULL`, not left alone).
    pub open spec fn is_value(self) -> bool {
        self is SetValue
    }

    /// Whether the column takes part in the update (set to a value or to `NULL`).
    pub open spec fn touches(self) -> bool {
        !(self is NoChange)
    }
}

/// What an update statement that checks existence and rights first reports.
pub struct UpdateResultView {
    pub is_exist: bool,
    pub is_authorized: bool,
    pub is_duplicated: bool,
    pub update_count: i64,
}

/// The row returned by an update statement that checks existence and rights first.
#[derive(Debug)]
pub struct UpdateResult {
    is_exist: bool,
    is_authorized: bool,
    is_duplicated: bool,
    update_count: i64,
}

impl View for UpdateResult {
    type V = UpdateResultView;

    closed spec fn view(&self) -> UpdateResultView {
        UpdateResultView {
            is_exist: self.is_exist,
            is_authorized: self.is_authorized,
            is_duplicated: self.is_duplicated,
            update_count: self.update_count,
        }
    }
}

impl UpdateResult {
    /// The result row with the given columns.
    pub fn new(is_exist: bool, is_authorized: bool, is_duplicated: bool, update_count: i64) -> (r: Self)
        ensures
            r@ == (UpdateResultView { is_exist, is_authorized, is_duplicated, update_count }),
    {
        UpdateResult { is_exist, is_authorized, is_duplicated, update_count }
    }

    pub fn get_exist(&self) -> (r: bool)
        ensures
            r == self@.is_exist,
    {
        self.is_exist
    }

    pub fn get_authorized(&self) -> (r: bool)
        ensures
            r == self@.is_authorized,
    {
        self.is_authorized
    }

    pub fn get_duplicated(&self) -> (r: bool)
        ensures
            r == self@.is_duplicated,
    {
        self.is_duplicated
    }

    pub fn get_count(&self) -> (r: i64)
        ensures
            r == self@.update_count,
    {
        self.update_count
    }
}

/// What a delete statement that checks existence and rights first reports.
pub struct DeleteResultView {
    pub is_exist: bool,
    pub is_authorized: bool,
    pub delete_count: i64,
}

/// The row returned by a delete statement that checks existence and rights first.
#[derive(Debug)]
pub struct DeleteResult {
    is_exist: bool,
    is_authorized: bool,
    delete_count: i64,
}

impl View for DeleteResult {
    type V = DeleteResultView;

    closed spec fn view(&self) -> DeleteResultView {
        DeleteResultView {
            is_exist: self.is_exist,
            is_authorized: self.is_authorized,
            delete_count: self.delete_count,
        }
    }
}

impl DeleteResult {
    /// The result row with the given columns.
    pub fn new(is_exist: bool, is_authorized: bool, delete_count: i64) -> (r: Self)
        ensures
            r@ == (DeleteResultView { is_exist, is_authorized, delete_count }),
    {
        DeleteResult { is_exist, is_authorized, delete_count }
    }

    pub fn get_exist(&self) -> (r: bool)
        ensures
            r == self@.is_exist,
    {
        self.is_exist
    }

    pub fn get_authorized(&self) -> (r: bool)
        ensures
            r == self@.is_authorized,
    {
        self.is_authorized
    }

    pub fn get_count(&self) -> (r: i64)
        ensures
            r == self@.delete_count,
    {
        self.delete_count
    }
}

} // verus!
