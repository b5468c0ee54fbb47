//! The stored household-ledger record, the period and categories of a
//! record search, and the change set of a record update.
use crate::constants::FieldUpdate;
use crate::date::Date;
use crate::user::entity::clone_opt_string;
use vstd::prelude::*;

verus! {

/// The contents of a stored record.
pub struct RecordView {
    pub id: Option<i64>,
    pub book_id: i32,
    pub sub_category_id: i32,
    pub amount: i32,
    pub memo: Option<Seq<char>>,
    pub target_dt: chrono::NaiveDateTime,
    pub created_at: Option<chrono::NaiveDateTime>,
    pub updated_at: Option<chrono::NaiveDateTime>,
    pub asset_id: Option<i32>,
}

/// One income or expense entry of an account book.
#[derive(Debug, Clone, PartialEq)]
pub struct Record {
    id: Option<i64>,
    book_id: i32,
    sub_category_id: i32,
    amount: i32,
    memo: Option<String>,
    target_dt: chrono::NaiveDateTime,
    created_at: Option<chrono::NaiveDateTime>,
    updated_at: Option<chrono::NaiveDateTime>,
    asset_id: Option<i32>,
}

impl View for Record {
    type V = RecordView;

    closed spec fn view(&self) -> RecordView {
        RecordView {
            id: self.id,
            book_id: self.book_id,
            sub_category_id: self.sub_category_id,
            amount: self.amount,
            memo: self.memo.deep_view(),
            target_dt: self.target_dt,
            created_at: self.created_at,
            updated_at: self.updated_at,
            asset_id: self.asset_id,
        }
    }
}

impl Record {
    /// A new record that is not stored yet, without memo.
    pub fn new(
        book_id: i32,
        sub_category_id: i32,
        amount: i32,
        target_dt: chrono::NaiveDateTime,
        asset_id: Option<i32>,
    ) -> (r: Record)
        ensures
            r@ == (RecordView {
                id: None,
                book_id,
                sub_category_id,
                amount,
                memo: None,
                target_dt,
                created_at: None,
                updated_at: None,
                asset_id,
            }),
    {
        Record {
            id: None,
            book_id,
            sub_category_id,
            amount,
            memo: None,
            target_dt,
            created_at: None,
            updated_at: None,
            asset_id,
        }
    }

    /// A record with every column as it was read from storage.
    pub fn from_columns(
        id: Option<i64>,
        book_id: i32,
        sub_category_id: i32,
        amount: i32,
        memo: Option<String>,
        target_dt: chrono::NaiveDateTime,
        created_at: Option<chrono::NaiveDateTime>,
        updated_at: Option<chrono::NaiveDateTime>,
        asset_id: Option<i32>,
    ) -> (r: Record)
        ensures
            r@ == (RecordView {
                id,
                book_id,
                sub_category_id,
                amount,
                memo: memo.deep_view(),
                target_dt,
                created_at,
                updated_at,
                asset_id,
            }),
    {
        Record { id, book_id, sub_category_id, amount, memo, target_dt, created_at, updated_at, asset_id }
    }

    /// The same record with the given id.
    pub fn id(self, id: Option<i64>) -> (r: Record)
        ensures
            r@ == (RecordView { id, ..self@ }),
    {
        let mut r = self;
        r.id = id;
        r
    }

    /// The same record with the given memo.
    pub fn memo(self, memo: Option<String>) -> (r: Record)
        ensures
            r@ == (RecordView { memo: memo.deep_view(), ..self@ }),
    {
        let mut r = self;
        r.memo = memo;
        r
    }

    /// The same record with the given update time.
    pub fn updated_at(self, updated_at: Option<chrono::NaiveDateTime>) -> (r: Record)
        ensures
            r@ == (RecordView { updated_at, ..self@ }),
    {
        let mut r = self;
        r.updated_at = updated_at;
        r
    }

    /// Ends a chain of builder calls: a copy of the record as built.
    pub fn build(&self) -> (r: Record)
        ensures
            r@ == self@,
    {
        Record {
            id: self.id,
            book_id: self.book_id,
            sub_category_id: self.sub_category_id,
            amount: self.amount,
            memo: clone_opt_string(&self.memo),
            target_dt: self.target_dt,
            created_at: self.created_at,
            updated_at: self.updated_at,
            asset_id: self.asset_id,
        }
    }

    /// The id of the record, or -1 for a record that is not stored yet.
    pub fn get_id(&self) -> (r: i64)
        ensures
            r == (match self@.id {
                Some(id) => id,
                None => -1i64,
            }),
    {
        match self.id {
            Some(id) => id,
            None => -1,
        }
    }

    pub fn get_book_id(&self) -> (r: i32)
        ensures
            r == self@.book_id,
    {
        self.book_id
    }

    pub fn get_sub_category_id(&self) -> (r: i32)
        ensures
            r == self@.sub_category_id,
    {
        self.sub_category_id
    }

    pub fn get_amount(&self) -> (r: i32)
        ensures
            r == self@.amount,
    {
        self.amount
    }

    pub fn get_memo(&self) -> (r: &Option<String>)
        ensures
            r.deep_view() == self@.memo,
    {
        &self.memo
    }

    pub fn get_target_dt(&self) -> (r: chrono::NaiveDateTime)
        ensures
            r == self@.target_dt,
    {
        self.target_dt
    }

    pub fn get_created_at(&self) -> (r: Option<chrono::NaiveDateTime>)
        ensures
            r == self@.created_at,
    {
        self.created_at
    }

    pub fn get_updated_at(&self) -> (r: &Option<chrono::NaiveDateTime>)
        ensures
            *r == self@.updated_at,
    {
        &self.updated_at
    }

    pub fn get_asset_id(&self) -> (r: &Option<i32>)
        ensures
            *r == self@.asset_id,
    {
        &self.asset_id
    }
}

/// The period and categories of a record search.
#[derive(Debug, Clone, PartialEq)]
pub struct Search {
    start_dt: Date,
    end_dt: Date,
    base_id: Option<i16>,
    sub_id: Option<i32>,
}

/// The contents of a record search.
pub struct SearchView {
    pub start_dt: Date,
    pub end_dt: Date,
    pub base_id: Option<i16>,
    pub sub_id: Option<i32>,
}

impl View for Search {
    type V = SearchView;

    closed spec fn view(&self) -> SearchView {
        SearchView { start_dt: self.start_dt, end_dt: self.end_dt, base_id: self.base_id, sub_id: self.sub_id }
    }
}

impl Search {
    pub fn new(start_dt: Date, end_dt: Date, base_id: Option<i16>, sub_id: Option<i32>) -> (r: Search)
        ensures
            r@ == (SearchView { start_dt, end_dt, base_id, sub_id }),
    {
        Search { start_dt, end_dt, base_id, sub_id }
    }

    pub fn get_start_dt(&self) -> (r: &Date)
        ensures
            *r == self@.start_dt,
    {
        &self.start_dt
    }

    pub fn get_end_dt(&self) -> (r: &Date)
        ensures
            *r == self@.end_dt,
    {
        &self.end_dt
    }

    pub fn get_base_id(&self) -> (r: &Option<i16>)
        ensures
            *r == self@.base_id,
    {
        &self.base_id
    }

    pub fn get_sub_id(&self) -> (r: &Option<i32>)
        ensures
            *r == self@.sub_id,
    {
        &self.sub_id
    }
}

/// The change set of a record update.
pub struct UpdateRecordView {
    pub sub_category_id: FieldUpdate<i32>,
    pub amount: FieldUpdate<i32>,
    pub memo: FieldUpdate<Seq<char>>,
    pub target_dt: FieldUpdate<chrono::NaiveDateTime>,
    pub asset_id: FieldUpdate<i32>,
}

/// Which columns of a record an update changes, and to what.
#[derive(Debug, Clone, PartialEq)]
pub struct UpdateRecord {
    sub_category_id: FieldUpdate<i32>,
    amount: FieldUpdate<i32>,
    memo: FieldUpdate<String>,
    target_dt: FieldUpdate<chrono::NaiveDateTime>,
    asset_id: FieldUpdate<i32>,
}

impl View for UpdateRecord {
    type V = UpdateRecordView;

    closed spec fn view(&self) -> UpdateRecordView {
        UpdateRecordView {
            sub_category_id: self.sub_category_id@,
            amount: self.amount@,
            memo: self.memo@,
            target_dt: self.target_dt,
            asset_id: self.asset_id@,
        }
    }
}

impl UpdateRecord {
    pub fn new(
        sub_category_id: FieldUpdate<i32>,
        amount: FieldUpdate<i32>,
        memo: FieldUpdate<String>,
        target_dt: FieldUpdate<chrono::NaiveDateTime>,
        asset_id: FieldUpdate<i32>,
    ) -> (r: UpdateRecord)
        ensures
            r@ == (UpdateRecordView {
                sub_category_id: sub_category_id@,
                amount: amount@,
                memo: memo@,
                target_dt,
                asset_id: asset_id@,
            }),
    {
        UpdateRecord { sub_category_id, amount, memo, target_dt, asset_id }
    }

    pub fn get_sub_category_id(&self) -> (r: &FieldUpdate<i32>)
        ensures
            r@ == self@.sub_category_id,
    {
        &self.sub_category_id
    }

    pub fn get_amount(&self) -> (r: &FieldUpdate<i32>)
        ensures
            r@ == self@.amount,
    {
        &self.amount
    }

    pub fn get_memo(&self) -> (r: &FieldUpdate<String>)
        ensures
            r@ == self@.memo,
    {
        &self.memo
    }

    pub fn get_target_dt(&self) -> (r: &FieldUpdate<chrono::NaiveDateTime>)
        ensures
            *r == self@.target_dt,
    {
        &self.target_dt
    }

    pub fn get_asset_id(&self) -> (r: &FieldUpdate<i32>)
        ensures
            r@ == self@.asset_id,
    {
        &self.asset_id
    }
}

} // verus!
