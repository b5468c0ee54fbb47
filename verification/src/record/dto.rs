//! The bodies and query parameters of record requests.
use crate::constants::FieldUpdate;
use crate::date::{day_after, has_ymd, month_after, ymd_text, Date};
use crate::form::{form_query, push_form_pair};
use crate::record::entity::{Record, RecordView, Search, SearchView, UpdateRecord, UpdateRecordView};
use crate::text::{push_signed_decimal, signed_decimal, str_equal, to_lowercase, unicode_lowercase};
use crate::user::entity::clone_opt_string;
use vstd::prelude::*;
use vstd::string::*;

verus! {

/// The contents of a request to create a record.
pub struct NewRecordView {
    pub book_id: i32,
    pub sub_category_id: i32,
    pub amount: i32,
    pub memo: Option<Seq<char>>,
    pub target_dt: chrono::NaiveDateTime,
    pub asset_id: Option<i32>,
    pub connect_ids: Option<Seq<i32>>,
}

/// A request to create a record, with the connections to attach to it.
#[derive(Debug, Clone, PartialEq)]
pub struct NewRecord {
    book_id: i32,
    sub_category_id: i32,
    amount: i32,
    memo: Option<String>,
    target_dt: chrono::NaiveDateTime,
    asset_id: Option<i32>,
    connect_ids: Option<Vec<i32>>,
}

pub open spec fn opt_ids_view(ids: Option<Vec<i32>>) -> Option<Seq<i32>> {
    match ids {
        Some(v) => Some(v@),
        None => None,
    }
}

impl View for NewRecord {
    type V = NewRecordView;

    closed spec fn view(&self) -> NewRecordView {
        NewRecordView {
            book_id: self.book_id,
            sub_category_id: self.sub_category_id,
            amount: self.amount,
            memo: self.memo.deep_view(),
            target_dt: self.target_dt,
            asset_id: self.asset_id,
            connect_ids: opt_ids_view(self.connect_ids),
        }
    }
}

/// The record that a creation request asks to store.
pub open spec fn new_record_entity(n: NewRecordView) -> RecordView {
    RecordView {
        id: None,
        book_id: n.book_id,
        sub_category_id: n.sub_category_id,
        amount: n.amount,
        memo: n.memo,
        target_dt: n.target_dt,
        created_at: None,
        updated_at: None,
        asset_id: n.asset_id,
    }
}

pub(crate) fn clone_ids(v: &Vec<i32>) -> (r: Vec<i32>)
    ensures
        r@ == v@,
{
    let mut r: Vec<i32> = Vec::new();
    let mut i: usize = 0;
    while i < v.len()
        invariant
            i <= v.len(),
            r@ == v@.subrange(0, i as int),
        decreases v.len() - i,
    {
        r.push(v[i]);
        i = i + 1;
        assert(r@ =~= v@.subrange(0, i as int));
    }
    assert(v@.subrange(0, v.len() as int) =~= v@);
    r
}

impl NewRecord {
    pub fn new(
        book_id: i32,
        sub_category_id: i32,
        amount: i32,
        memo: Option<String>,
        target_dt: chrono::NaiveDateTime,
        asset_id: Option<i32>,
        connect_ids: Option<Vec<i32>>,
    ) -> (r: NewRecord)
        ensures
            r@ == (NewRecordView {
                book_id,
                sub_category_id,
                amount,
                memo: memo.deep_view(),
                target_dt,
                asset_id,
                connect_ids: opt_ids_view(connect_ids),
            }),
    {
        NewRecord { book_id, sub_category_id, amount, memo, target_dt, asset_id, connect_ids }
    }

    /// The record to store for this request.
    pub fn to_entity(&self) -> (r: Record)
        ensures
            r@ == new_record_entity(self@),
    {
        Record::new(self.book_id, self.sub_category_id, self.amount, self.target_dt, self.asset_id).memo(
            clone_opt_string(&self.memo),
        ).build()
    }

    /// The connections to attach to the new record.
    pub fn get_connect_ids(&self) -> (r: Option<Vec<i32>>)
        ensures
            opt_ids_view(r) == self@.connect_ids,
    {
        match &self.connect_ids {
            Some(v) => Some(clone_ids(v)),
            None => None,
        }
    }

    pub fn get_book_id(&self) -> (r: i32)
        ensures
            r == self@.book_id,
    {
        self.book_id
    }

    pub fn get_sub_category_id(&self) -> (r: i32)
        ensures
            r == self@.sub_category_id,
    {
        self.sub_category_id
    }

    pub fn get_amount(&self) -> (r: i32)
        ensures
            r == self@.amount,
    {
        self.amount
    }

    pub fn get_memo(&self) -> (r: &Option<String>)
        ensures
            r.deep_view() == self@.memo,
    {
        &self.memo
    }

    pub fn get_target_dt(&self) -> (r: chrono::NaiveDateTime)
        ensures
            r == self@.target_dt,
    {
        self.target_dt
    }

    pub fn get_asset_id(&self) -> (r: Option<i32>)
        ensures
            r == self@.asset_id,
    {
        self.asset_id
    }
}

/// The query parameters of a record search.
pub struct SearchParamsView {
    pub start_dt: Date,
    pub period: Seq<char>,
    pub base_id: Option<i16>,
    pub sub_id: Option<i32>,
}

/// The query parameters of a record search: the first day of the period,
/// its length (`M` for a month, `D` for a day, in either case) and the
/// optional base and sub categories.
#[derive(Debug, Clone, PartialEq)]
pub struct SearchParams {
    start_dt: Date,
    period: String,
    base_id: Option<i16>,
    sub_id: Option<i32>,
}

impl View for SearchParams {
    type V = SearchParamsView;

    closed spec fn view(&self) -> SearchParamsView {
        SearchParamsView {
            start_dt: self.start_dt,
            period: self.period@,
            base_id: self.base_id,
            sub_id: self.sub_id,
        }
    }
}

/// The name and value pairs of the query string of a search, in order.
pub open spec fn search_pairs(p: SearchParamsView) -> Seq<(Seq<char>, Seq<char>)> {
    seq![
        ("start_dt"@, ymd_text(p.start_dt.spec_year() as int, p.start_dt.spec_month() as int, p.start_dt.spec_day() as int)),
        ("period"@, p.period),
    ] + (match p.base_id {
        Some(b) => seq![("base_id"@, signed_decimal(b as int))],
        None => Seq::empty(),
    }) + (match p.sub_id {
        Some(s) => seq![("sub_id"@, signed_decimal(s as int))],
        None => Seq::empty(),
    })
}

/// The end of the searched period: a month or a day after its start, by the
/// lower-cased period; `None` for any other period or past the range of dates.
pub open spec fn period_end(p: SearchParamsView) -> Option<(int, int, int)> {
    let period = unicode_lowercase(p.period);
    let d = p.start_dt;
    if period == "m"@ {
        month_after(d.spec_year() as int, d.spec_month() as int, d.spec_day() as int)
    } else if period == "d"@ {
        day_after(d.spec_year() as int, d.spec_month() as int, d.spec_day() as int)
    } else {
        None
    }
}

/// Whether a search is the one that search parameters ask for, with the
/// period ending at `end`.
pub open spec fn is_search_of(s: SearchView, p: SearchParamsView, end: (int, int, int)) -> bool {
    s.start_dt == p.start_dt && has_ymd(s.end_dt, end) && s.base_id == p.base_id && s.sub_id == p.sub_id
}

impl SearchParams {
    pub fn new(start_dt: Date, period: String, base_id: Option<i16>, sub_id: Option<i32>) -> (r: SearchParams)
        ensures
            r@ == (SearchParamsView { start_dt, period: period@, base_id, sub_id }),
    {
        SearchParams { start_dt, period, base_id, sub_id }
    }

    pub fn get_period(&self) -> (r: &str)
        ensures
            r@ == self@.period,
    {
        self.period.as_str()
    }

    pub fn get_start_dt(&self) -> (r: Date)
        ensures
            r == self@.start_dt,
    {
        self.start_dt
    }

    pub fn get_base_id(&self) -> (r: Option<i16>)
        ensures
            r == self@.base_id,
    {
        self.base_id
    }

    pub fn get_sub_id(&self) -> (r: Option<i32>)
        ensures
            r == self@.sub_id,
    {
        self.sub_id
    }

    /// The parameters as an `application/x-www-form-urlencoded` query string:
    /// `start_dt` (as `YYYY-MM-DD`), `period`, then `base_id` and `sub_id`
    /// where they are given.
    pub fn encode_param(&self) -> (r: String)
        ensures
            r@ == form_query(search_pairs(self@)),
    {
        proof {
            reveal_strlit("start_dt");
            reveal_strlit("period");
            reveal_strlit("base_id");
            reveal_strlit("sub_id");
        }
        let ghost pv = self@;
        let start = self.start_dt.to_ymd_string();
        let ghost mut pairs: Seq<(Seq<char>, Seq<char>)> = Seq::empty();
        let mut text = push_form_pair(String::new(), "start_dt", start.as_str(), Ghost(pairs));
        proof {
            pairs = pairs.push(("start_dt"@, start@));
        }
        text = push_form_pair(text, "period", self.period.as_str(), Ghost(pairs));
        proof {
            pairs = pairs.push(("period"@, self.period@));
        }
        if let Some(base_id) = self.base_id {
            let mut number = String::new();
            push_signed_decimal(&mut number, base_id as i64);
            text = push_form_pair(text, "base_id", number.as_str(), Ghost(pairs));
            proof {
                pairs = pairs.push(("base_id"@, number@));
            }
        }
        if let Some(sub_id) = self.sub_id {
            let mut number = String::new();
            push_signed_decimal(&mut number, sub_id as i64);
            text = push_form_pair(text, "sub_id", number.as_str(), Ghost(pairs));
            proof {
                pairs = pairs.push(("sub_id"@, number@));
            }
        }
        assert(pairs =~= search_pairs(pv));
        text
    }

    /// The search that the parameters ask for. The period must be `M` or `D`
    /// in either case, and its end must be in the range of dates.
    pub fn to_query(&self) -> (r: Search)
        requires
            period_end(self@) is Some,
        ensures
            is_search_of(r@, self@, period_end(self@)->0),
    {
        let lowered = to_lowercase(self.period.as_str());
        let end_dt = if str_equal(lowered.as_str(), "m") {
            self.start_dt.checked_add_one_month()
        } else if str_equal(lowered.as_str(), "d") {
            self.start_dt.checked_add_one_day()
        } else {
            None
        };
        match end_dt {
            Some(end) => Search::new(self.start_dt, end, self.base_id, self.sub_id),
            None => {
                proof {
                    assert(false);
                }
                Search::new(self.start_dt, self.start_dt, self.base_id, self.sub_id)
            },
        }
    }

    /// The search that the parameters ask for, or `None` where the period is
    /// neither `M` nor `D` or its end is past the range of dates.
    pub fn try_to_query(&self) -> (r: Option<Search>)
        ensures
            match period_end(self@) {
                Some(end) => r matches Some(s) && is_search_of(s@, self@, end),
                None => r is None,
            },
    {
        let lowered = to_lowercase(self.period.as_str());
        let end_dt = if str_equal(lowered.as_str(), "m") {
            self.start_dt.checked_add_one_month()
        } else if str_equal(lowered.as_str(), "d") {
            self.start_dt.checked_add_one_day()
        } else {
            None
        };
        match end_dt {
            Some(_) => Some(self.to_query()),
            None => None,
        }
    }
}

/// The contents of a record edit request; absent fields stay unchanged.
pub struct EditRecordView {
    pub sub_category_id: Option<i32>,
    pub amount: Option<i32>,
    pub memo: Option<Seq<char>>,
    pub target_dt: Option<chrono::NaiveDateTime>,
    pub asset_id: Option<i32>,
}

/// A record edit request. A memo of `NULL` removes the memo.
#[derive(Debug, Clone, PartialEq)]
pub struct EditRecord {
    sub_category_id: Option<i32>,
    amount: Option<i32>,
    memo: Option<String>,
    target_dt: Option<chrono::NaiveDateTime>,
    asset_id: Option<i32>,
}

impl View for EditRecord {
    type V = EditRecordView;

    closed spec fn view(&self) -> EditRecordView {
        EditRecordView {
            sub_category_id: self.sub_category_id,
            amount: self.amount,
            memo: self.memo.deep_view(),
            target_dt: self.target_dt,
            asset_id: self.asset_id,
        }
    }
}

/// How an optional value of a request changes a column.
pub open spec fn value_update<T>(o: Option<T>) -> FieldUpdate<T> {
    match o {
        Some(v) => FieldUpdate::SetValue(v),
        None => FieldUpdate::NoChange,
    }
}

/// The change set of a record edit: the memo `NULL` removes the memo, any
/// other given value is stored, and every absent field stays unchanged.
pub open spec fn record_update_of(e: EditRecordView) -> UpdateRecordView {
    UpdateRecordView {
        sub_category_id: value_update(e.sub_category_id),
        amount: value_update(e.amount),
        memo: match e.memo {
            Some(m) => if m == "NULL"@ { FieldUpdate::SetNone } else { FieldUpdate::SetValue(m) },
            None => FieldUpdate::NoChange,
        },
        target_dt: value_update(e.target_dt),
        asset_id: value_update(e.asset_id),
    }
}

fn int_update(o: Option<i32>) -> (r: FieldUpdate<i32>)
    ensures
        r@ == value_update(o),
{
    match o {
        Some(v) => FieldUpdate::SetValue(v),
        None => FieldUpdate::NoChange,
    }
}

impl EditRecord {
    pub fn new(
        sub_category_id: Option<i32>,
        amount: Option<i32>,
        memo: Option<String>,
        target_dt: Option<chrono::NaiveDateTime>,
        asset_id: Option<i32>,
    ) -> (r: EditRecord)
        ensures
            r@ == (EditRecordView { sub_category_id, amount, memo: memo.deep_view(), target_dt, asset_id }),
    {
        EditRecord { sub_category_id, amount, memo, target_dt, asset_id }
    }

    pub fn get_sub_category_id(&self) -> (r: Option<i32>)
        ensures
            r == self@.sub_category_id,
    {
        self.sub_category_id
    }

    pub fn get_amount(&self) -> (r: Option<i32>)
        ensures
            r == self@.amount,
    {
        self.amount
    }

    pub fn get_memo(&self) -> (r: &Option<String>)
        ensures
            r.deep_view() == self@.memo,
    {
        &self.memo
    }

    pub fn get_target_dt(&self) -> (r: Option<chrono::NaiveDateTime>)
        ensures
            r == self@.target_dt,
    {
        self.target_dt
    }

    pub fn get_asset_id(&self) -> (r: Option<i32>)
        ensures
            r == self@.asset_id,
    {
        self.asset_id
    }

    /// The change set that this request asks for.
    pub fn to_update(self) -> (r: UpdateRecord)
        ensures
            r@ == record_update_of(self@),
    {
        let sub_category_id = int_update(self.sub_category_id);
        let amount = int_update(self.amount);
        let memo = match &self.memo {
            Some(v) => if str_equal(v.as_str(), "NULL") {
                FieldUpdate::SetNone
            } else {
                FieldUpdate::SetValue(v.clone())
            },
            None => FieldUpdate::NoChange,
        };
        let target_dt = match self.target_dt {
            Some(v) => FieldUpdate::SetValue(v),
            None => FieldUpdate::NoChange,
        };
        let asset_id = int_update(self.asset_id);
        UpdateRecord::new(sub_category_id, amount, memo, target_dt, asset_id)
    }
}

/// The record stored for a creation request keeps every field of the
/// request: book, sub category, amount, memo, date and asset; it is new (no
/// id, no times).
pub proof fn law_new_record_keeps_the_request(n: NewRecordView)
    ensures
        new_record_entity(n).book_id == n.book_id,
        new_record_entity(n).sub_category_id == n.sub_category_id,
        new_record_entity(n).amount == n.amount,
        new_record_entity(n).memo == n.memo,
        new_record_entity(n).target_dt == n.target_dt,
        new_record_entity(n).asset_id == n.asset_id,
        new_record_entity(n).id is None,
        new_record_entity(n).created_at is None && new_record_entity(n).updated_at is None,
{
}

/// Each field of the change set of a record edit follows its own request
/// field alone, whatever the other fields are: a given value is stored, the
/// memo `NULL` clears the memo, and an absent field is left as it is.
pub proof fn law_record_edit_fields_are_independent(e: EditRecordView)
    ensures
        e.sub_category_id matches Some(x) ==> record_update_of(e).sub_category_id == FieldUpdate::SetValue(x),
        e.sub_category_id is None ==> record_update_of(e).sub_category_id == FieldUpdate::<i32>::NoChange,
        e.amount matches Some(x) ==> record_update_of(e).amount == FieldUpdate::SetValue(x),
        e.amount is None ==> record_update_of(e).amount == FieldUpdate::<i32>::NoChange,
        e.memo matches Some(m) ==> record_update_of(e).memo == (if m == "NULL"@ {
            FieldUpdate::SetNone
        } else {
            FieldUpdate::SetValue(m)
        }),
        e.memo is None ==> record_update_of(e).memo == FieldUpdate::<Seq<char>>::NoChange,
        e.target_dt matches Some(t) ==> record_update_of(e).target_dt == FieldUpdate::SetValue(t),
        e.target_dt is None ==> record_update_of(e).target_dt == FieldUpdate::<chrono::NaiveDateTime>::NoChange,
        e.asset_id matches Some(x) ==> record_update_of(e).asset_id == FieldUpdate::SetValue(x),
        e.asset_id is None ==> record_update_of(e).asset_id == FieldUpdate::<i32>::NoChange,
{
}

} // verus!
