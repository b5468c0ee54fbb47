//! The statements of the record repository that are built from a request,
//! and what the repository concludes from the rows the database answers.
use crate::constants::{DeleteResult, FieldUpdate};
use crate::errors::{CustomError, DbFailure};
use crate::record::dto::{clone_ids, opt_ids_view, record_update_of, EditRecordView};
use crate::record::entity::{Record, RecordView, Search, SearchView, UpdateRecord, UpdateRecordView};
use crate::user::entity::clone_opt_string;
use crate::sql::{append_assignment, assignments, values_of, SqlParam, SqlStatement, SqlValue};
use crate::text::{push_signed_decimal, signed_decimal};
use vstd::prelude::*;
use vstd::string::*;

verus! {

/// The opening of a record update: the record's book and the caller's
/// right to edit it (any role but viewer).
pub open spec fn update_head_sql() -> Seq<char> {
    "\n        WITH RecordExists AS (\n            SELECT book_id\n            FROM tb_record\n            WHERE id = $2\n        ),\n        AuthorityCheck AS (\n            SELECT r.book_id\n            FROM RecordExists AS r\n            JOIN tb_book AS b ON b.id = r.book_id\n            JOIN tb_user_book_role AS br ON b.id = br.book_id\n            WHERE br.user_id = $1 AND br.role != 'viewer'\n        ),"@
}

/// The check that the new sub category, bound to placeholder `n`, belongs to
/// the record's book or to no book.
pub open spec fn category_check_sql(n: int) -> Seq<char> {
    "\n            CategoryCheck AS (\n                SELECT EXISTS (\n                    SELECT 1\n                    FROM tb_sub_category AS sc\n                    JOIN tb_base_category AS bc ON bc.id = sc.base_id\n                    LEFT JOIN RecordExists AS r ON bc.book_id = r.book_id\n                    WHERE sc.id = $"@
        + signed_decimal(n)
        + "\n                        AND (r.book_id IS NOT NULL OR bc.book_id IS NULL)\n                ) AS is_category_exist\n            ),"@
}

/// The check that the new asset, bound to placeholder `n`, belongs to the
/// record's book.
pub open spec fn asset_check_sql(n: int) -> Seq<char> {
    "\n                AssetCheck AS (\n                    SELECT EXISTS (\n                        SELECT 1\n                        FROM tb_asset AS a\n                        JOIN RecordExists AS r ON r.book_id = a.book_id\n                        WHERE a.id = $"@
        + signed_decimal(n)
        + "\n                        ) AS is_asset_exist\n                        ),"@
}

pub open spec fn update_set_sql() -> Seq<char> {
    "\n        UpdateRecord AS (\n            UPDATE tb_record SET "@
}

pub open spec fn update_where_sql() -> Seq<char> {
    "\n            updated_at = NOW() \n            WHERE id = $2\n                AND EXISTS (SELECT book_id FROM AuthorityCheck) = true\n            "@
}

pub open spec fn category_condition_sql(checked: bool) -> Seq<char> {
    if checked { "AND (SELECT is_category_exist FROM CategoryCheck) = true\n"@ } else { ""@ }
}

pub open spec fn asset_condition_sql(checked: bool) -> Seq<char> {
    if checked { "AND (SELECT is_asset_exist FROM AssetCheck) = true\n"@ } else { ""@ }
}

pub open spec fn update_select_sql() -> Seq<char> {
    "RETURNING id\n        )"@
        + "\n            SELECT\n                EXISTS (SELECT 1 FROM RecordExists) AS is_exist,\n                EXISTS (SELECT 1 FROM AuthorityCheck) AS is_authorized,\n                (SELECT COUNT(*) FROM UpdateRecord) AS update_count\n"@
}

pub open spec fn category_column_sql(checked: bool) -> Seq<char> {
    if checked {
        ",(SELECT is_category_exist FROM CategoryCheck) AS is_category_exist\n"@
    } else {
        ",true AS is_category_exist"@
    }
}

pub open spec fn asset_column_sql(checked: bool) -> Seq<char> {
    if checked {
        ",(SELECT is_asset_exist FROM AssetCheck) AS is_asset_exist\n"@
    } else {
        ",true AS is_asset_exist"@
    }
}

/// The column of a change, if the change set stores a value in it.
pub open spec fn value_column<T>(f: FieldUpdate<T>, name: Seq<char>) -> Seq<Seq<char>> {
    if f is SetValue { seq![name] } else { Seq::empty() }
}

/// The columns that a record update writes, in order: sub category, amount
/// and date when a value is given for them, and memo and asset when they are
/// set or cleared.
pub open spec fn record_update_columns(u: UpdateRecordView) -> Seq<Seq<char>> {
    value_column(u.sub_category_id, "sub_category_id"@) + value_column(u.amount, "amount"@)
        + (if u.memo.touches() { seq!["memo"@] } else { Seq::empty() }) + value_column(u.target_dt, "target_dt"@)
        + (if u.asset_id.touches() { seq!["asset_id"@] } else { Seq::empty() })
}

/// Whether the update checks that the new sub category may be used.
pub open spec fn checks_category(u: UpdateRecordView) -> bool {
    u.sub_category_id is SetValue
}

/// Whether the update checks that the new asset belongs to the book.
pub open spec fn checks_asset(u: UpdateRecordView) -> bool {
    u.asset_id is SetValue
}

/// The text of the checked update statement of a record. The caller's id is
/// placeholder 1 and the record's id placeholder 2; the written columns take
/// 3, 4, ... in order, and the checks of a new sub category and a new asset
/// name the placeholders of those columns.
pub open spec fn record_update_sql(u: UpdateRecordView) -> Seq<char> {
    let columns = record_update_columns(u);
    update_head_sql()
        + (if checks_category(u) { category_check_sql(3) } else { Seq::empty() })
        + (if checks_asset(u) { asset_check_sql(2 + columns.len() as int) } else { Seq::empty() })
        + update_set_sql() + assignments(columns, 3) + update_where_sql()
        + category_condition_sql(checks_category(u)) + asset_condition_sql(checks_asset(u))
        + update_select_sql() + category_column_sql(checks_category(u))
        + asset_column_sql(checks_asset(u)) + ";"@
}

/// The value bound for a change that stores an integer.
pub open spec fn int_value(f: FieldUpdate<i32>) -> Seq<SqlValue> {
    match f {
        FieldUpdate::SetValue(v) => seq![SqlValue::I32(v)],
        _ => Seq::empty(),
    }
}

/// The values bound to a record update: the caller, the record, then one
/// value for every written column, in order.
pub open spec fn record_update_values(user_id: i32, record_id: i64, u: UpdateRecordView) -> Seq<SqlValue> {
    seq![SqlValue::I32(user_id), SqlValue::I64(record_id)] + record_column_values(u)
}

/// The tail of the values of a record update: one value for every written
/// column, in order.
pub open spec fn record_column_values(u: UpdateRecordView) -> Seq<SqlValue> {
    int_value(u.sub_category_id) + int_value(u.amount) + (match u.memo {
        FieldUpdate::SetValue(m) => seq![SqlValue::Text(m)],
        FieldUpdate::SetNone => seq![SqlValue::OptText(None)],
        FieldUpdate::NoChange => Seq::empty(),
    }) + (match u.target_dt {
        FieldUpdate::SetValue(t) => seq![SqlValue::DateTime(t)],
        _ => Seq::empty(),
    }) + (match u.asset_id {
        FieldUpdate::SetValue(a) => seq![SqlValue::I32(a)],
        FieldUpdate::SetNone => seq![SqlValue::NullI32],
        FieldUpdate::NoChange => Seq::empty(),
    })
}

/// Every placeholder of a record update has its value: the caller and the
/// record take the first two, and one value is bound for each written column.
pub proof fn law_record_update_binds_every_placeholder(user_id: i32, record_id: i64, u: UpdateRecordView)
    ensures
        record_update_values(user_id, record_id, u).len() == 2 + record_update_columns(u).len(),
{
}

/// Whether `v` is the value that a record update binds for the column named
/// `c`: the new sub category, amount, memo text and date as given, `NULL` for
/// a cleared memo or asset, and the new asset as given.
pub open spec fn is_record_column_value(u: UpdateRecordView, c: Seq<char>, v: SqlValue) -> bool {
    &&& c == "sub_category_id"@ ==> (u.sub_category_id matches FieldUpdate::SetValue(x) && v == SqlValue::I32(x))
    &&& c == "amount"@ ==> (u.amount matches FieldUpdate::SetValue(x) && v == SqlValue::I32(x))
    &&& c == "memo"@ ==> ((u.memo matches FieldUpdate::SetValue(m) && v == SqlValue::Text(m)) || (u.memo is SetNone
        && v == SqlValue::OptText(None)))
    &&& c == "target_dt"@ ==> (u.target_dt matches FieldUpdate::SetValue(t) && v == SqlValue::DateTime(t))
    &&& c == "asset_id"@ ==> ((u.asset_id matches FieldUpdate::SetValue(a) && v == SqlValue::I32(a)) || (
    u.asset_id is SetNone && v == SqlValue::NullI32))
}

/// Whether every column of `columns` is bound, at the same position of
/// `values`, to its own value.
pub open spec fn binds_record_columns(u: UpdateRecordView, columns: Seq<Seq<char>>, values: Seq<SqlValue>) -> bool {
    &&& columns.len() == values.len()
    &&& forall|i: int| 0 <= i < columns.len() ==> is_record_column_value(u, #[trigger] columns[i], values[i])
}

proof fn lemma_binds_record_columns_concat(
    u: UpdateRecordView,
    c1: Seq<Seq<char>>,
    v1: Seq<SqlValue>,
    c2: Seq<Seq<char>>,
    v2: Seq<SqlValue>,
)
    requires
        binds_record_columns(u, c1, v1),
        binds_record_columns(u, c2, v2),
    ensures
        binds_record_columns(u, c1 + c2, v1 + v2),
{
    assert forall|i: int| 0 <= i < (c1 + c2).len() implies is_record_column_value(u, #[trigger] (c1 + c2)[i], (v1 + v2)[i]) by {
        if i < c1.len() {
            assert((c1 + c2)[i] == c1[i]);
            assert((v1 + v2)[i] == v1[i]);
        } else {
            assert((c1 + c2)[i] == c2[i - c1.len()]);
            assert((v1 + v2)[i] == v2[i - v1.len()]);
        }
    }
}

/// Each column that a record update writes is bound its own value: the
/// caller and the record take `$1` and `$2`, and the column written `i`-th
/// takes `$(3 + i)` with the value given for that very column (the amount
/// column the new amount, the memo column the new memo text or `NULL`, and
/// so on), whichever other columns are written with it.
pub proof fn law_record_update_binds_each_column_its_value(user_id: i32, record_id: i64, u: UpdateRecordView)
    ensures
        record_update_values(user_id, record_id, u)[0] == SqlValue::I32(user_id),
        record_update_values(user_id, record_id, u)[1] == SqlValue::I64(record_id),
        record_update_values(user_id, record_id, u).len() == 2 + record_update_columns(u).len(),
        forall|i: int|
            0 <= i < record_update_columns(u).len() ==> is_record_column_value(
                u,
                #[trigger] record_update_columns(u)[i],
                record_update_values(user_id, record_id, u)[2 + i],
            ),
{
    reveal_strlit("sub_category_id");
    reveal_strlit("amount");
    reveal_strlit("memo");
    reveal_strlit("target_dt");
    reveal_strlit("asset_id");
    let c1 = value_column(u.sub_category_id, "sub_category_id"@);
    let v1 = int_value(u.sub_category_id);
    let c2 = value_column(u.amount, "amount"@);
    let v2 = int_value(u.amount);
    let c3: Seq<Seq<char>> = if u.memo.touches() { seq!["memo"@] } else { Seq::empty() };
    let v3: Seq<SqlValue> = match u.memo {
        FieldUpdate::SetValue(m) => seq![SqlValue::Text(m)],
        FieldUpdate::SetNone => seq![SqlValue::OptText(None)],
        FieldUpdate::NoChange => Seq::empty(),
    };
    let c4 = value_column(u.target_dt, "target_dt"@);
    let v4: Seq<SqlValue> = match u.target_dt {
        FieldUpdate::SetValue(t) => seq![SqlValue::DateTime(t)],
        _ => Seq::empty(),
    };
    let c5: Seq<Seq<char>> = if u.asset_id.touches() { seq!["asset_id"@] } else { Seq::empty() };
    let v5: Seq<SqlValue> = match u.asset_id {
        FieldUpdate::SetValue(a) => seq![SqlValue::I32(a)],
        FieldUpdate::SetNone => seq![SqlValue::NullI32],
        FieldUpdate::NoChange => Seq::empty(),
    };
    assert(binds_record_columns(u, c1, v1)) by {
        if u.sub_category_id is SetValue {
            assert(c1[0] == "sub_category_id"@);
        }
    }
    assert(binds_record_columns(u, c2, v2)) by {
        if u.amount is SetValue {
            assert(c2[0] == "amount"@);
        }
    }
    assert(binds_record_columns(u, c3, v3)) by {
        if u.memo.touches() {
            assert(c3[0] == "memo"@);
        }
    }
    assert(binds_record_columns(u, c4, v4)) by {
        if u.target_dt is SetValue {
            assert(c4[0] == "target_dt"@);
        }
    }
    assert(binds_record_columns(u, c5, v5)) by {
        if u.asset_id.touches() {
            assert(c5[0] == "asset_id"@);
        }
    }
    lemma_binds_record_columns_concat(u, c1, v1, c2, v2);
    lemma_binds_record_columns_concat(u, c1 + c2, v1 + v2, c3, v3);
    lemma_binds_record_columns_concat(u, c1 + c2 + c3, v1 + v2 + v3, c4, v4);
    lemma_binds_record_columns_concat(u, c1 + c2 + c3 + c4, v1 + v2 + v3 + v4, c5, v5);
    let cols = record_update_columns(u);
    let vals = record_update_values(user_id, record_id, u);
    assert(cols =~= c1 + c2 + c3 + c4 + c5);
    assert(record_column_values(u) =~= v1 + v2 + v3 + v4 + v5);
    assert forall|i: int| 0 <= i < cols.len() implies is_record_column_value(u, #[trigger] cols[i], vals[2 + i]) by {
        assert(vals[2 + i] == record_column_values(u)[i]);
    }
}

/// A record edit is refused for want of a change exactly when the request
/// gives no field; a memo of `NULL`, which clears the memo, is a change.
pub proof fn law_empty_record_edit_changes_nothing(e: EditRecordView)
    ensures
        record_update_columns(record_update_of(e)).len() == 0 <==> (e.sub_category_id is None && e.amount is None
            && e.memo is None && e.target_dt is None && e.asset_id is None),
{
}

/// The checks of a record update test the values that the update writes: the
/// category check names `$3`, the placeholder of the first column, which is
/// the new sub category; the asset check names the placeholder after all
/// other columns, which is the new asset.
pub proof fn law_record_checks_test_the_written_values(user_id: i32, record_id: i64, u: UpdateRecordView)
    ensures
        checks_category(u) ==> record_update_columns(u)[0] == "sub_category_id"@
            && record_update_values(user_id, record_id, u)[2] == SqlValue::I32(u.sub_category_id->SetValue_0),
        checks_asset(u) ==> record_update_columns(u).last() == "asset_id"@
            && record_update_values(user_id, record_id, u)[1 + record_update_columns(u).len() as int] == SqlValue::I32(
                u.asset_id->SetValue_0,
            ),
{
}

/// A refused record update writes nothing: the update's `WHERE` clause
/// holds, besides the record's id, every condition whose failure the result
/// row reports and `check_update_record_result` refuses: the caller's right
/// to edit the book, and, where they are checked, the new sub category and
/// the new asset. A sub category or asset that is not checked is reported as
/// present, so that it refuses nothing.
pub proof fn law_refused_record_update_writes_nothing(u: UpdateRecordView)
    ensures
        exists|pre: Seq<char>, post: Seq<char>|
            record_update_sql(u) == pre + update_where_sql() + category_condition_sql(checks_category(u))
                + asset_condition_sql(checks_asset(u)) + post,
        update_where_sql() == "\n            updated_at = NOW() \n            WHERE id = $2\n                AND EXISTS (SELECT book_id FROM AuthorityCheck) = true\n            "@,
        checks_category(u) ==> category_condition_sql(checks_category(u)) == "AND (SELECT is_category_exist FROM CategoryCheck) = true\n"@,
        checks_asset(u) ==> asset_condition_sql(checks_asset(u)) == "AND (SELECT is_asset_exist FROM AssetCheck) = true\n"@,
        !checks_category(u) ==> category_column_sql(checks_category(u)) == ",true AS is_category_exist"@,
        !checks_asset(u) ==> asset_column_sql(checks_asset(u)) == ",true AS is_asset_exist"@,
{
    let columns = record_update_columns(u);
    let pre = update_head_sql() + (if checks_category(u) { category_check_sql(3) } else { Seq::empty() })
        + (if checks_asset(u) { asset_check_sql(2 + columns.len() as int) } else { Seq::empty() })
        + update_set_sql() + assignments(columns, 3);
    let post = update_select_sql() + category_column_sql(checks_category(u)) + asset_column_sql(checks_asset(u))
        + ";"@;
    assert(record_update_sql(u) =~= pre + update_where_sql() + category_condition_sql(checks_category(u))
        + asset_condition_sql(checks_asset(u)) + post);
}

/// Writes the assignments of the columns of a record update.
fn append_record_columns(u: &UpdateRecord, update_query: &mut String) -> (index: i32)
    ensures
        final(update_query)@ == old(update_query)@ + assignments(record_update_columns(u@), 3),
        index == 2 + record_update_columns(u@).len(),
{
    let ghost uv = u@;
    let ghost prefix = update_query@;
    let mut index: i32 = 2;
    let ghost mut columns: Seq<Seq<char>> = Seq::empty();
    assert(update_query@ =~= prefix + assignments(columns, 3));
    if let FieldUpdate::SetValue(_) = u.get_sub_category_id() {
        let Ghost(c) = append_assignment(update_query, &mut index, "sub_category_id", Ghost(prefix), Ghost(columns), Ghost(3));
        proof { columns = c; }
    }
    let ghost before = columns;
    if let FieldUpdate::SetValue(_) = u.get_amount() {
        let Ghost(c) = append_assignment(update_query, &mut index, "amount", Ghost(prefix), Ghost(columns), Ghost(3));
        proof { columns = c; }
    }
    assert(columns =~= before + value_column(uv.amount, "amount"@));
    let ghost before = columns;
    match u.get_memo() {
        FieldUpdate::NoChange => {},
        _ => {
            let Ghost(c) = append_assignment(update_query, &mut index, "memo", Ghost(prefix), Ghost(columns), Ghost(3));
            proof { columns = c; }
        },
    }
    assert(columns =~= before + (if uv.memo.touches() { seq!["memo"@] } else { Seq::<Seq<char>>::empty() }));
    let ghost before = columns;
    if let FieldUpdate::SetValue(_) = u.get_target_dt() {
        let Ghost(c) = append_assignment(update_query, &mut index, "target_dt", Ghost(prefix), Ghost(columns), Ghost(3));
        proof { columns = c; }
    }
    assert(columns =~= before + value_column(uv.target_dt, "target_dt"@));
    match u.get_asset_id() {
        FieldUpdate::NoChange => {},
        _ => {
            let Ghost(c) = append_assignment(update_query, &mut index, "asset_id", Ghost(prefix), Ghost(columns), Ghost(3));
            proof { columns = c; }
        },
    }
    assert(columns =~= record_update_columns(uv));
    index
}

/// Binds the values of the columns of a record update, in order.
#[verifier::rlimit(40)]
fn push_record_values(u: &UpdateRecord, params: &mut Vec<SqlParam>)
    ensures
        values_of(final(params)@) == values_of(old(params)@) + record_column_values(u@),
{
    let ghost uv = u@;
    let ghost start = values_of(params@);
    let ghost mut values: Seq<SqlValue> = Seq::empty();
    if let FieldUpdate::SetValue(v) = u.get_sub_category_id() {
        params.push(SqlParam::I32(*v));
        proof { values = values.push(SqlValue::I32(*v)); }
    }
    assert(values_of(params@) =~= start + values);
    if let FieldUpdate::SetValue(v) = u.get_amount() {
        params.push(SqlParam::I32(*v));
        proof { values = values.push(SqlValue::I32(*v)); }
    }
    assert(values_of(params@) =~= start + values);
    match u.get_memo() {
        FieldUpdate::SetValue(m) => {
            params.push(SqlParam::Text(m.clone()));
            proof { values = values.push(SqlValue::Text(m@)); }
        },
        FieldUpdate::SetNone => {
            params.push(SqlParam::OptText(None));
            proof { values = values.push(SqlValue::OptText(None)); }
        },
        FieldUpdate::NoChange => {},
    }
    assert(values_of(params@) =~= start + values);
    if let FieldUpdate::SetValue(t) = u.get_target_dt() {
        params.push(SqlParam::DateTime(*t));
        proof { values = values.push(SqlValue::DateTime(*t)); }
    }
    assert(values_of(params@) =~= start + values);
    match u.get_asset_id() {
        FieldUpdate::SetValue(a) => {
            params.push(SqlParam::I32(*a));
            proof { values = values.push(SqlValue::I32(*a)); }
        },
        FieldUpdate::SetNone => {
            params.push(SqlParam::NullI32);
            proof { values = values.push(SqlValue::NullI32); }
        },
        FieldUpdate::NoChange => {},
    }
    assert(values_of(params@) =~= start + values);
    assert(values =~= record_column_values(uv));
}

/// The checks of a new sub category and a new asset, with the placeholders
/// of their columns.
fn append_checks(query: &mut String, category: bool, asset: bool, asset_index: i32)
    ensures
        final(query)@ == old(query)@ + (if category { category_check_sql(3) } else { Seq::empty() })
            + (if asset { asset_check_sql(asset_index as int) } else { Seq::empty() }),
{
    let ghost start = query@;
    if category {
        query.append(
            "\n            CategoryCheck AS (\n                SELECT EXISTS (\n                    SELECT 1\n                    FROM tb_sub_category AS sc\n                    JOIN tb_base_category AS bc ON bc.id = sc.base_id\n                    LEFT JOIN RecordExists AS r ON bc.book_id = r.book_id\n                    WHERE sc.id = $",
        );
        push_signed_decimal(query, 3);
        query.append(
            "\n                        AND (r.book_id IS NOT NULL OR bc.book_id IS NULL)\n                ) AS is_category_exist\n            ),",
        );
    }
    let ghost mid = query@;
    assert(mid =~= start + (if category { category_check_sql(3) } else { Seq::empty() }));
    if asset {
        query.append(
            "\n                AssetCheck AS (\n                    SELECT EXISTS (\n                        SELECT 1\n                        FROM tb_asset AS a\n                        JOIN RecordExists AS r ON r.book_id = a.book_id\n                        WHERE a.id = $",
        );
        push_signed_decimal(query, asset_index as i64);
        query.append("\n                        ) AS is_asset_exist\n                        ),");
    }
    assert(query@ =~= mid + (if asset { asset_check_sql(asset_index as int) } else { Seq::empty() }));
}

/// The end of a record update: the update's conditions and the result row.
fn append_update_tail(update_query: &mut String, category: bool, asset: bool)
    ensures
        final(update_query)@ == old(update_query)@ + update_where_sql() + category_condition_sql(category)
            + asset_condition_sql(asset) + update_select_sql() + category_column_sql(category)
            + asset_column_sql(asset) + ";"@,
{
    update_query.append(
        "\n            updated_at = NOW() \n            WHERE id = $2\n                AND EXISTS (SELECT book_id FROM AuthorityCheck) = true\n            ",
    );
    if category {
        update_query.append("AND (SELECT is_category_exist FROM CategoryCheck) = true\n");
    } else {
        update_query.append("");
    }
    if asset {
        update_query.append("AND (SELECT is_asset_exist FROM AssetCheck) = true\n");
    } else {
        update_query.append("");
    }
    update_query.append("RETURNING id\n        )");
    update_query.append(
        "\n            SELECT\n                EXISTS (SELECT 1 FROM RecordExists) AS is_exist,\n                EXISTS (SELECT 1 FROM AuthorityCheck) AS is_authorized,\n                (SELECT COUNT(*) FROM UpdateRecord) AS update_count\n",
    );
    if category {
        update_query.append(",(SELECT is_category_exist FROM CategoryCheck) AS is_category_exist\n");
    } else {
        update_query.append(",true AS is_category_exist");
    }
    if asset {
        update_query.append(",(SELECT is_asset_exist FROM AssetCheck) AS is_asset_exist\n");
    } else {
        update_query.append(",true AS is_asset_exist");
    }
    update_query.append(";");
    assert(final(update_query)@ =~= old(update_query)@ + update_where_sql() + category_condition_sql(category)
        + asset_condition_sql(asset) + update_select_sql() + category_column_sql(category)
        + asset_column_sql(asset) + ";"@);
}

/// The checked update statement of a record and its bound values; or
/// `NoFieldUpdate` when the change set writes no column.
pub fn update_record(user_id: i32, record_id: i64, edit_record: &UpdateRecord) -> (r: Result<SqlStatement, CustomError>)
    ensures
        match r {
            Ok(st) => record_update_columns(edit_record@).len() > 0
                && st.sql@ == record_update_sql(edit_record@)
                && values_of(st.params@) == record_update_values(user_id, record_id, edit_record@),
            Err(e) => record_update_columns(edit_record@).len() == 0
                && (e matches CustomError::NoFieldUpdate(t) && t@ == "Record"@),
        },
{
    let u = edit_record;
    let ghost uv = u@;
    let mut query = String::from_str(
        "\n        WITH RecordExists AS (\n            SELECT book_id\n            FROM tb_record\n            WHERE id = $2\n        ),\n        AuthorityCheck AS (\n            SELECT r.book_id\n            FROM RecordExists AS r\n            JOIN tb_book AS b ON b.id = r.book_id\n            JOIN tb_user_book_role AS br ON b.id = br.book_id\n            WHERE br.user_id = $1 AND br.role != 'viewer'\n        ),",
    );
    let mut update_query = String::from_str("\n        UpdateRecord AS (\n            UPDATE tb_record SET ");
    let mut params: Vec<SqlParam> = Vec::new();
    params.push(SqlParam::I32(user_id));
    params.push(SqlParam::I64(record_id));
    assert(values_of(params@) =~= seq![SqlValue::I32(user_id), SqlValue::I64(record_id)]);
    let index = append_record_columns(u, &mut update_query);
    push_record_values(u, &mut params);
    let ctg_check = match u.get_sub_category_id() {
        FieldUpdate::SetValue(_) => true,
        _ => false,
    };
    let asset_check = match u.get_asset_id() {
        FieldUpdate::SetValue(_) => true,
        _ => false,
    };
    if index == 2 {
        return Err(CustomError::no_field_update("Record"));
    }
    append_checks(&mut query, ctg_check, asset_check, index);
    append_update_tail(&mut update_query, ctg_check, asset_check);
    query.append(update_query.as_str());
    assert(values_of(params@) =~= record_update_values(user_id, record_id, uv));
    assert(query@ =~= record_update_sql(uv));
    Ok(SqlStatement { sql: query, params })
}

/// What the checked update of a record reports.
pub struct UpdateRecordResultView {
    pub is_exist: bool,
    pub is_authorized: bool,
    pub update_count: i64,
    pub is_asset_exist: bool,
    pub is_category_exist: bool,
}

/// The row returned by the checked update statement of a record.
#[derive(Debug)]
pub struct UpdateRecordResult {
    is_exist: bool,
    is_authorized: bool,
    update_count: i64,
    is_asset_exist: bool,
    is_category_exist: bool,
}

impl View for UpdateRecordResult {
    type V = UpdateRecordResultView;

    closed spec fn view(&self) -> UpdateRecordResultView {
        UpdateRecordResultView {
            is_exist: self.is_exist,
            is_authorized: self.is_authorized,
            update_count: self.update_count,
            is_asset_exist: self.is_asset_exist,
            is_category_exist: self.is_category_exist,
        }
    }
}

impl UpdateRecordResult {
    /// The result row with the given columns.
    pub fn new(
        is_exist: bool,
        is_authorized: bool,
        update_count: i64,
        is_asset_exist: bool,
        is_category_exist: bool,
    ) -> (r: UpdateRecordResult)
        ensures
            r@ == (UpdateRecordResultView { is_exist, is_authorized, update_count, is_asset_exist, is_category_exist }),
    {
        UpdateRecordResult { is_exist, is_authorized, update_count, is_asset_exist, is_category_exist }
    }

    pub fn get_exist(&self) -> (r: bool)
        ensures
            r == self@.is_exist,
    {
        self.is_exist
    }

    pub fn get_authorized(&self) -> (r: bool)
        ensures
            r == self@.is_authorized,
    {
        self.is_authorized
    }

    pub fn get_asset_exist(&self) -> (r: bool)
        ensures
            r == self@.is_asset_exist,
    {
        self.is_asset_exist
    }

    pub fn get_category_exist(&self) -> (r: bool)
        ensures
            r == self@.is_category_exist,
    {
        self.is_category_exist
    }

    pub fn get_count(&self) -> (r: i64)
        ensures
            r == self@.update_count,
    {
        self.update_count
    }
}

/// The outcome of a checked record update: a missing record is reported
/// first, then a missing right to edit, then an unusable sub category, then
/// an asset of another book.
pub fn check_update_record_result(result: &UpdateRecordResult) -> (r: Result<(), CustomError>)
    ensures
        r is Ok <==> result@.is_exist && result@.is_authorized && result@.is_category_exist && result@.is_asset_exist,
        !result@.is_exist ==> (r matches Err(CustomError::NotFound(t)) && t@ == "Record"@),
        result@.is_exist && !result@.is_authorized ==> (r matches Err(CustomError::Unauthorized(t)) && t@ == "RecordRole"@),
        result@.is_exist && result@.is_authorized && !result@.is_category_exist
            ==> (r matches Err(CustomError::NotFound(t)) && t@ == "Category"@),
        result@.is_exist && result@.is_authorized && result@.is_category_exist && !result@.is_asset_exist
            ==> (r matches Err(CustomError::NotFound(t)) && t@ == "Asset"@),
{
    if !result.get_exist() {
        Err(CustomError::not_found("Record"))
    } else if !result.get_authorized() {
        Err(CustomError::unauthorized("RecordRole"))
    } else if !result.get_category_exist() {
        Err(CustomError::not_found("Category"))
    } else if !result.get_asset_exist() {
        Err(CustomError::not_found("Asset"))
    } else {
        Ok(())
    }
}

/// The outcome of a checked record delete: a missing record is reported
/// first, then a missing right to edit.
pub fn check_delete_record_result(result: &DeleteResult) -> (r: Result<(), CustomError>)
    ensures
        r is Ok <==> result@.is_exist && result@.is_authorized,
        !result@.is_exist ==> (r matches Err(CustomError::NotFound(t)) && t@ == "Record"@),
        result@.is_exist && !result@.is_authorized ==> (r matches Err(CustomError::Unauthorized(t)) && t@ == "RecordRole"@),
{
    if !result.get_exist() {
        Err(CustomError::not_found("Record"))
    } else if !result.get_authorized() {
        Err(CustomError::unauthorized("RecordRole"))
    } else {
        Ok(())
    }
}

/// The outcome of the check of the connections of a new record: every
/// given connection id must name a stored connection.
pub fn check_connect_ids(invalid_count: i64) -> (r: Result<(), CustomError>)
    ensures
        r is Ok <==> invalid_count <= 0,
        r matches Err(e) ==> (e matches CustomError::ValidationError(t) && t@ == "Connect"@),
{
    if invalid_count > 0 {
        Err(CustomError::validation("Connect"))
    } else {
        Ok(())
    }
}

/// The search of the records of a book that the caller may see, in a period.
pub open spec fn record_list_head_sql() -> Seq<char> {
    "\n        SELECT r.* \n        FROM tb_record AS r\n        JOIN tb_book AS b ON b.id = r.book_id\n        JOIN tb_user_book_role AS br ON b.id = br.book_id\n        JOIN tb_sub_category AS sc ON r.sub_category_id = sc.id\n        WHERE br.user_id = $1 AND b.id = $2\n            AND r.target_dt BETWEEN $3 AND $4\n    "@
}

/// The text of a record search: the optional sub category takes the next
/// placeholder after the period, and the optional base category the one
/// after that.
pub open spec fn record_list_sql(s: SearchView) -> Seq<char> {
    record_list_head_sql()
        + (if s.sub_id is Some { "AND sc.id = $"@ + signed_decimal(5) + " "@ } else { Seq::empty() })
        + (if s.base_id is Some {
        "AND sc.base_id = $"@ + signed_decimal(if s.sub_id is Some { 6 } else { 5 })
    } else {
        Seq::empty()
    })
}

/// The values bound to a record search, in placeholder order.
pub open spec fn record_list_values(user_id: i32, book_id: i32, s: SearchView) -> Seq<SqlValue> {
    seq![SqlValue::I32(user_id), SqlValue::I32(book_id), SqlValue::Date(s.start_dt), SqlValue::Date(s.end_dt)]
        + (match s.sub_id {
        Some(v) => seq![SqlValue::I32(v)],
        None => Seq::empty(),
    }) + (match s.base_id {
        Some(v) => seq![SqlValue::I16(v)],
        None => Seq::empty(),
    })
}

/// A record search binds one value for each placeholder its text names: the
/// caller, the book, the first and the last day of the period take `$1` to
/// `$4` in that order, a sub category `$5`,
/// and a base category the placeholder after it (`$5` without a sub category).
pub proof fn law_record_search_binds_its_filters(user_id: i32, book_id: i32, s: SearchView)
    ensures
        record_list_values(user_id, book_id, s)[0] == SqlValue::I32(user_id),
        record_list_values(user_id, book_id, s)[1] == SqlValue::I32(book_id),
        record_list_values(user_id, book_id, s)[2] == SqlValue::Date(s.start_dt),
        record_list_values(user_id, book_id, s)[3] == SqlValue::Date(s.end_dt),
        record_list_values(user_id, book_id, s).len() == 4 + (if s.sub_id is Some { 1int } else { 0int }) + (
        if s.base_id is Some {
            1int
        } else {
            0int
        }),
        s.sub_id matches Some(v) ==> record_list_values(user_id, book_id, s)[4] == SqlValue::I32(v),
        s.base_id matches Some(b) ==> record_list_values(user_id, book_id, s)[if s.sub_id is Some {
            5int
        } else {
            4int
        }] == SqlValue::I16(b),
{
}

/// A search filter narrows a search: giving a base category appends the
/// condition `AND sc.base_id = $n` to the text of the search without it, and
/// giving a sub category adds the condition `AND sc.id = $5` before any base
/// category condition, whose placeholder moves on to `$6` (its value moves
/// with it, see `law_record_search_binds_its_filters`). No condition of the
/// search without the filter is dropped.
pub proof fn law_record_search_filters_only_add_conditions(s: SearchView)
    ensures
        s.base_id is Some ==> record_list_sql(s) == record_list_sql(SearchView { base_id: None, ..s })
            + "AND sc.base_id = $"@ + signed_decimal(if s.sub_id is Some { 6 } else { 5 }),
        s.sub_id is Some ==> record_list_sql(s) == record_list_head_sql() + ("AND sc.id = $"@ + signed_decimal(5)
            + " "@) + (if s.base_id is Some { "AND sc.base_id = $"@ + signed_decimal(6) } else { Seq::empty() }),
        s.sub_id is Some ==> record_list_sql(SearchView { sub_id: None, ..s }) == record_list_head_sql() + (
        if s.base_id is Some {
            "AND sc.base_id = $"@ + signed_decimal(5)
        } else {
            Seq::empty()
        }),
{
    let t = SearchView { base_id: None, ..s };
    assert(record_list_sql(t) =~= record_list_head_sql() + (if s.sub_id is Some {
        "AND sc.id = $"@ + signed_decimal(5) + " "@
    } else {
        Seq::empty()
    }));
    if s.base_id is Some {
        assert(record_list_sql(s) =~= record_list_sql(t) + "AND sc.base_id = $"@ + signed_decimal(
            if s.sub_id is Some { 6 } else { 5 },
        ));
    }
    if s.sub_id is Some {
        let u = SearchView { sub_id: None, ..s };
        assert(record_list_sql(u) =~= record_list_head_sql() + (if s.base_id is Some {
            "AND sc.base_id = $"@ + signed_decimal(5)
        } else {
            Seq::empty()
        }));
    }
}

/// The statement that lists the records of a book in the searched period,
/// narrowed to a sub category and a base category where they are given.
pub fn get_list(user_id: i32, book_id: i32, search_query: &Search) -> (r: SqlStatement)
    ensures
        r.sql@ == record_list_sql(search_query@),
        values_of(r.params@) == record_list_values(user_id, book_id, search_query@),
{
    let ghost sv = search_query@;
    let mut query = String::from_str(
        "\n        SELECT r.* \n        FROM tb_record AS r\n        JOIN tb_book AS b ON b.id = r.book_id\n        JOIN tb_user_book_role AS br ON b.id = br.book_id\n        JOIN tb_sub_category AS sc ON r.sub_category_id = sc.id\n        WHERE br.user_id = $1 AND b.id = $2\n            AND r.target_dt BETWEEN $3 AND $4\n    ",
    );
    let mut bind_idx: i32 = 5;
    if let Some(_) = search_query.get_sub_id() {
        query.append("AND sc.id = $");
        push_signed_decimal(&mut query, bind_idx as i64);
        query.append(" ");
        bind_idx = bind_idx + 1;
    }
    let ghost mid = query@;
    assert(mid =~= record_list_head_sql()
        + (if sv.sub_id is Some { "AND sc.id = $"@ + signed_decimal(5) + " "@ } else { Seq::empty() }));
    if let Some(_) = search_query.get_base_id() {
        query.append("AND sc.base_id = $");
        push_signed_decimal(&mut query, bind_idx as i64);
    }
    assert(query@ =~= record_list_sql(sv));

    let mut params: Vec<SqlParam> = Vec::new();
    params.push(SqlParam::I32(user_id));
    params.push(SqlParam::I32(book_id));
    params.push(SqlParam::Date(*search_query.get_start_dt()));
    params.push(SqlParam::Date(*search_query.get_end_dt()));
    let ghost four = values_of(params@);
    if let Some(sub_id) = search_query.get_sub_id() {
        params.push(SqlParam::I32(*sub_id));
    }
    let ghost five = values_of(params@);
    assert(five =~= four + (match sv.sub_id {
        Some(v) => seq![SqlValue::I32(v)],
        None => Seq::<SqlValue>::empty(),
    }));
    if let Some(base_id) = search_query.get_base_id() {
        params.push(SqlParam::I16(*base_id));
    }
    assert(values_of(params@) =~= record_list_values(user_id, book_id, sv));
    SqlStatement { sql: query, params }
}

/// The count of the given connection ids that name no stored connection.
pub open spec fn connect_ids_check_sql() -> Seq<char> {
    "\n            SELECT COUNT(*)\n            FROM (\n                SELECT unnest($1::int[]) AS input_ids\n            ) AS un\n            WHERE un.input_ids NOT IN (SELECT id FROM tb_connect);\n            "@
}

/// The statement that counts the given connection ids that name no stored
/// connection.
pub fn connect_ids_check_statement(ids: Vec<i32>) -> (r: SqlStatement)
    ensures
        r.sql@ == connect_ids_check_sql(),
        values_of(r.params@) == seq![SqlValue::IntArray(ids@)],
{
    let ghost v = ids@;
    let mut params: Vec<SqlParam> = Vec::new();
    params.push(SqlParam::IntArray(ids));
    assert(values_of(params@) =~= seq![SqlValue::IntArray(v)]);
    SqlStatement { sql: String::from_str("\n            SELECT COUNT(*)\n            FROM (\n                SELECT unnest($1::int[]) AS input_ids\n            ) AS un\n            WHERE un.input_ids NOT IN (SELECT id FROM tb_connect);\n            "), params }
}

/// The check of the connections of a new record: a statement that counts the
/// given ids naming no stored connection, or none where no ids are given,
/// which needs no check.
pub fn connect_ids_check(ids: &Option<Vec<i32>>) -> (r: Option<SqlStatement>)
    ensures
        ids is None <==> r is None,
        ids matches Some(v) ==> r matches Some(s) && s.sql@ == connect_ids_check_sql() && values_of(s.params@)
            == seq![SqlValue::IntArray(v@)],
{
    match ids {
        Some(v) => Some(connect_ids_check_statement(clone_ids(v))),
        None => None,
    }
}

/// The insert of a new record, which attaches the given connections to it
/// and answers its id.
pub open spec fn save_record_sql() -> Seq<char> {
    "\n        -- tb_record에 삽입\n        WITH inserted_record AS (\n            INSERT INTO tb_record (book_id, sub_category_id, amount, memo, target_dt, created_at, asset_id) \n            VALUES ($1, $2, $3, $4, $5, NOW(), $6)\n            RETURNING id\n        ),\n        inserted_connect AS (\n            -- 조건부로 연결 작업 수행\n            INSERT INTO tb_record_connect (record_id, connect_id)\n                SELECT inserted_record.id, connect.id\n                FROM inserted_record\n                JOIN tb_connect AS connect ON connect.id = ANY($7::int[])\n                WHERE $7 IS NOT NULL -- connect_ids가 NULL이 아닌 경우에만 수행\n            RETURNING record_id\n        )\n        SELECT COALESCE((SELECT record_id FROM inserted_connect), (SELECT id FROM inserted_record)) AS id;\n    "@
}

/// The values of the insert of a record, in placeholder order: its columns,
/// then the connections to attach (`NULL` for none).
pub open spec fn save_record_values(r: RecordView, connect_ids: Option<Seq<i32>>) -> Seq<SqlValue> {
    seq![
        SqlValue::I32(r.book_id),
        SqlValue::I32(r.sub_category_id),
        SqlValue::I32(r.amount),
        SqlValue::OptText(r.memo),
        SqlValue::DateTime(r.target_dt),
        SqlValue::OptI32(r.asset_id),
        SqlValue::OptIntArray(connect_ids),
    ]
}

/// The columns that the insert of a record lists, in order; `created_at`
/// takes `NOW()`, the others the placeholders `$1` to `$6` in order.
pub open spec fn save_record_columns() -> Seq<Seq<char>> {
    seq!["book_id"@, "sub_category_id"@, "amount"@, "memo"@, "target_dt"@, "created_at"@, "asset_id"@]
}

/// Whether `v` is the value of the record's field stored in the column named `c`.
pub open spec fn is_record_field_value(r: RecordView, c: Seq<char>, v: SqlValue) -> bool {
    &&& c == "book_id"@ ==> v == SqlValue::I32(r.book_id)
    &&& c == "sub_category_id"@ ==> v == SqlValue::I32(r.sub_category_id)
    &&& c == "amount"@ ==> v == SqlValue::I32(r.amount)
    &&& c == "memo"@ ==> v == SqlValue::OptText(r.memo)
    &&& c == "target_dt"@ ==> v == SqlValue::DateTime(r.target_dt)
    &&& c == "asset_id"@ ==> v == SqlValue::OptI32(r.asset_id)
}

/// The insert of a record stores each field in its own column: the statement
/// lists the columns in the order of `save_record_columns` against
/// `$1, $2, $3, $4, $5, NOW(), $6`, the value bound to each of `$1` to `$6`
/// is the record's field for its column, and `$7` (the connections to
/// attach) is bound to the given connection ids.
pub proof fn law_save_record_binds_each_column_its_value(r: RecordView, connect_ids: Option<Seq<i32>>)
    ensures
        save_record_sql() == "\n        -- tb_record에 삽입\n        WITH inserted_record AS (\n            INSERT INTO tb_record ("@ + save_record_columns()[0] + ", "@ + save_record_columns()[1] + ", "@
            + save_record_columns()[2] + ", "@ + save_record_columns()[3] + ", "@ + save_record_columns()[4] + ", "@
            + save_record_columns()[5] + ", "@ + save_record_columns()[6] + ") \n            VALUES ($1, $2, $3, $4, $5, NOW(), $6)\n            RETURNING id\n        ),\n        inserted_connect AS (\n            -- 조건부로 연결 작업 수행\n            INSERT INTO tb_record_connect (record_id, connect_id)\n                SELECT inserted_record.id, connect.id\n                FROM inserted_record\n                JOIN tb_connect AS connect ON connect.id = ANY($7::int[])\n                WHERE $7 IS NOT NULL -- connect_ids가 NULL이 아닌 경우에만 수행\n            RETURNING record_id\n        )\n        SELECT COALESCE((SELECT record_id FROM inserted_connect), (SELECT id FROM inserted_record)) AS id;\n    "@,
        save_record_values(r, connect_ids).len() == 7,
        forall|i: int|
            0 <= i < 5 ==> is_record_field_value(r, #[trigger] save_record_columns()[i], save_record_values(r, connect_ids)[i]),
        is_record_field_value(r, save_record_columns()[6], save_record_values(r, connect_ids)[5]),
        save_record_values(r, connect_ids)[6] == SqlValue::OptIntArray(connect_ids),
{
    reveal_strlit("\n        -- tb_record에 삽입\n        WITH inserted_record AS (\n            INSERT INTO tb_record (book_id, sub_category_id, amount, memo, target_dt, created_at, asset_id) \n            VALUES ($1, $2, $3, $4, $5, NOW(), $6)\n            RETURNING id\n        ),\n        inserted_connect AS (\n            -- 조건부로 연결 작업 수행\n            INSERT INTO tb_record_connect (record_id, connect_id)\n                SELECT inserted_record.id, connect.id\n                FROM inserted_record\n                JOIN tb_connect AS connect ON connect.id = ANY($7::int[])\n                WHERE $7 IS NOT NULL -- connect_ids가 NULL이 아닌 경우에만 수행\n            RETURNING record_id\n        )\n        SELECT COALESCE((SELECT record_id FROM inserted_connect), (SELECT id FROM inserted_record)) AS id;\n    ");
    reveal_strlit("\n        -- tb_record에 삽입\n        WITH inserted_record AS (\n            INSERT INTO tb_record (");
    reveal_strlit(", ");
    reveal_strlit(") \n            VALUES ($1, $2, $3, $4, $5, NOW(), $6)\n            RETURNING id\n        ),\n        inserted_connect AS (\n            -- 조건부로 연결 작업 수행\n            INSERT INTO tb_record_connect (record_id, connect_id)\n                SELECT inserted_record.id, connect.id\n                FROM inserted_record\n                JOIN tb_connect AS connect ON connect.id = ANY($7::int[])\n                WHERE $7 IS NOT NULL -- connect_ids가 NULL이 아닌 경우에만 수행\n            RETURNING record_id\n        )\n        SELECT COALESCE((SELECT record_id FROM inserted_connect), (SELECT id FROM inserted_record)) AS id;\n    ");
    reveal_strlit("book_id");
    reveal_strlit("sub_category_id");
    reveal_strlit("amount");
    reveal_strlit("memo");
    reveal_strlit("target_dt");
    reveal_strlit("created_at");
    reveal_strlit("asset_id");
    let cols = save_record_columns();
    assert(save_record_sql() =~= "\n        -- tb_record에 삽입\n        WITH inserted_record AS (\n            INSERT INTO tb_record ("@ + cols[0] + ", "@ + cols[1] + ", "@ + cols[2] + ", "@ + cols[3] + ", "@ + cols[4]
        + ", "@ + cols[5] + ", "@ + cols[6] + ") \n            VALUES ($1, $2, $3, $4, $5, NOW(), $6)\n            RETURNING id\n        ),\n        inserted_connect AS (\n            -- 조건부로 연결 작업 수행\n            INSERT INTO tb_record_connect (record_id, connect_id)\n                SELECT inserted_record.id, connect.id\n                FROM inserted_record\n                JOIN tb_connect AS connect ON connect.id = ANY($7::int[])\n                WHERE $7 IS NOT NULL -- connect_ids가 NULL이 아닌 경우에만 수행\n            RETURNING record_id\n        )\n        SELECT COALESCE((SELECT record_id FROM inserted_connect), (SELECT id FROM inserted_record)) AS id;\n    "@);
    assert forall|i: int| 0 <= i < 5 implies is_record_field_value(r, #[trigger] cols[i], save_record_values(r, connect_ids)[i]) by {
        assert(cols[0] == "book_id"@ && cols[1] == "sub_category_id"@ && cols[2] == "amount"@);
        assert(cols[3] == "memo"@ && cols[4] == "target_dt"@);
    }
    assert(cols[6] == "asset_id"@);
}

/// The statement that stores a new record with its connections.
pub fn save_record_statement(record: &Record, connect_ids: Option<Vec<i32>>) -> (r: SqlStatement)
    ensures
        r.sql@ == save_record_sql(),
        values_of(r.params@) == save_record_values(record@, opt_ids_view(connect_ids)),
{
    let ghost ids = opt_ids_view(connect_ids);
    let mut params: Vec<SqlParam> = Vec::new();
    params.push(SqlParam::I32(record.get_book_id()));
    params.push(SqlParam::I32(record.get_sub_category_id()));
    params.push(SqlParam::I32(record.get_amount()));
    params.push(SqlParam::OptText(clone_opt_string(record.get_memo())));
    params.push(SqlParam::DateTime(record.get_target_dt()));
    params.push(SqlParam::OptI32(*record.get_asset_id()));
    params.push(SqlParam::OptIntArray(connect_ids));
    assert(values_of(params@) =~= save_record_values(record@, ids));
    SqlStatement { sql: String::from_str("\n        -- tb_record에 삽입\n        WITH inserted_record AS (\n            INSERT INTO tb_record (book_id, sub_category_id, amount, memo, target_dt, created_at, asset_id) \n            VALUES ($1, $2, $3, $4, $5, NOW(), $6)\n            RETURNING id\n        ),\n        inserted_connect AS (\n            -- 조건부로 연결 작업 수행\n            INSERT INTO tb_record_connect (record_id, connect_id)\n                SELECT inserted_record.id, connect.id\n                FROM inserted_record\n                JOIN tb_connect AS connect ON connect.id = ANY($7::int[])\n                WHERE $7 IS NOT NULL -- connect_ids가 NULL이 아닌 경우에만 수행\n            RETURNING record_id\n        )\n        SELECT COALESCE((SELECT record_id FROM inserted_connect), (SELECT id FROM inserted_record)) AS id;\n    "), params }
}

/// The read of a record of a book that the caller has a role in.
pub open spec fn record_by_id_sql() -> Seq<char> {
    "\n        SELECT r.* FROM tb_record AS r\n        JOIN tb_book AS b ON b.id = r.book_id\n        JOIN tb_user_book_role AS br ON b.id = br.book_id\n        WHERE br.user_id = $1 AND r.id = $2\n    "@
}

/// The statement that reads a record that the caller may see.
pub fn record_by_id_statement(user_id: i32, record_id: i64) -> (r: SqlStatement)
    ensures
        r.sql@ == record_by_id_sql(),
        values_of(r.params@) == seq![SqlValue::I32(user_id), SqlValue::I64(record_id)],
{
    let mut params: Vec<SqlParam> = Vec::new();
    params.push(SqlParam::I32(user_id));
    params.push(SqlParam::I64(record_id));
    assert(values_of(params@) =~= seq![SqlValue::I32(user_id), SqlValue::I64(record_id)]);
    SqlStatement { sql: String::from_str("\n        SELECT r.* FROM tb_record AS r\n        JOIN tb_book AS b ON b.id = r.book_id\n        JOIN tb_user_book_role AS br ON b.id = br.book_id\n        WHERE br.user_id = $1 AND r.id = $2\n    "), params }
}

/// The checked delete of a record: it is deleted only where the caller may
/// edit its book, and the answer tells whether it exists and whether the
/// caller may.
pub open spec fn delete_record_sql() -> Seq<char> {
    "\n        WITH RecordExists AS (\n            SELECT book_id\n            FROM tb_record\n            WHERE id = $2\n        ),\n        AuthorityCheck AS (\n            SELECT r.book_id\n            FROM RecordExists AS r\n            JOIN tb_book AS b ON b.id = r.book_id\n            JOIN tb_user_book_role AS br ON b.id = br.book_id\n            WHERE br.user_id = $1 AND br.role != 'viewer'\n        ),\n        DeleteRecord AS (\n            DELETE FROM tb_record \n            WHERE id = $2\n                AND EXISTS (SELECT 1 FROM AuthorityCheck) = true\n            RETURNING id\n        )\n        SELECT\n            EXISTS (SELECT 1 FROM RecordExists) AS is_exist,\n            EXISTS (SELECT 1 FROM AuthorityCheck) AS is_authorized,\n            (SELECT COUNT(*) FROM DeleteRecord) AS delete_count\n\n        "@
}

/// The statement that deletes a record where the caller may edit its book.
pub fn delete_record_statement(user_id: i32, record_id: i64) -> (r: SqlStatement)
    ensures
        r.sql@ == delete_record_sql(),
        values_of(r.params@) == seq![SqlValue::I32(user_id), SqlValue::I64(record_id)],
{
    let mut params: Vec<SqlParam> = Vec::new();
    params.push(SqlParam::I32(user_id));
    params.push(SqlParam::I64(record_id));
    assert(values_of(params@) =~= seq![SqlValue::I32(user_id), SqlValue::I64(record_id)]);
    SqlStatement { sql: String::from_str("\n        WITH RecordExists AS (\n            SELECT book_id\n            FROM tb_record\n            WHERE id = $2\n        ),\n        AuthorityCheck AS (\n            SELECT r.book_id\n            FROM RecordExists AS r\n            JOIN tb_book AS b ON b.id = r.book_id\n            JOIN tb_user_book_role AS br ON b.id = br.book_id\n            WHERE br.user_id = $1 AND br.role != 'viewer'\n        ),\n        DeleteRecord AS (\n            DELETE FROM tb_record \n            WHERE id = $2\n                AND EXISTS (SELECT 1 FROM AuthorityCheck) = true\n            RETURNING id\n        )\n        SELECT\n            EXISTS (SELECT 1 FROM RecordExists) AS is_exist,\n            EXISTS (SELECT 1 FROM AuthorityCheck) AS is_authorized,\n            (SELECT COUNT(*) FROM DeleteRecord) AS delete_count\n\n        "), params }
}

/// The error of a failed read of a record: no row means that the caller has
/// no record with that id.
pub fn record_lookup_failure(failure: DbFailure) -> (r: CustomError)
    ensures
        match failure {
            DbFailure::Database(m) => r matches CustomError::DatabaseError(t) && t@ == m@,
            DbFailure::RowNotFound(_) => r matches CustomError::NotFound(t) && t@ == "Record"@,
            DbFailure::Other(m) => r matches CustomError::Unexpected(t) && t@ == m@,
        },
{
    CustomError::from_db(failure, Some(CustomError::not_found("Record")))
}

} // verus!
