use household_ledger::errors::DbFailure;
use household_ledger::record::repository::{connect_ids_check, connect_ids_check_statement, delete_record_statement, record_by_id_statement, record_lookup_failure, save_record_statement};
use chrono::NaiveDate;
use household_ledger::constants::{DeleteResult, FieldUpdate, UpdateResult};
use household_ledger::date::Date;
use household_ledger::errors::CustomError;
use household_ledger::record::dto::{EditRecord, NewRecord, SearchParams};
use household_ledger::record::entity::{Record, Search, UpdateRecord};
use household_ledger::record::repository::{
    check_connect_ids, check_delete_record_result, check_update_record_result, get_list, update_record,
    UpdateRecordResult,
};
use household_ledger::sql::SqlParam;

fn make_query(index: &mut i32, field_name: &str) -> String {
    *index += 1;
    format!("{} = ${}, ", field_name, index)
}

/// The statement text of a checked record update, written step by step as
/// the service builds it: `None` where no column is written.
fn expected_update_sql(edit_record: &UpdateRecord) -> Option<String> {
    let mut query = r"
        WITH RecordExists AS (
            SELECT book_id
            FROM tb_record
            WHERE id = $2
        ),
        AuthorityCheck AS (
            SELECT r.book_id
            FROM RecordExists AS r
            JOIN tb_book AS b ON b.id = r.book_id
            JOIN tb_user_book_role AS br ON b.id = br.book_id
            WHERE br.user_id = $1 AND br.role != 'viewer'
        ),"
    .to_string();

    let mut index = 2;
    let mut ctg_check = false;
    let mut asset_check = false;

    let mut update_query = r"
        UpdateRecord AS (
            UPDATE tb_record SET "
        .to_string();

    if let FieldUpdate::SetValue(_) = edit_record.get_sub_category_id() {
        update_query.push_str(&make_query(&mut index, "sub_category_id"));
        query.push_str(&format!(
            r"
            CategoryCheck AS (
                SELECT EXISTS (
                    SELECT 1
                    FROM tb_sub_category AS sc
                    JOIN tb_base_category AS bc ON bc.id = sc.base_id
                    LEFT JOIN RecordExists AS r ON bc.book_id = r.book_id
                    WHERE sc.id = ${}
                        AND (r.book_id IS NOT NULL OR bc.book_id IS NULL)
                ) AS is_category_exist
            ),",
            index
        ));
        ctg_check = true;
    };
    if let FieldUpdate::SetValue(_) = edit_record.get_amount() {
        update_query.push_str(&make_query(&mut index, "amount"));
    };
    match edit_record.get_memo() {
        FieldUpdate::NoChange => {}
        _ => {
            update_query.push_str(&make_query(&mut index, "memo"));
        }
    };
    if let FieldUpdate::SetValue(_) = edit_record.get_target_dt() {
        update_query.push_str(&make_query(&mut index, "target_dt"));
    };
    match edit_record.get_asset_id() {
        FieldUpdate::SetValue(_) => {
            update_query.push_str(&make_query(&mut index, "asset_id"));
            query.push_str(&format!(
                r"
                AssetCheck AS (
                    SELECT EXISTS (
                        SELECT 1
                        FROM tb_asset AS a
                        JOIN RecordExists AS r ON r.book_id = a.book_id
                        WHERE a.id = ${}
                        ) AS is_asset_exist
                        ),",
                index
            ));
            asset_check = true;
        }
        FieldUpdate::SetNone => {
            update_query.push_str(&make_query(&mut index, "asset_id"));
        }
        _ => {}
    }

    if index == 2 {
        return None;
    }

    update_query.push_str(
        &("
            updated_at = NOW() 
            WHERE id = $2
                AND EXISTS (SELECT book_id FROM AuthorityCheck) = true
            "
        .to_string()
            + if ctg_check {
                "AND (SELECT is_category_exist FROM CategoryCheck) = true\n"
            } else {
                ""
            }
            + if asset_check {
                "AND (SELECT is_asset_exist FROM AssetCheck) = true\n"
            } else {
                ""
            }),
    );

    query.push_str(
        &(update_query
            + "RETURNING id
        )" + "
            SELECT
                EXISTS (SELECT 1 FROM RecordExists) AS is_exist,
                EXISTS (SELECT 1 FROM AuthorityCheck) AS is_authorized,
                (SELECT COUNT(*) FROM UpdateRecord) AS update_count\n"
            + if ctg_check {
                ",(SELECT is_category_exist FROM CategoryCheck) AS is_category_exist\n"
            } else {
                ",true AS is_category_exist"
            }
            + if asset_check {
                ",(SELECT is_asset_exist FROM AssetCheck) AS is_asset_exist\n"
            } else {
                ",true AS is_asset_exist"
            }
            + ";"),
    );

    Some(query)
}

fn at(y: i32, m: u32, d: u32, h: u32, mi: u32, s: u32) -> chrono::NaiveDateTime {
    NaiveDate::from_ymd_opt(y, m, d).unwrap().and_hms_opt(h, mi, s).unwrap()
}

fn date(y: i32, m: u32, d: u32) -> Date {
    Date::from_ymd(y, m, d).unwrap()
}

#[test]
fn new_record_is_not_stored_and_has_no_memo() {
    let t = at(2024, 9, 8, 0, 0, 0);
    let r = Record::new(1, 18, 16300, t, None);
    assert_eq!(r.get_id(), -1);
    assert_eq!(r.get_book_id(), 1);
    assert_eq!(r.get_sub_category_id(), 18);
    assert_eq!(r.get_amount(), 16300);
    assert_eq!(r.get_memo(), &None);
    assert_eq!(r.get_target_dt(), t);
    assert_eq!(r.get_created_at(), None);
    assert_eq!(r.get_updated_at(), &None);
    assert_eq!(r.get_asset_id(), &None);
}

#[test]
fn record_builder() {
    let t = at(2024, 9, 8, 15, 30, 27);
    let u = at(2024, 9, 9, 10, 0, 0);
    let r = Record::new(1, 18, 15000, t, Some(3))
        .id(Some(55))
        .memo(Some("감자탕".to_string()))
        .updated_at(Some(u))
        .build();
    assert_eq!(r.get_id(), 55);
    assert_eq!(r.get_memo(), &Some("감자탕".to_string()));
    assert_eq!(r.get_updated_at(), &Some(u));
    assert_eq!(r.get_asset_id(), &Some(3));
    let stored = Record::from_columns(Some(55), 1, 18, 15000, Some("감자탕".to_string()), t, None, Some(u), Some(3));
    assert_eq!(r, stored);
}

#[test]
fn new_record_request_to_entity() {
    let t = at(2024, 9, 8, 18, 39, 27);
    let n = NewRecord::new(1, 18, 15200, Some("감자탕".to_string()), t, None, Some(vec![1, 2]));
    assert_eq!(n.get_book_id(), 1);
    assert_eq!(n.get_sub_category_id(), 18);
    assert_eq!(n.get_amount(), 15200);
    assert_eq!(n.get_memo(), &Some("감자탕".to_string()));
    assert_eq!(n.get_target_dt(), t);
    assert_eq!(n.get_asset_id(), None);
    assert_eq!(n.get_connect_ids(), Some(vec![1, 2]));
    let r = n.to_entity();
    assert_eq!(r, Record::new(1, 18, 15200, t, None).memo(Some("감자탕".to_string())).build());
    let none = NewRecord::new(1, 18, 15200, None, t, Some(4), None);
    assert_eq!(none.get_connect_ids(), None);
}

#[test]
fn search_params_getters() {
    let p = SearchParams::new(date(2024, 9, 1), "M".to_string(), Some(1), None);
    assert_eq!(p.get_start_dt(), date(2024, 9, 1));
    assert_eq!(p.get_period(), "M");
    assert_eq!(p.get_base_id(), Some(1));
    assert_eq!(p.get_sub_id(), None);
}

#[test]
fn month_search() {
    let p = SearchParams::new(date(2024, 9, 1), "M".to_string(), Some(1), Some(16));
    let s = p.to_query();
    assert_eq!(s, Search::new(date(2024, 9, 1), date(2024, 10, 1), Some(1), Some(16)));
    assert_eq!(s.get_start_dt(), &date(2024, 9, 1));
    assert_eq!(s.get_end_dt(), &date(2024, 10, 1));
    assert_eq!(s.get_base_id(), &Some(1));
    assert_eq!(s.get_sub_id(), &Some(16));
}

#[test]
fn day_search_in_either_case() {
    let p = SearchParams::new(date(2024, 2, 28), "d".to_string(), None, None);
    assert_eq!(p.to_query(), Search::new(date(2024, 2, 28), date(2024, 2, 29), None, None));
    let p = SearchParams::new(date(2024, 12, 31), "D".to_string(), None, None);
    assert_eq!(p.try_to_query(), Some(Search::new(date(2024, 12, 31), date(2025, 1, 1), None, None)));
    let p = SearchParams::new(date(2024, 1, 31), "m".to_string(), None, None);
    assert_eq!(p.to_query().get_end_dt(), &date(2024, 2, 29));
}

#[test]
fn unknown_period_gives_no_search() {
    let p = SearchParams::new(date(2024, 9, 1), "Y".to_string(), None, None);
    assert_eq!(p.try_to_query(), None);
    let p = SearchParams::new(date(2024, 9, 1), "month".to_string(), None, None);
    assert_eq!(p.try_to_query(), None);
}

#[test]
fn search_query_string() {
    let p = SearchParams::new(date(2024, 9, 1), "M".to_string(), Some(1), Some(16));
    assert_eq!(p.encode_param(), "start_dt=2024-09-01&period=M&base_id=1&sub_id=16");
    let p = SearchParams::new(date(2024, 9, 1), "D".to_string(), None, Some(-3));
    assert_eq!(p.encode_param(), "start_dt=2024-09-01&period=D&sub_id=-3");
    let p = SearchParams::new(date(2024, 9, 1), "a b".to_string(), None, None);
    assert_eq!(p.encode_param(), "start_dt=2024-09-01&period=a+b");
}

#[test]
fn edit_record_to_update() {
    let t = at(2024, 9, 8, 0, 0, 0);
    let e = EditRecord::new(Some(18), Some(15000), Some("국밥".to_string()), Some(t), Some(2));
    assert_eq!(e.get_sub_category_id(), Some(18));
    assert_eq!(e.get_amount(), Some(15000));
    assert_eq!(e.get_memo(), &Some("국밥".to_string()));
    assert_eq!(e.get_target_dt(), Some(t));
    assert_eq!(e.get_asset_id(), Some(2));
    let u = e.to_update();
    assert_eq!(
        u,
        UpdateRecord::new(
            FieldUpdate::SetValue(18),
            FieldUpdate::SetValue(15000),
            FieldUpdate::SetValue("국밥".to_string()),
            FieldUpdate::SetValue(t),
            FieldUpdate::SetValue(2),
        )
    );
    assert_eq!(u.get_sub_category_id(), &FieldUpdate::SetValue(18));
    assert_eq!(u.get_amount(), &FieldUpdate::SetValue(15000));
    assert_eq!(u.get_memo(), &FieldUpdate::SetValue("국밥".to_string()));
    assert_eq!(u.get_target_dt(), &FieldUpdate::SetValue(t));
    assert_eq!(u.get_asset_id(), &FieldUpdate::SetValue(2));
}

#[test]
fn memo_null_clears_the_memo() {
    let u = EditRecord::new(None, Some(15000), Some("NULL".to_string()), None, None).to_update();
    assert_eq!(
        u,
        UpdateRecord::new(
            FieldUpdate::NoChange,
            FieldUpdate::SetValue(15000),
            FieldUpdate::SetNone,
            FieldUpdate::NoChange,
            FieldUpdate::NoChange,
        )
    );
    let u = EditRecord::new(None, None, Some("null".to_string()), None, None).to_update();
    assert_eq!(u.get_memo(), &FieldUpdate::SetValue("null".to_string()));
}

fn all_updates() -> Vec<UpdateRecord> {
    let t = at(2024, 9, 8, 0, 0, 0);
    let mut v = Vec::new();
    for mask in 0..48u32 {
        let sub = if mask & 1 != 0 { FieldUpdate::SetValue(18) } else { FieldUpdate::NoChange };
        let amount = if mask & 2 != 0 { FieldUpdate::SetValue(15000) } else { FieldUpdate::NoChange };
        let memo = if mask & 4 != 0 { FieldUpdate::SetValue("memo".to_string()) } else { FieldUpdate::SetNone };
        let target = if mask & 8 != 0 { FieldUpdate::SetValue(t) } else { FieldUpdate::NoChange };
        let asset = match mask / 16 {
            0 => FieldUpdate::NoChange,
            1 => FieldUpdate::SetValue(32),
            _ => FieldUpdate::SetNone,
        };
        v.push(UpdateRecord::new(sub, amount, memo, target, asset));
    }
    v
}

#[test]
fn record_update_statements_match_the_service() {
    for u in all_updates() {
        let expected = expected_update_sql(&u);
        match update_record(1, 99, &u) {
            Ok(st) => {
                assert_eq!(Some(st.sql), expected, "{:?}", u);
            },
            Err(e) => {
                assert_eq!(expected, None, "{:?}", u);
                assert_eq!(e, CustomError::NoFieldUpdate("Record".to_string()));
            },
        }
    }
}

#[test]
fn record_update_values() {
    let t = at(2024, 9, 8, 0, 0, 0);
    let u = UpdateRecord::new(
        FieldUpdate::SetValue(18),
        FieldUpdate::NoChange,
        FieldUpdate::SetValue("memo".to_string()),
        FieldUpdate::SetValue(t),
        FieldUpdate::SetNone,
    );
    let st = update_record(7, 1234, &u).unwrap();
    assert_eq!(
        st.params,
        vec![
            SqlParam::I32(7),
            SqlParam::I64(1234),
            SqlParam::I32(18),
            SqlParam::Text("memo".to_string()),
            SqlParam::DateTime(t),
            SqlParam::NullI32,
        ]
    );
    assert!(st.sql.contains("sub_category_id = $3, memo = $4, target_dt = $5, asset_id = $6, "));
    assert!(st.sql.contains("WHERE sc.id = $3\n"));
    assert!(!st.sql.contains("AssetCheck"));
}

#[test]
fn record_update_asset_check_names_its_placeholder() {
    let u = UpdateRecord::new(
        FieldUpdate::NoChange,
        FieldUpdate::SetValue(15000),
        FieldUpdate::NoChange,
        FieldUpdate::NoChange,
        FieldUpdate::SetValue(32),
    );
    let st = update_record(1, 2, &u).unwrap();
    assert!(st.sql.contains("WHERE a.id = $4\n"));
    assert!(st.sql.contains("amount = $3, asset_id = $4, "));
    assert!(st.sql.ends_with(",true AS is_category_exist,(SELECT is_asset_exist FROM AssetCheck) AS is_asset_exist\n;"));
    assert_eq!(st.params, vec![SqlParam::I32(1), SqlParam::I64(2), SqlParam::I32(15000), SqlParam::I32(32)]);
}

#[test]
fn record_update_without_a_change_is_refused() {
    let u = EditRecord::new(None, None, None, None, None).to_update();
    assert_eq!(update_record(1, 2, &u).unwrap_err(), CustomError::NoFieldUpdate("Record".to_string()));
    let only_clear_memo = EditRecord::new(None, None, Some("NULL".to_string()), None, None).to_update();
    let st = update_record(1, 2, &only_clear_memo).unwrap();
    assert!(st.sql.contains("UPDATE tb_record SET memo = $3, "));
    assert_eq!(st.params, vec![SqlParam::I32(1), SqlParam::I64(2), SqlParam::OptText(None)]);
}

#[test]
fn update_result_checks_in_order() {
    let ok = UpdateRecordResult::new(true, true, 1, true, true);
    assert_eq!(check_update_record_result(&ok), Ok(()));
    assert_eq!(ok.get_count(), 1);
    let r = UpdateRecordResult::new(false, false, 0, false, false);
    assert_eq!(check_update_record_result(&r), Err(CustomError::NotFound("Record".to_string())));
    let r = UpdateRecordResult::new(true, false, 0, false, false);
    assert_eq!(check_update_record_result(&r), Err(CustomError::Unauthorized("RecordRole".to_string())));
    let r = UpdateRecordResult::new(true, true, 0, false, false);
    assert_eq!(check_update_record_result(&r), Err(CustomError::NotFound("Category".to_string())));
    let r = UpdateRecordResult::new(true, true, 0, false, true);
    assert!(!r.get_asset_exist());
    assert!(r.get_category_exist());
    assert!(r.get_exist());
    assert!(r.get_authorized());
    assert_eq!(check_update_record_result(&r), Err(CustomError::NotFound("Asset".to_string())));
}

#[test]
fn delete_result_checks_in_order() {
    let ok = DeleteResult::new(true, true, 1);
    assert_eq!(check_delete_record_result(&ok), Ok(()));
    assert_eq!((ok.get_exist(), ok.get_authorized(), ok.get_count()), (true, true, 1));
    assert_eq!(
        check_delete_record_result(&DeleteResult::new(false, true, 0)),
        Err(CustomError::NotFound("Record".to_string()))
    );
    assert_eq!(
        check_delete_record_result(&DeleteResult::new(true, false, 0)),
        Err(CustomError::Unauthorized("RecordRole".to_string()))
    );
}

#[test]
fn update_result_getters() {
    let r = UpdateResult::new(true, false, true, 3);
    assert_eq!((r.get_exist(), r.get_authorized(), r.get_duplicated(), r.get_count()), (true, false, true, 3));
}

#[test]
fn connect_ids_must_all_exist() {
    assert_eq!(check_connect_ids(0), Ok(()));
    assert_eq!(check_connect_ids(1), Err(CustomError::ValidationError("Connect".to_string())));
}

fn expected_list_sql(sub: bool, base: bool) -> String {
    let mut query = "
        SELECT r.* 
        FROM tb_record AS r
        JOIN tb_book AS b ON b.id = r.book_id
        JOIN tb_user_book_role AS br ON b.id = br.book_id
        JOIN tb_sub_category AS sc ON r.sub_category_id = sc.id
        WHERE br.user_id = $1 AND b.id = $2
            AND r.target_dt BETWEEN $3 AND $4
    "
    .to_string();
    let mut bind_idx = 5;
    if sub {
        query.push_str(format!("AND sc.id = ${} ", bind_idx).as_str());
        bind_idx += 1;
    }
    if base {
        query.push_str(format!("AND sc.base_id = ${}", bind_idx).as_str());
    }
    query
}

#[test]
fn record_list_statement() {
    let start = date(2024, 9, 1);
    let end = date(2024, 10, 1);
    let st = get_list(1, 2, &Search::new(start, end, None, None));
    assert_eq!(st.sql, expected_list_sql(false, false));
    assert_eq!(st.params, vec![SqlParam::I32(1), SqlParam::I32(2), SqlParam::Date(start), SqlParam::Date(end)]);

    let st = get_list(1, 2, &Search::new(start, end, Some(1), Some(16)));
    assert_eq!(st.sql, expected_list_sql(true, true));
    assert!(st.sql.ends_with("AND sc.id = $5 AND sc.base_id = $6"));
    assert_eq!(
        st.params,
        vec![
            SqlParam::I32(1),
            SqlParam::I32(2),
            SqlParam::Date(start),
            SqlParam::Date(end),
            SqlParam::I32(16),
            SqlParam::I16(1),
        ]
    );

    let st = get_list(1, 2, &Search::new(start, end, Some(1), None));
    assert_eq!(st.sql, expected_list_sql(false, true));
    assert!(st.sql.ends_with("AND sc.base_id = $5"));
    assert_eq!(st.params.len(), 5);
}

#[test]
fn record_insert_binds_columns_then_connections() {
    let t = at(2024, 9, 8, 0, 0, 0);
    let r = Record::new(1, 18, 16300, t, Some(5)).memo(Some("감자탕".to_string()));
    let st = save_record_statement(&r, Some(vec![1]));
    assert!(st.sql.contains("VALUES ($1, $2, $3, $4, $5, NOW(), $6)"));
    assert!(st.sql.contains("JOIN tb_connect AS connect ON connect.id = ANY($7::int[])"));
    assert_eq!(
        st.params,
        vec![
            SqlParam::I32(1),
            SqlParam::I32(18),
            SqlParam::I32(16300),
            SqlParam::OptText(Some("감자탕".to_string())),
            SqlParam::DateTime(t),
            SqlParam::OptI32(Some(5)),
            SqlParam::OptIntArray(Some(vec![1])),
        ]
    );
    let st = save_record_statement(&Record::new(1, 18, 16300, t, None), None);
    assert_eq!(st.params[5], SqlParam::OptI32(None));
    assert_eq!(st.params[6], SqlParam::OptIntArray(None));
}

#[test]
fn record_read_check_and_delete_statements() {
    let st = connect_ids_check_statement(vec![1, -32]);
    assert!(st.sql.contains("SELECT unnest($1::int[]) AS input_ids"));
    assert_eq!(st.params, vec![SqlParam::IntArray(vec![1, -32])]);
    let st = record_by_id_statement(1, 32);
    assert!(st.sql.contains("WHERE br.user_id = $1 AND r.id = $2"));
    assert_eq!(st.params, vec![SqlParam::I32(1), SqlParam::I64(32)]);
    let st = delete_record_statement(3, 44);
    assert!(st.sql.contains("DELETE FROM tb_record \n            WHERE id = $2"));
    assert!(st.sql.contains("(SELECT COUNT(*) FROM DeleteRecord) AS delete_count"));
    assert_eq!(st.params, vec![SqlParam::I32(3), SqlParam::I64(44)]);
}

#[test]
fn missing_record_row_is_not_found() {
    assert_eq!(record_lookup_failure(DbFailure::RowNotFound("x".to_string())), CustomError::NotFound("Record".to_string()));
    assert_eq!(record_lookup_failure(DbFailure::Other("x".to_string())), CustomError::Unexpected("x".to_string()));
}

#[test]
fn connections_are_checked_only_when_given() {
    assert!(connect_ids_check(&None).is_none());
    let st = connect_ids_check(&Some(vec![1, -32])).unwrap();
    let expected = connect_ids_check_statement(vec![1, -32]);
    assert_eq!(st.sql, expected.sql);
    assert_eq!(st.params, vec![SqlParam::IntArray(vec![1, -32])]);
}
