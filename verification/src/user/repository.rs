//! The statements of the user repository that are built from a request, and
//! what the repository concludes from the rows the database answers.
use crate::constants::FieldUpdate;
use crate::errors::{CustomError, DbFailure};
use crate::sql::{append_assignment, assignments, values_of, SqlParam, SqlStatement, SqlValue};
use crate::text::{decimal, push_decimal, str_equal};
use crate::user::dto::{user_update_of, EditUserView};
use crate::user::entity::{clone_opt_string, UpdateUser, UpdateUserView, User, UserView};
use vstd::prelude::*;
use vstd::string::*;

verus! {

/// The column of the profile change, if the change set touches it.
pub open spec fn profile_column(u: UpdateUserView) -> Seq<Seq<char>> {
    if u.profile_id.touches() { seq!["profile_id"@] } else { Seq::empty() }
}

/// The column of a text change, if the change set stores a text in it.
pub open spec fn text_column(f: FieldUpdate<Seq<char>>, name: Seq<char>) -> Seq<Seq<char>> {
    if f.is_value() { seq![name] } else { Seq::empty() }
}

/// The columns that an account update writes, in the order of its
/// assignments: the profile image when it is set or cleared, then password,
/// nickname and phone when a new text is given for them.
pub open spec fn user_update_columns(u: UpdateUserView) -> Seq<Seq<char>> {
    profile_column(u) + text_column(u.password, "password"@) + text_column(u.nickname, "nickname"@)
        + text_column(u.phone, "phone"@)
}

/// The value bound for the profile change, if the change set touches it.
pub open spec fn profile_value(u: UpdateUserView) -> Seq<SqlValue> {
    match u.profile_id {
        FieldUpdate::SetValue(v) => seq![SqlValue::I32(v)],
        FieldUpdate::SetNone => seq![SqlValue::NullI32],
        FieldUpdate::NoChange => Seq::empty(),
    }
}

/// The value bound for a text change, if the change set stores a text.
pub open spec fn text_value(f: FieldUpdate<Seq<char>>) -> Seq<SqlValue> {
    match f {
        FieldUpdate::SetValue(v) => seq![SqlValue::Text(v)],
        _ => Seq::empty(),
    }
}

/// The values bound to the assignments of an account update, in order.
pub open spec fn user_update_values(u: UpdateUserView) -> Seq<SqlValue> {
    profile_value(u) + text_value(u.password) + text_value(u.nickname) + text_value(u.phone)
}

/// The text of the update statement of an account: every written column
/// takes the next placeholder, the update time is refreshed, and the id is
/// bound to the placeholder after the last column.
pub open spec fn user_update_sql(u: UpdateUserView) -> Seq<char> {
    let columns = user_update_columns(u);
    "UPDATE tb_user SET "@ + assignments(columns, 1) + "updated_at = NOW()"@ + " WHERE id = $"@
        + decimal((columns.len() + 1) as nat)
}

/// The update statement of an account and its bound values, the account id
/// last; or `NoFieldUpdate` when the change set writes no column.
pub fn build_user_update(id: i32, edit_user: &UpdateUser) -> (r: Result<SqlStatement, CustomError>)
    ensures
        match r {
            Ok(st) => user_update_columns(edit_user@).len() > 0
                && st.sql@ == user_update_sql(edit_user@)
                && values_of(st.params@) == user_update_values(edit_user@).push(SqlValue::I32(id)),
            Err(e) => user_update_columns(edit_user@).len() == 0
                && (e matches CustomError::NoFieldUpdate(t) && t@ == "User"@),
        },
{
    let u = edit_user;
    let mut sql = String::from_str("UPDATE tb_user SET ");
    let mut index: i32 = 0;
    let mut params: Vec<SqlParam> = Vec::new();
    let ghost mut columns: Seq<Seq<char>> = Seq::empty();
    assert(sql@ =~= "UPDATE tb_user SET "@ + assignments(columns, 1));

    match u.get_profile_id() {
        FieldUpdate::SetValue(v) => {
            let Ghost(c) = append_assignment(&mut sql, &mut index, "profile_id", Ghost("UPDATE tb_user SET "@), Ghost(columns), Ghost(1));
            proof { columns = c; }
            params.push(SqlParam::I32(*v));
        },
        FieldUpdate::SetNone => {
            let Ghost(c) = append_assignment(&mut sql, &mut index, "profile_id", Ghost("UPDATE tb_user SET "@), Ghost(columns), Ghost(1));
            proof { columns = c; }
            params.push(SqlParam::NullI32);
        },
        FieldUpdate::NoChange => {},
    }
    assert(columns =~= profile_column(u@));
    assert(values_of(params@) =~= profile_value(u@));

    let ghost before = columns;
    let ghost before_values = values_of(params@);
    match u.get_password() {
        FieldUpdate::SetValue(p) => {
            let Ghost(c) = append_assignment(&mut sql, &mut index, "password", Ghost("UPDATE tb_user SET "@), Ghost(columns), Ghost(1));
            proof { columns = c; }
            params.push(SqlParam::Text(p.clone()));
        },
        _ => {},
    }
    assert(columns =~= before + text_column(u@.password, "password"@));
    assert(values_of(params@) =~= before_values + text_value(u@.password));

    let ghost before = columns;
    let ghost before_values = values_of(params@);
    match u.get_nickname() {
        FieldUpdate::SetValue(n) => {
            let Ghost(c) = append_assignment(&mut sql, &mut index, "nickname", Ghost("UPDATE tb_user SET "@), Ghost(columns), Ghost(1));
            proof { columns = c; }
            params.push(SqlParam::Text(n.clone()));
        },
        _ => {},
    }
    assert(columns =~= before + text_column(u@.nickname, "nickname"@));
    assert(values_of(params@) =~= before_values + text_value(u@.nickname));

    let ghost before = columns;
    let ghost before_values = values_of(params@);
    match u.get_phone() {
        FieldUpdate::SetValue(p) => {
            let Ghost(c) = append_assignment(&mut sql, &mut index, "phone", Ghost("UPDATE tb_user SET "@), Ghost(columns), Ghost(1));
            proof { columns = c; }
            params.push(SqlParam::Text(p.clone()));
        },
        _ => {},
    }
    assert(columns =~= before + text_column(u@.phone, "phone"@));
    assert(values_of(params@) =~= before_values + text_value(u@.phone));
    assert(columns =~= user_update_columns(u@));
    assert(values_of(params@) =~= user_update_values(u@));

    if index == 0 {
        return Err(CustomError::no_field_update("User"));
    }
    sql.append("updated_at = NOW()");
    sql.append(" WHERE id = $");
    push_decimal(&mut sql, (index + 1) as u64);
    let ghost before_values = values_of(params@);
    params.push(SqlParam::I32(id));
    assert(values_of(params@) =~= before_values.push(SqlValue::I32(id)));
    assert(sql@ =~= user_update_sql(u@));
    Ok(SqlStatement { sql, params })
}

/// Every placeholder of an account update has its value: one value is bound
/// for each written column, and the account id for the placeholder after them.
pub proof fn law_user_update_binds_every_placeholder(u: UpdateUserView)
    ensures
        user_update_values(u).len() == user_update_columns(u).len(),
{
}

/// Whether `v` is the value that an account update binds for the column
/// named `c`: the new profile image id or `NULL` where it is cleared, and the
/// new password, nickname and phone texts as given.
pub open spec fn is_user_column_value(u: UpdateUserView, c: Seq<char>, v: SqlValue) -> bool {
    &&& c == "profile_id"@ ==> ((u.profile_id matches FieldUpdate::SetValue(x) && v == SqlValue::I32(x)) || (
    u.profile_id is SetNone && v == SqlValue::NullI32))
    &&& c == "password"@ ==> (u.password matches FieldUpdate::SetValue(t) && v == SqlValue::Text(t))
    &&& c == "nickname"@ ==> (u.nickname matches FieldUpdate::SetValue(t) && v == SqlValue::Text(t))
    &&& c == "phone"@ ==> (u.phone matches FieldUpdate::SetValue(t) && v == SqlValue::Text(t))
}

/// Whether every column of `columns` is bound, at the same position of
/// `values`, to its own value.
pub open spec fn binds_user_columns(u: UpdateUserView, columns: Seq<Seq<char>>, values: Seq<SqlValue>) -> bool {
    &&& columns.len() == values.len()
    &&& forall|i: int| 0 <= i < columns.len() ==> is_user_column_value(u, #[trigger] columns[i], values[i])
}

proof fn lemma_binds_user_columns_concat(
    u: UpdateUserView,
    c1: Seq<Seq<char>>,
    v1: Seq<SqlValue>,
    c2: Seq<Seq<char>>,
    v2: Seq<SqlValue>,
)
    requires
        binds_user_columns(u, c1, v1),
        binds_user_columns(u, c2, v2),
    ensures
        binds_user_columns(u, c1 + c2, v1 + v2),
{
    assert forall|i: int| 0 <= i < (c1 + c2).len() implies is_user_column_value(u, #[trigger] (c1 + c2)[i], (v1 + v2)[i]) by {
        if i < c1.len() {
            assert((c1 + c2)[i] == c1[i]);
            assert((v1 + v2)[i] == v1[i]);
        } else {
            assert((c1 + c2)[i] == c2[i - c1.len()]);
            assert((v1 + v2)[i] == v2[i - v1.len()]);
        }
    }
}

/// Each column that an account update writes is bound its own value: the
/// column written `i`-th takes `$(i + 1)` with the value given for that very
/// column, whichever other columns are written with it, and the account id
/// takes the placeholder after them.
pub proof fn law_user_update_binds_each_column_its_value(id: i32, u: UpdateUserView)
    ensures
        user_update_values(u).push(SqlValue::I32(id)).len() == user_update_columns(u).len() + 1,
        user_update_values(u).push(SqlValue::I32(id))[user_update_columns(u).len() as int] == SqlValue::I32(id),
        forall|i: int|
            0 <= i < user_update_columns(u).len() ==> is_user_column_value(
                u,
                #[trigger] user_update_columns(u)[i],
                user_update_values(u).push(SqlValue::I32(id))[i],
            ),
{
    reveal_strlit("profile_id");
    reveal_strlit("password");
    reveal_strlit("nickname");
    reveal_strlit("phone");
    assert("password"@[0] != "nickname"@[0]);
    let c1 = profile_column(u);
    let v1 = profile_value(u);
    let c2 = text_column(u.password, "password"@);
    let v2 = text_value(u.password);
    let c3 = text_column(u.nickname, "nickname"@);
    let v3 = text_value(u.nickname);
    let c4 = text_column(u.phone, "phone"@);
    let v4 = text_value(u.phone);
    assert(binds_user_columns(u, c1, v1)) by {
        if u.profile_id.touches() {
            assert(c1[0] == "profile_id"@);
        }
    }
    assert(binds_user_columns(u, c2, v2)) by {
        if u.password is SetValue {
            assert(c2[0] == "password"@);
        }
    }
    assert(binds_user_columns(u, c3, v3)) by {
        if u.nickname is SetValue {
            assert(c3[0] == "nickname"@);
        }
    }
    assert(binds_user_columns(u, c4, v4)) by {
        if u.phone is SetValue {
            assert(c4[0] == "phone"@);
        }
    }
    lemma_binds_user_columns_concat(u, c1, v1, c2, v2);
    lemma_binds_user_columns_concat(u, c1 + c2, v1 + v2, c3, v3);
    lemma_binds_user_columns_concat(u, c1 + c2 + c3, v1 + v2 + v3, c4, v4);
    let cols = user_update_columns(u);
    let vals = user_update_values(u);
    assert(cols =~= c1 + c2 + c3 + c4);
    assert(vals =~= v1 + v2 + v3 + v4);
    assert forall|i: int| 0 <= i < cols.len() implies is_user_column_value(
        u,
        #[trigger] cols[i],
        vals.push(SqlValue::I32(id))[i],
    ) by {
        assert(vals.push(SqlValue::I32(id))[i] == vals[i]);
    }
}

/// An account edit is refused for want of a change exactly when the request
/// gives no field; a profile id of 0, which clears the profile image, is a change.
pub proof fn law_empty_user_edit_changes_nothing(e: EditUserView)
    ensures
        user_update_columns(user_update_of(e)).len() == 0 <==> (e.profile_id is None && e.password is None
            && e.phone is None && e.nickname is None),
{
}

/// What an update or delete of one row by its id concludes from the number
/// of rows it changed: none means that no row has the id.
pub fn check_rows_affected(rows_affected: u64, entity: &str) -> (r: Result<(), CustomError>)
    ensures
        rows_affected == 0 <==> r is Err,
        r matches Err(e) ==> e matches CustomError::NotFound(t) && t@ == entity@,
{
    if rows_affected == 0 {
        Err(CustomError::not_found(entity))
    } else {
        Ok(())
    }
}

/// What the password check before an account update concludes: the stored
/// password must be the given text.
pub fn check_stored_password(stored: &str, given: &str) -> (r: Result<(), CustomError>)
    ensures
        r is Ok <==> stored@ == given@,
        r matches Err(e) ==> e matches CustomError::ValidationError(t) && t@ == "User"@,
{
    if !str_equal(stored, given) {
        Err(CustomError::validation("User"))
    } else {
        Ok(())
    }
}

/// The insert of a new account. A user name that is taken inserts nothing,
/// so that the statement answers no row.
pub open spec fn save_user_sql() -> Seq<char> {
    "INSERT INTO tb_user (username, password, nickname, phone, \n                                        login_type, email, access_token) \n            VALUES ($1, $2, $3, $4, $5, $6, $7)\n            ON CONFLICT (username) DO NOTHING\n            RETURNING id;\n    "@
}

/// The values of the insert of an account, in placeholder order.
pub open spec fn save_user_values(u: UserView) -> Seq<SqlValue> {
    seq![
        SqlValue::Text(u.username),
        SqlValue::Text(u.password),
        SqlValue::Text(u.nickname),
        SqlValue::OptText(u.phone),
        SqlValue::Text(u.login_type),
        SqlValue::Text(u.email),
        SqlValue::OptText(u.access_token),
    ]
}

/// The columns that the insert of an account lists, in the order of its
/// placeholders `$1` to `$7`.
pub open spec fn save_user_columns() -> Seq<Seq<char>> {
    seq!["username"@, "password"@, "nickname"@, "phone"@, "login_type"@, "email"@, "access_token"@]
}

/// Whether `v` is the value of the account's field stored in the column named `c`.
pub open spec fn is_account_column_value(u: UserView, c: Seq<char>, v: SqlValue) -> bool {
    &&& c == "username"@ ==> v == SqlValue::Text(u.username)
    &&& c == "password"@ ==> v == SqlValue::Text(u.password)
    &&& c == "nickname"@ ==> v == SqlValue::Text(u.nickname)
    &&& c == "phone"@ ==> v == SqlValue::OptText(u.phone)
    &&& c == "login_type"@ ==> v == SqlValue::Text(u.login_type)
    &&& c == "email"@ ==> v == SqlValue::Text(u.email)
    &&& c == "access_token"@ ==> v == SqlValue::OptText(u.access_token)
}

/// The insert of an account stores each field in its own column: the
/// statement lists the columns in the order of `save_user_columns`, with the
/// placeholders `$1` to `$7` in that order, and the value bound to each
/// placeholder is the account's field for that column.
pub proof fn law_save_user_binds_each_column_its_value(u: UserView)
    ensures
        save_user_sql() == "INSERT INTO tb_user ("@ + save_user_columns()[0] + ", "@ + save_user_columns()[1] + ", "@
            + save_user_columns()[2] + ", "@ + save_user_columns()[3] + ", \n                                        "@
            + save_user_columns()[4] + ", "@ + save_user_columns()[5] + ", "@ + save_user_columns()[6]
            + ") \n            VALUES ($1, $2, $3, $4, $5, $6, $7)\n            ON CONFLICT (username) DO NOTHING\n            RETURNING id;\n    "@,
        save_user_values(u).len() == save_user_columns().len(),
        forall|i: int|
            0 <= i < save_user_columns().len() ==> is_account_column_value(
                u,
                #[trigger] save_user_columns()[i],
                save_user_values(u)[i],
            ),
{
    reveal_strlit("INSERT INTO tb_user (username, password, nickname, phone, \n                                        login_type, email, access_token) \n            VALUES ($1, $2, $3, $4, $5, $6, $7)\n            ON CONFLICT (username) DO NOTHING\n            RETURNING id;\n    ");
    reveal_strlit("INSERT INTO tb_user (");
    reveal_strlit(", ");
    reveal_strlit(", \n                                        ");
    reveal_strlit(") \n            VALUES ($1, $2, $3, $4, $5, $6, $7)\n            ON CONFLICT (username) DO NOTHING\n            RETURNING id;\n    ");
    reveal_strlit("username");
    reveal_strlit("password");
    reveal_strlit("nickname");
    reveal_strlit("phone");
    reveal_strlit("login_type");
    reveal_strlit("email");
    reveal_strlit("access_token");
    let cols = save_user_columns();
    assert(save_user_sql() =~= "INSERT INTO tb_user ("@ + cols[0] + ", "@ + cols[1] + ", "@ + cols[2] + ", "@ + cols[3]
        + ", \n                                        "@ + cols[4] + ", "@ + cols[5] + ", "@ + cols[6]
        + ") \n            VALUES ($1, $2, $3, $4, $5, $6, $7)\n            ON CONFLICT (username) DO NOTHING\n            RETURNING id;\n    "@);
    assert("username"@[0] != "nickname"@[0] && "username"@[0] != "password"@[0]);
    assert("password"@[0] != "nickname"@[0]);
    assert("email"@[0] != "phone"@[0]);
    assert forall|i: int| 0 <= i < cols.len() implies is_account_column_value(u, #[trigger] cols[i], save_user_values(u)[i]) by {
        assert(cols[0] == "username"@ && cols[1] == "password"@ && cols[2] == "nickname"@ && cols[3] == "phone"@);
        assert(cols[4] == "login_type"@ && cols[5] == "email"@ && cols[6] == "access_token"@);
    }
}

/// The statement that stores a new account and answers its id.
pub fn save_user_statement(user: &User) -> (r: SqlStatement)
    ensures
        r.sql@ == save_user_sql(),
        values_of(r.params@) == save_user_values(user@),
{
    let mut params: Vec<SqlParam> = Vec::new();
    params.push(SqlParam::Text(String::from_str(user.get_username())));
    params.push(SqlParam::Text(String::from_str(user.get_password())));
    params.push(SqlParam::Text(String::from_str(user.get_nickname())));
    params.push(SqlParam::OptText(clone_opt_string(user.get_phone())));
    params.push(SqlParam::Text(String::from_str(user.get_login_type())));
    params.push(SqlParam::Text(String::from_str(user.get_email())));
    params.push(SqlParam::OptText(clone_opt_string(user.get_access_token())));
    assert(values_of(params@) =~= save_user_values(user@));
    SqlStatement {
        sql: String::from_str("INSERT INTO tb_user (username, password, nickname, phone, \n                                        login_type, email, access_token) \n            VALUES ($1, $2, $3, $4, $5, $6, $7)\n            ON CONFLICT (username) DO NOTHING\n            RETURNING id;\n    "),
        params,
    }
}

pub open spec fn user_by_id_sql() -> Seq<char> {
    "SELECT * FROM tb_user WHERE id = $1"@
}

/// The statement that reads the account with the given id.
pub fn user_by_id_statement(id: i32) -> (r: SqlStatement)
    ensures
        r.sql@ == user_by_id_sql(),
        values_of(r.params@) == seq![SqlValue::I32(id)],
{
    let mut params: Vec<SqlParam> = Vec::new();
    params.push(SqlParam::I32(id));
    assert(values_of(params@) =~= seq![SqlValue::I32(id)]);
    SqlStatement { sql: String::from_str("SELECT * FROM tb_user WHERE id = $1"), params }
}

pub open spec fn user_by_username_sql() -> Seq<char> {
    "SELECT * FROM tb_user WHERE username = $1"@
}

/// The statement that reads the account with the given user name.
pub fn user_by_username_statement(username: &str) -> (r: SqlStatement)
    ensures
        r.sql@ == user_by_username_sql(),
        values_of(r.params@) == seq![SqlValue::Text(username@)],
{
    let mut params: Vec<SqlParam> = Vec::new();
    params.push(SqlParam::Text(String::from_str(username)));
    assert(values_of(params@) =~= seq![SqlValue::Text(username@)]);
    SqlStatement { sql: String::from_str("SELECT * FROM tb_user WHERE username = $1"), params }
}

/// Deleting an account deactivates it; the row stays.
pub open spec fn delete_user_sql() -> Seq<char> {
    "UPDATE tb_user SET is_active = FALSE, updated_at = NOW() WHERE id = $1"@
}

/// The statement that deactivates the account with the given id.
pub fn delete_user_statement(id: i32) -> (r: SqlStatement)
    ensures
        r.sql@ == delete_user_sql(),
        values_of(r.params@) == seq![SqlValue::I32(id)],
{
    let mut params: Vec<SqlParam> = Vec::new();
    params.push(SqlParam::I32(id));
    assert(values_of(params@) =~= seq![SqlValue::I32(id)]);
    SqlStatement { sql: String::from_str("UPDATE tb_user SET is_active = FALSE, updated_at = NOW() WHERE id = $1"), params }
}

/// The error of a failed insert of an account: no row answered means that
/// the user name is taken.
pub fn save_user_failure(failure: DbFailure) -> (r: CustomError)
    ensures
        match failure {
            DbFailure::Database(m) => r matches CustomError::DatabaseError(t) && t@ == m@,
            DbFailure::RowNotFound(_) => r matches CustomError::Duplicated(t) && t@ == "User"@,
            DbFailure::Other(m) => r matches CustomError::Unexpected(t) && t@ == m@,
        },
{
    CustomError::from_db(failure, Some(CustomError::duplicated("User")))
}

/// The error of a failed read of an account: no row means no such account.
pub fn user_lookup_failure(failure: DbFailure) -> (r: CustomError)
    ensures
        match failure {
            DbFailure::Database(m) => r matches CustomError::DatabaseError(t) && t@ == m@,
            DbFailure::RowNotFound(_) => r matches CustomError::NotFound(t) && t@ == "User"@,
            DbFailure::Other(m) => r matches CustomError::Unexpected(t) && t@ == m@,
        },
{
    CustomError::from_db(failure, Some(CustomError::not_found("User")))
}

} // verus!
