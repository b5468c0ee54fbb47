//! The bodies of user requests and responses.
use crate::constants::FieldUpdate;
use crate::text::str_equal;
use crate::user::entity::{clone_opt_string, User, UserView, UpdateUser, UpdateUserView};
use crate::user::login_type::{login_type_name, LoginType};
use vstd::prelude::*;

verus! {

/// The contents of a sign-up request.
pub struct NewUserView {
    pub login_type: LoginType,
    pub username: Seq<char>,
    pub password: Seq<char>,
    pub password_confirm: Seq<char>,
    pub nickname: Seq<char>,
    pub email: Seq<char>,
    pub phone: Option<Seq<char>>,
    pub access_token: Option<Seq<char>>,
}

/// A sign-up request.
#[derive(Debug, Clone, PartialEq)]
pub struct NewUser {
    login_type: LoginType,
    username: String,
    password: String,
    password_confirm: String,
    nickname: String,
    email: String,
    phone: Option<String>,
    access_token: Option<String>,
}

impl View for NewUser {
    type V = NewUserView;

    closed spec fn view(&self) -> NewUserView {
        NewUserView {
            login_type: self.login_type,
            username: self.username@,
            password: self.password@,
            password_confirm: self.password_confirm@,
            nickname: self.nickname@,
            email: self.email@,
            phone: self.phone.deep_view(),
            access_token: self.access_token.deep_view(),
        }
    }
}

/// The account that a sign-up request asks to store.
pub open spec fn new_user_entity(n: NewUserView) -> UserView {
    UserView {
        id: None,
        login_type: login_type_name(n.login_type),
        username: n.username,
        password: n.password,
        access_token: n.access_token,
        nickname: n.nickname,
        email: n.email,
        profile_id: None,
        phone: n.phone,
        is_active: true,
        is_admin: false,
        created_at: None,
        updated_at: None,
    }
}

impl NewUser {
    pub fn new(
        login_type: LoginType,
        username: String,
        password: String,
        password_confirm: String,
        nickname: String,
        email: String,
        phone: Option<String>,
        access_token: Option<String>,
    ) -> (r: NewUser)
        ensures
            r@ == (NewUserView {
                login_type,
                username: username@,
                password: password@,
                password_confirm: password_confirm@,
                nickname: nickname@,
                email: email@,
                phone: phone.deep_view(),
                access_token: access_token.deep_view(),
            }),
    {
        NewUser { login_type, username, password, password_confirm, nickname, email, phone, access_token }
    }

    /// Replaces the password (with its hash, before storing); the
    /// confirmation and every other field stay.
    pub fn set_password(&mut self, password: String)
        ensures
            final(self)@ == (NewUserView { password: password@, ..old(self)@ }),
    {
        self.password = password;
    }

    pub fn password(&self) -> (r: &str)
        ensures
            r@ == self@.password,
    {
        self.password.as_str()
    }

    /// Whether the password and its confirmation are the same text.
    pub fn is_password_matching(&self) -> (r: bool)
        ensures
            r == (self@.password == self@.password_confirm),
    {
        str_equal(self.password.as_str(), self.password_confirm.as_str())
    }

    /// The account to store for this request.
    pub fn to_entity(&self) -> (r: User)
        ensures
            r@ == new_user_entity(self@),
    {
        let login_type = self.login_type.to_string();
        User::new(
            self.username.clone(),
            self.password.clone(),
            self.nickname.clone(),
            self.email.clone(),
            login_type,
        ).phone(clone_opt_string(&self.phone)).access_token(clone_opt_string(&self.access_token)).build()
    }

    pub fn get_email(&self) -> (r: &str)
        ensures
            r@ == self@.email,
    {
        self.email.as_str()
    }

    pub fn get_phone(&self) -> (r: &Option<String>)
        ensures
            r.deep_view() == self@.phone,
    {
        &self.phone
    }

    pub fn get_login_type(&self) -> (r: LoginType)
        ensures
            r == self@.login_type,
    {
        self.login_type
    }

    pub fn get_username(&self) -> (r: &str)
        ensures
            r@ == self@.username,
    {
        self.username.as_str()
    }

    pub fn get_password_confirm(&self) -> (r: &str)
        ensures
            r@ == self@.password_confirm,
    {
        self.password_confirm.as_str()
    }

    pub fn get_nickname(&self) -> (r: &str)
        ensures
            r@ == self@.nickname,
    {
        self.nickname.as_str()
    }

    pub fn get_access_token(&self) -> (r: &Option<String>)
        ensures
            r.deep_view() == self@.access_token,
    {
        &self.access_token
    }
}

/// A password change: the new password and the current one, which confirms it.
pub struct EditPasswordView {
    pub new: Seq<char>,
    pub original: Seq<char>,
}

/// A password change request.
#[derive(Debug, Clone, PartialEq)]
pub struct EditPassword {
    new: String,
    original: String,
}

impl View for EditPassword {
    type V = EditPasswordView;

    closed spec fn view(&self) -> EditPasswordView {
        EditPasswordView { new: self.new@, original: self.original@ }
    }
}

impl EditPassword {
    pub fn new(new: String, original: String) -> (r: EditPassword)
        ensures
            r@ == (EditPasswordView { new: new@, original: original@ }),
    {
        EditPassword { new, original }
    }

    /// The current password, which confirms the change.
    pub fn get_password(&self) -> (r: &str)
        ensures
            r@ == self@.original,
    {
        self.original.as_str()
    }

    /// The password to change to.
    pub fn get_new(&self) -> (r: &str)
        ensures
            r@ == self@.new,
    {
        self.new.as_str()
    }
}

/// The contents of an account edit request; absent fields stay unchanged.
pub struct EditUserView {
    pub profile_id: Option<i32>,
    pub password: Option<EditPasswordView>,
    pub phone: Option<Seq<char>>,
    pub nickname: Option<Seq<char>>,
}

/// An account edit request.
#[derive(Debug, Clone, PartialEq)]
pub struct EditUser {
    profile_id: Option<i32>,
    password: Option<EditPassword>,
    phone: Option<String>,
    nickname: Option<String>,
}

pub open spec fn opt_edit_password_view(p: Option<EditPassword>) -> Option<EditPasswordView> {
    match p {
        Some(e) => Some(e@),
        None => None,
    }
}

/// How an optional text of a request changes a column: a given text is
/// stored, an absent one leaves the column alone.
pub open spec fn text_update(o: Option<Seq<char>>) -> FieldUpdate<Seq<char>> {
    match o {
        Some(v) => FieldUpdate::SetValue(v),
        None => FieldUpdate::NoChange,
    }
}

/// The change set of an account edit: a profile id of 0 removes the profile
/// image, a password change stores the new password, and every absent field
/// stays unchanged.
pub open spec fn user_update_of(e: EditUserView) -> UpdateUserView {
    UpdateUserView {
        profile_id: match e.profile_id {
            Some(v) => if v == 0 { FieldUpdate::SetNone } else { FieldUpdate::SetValue(v) },
            None => FieldUpdate::NoChange,
        },
        password: match e.password {
            Some(p) => FieldUpdate::SetValue(p.new),
            None => FieldUpdate::NoChange,
        },
        phone: text_update(e.phone),
        nickname: text_update(e.nickname),
    }
}

impl View for EditUser {
    type V = EditUserView;

    closed spec fn view(&self) -> EditUserView {
        EditUserView {
            profile_id: self.profile_id,
            password: opt_edit_password_view(self.password),
            phone: self.phone.deep_view(),
            nickname: self.nickname.deep_view(),
        }
    }
}

fn opt_text_update(o: Option<String>) -> (r: FieldUpdate<String>)
    ensures
        r@ == text_update(o.deep_view()),
{
    match o {
        Some(v) => FieldUpdate::SetValue(v),
        None => FieldUpdate::NoChange,
    }
}

impl EditUser {
    pub fn new(
        profile_id: Option<i32>,
        password: Option<EditPassword>,
        phone: Option<String>,
        nickname: Option<String>,
    ) -> (r: EditUser)
        ensures
            r@ == (EditUserView {
                profile_id,
                password: opt_edit_password_view(password),
                phone: phone.deep_view(),
                nickname: nickname.deep_view(),
            }),
    {
        EditUser { profile_id, password, phone, nickname }
    }

    pub fn get_password(&self) -> (r: &Option<EditPassword>)
        ensures
            opt_edit_password_view(*r) == self@.password,
    {
        &self.password
    }

    pub fn get_phone(&self) -> (r: &Option<String>)
        ensures
            r.deep_view() == self@.phone,
    {
        &self.phone
    }

    pub fn get_profile_id(&self) -> (r: Option<i32>)
        ensures
            r == self@.profile_id,
    {
        self.profile_id
    }

    pub fn get_nickname(&self) -> (r: &Option<String>)
        ensures
            r.deep_view() == self@.nickname,
    {
        &self.nickname
    }

    /// The change set that this request asks for.
    pub fn to_update(self) -> (r: UpdateUser)
        ensures
            r@ == user_update_of(self@),
    {
        let profile_id = match self.profile_id {
            Some(v) => if v == 0 {
                FieldUpdate::SetNone
            } else {
                FieldUpdate::SetValue(v)
            },
            None => FieldUpdate::NoChange,
        };
        let password: FieldUpdate<String> = match self.password {
            Some(v) => FieldUpdate::SetValue(v.new),
            None => FieldUpdate::NoChange,
        };
        let phone = opt_text_update(self.phone);
        let nickname = opt_text_update(self.nickname);
        UpdateUser::new(profile_id, password, phone, nickname)
    }
}

/// The contents of a sign-in request.
pub struct LoginInfoView {
    pub username: Seq<char>,
    pub password: Seq<char>,
    pub login_type: LoginType,
    pub email: Option<Seq<char>>,
    pub nickname: Option<Seq<char>>,
    pub access_token: Option<Seq<char>>,
}

/// A sign-in request; OAuth sign-ins also carry what a first sign-in
/// needs to create the account.
#[derive(Debug, Clone, PartialEq)]
pub struct LoginInfo {
    username: String,
    password: String,
    login_type: LoginType,
    email: Option<String>,
    nickname: Option<String>,
    access_token: Option<String>,
}

impl View for LoginInfo {
    type V = LoginInfoView;

    closed spec fn view(&self) -> LoginInfoView {
        LoginInfoView {
            username: self.username@,
            password: self.password@,
            login_type: self.login_type,
            email: self.email.deep_view(),
            nickname: self.nickname.deep_view(),
            access_token: self.access_token.deep_view(),
        }
    }
}

/// The account that a first OAuth sign-in creates.
pub open spec fn login_entity(l: LoginInfoView) -> UserView {
    UserView {
        id: None,
        login_type: login_type_name(l.login_type),
        username: l.username,
        password: l.password,
        access_token: None,
        nickname: l.nickname->0,
        email: l.email->0,
        profile_id: None,
        phone: None,
        is_active: true,
        is_admin: false,
        created_at: None,
        updated_at: None,
    }
}

impl LoginInfo {
    pub fn new(
        username: String,
        password: String,
        login_type: LoginType,
        email: Option<String>,
        nickname: Option<String>,
        access_token: Option<String>,
    ) -> (r: LoginInfo)
        ensures
            r@ == (LoginInfoView {
                username: username@,
                password: password@,
                login_type,
                email: email.deep_view(),
                nickname: nickname.deep_view(),
                access_token: access_token.deep_view(),
            }),
    {
        LoginInfo { username, password, login_type, email, nickname, access_token }
    }

    pub fn get_login_type(&self) -> (r: &LoginType)
        ensures
            *r == self@.login_type,
    {
        &self.login_type
    }

    pub fn get_username(&self) -> (r: &str)
        ensures
            r@ == self@.username,
    {
        self.username.as_str()
    }

    pub fn get_password(&self) -> (r: &str)
        ensures
            r@ == self@.password,
    {
        self.password.as_str()
    }

    pub fn get_email(&self) -> (r: &Option<String>)
        ensures
            r.deep_view() == self@.email,
    {
        &self.email
    }

    pub fn get_nickname(&self) -> (r: &Option<String>)
        ensures
            r.deep_view() == self@.nickname,
    {
        &self.nickname
    }

    pub fn get_access_token(&self) -> (r: &Option<String>)
        ensures
            r.deep_view() == self@.access_token,
    {
        &self.access_token
    }

    /// The account that a first sign-in with this request creates; the
    /// request must carry an e-mail address and a nickname.
    pub fn to_entity(&self) -> (r: User)
        requires
            self@.email is Some,
            self@.nickname is Some,
        ensures
            r@ == login_entity(self@),
    {
        let nickname = match &self.nickname {
            Some(n) => n.clone(),
            None => String::new(),
        };
        let email = match &self.email {
            Some(e) => e.clone(),
            None => String::new(),
        };
        User::new(self.username.clone(), self.password.clone(), nickname, email, self.login_type.to_string())
    }
}

/// The public profile of an account.
pub struct UserInfoView {
    pub id: i32,
    pub login_type: LoginType,
    pub username: Seq<char>,
    pub email: Seq<char>,
    pub nickname: Seq<char>,
    pub phone: Option<Seq<char>>,
    pub profile_id: Option<i32>,
}

/// The public profile of an account, as the service answers it.
#[derive(Debug, Clone, PartialEq)]
pub struct UserInfo {
    id: i32,
    login_type: LoginType,
    username: String,
    email: String,
    nickname: String,
    phone: Option<String>,
    profile_id: Option<i32>,
}

impl View for UserInfo {
    type V = UserInfoView;

    closed spec fn view(&self) -> UserInfoView {
        UserInfoView {
            id: self.id,
            login_type: self.login_type,
            username: self.username@,
            email: self.email@,
            nickname: self.nickname@,
            phone: self.phone.deep_view(),
            profile_id: self.profile_id,
        }
    }
}

impl UserInfo {
    pub fn new(
        id: i32,
        username: String,
        email: String,
        nickname: String,
        login_type: LoginType,
        phone: Option<String>,
        profile_id: Option<i32>,
    ) -> (r: UserInfo)
        ensures
            r@ == (UserInfoView {
                id,
                login_type,
                username: username@,
                email: email@,
                nickname: nickname@,
                phone: phone.deep_view(),
                profile_id,
            }),
    {
        UserInfo { id, login_type, username, email, nickname, phone, profile_id }
    }

    pub fn get_id(&self) -> (r: i32)
        ensures
            r == self@.id,
    {
        self.id
    }

    pub fn get_username(&self) -> (r: &str)
        ensures
            r@ == self@.username,
    {
        self.username.as_str()
    }

    pub fn get_login_type(&self) -> (r: LoginType)
        ensures
            r == self@.login_type,
    {
        self.login_type
    }

    pub fn get_email(&self) -> (r: &str)
        ensures
            r@ == self@.email,
    {
        self.email.as_str()
    }

    pub fn get_nickname(&self) -> (r: &str)
        ensures
            r@ == self@.nickname,
    {
        self.nickname.as_str()
    }

    pub fn get_phone(&self) -> (r: &Option<String>)
        ensures
            r.deep_view() == self@.phone,
    {
        &self.phone
    }

    pub fn get_profile_id(&self) -> (r: Option<i32>)
        ensures
            r == self@.profile_id,
    {
        self.profile_id
    }
}

/// The account stored for a sign-up request keeps every field of the
/// request: user name, password, nickname, e-mail address, phone and access
/// token as given, the name of its login type; it is new (no id, no profile
/// image, no times), active and not an administrator.
pub proof fn law_sign_up_account_keeps_the_request(n: NewUserView)
    ensures
        new_user_entity(n).username == n.username,
        new_user_entity(n).password == n.password,
        new_user_entity(n).nickname == n.nickname,
        new_user_entity(n).email == n.email,
        new_user_entity(n).phone == n.phone,
        new_user_entity(n).access_token == n.access_token,
        new_user_entity(n).login_type == login_type_name(n.login_type),
        new_user_entity(n).id is None,
        new_user_entity(n).profile_id is None,
        new_user_entity(n).created_at is None && new_user_entity(n).updated_at is None,
        new_user_entity(n).is_active && !new_user_entity(n).is_admin,
{
}

/// Each field of the change set of an account edit follows its own request
/// field alone, whatever the other fields are: a given nickname, phone or
/// new password is stored, a profile id is stored or, where it is 0, the
/// image is removed, and an absent field is left as it is.
pub proof fn law_account_edit_fields_are_independent(e: EditUserView)
    ensures
        e.nickname matches Some(x) ==> user_update_of(e).nickname == FieldUpdate::SetValue(x),
        e.nickname is None ==> user_update_of(e).nickname == FieldUpdate::<Seq<char>>::NoChange,
        e.phone matches Some(x) ==> user_update_of(e).phone == FieldUpdate::SetValue(x),
        e.phone is None ==> user_update_of(e).phone == FieldUpdate::<Seq<char>>::NoChange,
        e.password matches Some(p) ==> user_update_of(e).password == FieldUpdate::SetValue(p.new),
        e.password is None ==> user_update_of(e).password == FieldUpdate::<Seq<char>>::NoChange,
        e.profile_id matches Some(v) ==> user_update_of(e).profile_id == (if v == 0 {
            FieldUpdate::SetNone
        } else {
            FieldUpdate::SetValue(v)
        }),
        e.profile_id is None ==> user_update_of(e).profile_id == FieldUpdate::<i32>::NoChange,
{
}

/// The account that a first OAuth sign-in creates keeps the request's user
/// name, password, nickname and e-mail address and the name of its login
/// type; it is new, active and not an administrator.
pub proof fn law_oauth_account_keeps_the_request(l: LoginInfoView)
    requires
        l.email is Some,
        l.nickname is Some,
    ensures
        login_entity(l).username == l.username,
        login_entity(l).password == l.password,
        Some(login_entity(l).nickname) == l.nickname,
        Some(login_entity(l).email) == l.email,
        login_entity(l).login_type == login_type_name(l.login_type),
        login_entity(l).id is None && login_entity(l).profile_id is None && login_entity(l).phone is None,
        login_entity(l).access_token is None,
        login_entity(l).is_active && !login_entity(l).is_admin,
{
}

} // verus!
