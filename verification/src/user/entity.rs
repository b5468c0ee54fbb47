//! The stored user account and the change set of an account update.
use crate::constants::FieldUpdate;
use crate::errors::CustomError;
use crate::text::unicode_lowercase;
use crate::user::dto::{UserInfo, UserInfoView};
use crate::user::login_type::{is_parse_of, login_type_named, LoginType};
use vstd::prelude::*;

verus! {

/// The contents of a stored user account.
pub struct UserView {
    pub id: Option<i32>,
    pub login_type: Seq<char>,
    pub username: Seq<char>,
    pub password: Seq<char>,
    pub access_token: Option<Seq<char>>,
    pub nickname: Seq<char>,
    pub email: Seq<char>,
    pub profile_id: Option<i32>,
    pub phone: Option<Seq<char>>,
    pub is_active: bool,
    pub is_admin: bool,
    pub created_at: Option<chrono::NaiveDateTime>,
    pub updated_at: Option<chrono::NaiveDateTime>,
}

/// A stored user account.
#[derive(Debug, PartialEq, Clone)]
pub struct User {
    id: Option<i32>,
    login_type: String,
    username: String,
    password: String,
    access_token: Option<String>,
    nickname: String,
    email: String,
    profile_id: Option<i32>,
    phone: Option<String>,
    is_active: bool,
    is_admin: bool,
    created_at: Option<chrono::NaiveDateTime>,
    updated_at: Option<chrono::NaiveDateTime>,
}

impl View for User {
    type V = UserView;

    closed spec fn view(&self) -> UserView {
        UserView {
            id: self.id,
            login_type: self.login_type@,
            username: self.username@,
            password: self.password@,
            access_token: self.access_token.deep_view(),
            nickname: self.nickname@,
            email: self.email@,
            profile_id: self.profile_id,
            phone: self.phone.deep_view(),
            is_active: self.is_active,
            is_admin: self.is_admin,
            created_at: self.created_at,
            updated_at: self.updated_at,
        }
    }
}

/// A copy of an optional text.
pub fn clone_opt_string(o: &Option<String>) -> (r: Option<String>)
    ensures
        r.deep_view() == o.deep_view(),
{
    match o {
        Some(s) => Some(s.clone()),
        None => None,
    }
}

/// The account data of a user, as the public profile shows it.
pub open spec fn info_of(u: UserView, login_type: LoginType) -> UserInfoView {
    UserInfoView {
        id: u.id.unwrap(),
        login_type,
        username: u.username,
        email: u.email,
        nickname: u.nickname,
        phone: u.phone,
        profile_id: u.profile_id,
    }
}

impl User {
    /// A new active, non-admin account that is not stored yet.
    pub fn new(username: String, password: String, nickname: String, email: String, login_type: String) -> (r: User)
        ensures
            r@ == (UserView {
                id: None,
                login_type: login_type@,
                username: username@,
                password: password@,
                access_token: None,
                nickname: nickname@,
                email: email@,
                profile_id: None,
                phone: None,
                is_active: true,
                is_admin: false,
                created_at: None,
                updated_at: None,
            }),
    {
        User {
            id: None,
            login_type,
            username,
            password,
            access_token: None,
            nickname,
            email,
            profile_id: None,
            phone: None,
            is_active: true,
            is_admin: false,
            created_at: None,
            updated_at: None,
        }
    }

    /// An account with every column as it was read from storage.
    pub fn from_columns(
        id: Option<i32>,
        login_type: String,
        username: String,
        password: String,
        access_token: Option<String>,
        nickname: String,
        email: String,
        profile_id: Option<i32>,
        phone: Option<String>,
        is_active: bool,
        is_admin: bool,
        created_at: Option<chrono::NaiveDateTime>,
        updated_at: Option<chrono::NaiveDateTime>,
    ) -> (r: User)
        ensures
            r@ == (UserView {
                id,
                login_type: login_type@,
                username: username@,
                password: password@,
                access_token: access_token.deep_view(),
                nickname: nickname@,
                email: email@,
                profile_id,
                phone: phone.deep_view(),
                is_active,
                is_admin,
                created_at,
                updated_at,
            }),
    {
        User {
            id,
            login_type,
            username,
            password,
            access_token,
            nickname,
            email,
            profile_id,
            phone,
            is_active,
            is_admin,
            created_at,
            updated_at,
        }
    }

    /// The same account with the given id.
    pub fn id(self, id: i32) -> (r: User)
        ensures
            r@ == (UserView { id: Some(id), ..self@ }),
    {
        let mut u = self;
        u.id = Some(id);
        u
    }

    /// The same account with the given phone number.
    pub fn phone(self, phone: Option<String>) -> (r: User)
        ensures
            r@ == (UserView { phone: phone.deep_view(), ..self@ }),
    {
        let mut u = self;
        u.phone = phone;
        u
    }

    /// The same account with the given access token.
    pub fn access_token(self, access_token: Option<String>) -> (r: User)
        ensures
            r@ == (UserView { access_token: access_token.deep_view(), ..self@ }),
    {
        let mut u = self;
        u.access_token = access_token;
        u
    }

    /// The same account with the given profile image id.
    pub fn profile_id(self, profile_id: Option<i32>) -> (r: User)
        ensures
            r@ == (UserView { profile_id, ..self@ }),
    {
        let mut u = self;
        u.profile_id = profile_id;
        u
    }

    /// Ends a chain of builder calls: the account as built.
    pub fn build(self) -> (r: User)
        ensures
            r@ == self@,
    {
        User {
            id: self.id,
            login_type: self.login_type,
            username: self.username,
            password: self.password,
            access_token: self.access_token,
            nickname: self.nickname,
            email: self.email,
            profile_id: self.profile_id,
            phone: self.phone,
            is_active: self.is_active,
            is_admin: self.is_admin,
            created_at: self.created_at,
            updated_at: self.updated_at,
        }
    }

    pub fn get_id(&self) -> (r: &Option<i32>)
        ensures
            *r == self@.id,
    {
        &self.id
    }

    pub fn get_username(&self) -> (r: &str)
        ensures
            r@ == self@.username,
    {
        self.username.as_str()
    }

    pub fn get_password(&self) -> (r: &str)
        ensures
            r@ == self@.password,
    {
        self.password.as_str()
    }

    pub fn get_nickname(&self) -> (r: &str)
        ensures
            r@ == self@.nickname,
    {
        self.nickname.as_str()
    }

    pub fn get_login_type(&self) -> (r: &str)
        ensures
            r@ == self@.login_type,
    {
        self.login_type.as_str()
    }

    pub fn get_phone(&self) -> (r: &Option<String>)
        ensures
            r.deep_view() == self@.phone,
    {
        &self.phone
    }

    pub fn get_email(&self) -> (r: &str)
        ensures
            r@ == self@.email,
    {
        self.email.as_str()
    }

    pub fn get_access_token(&self) -> (r: &Option<String>)
        ensures
            r.deep_view() == self@.access_token,
    {
        &self.access_token
    }

    pub fn get_profile_id(&self) -> (r: &Option<i32>)
        ensures
            *r == self@.profile_id,
    {
        &self.profile_id
    }

    pub fn get_is_active(&self) -> (r: bool)
        ensures
            r == self@.is_active,
    {
        self.is_active
    }

    pub fn get_is_admin(&self) -> (r: bool)
        ensures
            r == self@.is_admin,
    {
        self.is_admin
    }

    pub fn get_created_at(&self) -> (r: &Option<chrono::NaiveDateTime>)
        ensures
            *r == self@.created_at,
    {
        &self.created_at
    }

    pub fn get_updated_at(&self) -> (r: &Option<chrono::NaiveDateTime>)
        ensures
            *r == self@.updated_at,
    {
        &self.updated_at
    }

    /// The public profile of a stored account. The account must have an id
    /// and a login type name that parses.
    pub fn to_info(&self) -> (r: UserInfo)
        requires
            self@.id is Some,
            login_type_named(unicode_lowercase(self@.login_type)) is Some,
        ensures
            r@ == info_of(self@, login_type_named(unicode_lowercase(self@.login_type))->0),
    {
        let login_type = match LoginType::parse(self.login_type.as_str()) {
            Ok(t) => t,
            Err(_) => {
                proof {
                    assert(false);
                }
                LoginType::Email
            },
        };
        UserInfo::new(
            self.id.unwrap(),
            self.username.clone(),
            self.email.clone(),
            self.nickname.clone(),
            login_type,
            clone_opt_string(&self.phone),
            self.profile_id,
        )
    }

    /// The public profile of the account, or `None` where the account has no
    /// id or its login type name does not parse.
    pub fn try_to_info(&self) -> (r: Option<UserInfo>)
        ensures
            match r {
                Some(info) => self@.id is Some && login_type_named(unicode_lowercase(self@.login_type)) is Some
                    && info@ == info_of(self@, login_type_named(unicode_lowercase(self@.login_type))->0),
                None => self@.id is None || login_type_named(unicode_lowercase(self@.login_type)) is None,
            },
    {
        if self.id.is_none() {
            return None;
        }
        match LoginType::parse(self.login_type.as_str()) {
            Ok(_) => Some(self.to_info()),
            Err(_) => None,
        }
    }
}

/// The change set of an account update.
pub struct UpdateUserView {
    pub profile_id: FieldUpdate<i32>,
    pub password: FieldUpdate<Seq<char>>,
    pub phone: FieldUpdate<Seq<char>>,
    pub nickname: FieldUpdate<Seq<char>>,
}

/// Which columns of an account an update changes, and to what.
#[derive(Debug, PartialEq, Clone)]
pub struct UpdateUser {
    profile_id: FieldUpdate<i32>,
    password: FieldUpdate<String>,
    phone: FieldUpdate<String>,
    nickname: FieldUpdate<String>,
}

impl View for UpdateUser {
    type V = UpdateUserView;

    closed spec fn view(&self) -> UpdateUserView {
        UpdateUserView {
            profile_id: self.profile_id@,
            password: self.password@,
            phone: self.phone@,
            nickname: self.nickname@,
        }
    }
}

impl UpdateUser {
    pub fn new(
        profile_id: FieldUpdate<i32>,
        password: FieldUpdate<String>,
        phone: FieldUpdate<String>,
        nickname: FieldUpdate<String>,
    ) -> (r: UpdateUser)
        ensures
            r@ == (UpdateUserView { profile_id: profile_id@, password: password@, phone: phone@, nickname: nickname@ }),
    {
        UpdateUser { profile_id, password, phone, nickname }
    }

    pub fn get_profile_id(&self) -> (r: &FieldUpdate<i32>)
        ensures
            r@ == self@.profile_id,
    {
        &self.profile_id
    }

    pub fn get_password(&self) -> (r: &FieldUpdate<String>)
        ensures
            r@ == self@.password,
    {
        &self.password
    }

    pub fn get_phone(&self) -> (r: &FieldUpdate<String>)
        ensures
            r@ == self@.phone,
    {
        &self.phone
    }

    pub fn get_nickname(&self) -> (r: &FieldUpdate<String>)
        ensures
            r@ == self@.nickname,
    {
        &self.nickname
    }
}

/// The public profile of an account carries the account's own fields: its
/// id, user name, e-mail address, nickname, phone and profile image id, with
/// the login type its stored name parses to.
pub proof fn law_profile_carries_the_account_fields(u: UserView, t: LoginType)
    requires
        u.id is Some,
    ensures
        Some(info_of(u, t).id) == u.id,
        info_of(u, t).username == u.username,
        info_of(u, t).email == u.email,
        info_of(u, t).nickname == u.nickname,
        info_of(u, t).phone == u.phone,
        info_of(u, t).profile_id == u.profile_id,
        info_of(u, t).login_type == t,
{
}

} // verus!
