use vstd::prelude::*;

verus! {

/// A stored secret: its salted digest and the salt.
#[derive(Debug, Clone, PartialEq, Eq)]
pub struct SecretPair {
    pub hashed_secret: String,
    pub secret_salt: String,
}

impl View for SecretPair {
    /// The digest text and the salt text.
    type V = (Seq<char>, Seq<char>);

    open spec fn view(&self) -> (Seq<char>, Seq<char>) {
        (self.hashed_secret@, self.secret_salt@)
    }
}

impl SecretPair {
    pub fn duplicate(&self) -> (r: SecretPair)
        ensures
            r == *self,
    {
        SecretPair { hashed_secret: self.hashed_secret.clone(), secret_salt: self.secret_salt.clone() }
    }
}

/// An optional text, copied.
pub fn copy_text(o: &Option<String>) -> (r: Option<String>)
    ensures
        r == *o,
{
    match o {
        Some(s) => Some(s.clone()),
        None => None,
    }
}

/// A tenant: its secret is stored only as a salted digest.
#[derive(Debug, Clone)]
pub struct App {
    pub id: u64,
    pub name: String,
    pub secret: String,
    pub secret_salt: String,
    pub created_at: i64,
    pub updated_at: i64,
}

impl App {
    pub fn duplicate(&self) -> (r: App)
        ensures
            r == *self,
    {
        App {
            id: self.id,
            name: self.name.clone(),
            secret: self.secret.clone(),
            secret_salt: self.secret_salt.clone(),
            created_at: self.created_at,
            updated_at: self.updated_at,
        }
    }
}

/// The fields of an app to be inserted; the store assigns the id.
#[derive(Debug, Clone)]
pub struct CreateApp {
    pub name: String,
    pub secret: String,
    pub secret_salt: String,
}

/// Equality filters on apps; `None` matches any app.
#[derive(Debug, Clone, Default)]
pub struct QueryApp {
    pub id_eq: Option<u64>,
}

impl QueryApp {
    pub open spec fn matches(&self, app: App) -> bool {
        match self.id_eq {
            Some(id) => app.id == id,
            None => true,
        }
    }

    pub fn test(&self, app: &App) -> (r: bool)
        ensures
            r == self.matches(*app),
    {
        match self.id_eq {
            Some(id) => app.id == id,
            None => true,
        }
    }
}

/// A user of an app. Password login is possible only where both password
/// fields are present; the secret pair is always present.
#[derive(Debug, Clone)]
pub struct User {
    pub id: u64,
    pub phone: Option<String>,
    pub email: Option<String>,
    pub password_salt: Option<String>,
    pub password: Option<String>,
    pub secret: String,
    pub secret_salt: String,
    pub app_id: u64,
    pub created_at: i64,
    pub updated_at: i64,
}

impl User {
    pub fn duplicate(&self) -> (r: User)
        ensures
            r == *self,
    {
        User {
            id: self.id,
            phone: copy_text(&self.phone),
            email: copy_text(&self.email),
            password_salt: copy_text(&self.password_salt),
            password: copy_text(&self.password),
            secret: self.secret.clone(),
            secret_salt: self.secret_salt.clone(),
            app_id: self.app_id,
            created_at: self.created_at,
            updated_at: self.updated_at,
        }
    }

    /// The user's current secret pair, as digest text and salt text.
    pub open spec fn secret_view(&self) -> (Seq<char>, Seq<char>) {
        (self.secret@, self.secret_salt@)
    }
}

/// The fields of a user to be inserted; the store assigns the id.
#[derive(Debug, Clone, Default)]
pub struct CreateUser {
    pub phone: Option<String>,
    pub email: Option<String>,
    pub password_salt: Option<String>,
    pub password: Option<String>,
    pub secret: String,
    pub secret_salt: String,
    pub app_id: u64,
}

/// Whether an optional filter on a text field accepts an optional value.
pub open spec fn text_filter_accepts(filter: Option<String>, value: Option<String>) -> bool {
    match filter {
        Some(f) => value is Some && value->0@ == f@,
        None => true,
    }
}

fn text_filter_test(filter: &Option<String>, value: &Option<String>) -> (r: bool)
    ensures
        r == text_filter_accepts(*filter, *value),
{
    match filter {
        Some(f) => match value {
            Some(v) => *v == *f,
            None => false,
        },
        None => true,
    }
}

/// Equality filters on users, combined with AND; all `None` matches any user.
#[derive(Debug, Clone, Default)]
pub struct QueryUser {
    pub id_eq: Option<u64>,
    pub phone_eq: Option<String>,
    pub email_eq: Option<String>,
    pub app_id_eq: Option<u64>,
}

impl QueryUser {
    pub open spec fn matches(&self, user: User) -> bool {
        &&& (self.id_eq matches Some(id) ==> user.id == id)
        &&& text_filter_accepts(self.phone_eq, user.phone)
        &&& text_filter_accepts(self.email_eq, user.email)
        &&& (self.app_id_eq matches Some(a) ==> user.app_id == a)
    }

    pub fn test(&self, user: &User) -> (r: bool)
        ensures
            r == self.matches(*user),
    {
        let id_ok = match self.id_eq {
            Some(id) => user.id == id,
            None => true,
        };
        let app_ok = match self.app_id_eq {
            Some(a) => user.app_id == a,
            None => true,
        };
        id_ok && text_filter_test(&self.phone_eq, &user.phone) && text_filter_test(
            &self.email_eq,
            &user.email,
        ) && app_ok
    }
}

/// New values for a user's secret fields; `None` leaves a field unchanged.
#[derive(Debug, Clone, Default)]
pub struct UpdateUser {
    pub secret: Option<String>,
    pub secret_salt: Option<String>,
}

impl UpdateUser {
    /// The user after the update, stamped with `now` as its update time.
    pub open spec fn apply(&self, user: User, now: i64) -> User {
        User {
            secret: match self.secret {
                Some(s) => s,
                None => user.secret,
            },
            secret_salt: match self.secret_salt {
                Some(s) => s,
                None => user.secret_salt,
            },
            updated_at: now,
            ..user
        }
    }

    pub fn applied(&self, user: &User, now: i64) -> (r: User)
        ensures
            r == self.apply(*user, now),
    {
        let mut r = user.duplicate();
        match &self.secret {
            Some(s) => {
                r.secret = s.clone();
            },
            None => {},
        }
        match &self.secret_salt {
            Some(s) => {
                r.secret_salt = s.clone();
            },
            None => {},
        }
        r.updated_at = now;
        r
    }
}

} // verus!
