//! The player on whose behalf the game is launched.

use vstd::prelude::*;

verus! {

/// A player account.
pub trait User {
    fn username(&self) -> String;

    fn token(&self) -> String;
}

/// The kind of account a builder makes.
#[allow(clippy::upper_case_acronyms)]
#[derive(Debug)]
pub enum UserType {
    PREMIUM { token: String },
    OFFLINE,
}

impl Default for UserType {
    fn default() -> (r: Self)
        ensures
            r is OFFLINE,
    {
        UserType::OFFLINE
    }
}

/// An account that plays without authentication.
#[derive(Debug)]
pub struct OfflineUser {
    pub name: String,
}

impl User for OfflineUser {
    fn username(&self) -> (r: String)
        ensures
            r == self.name,
    {
        self.name.clone()
    }

    fn token(&self) -> (r: String)
        ensures
            r@.len() == 0,
    {
        String::new()
    }
}

/// Builds an account.
#[derive(Debug)]
pub struct UserBuilder {
    name: Option<String>,
    token: Option<String>,
    user_type: UserType,
}

pub open spec fn premium_unsupported() -> Seq<char> {
    "Premiun is not implemented yet"@
}

pub open spec fn name_required() -> Seq<char> {
    "Name is required for offline user"@
}

impl UserBuilder {
    pub closed spec fn name_spec(&self) -> Option<String> {
        self.name
    }

    pub closed spec fn token_spec(&self) -> Option<String> {
        self.token
    }

    pub closed spec fn kind(&self) -> UserType {
        self.user_type
    }

    /// An offline account with no name yet.
    pub fn new() -> (r: Self)
        ensures
            r.name_spec() is None,
            r.token_spec() is None,
            r.kind() is OFFLINE,
    {
        UserBuilder { name: None, token: None, user_type: UserType::OFFLINE }
    }

    /// The account used when none was chosen.
    pub fn default() -> (r: OfflineUser)
        ensures
            r.name@ == "TheRustierOne"@,
    {
        OfflineUser { name: String::from_str("TheRustierOne") }
    }

    /// The account used when none was chosen, boxed.
    pub fn default_boxed() -> (r: Box<OfflineUser>)
        ensures
            r.name@ == "TheRustierOne"@,
    {
        Box::new(Self::default())
    }

    pub fn user_type(self, user_type: UserType) -> (r: Self)
        ensures
            r.kind() == user_type,
            r.name_spec() == self.name_spec(),
            r.token_spec() == self.token_spec(),
    {
        UserBuilder { user_type, ..self }
    }

    pub fn name(self, name: String) -> (r: Self)
        ensures
            r.name_spec() == Some(name),
            r.kind() == self.kind(),
            r.token_spec() == self.token_spec(),
    {
        UserBuilder { name: Some(name), ..self }
    }

    pub fn token(self, token: String) -> (r: Self)
        ensures
            r.token_spec() == Some(token),
            r.kind() == self.kind(),
            r.name_spec() == self.name_spec(),
    {
        UserBuilder { token: Some(token), ..self }
    }

    /// An offline account with the given name; premium accounts are not
    /// supported.
    pub fn build(self) -> (r: Result<OfflineUser, String>)
        ensures
            self.kind() is PREMIUM ==> (r matches Err(e) && e@ == premium_unsupported()),
            self.kind() is OFFLINE && self.name_spec() is None ==> (r matches Err(e) && e@
                == name_required()),
            self.kind() is OFFLINE && self.name_spec() is Some ==> (r matches Ok(u) && Some(u.name)
                == self.name_spec()),
    {
        match self.user_type {
            UserType::PREMIUM { .. } => Err(String::from_str("Premiun is not implemented yet")),
            UserType::OFFLINE => match self.name {
                Some(name) => Ok(OfflineUser { name }),
                None => Err(String::from_str("Name is required for offline user")),
            },
        }
    }
}

} // verus!
