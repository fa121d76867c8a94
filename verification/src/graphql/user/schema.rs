//! Users as the relay stores and receives them.

use crate::crypt::hash::{hash_matches, hash_password, hashing_failure, HASH_LEN};
use crate::errors::AppError;
use crate::graphql::user::validators::{
    email_accepted,
    email_rejection,
    name_accepted,
    name_rejection,
    UserEmail,
    UserName,
};
use crate::instant::Timestamp;
use vstd::prelude::*;

verus! {

/// The identity that a session token stands for.
#[derive(Debug, PartialEq, Eq)]
pub struct SessionUser {
    pub id: u128,
    pub email: String,
}

/// A change of a user's name.
#[derive(Debug, PartialEq, Eq)]
pub struct UserUpdate {
    pub id: u128,
    pub name: String,
}

/// A stored user.
#[derive(Debug, PartialEq, Eq)]
pub struct User {
    pub id: u128,
    pub name: String,
    pub email: String,
    pub password: String,
    pub created_at: Timestamp,
    pub updated_at: Timestamp,
}

/// The mathematical value of a [`User`].
pub struct UserView {
    pub id: u128,
    pub name: Seq<char>,
    pub email: Seq<char>,
    pub password: Seq<char>,
    pub created_at: Timestamp,
    pub updated_at: Timestamp,
}

impl View for User {
    type V = UserView;

    open spec fn view(&self) -> UserView {
        UserView {
            id: self.id,
            name: self.name@,
            email: self.email@,
            password: self.password@,
            created_at: self.created_at,
            updated_at: self.updated_at,
        }
    }
}

impl Clone for User {
    fn clone(&self) -> (copy: Self)
        ensures
            copy@ == self@,
    {
        User {
            id: self.id,
            name: self.name.clone(),
            email: self.email.clone(),
            password: self.password.clone(),
            created_at: self.created_at,
            updated_at: self.updated_at,
        }
    }
}

/// What a person submits to register.
#[derive(Debug, PartialEq, Eq)]
pub struct UserInput {
    pub name: String,
    pub email: String,
    pub password: String,
}

impl UserInput {
    /// Validates the name, then the address, then replaces the password by
    /// its hash. The first check that fails gives the error.
    pub fn validate_user_input(self) -> (r: Result<Self, AppError>)
        ensures
            !name_accepted(self.name@) ==> (r matches Err(e) && e@ == name_rejection(self.name@)),
            name_accepted(self.name@) && !email_accepted(self.email@) ==> (r matches Err(e) && e@
                == email_rejection()),
            name_accepted(self.name@) && email_accepted(self.email@) ==> match r {
                Ok(checked) => {
                    &&& checked.name@ == self.name@
                    &&& checked.email@ == self.email@
                    &&& checked.password@.len() == HASH_LEN
                    &&& hash_matches(self.password@, checked.password@)
                },
                Err(e) => exists|cause: Seq<char>| e@ == hashing_failure(cause),
            },
    {
        let UserInput { name, email, password } = self;
        let name = match UserName::parse(name) {
            Ok(name) => name,
            Err(e) => {
                return Err(e);
            },
        };
        let email = match UserEmail::parse(email) {
            Ok(email) => email,
            Err(e) => {
                return Err(e);
            },
        };
        let hash = match hash_password(password) {
            Ok(hash) => hash,
            Err(e) => {
                return Err(e);
            },
        };
        Ok(UserInput { name: name.inner(), email: email.inner(), password: hash })
    }
}

} // verus!
