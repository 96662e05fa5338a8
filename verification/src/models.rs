//! Domain entities built from validated input: a subscriber-to-be and the
//! confirmation-token query parameter.

use vstd::prelude::*;
use vstd::string::StringExecFns;

use crate::error::ValidationError;
use crate::validation;
use crate::validation::{email_ok, name_error, name_ok};

verus! {

/// An email address that has passed the syntax check. Once constructed its
/// value cannot be changed to an invalid one.
#[derive(Debug, Clone)]
pub struct ValidEmail(String);

impl View for ValidEmail {
    type V = Seq<char>;

    closed spec fn view(&self) -> Seq<char> {
        self.0@
    }
}

impl ValidEmail {
    /// Every value of this type satisfies email-address syntax.
    pub open spec fn wf(self) -> bool {
        email_ok(self@)
    }

    pub fn new(email: &str) -> (r: Result<Self, String>)
        ensures
            r is Ok <==> email_ok(email@),
            r matches Ok(v) ==> v@ == email@ && v.wf(),
            r matches Err(m) ==> m@ == "Not a valid email!"@,
    {
        if validation::email_syntax_ok(email) {
            Ok(ValidEmail(String::from_str(email)))
        } else {
            Err(String::from_str("Not a valid email!"))
        }
    }

    pub fn as_str(&self) -> (r: &str)
        ensures
            r@ == self@,
    {
        self.0.as_str()
    }
}

/// The view of a [`NewSubscriber`]: its two validated fields.
pub ghost struct NewSubscriberView {
    pub email: Seq<char>,
    pub name: Seq<char>,
}

/// A subscription request whose email and name have both passed validation.
/// Read-only access keeps the values valid for the record's lifetime.
#[derive(Debug, Clone)]
pub struct NewSubscriber {
    email: String,
    name: String,
}

impl View for NewSubscriber {
    type V = NewSubscriberView;

    closed spec fn view(&self) -> NewSubscriberView {
        NewSubscriberView { email: self.email@, name: self.name@ }
    }
}

impl NewSubscriber {
    /// Every value of this type holds a valid email and an in-policy name.
    pub open spec fn wf(self) -> bool {
        email_ok(self@.email) && name_ok(self@.name)
    }

    /// Validates the email first, then the name, and keeps the pair only if
    /// both pass; a rejection names the offending field and rule.
    pub fn new(email: String, name: String) -> (r: Result<Self, ValidationError>)
        ensures
            r is Ok <==> email_ok(email@) && name_ok(name@),
            r matches Ok(s) ==> s@.email == email@ && s@.name == name@ && s.wf(),
            r matches Err(e) ==> e == (if !email_ok(email@) {
                ValidationError::InvalidEmail
            } else {
                name_error(name@)
            }),
    {
        match validation::validate_email_address(email.as_str()) {
            Ok(_) => {},
            Err(e) => {
                return Err(e);
            },
        }
        match validation::validate_name(name.as_str()) {
            Ok(_) => {},
            Err(e) => {
                return Err(e);
            },
        }
        Ok(NewSubscriber { email, name })
    }

    pub fn get_name(&self) -> (r: &str)
        ensures
            r@ == self@.name,
    {
        self.name.as_str()
    }

    pub fn get_email(&self) -> (r: &str)
        ensures
            r@ == self@.email,
    {
        self.email.as_str()
    }
}

/// The `token` query parameter of a confirmation request.
#[derive(Debug, Clone)]
pub struct TokenQuery {
    token: String,
}

impl View for TokenQuery {
    type V = Seq<char>;

    closed spec fn view(&self) -> Seq<char> {
        self.token@
    }
}

impl TokenQuery {
    pub fn new(token: String) -> (q: Self)
        ensures
            q@ == token@,
    {
        TokenQuery { token }
    }

    pub fn get_token(&self) -> (r: &str)
        ensures
            r@ == self@,
    {
        self.token.as_str()
    }
}

} // verus!
