//! The values that travel between a request, the store and a page, and the
//! rules a submitted contact has to meet.

use crate::patterns::{
    count_at_signs, is_email_address, is_phone_number,
    lemma_email_address_has_one_at_sign_between_two_parts, matches_email_pattern,
    matches_phone_pattern,
};
use vstd::prelude::*;

verus! {

/// Message shown when the name of a submitted contact is empty.
pub const FULL_NAME_REQUIRED: &'static str = "Full Name is required";

/// Message shown when a submitted phone number is not one.
pub const INVALID_PHONE: &'static str = "Invalid phone number";

/// Message shown when a submitted email address is not one.
pub const INVALID_EMAIL: &'static str = "Invalid email address";

/// The text of an optional field, if it has one.
pub open spec fn text_of(field: Option<String>) -> Option<Seq<char>> {
    match field {
        Some(text) => Some(text@),
        None => None,
    }
}

/// What the listing was asked to look for: nothing, or a text to find.
#[derive(Clone, Debug, PartialEq, Eq)]
pub struct SearchQuery {
    pub q: Option<String>,
}

/// A point in time as the store reports it: seconds and nanoseconds since the
/// Unix epoch, and the offset from UTC, in seconds, that it was written with.
#[derive(Clone, Copy, Debug, PartialEq, Eq)]
pub struct Timestamp {
    pub unix_seconds: i64,
    pub nanosecond: u32,
    pub offset_seconds: i32,
}

/// A contact as the store holds it. The store assigns `id` and both
/// timestamps; the other fields are kept as they were submitted.
#[derive(Clone, Debug, PartialEq, Eq)]
pub struct Contact {
    pub id: i64,
    pub full_name: String,
    pub phone: Option<String>,
    pub email: Option<String>,
    pub created_at: Timestamp,
    pub updated_at: Timestamp,
}

/// A contact as it was submitted, before the store has seen it.
#[derive(Clone, Debug, PartialEq, Eq)]
pub struct NewContact {
    pub full_name: String,
    pub phone: Option<String>,
    pub email: Option<String>,
}

/// One optional message for each field of a submitted contact.
#[derive(Clone, Debug, PartialEq, Eq)]
pub struct NewContactErrors {
    pub full_name: Option<String>,
    pub phone: Option<String>,
    pub email: Option<String>,
}

/// The three fields of a submitted contact as plain text.
pub struct NewContactView {
    pub full_name: Seq<char>,
    pub phone: Option<Seq<char>>,
    pub email: Option<Seq<char>>,
}

/// The three messages of a `NewContactErrors` as plain text.
pub struct NewContactErrorsView {
    pub full_name: Option<Seq<char>>,
    pub phone: Option<Seq<char>>,
    pub email: Option<Seq<char>>,
}

impl NewContactErrorsView {
    /// No field has a message: the submission was accepted.
    pub open spec fn is_empty(self) -> bool {
        self.full_name is None && self.phone is None && self.email is None
    }
}

/// The message for a name: one is owed exactly when the name is empty.
pub open spec fn full_name_error(full_name: Seq<char>) -> Option<Seq<char>> {
    if full_name.len() == 0 {
        Some(FULL_NAME_REQUIRED@)
    } else {
        None
    }
}

/// The message for a phone number: one is owed exactly when a number was
/// given, is not empty and is no phone number.
pub open spec fn phone_error(phone: Option<Seq<char>>) -> Option<Seq<char>> {
    if phone is Some && phone->Some_0.len() > 0 && !is_phone_number(phone->Some_0) {
        Some(INVALID_PHONE@)
    } else {
        None
    }
}

/// The message for an email address: one is owed exactly when an address was
/// given, is not empty and is no email address.
pub open spec fn email_error(email: Option<Seq<char>>) -> Option<Seq<char>> {
    if email is Some && email->Some_0.len() > 0 && !is_email_address(email->Some_0) {
        Some(INVALID_EMAIL@)
    } else {
        None
    }
}

impl NewContactView {
    /// The submission of a form that nothing was typed into.
    pub open spec fn empty() -> NewContactView {
        NewContactView { full_name: Seq::empty(), phone: None, email: None }
    }

    /// The messages that this submission earns, field by field.
    pub open spec fn errors(self) -> NewContactErrorsView {
        NewContactErrorsView {
            full_name: full_name_error(self.full_name),
            phone: phone_error(self.phone),
            email: email_error(self.email),
        }
    }

    /// The submission earns no message.
    pub open spec fn is_acceptable(self) -> bool {
        self.errors().is_empty()
    }
}

/// A field that was left out or left empty. Neither is held to a pattern.
pub open spec fn is_blank(field: Option<Seq<char>>) -> bool {
    field is None || field->Some_0.len() == 0
}

/// A submission is accepted exactly when it has a name, a phone number that
/// is blank or has the shape of one, and an email address that is blank or
/// has the shape of one.
pub proof fn lemma_acceptable_contact(contact: NewContactView)
    ensures
        contact.is_acceptable() <==> {
            &&& contact.full_name.len() > 0
            &&& (is_blank(contact.phone) || is_phone_number(contact.phone->Some_0))
            &&& (is_blank(contact.email) || is_email_address(contact.email->Some_0))
        },
{
}

/// A submission without a name earns the message for the name, whatever its
/// other fields hold, and is not accepted.
pub proof fn lemma_empty_full_name_is_rejected(contact: NewContactView)
    requires
        contact.full_name.len() == 0,
    ensures
        contact.errors().full_name == Some(FULL_NAME_REQUIRED@),
        !contact.is_acceptable(),
{
}

/// A phone number that is blank or has the shape of one never earns a
/// message; every other phone number earns `INVALID_PHONE`.
pub proof fn lemma_phone_message(contact: NewContactView)
    ensures
        is_blank(contact.phone) || is_phone_number(contact.phone->Some_0)
            ==> contact.errors().phone is None,
        !is_blank(contact.phone) && !is_phone_number(contact.phone->Some_0)
            ==> contact.errors().phone == Some(INVALID_PHONE@),
{
}

/// An email address that is not blank earns no message exactly when it holds
/// one `@` with something on each side of it. With no `@`, with more than
/// one, or with nothing before or after the `@`, it earns `INVALID_EMAIL`.
pub proof fn lemma_email_message(contact: NewContactView)
    requires
        !is_blank(contact.email),
    ensures
        contact.errors().email is None <==> {
            &&& count_at_signs(contact.email->Some_0) == 1
            &&& contact.email->Some_0.first() != '@'
            &&& contact.email->Some_0.last() != '@'
        },
        contact.errors().email is Some ==> contact.errors().email == Some(INVALID_EMAIL@),
{
    lemma_email_address_has_one_at_sign_between_two_parts(contact.email->Some_0);
}

impl View for NewContact {
    type V = NewContactView;

    open spec fn view(&self) -> NewContactView {
        NewContactView {
            full_name: self.full_name@,
            phone: text_of(self.phone),
            email: text_of(self.email),
        }
    }
}

impl View for NewContactErrors {
    type V = NewContactErrorsView;

    open spec fn view(&self) -> NewContactErrorsView {
        NewContactErrorsView {
            full_name: text_of(self.full_name),
            phone: text_of(self.phone),
            email: text_of(self.email),
        }
    }
}

impl Default for NewContact {
    fn default() -> (contact: NewContact)
        ensures
            contact.full_name@ == Seq::<char>::empty(),
            contact.phone is None,
            contact.email is None,
    {
        NewContact { full_name: String::new(), phone: None, email: None }
    }
}

impl Default for NewContactErrors {
    fn default() -> (errors: NewContactErrors)
        ensures
            errors.full_name is None,
            errors.phone is None,
            errors.email is None,
    {
        NewContactErrors { full_name: None, phone: None, email: None }
    }
}

impl NewContactErrors {
    /// Whether no field has a message.
    pub fn is_empty(&self) -> (empty: bool)
        ensures
            empty == self@.is_empty(),
    {
        self.full_name.is_none() && self.phone.is_none() && self.email.is_none()
    }
}

/// The message for a submitted phone number, if it earns one.
fn check_phone(phone: &Option<String>) -> (error: Option<String>)
    ensures
        text_of(error) == phone_error(text_of(*phone)),
{
    match phone {
        Some(text) => {
            if !text.as_str().is_empty() && !matches_phone_pattern(text.as_str()) {
                Some(String::from_str(INVALID_PHONE))
            } else {
                None
            }
        },
        None => None,
    }
}

/// The message for a submitted email address, if it earns one.
fn check_email(email: &Option<String>) -> (error: Option<String>)
    ensures
        text_of(error) == email_error(text_of(*email)),
{
    match email {
        Some(text) => {
            if !text.as_str().is_empty() && !matches_email_pattern(text.as_str()) {
                Some(String::from_str(INVALID_EMAIL))
            } else {
                None
            }
        },
        None => None,
    }
}

impl NewContact {
    /// Holds the submission to the rules: the name is not empty, and a phone
    /// number or email address that was given and is not empty has the shape
    /// of one. Nothing is trimmed or rewritten. The submission passes when no
    /// field earns a message; otherwise every message it earns comes back.
    pub fn validate(&self) -> (outcome: Result<(), NewContactErrors>)
        ensures
            outcome is Ok <==> self@.is_acceptable(),
            outcome is Err ==> outcome->Err_0@ == self@.errors(),
            self.full_name@.len() == 0 ==> outcome is Err,
    {
        let full_name = if self.full_name.as_str().is_empty() {
            Some(String::from_str(FULL_NAME_REQUIRED))
        } else {
            None
        };
        let errors = NewContactErrors {
            full_name,
            phone: check_phone(&self.phone),
            email: check_email(&self.email),
        };
        if errors.is_empty() {
            Ok(())
        } else {
            Err(errors)
        }
    }
}

} // verus!
