//! The statements that the contact store runs. Each is a fixed text with
//! numbered places and the arguments bound to them; running one is left to
//! whoever holds the connection.

use crate::models::{text_of, NewContact, NewContactView};
use crate::response::Response;
use vstd::prelude::*;

verus! {

/// Every contact.
pub const SELECT_CONTACTS: &'static str = "SELECT * FROM contacts";

/// The contacts whose name, phone number or email address is like `$1`.
pub const SELECT_MATCHING_CONTACTS: &'static str =
    "SELECT * FROM contacts WHERE full_name LIKE $1 OR phone LIKE $1 OR email LIKE $1";

/// The contact whose id is `$1`.
pub const SELECT_CONTACT: &'static str = "SELECT * FROM contacts WHERE id = $1";

/// A new contact with name `$1`, phone number `$2` and email address `$3`.
/// The store gives it an id and its timestamps, and hands back the row.
pub const INSERT_CONTACT: &'static str =
    "INSERT INTO contacts (full_name, phone, email) VALUES ($1, $2, $3) RETURNING *";

/// A value bound to one numbered place of a statement.
#[derive(Clone, Debug, PartialEq, Eq)]
pub enum Argument {
    Null,
    Text(String),
    Integer(i64),
}

/// An `Argument` with its text as plain characters.
pub enum ArgumentView {
    Null,
    Text(Seq<char>),
    Integer(i64),
}

impl View for Argument {
    type V = ArgumentView;

    open spec fn view(&self) -> ArgumentView {
        match self {
            Argument::Null => ArgumentView::Null,
            Argument::Text(text) => ArgumentView::Text(text@),
            Argument::Integer(number) => ArgumentView::Integer(*number),
        }
    }
}

/// A statement for the store: its text, and the arguments for `$1`, `$2`
/// and so on, in that order.
#[derive(Clone, Debug, PartialEq, Eq)]
pub struct Statement {
    pub sql: &'static str,
    pub arguments: Vec<Argument>,
}

/// A `Statement` as plain values.
pub struct StatementView {
    pub sql: Seq<char>,
    pub arguments: Seq<ArgumentView>,
}

impl View for Statement {
    type V = StatementView;

    open spec fn view(&self) -> StatementView {
        StatementView {
            sql: self.sql@,
            arguments: self.arguments@.map_values(|argument: Argument| argument@),
        }
    }
}

/// What `LIKE` is handed to find `query` anywhere in a column: the query
/// between two `%`. The query is taken as it is, so a `%` or `_` in it keeps
/// the meaning that `LIKE` gives it.
pub open spec fn like_pattern(query: Seq<char>) -> Seq<char> {
    seq!['%'] + query + seq!['%']
}

/// The argument that stores an optional field: absent as `Null`, and present,
/// empty or not, as the text that was given.
pub open spec fn optional_argument(field: Option<Seq<char>>) -> ArgumentView {
    match field {
        Some(text) => ArgumentView::Text(text),
        None => ArgumentView::Null,
    }
}

/// The statement that `search_contacts` builds.
pub open spec fn search_contacts_statement(query: Seq<char>) -> StatementView {
    StatementView {
        sql: SELECT_MATCHING_CONTACTS@,
        arguments: seq![ArgumentView::Text(like_pattern(query))],
    }
}

/// The statement that `get_contacts` builds.
pub open spec fn get_contacts_statement() -> StatementView {
    StatementView { sql: SELECT_CONTACTS@, arguments: Seq::empty() }
}

/// The statement that `insert_new_contact` builds.
pub open spec fn insert_new_contact_statement(contact: NewContactView) -> StatementView {
    StatementView {
        sql: INSERT_CONTACT@,
        arguments: seq![
            ArgumentView::Text(contact.full_name),
            optional_argument(contact.phone),
            optional_argument(contact.email),
        ],
    }
}

/// The statement that `get_contact` builds.
pub open spec fn get_contact_statement(contact_id: i64) -> StatementView {
    StatementView { sql: SELECT_CONTACT@, arguments: seq![ArgumentView::Integer(contact_id)] }
}

/// Binds an optional field.
fn bind_optional(field: &Option<String>) -> (argument: Argument)
    ensures
        argument@ == optional_argument(text_of(*field)),
{
    match field {
        Some(text) => Argument::Text(text.clone()),
        None => Argument::Null,
    }
}

/// Finds the contacts that hold `query` in their name, phone number or email
/// address.
pub fn search_contacts(query: &str) -> (statement: Statement)
    ensures
        statement@ == search_contacts_statement(query@),
{
    let mut pattern = String::from_str("%");
    pattern.append(query);
    pattern.append("%");
    proof {
        reveal_strlit("%");
        assert("%"@ =~= seq!['%']);
        assert(pattern@ =~= like_pattern(query@));
    }
    let arguments = vec![Argument::Text(pattern)];
    let statement = Statement { sql: SELECT_MATCHING_CONTACTS, arguments };
    assert(statement@.arguments =~= search_contacts_statement(query@).arguments);
    statement
}

/// Lists every contact.
pub fn get_contacts() -> (statement: Statement)
    ensures
        statement@ == get_contacts_statement(),
{
    let statement = Statement { sql: SELECT_CONTACTS, arguments: Vec::new() };
    assert(statement@.arguments =~= get_contacts_statement().arguments);
    statement
}

/// Stores a new contact and fetches it as it was stored. The three fields
/// are bound as they were submitted: an empty phone number or email address
/// is stored as an empty text, an absent one as `Null`.
pub fn insert_new_contact(contact: &NewContact) -> (statement: Statement)
    ensures
        statement@ == insert_new_contact_statement(contact@),
{
    let arguments = vec![
        Argument::Text(contact.full_name.clone()),
        bind_optional(&contact.phone),
        bind_optional(&contact.email),
    ];
    let statement = Statement { sql: INSERT_CONTACT, arguments };
    assert(statement@.arguments =~= insert_new_contact_statement(contact@).arguments);
    statement
}

/// Fetches the contact with the given id, if there is one.
pub fn get_contact(contact_id: i64) -> (statement: Statement)
    ensures
        statement@ == get_contact_statement(contact_id),
{
    let arguments = vec![Argument::Integer(contact_id)];
    let statement = Statement { sql: SELECT_CONTACT, arguments };
    assert(statement@.arguments =~= get_contact_statement(contact_id).arguments);
    statement
}

/// The store could not carry out a statement.
#[derive(Clone, Debug, PartialEq, Eq)]
pub struct Error {
    /// What the store reported, for the server's log only.
    pub message: String,
}

impl Error {
    /// The answer to a request that the store failed: an internal error that
    /// shows the client nothing of `message`.
    pub fn into_response(self) -> (response: Response)
        ensures
            response.is_internal_error(),
    {
        Response::internal_error()
    }
}

} // verus!
