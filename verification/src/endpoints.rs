//! What each request decides. A request is served in steps: the functions
//! here say what to ask of the store or the renderer next, and what to answer
//! once they have replied. Talking to the store and rendering are left to the
//! caller, who hands back what came of them.

use crate::database;
use crate::database::{
    get_contacts_statement, insert_new_contact_statement, search_contacts_statement, Statement,
    StatementView,
};
use crate::models::{text_of, Contact, NewContact, NewContactView, SearchQuery};
use crate::response::Response;
use crate::templates;
use crate::templates::Page;
use vstd::prelude::*;

verus! {

/// Path of the listing, where a stored submission sends the browser.
pub const CONTACTS_PATH: &'static str = "/contacts";

/// Why a request could not be served.
#[derive(Clone, Debug, PartialEq, Eq)]
pub enum Error {
    Database(database::Error),
    Templates(templates::Error),
}

impl Error {
    /// The answer to a failed request. Whatever failed, the client is told
    /// the same.
    pub fn into_response(self) -> (response: Response)
        ensures
            response.is_internal_error(),
    {
        match self {
            Error::Database(error) => error.into_response(),
            Error::Templates(error) => error.into_response(),
        }
    }
}

/// What became of a submitted contact.
#[derive(Clone, Debug, PartialEq, Eq)]
pub enum Submission {
    /// It met the rules: the statement stores it.
    Accepted(Statement),
    /// It did not: the page shows the form again, as it was filled in, with
    /// the messages it earned. Nothing is stored.
    Rejected(Page),
}

/// The page is the form for a new contact.
pub open spec fn is_form(page: Page) -> bool {
    page is NewContact
}

/// The request is answered, and the answer sends the browser to `path`.
pub open spec fn is_redirect_to(next: Result<Response, Error>, path: Seq<char>) -> bool {
    next matches Ok(Response::Redirect(target)) && target@ == path
}

/// The statement that the listing runs: every contact where nothing is
/// searched for, else the contacts that hold the text.
pub open spec fn contacts_statement(q: Option<Seq<char>>) -> StatementView {
    match q {
        Some(query) => search_contacts_statement(query),
        None => get_contacts_statement(),
    }
}

/// First step of the listing: the statement to run for `search`.
pub fn get_contacts(search: &SearchQuery) -> (statement: Statement)
    ensures
        statement@ == contacts_statement(text_of(search.q)),
{
    match &search.q {
        Some(query) => database::search_contacts(query.as_str()),
        None => database::get_contacts(),
    }
}

/// Second step of the listing: the page for what the store found, or the
/// store's failure.
pub fn contacts_fetched(search: SearchQuery, fetched: Result<Vec<Contact>, database::Error>) -> (next: Result<Page, Error>)
    ensures
        (match fetched {
            Ok(contacts) => next == Ok::<Page, Error>(Page::Contacts { contacts, search }),
            Err(error) => next == Err::<Page, Error>(Error::Database(error)),
        }),
{
    match fetched {
        Ok(contacts) => Ok(templates::render_contacts_html(search, contacts)),
        Err(error) => Err(Error::Database(error)),
    }
}

/// The empty form: nothing filled in and no message.
pub fn get_new_contact() -> (page: Page)
    ensures
        is_form(page),
        page->new_contact@ == NewContactView::empty(),
        page->errors@.is_empty(),
{
    templates::render_new_contact_html(NewContact::default(), Default::default())
}

/// First step of a submission. A contact that meets the rules is to be
/// stored, field by field as it was submitted. Any other is not: the form is
/// shown again with the submission as it came and every message it earned.
pub fn post_new_contact(new_contact: NewContact) -> (submission: Submission)
    ensures
        new_contact@.is_acceptable() ==> {
            &&& submission is Accepted
            &&& submission->Accepted_0@ == insert_new_contact_statement(new_contact@)
        },
        !new_contact@.is_acceptable() ==> {
            &&& submission is Rejected
            &&& is_form(submission->Rejected_0)
            &&& submission->Rejected_0->new_contact == new_contact
            &&& submission->Rejected_0->errors@ == new_contact@.errors()
        },
        new_contact.full_name@.len() == 0 ==> submission is Rejected,
{
    match new_contact.validate() {
        Ok(()) => Submission::Accepted(database::insert_new_contact(&new_contact)),
        Err(errors) => Submission::Rejected(templates::render_new_contact_html(new_contact, errors)),
    }
}

/// Second step of an accepted submission: once the contact is stored the
/// browser is sent to the listing, so that a reload submits nothing again.
pub fn contact_inserted(inserted: Result<Contact, database::Error>) -> (next: Result<Response, Error>)
    ensures
        (match inserted {
            Ok(_) => is_redirect_to(next, CONTACTS_PATH@),
            Err(error) => next == Err::<Response, Error>(Error::Database(error)),
        }),
{
    match inserted {
        Ok(_) => Ok(Response::Redirect(String::from_str(CONTACTS_PATH))),
        Err(error) => Err(Error::Database(error)),
    }
}

/// The page for a request that no route takes. It is served like any other
/// page, with the status of a page that was found.
pub fn not_found() -> (page: Page)
    ensures
        page == Page::NotFound,
{
    templates::render_not_found_html()
}

/// Last step of every request that shows a page: the rendered page as the
/// answer, or the renderer's failure.
pub fn page_rendered(rendered: Result<String, templates::Error>) -> (next: Result<Response, Error>)
    ensures
        (match rendered {
            Ok(html) => next == Ok::<Response, Error>(Response::Html(html)),
            Err(error) => next == Err::<Response, Error>(Error::Templates(error)),
        }),
{
    match rendered {
        Ok(html) => Ok(Response::Html(html)),
        Err(error) => Err(Error::Templates(error)),
    }
}

} // verus!
