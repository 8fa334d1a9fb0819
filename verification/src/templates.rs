//! The pages of the contact book: which template each is rendered from, and
//! the values the template is handed.

use crate::models::{Contact, NewContact, NewContactErrors, SearchQuery};
use crate::response::Response;
use vstd::prelude::*;

verus! {

/// Template of the listing.
pub const CONTACTS_TEMPLATE: &'static str = "contacts.html.jinja";

/// Template of the form for a new contact.
pub const NEW_CONTACT_TEMPLATE: &'static str = "new_contact.html.jinja";

/// Template of the page for a path that leads nowhere.
pub const NOT_FOUND_TEMPLATE: &'static str = "not_found.html.jinja";

/// A page to render, with the values its template reads. Each field is
/// handed to the template under its own name.
#[derive(Clone, Debug, PartialEq, Eq)]
pub enum Page {
    /// The listing: the contacts to show and the search that found them.
    Contacts { contacts: Vec<Contact>, search: SearchQuery },
    /// The form: what was typed into it so far and the messages it earned.
    NewContact { new_contact: NewContact, errors: NewContactErrors },
    /// The page for a path that leads nowhere. Its template reads nothing.
    NotFound,
}

impl Page {
    /// The template that each page is rendered from.
    pub open spec fn spec_template_name(self) -> Seq<char> {
        match self {
            Page::Contacts { .. } => CONTACTS_TEMPLATE@,
            Page::NewContact { .. } => NEW_CONTACT_TEMPLATE@,
            Page::NotFound => NOT_FOUND_TEMPLATE@,
        }
    }

    /// The name of the template to render this page from.
    pub fn template_name(&self) -> (name: &'static str)
        ensures
            name@ == self.spec_template_name(),
    {
        match self {
            Page::Contacts { .. } => CONTACTS_TEMPLATE,
            Page::NewContact { .. } => NEW_CONTACT_TEMPLATE,
            Page::NotFound => NOT_FOUND_TEMPLATE,
        }
    }
}

/// The listing of `contacts`, found by `search`.
pub fn render_contacts_html(search: SearchQuery, contacts: Vec<Contact>) -> (page: Page)
    ensures
        page == (Page::Contacts { contacts, search }),
{
    Page::Contacts { contacts, search }
}

/// The form, filled with `new_contact` and showing `errors`.
pub fn render_new_contact_html(new_contact: NewContact, errors: NewContactErrors) -> (page: Page)
    ensures
        page == (Page::NewContact { new_contact, errors }),
{
    Page::NewContact { new_contact, errors }
}

/// The page for a path that leads nowhere.
pub fn render_not_found_html() -> (page: Page)
    ensures
        page == Page::NotFound,
{
    Page::NotFound
}

/// A page could not be rendered: its template is missing or malformed, or
/// does not fit the values it was handed.
#[derive(Clone, Debug, PartialEq, Eq)]
pub struct Error {
    /// What the renderer reported, for the server's log only.
    pub message: String,
}

impl Error {
    /// The answer to a request whose page could not be rendered: an internal
    /// error that shows the client nothing of `message`.
    pub fn into_response(self) -> (response: Response)
        ensures
            response.is_internal_error(),
    {
        Response::internal_error()
    }
}

} // verus!
