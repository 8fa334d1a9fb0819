//! A contact book behind a web form: the rules that decide whether a submitted
//! contact is accepted, the statements that store and find contacts, and the
//! decisions each request takes between the store and the page renderer.

pub mod database;
pub mod endpoints;
pub mod models;
pub mod patterns;
pub mod response;
pub mod templates;
