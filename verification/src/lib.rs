//! Page logic of the Omnibus library frontend: the formatters, parsers,
//! classifiers, view plans and small state machines behind the account,
//! authors and book-detail screens.

pub mod auth;
pub mod author;
pub mod authors;
pub mod book;
pub mod calendar;
pub mod chapter_ref;
pub mod chips;
pub mod composer;
pub mod cta;
pub mod dates;
pub mod files;
pub mod discovery;
pub mod goals;
pub mod health;
pub mod highlights;
pub mod identifiers;
pub mod journal;
pub mod kobo;
pub mod markup;
pub mod marquee;
pub mod mobile;
pub mod num;
pub mod order;
pub mod profile;
pub mod sessions;
pub mod settings;
pub mod shelves;
pub mod stats;
pub mod stats_view;
pub mod text;
pub mod uploads;
