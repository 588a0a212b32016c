//! A terminal client library for the Gemini protocol: response framing and
//! classification, certificate pinning decisions, navigation history, the
//! gemtext line classifier, the command grammar and a wrapping viewport.

pub mod text;
pub mod protocol;
pub mod certificates;
pub mod unicode;
pub mod wrap;
pub mod document;
pub mod command;
pub mod address;
pub mod history;
pub mod container;
pub mod ui;
