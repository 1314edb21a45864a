//! Notes for a plain-text notebox: a request for a note is merged with
//! defaults, rendered through a handlebars template, and handed back as the
//! name and the text of the file to write.

pub mod create;
pub mod engine;
pub mod name;
pub mod note;
pub mod partials;
pub mod render;
