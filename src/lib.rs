//! A desktop translator: picks text from the first usable input source, sends it to
//! a translation service, parses the reply and drives the presentation loop.
pub mod json;
pub mod api;
pub mod settings;
pub mod input;
pub mod model;
pub mod ui;
