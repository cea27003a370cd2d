//! Picking the system language: the list of generated locales, their
//! human-readable labels, the search over them, and the `LANG=` files that
//! record the choice.
pub mod text;
pub mod names;
pub mod config;
pub mod translit;
pub mod locales;
pub mod country_data;
pub mod guard;
