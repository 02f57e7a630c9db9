//! UUID and URL operations for scripts, verified.
//!
//! `url` holds what a script can call: UUIDs made by time, by name and at
//! random, UUIDs read and printed again, URLs taken apart, and the module
//! that exports all of it. `search_params` reads query strings. `module` is
//! the host's protocol of declaring and exporting, as data. `uuid_text`
//! says what the text of a UUID is, and `laws` what holds of the operations
//! whatever their inputs. `compiler_common` has what a compiler needs beside
//! them.
//!
//! The crates that do the parsing, hashing and printing are called through
//! the functions of `uuid_calls`, `url_calls`, `ring_calls` and `std_calls`.
//! Their contracts are believed, not proved; everything else is proved
//! against them.

pub mod compiler_common;
pub mod failure;
pub mod ident;
pub mod laws;
pub mod module;
pub mod ring_calls;
pub mod search_params;
pub mod std_calls;
pub mod url;
pub mod url_calls;
pub mod url_object;
pub mod uuid_calls;
pub mod uuid_text;
