//! Verified core of the Calagopus panel: data models, validation rules,
//! request builders and the decisions that the server, its command line
//! and its HTTP layer take.

use vstd::prelude::*;

pub mod cache;
pub mod commands;
pub mod errors;
pub mod extensions;
pub mod http;
pub mod ids;
pub mod ignore_rules;
pub mod models;
pub mod ordered_map;
pub mod paths;
pub mod random;
pub mod routes;
pub mod text;
pub mod text_map;
pub mod urls;
pub mod validation;
pub mod version;
pub mod wings;

verus! {

} // verus!
