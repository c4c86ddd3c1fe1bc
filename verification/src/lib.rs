use vstd::prelude::*;

pub mod text;
pub mod collections;
pub mod friendship;
pub mod patterns;
pub mod parser;
pub mod datetime;
pub mod import;
pub mod viewer;
pub mod models;
pub mod database;
pub mod stream;
pub mod order;
pub mod archive;
pub mod settings;
pub mod utils;
pub mod runs;
pub mod launcher;
pub mod replace;

verus! {

} // verus!
