//! A public directory of URLs grouped by category.
//!
//! A URL is listed only after its owner has shown control of it by serving a
//! marker file at a well-known path below it; the marker's content names the
//! category. This crate holds the rules of that submission: normalizing the
//! URL, deriving the marker address, judging what the fetch brought back,
//! validating the category, admitting requests at a bounded rate, and the
//! insert-or-update that keeps one listing per URL.

pub mod admission;
pub mod category;
pub mod directory;
pub mod models;
pub mod normalize;
pub mod ownership;
pub mod pipeline;
pub mod site;
mod text;
