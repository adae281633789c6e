//! Verified core of a small object-storage utility: deciding what each
//! bucket operation does from the outcomes of its remote and local steps,
//! selecting the first successful listing page, and rendering object
//! summaries as aligned text rows.

pub mod config;
pub mod lister;
pub mod numtext;
pub mod ops;
pub mod present;
mod summary;

pub use summary::ObjectSummary;
