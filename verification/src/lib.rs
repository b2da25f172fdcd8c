//! Song search: positional identifiers for a song collection, the join of
//! index hits with the songs in memory, and the inline results shown for them.

pub mod article;
pub mod decimal;
pub mod documents;
pub mod json;
pub mod reply;
pub mod search;
pub mod song;
