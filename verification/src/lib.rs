//! A client-side statement construction layer for a column-family store.
//!
//! A [`query_builder::QueryBuilder`] accumulates one operation's fragments
//! through fluent calls and renders them as a single textual statement; the
//! contract of every method states exactly what text comes out, so the
//! rendered statement — the wire-visible artifact consumers depend on — is
//! pinned down in full. [`table::Table`] renders the maintenance statements
//! for one table the same way. Dispatching the text over a live session is
//! left to the caller.

pub mod query_builder;
pub mod table;
pub mod text;
