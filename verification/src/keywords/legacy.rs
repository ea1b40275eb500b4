//! Keyword forms kept for older drafts.

pub mod type_draft_4;
