pub mod add;
pub mod cascade_laws;
pub mod cleanup;
pub mod completions;
pub mod current;
pub mod delete;
pub mod edit;
pub mod export;
pub mod export_laws;
pub mod list;
pub mod merge_laws;
pub mod rename;
pub mod switch;
pub mod whole_merge_laws;
