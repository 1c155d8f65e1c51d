//! The local-first data layer of a note-taking application: deciding at
//! startup whether the primary store is reachable, choosing between a synced
//! replica and a local-only store, keeping the schema in place, and recording
//! write intents made while offline.
pub mod mode;
pub mod startup;
pub mod schema;
pub mod json_text;
pub mod change_log;
pub mod records;
