//! The bodies of the orchestration API, shared with the web client.
pub mod agent;
pub mod convoy;
pub mod feed_event;
pub mod formula;
pub mod mail_message;
pub mod merge_request;
pub mod rig;
pub mod town;
