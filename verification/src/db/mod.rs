//! The rows of the orchestration database and what creating them takes.
pub mod agent;
pub mod convoy;
pub mod feed_event;
pub mod formula;
pub mod mail_message;
pub mod merge_request;
pub mod rig;
pub mod town;
pub mod work_item;
