pub mod auth;
pub mod admin;
pub mod orchestration;
pub mod feed;
pub mod health;
pub mod mail;
pub mod terminal;
pub mod work_items;
