//! Verified core of the Vibetown server: user authentication (configuration,
//! providers, sessions, cookies), the data model of the database and API, the
//! request builders of the engine client, and the decisions of the HTTP routes.
pub mod api_types;
pub mod auth;
pub mod db;
pub mod engine;
pub mod external;
pub mod routes;
pub mod text;
