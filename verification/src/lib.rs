//! A web page hit counter: the rules behind the badge it serves, the way it
//! reads a count from the database reply and the settings of its connection
//! pool, together with the decisions of its automation tasks.
mod text;

pub mod badge;
pub mod db_settings;
pub mod decimal;
pub mod hit_count;
pub mod server;
pub mod tasks;
