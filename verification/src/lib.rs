pub mod db;
pub mod error;
pub mod models;
pub mod routes;
pub mod text;
