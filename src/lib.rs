//! A small personal web server's logic: its start-up settings, its routes,
//! the pages it renders and the request identifiers it hands out.
pub mod text;
pub mod config;
pub mod pages;
pub mod routes;
pub mod request_id;
