//! A personal file-hosting and link-shortening backend, built around three
//! verified pieces: a compact identifier codec, two persistent record stores
//! (uploads and shortened links), and an authorization gate.

pub mod codec;
pub mod config;
pub mod database;
pub mod generate;
pub mod guard;
pub mod id;
pub mod paths;
pub mod routes;
pub mod templates;
pub mod uri;
pub mod user;
