//! The input and output side of a terminal kanban board: local save files, the encrypted cloud
//! copies of them, the account that owns the cloud copies, and the events of the terminal.
//!
//! The library holds the decisions and the computations. Reading files, sending requests and
//! polling the terminal is left to the application, which hands the outcomes in as plain values.

pub mod access_token;
pub mod account;
pub mod app;
pub mod base64_text;
pub mod board;
pub mod cipher;
pub mod cloud;
pub mod constants;
pub mod events;
pub mod file_name;
pub mod http;
pub mod json;
pub mod local;
pub mod password;
pub mod replies;
pub mod saves;
pub mod startup;
pub mod text;
pub mod timestamp;
