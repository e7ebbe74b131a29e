//! A client of the game servers of Project Sekai, for every region.
//!
//! The modules decide: which account serves a request, what a request looks
//! like, what an answer means, and what is done next when something goes wrong.
//! What has to be sent, fetched, read from disk or waited for is handed out as
//! an action, and what came of it is handed back as an event.

// Ground: texts, numbers, documents, encodings, errors.
pub mod codec;
pub mod decimal;
pub mod error;
pub mod headers;
pub mod json;
pub mod text;

// What a client is made of.
pub mod account;
pub mod client;
pub mod config;
pub mod session;

// Talking to the game server.
pub mod game_call;
pub mod login;
pub mod media;
pub mod request;
pub mod response;
pub mod version;

// Keeping the sessions alive.
pub mod account_files;
pub mod pool_build;
pub mod recovery;
pub mod reload;
pub mod startup;
pub mod watcher;
