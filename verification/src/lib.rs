//! Verified core of a native Yandex Messenger / Telemost desktop client:
//! OAuth and Passport session handling, accounts, the push socket's frames,
//! the chat list and message history as the API returns them, the state
//! kept in memory of each chat, the Goloom call-signaling protocol and the
//! call controller, and the small stores (drafts, outbox, saved and
//! scheduled messages).

pub mod config;
pub mod text;
pub mod models;
pub mod goloom;
pub mod goloom_client;
pub mod goloom_media;
pub mod goloom_call;
pub mod session_store;
pub mod drafts;
pub mod outbox;
mod clock;
pub mod json;
pub mod xiva;
pub mod auth;
pub mod telemost;
pub mod auth_proxy;
pub mod history;
pub mod accounts;
pub mod messages;
pub mod chats;
pub mod links;
pub mod transcription;
pub mod saved;
pub mod scheduled;
pub mod token_store;
pub mod outgoing;
pub mod chat_state;
pub mod history_load;
pub mod upload;
pub mod bots;
