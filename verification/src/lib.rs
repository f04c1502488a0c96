//! Archival of group chat messages into a searchable document store.
//!
//! Messages reach the store on two ways: as they are posted, through a
//! queue whose consumer writes them in batches (`indexer`), and from a
//! legacy store, by a backfill that can be stopped and run again at any
//! time (`watermark`, `legacy`, `migrate`). Both ways write through the
//! same bulk writer (`bulk`) and under the same identifiers (`identity`),
//! so that a message written twice is stored once.
//!
//! The library decides and computes; it neither waits nor sends. Whoever
//! uses it talks to the chat service and to the two stores, hands over
//! what came back, and does what the library says next.
//!
//! Around that core stand the message model (`message`), the settings
//! (`config`), the search request and its paging (`search`), the state
//! that travels in the buttons of a result (`search_state`, `keyboard`),
//! the text of results (`render`), the handling of commands and button
//! presses (`callback`, `handler`, `commands`), the users seen so far
//! (`user_cache`), and helpers for text and numbers (`text`, `decimal`,
//! `batches`, `clock`).

pub mod batches;
pub mod bulk;
pub mod callback;
pub mod clock;
pub mod commands;
pub mod config;
pub mod decimal;
pub mod handler;
pub mod identity;
pub mod indexer;
pub mod keyboard;
pub mod legacy;
pub mod message;
pub mod migrate;
pub mod render;
pub mod search;
pub mod search_state;
pub mod text;
pub mod user_cache;
pub mod watermark;
