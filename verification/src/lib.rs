//! Avinet: the verified core of a small server-authoritative chat.
//!
//! The server keeps the chat and tells it to its clients; a client shows what
//! it was told. This crate decides; it neither reads nor sends. The programs
//! around it carry bytes, hand in what has happened, and do what they are told:
//!
//! - [`message`]: what clients and the server say to each other;
//! - [`history`], [`registry`], [`session`]: the server's chat history, its
//!   clients, and its side of one connection;
//! - [`client`]: what a client knows and shows;
//! - [`config`], [`text`], [`ident`]: settings, text and client ids;
//! - [`calls`]: what each operation does, said of its arguments and results;
//! - [`laws`], [`system`]: what holds of the parts together.

#![allow(unused_imports)]

pub mod calls;
pub mod client;
pub mod config;
pub mod history;
pub mod ident;
pub mod laws;
pub mod message;
pub mod registry;
pub mod session;
pub mod system;
pub mod text;
