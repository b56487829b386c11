//! An ephemeral interactive-menu engine for a chat-platform collectible
//! game, together with the verified decision logic of the surrounding
//! commands and payment worker.
//!
//! The heart of the crate is the menu session machinery: a session renders
//! a view with clickable controls, each tagged by a fresh token, and
//! consumes interaction events until a terminal action or a timeout
//! produces exactly one outcome.

pub mod alliance;
pub mod checks;
pub mod choice;
pub mod config;
pub mod confirm;
pub mod dates;
pub mod fmt;
pub mod interactions;
pub mod models;
pub mod paginator;
pub mod payments;
pub mod purchase;
pub mod random;
pub mod session;
pub mod shop;
pub mod summon;
pub mod webhook;
