//! Verified building blocks for small on-chain style contracts.
//!
//! The centre of the crate is [`registry`]: a single-owner-per-asset registry
//! with delegated transfer rights, whose every operation is a total function
//! with a typed failure. Around it stand a guest book ([`guest_book`]), the
//! share arithmetic of an exchange and of a vault ([`exchange`], [`vault`]),
//! a calculator ([`calculator`]), and a few small types with the text that
//! describes them ([`people`], [`activity`], [`point`], [`text`]).

pub mod account;
pub mod activity;
pub mod calculator;
pub mod exchange;
pub mod guest_book;
pub mod people;
pub mod point;
pub mod registry;
pub mod text;
pub mod vault;
