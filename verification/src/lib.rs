//! A lookup-and-restyle service for Pokémon descriptions.
//!
//! The crate holds the contracts of the adapters for the two upstream
//! providers, the rule that picks the translation style of a Pokémon, and the
//! fallback and error-mapping policy of the two endpoints. Its functions are
//! verified against contracts that are stated over the mathematical views of
//! the data types. The few calls into other crates stand behind small
//! functions whose contracts are taken on trust; each says so where it is
//! declared.
//!
//! Nothing here touches the network. What an adapter asks of its provider,
//! and what it makes of the answer, is decided step by step by the library;
//! sending the request and decoding the body is left to the caller.

pub mod adapters;
pub mod args;
pub mod log;
pub mod model;
pub mod web;
