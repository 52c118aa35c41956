//! This module exposes the web server functionality of the application:
//! the state that the two endpoints share, and what each endpoint answers.

pub mod routes;

use vstd::prelude::*;

pub use self::routes::{get_pokemon, get_translated_pokemon, Response, StatusCode};
use crate::adapters::pokedex::PokedexAdapter;
use crate::adapters::translation::TranslationAdapter;

verus! {

/// Application state holding the adapters for Pokedex and Translation services.
pub struct AppState<P, T>
where
    P: PokedexAdapter + Send + Sync + 'static,
    T: TranslationAdapter + Send + Sync + 'static,
{
    /// the [`PokedexAdapter`] to use
    pub pokedex_adapter: P,
    /// the [`TranslationAdapter`] to use
    pub translation_adapter: T,
}

/// Represents the web server.
pub struct WebServer<P, T>
where
    P: PokedexAdapter + Send + Sync + 'static,
    T: TranslationAdapter + Send + Sync + 'static,
{
    /// Application state
    app_state: AppState<P, T>,
}

impl<P, T> WebServer<P, T>
where
    P: PokedexAdapter + Send + Sync + 'static,
    T: TranslationAdapter + Send + Sync + 'static,
{
    /// The state that the server answers from.
    pub closed spec fn state(self) -> AppState<P, T> {
        self.app_state
    }

    /// Creates a new instance of the web server with the given application state.
    pub fn new(app_state: AppState<P, T>) -> (server: Self)
        ensures
            server.state() == app_state,
    {
        Self { app_state }
    }

    /// The state that the server answers from.
    pub fn app_state(&self) -> (app_state: &AppState<P, T>)
        ensures
            *app_state == self.state(),
    {
        &self.app_state
    }
}

} // verus!
