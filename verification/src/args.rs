//! This module defines the command-line arguments for the pokedex-api application.

pub mod log_level;

use std::path::PathBuf;

use vstd::prelude::*;

pub use self::log_level::{lowercase, LogLevel};
use crate::adapters::pokedex::{
    PokeApiAdapter, PokeApiAdapterView, DEFAULT_POKEAPI_ENDPOINT,
};
use crate::adapters::translation::{
    FunTranslationsAdapter, FunTranslationsAdapterView, DEFAULT_FUN_TRANSLATIONS_ENDPOINT,
};

verus! {

/// The owned path of the standard library. The library reads nothing of a
/// path: it is carried from the command line to whoever opens the file.
#[verifier::external_type_specification]
#[verifier::external_body]
pub struct ExPathBuf(PathBuf);

/// pokedex-api is a web server for accessing Pokémon data.
#[derive(Debug)]
pub struct Args {
    /// adapter timeout in seconds [default: 30]
    pub adapter_timeout_secs: u64,
    /// bind address for the web server [default: 127.0.0.1]
    pub bind_address: String,
    /// fun translation custom endpoint URL [default: https://api.funtranslations.com/]
    pub funtranslation_endpoint: Option<String>,
    /// the path to the log file [default: log only to stdout]
    pub log_file: Option<PathBuf>,
    /// apply log filtering to target matching the given string [default: no filtering]
    pub log_filter: Option<String>,
    /// the log level [default: info]
    pub log_level: LogLevel,
    /// pokeapi custom endpoint URL [default: https://pokeapi.co/api/v2/]
    pub pokeapi_endpoint: Option<String>,
    /// the port the web server will listen on [default: 5000]
    pub port: u16,
}

/// The mathematical value of [`Args`].
pub ghost struct ArgsView {
    pub adapter_timeout_secs: u64,
    pub bind_address: Seq<char>,
    pub funtranslation_endpoint: Option<Seq<char>>,
    pub log_file: Option<PathBuf>,
    pub log_filter: Option<Seq<char>>,
    pub log_level: LogLevel,
    pub pokeapi_endpoint: Option<Seq<char>>,
    pub port: u16,
}

/// The text of a string that may be absent.
pub open spec fn optional_text(text: Option<String>) -> Option<Seq<char>> {
    match text {
        Some(text) => Some(text@),
        None => None,
    }
}

impl View for Args {
    type V = ArgsView;

    open spec fn view(&self) -> ArgsView {
        ArgsView {
            adapter_timeout_secs: self.adapter_timeout_secs,
            bind_address: self.bind_address@,
            funtranslation_endpoint: optional_text(self.funtranslation_endpoint),
            log_file: self.log_file,
            log_filter: optional_text(self.log_filter),
            log_level: self.log_level,
            pokeapi_endpoint: optional_text(self.pokeapi_endpoint),
            port: self.port,
        }
    }
}

impl ArgsView {
    /// The arguments of a server that was started without any.
    pub open spec fn defaults() -> ArgsView {
        ArgsView {
            adapter_timeout_secs: 30,
            bind_address: "127.0.0.1"@,
            funtranslation_endpoint: None,
            log_file: None,
            log_filter: None,
            log_level: LogLevel::Info,
            pokeapi_endpoint: None,
            port: 5000,
        }
    }

    /// The pokedex adapter that these arguments configure: the custom
    /// endpoint where one is given, the adapter's own where none is, and the
    /// timeout that the adapters share.
    pub open spec fn pokedex_adapter(self) -> PokeApiAdapterView {
        PokeApiAdapterView {
            endpoint: match self.pokeapi_endpoint {
                Some(endpoint) => endpoint,
                None => DEFAULT_POKEAPI_ENDPOINT@,
            },
            timeout_secs: self.adapter_timeout_secs,
        }
    }

    /// The translation adapter that these arguments configure: the custom
    /// endpoint where one is given, the adapter's own where none is, and the
    /// timeout that the adapters share.
    pub open spec fn translation_adapter(self) -> FunTranslationsAdapterView {
        FunTranslationsAdapterView {
            endpoint: match self.funtranslation_endpoint {
                Some(endpoint) => endpoint,
                None => DEFAULT_FUN_TRANSLATIONS_ENDPOINT@,
            },
            timeout_secs: self.adapter_timeout_secs,
        }
    }
}

impl Default for Args {
    fn default() -> (args: Self)
        ensures
            args@ == ArgsView::defaults(),
    {
        Args {
            adapter_timeout_secs: 30,
            bind_address: String::from_str("127.0.0.1"),
            funtranslation_endpoint: None,
            log_file: None,
            log_filter: None,
            log_level: LogLevel::Info,
            pokeapi_endpoint: None,
            port: 5000,
        }
    }
}

impl Args {
    /// Builds the pokedex adapter that the arguments configure.
    pub fn pokedex_adapter(&self) -> (adapter: PokeApiAdapter)
        ensures
            adapter@ == self@.pokedex_adapter(),
    {
        match &self.pokeapi_endpoint {
            Some(endpoint) => PokeApiAdapter::new(endpoint.as_str(), self.adapter_timeout_secs),
            None => PokeApiAdapter::new(DEFAULT_POKEAPI_ENDPOINT, self.adapter_timeout_secs),
        }
    }

    /// Builds the translation adapter that the arguments configure.
    pub fn translation_adapter(&self) -> (adapter: FunTranslationsAdapter)
        ensures
            adapter@ == self@.translation_adapter(),
    {
        match &self.funtranslation_endpoint {
            Some(endpoint) => FunTranslationsAdapter::new(
                endpoint.as_str(),
                self.adapter_timeout_secs,
            ),
            None => FunTranslationsAdapter::new(
                DEFAULT_FUN_TRANSLATIONS_ENDPOINT,
                self.adapter_timeout_secs,
            ),
        }
    }
}

} // verus!
