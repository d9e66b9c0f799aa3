//! The settings the service starts with.

use vstd::prelude::*;
use vstd::string::StringExecFns;
use crate::json::{json_document, json_strings, parse_document, string_at};

verus! {

/// What the service is configured with. A setting that was not given is
/// empty.
#[derive(Debug)]
pub struct Settings {
    pub database_url: String,
    pub fixer_api_key: String,
    pub server_port: String,
}

/// What [`Settings`] hold, as sequences of characters.
pub struct SettingsView {
    pub database_url: Seq<char>,
    pub fixer_api_key: Seq<char>,
    pub server_port: Seq<char>,
}

impl View for Settings {
    type V = SettingsView;

    open spec fn view(&self) -> SettingsView {
        SettingsView {
            database_url: self.database_url@,
            fixer_api_key: self.fixer_api_key@,
            server_port: self.server_port@,
        }
    }
}

/// The string a document holds under `key`, or `fallback` where it holds
/// none.
pub open spec fn string_or(document: serde_json::Value, key: Seq<char>, fallback: Seq<char>) -> Seq<
    char,
> {
    match json_strings(document).get(key) {
        Some(text) => text,
        None => fallback,
    }
}

impl SettingsView {
    /// The settings after a settings file with the text `text` was read:
    /// the access key and the port are taken from the members
    /// `fixer_api_key` and `server_port` where they are strings. A text that
    /// is not JSON changes nothing.
    pub open spec fn with_env_json(self, text: Seq<char>) -> SettingsView {
        match json_document(text) {
            Some(document) => SettingsView {
                fixer_api_key: string_or(document, "fixer_api_key"@, self.fixer_api_key),
                server_port: string_or(document, "server_port"@, self.server_port),
                ..self
            },
            None => self,
        }
    }

    /// The settings after the variables of the environment were read: the
    /// database address is the value of the last variable named
    /// `DATABASE_URL`.
    pub open spec fn with_variables(self, variables: Seq<(String, String)>) -> SettingsView {
        SettingsView { database_url: database_url_among(variables, self.database_url), ..self }
    }
}

/// The value of the last variable named `DATABASE_URL`, or `fallback` where
/// there is none.
pub open spec fn database_url_among(variables: Seq<(String, String)>, fallback: Seq<char>) -> Seq<
    char,
>
    decreases variables.len(),
{
    if variables.len() == 0 {
        fallback
    } else if variables.last().0@ == "DATABASE_URL"@ {
        variables.last().1@
    } else {
        database_url_among(variables.drop_last(), fallback)
    }
}

impl Settings {
    /// Settings of which none is given.
    pub fn new() -> (settings: Settings)
        ensures
            settings@.database_url == Seq::<char>::empty(),
            settings@.fixer_api_key == Seq::<char>::empty(),
            settings@.server_port == Seq::<char>::empty(),
    {
        Settings {
            database_url: String::new(),
            fixer_api_key: String::new(),
            server_port: String::new(),
        }
    }

    /// Reads the text of a settings file. Says whether the text was JSON.
    pub fn read_env_json(&mut self, text: &str) -> (parsed: bool)
        ensures
            parsed == json_document(text@) is Some,
            final(self)@ == old(self)@.with_env_json(text@),
    {
        match parse_document(text) {
            Ok(document) => {
                match string_at(&document, "fixer_api_key") {
                    Some(key) => {
                        self.fixer_api_key = key;
                    },
                    None => {},
                }
                match string_at(&document, "server_port") {
                    Some(port) => {
                        self.server_port = port;
                    },
                    None => {},
                }
                true
            },
            Err(_) => false,
        }
    }

    /// Reads the variables of the environment, given as pairs of name and
    /// value.
    pub fn read_variables(&mut self, variables: &Vec<(String, String)>)
        ensures
            final(self)@ == old(self)@.with_variables(variables@),
    {
        let ghost fallback = self.database_url@;
        let wanted = "DATABASE_URL".to_owned();
        let mut i: usize = 0;
        assert(variables@.take(0) =~= Seq::<(String, String)>::empty());
        while i < variables.len()
            invariant
                i <= variables.len(),
                wanted@ == "DATABASE_URL"@,
                self.fixer_api_key == old(self).fixer_api_key,
                self.server_port == old(self).server_port,
                self.database_url@ == database_url_among(variables@.take(i as int), fallback),
            decreases variables.len() - i,
        {
            proof {
                assert(variables@.take(i + 1).drop_last() =~= variables@.take(i as int));
                assert(variables@.take(i + 1).last() == variables@[i as int]);
            }
            if variables[i].0 == wanted {
                self.database_url = variables[i].1.clone();
            }
            i += 1;
        }
        assert(variables@.take(i as int) =~= variables@);
    }

    /// The address the server listens on: the local host and the configured
    /// port.
    pub fn bind_address(&self) -> (address: String)
        ensures
            address@ == "127.0.0.1:"@ + self@.server_port,
    {
        String::from_str("127.0.0.1:").concat(self.server_port.as_str())
    }
}

} // verus!
