//! Process configuration: the service URL and the bearer token, as
//! loaded from the config store and optionally overridden by flags for
//! the current invocation.

use vstd::prelude::*;

verus! {

/// The effective configuration of one invocation.
#[derive(Debug)]
pub struct Config {
    pub url: String,
    pub auth: String,
}

impl Clone for Config {
    fn clone(&self) -> (r: Self)
        ensures
            r == *self,
    {
        Config { url: self.url.clone(), auth: self.auth.clone() }
    }
}

/// Applies the command-line overrides to the loaded configuration:
/// each field that an override was given for takes the override, the
/// others keep their loaded value.
pub fn effective_config(loaded: Config, url_override: Option<String>, auth_override: Option<String>) -> (r: Config)
    ensures
        url_override matches Some(u) ==> r.url == u,
        url_override is None ==> r.url == loaded.url,
        auth_override matches Some(a) ==> r.auth == a,
        auth_override is None ==> r.auth == loaded.auth,
{
    let url = match url_override {
        Some(u) => u,
        None => loaded.url,
    };
    let auth = match auth_override {
        Some(a) => a,
        None => loaded.auth,
    };
    Config { url, auth }
}

} // verus!
