//! Which base URL the client talks to: a saved one if it is valid, else the
//! one configured at build time, else a fixed local address.
use vstd::prelude::*;

use crate::errors::DomainError;
use crate::text::{blank, white_space};
use crate::value_objects::ApiBaseUrl;

verus! {

/// The base URL used when nothing else is configured.
pub const FALLBACK_BASE_URL: &'static str = "http://127.0.0.1:8000";

/// The base URL that a build-time setting gives, or the fallback.
pub open spec fn default_url(configured: Option<Seq<char>>) -> Seq<char> {
    match configured {
        Some(s) => s,
        None => FALLBACK_BASE_URL@,
    }
}

/// The base URL chosen from a saved value and a build-time setting: the
/// saved one when it is not blank, else the default when that is not blank,
/// else the fallback.
pub open spec fn chosen_url(saved: Option<Seq<char>>, configured: Option<Seq<char>>) -> Seq<char> {
    if saved matches Some(s) && !blank(s) {
        saved->0
    } else if !blank(default_url(configured)) {
        default_url(configured)
    } else {
        FALLBACK_BASE_URL@
    }
}

pub open spec fn opt_view(s: Option<String>) -> Option<Seq<char>> {
    match s {
        Some(v) => Some(v@),
        None => None,
    }
}

/// The client's configuration.
#[derive(Debug, Clone)]
pub struct AppConfig {
    pub api_base_url: ApiBaseUrl,
}

impl AppConfig {
    /// The configuration for a value read from storage (`saved`) and a
    /// build-time setting (`configured`).
    pub fn load(saved: Option<String>, configured: Option<String>) -> (r: Self)
        ensures
            r.api_base_url@ == chosen_url(opt_view(saved), opt_view(configured)),
    {
        if let Some(s) = &saved {
            if let Ok(base_url) = ApiBaseUrl::try_new(s.as_str()) {
                return AppConfig { api_base_url: base_url };
            }
        }
        let fallback = Self::default_base_url(configured);
        match ApiBaseUrl::try_new(fallback.as_str()) {
            Ok(base_url) => AppConfig { api_base_url: base_url },
            Err(_) => AppConfig { api_base_url: Self::fallback() },
        }
    }

    /// The fixed local address, as a base URL.
    fn fallback() -> (r: ApiBaseUrl)
        ensures
            r@ == FALLBACK_BASE_URL@,
    {
        proof {
            reveal_strlit("http://127.0.0.1:8000");
            assert(!white_space(FALLBACK_BASE_URL@[0]));
        }
        match ApiBaseUrl::try_new(FALLBACK_BASE_URL) {
            Ok(u) => u,
            Err(_) => vstd::pervasive::unreached(),
        }
    }

    /// The build-time setting if there is one, else the fallback.
    pub fn default_base_url(configured: Option<String>) -> (r: String)
        ensures
            r@ == default_url(opt_view(configured)),
    {
        match configured {
            Some(s) => s,
            None => FALLBACK_BASE_URL.to_string(),
        }
    }

    /// A base URL typed by the user, checked as `ApiBaseUrl::try_new` checks it.
    pub fn parse_base_url(value: &str) -> (r: Result<ApiBaseUrl, DomainError>)
        ensures
            blank(value@) ==> r == Err::<ApiBaseUrl, DomainError>(DomainError::EmptyBaseUrl),
            !blank(value@) ==> (r matches Ok(u) && u@ == value@),
    {
        ApiBaseUrl::try_new(value)
    }
}

} // verus!
