//! Account-scoped API credentials.

use vstd::prelude::*;

use crate::error::{Error, Result};
use crate::secret::Secret;
use crate::text::{check_blank, concat2, is_blank, StringArg};

verus! {

/// Credentials for one Blooio account-scoped API handle.
///
/// Clients do not store credentials; an account handle borrows them.
#[derive(Clone)]
pub struct BlooioCreds {
    api_key: Secret<String>,
}

impl BlooioCreds {
    /// The API key.
    pub closed spec fn key(&self) -> Seq<char> {
        self.api_key.value()@
    }

    /// Credentials from an API key.
    pub fn new<S: StringArg>(api_key: S) -> (r: Self)
        ensures
            r.key() == api_key.arg_view(),
    {
        BlooioCreds { api_key: Secret::new(api_key.into_string()) }
    }

    /// Credentials from the value of `BLOOIO_API_KEY` (`None` when the
    /// variable is not set). An absent or blank value is an error that never
    /// reflects the value.
    pub fn from_env_value(value: Option<String>) -> (r: Result<Self>)
        ensures
            match value {
                Some(v) if !is_blank(v@) => r matches Ok(c) && c.key() == v@,
                _ => r matches Err(e) && (e matches Error::Config(m) && m@
                    == "BLOOIO_API_KEY is not set"@),
            },
    {
        match value {
            Some(v) => {
                if check_blank(v.as_str()) {
                    Err(Error::config("BLOOIO_API_KEY is not set".to_owned()))
                } else {
                    Ok(Self::new(v))
                }
            },
            None => Err(Error::config("BLOOIO_API_KEY is not set".to_owned())),
        }
    }

    /// The `Authorization` header value: `Bearer ` and the API key.
    pub fn bearer_header(&self) -> (r: Secret<String>)
        ensures
            r.value()@ == "Bearer "@ + self.key(),
    {
        Secret::new(concat2("Bearer ", self.api_key.expose().as_str()))
    }

    /// A redacted description that never shows the key.
    pub fn debug_string(&self) -> (r: String)
        ensures
            r@ == "BlooioCreds { api_key: [REDACTED] }"@,
    {
        "BlooioCreds { api_key: [REDACTED] }".to_owned()
    }
}

} // verus!
