//! Configuration of the identity proxy: the upstream base URL and API key.

use vstd::prelude::*;
use vstd::string::*;

verus! {

/// The upstream base URL and API key, fixed for the lifetime of the process.
#[derive(Debug, Clone)]
pub struct SupabaseClient {
    url: String,
    anon_key: String,
}

/// What a caller is told when no upstream base URL was configured.
pub open spec fn missing_url_text() -> Seq<char> {
    "Missing SUPABASE_URL environment variable"@
}

/// What a caller is told when no upstream API key was configured.
pub open spec fn missing_key_text() -> Seq<char> {
    "Missing SUPABASE_ANON_KEY environment variable"@
}

/// The address of `path` below the authentication root of `base`.
pub open spec fn auth_address(base: Seq<char>, path: Seq<char>) -> Seq<char> {
    base + "/auth/v1"@ + path
}

impl SupabaseClient {
    /// The configured base URL.
    pub closed spec fn base_url(&self) -> Seq<char> {
        self.url@
    }

    /// The configured API key.
    pub closed spec fn api_key(&self) -> Seq<char> {
        self.anon_key@
    }

    /// Builds the client from the two configuration values. The base URL is
    /// looked at first: when both are absent the error names the URL.
    pub fn new(url: Option<String>, anon_key: Option<String>) -> (made: Result<Self, String>)
        ensures
            match made {
                Ok(client) => url is Some && anon_key is Some && client.base_url() == url->0@
                    && client.api_key() == anon_key->0@,
                Err(reason) => if url is None {
                    reason@ == missing_url_text()
                } else {
                    anon_key is None && reason@ == missing_key_text()
                },
            },
    {
        match url {
            None => Err(String::from_str("Missing SUPABASE_URL environment variable")),
            Some(url) => match anon_key {
                None => Err(String::from_str("Missing SUPABASE_ANON_KEY environment variable")),
                Some(anon_key) => Ok(SupabaseClient { url, anon_key }),
            },
        }
    }

    /// The full address of an authentication endpoint.
    pub fn auth_url(&self, path: &str) -> (address: String)
        ensures
            address@ == auth_address(self.base_url(), path@),
    {
        let mut address = self.url.clone();
        address.append("/auth/v1");
        address.append(path);
        address
    }

    /// The configured base URL.
    pub fn url(&self) -> (base: &str)
        ensures
            base@ == self.base_url(),
    {
        self.url.as_str()
    }

    /// The API key sent with every upstream request.
    pub fn anon_key(&self) -> (key: &str)
        ensures
            key@ == self.api_key(),
    {
        self.anon_key.as_str()
    }
}

} // verus!
