//! The session with the server: address normalization, credentials and the
//! bearer token's lifecycle.

use vstd::prelude::*;
use vstd::string::*;
use crate::endpoints::{spec_endpoint_url, ApiEndpoints};
use crate::text::{
    contains_sub, has_prefix, parse_decimal, spec_all_digits, spec_contains, spec_decimal,
    spec_decimal_value, spec_has_prefix, spec_is_digit, u32_to_decimal,
};
use crate::token::ApiToken;

verus! {

/// Connection state for one server: normalized address, credentials and the
/// current bearer token, if any.
#[derive(Debug)]
pub struct Session {
    pub server_address: String,
    pub port: u16,
    pub username: String,
    pub password: String,
    pub insecure: bool,
    pub api_token: Option<ApiToken>,
}

/// What `str::to_lowercase` returns for a given text.
pub uninterp spec fn lower_of(s: Seq<char>) -> Seq<char>;

/// Relies on str::to_lowercase: the lowercased text depends on the
/// characters alone.
#[verifier::external_body]
fn lowercase(s: &str) -> (r: String)
    ensures
        r@ == lower_of(s@),
{
    s.to_lowercase()
}

/// The token string and expiry that a JSON token response carries, or `None`
/// when the text is not such a response.
pub uninterp spec fn spec_token_fields(s: Seq<char>) -> Option<(Seq<char>, u64)>;

/// Relies on serde_json::from_str and serde_json::Value's accessors: which
/// `token` string and `expires` number a JSON text carries depends on the
/// text alone.
#[verifier::external_body]
fn parse_token_json(s: &str) -> (r: Result<ApiToken, String>)
    ensures
        match r {
            Ok(t) => spec_token_fields(s@) == Some((t.token@, t.expires)),
            Err(_) => spec_token_fields(s@) is None,
        },
{
    let value: serde_json::Value = match serde_json::from_str(s) {
        Ok(v) => v,
        Err(e) => return Err(e.to_string()),
    };
    let token = value.get("token").and_then(serde_json::Value::as_str);
    let expires = value.get("expires").and_then(serde_json::Value::as_u64);
    match (token, expires) {
        (Some(t), Some(e)) => Ok(ApiToken { token: t.to_owned(), expires: e }),
        _ => Err("token response is missing token or expires".to_string()),
    }
}

/// The address names its own scheme.
pub open spec fn spec_has_scheme(addr: Seq<char>) -> bool {
    spec_has_prefix(addr, "http://"@) || spec_has_prefix(addr, "https://"@)
}

/// Position `i` holds a colon with nothing but digits after it.
pub open spec fn spec_is_port_suffix_at(addr: Seq<char>, i: int) -> bool {
    &&& 0 <= i < addr.len()
    &&& addr[i] == ':'
    &&& forall|j: int| i < j < addr.len() ==> spec_is_digit(addr[j])
}

/// The address ends in a colon followed only by digits: an inline port.
pub open spec fn spec_has_inline_port(addr: Seq<char>) -> bool {
    exists|i: int| spec_is_port_suffix_at(addr, i)
}

/// The digits of the inline port.
pub open spec fn spec_inline_port_digits(addr: Seq<char>) -> Seq<char> {
    let i = choose|i: int| spec_is_port_suffix_at(addr, i);
    addr.subrange(i + 1, addr.len() as int)
}

/// The address belongs to the cloud-hosted service, whatever its case.
pub open spec fn spec_is_cloud(addr: Seq<char>) -> bool {
    spec_contains(lower_of(addr), "jamfcloud.com"@)
}

/// The effective port: an explicit port wins, then an inline port, then the
/// cloud-hosted fixed port, then the scheme default.
pub open spec fn spec_resolved_port(addr: Seq<char>, port: Option<u16>, insecure: bool) -> int {
    match port {
        Some(p) => p as int,
        None => if spec_has_inline_port(addr) {
            spec_decimal_value(spec_inline_port_digits(addr)) as int
        } else if spec_is_cloud(addr) {
            443
        } else if insecure {
            8080
        } else {
            8443
        },
    }
}

/// The normalized address: the given scheme or the one the insecure flag
/// implies, the raw address, and the effective port unless the address
/// already carries one inline.
pub open spec fn spec_normalized_address(
    addr: Seq<char>,
    port: Option<u16>,
    insecure: bool,
) -> Seq<char> {
    let with_scheme = if spec_has_scheme(addr) {
        addr
    } else if insecure {
        "http://"@ + addr
    } else {
        "https://"@ + addr
    };
    if spec_has_inline_port(addr) {
        with_scheme
    } else {
        with_scheme + seq![':'] + spec_decimal(spec_resolved_port(addr, port, insecure) as nat)
    }
}

/// At most one position can start an inline-port suffix.
proof fn lemma_port_suffix_unique(addr: Seq<char>, i: int, j: int)
    requires
        spec_is_port_suffix_at(addr, i),
        spec_is_port_suffix_at(addr, j),
    ensures
        i == j,
{
    if i < j {
        assert(spec_is_digit(addr[j]));
    }
    if j < i {
        assert(spec_is_digit(addr[i]));
    }
}

/// Finds the colon that starts an inline-port suffix, if there is one.
fn find_inline_port(s: &str) -> (r: Option<usize>)
    ensures
        match r {
            Some(i) => spec_is_port_suffix_at(s@, i as int) && spec_has_inline_port(s@),
            None => !spec_has_inline_port(s@),
        },
{
    let s_len = s.unicode_len();
    let mut i: usize = s_len;
    while i > 0
        invariant
            i <= s_len,
            s_len == s@.len(),
            spec_all_digits(s@, i as int, s_len as int),
        decreases i,
    {
        let c = s.get_char(i - 1);
        if c == ':' {
            return Some(i - 1);
        }
        let u = c as u32;
        if !(48 <= u && u <= 57) {
            proof {
                let b = i - 1;
                assert forall|k: int| !spec_is_port_suffix_at(s@, k) by {
                    if spec_is_port_suffix_at(s@, k) {
                        if k < b {
                            assert(spec_is_digit(s@[b as int]));
                        } else if k > b {
                            assert(spec_is_digit(s@[k]));
                        }
                    }
                }
            }
            return None;
        }
        i -= 1;
    }
    proof {
        assert forall|k: int| !spec_is_port_suffix_at(s@, k) by {
            if spec_is_port_suffix_at(s@, k) {
                assert(spec_is_digit(s@[k]));
            }
        }
    }
    None
}

impl Session {
    /// Builds a session from a raw address and connection settings,
    /// normalizing the address and resolving the effective port. Fails when
    /// an explicit port accompanies an address that already carries one.
    pub fn new(
        server_address: String,
        port: Option<u16>,
        username: String,
        password: String,
        insecure: bool,
    ) -> (r: Result<Session, &'static str>)
        requires
            spec_has_inline_port(server_address@) ==> spec_inline_port_digits(
                server_address@,
            ).len() > 0 && spec_decimal_value(spec_inline_port_digits(server_address@))
                <= u16::MAX,
        ensures
            match r {
                Ok(s) => {
                    &&& !(port is Some && spec_has_inline_port(server_address@))
                    &&& s.server_address@ == spec_normalized_address(
                        server_address@,
                        port,
                        insecure,
                    )
                    &&& s.port == spec_resolved_port(server_address@, port, insecure)
                    &&& s.username == username
                    &&& s.password == password
                    &&& s.insecure == insecure
                    &&& s.api_token is None
                },
                Err(_) => port is Some && spec_has_inline_port(server_address@),
            },
    {
        let inline = find_inline_port(server_address.as_str());
        if port.is_some() && inline.is_some() {
            return Err(
                "Error: Don't include a port with the server_address while using the --port flag",
            );
        }
        let port_val: u16 = match port {
            Some(p) => p,
            None => match inline {
                Some(ci) => {
                    let s_len = server_address.as_str().unicode_len();
                    proof {
                        let w = choose|k: int| spec_is_port_suffix_at(server_address@, k);
                        lemma_port_suffix_unique(server_address@, ci as int, w);
                        assert(spec_inline_port_digits(server_address@) == server_address@.subrange(
                            ci + 1,
                            s_len as int,
                        ));
                    }
                    match parse_decimal(server_address.as_str(), ci + 1, s_len, 65535) {
                        Some(v) => v as u16,
                        None => {
                            proof {
                                assert(spec_all_digits(server_address@, ci + 1, s_len as int));
                            }
                            0
                        },
                    }
                },
                None => {
                    let lower = lowercase(server_address.as_str());
                    let is_cloud = contains_sub(lower.as_str(), "jamfcloud.com");
                    if is_cloud {
                        443
                    } else if insecure {
                        8080
                    } else {
                        8443
                    }
                },
            },
        };
        let mut addr = String::new();
        let has_scheme = has_prefix(server_address.as_str(), "http://") || has_prefix(
            server_address.as_str(),
            "https://",
        );
        if !has_scheme {
            if insecure {
                addr.append("http://");
            } else {
                addr.append("https://");
            }
        }
        addr.append(server_address.as_str());
        if inline.is_none() {
            addr.append(":");
            let digits = u32_to_decimal(port_val as u32);
            addr.append(digits.as_str());
        }
        proof {
            reveal_strlit(":");
            assert(addr@ =~= spec_normalized_address(server_address@, port, insecure));
        }
        Ok(
            Session {
                server_address: addr,
                port: port_val,
                username,
                password,
                insecure,
                api_token: None,
            },
        )
    }

    /// Installs the token parsed from a JSON token response, or reports the
    /// parse failure and leaves the session unchanged.
    pub fn create_auth_token(&mut self, token_string: String) -> (r: Result<(), String>)
        ensures
            match r {
                Ok(_) => spec_token_fields(token_string@) matches Some(f)
                    && final(self).api_token matches Some(t) && t.token@ == f.0 && t.expires
                    == f.1,
                Err(_) => spec_token_fields(token_string@) is None && final(self).api_token
                    == old(self).api_token,
            },
            final(self).server_address == old(self).server_address,
            final(self).port == old(self).port,
            final(self).username == old(self).username,
            final(self).password == old(self).password,
            final(self).insecure == old(self).insecure,
    {
        match parse_token_json(token_string.as_str()) {
            Ok(token) => {
                self.api_token = Some(token);
                Ok(())
            },
            Err(e) => Err(e),
        }
    }

    /// A token is valid when one is present and has not expired.
    pub fn token_is_valid(&self, now: u64) -> (r: bool)
        ensures
            r == spec_token_valid(*self, now),
    {
        match &self.api_token {
            Some(token) => now <= token.expires,
            None => false,
        }
    }

    /// URL of the token-issuance endpoint for this session's server.
    pub fn token_auth_url(&self) -> (r: String)
        ensures
            r@ == self.server_address@ + spec_endpoint_url(ApiEndpoints::TokenAuth),
    {
        let details = ApiEndpoints::TokenAuth.usage();
        let mut url = self.server_address.clone();
        url.append(details.url);
        url
    }
}

/// A token is present and `now` has not passed its expiry.
pub open spec fn spec_token_valid(s: Session, now: u64) -> bool {
    match s.api_token {
        Some(t) => now <= t.expires,
        None => false,
    }
}

} // verus!
