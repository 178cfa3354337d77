//! Where and how metrics are delivered: the choice between the two versions
//! of the write protocol and the addresses they use.

use vstd::prelude::*;
use vstd::string::StringExecFns;
use crate::config::{opt_view, InfluxConfig};

verus! {

/// How a request authenticates.
#[derive(Clone, Debug)]
pub enum Auth {
    /// No credentials.
    Anonymous,
    /// User name and password.
    Basic { username: String, password: String },
    /// An access token.
    Token(String),
}

/// A request to make: its address and how it authenticates.
#[derive(Clone, Debug)]
pub struct Target {
    /// The address.
    pub url: String,
    /// The credentials.
    pub auth: Auth,
}

/// What the credentials of a configuration for the first protocol version are.
pub open spec fn basic_auth_of(c: InfluxConfig) -> Option<(Seq<char>, Seq<char>)> {
    match (c.username, c.password) {
        (Some(u), Some(p)) => Some((u@, p@)),
        _ => None,
    }
}

/// Whether a target has the given address and credentials.
pub open spec fn is_target(t: Target, url: Seq<char>, basic: Option<(Seq<char>, Seq<char>)>, token: Option<Seq<char>>) -> bool {
    &&& t.url@ == url
    &&& match token {
        Some(k) => t.auth matches Auth::Token(x) && x@ == k,
        None => match basic {
            Some((u, p)) => t.auth matches Auth::Basic { username, password } && username@ == u && password@ == p,
            None => t.auth is Anonymous,
        },
    }
}

fn basic_auth(c: &InfluxConfig) -> (r: Auth)
    ensures
        match basic_auth_of(*c) {
            Some((u, p)) => r matches Auth::Basic { username, password } && username@ == u && password@ == p,
            None => r is Anonymous,
        },
{
    match (&c.username, &c.password) {
        (Some(u), Some(p)) => Auth::Basic { username: u.clone(), password: p.clone() },
        _ => Auth::Anonymous,
    }
}

/// Where a batch of metrics is written. With a token the second protocol
/// version is used, which also needs an organisation, and the bucket (the
/// database where no bucket is set); without one the first version, with
/// basic credentials where both user name and password are set.
pub fn write_target(c: &InfluxConfig) -> (r: core::result::Result<Target, String>)
    ensures
        c.token is None ==> (r matches Ok(t) && is_target(t, c.url@ + "/write?db="@ + c.database@, basic_auth_of(*c), None)),
        c.token is Some && c.org is None ==> (r matches Err(m) && m@ == "Organization required for InfluxDB v2"@),
        c.token is Some && c.org is Some ==> (r matches Ok(t) && is_target(
            t,
            c.url@ + "/api/v2/write?org="@ + c.org->Some_0@ + "&bucket="@ + match c.bucket {
                Some(b) => b@,
                None => c.database@,
            },
            None,
            opt_view(c.token),
        )),
{
    match &c.token {
        None => {
            let mut url = c.url.clone();
            url.append("/write?db=");
            url.append(c.database.as_str());
            Ok(Target { url, auth: basic_auth(c) })
        },
        Some(token) => match &c.org {
            None => Err(String::from_str("Organization required for InfluxDB v2")),
            Some(org) => {
                let bucket = match &c.bucket {
                    Some(b) => b.as_str(),
                    None => c.database.as_str(),
                };
                let mut url = c.url.clone();
                url.append("/api/v2/write?org=");
                url.append(org.as_str());
                url.append("&bucket=");
                url.append(bucket);
                Ok(Target { url, auth: Auth::Token(token.clone()) })
            },
        },
    }
}

/// Where the server is asked whether it is up: its health endpoint with a
/// token, its ping endpoint otherwise.
pub fn health_target(c: &InfluxConfig) -> (r: Target)
    ensures
        is_target(
            r,
            c.url@ + if c.token is Some { "/health"@ } else { "/ping"@ },
            basic_auth_of(*c),
            opt_view(c.token),
        ),
{
    let mut url = c.url.clone();
    match &c.token {
        Some(token) => {
            url.append("/health");
            Target { url, auth: Auth::Token(token.clone()) }
        },
        None => {
            url.append("/ping");
            Target { url, auth: basic_auth(c) }
        },
    }
}

} // verus!
