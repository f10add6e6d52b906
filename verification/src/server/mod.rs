//! What the web server needs of the library: the shapes in which the graph
//! is sent, the ports it listens on, and where the plain server sends its
//! clients.
pub mod events;

use vstd::prelude::*;

use crate::pipewire::node::text_of;
use crate::text::{chars_of, decimal, decimal_string, replace_all, replaced};

verus! {

/// The plain and the encrypted port the server listens on.
#[derive(Clone, Copy, Debug, PartialEq, Eq, Structural)]
pub struct Ports {
    pub http: u16,
    pub https: u16,
}

/// The host a client named, with every occurrence of the plain port's
/// number replaced by the encrypted port's: where the plain server sends a
/// client that asked for `host`.
pub fn https_host(host: &str, ports: Ports) -> (r: String)
    ensures
        r@ == replaced(host@, decimal(ports.http as nat), decimal(ports.https as nat)),
{
    let http = decimal_string(ports.http);
    let https = decimal_string(ports.https);
    assert(http@.len() > 0);
    replace_all(host, http.as_str(), https.as_str())
}

/// Whether `s` reads as the authority part of a URI (host and optional
/// port, with optional user info), as the http crate's `Authority` parser
/// decides.
pub uninterp spec fn valid_authority(s: Seq<char>) -> bool;

/// Whether `s` parses as an `axum::http::uri::Authority`, through its
/// `FromStr`. The parser checks the characters and the shape of the
/// authority; that decision is named `valid_authority` and not written out.
#[verifier::external_body]
fn authority_is_valid(s: &str) -> (r: bool)
    ensures
        r == valid_authority(s@),
{
    s.parse::<axum::http::uri::Authority>().is_ok()
}

/// Why the plain server cannot send a client on.
#[derive(Clone, Copy, Debug, PartialEq, Eq, Structural)]
pub enum RedirectError {
    /// The rewritten host is not a valid URI authority.
    InvalidAuthority,
}

/// The path and query as an address shows them: as given, but with a `/`
/// before them when the path part (what comes before the first `?`) is
/// empty, and `/` alone when there are none.
pub open spec fn shown_path(path_and_query: Option<Seq<char>>) -> Seq<char> {
    match path_and_query {
        Some(p) => if p.len() > 0 && p[0] != '?' {
            p
        } else {
            seq!['/'] + p
        },
        Option::None => seq!['/'],
    }
}

/// The https address of `host` (already rewritten) with `path_and_query`.
pub open spec fn https_address(host: Seq<char>, path_and_query: Option<Seq<char>>) -> Seq<char> {
    seq!['h', 't', 't', 'p', 's', ':', '/', '/'] + host + shown_path(path_and_query)
}

/// The https address of host `h` (already rewritten) with
/// `path_and_query`, given whether `h` is a valid authority; refused when it
/// is not.
pub fn address_for(h: &str, authority_valid: bool, path_and_query: Option<&str>) -> (r: Result<
    String,
    RedirectError,
>)
    ensures
        match r {
            Ok(location) => authority_valid && location@ == https_address(h@, text_of(path_and_query)),
            Err(e) => !authority_valid && e == RedirectError::InvalidAuthority,
        },
{
    if !authority_valid {
        return Err(RedirectError::InvalidAuthority);
    }
    let mut location = String::from_str("https://");
    proof {
        reveal_strlit("https://");
        reveal_strlit("/");
    }
    location.append(h);
    match path_and_query {
        Some(p) => {
            let chars = chars_of(p);
            if chars.len() == 0 || chars[0] == '?' {
                location.append("/");
            }
            location.append(p);
        },
        Option::None => {
            location.append("/");
        },
    }
    assert(location@ =~= https_address(h@, text_of(path_and_query)));
    Ok(location)
}

/// Where the plain server sends a client that asked for `host` with
/// `path_and_query`: the https address on the same host with the plain port
/// replaced by the encrypted one. Refused when the rewritten host is not a
/// valid authority.
pub fn https_location(host: &str, path_and_query: Option<&str>, ports: Ports) -> (r: Result<
    String,
    RedirectError,
>)
    ensures
        ({
            let h = replaced(host@, decimal(ports.http as nat), decimal(ports.https as nat));
            match r {
                Ok(location) => valid_authority(h) && location@ == https_address(
                    h,
                    text_of(path_and_query),
                ),
                Err(e) => !valid_authority(h) && e == RedirectError::InvalidAuthority,
            }
        }),
{
    let h = https_host(host, ports);
    let valid = authority_is_valid(h.as_str());
    address_for(h.as_str(), valid, path_and_query)
}

} // verus!
