//! Process-wide proxy configuration: where requests go and which header
//! carries their intended host.

use vstd::prelude::*;

verus! {

/// Whether http's `Authority` parser accepts the text.
pub uninterp spec fn authority_accepts(s: Seq<char>) -> bool;

/// Whether http's `HeaderName` parser accepts the bytes of the text.
pub uninterp spec fn header_name_accepts(s: Seq<char>) -> bool;

/// Relies on `http::uri::Authority`'s `FromStr`: whether the text is a valid
/// URI authority (`host[:port]`). A parsed authority keeps the text as given.
#[verifier::external_body]
fn parse_authority(s: &str) -> (r: bool)
    ensures
        r == authority_accepts(s@),
{
    s.parse::<hyper::http::uri::Authority>().is_ok()
}

/// Relies on `http::header::HeaderName::from_bytes`: whether the text is a
/// valid header field name.
#[verifier::external_body]
fn parse_header_name(s: &str) -> (r: bool)
    ensures
        r == header_name_accepts(s@),
{
    hyper::header::HeaderName::from_bytes(s.as_bytes()).is_ok()
}

/// The character of a decimal digit.
pub open spec fn digit_char(d: nat) -> char {
    if d == 0 { '0' }
    else if d == 1 { '1' }
    else if d == 2 { '2' }
    else if d == 3 { '3' }
    else if d == 4 { '4' }
    else if d == 5 { '5' }
    else if d == 6 { '6' }
    else if d == 7 { '7' }
    else if d == 8 { '8' }
    else { '9' }
}

/// The decimal notation of a number, without leading zeros.
pub open spec fn decimal(n: nat) -> Seq<char>
    decreases n,
{
    if n < 10 {
        seq![digit_char(n)]
    } else {
        decimal(n / 10).push(digit_char(n % 10))
    }
}

/// The authority `host:port` that every forwarded request targets.
pub open spec fn authority_text(host: Seq<char>, port: u16) -> Seq<char> {
    host + ":"@ + decimal(port as nat)
}

fn digit_str(d: u16) -> (r: &'static str)
    requires
        d < 10,
    ensures
        r@ == seq![digit_char(d as nat)],
{
    proof {
        reveal_strlit("0");
        reveal_strlit("1");
        reveal_strlit("2");
        reveal_strlit("3");
        reveal_strlit("4");
        reveal_strlit("5");
        reveal_strlit("6");
        reveal_strlit("7");
        reveal_strlit("8");
        reveal_strlit("9");
    }
    if d == 0 { "0" }
    else if d == 1 { "1" }
    else if d == 2 { "2" }
    else if d == 3 { "3" }
    else if d == 4 { "4" }
    else if d == 5 { "5" }
    else if d == 6 { "6" }
    else if d == 7 { "7" }
    else if d == 8 { "8" }
    else { "9" }
}

fn push_decimal(s: &mut String, n: u16)
    ensures
        final(s)@ == old(s)@ + decimal(n as nat),
    decreases n,
{
    if n >= 10 {
        push_decimal(s, n / 10);
    }
    s.append(digit_str(n % 10));
    assert(final(s)@ =~= old(s)@ + decimal(n as nat));
}

/// Why a configuration could not be built.
#[derive(Debug, PartialEq, Eq, Structural)]
pub enum ConfigError {
    /// `host:port` of the destination is not a valid URI authority.
    InvalidAuthority,
    /// The name of the host-carrying header is not a valid header name.
    InvalidHeaderName,
}

/// Immutable settings shared by every request.
pub struct ProxyConfig {
    /// Destination authority, `host:port`.
    pub authority: String,
    /// Name of the header whose value becomes the forwarded `Host`.
    pub smuggle_header: String,
}

impl ProxyConfig {
    /// Both parts are what their parsers accept.
    pub open spec fn wf(&self) -> bool {
        &&& authority_accepts(self.authority@)
        &&& header_name_accepts(self.smuggle_header@)
    }

    /// Builds the configuration for destination `dest_host:dest_port`, with the
    /// intended host carried in the header named `smuggle_header`.
    pub fn new(dest_host: &str, dest_port: u16, smuggle_header: &str) -> (r: Result<
        ProxyConfig,
        ConfigError,
    >)
        ensures
            match r {
                Ok(c) => {
                    &&& c.authority@ == authority_text(dest_host@, dest_port)
                    &&& c.smuggle_header@ == smuggle_header@
                    &&& c.wf()
                },
                Err(ConfigError::InvalidAuthority) => !authority_accepts(
                    authority_text(dest_host@, dest_port),
                ),
                Err(ConfigError::InvalidHeaderName) => {
                    &&& authority_accepts(authority_text(dest_host@, dest_port))
                    &&& !header_name_accepts(smuggle_header@)
                },
            },
    {
        let mut authority = String::from_str(dest_host);
        authority.append(":");
        push_decimal(&mut authority, dest_port);
        if !parse_authority(authority.as_str()) {
            return Err(ConfigError::InvalidAuthority);
        }
        if !parse_header_name(smuggle_header) {
            return Err(ConfigError::InvalidHeaderName);
        }
        Ok(ProxyConfig { authority, smuggle_header: String::from_str(smuggle_header) })
    }
}

} // verus!
