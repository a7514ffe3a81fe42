//! HTTP header fields and case-insensitive name matching.

use vstd::prelude::*;

verus! {

/// One header field: its name as received and its raw value bytes.
pub struct Header {
    pub name: String,
    pub value: Vec<u8>,
}

impl View for Header {
    type V = (Seq<char>, Seq<u8>);

    open spec fn view(&self) -> (Seq<char>, Seq<u8>) {
        (self.name@, self.value@)
    }
}

/// Two characters are equal once ASCII upper-case letters are folded to lower case.
pub open spec fn char_eq_ignore_case(a: char, b: char) -> bool {
    ||| a == b
    ||| ('A' <= a <= 'Z' && a as u32 + 32 == b as u32)
    ||| ('A' <= b <= 'Z' && b as u32 + 32 == a as u32)
}

/// Header names are compared without regard to ASCII case.
pub open spec fn names_match(a: Seq<char>, b: Seq<char>) -> bool {
    &&& a.len() == b.len()
    &&& forall|i: int| 0 <= i < a.len() ==> char_eq_ignore_case(#[trigger] a[i], b[i])
}

/// The connection-scoped headers that a proxy must not relay.
pub open spec fn is_hop_by_hop(name: Seq<char>) -> bool {
    ||| names_match(name, "Connection"@)
    ||| names_match(name, "Keep-alive"@)
    ||| names_match(name, "Public"@)
    ||| names_match(name, "Proxy-Authenticate"@)
    ||| names_match(name, "Transfer-Encoding"@)
    ||| names_match(name, "Upgrade"@)
}

fn char_matches(a: char, b: char) -> (r: bool)
    ensures
        r == char_eq_ignore_case(a, b),
{
    let x = a as u32;
    let y = b as u32;
    x == y || ('A' <= a && a <= 'Z' && x + 32 == y) || ('A' <= b && b <= 'Z' && y + 32 == x)
}

/// Compares two header names without regard to ASCII case.
pub fn name_matches(a: &str, b: &str) -> (r: bool)
    ensures
        r == names_match(a@, b@),
{
    let n = a.unicode_len();
    if n != b.unicode_len() {
        return false;
    }
    let mut i: usize = 0;
    while i < n
        invariant
            n == a@.len(),
            n == b@.len(),
            i <= n,
            forall|j: int| 0 <= j < i ==> char_eq_ignore_case(#[trigger] a@[j], b@[j]),
        decreases n - i,
    {
        if !char_matches(a.get_char(i), b.get_char(i)) {
            return false;
        }
        i = i + 1;
    }
    true
}

/// Tells whether a header name is one of the hop-by-hop headers, in any casing.
pub fn hop_by_hop(name: &str) -> (r: bool)
    ensures
        r == is_hop_by_hop(name@),
{
    name_matches(name, "Connection") || name_matches(name, "Keep-alive") || name_matches(
        name,
        "Public",
    ) || name_matches(name, "Proxy-Authenticate") || name_matches(name, "Transfer-Encoding")
        || name_matches(name, "Upgrade")
}

} // verus!
