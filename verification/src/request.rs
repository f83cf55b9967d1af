//! Building the CONNECT request that opens the tunnel: the request line,
//! the optional `Proxy-Authorization: Basic` header carrying a base64
//! credential, and the terminating blank line.

use vstd::prelude::*;

verus! {

/// What `base64`'s standard padded engine produces for a byte sequence.
/// The encoding is a function of the input bytes alone.
pub uninterp spec fn base64_of(bytes: Seq<u8>) -> Seq<char>;

/// Relies on `base64::Engine::encode` with the standard padded alphabet
/// (`BASE64_STANDARD`): the result depends on the input bytes alone and
/// holds four characters for every three input bytes, rounded up. The
/// length bound on the input keeps the output length computation inside
/// `encode` from overflowing, which would make it panic.
#[verifier::external_body]
fn base64_encode(bytes: &Vec<u8>) -> (r: String)
    requires
        bytes@.len() <= usize::MAX / 4,
    ensures
        r@ == base64_of(bytes@),
        r@.len() == 4 * ((bytes@.len() + 2) / 3),
{
    base64::Engine::encode(&base64::prelude::BASE64_STANDARD, bytes)
}

/// Relies on `base64::Engine::decode` with the standard padded alphabet:
/// decoding inverts encoding, so a string that is exactly the encoding of
/// some byte sequence decodes back to that sequence.
#[verifier::external_body]
fn base64_decode(encoded: &str) -> (r: Option<Vec<u8>>)
    ensures
        r matches Some(d) ==> forall|c: Seq<u8>| encoded@ == base64_of(c) ==> d@ == c,
        r is None ==> forall|c: Seq<u8>| encoded@ != base64_of(c),
{
    match base64::Engine::decode(&base64::prelude::BASE64_STANDARD, encoded) {
        Ok(v) => Some(v),
        Err(_) => None,
    }
}

/// The character for a single decimal digit.
pub open spec fn digit_char(d: nat) -> char {
    if d == 0 {
        '0'
    } else if d == 1 {
        '1'
    } else if d == 2 {
        '2'
    } else if d == 3 {
        '3'
    } else if d == 4 {
        '4'
    } else if d == 5 {
        '5'
    } else if d == 6 {
        '6'
    } else if d == 7 {
        '7'
    } else if d == 8 {
        '8'
    } else {
        '9'
    }
}

/// The decimal digit characters of `n`, most significant first, with no
/// leading zeros (a single `'0'` for zero itself).
pub open spec fn spec_decimal(n: nat) -> Seq<char>
    decreases n,
{
    if n < 10 {
        seq![digit_char(n)]
    } else {
        spec_decimal(n / 10).push(digit_char(n % 10))
    }
}

/// A one-character string slice for a single decimal digit.
fn digit_str(d: u16) -> (s: &'static str)
    requires
        d < 10,
    ensures
        s@ == seq![digit_char(d as nat)],
{
    proof {
        reveal_strlit("0");
        reveal_strlit("1");
        reveal_strlit("2");
        reveal_strlit("3");
        reveal_strlit("4");
        reveal_strlit("5");
        reveal_strlit("6");
        reveal_strlit("7");
        reveal_strlit("8");
        reveal_strlit("9");
    }
    let s = match d {
        0 => "0",
        1 => "1",
        2 => "2",
        3 => "3",
        4 => "4",
        5 => "5",
        6 => "6",
        7 => "7",
        8 => "8",
        _ => "9",
    };
    proof {
        assert(s@ =~= seq![digit_char(d as nat)]);
    }
    s
}

/// Renders a port number in decimal.
pub fn port_decimal(n: u16) -> (s: String)
    ensures
        s@ == spec_decimal(n as nat),
    decreases n,
{
    if n < 10 {
        String::from_str(digit_str(n))
    } else {
        let mut s = port_decimal(n / 10);
        s.append(digit_str(n % 10));
        proof {
            assert(s@ =~= spec_decimal(n as nat));
        }
        s
    }
}

/// The exact CONNECT request for a destination: the request line, the
/// optional `Proxy-Authorization: Basic` header when a credential is
/// given, and the closing blank line, all with CRLF terminators.
pub open spec fn spec_request(host: Seq<char>, port: u16, credential: Option<Seq<u8>>) -> Seq<
    char,
> {
    let line = "CONNECT "@ + host + ":"@ + spec_decimal(port as nat) + " HTTP/1.0\r\n"@;
    let auth = match credential {
        None => Seq::<char>::empty(),
        Some(c) => "Proxy-Authorization: Basic "@ + base64_of(c) + "\r\n"@,
    };
    line + auth + "\r\n"@
}

/// Builds the CONNECT request for `host:port`, carrying `credential`
/// base64-encoded in a `Proxy-Authorization: Basic` header when present.
pub fn build_request(host: &str, port: u16, credential: Option<&Vec<u8>>) -> (r: String)
    requires
        host@.len() > 0,
        credential matches Some(c) ==> c@.len() <= usize::MAX / 4,
    ensures
        credential is None ==> r@ == spec_request(host@, port, None),
        credential matches Some(c) ==> r@ == spec_request(host@, port, Some(c@)),
{
    let mut s = String::from_str("CONNECT ");
    s.append(host);
    s.append(":");
    let digits = port_decimal(port);
    s.append(digits.as_str());
    s.append(" HTTP/1.0\r\n");
    match credential {
        None => {},
        Some(c) => {
            s.append("Proxy-Authorization: Basic ");
            let encoded = base64_encode(c);
            s.append(encoded.as_str());
            s.append("\r\n");
        },
    }
    s.append("\r\n");
    proof {
        match credential {
            None => {
                assert(s@ =~= spec_request(host@, port, None));
            },
            Some(c) => {
                assert(s@ =~= spec_request(host@, port, Some(c@)));
            },
        }
    }
    s
}

/// Decodes a base64 credential string; a string that is exactly what the
/// encoder embeds in a request for some credential bytes decodes back to
/// those bytes (round trip).
pub fn decode_credential(encoded: &str) -> (r: Option<Vec<u8>>)
    ensures
        forall|c: Seq<u8>| encoded@ == base64_of(c) ==> (r matches Some(d) && d@ == c),
{
    base64_decode(encoded)
}

/// Round trip through a whole request: given the destination a request
/// was built for, recovers the credential bytes embedded in it. Whenever
/// `req` is exactly what [`build_request`] produces for `host`, `port`
/// and some credential, the result is that credential.
pub fn recover_credential(req: &str, host: &str, port: u16) -> (r: Option<Vec<u8>>)
    ensures
        forall|c: Seq<u8>|
            req@ == spec_request(host@, port, Some(c)) ==> (r matches Some(d) && d@ == c),
{
    proof {
        reveal_strlit("CONNECT ");
        reveal_strlit(":");
        reveal_strlit(" HTTP/1.0\r\n");
        reveal_strlit("Proxy-Authorization: Basic ");
        reveal_strlit("\r\n");
    }
    let total = req.unicode_len();
    let hlen = host.unicode_len();
    let digits = port_decimal(port);
    let dlen = digits.as_str().unicode_len();
    // In a credential request the fixed pieces hold 51 characters: 47
    // ahead of the credential and the two closing line breaks. A request
    // too short for its own host and port digits embeds no credential.
    if total < 51 || hlen > total - 51 || dlen > total - 51 - hlen {
        proof {
            assert forall|c: Seq<u8>| req@ != spec_request(host@, port, Some(c)) by {
                if req@ == spec_request(host@, port, Some(c)) {
                    assert(req@.len() == 51 + host@.len() + spec_decimal(port as nat).len()
                        + base64_of(c).len());
                }
            }
        }
        return None;
    }
    let start = hlen + dlen + 47;
    let end = total - 4;
    let s = req.substring_char(start, end);
    let r = base64_decode(s);
    proof {
        assert forall|c: Seq<u8>| req@ == spec_request(host@, port, Some(c)) implies (
        r matches Some(d) && d@ == c) by {
            assert(req@.len() == 51 + host@.len() + spec_decimal(port as nat).len()
                + base64_of(c).len());
            assert(s@ =~= base64_of(c));
        }
    }
    r
}

} // verus!
