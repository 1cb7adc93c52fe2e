//! Host and port extraction from request data.
//!
//! The request's URI is parsed by an external collaborator; the caller hands
//! in the plain values read from it (the host slice, the explicit port, the
//! scheme). These functions apply the adaptation layer's own rules: an IPv6
//! host keeps its address but loses the surrounding brackets, and a missing
//! port falls back to the scheme's default.

use vstd::prelude::*;
use vstd::string::StringSliceAdditionalSpecFns;
use vstd::utf8::encode_utf8;
use vstd::utf8::is_char_boundary;

verus! {

/// Why a host or a port cannot be derived from the request.
#[derive(Debug, Clone, Copy, PartialEq, Eq, Structural)]
pub enum UrlFault {
    /// The URI carries no host name.
    NoHostName,
    /// The URI carries no port and its scheme has no default one.
    UnsupportedScheme,
}

/// The host's UTF-8 bytes with surrounding IPv6 brackets removed: when the
/// host starts with `[`, its first and last bytes are dropped (provided both
/// cuts fall on character boundaries); any other host is kept unchanged.
pub open spec fn spec_stripped_host(b: Seq<u8>) -> Seq<u8> {
    if b.len() >= 2 && b[0] == 91u8 && is_char_boundary(b, 1) {
        let rest = b.subrange(1, b.len() as int);
        if is_char_boundary(rest, rest.len() - 1) {
            rest.subrange(0, rest.len() - 1)
        } else {
            b
        }
    } else {
        b
    }
}

/// Derives the domain to connect to from the request URI's host: an IPv6
/// address is freed of the brackets that surround it in a URI (they are not
/// part of the address), every other host is returned as it stands, and a
/// URI without a host is rejected.
pub fn domain(host: Option<&str>) -> (r: Result<String, UrlFault>)
    ensures
        host matches Some(h) ==> (r matches Ok(d) && encode_utf8(d@) == spec_stripped_host(
            encode_utf8(h@),
        )),
        host is None ==> r == Err::<String, UrlFault>(UrlFault::NoHostName),
{
    match host {
        None => Err(UrlFault::NoHostName),
        Some(h) => {
            let ghost b = encode_utf8(h@);
            let bytes = h.as_bytes();
            let n = bytes.len();
            if n >= 2 {
                if bytes[0] == 91u8 && h.is_char_boundary(1) {
                    let (_front, rest) = h.split_at(1);
                    proof {
                        assert(encode_utf8(rest@) =~= b.subrange(1, b.len() as int));
                    }
                    let m = rest.len();
                    if rest.is_char_boundary(m - 1) {
                        let (inner, _back) = rest.split_at(m - 1);
                        proof {
                            assert(encode_utf8(inner@) =~= encode_utf8(rest@).subrange(
                                0,
                                m - 1,
                            ));
                        }
                        return Ok(inner.to_owned());
                    }
                }
            }
            Ok(h.to_owned())
        },
    }
}

/// Derives the port to connect to: an explicit port wins; otherwise the
/// scheme's default applies (443 for `wss`, 80 for `ws`); any other scheme
/// carries no default and is rejected.
pub fn port(explicit: Option<u16>, scheme: Option<&str>) -> (r: Result<u16, UrlFault>)
    ensures
        explicit matches Some(p) ==> r == Ok::<u16, UrlFault>(p),
        explicit is None && scheme is None ==> r == Err::<u16, UrlFault>(UrlFault::UnsupportedScheme),
        explicit is None ==> (scheme matches Some(s) ==> {
            &&& s@ == "wss"@ ==> r == Ok::<u16, UrlFault>(443u16)
            &&& s@ != "wss"@ && s@ == "ws"@ ==> r == Ok::<u16, UrlFault>(80u16)
            &&& s@ != "wss"@ && s@ != "ws"@ ==> r == Err::<u16, UrlFault>(UrlFault::UnsupportedScheme)
        }),
{
    match explicit {
        Some(p) => Ok(p),
        None => match scheme {
            Some(s) => {
                if str_eq(s, "wss") {
                    Ok(443)
                } else if str_eq(s, "ws") {
                    Ok(80)
                } else {
                    Err(UrlFault::UnsupportedScheme)
                }
            },
            None => Err(UrlFault::UnsupportedScheme),
        },
    }
}

/// Byte-wise slice equality.
fn bytes_eq(a: &[u8], b: &[u8]) -> (r: bool)
    ensures
        r <==> a@ == b@,
{
    if a.len() != b.len() {
        return false;
    }
    let mut i: usize = 0;
    while i < a.len()
        invariant
            0 <= i <= a@.len(),
            a@.len() == b@.len(),
            forall|j: int| 0 <= j < i ==> a@[j] == b@[j],
        decreases a@.len() - i,
    {
        if a[i] != b[i] {
            return false;
        }
        i = i + 1;
    }
    proof {
        assert(a@ =~= b@);
    }
    true
}

/// String equality, decided on the UTF-8 bytes; equal byte encodings mean
/// equal character sequences because UTF-8 decoding inverts encoding.
fn str_eq(a: &str, b: &str) -> (r: bool)
    ensures
        r <==> a@ == b@,
{
    let r = bytes_eq(a.as_bytes(), b.as_bytes());
    proof {
        vstd::utf8::encode_utf8_decode_utf8(a@);
        vstd::utf8::encode_utf8_decode_utf8(b@);
    }
    r
}

} // verus!
