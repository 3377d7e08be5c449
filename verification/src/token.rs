//! Extraction of an optional bearer credential from an authorization header.
//!
//! An absent header, a non-bearer scheme, or a malformed credential all
//! degrade to "no token": extraction never fails a request. The accepted
//! shape follows the HTTP authentication header grammar: the scheme `Bearer`,
//! compared without regard to ASCII case, a single space, and a `token68`
//! credential — one or more characters drawn from ASCII letters, digits and
//! `- . _ ~ + /`, followed by any number of trailing `=` characters.

use vstd::prelude::*;

verus! {

/// Whether `b` is a `token68` body character: an ASCII letter, a digit, or
/// one of `- . _ ~ + /`.
pub open spec fn is_token68_byte(b: u8) -> bool {
    (65 <= b && b <= 90)  // A-Z
    || (97 <= b && b <= 122)  // a-z
    || (48 <= b && b <= 57)  // 0-9
    || b == 45  // -
    || b == 46  // .
    || b == 95  // _
    || b == 126  // ~
    || b == 43  // +
    || b == 47  // /
}

/// Whether `s` is a `token68` credential: at least one body character, then
/// nothing but `=` padding; every `=` is followed only by `=`.
pub open spec fn is_token68(s: Seq<u8>) -> bool {
    &&& s.len() > 0
    &&& is_token68_byte(s[0])
    &&& forall|i: int| 0 <= i < s.len() ==> is_token68_byte(s[i]) || s[i] == 61
    &&& forall|i: int, j: int| 0 <= i < j < s.len() && s[i] == 61 ==> s[j] == 61
}

/// The ASCII-lowercase counterpart of a byte.
pub open spec fn spec_ascii_lower(b: u8) -> u8 {
    if 65 <= b && b <= 90 {
        (b + 32) as u8
    } else {
        b
    }
}

/// The bytes of the scheme name `bearer` in lowercase.
pub open spec fn bearer_scheme() -> Seq<u8> {
    seq![98u8, 101u8, 97u8, 114u8, 101u8, 114u8]
}

/// Whether a header value is a well-formed bearer credential: the scheme
/// `Bearer` in any ASCII case, one space, and a `token68` credential.
pub open spec fn is_bearer_header(h: Seq<u8>) -> bool {
    &&& h.len() >= 8
    &&& (forall|i: int| 0 <= i < 6 ==> spec_ascii_lower(h[i]) == bearer_scheme()[i])
    &&& h[6] == 32
    &&& is_token68(h.skip(7))
}

/// The sequence of bytes an optional header value holds.
pub open spec fn header_view(h: Option<&[u8]>) -> Option<Seq<u8>> {
    match h {
        Some(v) => Some(v@),
        None => None,
    }
}

/// The credential a header value carries: the `token68` part of a well-formed
/// bearer header, and nothing otherwise.
pub open spec fn spec_extract_bearer(h: Option<Seq<u8>>) -> Option<Seq<u8>> {
    match h {
        Some(v) => if is_bearer_header(v) {
            Some(v.skip(7))
        } else {
            None
        },
        None => None,
    }
}

/// Lowercases one ASCII byte.
fn ascii_lower(b: u8) -> (r: u8)
    ensures
        r == spec_ascii_lower(b),
{
    if 65 <= b && b <= 90 {
        b + 32
    } else {
        b
    }
}

/// Whether `b` is a `token68` body character.
fn token68_byte(b: u8) -> (r: bool)
    ensures
        r == is_token68_byte(b),
{
    (65 <= b && b <= 90) || (97 <= b && b <= 122) || (48 <= b && b <= 57) || b == 45 || b == 46
        || b == 95 || b == 126 || b == 43 || b == 47
}

/// Pulls the optional bearer credential out of an optional authorization
/// header value. An absent header, a non-bearer scheme, and malformed
/// credential syntax all yield no token; extraction has no failure case.
pub fn extract_bearer(header: Option<&[u8]>) -> (t: Option<Vec<u8>>)
    ensures
        t is Some <==> spec_extract_bearer(header_view(header)) is Some,
        t is Some ==> t->0@ == spec_extract_bearer(header_view(header))->0,
{
    let h = match header {
        Some(h) => h,
        None => {
            return None;
        },
    };
    if h.len() < 8 {
        return None;
    }
    let mut i: usize = 0;
    while i < 6
        invariant
            0 <= i <= 6,
            h@.len() >= 8,
            header_view(header) == Some(h@),
            forall|k: int| 0 <= k < i ==> spec_ascii_lower(h@[k]) == bearer_scheme()[k],
        decreases 6 - i,
    {
        let expected: u8 = if i == 0 {
            98
        } else if i == 1 {
            101
        } else if i == 2 {
            97
        } else if i == 3 {
            114
        } else if i == 4 {
            101
        } else {
            114
        };
        if ascii_lower(h[i]) != expected {
            proof {
                assert(spec_ascii_lower(h@[i as int]) != bearer_scheme()[i as int]);
            }
            return None;
        }
        i += 1;
    }
    if h[6] != 32 {
        return None;
    }
    let ghost cred = h@.skip(7);
    if !token68_byte(h[7]) {
        proof {
            assert(cred[0] == h@[7]);
        }
        return None;
    }
    let mut out: Vec<u8> = Vec::new();
    out.push(h[7]);
    let mut j: usize = 8;
    let mut seen_pad = false;
    while j < h.len()
        invariant
            8 <= j <= h@.len(),
            h@.len() >= 8,
            header_view(header) == Some(h@),
            cred == h@.skip(7),
            out@ =~= cred.take(j - 7),
            is_token68_byte(cred[0]),
            forall|k: int| 0 <= k < j - 7 ==> is_token68_byte(cred[k]) || cred[k] == 61,
            seen_pad == exists|k: int| 0 <= k < j - 7 && cred[k] == 61,
            forall|k: int, l: int| 0 <= k < l < j - 7 && cred[k] == 61 ==> cred[l] == 61,
        decreases h.len() - j,
    {
        let b = h[j];
        proof {
            assert(cred[j - 7] == h@[j as int]);
        }
        if b == 61 {
            seen_pad = true;
        } else if seen_pad || !token68_byte(b) {
            proof {
                if seen_pad {
                    let k = choose|k: int| 0 <= k < j - 7 && cred[k] == 61;
                    assert(cred[k] == 61 && cred[j - 7] != 61);
                } else {
                    assert(!is_token68_byte(cred[j - 7]) && cred[j - 7] != 61);
                }
            }
            return None;
        }
        out.push(b);
        j += 1;
    }
    proof {
        assert(out@ =~= cred);
        assert(is_token68(cred));
        assert(is_bearer_header(h@));
    }
    Some(out)
}

/// A request that carries no authorization header yields no token — absence
/// is not an extraction error, and the policy request then names a null
/// token.
pub proof fn lemma_absent_header_yields_no_token()
    ensures
        spec_extract_bearer(None) is None,
{
}

} // verus!
