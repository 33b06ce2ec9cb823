//! Resolution of the referrer's identity and remaining reward quota.
//!
//! The service answers the referral-redirect call with a `Location` header.
//! That header is a URL whose query string is percent-escaped one level
//! deeper than usual: the separators of the inner parameters arrive as
//! `%26` and `%3D`. The parser here reverses that one level of escaping and
//! reads the `inviter_id` parameter out of the query string.

use vstd::prelude::*;

use crate::errors::TransportError;
use crate::text::{
    chars_eq, has_prefix, slice_chars, starts_with_str, str_to_chars, string_from_chars,
};

verus! {

/// The index of the first occurrence of `c` in `s` at or after `from`, or
/// the length of `s` when there is none.
pub open spec fn find_from(s: Seq<char>, c: char, from: nat) -> nat
    decreases s.len() - from,
{
    if from >= s.len() {
        s.len()
    } else if s[from as int] == c {
        from
    } else {
        find_from(s, c, from + 1)
    }
}

/// Finds the first occurrence of `c` in `v` at or after `from`.
pub fn find_char(v: &Vec<char>, c: char, from: usize) -> (r: usize)
    requires
        from <= v@.len(),
    ensures
        r == find_from(v@, c, from as nat),
        r <= v@.len(),
{
    let mut i: usize = from;
    while i < v.len()
        invariant
            from <= i <= v@.len(),
            find_from(v@, c, from as nat) == find_from(v@, c, i as nat),
        decreases v@.len() - i,
    {
        if v[i] == c {
            return i;
        }
        i += 1;
    }
    i
}

/// Reverses one level of percent-escaping: `%26` becomes `&` and `%3D`
/// becomes `=`; every other character is kept.
pub open spec fn decode_once(q: Seq<char>) -> Seq<char>
    decreases q.len(),
{
    if q.len() == 0 {
        Seq::empty()
    } else if q.len() >= 3 && q[0] == '%' && q[1] == '2' && q[2] == '6' {
        seq!['&'] + decode_once(q.skip(3))
    } else if q.len() >= 3 && q[0] == '%' && q[1] == '3' && q[2] == 'D' {
        seq!['='] + decode_once(q.skip(3))
    } else {
        seq![q[0]] + decode_once(q.skip(1))
    }
}

/// Decodes one level of escaping in `v` from position `from` on, as
/// `decode_once` describes.
pub fn decode_escapes(v: &Vec<char>, from: usize) -> (r: Vec<char>)
    requires
        from <= v@.len(),
    ensures
        r@ == decode_once(v@.skip(from as int)),
{
    let mut out: Vec<char> = Vec::new();
    let mut i: usize = from;
    while i < v.len()
        invariant
            from <= i <= v@.len(),
            decode_once(v@.skip(from as int)) =~= out@ + decode_once(v@.skip(i as int)),
        decreases v@.len() - i,
    {
        let ghost pre = v@.skip(i as int);
        proof {
            assert(pre.len() == v@.len() - i);
            assert(forall|k: int| 0 <= k < pre.len() ==> pre[k] == v@[i + k]);
        }
        if v.len() - i >= 3 && v[i] == '%' && v[i + 1] == '2' && v[i + 2] == '6' {
            out.push('&');
            proof {
                assert(decode_once(pre) == seq!['&'] + decode_once(pre.skip(3)));
                assert(pre.skip(3) =~= v@.skip(i + 3));
            }
            i += 3;
        } else if v.len() - i >= 3 && v[i] == '%' && v[i + 1] == '3' && v[i + 2] == 'D' {
            out.push('=');
            proof {
                assert(decode_once(pre) == seq!['='] + decode_once(pre.skip(3)));
                assert(pre.skip(3) =~= v@.skip(i + 3));
            }
            i += 3;
        } else {
            out.push(v[i]);
            proof {
                assert(decode_once(pre) == seq![pre[0]] + decode_once(pre.skip(1)));
                assert(pre.skip(1) =~= v@.skip(i + 1));
            }
            i += 1;
        }
    }
    proof {
        assert(decode_once(v@.skip(i as int)) =~= Seq::<char>::empty());
        assert(out@ + Seq::<char>::empty() =~= out@);
    }
    out
}

/// Looks `key` up in a query string of `key=value` pairs separated by `&`.
/// The value of the first pair whose key part matches is returned; a pair
/// without `=` never matches.
pub open spec fn lookup_param(q: Seq<char>, key: Seq<char>) -> Option<Seq<char>>
    decreases q.len(),
{
    let amp = find_from(q, '&', 0);
    let pair = q.take(amp as int);
    let eq = find_from(pair, '=', 0);
    if eq < pair.len() && pair.take(eq as int) == key {
        Some(pair.skip(eq as int + 1))
    } else if amp < q.len() {
        lookup_param(q.skip(amp as int + 1), key)
    } else {
        None
    }
}

/// Looks `key` up in the query string `q`, as `lookup_param` describes.
#[verifier::loop_isolation(false)]
pub fn lookup_param_vec(q: Vec<char>, key: &Vec<char>) -> (r: Option<Vec<char>>)
    ensures
        match r {
            Some(v) => lookup_param(q@, key@) == Some(v@),
            None => lookup_param(q@, key@) is None,
        },
{
    let ghost q0 = q@;
    let mut cur = q;
    loop
        invariant
            lookup_param(q0, key@) == lookup_param(cur@, key@),
        decreases cur@.len(),
    {
        let amp = find_char(&cur, '&', 0);
        let pair = slice_chars(&cur, 0, amp);
        proof {
            assert(pair@ =~= cur@.take(amp as int));
        }
        let eq = find_char(&pair, '=', 0);
        if eq < pair.len() {
            let k = slice_chars(&pair, 0, eq);
            proof {
                assert(k@ =~= pair@.take(eq as int));
            }
            if chars_eq(&k, key) {
                let value = slice_chars(&pair, eq + 1, pair.len());
                proof {
                    assert(value@ =~= pair@.skip(eq as int + 1));
                }
                return Some(value);
            }
        }
        if amp < cur.len() {
            let rest = slice_chars(&cur, amp + 1, cur.len());
            proof {
                assert(rest@ =~= cur@.skip(amp as int + 1));
            }
            cur = rest;
        } else {
            return None;
        }
    }
}

/// The query-string key under which the redirect carries the referrer's
/// identity.
pub open spec fn inviter_key() -> Seq<char> {
    "inviter_id"@
}

/// The URL shape the parser accepts for a redirect target.
pub open spec fn is_url_shaped(s: Seq<char>) -> bool {
    has_prefix(s, "https://"@) || has_prefix(s, "http://"@)
}

/// What referrer resolution returns for a `Location` header value: the
/// `inviter_id` parameter of the once-unescaped query string, provided the
/// value is URL-shaped and carries a query string at all.
pub open spec fn spec_referrer_id(s: Seq<char>) -> Option<Seq<char>> {
    if is_url_shaped(s) && find_from(s, '?', 0) < s.len() {
        lookup_param(decode_once(s.skip(find_from(s, '?', 0) as int + 1)), inviter_key())
    } else {
        None
    }
}

/// Extracts the referrer's identity from the value of the redirect's
/// `Location` header. Fails exactly when the header is not a URL, has no
/// query string, or its query string lacks `inviter_id`.
pub fn resolve_referrer_id(location: &str) -> (r: Result<String, TransportError>)
    ensures
        match r {
            Ok(id) => spec_referrer_id(location@) == Some(id@),
            Err(e) => spec_referrer_id(location@) is None && e
                == TransportError::MalformedRedirect,
        },
{
    let shaped = starts_with_str(location, "https://") || starts_with_str(location, "http://");
    if !shaped {
        return Err(TransportError::MalformedRedirect);
    }
    let v = str_to_chars(location);
    let qpos = find_char(&v, '?', 0);
    if qpos == v.len() {
        return Err(TransportError::MalformedRedirect);
    }
    let decoded = decode_escapes(&v, qpos + 1);
    let key = str_to_chars("inviter_id");
    match lookup_param_vec(decoded, &key) {
        Some(value) => Ok(string_from_chars(value)),
        None => Err(TransportError::MalformedRedirect),
    }
}

/// Decides what the redirect response means as a whole: a missing
/// `Location` header is its own failure, any present header value goes
/// through `resolve_referrer_id`.
pub fn referrer_id_from_location(location: Option<&str>) -> (r: Result<String, TransportError>)
    ensures
        match location {
            None => r == Err::<String, TransportError>(TransportError::MissingRedirect),
            Some(s) => match r {
                Ok(id) => spec_referrer_id(s@) == Some(id@),
                Err(e) => spec_referrer_id(s@) is None && e == TransportError::MalformedRedirect,
            },
        },
{
    match location {
        Some(s) => resolve_referrer_id(s),
        None => Err(TransportError::MissingRedirect),
    }
}

/// The referrer's remaining reward units, as the service reported them at
/// one point in time.
pub struct InviteQuota {
    pub weeks: u32,
}

/// Decides what the reward-status response means: a non-2xx status is
/// rejected, a body whose count could not be decoded is malformed, and
/// otherwise the reported count is the quota.
pub fn quota_from_response(status: u16, weeks: Option<u32>) -> (r: Result<
    InviteQuota,
    TransportError,
>)
    ensures
        r is Ok <==> (crate::duo_api::is_success_status(status) && weeks is Some),
        match r {
            Ok(q) => crate::duo_api::is_success_status(status) && weeks == Some(q.weeks),
            Err(e) => {
                &&& (e == TransportError::RemoteRejected <==> !crate::duo_api::is_success_status(
                    status,
                ))
                &&& (e == TransportError::MalformedResponse <==> crate::duo_api::is_success_status(
                    status,
                ) && weeks is None)
            },
        },
{
    if !(200 <= status && status < 300) {
        return Err(TransportError::RemoteRejected);
    }
    match weeks {
        Some(w) => Ok(InviteQuota { weeks: w }),
        None => Err(TransportError::MalformedResponse),
    }
}

} // verus!
