//! Validation and normalization of the referral identifier.
//!
//! A raw input is either a bare code or the referral link
//! `https://invite.duolingo.com/<code>`. After stripping the link prefix,
//! the code must be exactly 26 ASCII alphanumeric characters; it is then
//! normalized to uppercase.

use vstd::prelude::*;

use crate::errors::ValidationError;
use crate::text::{has_prefix, starts_with_str, string_from_chars};

verus! {

/// The link prefix recognized in front of a referral code.
pub open spec fn invite_prefix() -> Seq<char> {
    "https://invite.duolingo.com/"@
}

/// True for the characters a referral code may contain: ASCII digits and
/// ASCII letters of either case.
pub open spec fn is_code_char(c: char) -> bool {
    (48 <= c as u32 && c as u32 <= 57) || (65 <= c as u32 && c as u32 <= 90) || (97 <= c as u32
        && c as u32 <= 122)
}

/// ASCII uppercasing of a single character: the 26 lowercase letters map to
/// their uppercase partner, everything else is kept.
pub open spec fn upper_char(c: char) -> char {
    if c == 'a' {
        'A'
    } else if c == 'b' {
        'B'
    } else if c == 'c' {
        'C'
    } else if c == 'd' {
        'D'
    } else if c == 'e' {
        'E'
    } else if c == 'f' {
        'F'
    } else if c == 'g' {
        'G'
    } else if c == 'h' {
        'H'
    } else if c == 'i' {
        'I'
    } else if c == 'j' {
        'J'
    } else if c == 'k' {
        'K'
    } else if c == 'l' {
        'L'
    } else if c == 'm' {
        'M'
    } else if c == 'n' {
        'N'
    } else if c == 'o' {
        'O'
    } else if c == 'p' {
        'P'
    } else if c == 'q' {
        'Q'
    } else if c == 'r' {
        'R'
    } else if c == 's' {
        'S'
    } else if c == 't' {
        'T'
    } else if c == 'u' {
        'U'
    } else if c == 'v' {
        'V'
    } else if c == 'w' {
        'W'
    } else if c == 'x' {
        'X'
    } else if c == 'y' {
        'Y'
    } else if c == 'z' {
        'Z'
    } else {
        c
    }
}

/// How a character and its uppercased partner relate, by code point: a
/// lowercase ASCII letter is shifted down by 32, everything else is kept.
pub proof fn lemma_upper_char(c: char)
    ensures
        97 <= c as u32 && c as u32 <= 122 ==> upper_char(c) as u32 == c as u32 - 32,
        !(97 <= c as u32 && c as u32 <= 122) ==> upper_char(c) == c,
{
    assert(('a' as u32) == 97 && ('b' as u32) == 98 && ('c' as u32) == 99 && ('d' as u32) == 100
        && ('e' as u32) == 101 && ('f' as u32) == 102 && ('g' as u32) == 103 && ('h' as u32) == 104
        && ('i' as u32) == 105 && ('j' as u32) == 106 && ('k' as u32) == 107 && ('l' as u32) == 108
        && ('m' as u32) == 109 && ('n' as u32) == 110 && ('o' as u32) == 111 && ('p' as u32) == 112
        && ('q' as u32) == 113 && ('r' as u32) == 114 && ('s' as u32) == 115 && ('t' as u32) == 116
        && ('u' as u32) == 117 && ('v' as u32) == 118 && ('w' as u32) == 119 && ('x' as u32) == 120
        && ('y' as u32) == 121 && ('z' as u32) == 122);
    assert(('A' as u32) == 65 && ('B' as u32) == 66 && ('C' as u32) == 67 && ('D' as u32) == 68
        && ('E' as u32) == 69 && ('F' as u32) == 70 && ('G' as u32) == 71 && ('H' as u32) == 72
        && ('I' as u32) == 73 && ('J' as u32) == 74 && ('K' as u32) == 75 && ('L' as u32) == 76
        && ('M' as u32) == 77 && ('N' as u32) == 78 && ('O' as u32) == 79 && ('P' as u32) == 80
        && ('Q' as u32) == 81 && ('R' as u32) == 82 && ('S' as u32) == 83 && ('T' as u32) == 84
        && ('U' as u32) == 85 && ('V' as u32) == 86 && ('W' as u32) == 87 && ('X' as u32) == 88
        && ('Y' as u32) == 89 && ('Z' as u32) == 90);
}

/// Uppercases one character, as `upper_char` describes.
pub fn to_upper(c: char) -> (r: char)
    ensures
        r == upper_char(c),
{
    match c {
        'a' => 'A',
        'b' => 'B',
        'c' => 'C',
        'd' => 'D',
        'e' => 'E',
        'f' => 'F',
        'g' => 'G',
        'h' => 'H',
        'i' => 'I',
        'j' => 'J',
        'k' => 'K',
        'l' => 'L',
        'm' => 'M',
        'n' => 'N',
        'o' => 'O',
        'p' => 'P',
        'q' => 'Q',
        'r' => 'R',
        's' => 'S',
        't' => 'T',
        'u' => 'U',
        'v' => 'V',
        'w' => 'W',
        'x' => 'X',
        'y' => 'Y',
        'z' => 'Z',
        _ => c,
    }
}

/// The input with the recognized link prefix stripped, if it carries one.
pub open spec fn strip_invite_prefix(s: Seq<char>) -> Seq<char> {
    if has_prefix(s, invite_prefix()) {
        s.skip(invite_prefix().len() as int)
    } else {
        s
    }
}

/// True for a well-formed bare code: 26 ASCII alphanumeric characters.
pub open spec fn code_chars_ok(s: Seq<char>) -> bool {
    s.len() == 26 && (forall|i: int| 0 <= i < s.len() ==> is_code_char(s[i]))
}

/// Character-wise ASCII uppercasing of a sequence.
pub open spec fn upper_seq(s: Seq<char>) -> Seq<char> {
    s.map_values(|c: char| upper_char(c))
}

/// What normalization returns: the uppercased bare code when the input (after
/// prefix stripping) is a well-formed code, nothing otherwise.
pub open spec fn spec_normalize(s: Seq<char>) -> Option<Seq<char>> {
    if code_chars_ok(strip_invite_prefix(s)) {
        Some(upper_seq(strip_invite_prefix(s)))
    } else {
        None
    }
}

/// A validated referral code: 26 ASCII alphanumeric characters, uppercase.
pub struct ReferralCode {
    code: String,
}

impl View for ReferralCode {
    type V = Seq<char>;

    closed spec fn view(&self) -> Seq<char> {
        self.code@
    }
}

impl ReferralCode {
    /// The invariant every constructed code satisfies: 26 characters, each
    /// an ASCII digit or uppercase letter.
    pub open spec fn wf(&self) -> bool {
        self@.len() == 26 && (forall|i: int|
            0 <= i < self@.len() ==> ((48 <= self@[i] as u32 && self@[i] as u32 <= 57) || (65
                <= self@[i] as u32 && self@[i] as u32 <= 90)))
    }

    /// Read access to the validated code.
    pub fn as_str(&self) -> (r: &str)
        ensures
            r@ == self@,
    {
        self.code.as_str()
    }

    /// Gives up the wrapper and hands the validated code back as a string.
    pub fn into_string(self) -> (r: String)
        ensures
            r@ == self@,
    {
        self.code
    }

    /// A copy of the validated code.
    pub fn duplicate(&self) -> (r: ReferralCode)
        ensures
            r@ == self@,
            r.wf() == self.wf(),
    {
        ReferralCode { code: self.code.clone() }
    }
}

/// Validates a raw referral code or link and normalizes it to the uppercase
/// bare code. Fails exactly when the input, after stripping the recognized
/// link prefix, is not 26 ASCII alphanumeric characters.
pub fn normalize(raw: &str) -> (r: Result<ReferralCode, ValidationError>)
    ensures
        match r {
            Ok(c) => spec_normalize(raw@) == Some(c@) && c.wf(),
            Err(e) => spec_normalize(raw@) is None && e == ValidationError::InvalidCode,
        },
{
    let n = raw.unicode_len();
    let prefix: &str = "https://invite.duolingo.com/";
    let plen = prefix.unicode_len();
    let stripped_start: usize = if starts_with_str(raw, prefix) {
        plen
    } else {
        0
    };
    proof {
        assert(strip_invite_prefix(raw@) =~= raw@.skip(stripped_start as int));
    }
    if n - stripped_start != 26 {
        assert(strip_invite_prefix(raw@).len() != 26);
        return Err(ValidationError::InvalidCode);
    }
    let mut out: Vec<char> = Vec::new();
    let mut i: usize = stripped_start;
    while i < n
        invariant
            stripped_start <= i <= n,
            n == raw@.len(),
            n - stripped_start == 26,
            strip_invite_prefix(raw@) =~= raw@.skip(stripped_start as int),
            forall|j: int| stripped_start <= j < i ==> is_code_char(raw@[j]),
            out@ =~= raw@.subrange(stripped_start as int, i as int).map_values(
                |c: char| upper_char(c),
            ),
        decreases n - i,
    {
        let c = raw.get_char(i);
        let u = c as u32;
        if !((48 <= u && u <= 57) || (65 <= u && u <= 90) || (97 <= u && u <= 122)) {
            proof {
                assert(!is_code_char(strip_invite_prefix(raw@)[i - stripped_start]));
            }
            return Err(ValidationError::InvalidCode);
        }
        let up: char = to_upper(c);
        proof {
            assert(raw@.subrange(stripped_start as int, i + 1) =~= raw@.subrange(
                stripped_start as int,
                i as int,
            ).push(raw@[i as int]));
        }
        out.push(up);
        proof {
            assert(out@ =~= raw@.subrange(stripped_start as int, i + 1).map_values(
                |c: char| upper_char(c),
            ));
        }
        i += 1;
    }
    proof {
        assert(code_chars_ok(strip_invite_prefix(raw@)));
        assert(raw@.subrange(stripped_start as int, n as int) =~= strip_invite_prefix(raw@));
        assert(out@ =~= upper_seq(strip_invite_prefix(raw@)));
    }
    let code = ReferralCode { code: string_from_chars(out) };
    proof {
        assert forall|j: int| 0 <= j < code@.len() implies ((48 <= code@[j] as u32
            && code@[j] as u32 <= 57) || (65 <= code@[j] as u32 && code@[j] as u32 <= 90)) by {
            let s = strip_invite_prefix(raw@);
            let c = s[j];
            assert(code@ == upper_seq(s));
            assert(code@[j] == upper_char(c));
            assert(is_code_char(c));
            lemma_upper_char(c);
        }
    }
    Ok(code)
}

/// Every well-formed bare code normalizes to its uppercased self, with the
/// length unchanged; in particular a valid input is never rejected.
pub proof fn lemma_normalize_accepts_valid(s: Seq<char>)
    requires
        code_chars_ok(s),
    ensures
        spec_normalize(s) == Some(upper_seq(s)),
        upper_seq(s).len() == s.len(),
{
    reveal_strlit("https://invite.duolingo.com/");
    assert(!has_prefix(s, invite_prefix()));
    assert(strip_invite_prefix(s) == s);
}

/// An input that carries no link prefix and is not a well-formed bare code
/// (wrong length, or a character outside ASCII alphanumerics) is rejected.
pub proof fn lemma_normalize_rejects_invalid(s: Seq<char>)
    requires
        !has_prefix(s, invite_prefix()),
        s.len() != 26 || (exists|i: int| 0 <= i < s.len() && !is_code_char(s[i])),
    ensures
        spec_normalize(s) is None,
{
    assert(strip_invite_prefix(s) == s);
}

/// Normalizing a referral link is the same as normalizing the bare code the
/// link carries, as long as the code does not itself start with the link
/// prefix.
pub proof fn lemma_normalize_link_same_as_code(code: Seq<char>)
    requires
        !has_prefix(code, invite_prefix()),
    ensures
        spec_normalize(invite_prefix() + code) == spec_normalize(code),
{
    let s = invite_prefix() + code;
    assert(s.subrange(0, invite_prefix().len() as int) =~= invite_prefix());
    assert(has_prefix(s, invite_prefix()));
    assert(s.skip(invite_prefix().len() as int) =~= code);
    assert(strip_invite_prefix(s) == code);
    assert(strip_invite_prefix(code) == code);
}

} // verus!
