//! The device's challenge-response login arithmetic and the session-info
//! document it answers with.
//!
//! The login endpoint hands out a challenge token; the client must answer
//! with `challenge + "-" + hex(md5(utf16le(challenge + "-" + password)))`.
//! The UTF-16LE encoding and the lowercase hex rendering are fixed by the
//! device's protocol, as is the use of MD5.

use vstd::prelude::*;
use vstd::string::StrSliceExecFns;
use crate::text::{chars_vec, copy_range, find_from, first_match_from, string_from_chars};

verus! {

/// The UTF-16 little-endian encoding of one character: one code unit below
/// `0x10000`, a surrogate pair above, each unit as two bytes, low byte first.
pub open spec fn utf16le_char(c: char) -> Seq<u8> {
    let u = c as u32;
    if u < 0x10000 {
        seq![(u % 256) as u8, ((u / 256) % 256) as u8]
    } else {
        let v = u - 0x10000;
        let hi = 0xD800 + v / 0x400;
        let lo = 0xDC00 + v % 0x400;
        seq![
            (hi % 256) as u8,
            ((hi / 256) % 256) as u8,
            (lo % 256) as u8,
            ((lo / 256) % 256) as u8,
        ]
    }
}

/// The UTF-16 little-endian encoding of a character sequence.
pub open spec fn utf16le(s: Seq<char>) -> Seq<u8>
    decreases s.len(),
{
    if s.len() == 0 {
        Seq::empty()
    } else {
        utf16le(s.drop_last()) + utf16le_char(s.last())
    }
}

/// Appends the UTF-16LE encoding of one character.
fn push_utf16le_char(c: char, out: &mut Vec<u8>)
    ensures
        final(out)@ == old(out)@ + utf16le_char(c),
{
    let u = c as u32;
    if u < 0x10000 {
        out.push((u % 256) as u8);
        out.push(((u / 256) % 256) as u8);
        proof {
            assert(out@ =~= old(out)@ + utf16le_char(c));
        }
    } else {
        let v = u - 0x10000;
        let hi = 0xD800 + v / 0x400;
        let lo = 0xDC00 + v % 0x400;
        out.push((hi % 256) as u8);
        out.push(((hi / 256) % 256) as u8);
        out.push((lo % 256) as u8);
        out.push(((lo / 256) % 256) as u8);
        proof {
            assert(out@ =~= old(out)@ + utf16le_char(c));
        }
    }
}

/// The UTF-16LE encoding of the characters, as a byte vector.
pub fn utf16le_bytes(s: &Vec<char>) -> (r: Vec<u8>)
    ensures
        r@ == utf16le(s@),
{
    let mut out: Vec<u8> = Vec::new();
    let mut i: usize = 0;
    while i < s.len()
        invariant
            i <= s@.len(),
            out@ == utf16le(s@.subrange(0, i as int)),
        decreases s@.len() - i,
    {
        push_utf16le_char(s[i], &mut out);
        proof {
            assert(s@.subrange(0, i + 1 as int).drop_last() =~= s@.subrange(0, i as int));
            assert(s@.subrange(0, i + 1 as int).last() == s@[i as int]);
        }
        i = i + 1;
    }
    proof {
        assert(s@.subrange(0, s@.len() as int) =~= s@);
    }
    out
}

/// The lowercase hex character for a value below sixteen.
pub open spec fn hex_digit_char(d: int) -> char {
    if d < 10 {
        ((48 + d) as u8) as char
    } else {
        ((87 + d) as u8) as char
    }
}

/// The lowercase hex rendering of a byte sequence, two characters per byte.
pub open spec fn hex_of(bytes: Seq<u8>) -> Seq<char>
    decreases bytes.len(),
{
    if bytes.len() == 0 {
        Seq::empty()
    } else {
        hex_of(bytes.drop_last())
            + seq![
            hex_digit_char(bytes.last() as int / 16),
            hex_digit_char(bytes.last() as int % 16),
        ]
    }
}

fn hex_digit(d: u8) -> (r: char)
    requires
        d < 16,
    ensures
        r == hex_digit_char(d as int),
{
    if d < 10 {
        (48 + d) as char
    } else {
        (87 + d) as char
    }
}

/// The lowercase hex rendering of the bytes, as characters.
pub fn hex_chars(bytes: &Vec<u8>) -> (r: Vec<char>)
    ensures
        r@ == hex_of(bytes@),
{
    let mut out: Vec<char> = Vec::new();
    let mut i: usize = 0;
    while i < bytes.len()
        invariant
            i <= bytes@.len(),
            out@ == hex_of(bytes@.subrange(0, i as int)),
        decreases bytes@.len() - i,
    {
        let b = bytes[i];
        out.push(hex_digit(b / 16));
        out.push(hex_digit(b % 16));
        proof {
            assert(bytes@.subrange(0, i + 1 as int).drop_last() =~= bytes@.subrange(0, i as int));
            assert(bytes@.subrange(0, i + 1 as int).last() == bytes@[i as int]);
            assert(out@ =~= hex_of(bytes@.subrange(0, i + 1 as int)));
        }
        i = i + 1;
    }
    proof {
        assert(bytes@.subrange(0, bytes@.len() as int) =~= bytes@);
    }
    out
}

/// The MD5 digest of a byte sequence, a function of the data alone.
pub uninterp spec fn md5_of(data: Seq<u8>) -> Seq<u8>;

/// Relies on `md5::compute`: the sixteen-byte MD5 digest of the input,
/// which depends on the input bytes alone.
#[verifier::external_body]
fn md5_digest(data: &Vec<u8>) -> (r: Vec<u8>)
    ensures
        r@ == md5_of(data@),
        r@.len() == 16,
{
    md5::compute(data.as_slice()).0.to_vec()
}

/// The login response for a challenge and password:
/// `challenge + "-" + hex(md5(utf16le(challenge + "-" + password)))`.
pub open spec fn sp_response(challenge: Seq<char>, password: Seq<char>) -> Seq<char> {
    challenge + seq!['-'] + hex_of(md5_of(utf16le(challenge + seq!['-'] + password)))
}

/// Computes the challenge response to submit to the login endpoint.
pub fn compute_response(challenge: &str, password: &str) -> (r: String)
    ensures
        r@ == sp_response(challenge@, password@),
{
    let mut input = chars_vec(challenge);
    input.push('-');
    let mut pw = chars_vec(password);
    input.append(&mut pw);
    proof {
        assert(input@ =~= challenge@ + seq!['-'] + password@);
    }
    let encoded = utf16le_bytes(&input);
    let digest = md5_digest(&encoded);
    let hx = hex_chars(&digest);
    let mut out = chars_vec(challenge);
    out.push('-');
    let mut hx2 = hx;
    out.append(&mut hx2);
    proof {
        assert(out@ =~= sp_response(challenge@, password@));
    }
    string_from_chars(&out)
}

/// Law: the login response hash is deterministic — it depends on the
/// challenge token and the password alone, so equal inputs yield the same
/// response, character for character.
pub proof fn lemma_response_deterministic(
    c1: Seq<char>,
    p1: Seq<char>,
    c2: Seq<char>,
    p2: Seq<char>,
)
    requires
        c1 == c2,
        p1 == p2,
    ensures
        sp_response(c1, p1) == sp_response(c2, p2),
{
}

/// The fields of the login endpoint's session-info answer.
pub struct SessionInfo {
    pub sid: String,
    pub challenge: String,
}

/// The text between the first occurrence of `open_tag` and the next
/// occurrence of `close_tag` after it, if both are present.
pub open spec fn sp_tag_content(
    s: Seq<char>,
    open_tag: Seq<char>,
    close_tag: Seq<char>,
) -> Option<Seq<char>> {
    match first_match_from(s, open_tag, 0) {
        None => None,
        Some(i) => {
            let st = i + open_tag.len();
            if !(0 <= st <= s.len()) {
                None
            } else {
                match first_match_from(s, close_tag, st) {
                    None => None,
                    Some(j) => if st <= j <= s.len() {
                        Some(s.subrange(st, j))
                    } else {
                        None
                    },
                }
            }
        },
    }
}

/// The session id and challenge of a session-info document: the contents of
/// its first `SID` and `Challenge` elements.
pub open spec fn sp_session_info(s: Seq<char>) -> Option<(Seq<char>, Seq<char>)> {
    match (sp_tag_content(s, "<SID>"@, "</SID>"@), sp_tag_content(
        s,
        "<Challenge>"@,
        "</Challenge>"@,
    )) {
        (Some(sid), Some(ch)) => Some((sid, ch)),
        _ => None,
    }
}

fn extract_tag(cs: &Vec<char>, open_tag: &str, close_tag: &str) -> (r: Option<Vec<char>>)
    ensures
        match r {
            Some(v) => sp_tag_content(cs@, open_tag@, close_tag@) == Some(v@),
            None => sp_tag_content(cs@, open_tag@, close_tag@) is None,
        },
{
    let n = cs.len();
    match find_from(cs, open_tag, 0) {
        None => None,
        Some(i) => {
            let m = open_tag.unicode_len();
            proof {
                assert(i + m <= n);
            }
            let st = i + m;
            match find_from(cs, close_tag, st) {
                None => None,
                Some(j) => Some(copy_range(cs, st, j)),
            }
        },
    }
}

/// Reads the session id and challenge out of a session-info document.
pub fn parse_session_info(body: &str) -> (r: Option<SessionInfo>)
    ensures
        match r {
            Some(info) => sp_session_info(body@) == Some((info.sid@, info.challenge@)),
            None => sp_session_info(body@) is None,
        },
{
    let cs = chars_vec(body);
    let sid = extract_tag(&cs, "<SID>", "</SID>");
    let ch = extract_tag(&cs, "<Challenge>", "</Challenge>");
    match (sid, ch) {
        (Some(s), Some(c)) => Some(
            SessionInfo { sid: string_from_chars(&s), challenge: string_from_chars(&c) },
        ),
        _ => None,
    }
}

} // verus!
