//! The signature scanner: wildcardable byte and bit templates matched
//! against a raw memory region.
//!
//! A pattern is a non-empty sequence of tokens, each a mask/value pair: a
//! region byte matches a token when its bits under the mask equal the value.
//! A byte template writes each token as two hex digits or as a wildcard
//! (`?` or `??`); a bit template writes each token as eight characters of
//! `0`, `1` and `.`, with `.` leaving that bit unconstrained. Scanning is a
//! single left-to-right pass over the region: the first window where every
//! token matches wins.
use vstd::prelude::*;

verus! {

/// One position of a pattern: the region byte at that position matches when
/// its bits under `mask` equal `value`.
#[derive(Clone, Copy, Debug, PartialEq, Eq, Structural)]
pub struct PatternToken {
    pub mask: u8,
    pub value: u8,
}

/// A token that any byte matches.
pub open spec fn wildcard_token() -> PatternToken {
    PatternToken { mask: 0, value: 0 }
}

/// Whether the byte `b` matches the token `t`.
pub open spec fn token_matches(t: PatternToken, b: u8) -> bool {
    b & t.mask == t.value
}

/// Whether every token of `toks` matches the region at window offset `o`.
pub open spec fn matches_at(region: Seq<u8>, toks: Seq<PatternToken>, o: int) -> bool {
    &&& 0 <= o
    &&& o + toks.len() <= region.len()
    &&& forall|k: int| 0 <= k < toks.len() ==> token_matches(toks[k], region[o + k])
}

/// Whether `o` is the first window offset at which `toks` matches `region`.
pub open spec fn is_first_match(region: Seq<u8>, toks: Seq<PatternToken>, o: int) -> bool {
    &&& matches_at(region, toks, o)
    &&& forall|p: int| 0 <= p < o ==> !matches_at(region, toks, p)
}

/// The value of a hex digit, if `c` is one.
pub open spec fn hex_val(c: char) -> Option<u8> {
    if c == '0' {
        Some(0u8)
    } else if c == '1' {
        Some(1u8)
    } else if c == '2' {
        Some(2u8)
    } else if c == '3' {
        Some(3u8)
    } else if c == '4' {
        Some(4u8)
    } else if c == '5' {
        Some(5u8)
    } else if c == '6' {
        Some(6u8)
    } else if c == '7' {
        Some(7u8)
    } else if c == '8' {
        Some(8u8)
    } else if c == '9' {
        Some(9u8)
    } else if c == 'a' || c == 'A' {
        Some(10u8)
    } else if c == 'b' || c == 'B' {
        Some(11u8)
    } else if c == 'c' || c == 'C' {
        Some(12u8)
    } else if c == 'd' || c == 'D' {
        Some(13u8)
    } else if c == 'e' || c == 'E' {
        Some(14u8)
    } else if c == 'f' || c == 'F' {
        Some(15u8)
    } else {
        None
    }
}

/// The byte-template grammar, read from position `i`: tokens are separated
/// by spaces, and each is either a wildcard (`?` or `??`) or two hex digits.
pub open spec fn parse_bytes_from(s: Seq<char>, i: int) -> Option<Seq<PatternToken>>
    decreases s.len() - i,
{
    if i < 0 || i >= s.len() {
        Some(Seq::empty())
    } else if s[i] == ' ' {
        parse_bytes_from(s, i + 1)
    } else if s[i] == '?' {
        if i + 1 < s.len() && s[i + 1] == '?' {
            if i + 2 == s.len() || s[i + 2] == ' ' {
                match parse_bytes_from(s, i + 2) {
                    Some(rest) => Some(rest.insert(0, wildcard_token())),
                    None => None,
                }
            } else {
                None
            }
        } else if i + 1 == s.len() || s[i + 1] == ' ' {
            match parse_bytes_from(s, i + 1) {
                Some(rest) => Some(rest.insert(0, wildcard_token())),
                None => None,
            }
        } else {
            None
        }
    } else if hex_val(s[i]) is Some {
        if i + 1 < s.len() && hex_val(s[i + 1]) is Some && (i + 2 == s.len() || s[i + 2] == ' ') {
            match parse_bytes_from(s, i + 2) {
                Some(rest) => Some(
                    rest.insert(
                        0,
                        PatternToken {
                            mask: 0xFF,
                            value: (hex_val(s[i]).unwrap() * 16 + hex_val(
                                s[i + 1],
                            ).unwrap()) as u8,
                        },
                    ),
                ),
                None => None,
            }
        } else {
            None
        }
    } else {
        None
    }
}

/// The bit weight of position `k` within a bit-template token, most
/// significant bit first.
pub open spec fn bit_at(k: int) -> u8 {
    if k == 0 {
        0x80u8
    } else if k == 1 {
        0x40u8
    } else if k == 2 {
        0x20u8
    } else if k == 3 {
        0x10u8
    } else if k == 4 {
        0x08u8
    } else if k == 5 {
        0x04u8
    } else if k == 6 {
        0x02u8
    } else if k == 7 {
        0x01u8
    } else {
        0u8
    }
}

/// Whether `c` may stand in a bit template: a constrained bit or `.`.
pub open spec fn bit_char_ok(c: char) -> bool {
    c == '0' || c == '1' || c == '.'
}

/// The mask bits of the bit-template token starting at `i`, from position
/// `k` on: a bit is constrained when its character is `0` or `1`.
pub open spec fn bit_mask_from(s: Seq<char>, i: int, k: int) -> u8
    decreases 8 - k,
{
    if k < 0 || k >= 8 {
        0u8
    } else {
        (if s[i + k] == '0' || s[i + k] == '1' {
            bit_at(k)
        } else {
            0u8
        }) | bit_mask_from(s, i, k + 1)
    }
}

/// The value bits of the bit-template token starting at `i`, from position
/// `k` on: a bit is set when its character is `1`.
pub open spec fn bit_value_from(s: Seq<char>, i: int, k: int) -> u8
    decreases 8 - k,
{
    if k < 0 || k >= 8 {
        0u8
    } else {
        (if s[i + k] == '1' {
            bit_at(k)
        } else {
            0u8
        }) | bit_value_from(s, i, k + 1)
    }
}

/// The bit-template grammar, read from position `i`: tokens of exactly
/// eight bit characters, separated by spaces.
pub open spec fn parse_bits_from(s: Seq<char>, i: int) -> Option<Seq<PatternToken>>
    decreases s.len() - i,
{
    if i < 0 || i >= s.len() {
        Some(Seq::empty())
    } else if s[i] == ' ' {
        parse_bits_from(s, i + 1)
    } else if i + 8 <= s.len() && (forall|k: int| 0 <= k < 8 ==> bit_char_ok(#[trigger] s[i + k]))
        && (i + 8 == s.len() || s[i + 8] == ' ') {
        match parse_bits_from(s, i + 8) {
            Some(rest) => Some(
                rest.insert(
                    0,
                    PatternToken {
                        mask: bit_mask_from(s, i, 0),
                        value: bit_value_from(s, i, 0),
                    },
                ),
            ),
            None => None,
        }
    } else {
        None
    }
}

/// A parsed template: a non-empty token sequence ready for scanning.
pub struct Pattern {
    tokens: Vec<PatternToken>,
}

impl Pattern {
    /// The token sequence of this pattern.
    pub closed spec fn tokens(self) -> Seq<PatternToken> {
        self.tokens@
    }

    /// A pattern must constrain at least one position.
    pub open spec fn wf(self) -> bool {
        self.tokens().len() > 0
    }

    /// The number of tokens, which is the width of the scanned window.
    pub fn len(&self) -> (n: usize)
        ensures
            n == self.tokens().len(),
    {
        self.tokens.len()
    }

    /// Parses a byte template such as `48 8B 05 ? ? ? ?`. Returns the
    /// pattern exactly when the text follows the byte-template grammar and
    /// holds at least one token.
    pub fn from_byte_pattern(s: &str) -> (r: Option<Pattern>)
        ensures
            match r {
                Some(p) => p.wf() && parse_bytes_from(s@, 0) == Some(p.tokens()),
                None => parse_bytes_from(s@, 0) is None || parse_bytes_from(s@, 0)
                    == Some(Seq::<PatternToken>::empty()),
            },
    {
        let n = s.unicode_len();
        match parse_bytes_rec(s, 0, n) {
            Some(tokens) => {
                if tokens.len() > 0 {
                    Some(Pattern { tokens })
                } else {
                    None
                }
            },
            None => None,
        }
    }

    /// Parses a bit template such as `01001... 10001011`. Returns the
    /// pattern exactly when the text follows the bit-template grammar and
    /// holds at least one token.
    pub fn from_bit_pattern(s: &str) -> (r: Option<Pattern>)
        ensures
            match r {
                Some(p) => p.wf() && parse_bits_from(s@, 0) == Some(p.tokens()),
                None => parse_bits_from(s@, 0) is None || parse_bits_from(s@, 0)
                    == Some(Seq::<PatternToken>::empty()),
            },
    {
        let n = s.unicode_len();
        match parse_bits_rec(s, 0, n) {
            Some(tokens) => {
                if tokens.len() > 0 {
                    Some(Pattern { tokens })
                } else {
                    None
                }
            },
            None => None,
        }
    }
}

/// Decides one hex digit.
fn hex_val_exec(c: char) -> (r: Option<u8>)
    ensures
        r == hex_val(c),
{
    if c == '0' {
        Some(0u8)
    } else if c == '1' {
        Some(1u8)
    } else if c == '2' {
        Some(2u8)
    } else if c == '3' {
        Some(3u8)
    } else if c == '4' {
        Some(4u8)
    } else if c == '5' {
        Some(5u8)
    } else if c == '6' {
        Some(6u8)
    } else if c == '7' {
        Some(7u8)
    } else if c == '8' {
        Some(8u8)
    } else if c == '9' {
        Some(9u8)
    } else if c == 'a' || c == 'A' {
        Some(10u8)
    } else if c == 'b' || c == 'B' {
        Some(11u8)
    } else if c == 'c' || c == 'C' {
        Some(12u8)
    } else if c == 'd' || c == 'D' {
        Some(13u8)
    } else if c == 'e' || c == 'E' {
        Some(14u8)
    } else if c == 'f' || c == 'F' {
        Some(15u8)
    } else {
        None
    }
}

/// Reads the byte-template grammar from position `i` on.
fn parse_bytes_rec(s: &str, i: usize, n: usize) -> (r: Option<Vec<PatternToken>>)
    requires
        n == s@.len(),
        i <= n,
    ensures
        match r {
            Some(v) => parse_bytes_from(s@, i as int) == Some(v@),
            None => parse_bytes_from(s@, i as int) is None,
        },
    decreases n - i,
{
    if i >= n {
        return Some(Vec::new());
    }
    let c = s.get_char(i);
    if c == ' ' {
        return parse_bytes_rec(s, i + 1, n);
    }
    if c == '?' {
        if i + 1 < n && s.get_char(i + 1) == '?' {
            if i + 2 == n || s.get_char(i + 2) == ' ' {
                match parse_bytes_rec(s, i + 2, n) {
                    Some(mut rest) => {
                        rest.insert(0, PatternToken { mask: 0, value: 0 });
                        return Some(rest);
                    },
                    None => {
                        return None;
                    },
                }
            } else {
                return None;
            }
        } else if i + 1 == n || s.get_char(i + 1) == ' ' {
            match parse_bytes_rec(s, i + 1, n) {
                Some(mut rest) => {
                    rest.insert(0, PatternToken { mask: 0, value: 0 });
                    return Some(rest);
                },
                None => {
                    return None;
                },
            }
        } else {
            return None;
        }
    }
    match hex_val_exec(c) {
        Some(hi) => {
            if i + 1 < n {
                match hex_val_exec(s.get_char(i + 1)) {
                    Some(lo) => {
                        if i + 2 == n || s.get_char(i + 2) == ' ' {
                            match parse_bytes_rec(s, i + 2, n) {
                                Some(mut rest) => {
                                    rest.insert(
                                        0,
                                        PatternToken { mask: 0xFF, value: hi * 16 + lo },
                                    );
                                    Some(rest)
                                },
                                None => None,
                            }
                        } else {
                            None
                        }
                    },
                    None => None,
                }
            } else {
                None
            }
        },
        None => None,
    }
}

/// Executable form of `bit_at`.
fn bit_at_exec(k: usize) -> (r: u8)
    ensures
        r == bit_at(k as int),
{
    if k == 0 {
        0x80
    } else if k == 1 {
        0x40
    } else if k == 2 {
        0x20
    } else if k == 3 {
        0x10
    } else if k == 4 {
        0x08
    } else if k == 5 {
        0x04
    } else if k == 6 {
        0x02
    } else if k == 7 {
        0x01
    } else {
        0
    }
}

/// Builds the mask and value of the bit-template token starting at `i`,
/// from position `k` on.
fn bit_parts_rec(s: &str, i: usize, k: usize, n: usize) -> (r: (u8, u8))
    requires
        n == s@.len(),
        k <= 8,
        i + 8 <= n,
    ensures
        r.0 == bit_mask_from(s@, i as int, k as int),
        r.1 == bit_value_from(s@, i as int, k as int),
    decreases 8 - k,
{
    if k >= 8 {
        (0, 0)
    } else {
        let (m2, v2) = bit_parts_rec(s, i, k + 1, n);
        let c = s.get_char(i + k);
        let w = bit_at_exec(k);
        let m = if c == '0' || c == '1' {
            w | m2
        } else {
            0u8 | m2
        };
        let v = if c == '1' {
            w | v2
        } else {
            0u8 | v2
        };
        (m, v)
    }
}

/// Reads the bit-template grammar from position `i` on.
fn parse_bits_rec(s: &str, i: usize, n: usize) -> (r: Option<Vec<PatternToken>>)
    requires
        n == s@.len(),
        i <= n,
    ensures
        match r {
            Some(v) => parse_bits_from(s@, i as int) == Some(v@),
            None => parse_bits_from(s@, i as int) is None,
        },
    decreases n - i,
{
    if i >= n {
        return Some(Vec::new());
    }
    let c = s.get_char(i);
    if c == ' ' {
        return parse_bits_rec(s, i + 1, n);
    }
    if n - i < 8 {
        return None;
    }
    let mut k: usize = 0;
    while k < 8
        invariant
            n == s@.len(),
            i + 8 <= n,
            s@[i as int] != ' ',
            0 <= k <= 8,
            forall|j: int| 0 <= j < k ==> bit_char_ok(#[trigger] s@[i + j]),
        decreases 8 - k,
    {
        let d = s.get_char(i + k);
        if !(d == '0' || d == '1' || d == '.') {
            return None;
        }
        k = k + 1;
    }
    if !(i + 8 == n || s.get_char(i + 8) == ' ') {
        return None;
    }
    let (mask, value) = bit_parts_rec(s, i, 0, n);
    match parse_bits_rec(s, i + 8, n) {
        Some(mut rest) => {
            rest.insert(0, PatternToken { mask, value });
            Some(rest)
        },
        None => None,
    }
}

/// A located match: the offset of the first matching window.
#[derive(Clone, Copy, Debug, PartialEq, Eq, Structural)]
pub struct MatchResult {
    pub location: usize,
}

/// Scans `region` left to right for the first window matching `pattern`.
/// Pure over the region: returns the first match offset, or nothing when no
/// window matches anywhere.
pub fn scan(region: &[u8], pattern: &Pattern) -> (r: Option<MatchResult>)
    requires
        pattern.wf(),
    ensures
        match r {
            Some(m) => is_first_match(region@, pattern.tokens(), m.location as int),
            None => forall|o: int| !matches_at(region@, pattern.tokens(), o),
        },
{
    let plen = pattern.tokens.len();
    let rlen = region.len();
    if plen > rlen {
        return None;
    }
    let mut o: usize = 0;
    while o <= rlen - plen
        invariant
            plen == pattern.tokens().len(),
            0 < plen <= rlen == region@.len(),
            0 <= o <= rlen - plen + 1,
            forall|p: int| 0 <= p < o ==> !matches_at(region@, pattern.tokens(), p),
        decreases rlen - plen - o + 1,
    {
        let mut k: usize = 0;
        let mut window_ok = true;
        while window_ok && k < plen
            invariant
                plen == pattern.tokens().len(),
                0 < plen <= rlen == region@.len(),
                o + plen <= rlen,
                0 <= k <= plen,
                window_ok ==> forall|j: int|
                    0 <= j < k ==> token_matches(pattern.tokens()[j], region@[o + j]),
                !window_ok ==> !matches_at(region@, pattern.tokens(), o as int),
            decreases plen - k + (if window_ok { 1int } else { 0int }),
        {
            let t = pattern.tokens[k];
            let b = region[o + k];
            if b & t.mask == t.value {
                k = k + 1;
            } else {
                proof {
                    assert(!token_matches(pattern.tokens()[k as int], region@[o + k]));
                }
                window_ok = false;
            }
        }
        if window_ok {
            return Some(MatchResult { location: o });
        }
        o = o + 1;
    }
    proof {
        assert forall|p: int| !matches_at(region@, pattern.tokens(), p) by {
            if 0 <= p <= rlen - plen {
                assert(p < o);
            }
        }
    }
    None
}

/// Law: the first match offset is unique, so scanning a fixed region with a
/// fixed pattern always names the same window.
pub proof fn law_first_match_unique(region: Seq<u8>, toks: Seq<PatternToken>, o1: int, o2: int)
    requires
        is_first_match(region, toks, o1),
        is_first_match(region, toks, o2),
    ensures
        o1 == o2,
{
    if o1 < o2 {
        assert(!matches_at(region, toks, o1));
    }
    if o2 < o1 {
        assert(!matches_at(region, toks, o2));
    }
}

} // verus!
