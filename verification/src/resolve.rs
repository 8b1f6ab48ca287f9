//! The address resolver: turns a located pattern match into an absolute
//! process address, exactly as the host's own relative addressing does.
//!
//! A matched instruction embeds a 4-byte little-endian signed displacement
//! at a fixed offset into the match; the absolute address is the region base
//! plus the match offset, plus the instruction length, plus the sign-extended
//! displacement, wrapping at the 64-bit address width. The computation must
//! be bit-exact: any deviation silently corrupts every read made through the
//! resolved address. The result is computed once and cached for the life of
//! the resolver, since the underlying image never changes at runtime.
use vstd::prelude::*;
use vstd::wrapping::u64_specs;

use crate::pattern::{is_first_match, matches_at, scan, Pattern, PatternToken};

verus! {

/// The value of four bytes read as a little-endian 32-bit integer.
pub open spec fn le_u32(b0: u8, b1: u8, b2: u8, b3: u8) -> u32 {
    (b0 + b1 * 0x100 + b2 * 0x10000 + b3 * 0x1000000) as u32
}

/// A 32-bit displacement interpreted as a signed quantity.
pub open spec fn sign_extend(d: u32) -> i64 {
    if d < 0x80000000 {
        d as i64
    } else {
        (d - 0x100000000) as i64
    }
}

/// The absolute address named by a match at `loc`: base plus match offset
/// plus instruction length plus the signed displacement, wrapping at the
/// 64-bit address width.
pub open spec fn resolved_address(base: u64, loc: u64, instr_len: u64, disp: u32) -> u64 {
    u64_specs::wrapping_add_signed(
        u64_specs::wrapping_add(u64_specs::wrapping_add(base, loc), instr_len),
        sign_extend(disp),
    )
}

/// What resolving a pattern over a region yields: the address computed from
/// the first match, or nothing when the pattern never matches (or matches
/// too close to the region's end to hold its displacement).
pub open spec fn spec_resolve(
    region: Seq<u8>,
    toks: Seq<PatternToken>,
    disp_offset: int,
    instr_len: u64,
    base: u64,
) -> Option<u64> {
    if exists|o: int| is_first_match(region, toks, o) {
        let o = choose|o: int| is_first_match(region, toks, o);
        if o + disp_offset + 4 <= region.len() {
            Some(
                resolved_address(
                    base,
                    o as u64,
                    instr_len,
                    le_u32(
                        region[o + disp_offset],
                        region[o + disp_offset + 1],
                        region[o + disp_offset + 2],
                        region[o + disp_offset + 3],
                    ),
                ),
            )
        } else {
            None
        }
    } else {
        None
    }
}

/// Reads the four bytes at `off` as a little-endian 32-bit value.
pub fn read_le_u32(region: &[u8], off: usize) -> (r: u32)
    requires
        off + 4 <= region@.len(),
    ensures
        r == le_u32(region@[off as int], region@[off + 1], region@[off + 2], region@[off + 3]),
{
    let b0 = region[off] as u32;
    let b1 = region[off + 1] as u32;
    let b2 = region[off + 2] as u32;
    let b3 = region[off + 3] as u32;
    b0 + b1 * 0x100 + b2 * 0x10000 + b3 * 0x1000000
}

/// A resolver that computes its address once and serves it from the cache
/// thereafter. `scan_count` is a probe observable by callers: it counts how
/// often the underlying scan has run, and never passes one.
pub struct CachedResolver {
    pattern: Pattern,
    disp_offset: usize,
    instruction_len: u64,
    cached: Option<Option<u64>>,
    scan_count: u64,
}

impl CachedResolver {
    /// The tokens this resolver scans for.
    pub closed spec fn spec_tokens(self) -> Seq<PatternToken> {
        self.pattern.tokens()
    }

    /// Where the displacement sits within a match.
    pub closed spec fn spec_disp_offset(self) -> int {
        self.disp_offset as int
    }

    /// The instruction length added past the match offset.
    pub closed spec fn spec_instruction_len(self) -> u64 {
        self.instruction_len
    }

    /// The memoized outcome: nothing yet, or the computed result.
    pub closed spec fn cached_result(self) -> Option<Option<u64>> {
        self.cached
    }

    /// How often the scan has run.
    pub closed spec fn scans(self) -> u64 {
        self.scan_count
    }

    /// The scan runs only to fill an empty cache, so it runs at most once.
    pub closed spec fn wf(self) -> bool {
        &&& self.pattern.wf()
        &&& self.scan_count <= 1
        &&& self.cached is None ==> self.scan_count == 0
    }

    /// A resolver for `pattern`, reading its displacement `disp_offset`
    /// bytes into the match and skipping `instruction_len` bytes of
    /// instruction. Nothing is scanned yet.
    pub fn new(pattern: Pattern, disp_offset: usize, instruction_len: u64) -> (r: CachedResolver)
        requires
            pattern.wf(),
        ensures
            r.wf(),
            r.spec_tokens() == pattern.tokens(),
            r.spec_disp_offset() == disp_offset as int,
            r.spec_instruction_len() == instruction_len,
            r.cached_result() is None,
            r.scans() == 0,
    {
        CachedResolver { pattern, disp_offset, instruction_len, cached: None, scan_count: 0 }
    }

    /// The probe: how often the underlying scan has run so far.
    pub fn scan_count(&self) -> (r: u64)
        ensures
            r == self.scans(),
    {
        self.scan_count
    }

    /// Resolves the address over `region` based at `base`. The first call
    /// scans and computes; every later call returns the identical cached
    /// outcome without scanning again.
    pub fn resolve(&mut self, region: &[u8], base: u64) -> (r: Option<u64>)
        requires
            old(self).wf(),
        ensures
            final(self).wf(),
            final(self).spec_tokens() == old(self).spec_tokens(),
            final(self).spec_disp_offset() == old(self).spec_disp_offset(),
            final(self).spec_instruction_len() == old(self).spec_instruction_len(),
            final(self).cached_result() == Some(r),
            match old(self).cached_result() {
                Some(c) => r == c && *final(self) == *old(self),
                None => {
                    &&& r == spec_resolve(
                        region@,
                        old(self).spec_tokens(),
                        old(self).spec_disp_offset(),
                        old(self).spec_instruction_len(),
                        base,
                    )
                    &&& final(self).scans() == old(self).scans() + 1
                },
            },
    {
        match self.cached {
            Some(c) => c,
            None => {
                self.scan_count = self.scan_count + 1;
                let r = match scan(region, &self.pattern) {
                    Some(m) => {
                        proof {
                            assert(is_first_match(region@, self.pattern.tokens(), m.location as int));
                            let o = choose|o: int|
                                is_first_match(region@, self.pattern.tokens(), o);
                            crate::pattern::law_first_match_unique(
                                region@,
                                self.pattern.tokens(),
                                o,
                                m.location as int,
                            );
                        }
                        if m.location <= region.len() && region.len() - m.location
                            >= self.disp_offset && region.len() - m.location - self.disp_offset
                            >= 4 {
                            let disp = read_le_u32(region, m.location + self.disp_offset);
                            let sum = base.wrapping_add(m.location as u64).wrapping_add(
                                self.instruction_len,
                            );
                            let signed: i64 = if disp < 0x80000000 {
                                disp as i64
                            } else {
                                (disp as i64) - 0x100000000i64
                            };
                            Some(sum.wrapping_add_signed(signed))
                        } else {
                            None
                        }
                    },
                    None => {
                        proof {
                            assert(forall|o: int|
                                !is_first_match(region@, self.pattern.tokens(), o));
                        }
                        None
                    },
                };
                self.cached = Some(r);
                r
            },
        }
    }
}

/// Law: a well-formed resolver has scanned at most once, whatever sequence
/// of calls produced it.
pub proof fn law_scan_at_most_once(r: CachedResolver)
    requires
        r.wf(),
    ensures
        r.scans() <= 1,
{
}

} // verus!
