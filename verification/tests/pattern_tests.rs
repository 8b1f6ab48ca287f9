use bloodmessage_mod::pattern::{scan, MatchResult, Pattern};
use bloodmessage_mod::resolve::{read_le_u32, CachedResolver};

#[test]
fn byte_pattern_matches_exact_bytes() {
    let pat = Pattern::from_byte_pattern("48 8B 05").expect("pattern should parse");
    assert_eq!(pat.len(), 3);
    let region = [0x90u8, 0x48, 0x8B, 0x05, 0x00];
    let m = scan(&region, &pat).expect("should match");
    assert_eq!(m, MatchResult { location: 1 });
}

#[test]
fn byte_pattern_wildcards_match_anything() {
    let pat = Pattern::from_byte_pattern("48 ? C3").expect("pattern should parse");
    let region = [0x48u8, 0xAA, 0xC3];
    assert_eq!(scan(&region, &pat), Some(MatchResult { location: 0 }));
    let pat2 = Pattern::from_byte_pattern("48 ?? C3").expect("double wildcard parses too");
    assert_eq!(scan(&region, &pat2), Some(MatchResult { location: 0 }));
}

#[test]
fn scan_returns_first_match() {
    let pat = Pattern::from_byte_pattern("AB CD").expect("pattern should parse");
    let region = [0x00u8, 0xAB, 0xCD, 0xAB, 0xCD];
    assert_eq!(scan(&region, &pat), Some(MatchResult { location: 1 }));
}

#[test]
fn scan_reports_no_match() {
    let pat = Pattern::from_byte_pattern("DE AD").expect("pattern should parse");
    let region = [0x01u8, 0x02, 0x03];
    assert_eq!(scan(&region, &pat), None);
    // empty region
    let empty: [u8; 0] = [];
    assert_eq!(scan(&empty, &pat), None);
}

#[test]
fn malformed_byte_patterns_are_rejected() {
    assert!(Pattern::from_byte_pattern("4").is_none());
    assert!(Pattern::from_byte_pattern("XY").is_none());
    assert!(Pattern::from_byte_pattern("488B").is_none());
    assert!(Pattern::from_byte_pattern("").is_none());
    assert!(Pattern::from_byte_pattern("   ").is_none());
    assert!(Pattern::from_byte_pattern("?x").is_none());
}

#[test]
fn bit_pattern_constrains_only_marked_bits() {
    // 01001... : matches 0x48..0x4F
    let pat = Pattern::from_bit_pattern("01001...").expect("pattern should parse");
    assert_eq!(pat.len(), 1);
    let region = [0x91u8, 0x4C];
    assert_eq!(scan(&region, &pat), Some(MatchResult { location: 1 }));
    let region2 = [0x50u8, 0x47];
    assert_eq!(scan(&region2, &pat), None);
}

#[test]
fn bit_pattern_with_several_tokens() {
    let pat = Pattern::from_bit_pattern("01001... 10001011").expect("pattern should parse");
    assert_eq!(pat.len(), 2);
    let region = [0x48u8, 0x8B, 0x05];
    assert_eq!(scan(&region, &pat), Some(MatchResult { location: 0 }));
}

#[test]
fn malformed_bit_patterns_are_rejected() {
    assert!(Pattern::from_bit_pattern("0100").is_none());
    assert!(Pattern::from_bit_pattern("01001x..").is_none());
    assert!(Pattern::from_bit_pattern("").is_none());
    assert!(Pattern::from_bit_pattern("010010101").is_none());
}

#[test]
fn le_u32_reads_little_endian() {
    let region = [0x78u8, 0x56, 0x34, 0x12];
    assert_eq!(read_le_u32(&region, 0), 0x12345678);
}

#[test]
fn resolver_computes_address_and_scans_once() {
    // the image: a matched instruction at offset 2 with displacement 0x10
    // at 2 + 3, instruction length 7
    let pat = Pattern::from_byte_pattern("48 8B 05 ? ? ? ?").expect("pattern should parse");
    let mut region = vec![0x90u8, 0x90];
    region.extend_from_slice(&[0x48, 0x8B, 0x05, 0x10, 0x00, 0x00, 0x00, 0xC3]);
    let mut resolver = CachedResolver::new(pat, 3, 7);
    assert_eq!(resolver.scan_count(), 0);
    let base = 0x1000u64;
    let addr = resolver.resolve(&region, base);
    // base + match offset + instruction length + displacement
    assert_eq!(addr, Some(0x1000 + 2 + 7 + 0x10));
    assert_eq!(resolver.scan_count(), 1);
    // the second call serves the cache: same address, no second scan
    let again = resolver.resolve(&region, base);
    assert_eq!(again, addr);
    assert_eq!(resolver.scan_count(), 1);
}

#[test]
fn resolver_sign_extends_negative_displacements() {
    let pat = Pattern::from_byte_pattern("48 8B 05 ? ? ? ?").expect("pattern should parse");
    // displacement -4 (FC FF FF FF)
    let region = [0x48u8, 0x8B, 0x05, 0xFC, 0xFF, 0xFF, 0xFF];
    let mut resolver = CachedResolver::new(pat, 3, 7);
    let addr = resolver.resolve(&region, 0x2000);
    assert_eq!(addr, Some(0x2000 + 0 + 7 - 4));
}

#[test]
fn resolver_caches_a_failed_scan_too() {
    let pat = Pattern::from_byte_pattern("DE AD BE EF").expect("pattern should parse");
    let region = [0u8; 16];
    let mut resolver = CachedResolver::new(pat, 0, 4);
    assert_eq!(resolver.resolve(&region, 0), None);
    assert_eq!(resolver.resolve(&region, 0), None);
    assert_eq!(resolver.scan_count(), 1);
}

#[test]
fn resolver_rejects_displacement_past_region_end() {
    let pat = Pattern::from_byte_pattern("48 8B").expect("pattern should parse");
    // matches at the end: no room for a 4-byte displacement at offset 3
    let region = [0x48u8, 0x8B];
    let mut resolver = CachedResolver::new(pat, 3, 7);
    assert_eq!(resolver.resolve(&region, 0), None);
}
