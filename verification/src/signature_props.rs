//! The detector's stated laws: every registered kind is recognized from
//! its canonical minimal signature prefix and from nothing shorter, and a
//! buffer that no registered pattern matches is classified as nothing.

use vstd::prelude::*;
use crate::signature::FileType;
use crate::signature::ByteMatcher;
use crate::signature::pattern_matches;
use crate::signature::pattern_min_len;
use crate::signature::alts_match;
use crate::signature::alts_all_need;
use crate::signature::magic_spec;
use crate::signature::kind_matches;
use crate::signature::kind_order;
use crate::signature::first_match_from;
use crate::signature::detect_spec;
use crate::signature::canonical_prefix;

verus! {

/// A pattern that matches a prefix of a buffer also matches the buffer:
/// matching is anchored at offset zero and ignores trailing bytes.
proof fn lemma_pattern_matches_prefix(p: Seq<ByteMatcher>, d: Seq<u8>, n: int)
    requires
        0 <= n <= d.len(),
        pattern_matches(p, d.take(n)),
    ensures
        pattern_matches(p, d),
    decreases p.len(),
{
    if p.len() > 0 {
        let dt = d.take(n);
        match p[0] {
            ByteMatcher::Exact(b) => {
                assert(dt[0] == d[0]);
                assert(dt.drop_first() =~= d.drop_first().take(n - 1));
                lemma_pattern_matches_prefix(p.drop_first(), d.drop_first(), n - 1);
            },
            ByteMatcher::Wildcard => {
                assert(dt.drop_first() =~= d.drop_first().take(n - 1));
                lemma_pattern_matches_prefix(p.drop_first(), d.drop_first(), n - 1);
            },
            ByteMatcher::Skip(s) => {
                assert(dt.skip(s as int) =~= d.skip(s as int).take(n - s));
                lemma_pattern_matches_prefix(p.drop_first(), d.skip(s as int), n - s);
            },
        }
    }
}

/// A match consumes at least the pattern's minimum length.
proof fn lemma_pattern_needs_min_len(p: Seq<ByteMatcher>, d: Seq<u8>)
    requires
        pattern_matches(p, d),
    ensures
        d.len() >= pattern_min_len(p),
    decreases p.len(),
{
    if p.len() > 0 {
        match p[0] {
            ByteMatcher::Exact(_) => {
                lemma_pattern_needs_min_len(p.drop_first(), d.drop_first());
            },
            ByteMatcher::Wildcard => {
                lemma_pattern_needs_min_len(p.drop_first(), d.drop_first());
            },
            ByteMatcher::Skip(s) => {
                lemma_pattern_needs_min_len(p.drop_first(), d.skip(s as int));
            },
        }
    }
}

/// Alternative-level form of `lemma_pattern_matches_prefix`.
proof fn lemma_alts_match_prefix(alts: Seq<Seq<ByteMatcher>>, d: Seq<u8>, n: int)
    requires
        0 <= n <= d.len(),
        alts_match(alts, d.take(n)),
    ensures
        alts_match(alts, d),
    decreases alts.len(),
{
    if alts.len() > 0 {
        if pattern_matches(alts[0], d.take(n)) {
            lemma_pattern_matches_prefix(alts[0], d, n);
        } else {
            lemma_alts_match_prefix(alts.drop_first(), d, n);
        }
    }
}

/// Alternative-level form of `lemma_pattern_needs_min_len`.
proof fn lemma_alts_need(alts: Seq<Seq<ByteMatcher>>, d: Seq<u8>, b: int)
    requires
        alts_match(alts, d),
        alts_all_need(alts, b),
    ensures
        d.len() >= b,
    decreases alts.len(),
{
    if alts.len() > 0 {
        if pattern_matches(alts[0], d) {
            lemma_pattern_needs_min_len(alts[0], d);
        } else {
            lemma_alts_need(alts.drop_first(), d, b);
        }
    }
}

/// If no kind matches the buffer, the scan from any position finds none.
proof fn lemma_first_match_none(d: Seq<u8>, i: int)
    requires
        forall|k: FileType| !kind_matches(k, d),
    ensures
        first_match_from(d, i) is None,
    decreases kind_order().len() - i,
{
    if 0 <= i < kind_order().len() {
        assert(!kind_matches(kind_order()[i], d));
        lemma_first_match_none(d, i + 1);
    }
}

/// Whatever the scan finds from any position, its signature matches.
proof fn lemma_first_match_sound(d: Seq<u8>, i: int)
    ensures
        first_match_from(d, i) matches Some(k) ==> kind_matches(k, d),
    decreases kind_order().len() - i,
{
    if 0 <= i < kind_order().len() {
        if !kind_matches(kind_order()[i], d) {
            lemma_first_match_sound(d, i + 1);
        }
    }
}

/// Strict prefixes of a buffer that only the kind `k` matches, and that
/// every signature of `k` needs whole, are classified as nothing.
proof fn lemma_truncations_undetected(p: Seq<u8>, k: FileType)
    requires
        alts_all_need(magic_spec(k), p.len() as int),
        forall|k2: FileType| k2 != k ==> !kind_matches(k2, p),
    ensures
        forall|n: int| 0 <= n < p.len() ==> detect_spec(#[trigger] p.take(n)) is None,
{
    assert forall|n: int| 0 <= n < p.len() implies detect_spec(#[trigger] p.take(n)) is None by {
        assert forall|k2: FileType| !kind_matches(k2, p.take(n)) by {
            if kind_matches(k2, p.take(n)) {
                lemma_alts_match_prefix(magic_spec(k2), p, n);
                assert(kind_matches(k2, p));
                assert(k2 == k);
                lemma_alts_need(magic_spec(k), p.take(n), p.len() as int);
                assert(false);
            }
        }
        lemma_first_match_none(p.take(n), 0);
    }
}

#[verifier::rlimit(100)]
proof fn lemma_canon_jpeg()
    ensures
        detect_spec(canonical_prefix(FileType::JPEG)) == Some(FileType::JPEG),
        forall|n: int| 0 <= n < canonical_prefix(FileType::JPEG).len()
            ==> detect_spec(#[trigger] canonical_prefix(FileType::JPEG).take(n)) is None,
{
    let p = canonical_prefix(FileType::JPEG);
    assert(p.len() == 4);
    assert(alts_match(magic_spec(FileType::JPEG), p)) by {
        reveal_with_fuel(alts_match, 2);
        reveal_with_fuel(pattern_matches, 6);
    }
    assert(alts_all_need(magic_spec(FileType::JPEG), 4)) by {
        reveal_with_fuel(alts_all_need, 6);
        reveal_with_fuel(pattern_min_len, 14);
    }
    assert(!alts_match(magic_spec(FileType::GIF), p)) by {
        reveal_with_fuel(alts_match, 3);
        reveal_with_fuel(pattern_matches, 2);
    }
    assert(!alts_match(magic_spec(FileType::PNG), p)) by {
        reveal_with_fuel(alts_match, 2);
        reveal_with_fuel(pattern_matches, 2);
    }
    assert(!alts_match(magic_spec(FileType::VTF), p)) by {
        reveal_with_fuel(alts_match, 2);
        reveal_with_fuel(pattern_matches, 2);
    }
    assert(!alts_match(magic_spec(FileType::MIDI), p)) by {
        reveal_with_fuel(alts_match, 2);
        reveal_with_fuel(pattern_matches, 2);
    }
    assert(!alts_match(magic_spec(FileType::UnixScript), p)) by {
        reveal_with_fuel(alts_match, 2);
        reveal_with_fuel(pattern_matches, 2);
    }
    assert(!alts_match(magic_spec(FileType::ELF), p)) by {
        reveal_with_fuel(alts_match, 2);
        reveal_with_fuel(pattern_matches, 2);
    }
    assert(!alts_match(magic_spec(FileType::PDF), p)) by {
        reveal_with_fuel(alts_match, 2);
        reveal_with_fuel(pattern_matches, 2);
    }
    assert(!alts_match(magic_spec(FileType::MBR), p)) by {
        reveal_with_fuel(alts_match, 2);
        reveal_with_fuel(pattern_matches, 2);
    }
    assert(!alts_match(magic_spec(FileType::TIFF), p)) by {
        reveal_with_fuel(alts_match, 5);
        reveal_with_fuel(pattern_matches, 2);
    }
    assert(!alts_match(magic_spec(FileType::WAD), p)) by {
        reveal_with_fuel(alts_match, 5);
        reveal_with_fuel(pattern_matches, 2);
    }
    assert(!alts_match(magic_spec(FileType::ZIP), p)) by {
        reveal_with_fuel(alts_match, 2);
        reveal_with_fuel(pattern_matches, 2);
    }
    assert(!alts_match(magic_spec(FileType::TAR), p)) by {
        reveal_with_fuel(alts_match, 3);
        reveal_with_fuel(pattern_matches, 2);
    }
    assert(!alts_match(magic_spec(FileType::XML), p)) by {
        reveal_with_fuel(alts_match, 6);
        reveal_with_fuel(pattern_matches, 2);
    }
    assert(!alts_match(magic_spec(FileType::TXT), p)) by {
        reveal_with_fuel(alts_match, 6);
        reveal_with_fuel(pattern_matches, 3);
    }
    assert(!alts_match(magic_spec(FileType::HEIC), p)) by {
        reveal_with_fuel(alts_match, 2);
        reveal_with_fuel(pattern_matches, 2);
    }
    assert(!alts_match(magic_spec(FileType::WEBP), p)) by {
        reveal_with_fuel(alts_match, 2);
        reveal_with_fuel(pattern_matches, 2);
    }
    assert(!alts_match(magic_spec(FileType::NES), p)) by {
        reveal_with_fuel(alts_match, 2);
        reveal_with_fuel(pattern_matches, 2);
    }
    assert(!alts_match(magic_spec(FileType::BMP), p)) by {
        reveal_with_fuel(alts_match, 2);
        reveal_with_fuel(pattern_matches, 2);
    }
    assert(!alts_match(magic_spec(FileType::SPC), p)) by {
        reveal_with_fuel(alts_match, 2);
        reveal_with_fuel(pattern_matches, 2);
    }
    assert(!alts_match(magic_spec(FileType::WAV), p)) by {
        reveal_with_fuel(alts_match, 2);
        reveal_with_fuel(pattern_matches, 2);
    }
    assert(!alts_match(magic_spec(FileType::AVI), p)) by {
        reveal_with_fuel(alts_match, 2);
        reveal_with_fuel(pattern_matches, 2);
    }
    assert(!alts_match(magic_spec(FileType::AIFF), p)) by {
        reveal_with_fuel(alts_match, 2);
        reveal_with_fuel(pattern_matches, 2);
    }
    assert(!alts_match(magic_spec(FileType::MP3), p)) by {
        reveal_with_fuel(alts_match, 5);
        reveal_with_fuel(pattern_matches, 3);
    }
    assert(!alts_match(magic_spec(FileType::MP4), p)) by {
        reveal_with_fuel(alts_match, 2);
        reveal_with_fuel(pattern_matches, 2);
    }
    assert(!alts_match(magic_spec(FileType::OGG), p)) by {
        reveal_with_fuel(alts_match, 2);
        reveal_with_fuel(pattern_matches, 2);
    }
    assert(!alts_match(magic_spec(FileType::FLAC), p)) by {
        reveal_with_fuel(alts_match, 2);
        reveal_with_fuel(pattern_matches, 2);
    }
    assert(!alts_match(magic_spec(FileType::M4A), p)) by {
        reveal_with_fuel(alts_match, 3);
        reveal_with_fuel(pattern_matches, 2);
    }
    assert(!alts_match(magic_spec(FileType::AAC), p)) by {
        reveal_with_fuel(alts_match, 3);
        reveal_with_fuel(pattern_matches, 3);
    }
    assert forall|k2: FileType| k2 != FileType::JPEG implies !kind_matches(k2, p) by {
    }
    assert(detect_spec(p) == Some(FileType::JPEG)) by {
        reveal_with_fuel(first_match_from, 2);
    }
    lemma_truncations_undetected(p, FileType::JPEG);
}

#[verifier::rlimit(100)]
proof fn lemma_canon_gif()
    ensures
        detect_spec(canonical_prefix(FileType::GIF)) == Some(FileType::GIF),
        forall|n: int| 0 <= n < canonical_prefix(FileType::GIF).len()
            ==> detect_spec(#[trigger] canonical_prefix(FileType::GIF).take(n)) is None,
{
    let p = canonical_prefix(FileType::GIF);
    assert(p.len() == 6);
    assert(alts_match(magic_spec(FileType::GIF), p)) by {
        reveal_with_fuel(alts_match, 2);
        reveal_with_fuel(pattern_matches, 8);
    }
    assert(alts_all_need(magic_spec(FileType::GIF), 6)) by {
        reveal_with_fuel(alts_all_need, 3);
        reveal_with_fuel(pattern_min_len, 8);
    }
    assert(!alts_match(magic_spec(FileType::JPEG), p)) by {
        reveal_with_fuel(alts_match, 6);
        reveal_with_fuel(pattern_matches, 2);
    }
    assert(!alts_match(magic_spec(FileType::PNG), p)) by {
        reveal_with_fuel(alts_match, 2);
        reveal_with_fuel(pattern_matches, 2);
    }
    assert(!alts_match(magic_spec(FileType::VTF), p)) by {
        reveal_with_fuel(alts_match, 2);
        reveal_with_fuel(pattern_matches, 2);
    }
    assert(!alts_match(magic_spec(FileType::MIDI), p)) by {
        reveal_with_fuel(alts_match, 2);
        reveal_with_fuel(pattern_matches, 2);
    }
    assert(!alts_match(magic_spec(FileType::UnixScript), p)) by {
        reveal_with_fuel(alts_match, 2);
        reveal_with_fuel(pattern_matches, 2);
    }
    assert(!alts_match(magic_spec(FileType::ELF), p)) by {
        reveal_with_fuel(alts_match, 2);
        reveal_with_fuel(pattern_matches, 2);
    }
    assert(!alts_match(magic_spec(FileType::PDF), p)) by {
        reveal_with_fuel(alts_match, 2);
        reveal_with_fuel(pattern_matches, 2);
    }
    assert(!alts_match(magic_spec(FileType::MBR), p)) by {
        reveal_with_fuel(alts_match, 2);
        reveal_with_fuel(pattern_matches, 2);
    }
    assert(!alts_match(magic_spec(FileType::TIFF), p)) by {
        reveal_with_fuel(alts_match, 5);
        reveal_with_fuel(pattern_matches, 2);
    }
    assert(!alts_match(magic_spec(FileType::WAD), p)) by {
        reveal_with_fuel(alts_match, 5);
        reveal_with_fuel(pattern_matches, 2);
    }
    assert(!alts_match(magic_spec(FileType::ZIP), p)) by {
        reveal_with_fuel(alts_match, 2);
        reveal_with_fuel(pattern_matches, 2);
    }
    assert(!alts_match(magic_spec(FileType::TAR), p)) by {
        reveal_with_fuel(alts_match, 3);
        reveal_with_fuel(pattern_matches, 2);
    }
    assert(!alts_match(magic_spec(FileType::XML), p)) by {
        reveal_with_fuel(alts_match, 6);
        reveal_with_fuel(pattern_matches, 2);
    }
    assert(!alts_match(magic_spec(FileType::TXT), p)) by {
        reveal_with_fuel(alts_match, 6);
        reveal_with_fuel(pattern_matches, 2);
    }
    assert(!alts_match(magic_spec(FileType::HEIC), p)) by {
        reveal_with_fuel(alts_match, 2);
        reveal_with_fuel(pattern_matches, 2);
    }
    assert(!alts_match(magic_spec(FileType::WEBP), p)) by {
        reveal_with_fuel(alts_match, 2);
        reveal_with_fuel(pattern_matches, 2);
    }
    assert(!alts_match(magic_spec(FileType::NES), p)) by {
        reveal_with_fuel(alts_match, 2);
        reveal_with_fuel(pattern_matches, 2);
    }
    assert(!alts_match(magic_spec(FileType::BMP), p)) by {
        reveal_with_fuel(alts_match, 2);
        reveal_with_fuel(pattern_matches, 2);
    }
    assert(!alts_match(magic_spec(FileType::SPC), p)) by {
        reveal_with_fuel(alts_match, 2);
        reveal_with_fuel(pattern_matches, 2);
    }
    assert(!alts_match(magic_spec(FileType::WAV), p)) by {
        reveal_with_fuel(alts_match, 2);
        reveal_with_fuel(pattern_matches, 2);
    }
    assert(!alts_match(magic_spec(FileType::AVI), p)) by {
        reveal_with_fuel(alts_match, 2);
        reveal_with_fuel(pattern_matches, 2);
    }
    assert(!alts_match(magic_spec(FileType::AIFF), p)) by {
        reveal_with_fuel(alts_match, 2);
        reveal_with_fuel(pattern_matches, 2);
    }
    assert(!alts_match(magic_spec(FileType::MP3), p)) by {
        reveal_with_fuel(alts_match, 5);
        reveal_with_fuel(pattern_matches, 2);
    }
    assert(!alts_match(magic_spec(FileType::MP4), p)) by {
        reveal_with_fuel(alts_match, 2);
        reveal_with_fuel(pattern_matches, 2);
    }
    assert(!alts_match(magic_spec(FileType::OGG), p)) by {
        reveal_with_fuel(alts_match, 2);
        reveal_with_fuel(pattern_matches, 2);
    }
    assert(!alts_match(magic_spec(FileType::FLAC), p)) by {
        reveal_with_fuel(alts_match, 2);
        reveal_with_fuel(pattern_matches, 2);
    }
    assert(!alts_match(magic_spec(FileType::M4A), p)) by {
        reveal_with_fuel(alts_match, 3);
        reveal_with_fuel(pattern_matches, 2);
    }
    assert(!alts_match(magic_spec(FileType::AAC), p)) by {
        reveal_with_fuel(alts_match, 3);
        reveal_with_fuel(pattern_matches, 2);
    }
    assert forall|k2: FileType| k2 != FileType::GIF implies !kind_matches(k2, p) by {
    }
    assert(detect_spec(p) == Some(FileType::GIF)) by {
        reveal_with_fuel(first_match_from, 3);
    }
    lemma_truncations_undetected(p, FileType::GIF);
}

#[verifier::rlimit(100)]
proof fn lemma_canon_png()
    ensures
        detect_spec(canonical_prefix(FileType::PNG)) == Some(FileType::PNG),
        forall|n: int| 0 <= n < canonical_prefix(FileType::PNG).len()
            ==> detect_spec(#[trigger] canonical_prefix(FileType::PNG).take(n)) is None,
{
    let p = canonical_prefix(FileType::PNG);
    assert(p.len() == 8);
    assert(alts_match(magic_spec(FileType::PNG), p)) by {
        reveal_with_fuel(alts_match, 2);
        reveal_with_fuel(pattern_matches, 10);
    }
    assert(alts_all_need(magic_spec(FileType::PNG), 8)) by {
        reveal_with_fuel(alts_all_need, 2);
        reveal_with_fuel(pattern_min_len, 10);
    }
    assert(!alts_match(magic_spec(FileType::JPEG), p)) by {
        reveal_with_fuel(alts_match, 6);
        reveal_with_fuel(pattern_matches, 2);
    }
    assert(!alts_match(magic_spec(FileType::GIF), p)) by {
        reveal_with_fuel(alts_match, 3);
        reveal_with_fuel(pattern_matches, 2);
    }
    assert(!alts_match(magic_spec(FileType::VTF), p)) by {
        reveal_with_fuel(alts_match, 2);
        reveal_with_fuel(pattern_matches, 2);
    }
    assert(!alts_match(magic_spec(FileType::MIDI), p)) by {
        reveal_with_fuel(alts_match, 2);
        reveal_with_fuel(pattern_matches, 2);
    }
    assert(!alts_match(magic_spec(FileType::UnixScript), p)) by {
        reveal_with_fuel(alts_match, 2);
        reveal_with_fuel(pattern_matches, 2);
    }
    assert(!alts_match(magic_spec(FileType::ELF), p)) by {
        reveal_with_fuel(alts_match, 2);
        reveal_with_fuel(pattern_matches, 2);
    }
    assert(!alts_match(magic_spec(FileType::PDF), p)) by {
        reveal_with_fuel(alts_match, 2);
        reveal_with_fuel(pattern_matches, 2);
    }
    assert(!alts_match(magic_spec(FileType::MBR), p)) by {
        reveal_with_fuel(alts_match, 2);
        reveal_with_fuel(pattern_matches, 2);
    }
    assert(!alts_match(magic_spec(FileType::TIFF), p)) by {
        reveal_with_fuel(alts_match, 5);
        reveal_with_fuel(pattern_matches, 2);
    }
    assert(!alts_match(magic_spec(FileType::WAD), p)) by {
        reveal_with_fuel(alts_match, 5);
        reveal_with_fuel(pattern_matches, 2);
    }
    assert(!alts_match(magic_spec(FileType::ZIP), p)) by {
        reveal_with_fuel(alts_match, 2);
        reveal_with_fuel(pattern_matches, 2);
    }
    assert(!alts_match(magic_spec(FileType::TAR), p)) by {
        reveal_with_fuel(alts_match, 3);
        reveal_with_fuel(pattern_matches, 2);
    }
    assert(!alts_match(magic_spec(FileType::XML), p)) by {
        reveal_with_fuel(alts_match, 6);
        reveal_with_fuel(pattern_matches, 2);
    }
    assert(!alts_match(magic_spec(FileType::TXT), p)) by {
        reveal_with_fuel(alts_match, 6);
        reveal_with_fuel(pattern_matches, 2);
    }
    assert(!alts_match(magic_spec(FileType::HEIC), p)) by {
        reveal_with_fuel(alts_match, 2);
        reveal_with_fuel(pattern_matches, 2);
    }
    assert(!alts_match(magic_spec(FileType::WEBP), p)) by {
        reveal_with_fuel(alts_match, 2);
        reveal_with_fuel(pattern_matches, 2);
    }
    assert(!alts_match(magic_spec(FileType::NES), p)) by {
        reveal_with_fuel(alts_match, 2);
        reveal_with_fuel(pattern_matches, 2);
    }
    assert(!alts_match(magic_spec(FileType::BMP), p)) by {
        reveal_with_fuel(alts_match, 2);
        reveal_with_fuel(pattern_matches, 2);
    }
    assert(!alts_match(magic_spec(FileType::SPC), p)) by {
        reveal_with_fuel(alts_match, 2);
        reveal_with_fuel(pattern_matches, 2);
    }
    assert(!alts_match(magic_spec(FileType::WAV), p)) by {
        reveal_with_fuel(alts_match, 2);
        reveal_with_fuel(pattern_matches, 2);
    }
    assert(!alts_match(magic_spec(FileType::AVI), p)) by {
        reveal_with_fuel(alts_match, 2);
        reveal_with_fuel(pattern_matches, 2);
    }
    assert(!alts_match(magic_spec(FileType::AIFF), p)) by {
        reveal_with_fuel(alts_match, 2);
        reveal_with_fuel(pattern_matches, 2);
    }
    assert(!alts_match(magic_spec(FileType::MP3), p)) by {
        reveal_with_fuel(alts_match, 5);
        reveal_with_fuel(pattern_matches, 2);
    }
    assert(!alts_match(magic_spec(FileType::MP4), p)) by {
        reveal_with_fuel(alts_match, 2);
        reveal_with_fuel(pattern_matches, 2);
    }
    assert(!alts_match(magic_spec(FileType::OGG), p)) by {
        reveal_with_fuel(alts_match, 2);
        reveal_with_fuel(pattern_matches, 2);
    }
    assert(!alts_match(magic_spec(FileType::FLAC), p)) by {
        reveal_with_fuel(alts_match, 2);
        reveal_with_fuel(pattern_matches, 2);
    }
    assert(!alts_match(magic_spec(FileType::M4A), p)) by {
        reveal_with_fuel(alts_match, 3);
        reveal_with_fuel(pattern_matches, 2);
    }
    assert(!alts_match(magic_spec(FileType::AAC), p)) by {
        reveal_with_fuel(alts_match, 3);
        reveal_with_fuel(pattern_matches, 2);
    }
    assert forall|k2: FileType| k2 != FileType::PNG implies !kind_matches(k2, p) by {
    }
    assert(detect_spec(p) == Some(FileType::PNG)) by {
        reveal_with_fuel(first_match_from, 4);
    }
    lemma_truncations_undetected(p, FileType::PNG);
}

#[verifier::rlimit(100)]
proof fn lemma_canon_vtf()
    ensures
        detect_spec(canonical_prefix(FileType::VTF)) == Some(FileType::VTF),
        forall|n: int| 0 <= n < canonical_prefix(FileType::VTF).len()
            ==> detect_spec(#[trigger] canonical_prefix(FileType::VTF).take(n)) is None,
{
    let p = canonical_prefix(FileType::VTF);
    assert(p.len() == 4);
    assert(alts_match(magic_spec(FileType::VTF), p)) by {
        reveal_with_fuel(alts_match, 2);
        reveal_with_fuel(pattern_matches, 6);
    }
    assert(alts_all_need(magic_spec(FileType::VTF), 4)) by {
        reveal_with_fuel(alts_all_need, 2);
        reveal_with_fuel(pattern_min_len, 6);
    }
    assert(!alts_match(magic_spec(FileType::JPEG), p)) by {
        reveal_with_fuel(alts_match, 6);
        reveal_with_fuel(pattern_matches, 2);
    }
    assert(!alts_match(magic_spec(FileType::GIF), p)) by {
        reveal_with_fuel(alts_match, 3);
        reveal_with_fuel(pattern_matches, 2);
    }
    assert(!alts_match(magic_spec(FileType::PNG), p)) by {
        reveal_with_fuel(alts_match, 2);
        reveal_with_fuel(pattern_matches, 2);
    }
    assert(!alts_match(magic_spec(FileType::MIDI), p)) by {
        reveal_with_fuel(alts_match, 2);
        reveal_with_fuel(pattern_matches, 2);
    }
    assert(!alts_match(magic_spec(FileType::UnixScript), p)) by {
        reveal_with_fuel(alts_match, 2);
        reveal_with_fuel(pattern_matches, 2);
    }
    assert(!alts_match(magic_spec(FileType::ELF), p)) by {
        reveal_with_fuel(alts_match, 2);
        reveal_with_fuel(pattern_matches, 2);
    }
    assert(!alts_match(magic_spec(FileType::PDF), p)) by {
        reveal_with_fuel(alts_match, 2);
        reveal_with_fuel(pattern_matches, 2);
    }
    assert(!alts_match(magic_spec(FileType::MBR), p)) by {
        reveal_with_fuel(alts_match, 2);
        reveal_with_fuel(pattern_matches, 2);
    }
    assert(!alts_match(magic_spec(FileType::TIFF), p)) by {
        reveal_with_fuel(alts_match, 5);
        reveal_with_fuel(pattern_matches, 2);
    }
    assert(!alts_match(magic_spec(FileType::WAD), p)) by {
        reveal_with_fuel(alts_match, 5);
        reveal_with_fuel(pattern_matches, 2);
    }
    assert(!alts_match(magic_spec(FileType::ZIP), p)) by {
        reveal_with_fuel(alts_match, 2);
        reveal_with_fuel(pattern_matches, 2);
    }
    assert(!alts_match(magic_spec(FileType::TAR), p)) by {
        reveal_with_fuel(alts_match, 3);
        reveal_with_fuel(pattern_matches, 2);
    }
    assert(!alts_match(magic_spec(FileType::XML), p)) by {
        reveal_with_fuel(alts_match, 6);
        reveal_with_fuel(pattern_matches, 3);
    }
    assert(!alts_match(magic_spec(FileType::TXT), p)) by {
        reveal_with_fuel(alts_match, 6);
        reveal_with_fuel(pattern_matches, 3);
    }
    assert(!alts_match(magic_spec(FileType::HEIC), p)) by {
        reveal_with_fuel(alts_match, 2);
        reveal_with_fuel(pattern_matches, 2);
    }
    assert(!alts_match(magic_spec(FileType::WEBP), p)) by {
        reveal_with_fuel(alts_match, 2);
        reveal_with_fuel(pattern_matches, 2);
    }
    assert(!alts_match(magic_spec(FileType::NES), p)) by {
        reveal_with_fuel(alts_match, 2);
        reveal_with_fuel(pattern_matches, 2);
    }
    assert(!alts_match(magic_spec(FileType::BMP), p)) by {
        reveal_with_fuel(alts_match, 2);
        reveal_with_fuel(pattern_matches, 2);
    }
    assert(!alts_match(magic_spec(FileType::SPC), p)) by {
        reveal_with_fuel(alts_match, 2);
        reveal_with_fuel(pattern_matches, 2);
    }
    assert(!alts_match(magic_spec(FileType::WAV), p)) by {
        reveal_with_fuel(alts_match, 2);
        reveal_with_fuel(pattern_matches, 2);
    }
    assert(!alts_match(magic_spec(FileType::AVI), p)) by {
        reveal_with_fuel(alts_match, 2);
        reveal_with_fuel(pattern_matches, 2);
    }
    assert(!alts_match(magic_spec(FileType::AIFF), p)) by {
        reveal_with_fuel(alts_match, 2);
        reveal_with_fuel(pattern_matches, 2);
    }
    assert(!alts_match(magic_spec(FileType::MP3), p)) by {
        reveal_with_fuel(alts_match, 5);
        reveal_with_fuel(pattern_matches, 2);
    }
    assert(!alts_match(magic_spec(FileType::MP4), p)) by {
        reveal_with_fuel(alts_match, 2);
        reveal_with_fuel(pattern_matches, 2);
    }
    assert(!alts_match(magic_spec(FileType::OGG), p)) by {
        reveal_with_fuel(alts_match, 2);
        reveal_with_fuel(pattern_matches, 2);
    }
    assert(!alts_match(magic_spec(FileType::FLAC), p)) by {
        reveal_with_fuel(alts_match, 2);
        reveal_with_fuel(pattern_matches, 2);
    }
    assert(!alts_match(magic_spec(FileType::M4A), p)) by {
        reveal_with_fuel(alts_match, 3);
        reveal_with_fuel(pattern_matches, 3);
    }
    assert(!alts_match(magic_spec(FileType::AAC), p)) by {
        reveal_with_fuel(alts_match, 3);
        reveal_with_fuel(pattern_matches, 2);
    }
    assert forall|k2: FileType| k2 != FileType::VTF implies !kind_matches(k2, p) by {
    }
    assert(detect_spec(p) == Some(FileType::VTF)) by {
        reveal_with_fuel(first_match_from, 5);
    }
    lemma_truncations_undetected(p, FileType::VTF);
}

#[verifier::rlimit(100)]
proof fn lemma_canon_midi()
    ensures
        detect_spec(canonical_prefix(FileType::MIDI)) == Some(FileType::MIDI),
        forall|n: int| 0 <= n < canonical_prefix(FileType::MIDI).len()
            ==> detect_spec(#[trigger] canonical_prefix(FileType::MIDI).take(n)) is None,
{
    let p = canonical_prefix(FileType::MIDI);
    assert(p.len() == 4);
    assert(alts_match(magic_spec(FileType::MIDI), p)) by {
        reveal_with_fuel(alts_match, 2);
        reveal_with_fuel(pattern_matches, 6);
    }
    assert(alts_all_need(magic_spec(FileType::MIDI), 4)) by {
        reveal_with_fuel(alts_all_need, 2);
        reveal_with_fuel(pattern_min_len, 6);
    }
    assert(!alts_match(magic_spec(FileType::JPEG), p)) by {
        reveal_with_fuel(alts_match, 6);
        reveal_with_fuel(pattern_matches, 2);
    }
    assert(!alts_match(magic_spec(FileType::GIF), p)) by {
        reveal_with_fuel(alts_match, 3);
        reveal_with_fuel(pattern_matches, 2);
    }
    assert(!alts_match(magic_spec(FileType::PNG), p)) by {
        reveal_with_fuel(alts_match, 2);
        reveal_with_fuel(pattern_matches, 2);
    }
    assert(!alts_match(magic_spec(FileType::VTF), p)) by {
        reveal_with_fuel(alts_match, 2);
        reveal_with_fuel(pattern_matches, 2);
    }
    assert(!alts_match(magic_spec(FileType::UnixScript), p)) by {
        reveal_with_fuel(alts_match, 2);
        reveal_with_fuel(pattern_matches, 2);
    }
    assert(!alts_match(magic_spec(FileType::ELF), p)) by {
        reveal_with_fuel(alts_match, 2);
        reveal_with_fuel(pattern_matches, 2);
    }
    assert(!alts_match(magic_spec(FileType::PDF), p)) by {
        reveal_with_fuel(alts_match, 2);
        reveal_with_fuel(pattern_matches, 2);
    }
    assert(!alts_match(magic_spec(FileType::MBR), p)) by {
        reveal_with_fuel(alts_match, 2);
        reveal_with_fuel(pattern_matches, 2);
    }
    assert(!alts_match(magic_spec(FileType::TIFF), p)) by {
        reveal_with_fuel(alts_match, 5);
        reveal_with_fuel(pattern_matches, 3);
    }
    assert(!alts_match(magic_spec(FileType::WAD), p)) by {
        reveal_with_fuel(alts_match, 5);
        reveal_with_fuel(pattern_matches, 2);
    }
    assert(!alts_match(magic_spec(FileType::ZIP), p)) by {
        reveal_with_fuel(alts_match, 2);
        reveal_with_fuel(pattern_matches, 2);
    }
    assert(!alts_match(magic_spec(FileType::TAR), p)) by {
        reveal_with_fuel(alts_match, 3);
        reveal_with_fuel(pattern_matches, 2);
    }
    assert(!alts_match(magic_spec(FileType::XML), p)) by {
        reveal_with_fuel(alts_match, 6);
        reveal_with_fuel(pattern_matches, 2);
    }
    assert(!alts_match(magic_spec(FileType::TXT), p)) by {
        reveal_with_fuel(alts_match, 6);
        reveal_with_fuel(pattern_matches, 2);
    }
    assert(!alts_match(magic_spec(FileType::HEIC), p)) by {
        reveal_with_fuel(alts_match, 2);
        reveal_with_fuel(pattern_matches, 2);
    }
    assert(!alts_match(magic_spec(FileType::WEBP), p)) by {
        reveal_with_fuel(alts_match, 2);
        reveal_with_fuel(pattern_matches, 2);
    }
    assert(!alts_match(magic_spec(FileType::NES), p)) by {
        reveal_with_fuel(alts_match, 2);
        reveal_with_fuel(pattern_matches, 2);
    }
    assert(!alts_match(magic_spec(FileType::BMP), p)) by {
        reveal_with_fuel(alts_match, 2);
        reveal_with_fuel(pattern_matches, 2);
    }
    assert(!alts_match(magic_spec(FileType::SPC), p)) by {
        reveal_with_fuel(alts_match, 2);
        reveal_with_fuel(pattern_matches, 2);
    }
    assert(!alts_match(magic_spec(FileType::WAV), p)) by {
        reveal_with_fuel(alts_match, 2);
        reveal_with_fuel(pattern_matches, 2);
    }
    assert(!alts_match(magic_spec(FileType::AVI), p)) by {
        reveal_with_fuel(alts_match, 2);
        reveal_with_fuel(pattern_matches, 2);
    }
    assert(!alts_match(magic_spec(FileType::AIFF), p)) by {
        reveal_with_fuel(alts_match, 2);
        reveal_with_fuel(pattern_matches, 2);
    }
    assert(!alts_match(magic_spec(FileType::MP3), p)) by {
        reveal_with_fuel(alts_match, 5);
        reveal_with_fuel(pattern_matches, 2);
    }
    assert(!alts_match(magic_spec(FileType::MP4), p)) by {
        reveal_with_fuel(alts_match, 2);
        reveal_with_fuel(pattern_matches, 2);
    }
    assert(!alts_match(magic_spec(FileType::OGG), p)) by {
        reveal_with_fuel(alts_match, 2);
        reveal_with_fuel(pattern_matches, 2);
    }
    assert(!alts_match(magic_spec(FileType::FLAC), p)) by {
        reveal_with_fuel(alts_match, 2);
        reveal_with_fuel(pattern_matches, 2);
    }
    assert(!alts_match(magic_spec(FileType::M4A), p)) by {
        reveal_with_fuel(alts_match, 3);
        reveal_with_fuel(pattern_matches, 2);
    }
    assert(!alts_match(magic_spec(FileType::AAC), p)) by {
        reveal_with_fuel(alts_match, 3);
        reveal_with_fuel(pattern_matches, 2);
    }
    assert forall|k2: FileType| k2 != FileType::MIDI implies !kind_matches(k2, p) by {
    }
    assert(detect_spec(p) == Some(FileType::MIDI)) by {
        reveal_with_fuel(first_match_from, 6);
    }
    lemma_truncations_undetected(p, FileType::MIDI);
}

#[verifier::rlimit(100)]
proof fn lemma_canon_unixscript()
    ensures
        detect_spec(canonical_prefix(FileType::UnixScript)) == Some(FileType::UnixScript),
        forall|n: int| 0 <= n < canonical_prefix(FileType::UnixScript).len()
            ==> detect_spec(#[trigger] canonical_prefix(FileType::UnixScript).take(n)) is None,
{
    let p = canonical_prefix(FileType::UnixScript);
    assert(p.len() == 2);
    assert(alts_match(magic_spec(FileType::UnixScript), p)) by {
        reveal_with_fuel(alts_match, 2);
        reveal_with_fuel(pattern_matches, 4);
    }
    assert(alts_all_need(magic_spec(FileType::UnixScript), 2)) by {
        reveal_with_fuel(alts_all_need, 2);
        reveal_with_fuel(pattern_min_len, 4);
    }
    assert(!alts_match(magic_spec(FileType::JPEG), p)) by {
        reveal_with_fuel(alts_match, 6);
        reveal_with_fuel(pattern_matches, 2);
    }
    assert(!alts_match(magic_spec(FileType::GIF), p)) by {
        reveal_with_fuel(alts_match, 3);
        reveal_with_fuel(pattern_matches, 2);
    }
    assert(!alts_match(magic_spec(FileType::PNG), p)) by {
        reveal_with_fuel(alts_match, 2);
        reveal_with_fuel(pattern_matches, 2);
    }
    assert(!alts_match(magic_spec(FileType::VTF), p)) by {
        reveal_with_fuel(alts_match, 2);
        reveal_with_fuel(pattern_matches, 2);
    }
    assert(!alts_match(magic_spec(FileType::MIDI), p)) by {
        reveal_with_fuel(alts_match, 2);
        reveal_with_fuel(pattern_matches, 2);
    }
    assert(!alts_match(magic_spec(FileType::ELF), p)) by {
        reveal_with_fuel(alts_match, 2);
        reveal_with_fuel(pattern_matches, 2);
    }
    assert(!alts_match(magic_spec(FileType::PDF), p)) by {
        reveal_with_fuel(alts_match, 2);
        reveal_with_fuel(pattern_matches, 2);
    }
    assert(!alts_match(magic_spec(FileType::MBR), p)) by {
        reveal_with_fuel(alts_match, 2);
        reveal_with_fuel(pattern_matches, 2);
    }
    assert(!alts_match(magic_spec(FileType::TIFF), p)) by {
        reveal_with_fuel(alts_match, 5);
        reveal_with_fuel(pattern_matches, 2);
    }
    assert(!alts_match(magic_spec(FileType::WAD), p)) by {
        reveal_with_fuel(alts_match, 5);
        reveal_with_fuel(pattern_matches, 2);
    }
    assert(!alts_match(magic_spec(FileType::ZIP), p)) by {
        reveal_with_fuel(alts_match, 2);
        reveal_with_fuel(pattern_matches, 2);
    }
    assert(!alts_match(magic_spec(FileType::TAR), p)) by {
        reveal_with_fuel(alts_match, 3);
        reveal_with_fuel(pattern_matches, 2);
    }
    assert(!alts_match(magic_spec(FileType::XML), p)) by {
        reveal_with_fuel(alts_match, 6);
        reveal_with_fuel(pattern_matches, 2);
    }
    assert(!alts_match(magic_spec(FileType::TXT), p)) by {
        reveal_with_fuel(alts_match, 6);
        reveal_with_fuel(pattern_matches, 2);
    }
    assert(!alts_match(magic_spec(FileType::HEIC), p)) by {
        reveal_with_fuel(alts_match, 2);
        reveal_with_fuel(pattern_matches, 2);
    }
    assert(!alts_match(magic_spec(FileType::WEBP), p)) by {
        reveal_with_fuel(alts_match, 2);
        reveal_with_fuel(pattern_matches, 2);
    }
    assert(!alts_match(magic_spec(FileType::NES), p)) by {
        reveal_with_fuel(alts_match, 2);
        reveal_with_fuel(pattern_matches, 2);
    }
    assert(!alts_match(magic_spec(FileType::BMP), p)) by {
        reveal_with_fuel(alts_match, 2);
        reveal_with_fuel(pattern_matches, 2);
    }
    assert(!alts_match(magic_spec(FileType::SPC), p)) by {
        reveal_with_fuel(alts_match, 2);
        reveal_with_fuel(pattern_matches, 2);
    }
    assert(!alts_match(magic_spec(FileType::WAV), p)) by {
        reveal_with_fuel(alts_match, 2);
        reveal_with_fuel(pattern_matches, 2);
    }
    assert(!alts_match(magic_spec(FileType::AVI), p)) by {
        reveal_with_fuel(alts_match, 2);
        reveal_with_fuel(pattern_matches, 2);
    }
    assert(!alts_match(magic_spec(FileType::AIFF), p)) by {
        reveal_with_fuel(alts_match, 2);
        reveal_with_fuel(pattern_matches, 2);
    }
    assert(!alts_match(magic_spec(FileType::MP3), p)) by {
        reveal_with_fuel(alts_match, 5);
        reveal_with_fuel(pattern_matches, 2);
    }
    assert(!alts_match(magic_spec(FileType::MP4), p)) by {
        reveal_with_fuel(alts_match, 2);
        reveal_with_fuel(pattern_matches, 2);
    }
    assert(!alts_match(magic_spec(FileType::OGG), p)) by {
        reveal_with_fuel(alts_match, 2);
        reveal_with_fuel(pattern_matches, 2);
    }
    assert(!alts_match(magic_spec(FileType::FLAC), p)) by {
        reveal_with_fuel(alts_match, 2);
        reveal_with_fuel(pattern_matches, 2);
    }
    assert(!alts_match(magic_spec(FileType::M4A), p)) by {
        reveal_with_fuel(alts_match, 3);
        reveal_with_fuel(pattern_matches, 2);
    }
    assert(!alts_match(magic_spec(FileType::AAC), p)) by {
        reveal_with_fuel(alts_match, 3);
        reveal_with_fuel(pattern_matches, 2);
    }
    assert forall|k2: FileType| k2 != FileType::UnixScript implies !kind_matches(k2, p) by {
    }
    assert(detect_spec(p) == Some(FileType::UnixScript)) by {
        reveal_with_fuel(first_match_from, 7);
    }
    lemma_truncations_undetected(p, FileType::UnixScript);
}

#[verifier::rlimit(100)]
proof fn lemma_canon_elf()
    ensures
        detect_spec(canonical_prefix(FileType::ELF)) == Some(FileType::ELF),
        forall|n: int| 0 <= n < canonical_prefix(FileType::ELF).len()
            ==> detect_spec(#[trigger] canonical_prefix(FileType::ELF).take(n)) is None,
{
    let p = canonical_prefix(FileType::ELF);
    assert(p.len() == 4);
    assert(alts_match(magic_spec(FileType::ELF), p)) by {
        reveal_with_fuel(alts_match, 2);
        reveal_with_fuel(pattern_matches, 6);
    }
    assert(alts_all_need(magic_spec(FileType::ELF), 4)) by {
        reveal_with_fuel(alts_all_need, 2);
        reveal_with_fuel(pattern_min_len, 6);
    }
    assert(!alts_match(magic_spec(FileType::JPEG), p)) by {
        reveal_with_fuel(alts_match, 6);
        reveal_with_fuel(pattern_matches, 2);
    }
    assert(!alts_match(magic_spec(FileType::GIF), p)) by {
        reveal_with_fuel(alts_match, 3);
        reveal_with_fuel(pattern_matches, 2);
    }
    assert(!alts_match(magic_spec(FileType::PNG), p)) by {
        reveal_with_fuel(alts_match, 2);
        reveal_with_fuel(pattern_matches, 2);
    }
    assert(!alts_match(magic_spec(FileType::VTF), p)) by {
        reveal_with_fuel(alts_match, 2);
        reveal_with_fuel(pattern_matches, 2);
    }
    assert(!alts_match(magic_spec(FileType::MIDI), p)) by {
        reveal_with_fuel(alts_match, 2);
        reveal_with_fuel(pattern_matches, 2);
    }
    assert(!alts_match(magic_spec(FileType::UnixScript), p)) by {
        reveal_with_fuel(alts_match, 2);
        reveal_with_fuel(pattern_matches, 2);
    }
    assert(!alts_match(magic_spec(FileType::PDF), p)) by {
        reveal_with_fuel(alts_match, 2);
        reveal_with_fuel(pattern_matches, 2);
    }
    assert(!alts_match(magic_spec(FileType::MBR), p)) by {
        reveal_with_fuel(alts_match, 2);
        reveal_with_fuel(pattern_matches, 2);
    }
    assert(!alts_match(magic_spec(FileType::TIFF), p)) by {
        reveal_with_fuel(alts_match, 5);
        reveal_with_fuel(pattern_matches, 2);
    }
    assert(!alts_match(magic_spec(FileType::WAD), p)) by {
        reveal_with_fuel(alts_match, 5);
        reveal_with_fuel(pattern_matches, 2);
    }
    assert(!alts_match(magic_spec(FileType::ZIP), p)) by {
        reveal_with_fuel(alts_match, 2);
        reveal_with_fuel(pattern_matches, 2);
    }
    assert(!alts_match(magic_spec(FileType::TAR), p)) by {
        reveal_with_fuel(alts_match, 3);
        reveal_with_fuel(pattern_matches, 2);
    }
    assert(!alts_match(magic_spec(FileType::XML), p)) by {
        reveal_with_fuel(alts_match, 6);
        reveal_with_fuel(pattern_matches, 2);
    }
    assert(!alts_match(magic_spec(FileType::TXT), p)) by {
        reveal_with_fuel(alts_match, 6);
        reveal_with_fuel(pattern_matches, 2);
    }
    assert(!alts_match(magic_spec(FileType::HEIC), p)) by {
        reveal_with_fuel(alts_match, 2);
        reveal_with_fuel(pattern_matches, 2);
    }
    assert(!alts_match(magic_spec(FileType::WEBP), p)) by {
        reveal_with_fuel(alts_match, 2);
        reveal_with_fuel(pattern_matches, 2);
    }
    assert(!alts_match(magic_spec(FileType::NES), p)) by {
        reveal_with_fuel(alts_match, 2);
        reveal_with_fuel(pattern_matches, 2);
    }
    assert(!alts_match(magic_spec(FileType::BMP), p)) by {
        reveal_with_fuel(alts_match, 2);
        reveal_with_fuel(pattern_matches, 2);
    }
    assert(!alts_match(magic_spec(FileType::SPC), p)) by {
        reveal_with_fuel(alts_match, 2);
        reveal_with_fuel(pattern_matches, 2);
    }
    assert(!alts_match(magic_spec(FileType::WAV), p)) by {
        reveal_with_fuel(alts_match, 2);
        reveal_with_fuel(pattern_matches, 2);
    }
    assert(!alts_match(magic_spec(FileType::AVI), p)) by {
        reveal_with_fuel(alts_match, 2);
        reveal_with_fuel(pattern_matches, 2);
    }
    assert(!alts_match(magic_spec(FileType::AIFF), p)) by {
        reveal_with_fuel(alts_match, 2);
        reveal_with_fuel(pattern_matches, 2);
    }
    assert(!alts_match(magic_spec(FileType::MP3), p)) by {
        reveal_with_fuel(alts_match, 5);
        reveal_with_fuel(pattern_matches, 2);
    }
    assert(!alts_match(magic_spec(FileType::MP4), p)) by {
        reveal_with_fuel(alts_match, 2);
        reveal_with_fuel(pattern_matches, 2);
    }
    assert(!alts_match(magic_spec(FileType::OGG), p)) by {
        reveal_with_fuel(alts_match, 2);
        reveal_with_fuel(pattern_matches, 2);
    }
    assert(!alts_match(magic_spec(FileType::FLAC), p)) by {
        reveal_with_fuel(alts_match, 2);
        reveal_with_fuel(pattern_matches, 2);
    }
    assert(!alts_match(magic_spec(FileType::M4A), p)) by {
        reveal_with_fuel(alts_match, 3);
        reveal_with_fuel(pattern_matches, 2);
    }
    assert(!alts_match(magic_spec(FileType::AAC), p)) by {
        reveal_with_fuel(alts_match, 3);
        reveal_with_fuel(pattern_matches, 2);
    }
    assert forall|k2: FileType| k2 != FileType::ELF implies !kind_matches(k2, p) by {
    }
    assert(detect_spec(p) == Some(FileType::ELF)) by {
        reveal_with_fuel(first_match_from, 8);
    }
    lemma_truncations_undetected(p, FileType::ELF);
}

#[verifier::rlimit(100)]
proof fn lemma_canon_pdf()
    ensures
        detect_spec(canonical_prefix(FileType::PDF)) == Some(FileType::PDF),
        forall|n: int| 0 <= n < canonical_prefix(FileType::PDF).len()
            ==> detect_spec(#[trigger] canonical_prefix(FileType::PDF).take(n)) is None,
{
    let p = canonical_prefix(FileType::PDF);
    assert(p.len() == 5);
    assert(alts_match(magic_spec(FileType::PDF), p)) by {
        reveal_with_fuel(alts_match, 2);
        reveal_with_fuel(pattern_matches, 7);
    }
    assert(alts_all_need(magic_spec(FileType::PDF), 5)) by {
        reveal_with_fuel(alts_all_need, 2);
        reveal_with_fuel(pattern_min_len, 7);
    }
    assert(!alts_match(magic_spec(FileType::JPEG), p)) by {
        reveal_with_fuel(alts_match, 6);
        reveal_with_fuel(pattern_matches, 2);
    }
    assert(!alts_match(magic_spec(FileType::GIF), p)) by {
        reveal_with_fuel(alts_match, 3);
        reveal_with_fuel(pattern_matches, 2);
    }
    assert(!alts_match(magic_spec(FileType::PNG), p)) by {
        reveal_with_fuel(alts_match, 2);
        reveal_with_fuel(pattern_matches, 2);
    }
    assert(!alts_match(magic_spec(FileType::VTF), p)) by {
        reveal_with_fuel(alts_match, 2);
        reveal_with_fuel(pattern_matches, 2);
    }
    assert(!alts_match(magic_spec(FileType::MIDI), p)) by {
        reveal_with_fuel(alts_match, 2);
        reveal_with_fuel(pattern_matches, 2);
    }
    assert(!alts_match(magic_spec(FileType::UnixScript), p)) by {
        reveal_with_fuel(alts_match, 2);
        reveal_with_fuel(pattern_matches, 2);
    }
    assert(!alts_match(magic_spec(FileType::ELF), p)) by {
        reveal_with_fuel(alts_match, 2);
        reveal_with_fuel(pattern_matches, 2);
    }
    assert(!alts_match(magic_spec(FileType::MBR), p)) by {
        reveal_with_fuel(alts_match, 2);
        reveal_with_fuel(pattern_matches, 2);
    }
    assert(!alts_match(magic_spec(FileType::TIFF), p)) by {
        reveal_with_fuel(alts_match, 5);
        reveal_with_fuel(pattern_matches, 2);
    }
    assert(!alts_match(magic_spec(FileType::WAD), p)) by {
        reveal_with_fuel(alts_match, 5);
        reveal_with_fuel(pattern_matches, 2);
    }
    assert(!alts_match(magic_spec(FileType::ZIP), p)) by {
        reveal_with_fuel(alts_match, 2);
        reveal_with_fuel(pattern_matches, 2);
    }
    assert(!alts_match(magic_spec(FileType::TAR), p)) by {
        reveal_with_fuel(alts_match, 3);
        reveal_with_fuel(pattern_matches, 2);
    }
    assert(!alts_match(magic_spec(FileType::XML), p)) by {
        reveal_with_fuel(alts_match, 6);
        reveal_with_fuel(pattern_matches, 2);
    }
    assert(!alts_match(magic_spec(FileType::TXT), p)) by {
        reveal_with_fuel(alts_match, 6);
        reveal_with_fuel(pattern_matches, 2);
    }
    assert(!alts_match(magic_spec(FileType::HEIC), p)) by {
        reveal_with_fuel(alts_match, 2);
        reveal_with_fuel(pattern_matches, 2);
    }
    assert(!alts_match(magic_spec(FileType::WEBP), p)) by {
        reveal_with_fuel(alts_match, 2);
        reveal_with_fuel(pattern_matches, 2);
    }
    assert(!alts_match(magic_spec(FileType::NES), p)) by {
        reveal_with_fuel(alts_match, 2);
        reveal_with_fuel(pattern_matches, 2);
    }
    assert(!alts_match(magic_spec(FileType::BMP), p)) by {
        reveal_with_fuel(alts_match, 2);
        reveal_with_fuel(pattern_matches, 2);
    }
    assert(!alts_match(magic_spec(FileType::SPC), p)) by {
        reveal_with_fuel(alts_match, 2);
        reveal_with_fuel(pattern_matches, 2);
    }
    assert(!alts_match(magic_spec(FileType::WAV), p)) by {
        reveal_with_fuel(alts_match, 2);
        reveal_with_fuel(pattern_matches, 2);
    }
    assert(!alts_match(magic_spec(FileType::AVI), p)) by {
        reveal_with_fuel(alts_match, 2);
        reveal_with_fuel(pattern_matches, 2);
    }
    assert(!alts_match(magic_spec(FileType::AIFF), p)) by {
        reveal_with_fuel(alts_match, 2);
        reveal_with_fuel(pattern_matches, 2);
    }
    assert(!alts_match(magic_spec(FileType::MP3), p)) by {
        reveal_with_fuel(alts_match, 5);
        reveal_with_fuel(pattern_matches, 2);
    }
    assert(!alts_match(magic_spec(FileType::MP4), p)) by {
        reveal_with_fuel(alts_match, 2);
        reveal_with_fuel(pattern_matches, 2);
    }
    assert(!alts_match(magic_spec(FileType::OGG), p)) by {
        reveal_with_fuel(alts_match, 2);
        reveal_with_fuel(pattern_matches, 2);
    }
    assert(!alts_match(magic_spec(FileType::FLAC), p)) by {
        reveal_with_fuel(alts_match, 2);
        reveal_with_fuel(pattern_matches, 2);
    }
    assert(!alts_match(magic_spec(FileType::M4A), p)) by {
        reveal_with_fuel(alts_match, 3);
        reveal_with_fuel(pattern_matches, 2);
    }
    assert(!alts_match(magic_spec(FileType::AAC), p)) by {
        reveal_with_fuel(alts_match, 3);
        reveal_with_fuel(pattern_matches, 2);
    }
    assert forall|k2: FileType| k2 != FileType::PDF implies !kind_matches(k2, p) by {
    }
    assert(detect_spec(p) == Some(FileType::PDF)) by {
        reveal_with_fuel(first_match_from, 9);
    }
    lemma_truncations_undetected(p, FileType::PDF);
}

#[verifier::rlimit(100)]
proof fn lemma_canon_mbr()
    ensures
        detect_spec(canonical_prefix(FileType::MBR)) == Some(FileType::MBR),
        forall|n: int| 0 <= n < canonical_prefix(FileType::MBR).len()
            ==> detect_spec(#[trigger] canonical_prefix(FileType::MBR).take(n)) is None,
{
    let p = canonical_prefix(FileType::MBR);
    assert(p.len() == 512);
    assert(alts_match(magic_spec(FileType::MBR), p)) by {
        reveal_with_fuel(alts_match, 2);
        reveal_with_fuel(pattern_matches, 5);
    }
    assert(alts_all_need(magic_spec(FileType::MBR), 512)) by {
        reveal_with_fuel(alts_all_need, 2);
        reveal_with_fuel(pattern_min_len, 5);
    }
    assert(!alts_match(magic_spec(FileType::JPEG), p)) by {
        reveal_with_fuel(alts_match, 6);
        reveal_with_fuel(pattern_matches, 2);
    }
    assert(!alts_match(magic_spec(FileType::GIF), p)) by {
        reveal_with_fuel(alts_match, 3);
        reveal_with_fuel(pattern_matches, 2);
    }
    assert(!alts_match(magic_spec(FileType::PNG), p)) by {
        reveal_with_fuel(alts_match, 2);
        reveal_with_fuel(pattern_matches, 2);
    }
    assert(!alts_match(magic_spec(FileType::VTF), p)) by {
        reveal_with_fuel(alts_match, 2);
        reveal_with_fuel(pattern_matches, 3);
    }
    assert(!alts_match(magic_spec(FileType::MIDI), p)) by {
        reveal_with_fuel(alts_match, 2);
        reveal_with_fuel(pattern_matches, 2);
    }
    assert(!alts_match(magic_spec(FileType::UnixScript), p)) by {
        reveal_with_fuel(alts_match, 2);
        reveal_with_fuel(pattern_matches, 2);
    }
    assert(!alts_match(magic_spec(FileType::ELF), p)) by {
        reveal_with_fuel(alts_match, 2);
        reveal_with_fuel(pattern_matches, 2);
    }
    assert(!alts_match(magic_spec(FileType::PDF), p)) by {
        reveal_with_fuel(alts_match, 2);
        reveal_with_fuel(pattern_matches, 2);
    }
    assert(!alts_match(magic_spec(FileType::TIFF), p)) by {
        reveal_with_fuel(alts_match, 5);
        reveal_with_fuel(pattern_matches, 2);
    }
    assert(!alts_match(magic_spec(FileType::WAD), p)) by {
        reveal_with_fuel(alts_match, 5);
        reveal_with_fuel(pattern_matches, 2);
    }
    assert(!alts_match(magic_spec(FileType::ZIP), p)) by {
        reveal_with_fuel(alts_match, 2);
        reveal_with_fuel(pattern_matches, 2);
    }
    assert(!alts_match(magic_spec(FileType::TAR), p)) by {
        reveal_with_fuel(alts_match, 3);
        reveal_with_fuel(pattern_matches, 2);
    }
    assert(!alts_match(magic_spec(FileType::XML), p)) by {
        reveal_with_fuel(alts_match, 6);
        reveal_with_fuel(pattern_matches, 5);
    }
    assert(!alts_match(magic_spec(FileType::TXT), p)) by {
        reveal_with_fuel(alts_match, 6);
        reveal_with_fuel(pattern_matches, 4);
    }
    assert(!alts_match(magic_spec(FileType::HEIC), p)) by {
        reveal_with_fuel(alts_match, 2);
        reveal_with_fuel(pattern_matches, 2);
    }
    assert(!alts_match(magic_spec(FileType::WEBP), p)) by {
        reveal_with_fuel(alts_match, 2);
        reveal_with_fuel(pattern_matches, 2);
    }
    assert(!alts_match(magic_spec(FileType::NES), p)) by {
        reveal_with_fuel(alts_match, 2);
        reveal_with_fuel(pattern_matches, 2);
    }
    assert(!alts_match(magic_spec(FileType::BMP), p)) by {
        reveal_with_fuel(alts_match, 2);
        reveal_with_fuel(pattern_matches, 2);
    }
    assert(!alts_match(magic_spec(FileType::SPC), p)) by {
        reveal_with_fuel(alts_match, 2);
        reveal_with_fuel(pattern_matches, 2);
    }
    assert(!alts_match(magic_spec(FileType::WAV), p)) by {
        reveal_with_fuel(alts_match, 2);
        reveal_with_fuel(pattern_matches, 2);
    }
    assert(!alts_match(magic_spec(FileType::AVI), p)) by {
        reveal_with_fuel(alts_match, 2);
        reveal_with_fuel(pattern_matches, 2);
    }
    assert(!alts_match(magic_spec(FileType::AIFF), p)) by {
        reveal_with_fuel(alts_match, 2);
        reveal_with_fuel(pattern_matches, 2);
    }
    assert(!alts_match(magic_spec(FileType::MP3), p)) by {
        reveal_with_fuel(alts_match, 5);
        reveal_with_fuel(pattern_matches, 2);
    }
    assert(!alts_match(magic_spec(FileType::MP4), p)) by {
        reveal_with_fuel(alts_match, 2);
        reveal_with_fuel(pattern_matches, 2);
    }
    assert(!alts_match(magic_spec(FileType::OGG), p)) by {
        reveal_with_fuel(alts_match, 2);
        reveal_with_fuel(pattern_matches, 2);
    }
    assert(!alts_match(magic_spec(FileType::FLAC), p)) by {
        reveal_with_fuel(alts_match, 2);
        reveal_with_fuel(pattern_matches, 2);
    }
    assert(!alts_match(magic_spec(FileType::M4A), p)) by {
        reveal_with_fuel(alts_match, 3);
        reveal_with_fuel(pattern_matches, 5);
    }
    assert(!alts_match(magic_spec(FileType::AAC), p)) by {
        reveal_with_fuel(alts_match, 3);
        reveal_with_fuel(pattern_matches, 2);
    }
    assert forall|k2: FileType| k2 != FileType::MBR implies !kind_matches(k2, p) by {
    }
    assert(detect_spec(p) == Some(FileType::MBR)) by {
        reveal_with_fuel(first_match_from, 10);
    }
    lemma_truncations_undetected(p, FileType::MBR);
}

#[verifier::rlimit(100)]
proof fn lemma_canon_tiff()
    ensures
        detect_spec(canonical_prefix(FileType::TIFF)) == Some(FileType::TIFF),
        forall|n: int| 0 <= n < canonical_prefix(FileType::TIFF).len()
            ==> detect_spec(#[trigger] canonical_prefix(FileType::TIFF).take(n)) is None,
{
    let p = canonical_prefix(FileType::TIFF);
    assert(p.len() == 4);
    assert(alts_match(magic_spec(FileType::TIFF), p)) by {
        reveal_with_fuel(alts_match, 2);
        reveal_with_fuel(pattern_matches, 6);
    }
    assert(alts_all_need(magic_spec(FileType::TIFF), 4)) by {
        reveal_with_fuel(alts_all_need, 5);
        reveal_with_fuel(pattern_min_len, 6);
    }
    assert(!alts_match(magic_spec(FileType::JPEG), p)) by {
        reveal_with_fuel(alts_match, 6);
        reveal_with_fuel(pattern_matches, 2);
    }
    assert(!alts_match(magic_spec(FileType::GIF), p)) by {
        reveal_with_fuel(alts_match, 3);
        reveal_with_fuel(pattern_matches, 2);
    }
    assert(!alts_match(magic_spec(FileType::PNG), p)) by {
        reveal_with_fuel(alts_match, 2);
        reveal_with_fuel(pattern_matches, 2);
    }
    assert(!alts_match(magic_spec(FileType::VTF), p)) by {
        reveal_with_fuel(alts_match, 2);
        reveal_with_fuel(pattern_matches, 2);
    }
    assert(!alts_match(magic_spec(FileType::MIDI), p)) by {
        reveal_with_fuel(alts_match, 2);
        reveal_with_fuel(pattern_matches, 2);
    }
    assert(!alts_match(magic_spec(FileType::UnixScript), p)) by {
        reveal_with_fuel(alts_match, 2);
        reveal_with_fuel(pattern_matches, 2);
    }
    assert(!alts_match(magic_spec(FileType::ELF), p)) by {
        reveal_with_fuel(alts_match, 2);
        reveal_with_fuel(pattern_matches, 2);
    }
    assert(!alts_match(magic_spec(FileType::PDF), p)) by {
        reveal_with_fuel(alts_match, 2);
        reveal_with_fuel(pattern_matches, 2);
    }
    assert(!alts_match(magic_spec(FileType::MBR), p)) by {
        reveal_with_fuel(alts_match, 2);
        reveal_with_fuel(pattern_matches, 2);
    }
    assert(!alts_match(magic_spec(FileType::WAD), p)) by {
        reveal_with_fuel(alts_match, 5);
        reveal_with_fuel(pattern_matches, 3);
    }
    assert(!alts_match(magic_spec(FileType::ZIP), p)) by {
        reveal_with_fuel(alts_match, 2);
        reveal_with_fuel(pattern_matches, 2);
    }
    assert(!alts_match(magic_spec(FileType::TAR), p)) by {
        reveal_with_fuel(alts_match, 3);
        reveal_with_fuel(pattern_matches, 2);
    }
    assert(!alts_match(magic_spec(FileType::XML), p)) by {
        reveal_with_fuel(alts_match, 6);
        reveal_with_fuel(pattern_matches, 2);
    }
    assert(!alts_match(magic_spec(FileType::TXT), p)) by {
        reveal_with_fuel(alts_match, 6);
        reveal_with_fuel(pattern_matches, 2);
    }
    assert(!alts_match(magic_spec(FileType::HEIC), p)) by {
        reveal_with_fuel(alts_match, 2);
        reveal_with_fuel(pattern_matches, 2);
    }
    assert(!alts_match(magic_spec(FileType::WEBP), p)) by {
        reveal_with_fuel(alts_match, 2);
        reveal_with_fuel(pattern_matches, 2);
    }
    assert(!alts_match(magic_spec(FileType::NES), p)) by {
        reveal_with_fuel(alts_match, 2);
        reveal_with_fuel(pattern_matches, 2);
    }
    assert(!alts_match(magic_spec(FileType::BMP), p)) by {
        reveal_with_fuel(alts_match, 2);
        reveal_with_fuel(pattern_matches, 2);
    }
    assert(!alts_match(magic_spec(FileType::SPC), p)) by {
        reveal_with_fuel(alts_match, 2);
        reveal_with_fuel(pattern_matches, 2);
    }
    assert(!alts_match(magic_spec(FileType::WAV), p)) by {
        reveal_with_fuel(alts_match, 2);
        reveal_with_fuel(pattern_matches, 2);
    }
    assert(!alts_match(magic_spec(FileType::AVI), p)) by {
        reveal_with_fuel(alts_match, 2);
        reveal_with_fuel(pattern_matches, 2);
    }
    assert(!alts_match(magic_spec(FileType::AIFF), p)) by {
        reveal_with_fuel(alts_match, 2);
        reveal_with_fuel(pattern_matches, 2);
    }
    assert(!alts_match(magic_spec(FileType::MP3), p)) by {
        reveal_with_fuel(alts_match, 5);
        reveal_with_fuel(pattern_matches, 3);
    }
    assert(!alts_match(magic_spec(FileType::MP4), p)) by {
        reveal_with_fuel(alts_match, 2);
        reveal_with_fuel(pattern_matches, 2);
    }
    assert(!alts_match(magic_spec(FileType::OGG), p)) by {
        reveal_with_fuel(alts_match, 2);
        reveal_with_fuel(pattern_matches, 2);
    }
    assert(!alts_match(magic_spec(FileType::FLAC), p)) by {
        reveal_with_fuel(alts_match, 2);
        reveal_with_fuel(pattern_matches, 2);
    }
    assert(!alts_match(magic_spec(FileType::M4A), p)) by {
        reveal_with_fuel(alts_match, 3);
        reveal_with_fuel(pattern_matches, 2);
    }
    assert(!alts_match(magic_spec(FileType::AAC), p)) by {
        reveal_with_fuel(alts_match, 3);
        reveal_with_fuel(pattern_matches, 2);
    }
    assert forall|k2: FileType| k2 != FileType::TIFF implies !kind_matches(k2, p) by {
    }
    assert(detect_spec(p) == Some(FileType::TIFF)) by {
        reveal_with_fuel(first_match_from, 11);
    }
    lemma_truncations_undetected(p, FileType::TIFF);
}

#[verifier::rlimit(100)]
proof fn lemma_canon_wad()
    ensures
        detect_spec(canonical_prefix(FileType::WAD)) == Some(FileType::WAD),
        forall|n: int| 0 <= n < canonical_prefix(FileType::WAD).len()
            ==> detect_spec(#[trigger] canonical_prefix(FileType::WAD).take(n)) is None,
{
    let p = canonical_prefix(FileType::WAD);
    assert(p.len() == 4);
    assert(alts_match(magic_spec(FileType::WAD), p)) by {
        reveal_with_fuel(alts_match, 2);
        reveal_with_fuel(pattern_matches, 6);
    }
    assert(alts_all_need(magic_spec(FileType::WAD), 4)) by {
        reveal_with_fuel(alts_all_need, 5);
        reveal_with_fuel(pattern_min_len, 6);
    }
    assert(!alts_match(magic_spec(FileType::JPEG), p)) by {
        reveal_with_fuel(alts_match, 6);
        reveal_with_fuel(pattern_matches, 2);
    }
    assert(!alts_match(magic_spec(FileType::GIF), p)) by {
        reveal_with_fuel(alts_match, 3);
        reveal_with_fuel(pattern_matches, 2);
    }
    assert(!alts_match(magic_spec(FileType::PNG), p)) by {
        reveal_with_fuel(alts_match, 2);
        reveal_with_fuel(pattern_matches, 2);
    }
    assert(!alts_match(magic_spec(FileType::VTF), p)) by {
        reveal_with_fuel(alts_match, 2);
        reveal_with_fuel(pattern_matches, 2);
    }
    assert(!alts_match(magic_spec(FileType::MIDI), p)) by {
        reveal_with_fuel(alts_match, 2);
        reveal_with_fuel(pattern_matches, 2);
    }
    assert(!alts_match(magic_spec(FileType::UnixScript), p)) by {
        reveal_with_fuel(alts_match, 2);
        reveal_with_fuel(pattern_matches, 2);
    }
    assert(!alts_match(magic_spec(FileType::ELF), p)) by {
        reveal_with_fuel(alts_match, 2);
        reveal_with_fuel(pattern_matches, 2);
    }
    assert(!alts_match(magic_spec(FileType::PDF), p)) by {
        reveal_with_fuel(alts_match, 2);
        reveal_with_fuel(pattern_matches, 2);
    }
    assert(!alts_match(magic_spec(FileType::MBR), p)) by {
        reveal_with_fuel(alts_match, 2);
        reveal_with_fuel(pattern_matches, 2);
    }
    assert(!alts_match(magic_spec(FileType::TIFF), p)) by {
        reveal_with_fuel(alts_match, 5);
        reveal_with_fuel(pattern_matches, 3);
    }
    assert(!alts_match(magic_spec(FileType::ZIP), p)) by {
        reveal_with_fuel(alts_match, 2);
        reveal_with_fuel(pattern_matches, 2);
    }
    assert(!alts_match(magic_spec(FileType::TAR), p)) by {
        reveal_with_fuel(alts_match, 3);
        reveal_with_fuel(pattern_matches, 2);
    }
    assert(!alts_match(magic_spec(FileType::XML), p)) by {
        reveal_with_fuel(alts_match, 6);
        reveal_with_fuel(pattern_matches, 2);
    }
    assert(!alts_match(magic_spec(FileType::TXT), p)) by {
        reveal_with_fuel(alts_match, 6);
        reveal_with_fuel(pattern_matches, 2);
    }
    assert(!alts_match(magic_spec(FileType::HEIC), p)) by {
        reveal_with_fuel(alts_match, 2);
        reveal_with_fuel(pattern_matches, 2);
    }
    assert(!alts_match(magic_spec(FileType::WEBP), p)) by {
        reveal_with_fuel(alts_match, 2);
        reveal_with_fuel(pattern_matches, 2);
    }
    assert(!alts_match(magic_spec(FileType::NES), p)) by {
        reveal_with_fuel(alts_match, 2);
        reveal_with_fuel(pattern_matches, 2);
    }
    assert(!alts_match(magic_spec(FileType::BMP), p)) by {
        reveal_with_fuel(alts_match, 2);
        reveal_with_fuel(pattern_matches, 2);
    }
    assert(!alts_match(magic_spec(FileType::SPC), p)) by {
        reveal_with_fuel(alts_match, 2);
        reveal_with_fuel(pattern_matches, 2);
    }
    assert(!alts_match(magic_spec(FileType::WAV), p)) by {
        reveal_with_fuel(alts_match, 2);
        reveal_with_fuel(pattern_matches, 2);
    }
    assert(!alts_match(magic_spec(FileType::AVI), p)) by {
        reveal_with_fuel(alts_match, 2);
        reveal_with_fuel(pattern_matches, 2);
    }
    assert(!alts_match(magic_spec(FileType::AIFF), p)) by {
        reveal_with_fuel(alts_match, 2);
        reveal_with_fuel(pattern_matches, 2);
    }
    assert(!alts_match(magic_spec(FileType::MP3), p)) by {
        reveal_with_fuel(alts_match, 5);
        reveal_with_fuel(pattern_matches, 3);
    }
    assert(!alts_match(magic_spec(FileType::MP4), p)) by {
        reveal_with_fuel(alts_match, 2);
        reveal_with_fuel(pattern_matches, 2);
    }
    assert(!alts_match(magic_spec(FileType::OGG), p)) by {
        reveal_with_fuel(alts_match, 2);
        reveal_with_fuel(pattern_matches, 2);
    }
    assert(!alts_match(magic_spec(FileType::FLAC), p)) by {
        reveal_with_fuel(alts_match, 2);
        reveal_with_fuel(pattern_matches, 2);
    }
    assert(!alts_match(magic_spec(FileType::M4A), p)) by {
        reveal_with_fuel(alts_match, 3);
        reveal_with_fuel(pattern_matches, 2);
    }
    assert(!alts_match(magic_spec(FileType::AAC), p)) by {
        reveal_with_fuel(alts_match, 3);
        reveal_with_fuel(pattern_matches, 2);
    }
    assert forall|k2: FileType| k2 != FileType::WAD implies !kind_matches(k2, p) by {
    }
    assert(detect_spec(p) == Some(FileType::WAD)) by {
        reveal_with_fuel(first_match_from, 12);
    }
    lemma_truncations_undetected(p, FileType::WAD);
}

#[verifier::rlimit(100)]
proof fn lemma_canon_zip()
    ensures
        detect_spec(canonical_prefix(FileType::ZIP)) == Some(FileType::ZIP),
        forall|n: int| 0 <= n < canonical_prefix(FileType::ZIP).len()
            ==> detect_spec(#[trigger] canonical_prefix(FileType::ZIP).take(n)) is None,
{
    let p = canonical_prefix(FileType::ZIP);
    assert(p.len() == 4);
    assert(alts_match(magic_spec(FileType::ZIP), p)) by {
        reveal_with_fuel(alts_match, 2);
        reveal_with_fuel(pattern_matches, 6);
    }
    assert(alts_all_need(magic_spec(FileType::ZIP), 4)) by {
        reveal_with_fuel(alts_all_need, 2);
        reveal_with_fuel(pattern_min_len, 6);
    }
    assert(!alts_match(magic_spec(FileType::JPEG), p)) by {
        reveal_with_fuel(alts_match, 6);
        reveal_with_fuel(pattern_matches, 2);
    }
    assert(!alts_match(magic_spec(FileType::GIF), p)) by {
        reveal_with_fuel(alts_match, 3);
        reveal_with_fuel(pattern_matches, 2);
    }
    assert(!alts_match(magic_spec(FileType::PNG), p)) by {
        reveal_with_fuel(alts_match, 2);
        reveal_with_fuel(pattern_matches, 2);
    }
    assert(!alts_match(magic_spec(FileType::VTF), p)) by {
        reveal_with_fuel(alts_match, 2);
        reveal_with_fuel(pattern_matches, 2);
    }
    assert(!alts_match(magic_spec(FileType::MIDI), p)) by {
        reveal_with_fuel(alts_match, 2);
        reveal_with_fuel(pattern_matches, 2);
    }
    assert(!alts_match(magic_spec(FileType::UnixScript), p)) by {
        reveal_with_fuel(alts_match, 2);
        reveal_with_fuel(pattern_matches, 2);
    }
    assert(!alts_match(magic_spec(FileType::ELF), p)) by {
        reveal_with_fuel(alts_match, 2);
        reveal_with_fuel(pattern_matches, 2);
    }
    assert(!alts_match(magic_spec(FileType::PDF), p)) by {
        reveal_with_fuel(alts_match, 2);
        reveal_with_fuel(pattern_matches, 2);
    }
    assert(!alts_match(magic_spec(FileType::MBR), p)) by {
        reveal_with_fuel(alts_match, 2);
        reveal_with_fuel(pattern_matches, 2);
    }
    assert(!alts_match(magic_spec(FileType::TIFF), p)) by {
        reveal_with_fuel(alts_match, 5);
        reveal_with_fuel(pattern_matches, 2);
    }
    assert(!alts_match(magic_spec(FileType::WAD), p)) by {
        reveal_with_fuel(alts_match, 5);
        reveal_with_fuel(pattern_matches, 3);
    }
    assert(!alts_match(magic_spec(FileType::TAR), p)) by {
        reveal_with_fuel(alts_match, 3);
        reveal_with_fuel(pattern_matches, 2);
    }
    assert(!alts_match(magic_spec(FileType::XML), p)) by {
        reveal_with_fuel(alts_match, 6);
        reveal_with_fuel(pattern_matches, 2);
    }
    assert(!alts_match(magic_spec(FileType::TXT), p)) by {
        reveal_with_fuel(alts_match, 6);
        reveal_with_fuel(pattern_matches, 2);
    }
    assert(!alts_match(magic_spec(FileType::HEIC), p)) by {
        reveal_with_fuel(alts_match, 2);
        reveal_with_fuel(pattern_matches, 2);
    }
    assert(!alts_match(magic_spec(FileType::WEBP), p)) by {
        reveal_with_fuel(alts_match, 2);
        reveal_with_fuel(pattern_matches, 2);
    }
    assert(!alts_match(magic_spec(FileType::NES), p)) by {
        reveal_with_fuel(alts_match, 2);
        reveal_with_fuel(pattern_matches, 2);
    }
    assert(!alts_match(magic_spec(FileType::BMP), p)) by {
        reveal_with_fuel(alts_match, 2);
        reveal_with_fuel(pattern_matches, 2);
    }
    assert(!alts_match(magic_spec(FileType::SPC), p)) by {
        reveal_with_fuel(alts_match, 2);
        reveal_with_fuel(pattern_matches, 2);
    }
    assert(!alts_match(magic_spec(FileType::WAV), p)) by {
        reveal_with_fuel(alts_match, 2);
        reveal_with_fuel(pattern_matches, 2);
    }
    assert(!alts_match(magic_spec(FileType::AVI), p)) by {
        reveal_with_fuel(alts_match, 2);
        reveal_with_fuel(pattern_matches, 2);
    }
    assert(!alts_match(magic_spec(FileType::AIFF), p)) by {
        reveal_with_fuel(alts_match, 2);
        reveal_with_fuel(pattern_matches, 2);
    }
    assert(!alts_match(magic_spec(FileType::MP3), p)) by {
        reveal_with_fuel(alts_match, 5);
        reveal_with_fuel(pattern_matches, 2);
    }
    assert(!alts_match(magic_spec(FileType::MP4), p)) by {
        reveal_with_fuel(alts_match, 2);
        reveal_with_fuel(pattern_matches, 2);
    }
    assert(!alts_match(magic_spec(FileType::OGG), p)) by {
        reveal_with_fuel(alts_match, 2);
        reveal_with_fuel(pattern_matches, 2);
    }
    assert(!alts_match(magic_spec(FileType::FLAC), p)) by {
        reveal_with_fuel(alts_match, 2);
        reveal_with_fuel(pattern_matches, 2);
    }
    assert(!alts_match(magic_spec(FileType::M4A), p)) by {
        reveal_with_fuel(alts_match, 3);
        reveal_with_fuel(pattern_matches, 2);
    }
    assert(!alts_match(magic_spec(FileType::AAC), p)) by {
        reveal_with_fuel(alts_match, 3);
        reveal_with_fuel(pattern_matches, 2);
    }
    assert forall|k2: FileType| k2 != FileType::ZIP implies !kind_matches(k2, p) by {
    }
    assert(detect_spec(p) == Some(FileType::ZIP)) by {
        reveal_with_fuel(first_match_from, 13);
    }
    lemma_truncations_undetected(p, FileType::ZIP);
}

#[verifier::rlimit(100)]
proof fn lemma_canon_tar()
    ensures
        detect_spec(canonical_prefix(FileType::TAR)) == Some(FileType::TAR),
        forall|n: int| 0 <= n < canonical_prefix(FileType::TAR).len()
            ==> detect_spec(#[trigger] canonical_prefix(FileType::TAR).take(n)) is None,
{
    let p = canonical_prefix(FileType::TAR);
    assert(p.len() == 8);
    assert(alts_match(magic_spec(FileType::TAR), p)) by {
        reveal_with_fuel(alts_match, 2);
        reveal_with_fuel(pattern_matches, 10);
    }
    assert(alts_all_need(magic_spec(FileType::TAR), 8)) by {
        reveal_with_fuel(alts_all_need, 3);
        reveal_with_fuel(pattern_min_len, 10);
    }
    assert(!alts_match(magic_spec(FileType::JPEG), p)) by {
        reveal_with_fuel(alts_match, 6);
        reveal_with_fuel(pattern_matches, 2);
    }
    assert(!alts_match(magic_spec(FileType::GIF), p)) by {
        reveal_with_fuel(alts_match, 3);
        reveal_with_fuel(pattern_matches, 2);
    }
    assert(!alts_match(magic_spec(FileType::PNG), p)) by {
        reveal_with_fuel(alts_match, 2);
        reveal_with_fuel(pattern_matches, 2);
    }
    assert(!alts_match(magic_spec(FileType::VTF), p)) by {
        reveal_with_fuel(alts_match, 2);
        reveal_with_fuel(pattern_matches, 2);
    }
    assert(!alts_match(magic_spec(FileType::MIDI), p)) by {
        reveal_with_fuel(alts_match, 2);
        reveal_with_fuel(pattern_matches, 2);
    }
    assert(!alts_match(magic_spec(FileType::UnixScript), p)) by {
        reveal_with_fuel(alts_match, 2);
        reveal_with_fuel(pattern_matches, 2);
    }
    assert(!alts_match(magic_spec(FileType::ELF), p)) by {
        reveal_with_fuel(alts_match, 2);
        reveal_with_fuel(pattern_matches, 2);
    }
    assert(!alts_match(magic_spec(FileType::PDF), p)) by {
        reveal_with_fuel(alts_match, 2);
        reveal_with_fuel(pattern_matches, 2);
    }
    assert(!alts_match(magic_spec(FileType::MBR), p)) by {
        reveal_with_fuel(alts_match, 2);
        reveal_with_fuel(pattern_matches, 2);
    }
    assert(!alts_match(magic_spec(FileType::TIFF), p)) by {
        reveal_with_fuel(alts_match, 5);
        reveal_with_fuel(pattern_matches, 2);
    }
    assert(!alts_match(magic_spec(FileType::WAD), p)) by {
        reveal_with_fuel(alts_match, 5);
        reveal_with_fuel(pattern_matches, 2);
    }
    assert(!alts_match(magic_spec(FileType::ZIP), p)) by {
        reveal_with_fuel(alts_match, 2);
        reveal_with_fuel(pattern_matches, 2);
    }
    assert(!alts_match(magic_spec(FileType::XML), p)) by {
        reveal_with_fuel(alts_match, 6);
        reveal_with_fuel(pattern_matches, 2);
    }
    assert(!alts_match(magic_spec(FileType::TXT), p)) by {
        reveal_with_fuel(alts_match, 6);
        reveal_with_fuel(pattern_matches, 2);
    }
    assert(!alts_match(magic_spec(FileType::HEIC), p)) by {
        reveal_with_fuel(alts_match, 2);
        reveal_with_fuel(pattern_matches, 2);
    }
    assert(!alts_match(magic_spec(FileType::WEBP), p)) by {
        reveal_with_fuel(alts_match, 2);
        reveal_with_fuel(pattern_matches, 2);
    }
    assert(!alts_match(magic_spec(FileType::NES), p)) by {
        reveal_with_fuel(alts_match, 2);
        reveal_with_fuel(pattern_matches, 2);
    }
    assert(!alts_match(magic_spec(FileType::BMP), p)) by {
        reveal_with_fuel(alts_match, 2);
        reveal_with_fuel(pattern_matches, 2);
    }
    assert(!alts_match(magic_spec(FileType::SPC), p)) by {
        reveal_with_fuel(alts_match, 2);
        reveal_with_fuel(pattern_matches, 2);
    }
    assert(!alts_match(magic_spec(FileType::WAV), p)) by {
        reveal_with_fuel(alts_match, 2);
        reveal_with_fuel(pattern_matches, 2);
    }
    assert(!alts_match(magic_spec(FileType::AVI), p)) by {
        reveal_with_fuel(alts_match, 2);
        reveal_with_fuel(pattern_matches, 2);
    }
    assert(!alts_match(magic_spec(FileType::AIFF), p)) by {
        reveal_with_fuel(alts_match, 2);
        reveal_with_fuel(pattern_matches, 2);
    }
    assert(!alts_match(magic_spec(FileType::MP3), p)) by {
        reveal_with_fuel(alts_match, 5);
        reveal_with_fuel(pattern_matches, 2);
    }
    assert(!alts_match(magic_spec(FileType::MP4), p)) by {
        reveal_with_fuel(alts_match, 2);
        reveal_with_fuel(pattern_matches, 2);
    }
    assert(!alts_match(magic_spec(FileType::OGG), p)) by {
        reveal_with_fuel(alts_match, 2);
        reveal_with_fuel(pattern_matches, 2);
    }
    assert(!alts_match(magic_spec(FileType::FLAC), p)) by {
        reveal_with_fuel(alts_match, 2);
        reveal_with_fuel(pattern_matches, 2);
    }
    assert(!alts_match(magic_spec(FileType::M4A), p)) by {
        reveal_with_fuel(alts_match, 3);
        reveal_with_fuel(pattern_matches, 2);
    }
    assert(!alts_match(magic_spec(FileType::AAC), p)) by {
        reveal_with_fuel(alts_match, 3);
        reveal_with_fuel(pattern_matches, 2);
    }
    assert forall|k2: FileType| k2 != FileType::TAR implies !kind_matches(k2, p) by {
    }
    assert(detect_spec(p) == Some(FileType::TAR)) by {
        reveal_with_fuel(first_match_from, 14);
    }
    lemma_truncations_undetected(p, FileType::TAR);
}

#[verifier::rlimit(100)]
proof fn lemma_canon_xml()
    ensures
        detect_spec(canonical_prefix(FileType::XML)) == Some(FileType::XML),
        forall|n: int| 0 <= n < canonical_prefix(FileType::XML).len()
            ==> detect_spec(#[trigger] canonical_prefix(FileType::XML).take(n)) is None,
{
    let p = canonical_prefix(FileType::XML);
    assert(p.len() == 6);
    assert(alts_match(magic_spec(FileType::XML), p)) by {
        reveal_with_fuel(alts_match, 2);
        reveal_with_fuel(pattern_matches, 8);
    }
    assert(alts_all_need(magic_spec(FileType::XML), 6)) by {
        reveal_with_fuel(alts_all_need, 6);
        reveal_with_fuel(pattern_min_len, 26);
    }
    assert(!alts_match(magic_spec(FileType::JPEG), p)) by {
        reveal_with_fuel(alts_match, 6);
        reveal_with_fuel(pattern_matches, 2);
    }
    assert(!alts_match(magic_spec(FileType::GIF), p)) by {
        reveal_with_fuel(alts_match, 3);
        reveal_with_fuel(pattern_matches, 2);
    }
    assert(!alts_match(magic_spec(FileType::PNG), p)) by {
        reveal_with_fuel(alts_match, 2);
        reveal_with_fuel(pattern_matches, 2);
    }
    assert(!alts_match(magic_spec(FileType::VTF), p)) by {
        reveal_with_fuel(alts_match, 2);
        reveal_with_fuel(pattern_matches, 2);
    }
    assert(!alts_match(magic_spec(FileType::MIDI), p)) by {
        reveal_with_fuel(alts_match, 2);
        reveal_with_fuel(pattern_matches, 2);
    }
    assert(!alts_match(magic_spec(FileType::UnixScript), p)) by {
        reveal_with_fuel(alts_match, 2);
        reveal_with_fuel(pattern_matches, 2);
    }
    assert(!alts_match(magic_spec(FileType::ELF), p)) by {
        reveal_with_fuel(alts_match, 2);
        reveal_with_fuel(pattern_matches, 2);
    }
    assert(!alts_match(magic_spec(FileType::PDF), p)) by {
        reveal_with_fuel(alts_match, 2);
        reveal_with_fuel(pattern_matches, 2);
    }
    assert(!alts_match(magic_spec(FileType::MBR), p)) by {
        reveal_with_fuel(alts_match, 2);
        reveal_with_fuel(pattern_matches, 2);
    }
    assert(!alts_match(magic_spec(FileType::TIFF), p)) by {
        reveal_with_fuel(alts_match, 5);
        reveal_with_fuel(pattern_matches, 2);
    }
    assert(!alts_match(magic_spec(FileType::WAD), p)) by {
        reveal_with_fuel(alts_match, 5);
        reveal_with_fuel(pattern_matches, 2);
    }
    assert(!alts_match(magic_spec(FileType::ZIP), p)) by {
        reveal_with_fuel(alts_match, 2);
        reveal_with_fuel(pattern_matches, 2);
    }
    assert(!alts_match(magic_spec(FileType::TAR), p)) by {
        reveal_with_fuel(alts_match, 3);
        reveal_with_fuel(pattern_matches, 2);
    }
    assert(!alts_match(magic_spec(FileType::TXT), p)) by {
        reveal_with_fuel(alts_match, 6);
        reveal_with_fuel(pattern_matches, 2);
    }
    assert(!alts_match(magic_spec(FileType::HEIC), p)) by {
        reveal_with_fuel(alts_match, 2);
        reveal_with_fuel(pattern_matches, 2);
    }
    assert(!alts_match(magic_spec(FileType::WEBP), p)) by {
        reveal_with_fuel(alts_match, 2);
        reveal_with_fuel(pattern_matches, 2);
    }
    assert(!alts_match(magic_spec(FileType::NES), p)) by {
        reveal_with_fuel(alts_match, 2);
        reveal_with_fuel(pattern_matches, 2);
    }
    assert(!alts_match(magic_spec(FileType::BMP), p)) by {
        reveal_with_fuel(alts_match, 2);
        reveal_with_fuel(pattern_matches, 2);
    }
    assert(!alts_match(magic_spec(FileType::SPC), p)) by {
        reveal_with_fuel(alts_match, 2);
        reveal_with_fuel(pattern_matches, 2);
    }
    assert(!alts_match(magic_spec(FileType::WAV), p)) by {
        reveal_with_fuel(alts_match, 2);
        reveal_with_fuel(pattern_matches, 2);
    }
    assert(!alts_match(magic_spec(FileType::AVI), p)) by {
        reveal_with_fuel(alts_match, 2);
        reveal_with_fuel(pattern_matches, 2);
    }
    assert(!alts_match(magic_spec(FileType::AIFF), p)) by {
        reveal_with_fuel(alts_match, 2);
        reveal_with_fuel(pattern_matches, 2);
    }
    assert(!alts_match(magic_spec(FileType::MP3), p)) by {
        reveal_with_fuel(alts_match, 5);
        reveal_with_fuel(pattern_matches, 2);
    }
    assert(!alts_match(magic_spec(FileType::MP4), p)) by {
        reveal_with_fuel(alts_match, 2);
        reveal_with_fuel(pattern_matches, 2);
    }
    assert(!alts_match(magic_spec(FileType::OGG), p)) by {
        reveal_with_fuel(alts_match, 2);
        reveal_with_fuel(pattern_matches, 2);
    }
    assert(!alts_match(magic_spec(FileType::FLAC), p)) by {
        reveal_with_fuel(alts_match, 2);
        reveal_with_fuel(pattern_matches, 2);
    }
    assert(!alts_match(magic_spec(FileType::M4A), p)) by {
        reveal_with_fuel(alts_match, 3);
        reveal_with_fuel(pattern_matches, 2);
    }
    assert(!alts_match(magic_spec(FileType::AAC), p)) by {
        reveal_with_fuel(alts_match, 3);
        reveal_with_fuel(pattern_matches, 2);
    }
    assert forall|k2: FileType| k2 != FileType::XML implies !kind_matches(k2, p) by {
    }
    assert(detect_spec(p) == Some(FileType::XML)) by {
        reveal_with_fuel(first_match_from, 15);
    }
    lemma_truncations_undetected(p, FileType::XML);
}

#[verifier::rlimit(100)]
proof fn lemma_canon_txt()
    ensures
        detect_spec(canonical_prefix(FileType::TXT)) == Some(FileType::TXT),
        forall|n: int| 0 <= n < canonical_prefix(FileType::TXT).len()
            ==> detect_spec(#[trigger] canonical_prefix(FileType::TXT).take(n)) is None,
{
    let p = canonical_prefix(FileType::TXT);
    assert(p.len() == 2);
    assert(alts_match(magic_spec(FileType::TXT), p)) by {
        reveal_with_fuel(alts_match, 3);
        reveal_with_fuel(pattern_matches, 4);
    }
    assert(alts_all_need(magic_spec(FileType::TXT), 2)) by {
        reveal_with_fuel(alts_all_need, 6);
        reveal_with_fuel(pattern_min_len, 6);
    }
    assert(!alts_match(magic_spec(FileType::JPEG), p)) by {
        reveal_with_fuel(alts_match, 6);
        reveal_with_fuel(pattern_matches, 3);
    }
    assert(!alts_match(magic_spec(FileType::GIF), p)) by {
        reveal_with_fuel(alts_match, 3);
        reveal_with_fuel(pattern_matches, 2);
    }
    assert(!alts_match(magic_spec(FileType::PNG), p)) by {
        reveal_with_fuel(alts_match, 2);
        reveal_with_fuel(pattern_matches, 2);
    }
    assert(!alts_match(magic_spec(FileType::VTF), p)) by {
        reveal_with_fuel(alts_match, 2);
        reveal_with_fuel(pattern_matches, 2);
    }
    assert(!alts_match(magic_spec(FileType::MIDI), p)) by {
        reveal_with_fuel(alts_match, 2);
        reveal_with_fuel(pattern_matches, 2);
    }
    assert(!alts_match(magic_spec(FileType::UnixScript), p)) by {
        reveal_with_fuel(alts_match, 2);
        reveal_with_fuel(pattern_matches, 2);
    }
    assert(!alts_match(magic_spec(FileType::ELF), p)) by {
        reveal_with_fuel(alts_match, 2);
        reveal_with_fuel(pattern_matches, 2);
    }
    assert(!alts_match(magic_spec(FileType::PDF), p)) by {
        reveal_with_fuel(alts_match, 2);
        reveal_with_fuel(pattern_matches, 2);
    }
    assert(!alts_match(magic_spec(FileType::MBR), p)) by {
        reveal_with_fuel(alts_match, 2);
        reveal_with_fuel(pattern_matches, 2);
    }
    assert(!alts_match(magic_spec(FileType::TIFF), p)) by {
        reveal_with_fuel(alts_match, 5);
        reveal_with_fuel(pattern_matches, 2);
    }
    assert(!alts_match(magic_spec(FileType::WAD), p)) by {
        reveal_with_fuel(alts_match, 5);
        reveal_with_fuel(pattern_matches, 2);
    }
    assert(!alts_match(magic_spec(FileType::ZIP), p)) by {
        reveal_with_fuel(alts_match, 2);
        reveal_with_fuel(pattern_matches, 2);
    }
    assert(!alts_match(magic_spec(FileType::TAR), p)) by {
        reveal_with_fuel(alts_match, 3);
        reveal_with_fuel(pattern_matches, 2);
    }
    assert(!alts_match(magic_spec(FileType::XML), p)) by {
        reveal_with_fuel(alts_match, 6);
        reveal_with_fuel(pattern_matches, 2);
    }
    assert(!alts_match(magic_spec(FileType::HEIC), p)) by {
        reveal_with_fuel(alts_match, 2);
        reveal_with_fuel(pattern_matches, 2);
    }
    assert(!alts_match(magic_spec(FileType::WEBP), p)) by {
        reveal_with_fuel(alts_match, 2);
        reveal_with_fuel(pattern_matches, 2);
    }
    assert(!alts_match(magic_spec(FileType::NES), p)) by {
        reveal_with_fuel(alts_match, 2);
        reveal_with_fuel(pattern_matches, 2);
    }
    assert(!alts_match(magic_spec(FileType::BMP), p)) by {
        reveal_with_fuel(alts_match, 2);
        reveal_with_fuel(pattern_matches, 2);
    }
    assert(!alts_match(magic_spec(FileType::SPC), p)) by {
        reveal_with_fuel(alts_match, 2);
        reveal_with_fuel(pattern_matches, 2);
    }
    assert(!alts_match(magic_spec(FileType::WAV), p)) by {
        reveal_with_fuel(alts_match, 2);
        reveal_with_fuel(pattern_matches, 2);
    }
    assert(!alts_match(magic_spec(FileType::AVI), p)) by {
        reveal_with_fuel(alts_match, 2);
        reveal_with_fuel(pattern_matches, 2);
    }
    assert(!alts_match(magic_spec(FileType::AIFF), p)) by {
        reveal_with_fuel(alts_match, 2);
        reveal_with_fuel(pattern_matches, 2);
    }
    assert(!alts_match(magic_spec(FileType::MP3), p)) by {
        reveal_with_fuel(alts_match, 5);
        reveal_with_fuel(pattern_matches, 3);
    }
    assert(!alts_match(magic_spec(FileType::MP4), p)) by {
        reveal_with_fuel(alts_match, 2);
        reveal_with_fuel(pattern_matches, 2);
    }
    assert(!alts_match(magic_spec(FileType::OGG), p)) by {
        reveal_with_fuel(alts_match, 2);
        reveal_with_fuel(pattern_matches, 2);
    }
    assert(!alts_match(magic_spec(FileType::FLAC), p)) by {
        reveal_with_fuel(alts_match, 2);
        reveal_with_fuel(pattern_matches, 2);
    }
    assert(!alts_match(magic_spec(FileType::M4A), p)) by {
        reveal_with_fuel(alts_match, 3);
        reveal_with_fuel(pattern_matches, 2);
    }
    assert(!alts_match(magic_spec(FileType::AAC), p)) by {
        reveal_with_fuel(alts_match, 3);
        reveal_with_fuel(pattern_matches, 3);
    }
    assert forall|k2: FileType| k2 != FileType::TXT implies !kind_matches(k2, p) by {
    }
    assert(detect_spec(p) == Some(FileType::TXT)) by {
        reveal_with_fuel(first_match_from, 16);
    }
    lemma_truncations_undetected(p, FileType::TXT);
}

#[verifier::rlimit(100)]
proof fn lemma_canon_heic()
    ensures
        detect_spec(canonical_prefix(FileType::HEIC)) == Some(FileType::HEIC),
        forall|n: int| 0 <= n < canonical_prefix(FileType::HEIC).len()
            ==> detect_spec(#[trigger] canonical_prefix(FileType::HEIC).take(n)) is None,
{
    let p = canonical_prefix(FileType::HEIC);
    assert(p.len() == 8);
    assert(alts_match(magic_spec(FileType::HEIC), p)) by {
        reveal_with_fuel(alts_match, 2);
        reveal_with_fuel(pattern_matches, 10);
    }
    assert(alts_all_need(magic_spec(FileType::HEIC), 8)) by {
        reveal_with_fuel(alts_all_need, 2);
        reveal_with_fuel(pattern_min_len, 10);
    }
    assert(!alts_match(magic_spec(FileType::JPEG), p)) by {
        reveal_with_fuel(alts_match, 6);
        reveal_with_fuel(pattern_matches, 2);
    }
    assert(!alts_match(magic_spec(FileType::GIF), p)) by {
        reveal_with_fuel(alts_match, 3);
        reveal_with_fuel(pattern_matches, 2);
    }
    assert(!alts_match(magic_spec(FileType::PNG), p)) by {
        reveal_with_fuel(alts_match, 2);
        reveal_with_fuel(pattern_matches, 2);
    }
    assert(!alts_match(magic_spec(FileType::VTF), p)) by {
        reveal_with_fuel(alts_match, 2);
        reveal_with_fuel(pattern_matches, 2);
    }
    assert(!alts_match(magic_spec(FileType::MIDI), p)) by {
        reveal_with_fuel(alts_match, 2);
        reveal_with_fuel(pattern_matches, 2);
    }
    assert(!alts_match(magic_spec(FileType::UnixScript), p)) by {
        reveal_with_fuel(alts_match, 2);
        reveal_with_fuel(pattern_matches, 2);
    }
    assert(!alts_match(magic_spec(FileType::ELF), p)) by {
        reveal_with_fuel(alts_match, 2);
        reveal_with_fuel(pattern_matches, 2);
    }
    assert(!alts_match(magic_spec(FileType::PDF), p)) by {
        reveal_with_fuel(alts_match, 2);
        reveal_with_fuel(pattern_matches, 2);
    }
    assert(!alts_match(magic_spec(FileType::MBR), p)) by {
        reveal_with_fuel(alts_match, 2);
        reveal_with_fuel(pattern_matches, 2);
    }
    assert(!alts_match(magic_spec(FileType::TIFF), p)) by {
        reveal_with_fuel(alts_match, 5);
        reveal_with_fuel(pattern_matches, 2);
    }
    assert(!alts_match(magic_spec(FileType::WAD), p)) by {
        reveal_with_fuel(alts_match, 5);
        reveal_with_fuel(pattern_matches, 2);
    }
    assert(!alts_match(magic_spec(FileType::ZIP), p)) by {
        reveal_with_fuel(alts_match, 2);
        reveal_with_fuel(pattern_matches, 2);
    }
    assert(!alts_match(magic_spec(FileType::TAR), p)) by {
        reveal_with_fuel(alts_match, 3);
        reveal_with_fuel(pattern_matches, 2);
    }
    assert(!alts_match(magic_spec(FileType::XML), p)) by {
        reveal_with_fuel(alts_match, 6);
        reveal_with_fuel(pattern_matches, 2);
    }
    assert(!alts_match(magic_spec(FileType::TXT), p)) by {
        reveal_with_fuel(alts_match, 6);
        reveal_with_fuel(pattern_matches, 2);
    }
    assert(!alts_match(magic_spec(FileType::WEBP), p)) by {
        reveal_with_fuel(alts_match, 2);
        reveal_with_fuel(pattern_matches, 2);
    }
    assert(!alts_match(magic_spec(FileType::NES), p)) by {
        reveal_with_fuel(alts_match, 2);
        reveal_with_fuel(pattern_matches, 2);
    }
    assert(!alts_match(magic_spec(FileType::BMP), p)) by {
        reveal_with_fuel(alts_match, 2);
        reveal_with_fuel(pattern_matches, 2);
    }
    assert(!alts_match(magic_spec(FileType::SPC), p)) by {
        reveal_with_fuel(alts_match, 2);
        reveal_with_fuel(pattern_matches, 2);
    }
    assert(!alts_match(magic_spec(FileType::WAV), p)) by {
        reveal_with_fuel(alts_match, 2);
        reveal_with_fuel(pattern_matches, 2);
    }
    assert(!alts_match(magic_spec(FileType::AVI), p)) by {
        reveal_with_fuel(alts_match, 2);
        reveal_with_fuel(pattern_matches, 2);
    }
    assert(!alts_match(magic_spec(FileType::AIFF), p)) by {
        reveal_with_fuel(alts_match, 2);
        reveal_with_fuel(pattern_matches, 2);
    }
    assert(!alts_match(magic_spec(FileType::MP3), p)) by {
        reveal_with_fuel(alts_match, 5);
        reveal_with_fuel(pattern_matches, 2);
    }
    assert(!alts_match(magic_spec(FileType::MP4), p)) by {
        reveal_with_fuel(alts_match, 2);
        reveal_with_fuel(pattern_matches, 6);
    }
    assert(!alts_match(magic_spec(FileType::OGG), p)) by {
        reveal_with_fuel(alts_match, 2);
        reveal_with_fuel(pattern_matches, 2);
    }
    assert(!alts_match(magic_spec(FileType::FLAC), p)) by {
        reveal_with_fuel(alts_match, 2);
        reveal_with_fuel(pattern_matches, 3);
    }
    assert(!alts_match(magic_spec(FileType::M4A), p)) by {
        reveal_with_fuel(alts_match, 3);
        reveal_with_fuel(pattern_matches, 2);
    }
    assert(!alts_match(magic_spec(FileType::AAC), p)) by {
        reveal_with_fuel(alts_match, 3);
        reveal_with_fuel(pattern_matches, 2);
    }
    assert forall|k2: FileType| k2 != FileType::HEIC implies !kind_matches(k2, p) by {
    }
    assert(detect_spec(p) == Some(FileType::HEIC)) by {
        reveal_with_fuel(first_match_from, 17);
    }
    lemma_truncations_undetected(p, FileType::HEIC);
}

#[verifier::rlimit(100)]
proof fn lemma_canon_webp()
    ensures
        detect_spec(canonical_prefix(FileType::WEBP)) == Some(FileType::WEBP),
        forall|n: int| 0 <= n < canonical_prefix(FileType::WEBP).len()
            ==> detect_spec(#[trigger] canonical_prefix(FileType::WEBP).take(n)) is None,
{
    let p = canonical_prefix(FileType::WEBP);
    assert(p.len() == 12);
    assert(alts_match(magic_spec(FileType::WEBP), p)) by {
        reveal_with_fuel(alts_match, 2);
        reveal_with_fuel(pattern_matches, 11);
    }
    assert(alts_all_need(magic_spec(FileType::WEBP), 12)) by {
        reveal_with_fuel(alts_all_need, 2);
        reveal_with_fuel(pattern_min_len, 11);
    }
    assert(!alts_match(magic_spec(FileType::JPEG), p)) by {
        reveal_with_fuel(alts_match, 6);
        reveal_with_fuel(pattern_matches, 2);
    }
    assert(!alts_match(magic_spec(FileType::GIF), p)) by {
        reveal_with_fuel(alts_match, 3);
        reveal_with_fuel(pattern_matches, 2);
    }
    assert(!alts_match(magic_spec(FileType::PNG), p)) by {
        reveal_with_fuel(alts_match, 2);
        reveal_with_fuel(pattern_matches, 2);
    }
    assert(!alts_match(magic_spec(FileType::VTF), p)) by {
        reveal_with_fuel(alts_match, 2);
        reveal_with_fuel(pattern_matches, 2);
    }
    assert(!alts_match(magic_spec(FileType::MIDI), p)) by {
        reveal_with_fuel(alts_match, 2);
        reveal_with_fuel(pattern_matches, 2);
    }
    assert(!alts_match(magic_spec(FileType::UnixScript), p)) by {
        reveal_with_fuel(alts_match, 2);
        reveal_with_fuel(pattern_matches, 2);
    }
    assert(!alts_match(magic_spec(FileType::ELF), p)) by {
        reveal_with_fuel(alts_match, 2);
        reveal_with_fuel(pattern_matches, 2);
    }
    assert(!alts_match(magic_spec(FileType::PDF), p)) by {
        reveal_with_fuel(alts_match, 2);
        reveal_with_fuel(pattern_matches, 2);
    }
    assert(!alts_match(magic_spec(FileType::MBR), p)) by {
        reveal_with_fuel(alts_match, 2);
        reveal_with_fuel(pattern_matches, 2);
    }
    assert(!alts_match(magic_spec(FileType::TIFF), p)) by {
        reveal_with_fuel(alts_match, 5);
        reveal_with_fuel(pattern_matches, 2);
    }
    assert(!alts_match(magic_spec(FileType::WAD), p)) by {
        reveal_with_fuel(alts_match, 5);
        reveal_with_fuel(pattern_matches, 2);
    }
    assert(!alts_match(magic_spec(FileType::ZIP), p)) by {
        reveal_with_fuel(alts_match, 2);
        reveal_with_fuel(pattern_matches, 2);
    }
    assert(!alts_match(magic_spec(FileType::TAR), p)) by {
        reveal_with_fuel(alts_match, 3);
        reveal_with_fuel(pattern_matches, 2);
    }
    assert(!alts_match(magic_spec(FileType::XML), p)) by {
        reveal_with_fuel(alts_match, 6);
        reveal_with_fuel(pattern_matches, 2);
    }
    assert(!alts_match(magic_spec(FileType::TXT), p)) by {
        reveal_with_fuel(alts_match, 6);
        reveal_with_fuel(pattern_matches, 2);
    }
    assert(!alts_match(magic_spec(FileType::HEIC), p)) by {
        reveal_with_fuel(alts_match, 2);
        reveal_with_fuel(pattern_matches, 2);
    }
    assert(!alts_match(magic_spec(FileType::NES), p)) by {
        reveal_with_fuel(alts_match, 2);
        reveal_with_fuel(pattern_matches, 2);
    }
    assert(!alts_match(magic_spec(FileType::BMP), p)) by {
        reveal_with_fuel(alts_match, 2);
        reveal_with_fuel(pattern_matches, 2);
    }
    assert(!alts_match(magic_spec(FileType::SPC), p)) by {
        reveal_with_fuel(alts_match, 2);
        reveal_with_fuel(pattern_matches, 2);
    }
    assert(!alts_match(magic_spec(FileType::WAV), p)) by {
        reveal_with_fuel(alts_match, 2);
        reveal_with_fuel(pattern_matches, 8);
    }
    assert(!alts_match(magic_spec(FileType::AVI), p)) by {
        reveal_with_fuel(alts_match, 2);
        reveal_with_fuel(pattern_matches, 7);
    }
    assert(!alts_match(magic_spec(FileType::AIFF), p)) by {
        reveal_with_fuel(alts_match, 2);
        reveal_with_fuel(pattern_matches, 2);
    }
    assert(!alts_match(magic_spec(FileType::MP3), p)) by {
        reveal_with_fuel(alts_match, 5);
        reveal_with_fuel(pattern_matches, 2);
    }
    assert(!alts_match(magic_spec(FileType::MP4), p)) by {
        reveal_with_fuel(alts_match, 2);
        reveal_with_fuel(pattern_matches, 2);
    }
    assert(!alts_match(magic_spec(FileType::OGG), p)) by {
        reveal_with_fuel(alts_match, 2);
        reveal_with_fuel(pattern_matches, 2);
    }
    assert(!alts_match(magic_spec(FileType::FLAC), p)) by {
        reveal_with_fuel(alts_match, 2);
        reveal_with_fuel(pattern_matches, 2);
    }
    assert(!alts_match(magic_spec(FileType::M4A), p)) by {
        reveal_with_fuel(alts_match, 3);
        reveal_with_fuel(pattern_matches, 2);
    }
    assert(!alts_match(magic_spec(FileType::AAC), p)) by {
        reveal_with_fuel(alts_match, 3);
        reveal_with_fuel(pattern_matches, 2);
    }
    assert forall|k2: FileType| k2 != FileType::WEBP implies !kind_matches(k2, p) by {
    }
    assert(detect_spec(p) == Some(FileType::WEBP)) by {
        reveal_with_fuel(first_match_from, 18);
    }
    lemma_truncations_undetected(p, FileType::WEBP);
}

#[verifier::rlimit(100)]
proof fn lemma_canon_nes()
    ensures
        detect_spec(canonical_prefix(FileType::NES)) == Some(FileType::NES),
        forall|n: int| 0 <= n < canonical_prefix(FileType::NES).len()
            ==> detect_spec(#[trigger] canonical_prefix(FileType::NES).take(n)) is None,
{
    let p = canonical_prefix(FileType::NES);
    assert(p.len() == 4);
    assert(alts_match(magic_spec(FileType::NES), p)) by {
        reveal_with_fuel(alts_match, 2);
        reveal_with_fuel(pattern_matches, 6);
    }
    assert(alts_all_need(magic_spec(FileType::NES), 4)) by {
        reveal_with_fuel(alts_all_need, 2);
        reveal_with_fuel(pattern_min_len, 6);
    }
    assert(!alts_match(magic_spec(FileType::JPEG), p)) by {
        reveal_with_fuel(alts_match, 6);
        reveal_with_fuel(pattern_matches, 2);
    }
    assert(!alts_match(magic_spec(FileType::GIF), p)) by {
        reveal_with_fuel(alts_match, 3);
        reveal_with_fuel(pattern_matches, 2);
    }
    assert(!alts_match(magic_spec(FileType::PNG), p)) by {
        reveal_with_fuel(alts_match, 2);
        reveal_with_fuel(pattern_matches, 2);
    }
    assert(!alts_match(magic_spec(FileType::VTF), p)) by {
        reveal_with_fuel(alts_match, 2);
        reveal_with_fuel(pattern_matches, 2);
    }
    assert(!alts_match(magic_spec(FileType::MIDI), p)) by {
        reveal_with_fuel(alts_match, 2);
        reveal_with_fuel(pattern_matches, 2);
    }
    assert(!alts_match(magic_spec(FileType::UnixScript), p)) by {
        reveal_with_fuel(alts_match, 2);
        reveal_with_fuel(pattern_matches, 2);
    }
    assert(!alts_match(magic_spec(FileType::ELF), p)) by {
        reveal_with_fuel(alts_match, 2);
        reveal_with_fuel(pattern_matches, 2);
    }
    assert(!alts_match(magic_spec(FileType::PDF), p)) by {
        reveal_with_fuel(alts_match, 2);
        reveal_with_fuel(pattern_matches, 2);
    }
    assert(!alts_match(magic_spec(FileType::MBR), p)) by {
        reveal_with_fuel(alts_match, 2);
        reveal_with_fuel(pattern_matches, 2);
    }
    assert(!alts_match(magic_spec(FileType::TIFF), p)) by {
        reveal_with_fuel(alts_match, 5);
        reveal_with_fuel(pattern_matches, 2);
    }
    assert(!alts_match(magic_spec(FileType::WAD), p)) by {
        reveal_with_fuel(alts_match, 5);
        reveal_with_fuel(pattern_matches, 2);
    }
    assert(!alts_match(magic_spec(FileType::ZIP), p)) by {
        reveal_with_fuel(alts_match, 2);
        reveal_with_fuel(pattern_matches, 2);
    }
    assert(!alts_match(magic_spec(FileType::TAR), p)) by {
        reveal_with_fuel(alts_match, 3);
        reveal_with_fuel(pattern_matches, 2);
    }
    assert(!alts_match(magic_spec(FileType::XML), p)) by {
        reveal_with_fuel(alts_match, 6);
        reveal_with_fuel(pattern_matches, 2);
    }
    assert(!alts_match(magic_spec(FileType::TXT), p)) by {
        reveal_with_fuel(alts_match, 6);
        reveal_with_fuel(pattern_matches, 2);
    }
    assert(!alts_match(magic_spec(FileType::HEIC), p)) by {
        reveal_with_fuel(alts_match, 2);
        reveal_with_fuel(pattern_matches, 2);
    }
    assert(!alts_match(magic_spec(FileType::WEBP), p)) by {
        reveal_with_fuel(alts_match, 2);
        reveal_with_fuel(pattern_matches, 2);
    }
    assert(!alts_match(magic_spec(FileType::BMP), p)) by {
        reveal_with_fuel(alts_match, 2);
        reveal_with_fuel(pattern_matches, 2);
    }
    assert(!alts_match(magic_spec(FileType::SPC), p)) by {
        reveal_with_fuel(alts_match, 2);
        reveal_with_fuel(pattern_matches, 2);
    }
    assert(!alts_match(magic_spec(FileType::WAV), p)) by {
        reveal_with_fuel(alts_match, 2);
        reveal_with_fuel(pattern_matches, 2);
    }
    assert(!alts_match(magic_spec(FileType::AVI), p)) by {
        reveal_with_fuel(alts_match, 2);
        reveal_with_fuel(pattern_matches, 2);
    }
    assert(!alts_match(magic_spec(FileType::AIFF), p)) by {
        reveal_with_fuel(alts_match, 2);
        reveal_with_fuel(pattern_matches, 2);
    }
    assert(!alts_match(magic_spec(FileType::MP3), p)) by {
        reveal_with_fuel(alts_match, 5);
        reveal_with_fuel(pattern_matches, 2);
    }
    assert(!alts_match(magic_spec(FileType::MP4), p)) by {
        reveal_with_fuel(alts_match, 2);
        reveal_with_fuel(pattern_matches, 2);
    }
    assert(!alts_match(magic_spec(FileType::OGG), p)) by {
        reveal_with_fuel(alts_match, 2);
        reveal_with_fuel(pattern_matches, 2);
    }
    assert(!alts_match(magic_spec(FileType::FLAC), p)) by {
        reveal_with_fuel(alts_match, 2);
        reveal_with_fuel(pattern_matches, 2);
    }
    assert(!alts_match(magic_spec(FileType::M4A), p)) by {
        reveal_with_fuel(alts_match, 3);
        reveal_with_fuel(pattern_matches, 2);
    }
    assert(!alts_match(magic_spec(FileType::AAC), p)) by {
        reveal_with_fuel(alts_match, 3);
        reveal_with_fuel(pattern_matches, 2);
    }
    assert forall|k2: FileType| k2 != FileType::NES implies !kind_matches(k2, p) by {
    }
    assert(detect_spec(p) == Some(FileType::NES)) by {
        reveal_with_fuel(first_match_from, 19);
    }
    lemma_truncations_undetected(p, FileType::NES);
}

#[verifier::rlimit(100)]
proof fn lemma_canon_bmp()
    ensures
        detect_spec(canonical_prefix(FileType::BMP)) == Some(FileType::BMP),
        forall|n: int| 0 <= n < canonical_prefix(FileType::BMP).len()
            ==> detect_spec(#[trigger] canonical_prefix(FileType::BMP).take(n)) is None,
{
    let p = canonical_prefix(FileType::BMP);
    assert(p.len() == 2);
    assert(alts_match(magic_spec(FileType::BMP), p)) by {
        reveal_with_fuel(alts_match, 2);
        reveal_with_fuel(pattern_matches, 4);
    }
    assert(alts_all_need(magic_spec(FileType::BMP), 2)) by {
        reveal_with_fuel(alts_all_need, 2);
        reveal_with_fuel(pattern_min_len, 4);
    }
    assert(!alts_match(magic_spec(FileType::JPEG), p)) by {
        reveal_with_fuel(alts_match, 6);
        reveal_with_fuel(pattern_matches, 2);
    }
    assert(!alts_match(magic_spec(FileType::GIF), p)) by {
        reveal_with_fuel(alts_match, 3);
        reveal_with_fuel(pattern_matches, 2);
    }
    assert(!alts_match(magic_spec(FileType::PNG), p)) by {
        reveal_with_fuel(alts_match, 2);
        reveal_with_fuel(pattern_matches, 2);
    }
    assert(!alts_match(magic_spec(FileType::VTF), p)) by {
        reveal_with_fuel(alts_match, 2);
        reveal_with_fuel(pattern_matches, 2);
    }
    assert(!alts_match(magic_spec(FileType::MIDI), p)) by {
        reveal_with_fuel(alts_match, 2);
        reveal_with_fuel(pattern_matches, 2);
    }
    assert(!alts_match(magic_spec(FileType::UnixScript), p)) by {
        reveal_with_fuel(alts_match, 2);
        reveal_with_fuel(pattern_matches, 2);
    }
    assert(!alts_match(magic_spec(FileType::ELF), p)) by {
        reveal_with_fuel(alts_match, 2);
        reveal_with_fuel(pattern_matches, 2);
    }
    assert(!alts_match(magic_spec(FileType::PDF), p)) by {
        reveal_with_fuel(alts_match, 2);
        reveal_with_fuel(pattern_matches, 2);
    }
    assert(!alts_match(magic_spec(FileType::MBR), p)) by {
        reveal_with_fuel(alts_match, 2);
        reveal_with_fuel(pattern_matches, 2);
    }
    assert(!alts_match(magic_spec(FileType::TIFF), p)) by {
        reveal_with_fuel(alts_match, 5);
        reveal_with_fuel(pattern_matches, 2);
    }
    assert(!alts_match(magic_spec(FileType::WAD), p)) by {
        reveal_with_fuel(alts_match, 5);
        reveal_with_fuel(pattern_matches, 2);
    }
    assert(!alts_match(magic_spec(FileType::ZIP), p)) by {
        reveal_with_fuel(alts_match, 2);
        reveal_with_fuel(pattern_matches, 2);
    }
    assert(!alts_match(magic_spec(FileType::TAR), p)) by {
        reveal_with_fuel(alts_match, 3);
        reveal_with_fuel(pattern_matches, 2);
    }
    assert(!alts_match(magic_spec(FileType::XML), p)) by {
        reveal_with_fuel(alts_match, 6);
        reveal_with_fuel(pattern_matches, 2);
    }
    assert(!alts_match(magic_spec(FileType::TXT), p)) by {
        reveal_with_fuel(alts_match, 6);
        reveal_with_fuel(pattern_matches, 2);
    }
    assert(!alts_match(magic_spec(FileType::HEIC), p)) by {
        reveal_with_fuel(alts_match, 2);
        reveal_with_fuel(pattern_matches, 2);
    }
    assert(!alts_match(magic_spec(FileType::WEBP), p)) by {
        reveal_with_fuel(alts_match, 2);
        reveal_with_fuel(pattern_matches, 2);
    }
    assert(!alts_match(magic_spec(FileType::NES), p)) by {
        reveal_with_fuel(alts_match, 2);
        reveal_with_fuel(pattern_matches, 2);
    }
    assert(!alts_match(magic_spec(FileType::SPC), p)) by {
        reveal_with_fuel(alts_match, 2);
        reveal_with_fuel(pattern_matches, 2);
    }
    assert(!alts_match(magic_spec(FileType::WAV), p)) by {
        reveal_with_fuel(alts_match, 2);
        reveal_with_fuel(pattern_matches, 2);
    }
    assert(!alts_match(magic_spec(FileType::AVI), p)) by {
        reveal_with_fuel(alts_match, 2);
        reveal_with_fuel(pattern_matches, 2);
    }
    assert(!alts_match(magic_spec(FileType::AIFF), p)) by {
        reveal_with_fuel(alts_match, 2);
        reveal_with_fuel(pattern_matches, 2);
    }
    assert(!alts_match(magic_spec(FileType::MP3), p)) by {
        reveal_with_fuel(alts_match, 5);
        reveal_with_fuel(pattern_matches, 2);
    }
    assert(!alts_match(magic_spec(FileType::MP4), p)) by {
        reveal_with_fuel(alts_match, 2);
        reveal_with_fuel(pattern_matches, 2);
    }
    assert(!alts_match(magic_spec(FileType::OGG), p)) by {
        reveal_with_fuel(alts_match, 2);
        reveal_with_fuel(pattern_matches, 2);
    }
    assert(!alts_match(magic_spec(FileType::FLAC), p)) by {
        reveal_with_fuel(alts_match, 2);
        reveal_with_fuel(pattern_matches, 2);
    }
    assert(!alts_match(magic_spec(FileType::M4A), p)) by {
        reveal_with_fuel(alts_match, 3);
        reveal_with_fuel(pattern_matches, 2);
    }
    assert(!alts_match(magic_spec(FileType::AAC), p)) by {
        reveal_with_fuel(alts_match, 3);
        reveal_with_fuel(pattern_matches, 2);
    }
    assert forall|k2: FileType| k2 != FileType::BMP implies !kind_matches(k2, p) by {
    }
    assert(detect_spec(p) == Some(FileType::BMP)) by {
        reveal_with_fuel(first_match_from, 20);
    }
    lemma_truncations_undetected(p, FileType::BMP);
}

#[verifier::rlimit(100)]
proof fn lemma_canon_spc()
    ensures
        detect_spec(canonical_prefix(FileType::SPC)) == Some(FileType::SPC),
        forall|n: int| 0 <= n < canonical_prefix(FileType::SPC).len()
            ==> detect_spec(#[trigger] canonical_prefix(FileType::SPC).take(n)) is None,
{
    let p = canonical_prefix(FileType::SPC);
    assert(p.len() == 35);
    assert(alts_match(magic_spec(FileType::SPC), p)) by {
        reveal_with_fuel(alts_match, 2);
        reveal_with_fuel(pattern_matches, 37);
    }
    assert(alts_all_need(magic_spec(FileType::SPC), 35)) by {
        reveal_with_fuel(alts_all_need, 2);
        reveal_with_fuel(pattern_min_len, 37);
    }
    assert(!alts_match(magic_spec(FileType::JPEG), p)) by {
        reveal_with_fuel(alts_match, 6);
        reveal_with_fuel(pattern_matches, 2);
    }
    assert(!alts_match(magic_spec(FileType::GIF), p)) by {
        reveal_with_fuel(alts_match, 3);
        reveal_with_fuel(pattern_matches, 2);
    }
    assert(!alts_match(magic_spec(FileType::PNG), p)) by {
        reveal_with_fuel(alts_match, 2);
        reveal_with_fuel(pattern_matches, 2);
    }
    assert(!alts_match(magic_spec(FileType::VTF), p)) by {
        reveal_with_fuel(alts_match, 2);
        reveal_with_fuel(pattern_matches, 2);
    }
    assert(!alts_match(magic_spec(FileType::MIDI), p)) by {
        reveal_with_fuel(alts_match, 2);
        reveal_with_fuel(pattern_matches, 2);
    }
    assert(!alts_match(magic_spec(FileType::UnixScript), p)) by {
        reveal_with_fuel(alts_match, 2);
        reveal_with_fuel(pattern_matches, 2);
    }
    assert(!alts_match(magic_spec(FileType::ELF), p)) by {
        reveal_with_fuel(alts_match, 2);
        reveal_with_fuel(pattern_matches, 2);
    }
    assert(!alts_match(magic_spec(FileType::PDF), p)) by {
        reveal_with_fuel(alts_match, 2);
        reveal_with_fuel(pattern_matches, 2);
    }
    assert(!alts_match(magic_spec(FileType::MBR), p)) by {
        reveal_with_fuel(alts_match, 2);
        reveal_with_fuel(pattern_matches, 2);
    }
    assert(!alts_match(magic_spec(FileType::TIFF), p)) by {
        reveal_with_fuel(alts_match, 5);
        reveal_with_fuel(pattern_matches, 2);
    }
    assert(!alts_match(magic_spec(FileType::WAD), p)) by {
        reveal_with_fuel(alts_match, 5);
        reveal_with_fuel(pattern_matches, 2);
    }
    assert(!alts_match(magic_spec(FileType::ZIP), p)) by {
        reveal_with_fuel(alts_match, 2);
        reveal_with_fuel(pattern_matches, 2);
    }
    assert(!alts_match(magic_spec(FileType::TAR), p)) by {
        reveal_with_fuel(alts_match, 3);
        reveal_with_fuel(pattern_matches, 2);
    }
    assert(!alts_match(magic_spec(FileType::XML), p)) by {
        reveal_with_fuel(alts_match, 6);
        reveal_with_fuel(pattern_matches, 2);
    }
    assert(!alts_match(magic_spec(FileType::TXT), p)) by {
        reveal_with_fuel(alts_match, 6);
        reveal_with_fuel(pattern_matches, 2);
    }
    assert(!alts_match(magic_spec(FileType::HEIC), p)) by {
        reveal_with_fuel(alts_match, 2);
        reveal_with_fuel(pattern_matches, 2);
    }
    assert(!alts_match(magic_spec(FileType::WEBP), p)) by {
        reveal_with_fuel(alts_match, 2);
        reveal_with_fuel(pattern_matches, 2);
    }
    assert(!alts_match(magic_spec(FileType::NES), p)) by {
        reveal_with_fuel(alts_match, 2);
        reveal_with_fuel(pattern_matches, 2);
    }
    assert(!alts_match(magic_spec(FileType::BMP), p)) by {
        reveal_with_fuel(alts_match, 2);
        reveal_with_fuel(pattern_matches, 2);
    }
    assert(!alts_match(magic_spec(FileType::WAV), p)) by {
        reveal_with_fuel(alts_match, 2);
        reveal_with_fuel(pattern_matches, 2);
    }
    assert(!alts_match(magic_spec(FileType::AVI), p)) by {
        reveal_with_fuel(alts_match, 2);
        reveal_with_fuel(pattern_matches, 2);
    }
    assert(!alts_match(magic_spec(FileType::AIFF), p)) by {
        reveal_with_fuel(alts_match, 2);
        reveal_with_fuel(pattern_matches, 2);
    }
    assert(!alts_match(magic_spec(FileType::MP3), p)) by {
        reveal_with_fuel(alts_match, 5);
        reveal_with_fuel(pattern_matches, 2);
    }
    assert(!alts_match(magic_spec(FileType::MP4), p)) by {
        reveal_with_fuel(alts_match, 2);
        reveal_with_fuel(pattern_matches, 2);
    }
    assert(!alts_match(magic_spec(FileType::OGG), p)) by {
        reveal_with_fuel(alts_match, 2);
        reveal_with_fuel(pattern_matches, 2);
    }
    assert(!alts_match(magic_spec(FileType::FLAC), p)) by {
        reveal_with_fuel(alts_match, 2);
        reveal_with_fuel(pattern_matches, 2);
    }
    assert(!alts_match(magic_spec(FileType::M4A), p)) by {
        reveal_with_fuel(alts_match, 3);
        reveal_with_fuel(pattern_matches, 2);
    }
    assert(!alts_match(magic_spec(FileType::AAC), p)) by {
        reveal_with_fuel(alts_match, 3);
        reveal_with_fuel(pattern_matches, 2);
    }
    assert forall|k2: FileType| k2 != FileType::SPC implies !kind_matches(k2, p) by {
    }
    assert(detect_spec(p) == Some(FileType::SPC)) by {
        reveal_with_fuel(first_match_from, 21);
    }
    lemma_truncations_undetected(p, FileType::SPC);
}

#[verifier::rlimit(100)]
proof fn lemma_canon_wav()
    ensures
        detect_spec(canonical_prefix(FileType::WAV)) == Some(FileType::WAV),
        forall|n: int| 0 <= n < canonical_prefix(FileType::WAV).len()
            ==> detect_spec(#[trigger] canonical_prefix(FileType::WAV).take(n)) is None,
{
    let p = canonical_prefix(FileType::WAV);
    assert(p.len() == 12);
    assert(alts_match(magic_spec(FileType::WAV), p)) by {
        reveal_with_fuel(alts_match, 2);
        reveal_with_fuel(pattern_matches, 11);
    }
    assert(alts_all_need(magic_spec(FileType::WAV), 12)) by {
        reveal_with_fuel(alts_all_need, 2);
        reveal_with_fuel(pattern_min_len, 11);
    }
    assert(!alts_match(magic_spec(FileType::JPEG), p)) by {
        reveal_with_fuel(alts_match, 6);
        reveal_with_fuel(pattern_matches, 2);
    }
    assert(!alts_match(magic_spec(FileType::GIF), p)) by {
        reveal_with_fuel(alts_match, 3);
        reveal_with_fuel(pattern_matches, 2);
    }
    assert(!alts_match(magic_spec(FileType::PNG), p)) by {
        reveal_with_fuel(alts_match, 2);
        reveal_with_fuel(pattern_matches, 2);
    }
    assert(!alts_match(magic_spec(FileType::VTF), p)) by {
        reveal_with_fuel(alts_match, 2);
        reveal_with_fuel(pattern_matches, 2);
    }
    assert(!alts_match(magic_spec(FileType::MIDI), p)) by {
        reveal_with_fuel(alts_match, 2);
        reveal_with_fuel(pattern_matches, 2);
    }
    assert(!alts_match(magic_spec(FileType::UnixScript), p)) by {
        reveal_with_fuel(alts_match, 2);
        reveal_with_fuel(pattern_matches, 2);
    }
    assert(!alts_match(magic_spec(FileType::ELF), p)) by {
        reveal_with_fuel(alts_match, 2);
        reveal_with_fuel(pattern_matches, 2);
    }
    assert(!alts_match(magic_spec(FileType::PDF), p)) by {
        reveal_with_fuel(alts_match, 2);
        reveal_with_fuel(pattern_matches, 2);
    }
    assert(!alts_match(magic_spec(FileType::MBR), p)) by {
        reveal_with_fuel(alts_match, 2);
        reveal_with_fuel(pattern_matches, 2);
    }
    assert(!alts_match(magic_spec(FileType::TIFF), p)) by {
        reveal_with_fuel(alts_match, 5);
        reveal_with_fuel(pattern_matches, 2);
    }
    assert(!alts_match(magic_spec(FileType::WAD), p)) by {
        reveal_with_fuel(alts_match, 5);
        reveal_with_fuel(pattern_matches, 2);
    }
    assert(!alts_match(magic_spec(FileType::ZIP), p)) by {
        reveal_with_fuel(alts_match, 2);
        reveal_with_fuel(pattern_matches, 2);
    }
    assert(!alts_match(magic_spec(FileType::TAR), p)) by {
        reveal_with_fuel(alts_match, 3);
        reveal_with_fuel(pattern_matches, 2);
    }
    assert(!alts_match(magic_spec(FileType::XML), p)) by {
        reveal_with_fuel(alts_match, 6);
        reveal_with_fuel(pattern_matches, 2);
    }
    assert(!alts_match(magic_spec(FileType::TXT), p)) by {
        reveal_with_fuel(alts_match, 6);
        reveal_with_fuel(pattern_matches, 2);
    }
    assert(!alts_match(magic_spec(FileType::HEIC), p)) by {
        reveal_with_fuel(alts_match, 2);
        reveal_with_fuel(pattern_matches, 2);
    }
    assert(!alts_match(magic_spec(FileType::WEBP), p)) by {
        reveal_with_fuel(alts_match, 2);
        reveal_with_fuel(pattern_matches, 8);
    }
    assert(!alts_match(magic_spec(FileType::NES), p)) by {
        reveal_with_fuel(alts_match, 2);
        reveal_with_fuel(pattern_matches, 2);
    }
    assert(!alts_match(magic_spec(FileType::BMP), p)) by {
        reveal_with_fuel(alts_match, 2);
        reveal_with_fuel(pattern_matches, 2);
    }
    assert(!alts_match(magic_spec(FileType::SPC), p)) by {
        reveal_with_fuel(alts_match, 2);
        reveal_with_fuel(pattern_matches, 2);
    }
    assert(!alts_match(magic_spec(FileType::AVI), p)) by {
        reveal_with_fuel(alts_match, 2);
        reveal_with_fuel(pattern_matches, 7);
    }
    assert(!alts_match(magic_spec(FileType::AIFF), p)) by {
        reveal_with_fuel(alts_match, 2);
        reveal_with_fuel(pattern_matches, 2);
    }
    assert(!alts_match(magic_spec(FileType::MP3), p)) by {
        reveal_with_fuel(alts_match, 5);
        reveal_with_fuel(pattern_matches, 2);
    }
    assert(!alts_match(magic_spec(FileType::MP4), p)) by {
        reveal_with_fuel(alts_match, 2);
        reveal_with_fuel(pattern_matches, 2);
    }
    assert(!alts_match(magic_spec(FileType::OGG), p)) by {
        reveal_with_fuel(alts_match, 2);
        reveal_with_fuel(pattern_matches, 2);
    }
    assert(!alts_match(magic_spec(FileType::FLAC), p)) by {
        reveal_with_fuel(alts_match, 2);
        reveal_with_fuel(pattern_matches, 2);
    }
    assert(!alts_match(magic_spec(FileType::M4A), p)) by {
        reveal_with_fuel(alts_match, 3);
        reveal_with_fuel(pattern_matches, 2);
    }
    assert(!alts_match(magic_spec(FileType::AAC), p)) by {
        reveal_with_fuel(alts_match, 3);
        reveal_with_fuel(pattern_matches, 2);
    }
    assert forall|k2: FileType| k2 != FileType::WAV implies !kind_matches(k2, p) by {
    }
    assert(detect_spec(p) == Some(FileType::WAV)) by {
        reveal_with_fuel(first_match_from, 22);
    }
    lemma_truncations_undetected(p, FileType::WAV);
}

#[verifier::rlimit(100)]
proof fn lemma_canon_avi()
    ensures
        detect_spec(canonical_prefix(FileType::AVI)) == Some(FileType::AVI),
        forall|n: int| 0 <= n < canonical_prefix(FileType::AVI).len()
            ==> detect_spec(#[trigger] canonical_prefix(FileType::AVI).take(n)) is None,
{
    let p = canonical_prefix(FileType::AVI);
    assert(p.len() == 12);
    assert(alts_match(magic_spec(FileType::AVI), p)) by {
        reveal_with_fuel(alts_match, 2);
        reveal_with_fuel(pattern_matches, 11);
    }
    assert(alts_all_need(magic_spec(FileType::AVI), 12)) by {
        reveal_with_fuel(alts_all_need, 2);
        reveal_with_fuel(pattern_min_len, 11);
    }
    assert(!alts_match(magic_spec(FileType::JPEG), p)) by {
        reveal_with_fuel(alts_match, 6);
        reveal_with_fuel(pattern_matches, 2);
    }
    assert(!alts_match(magic_spec(FileType::GIF), p)) by {
        reveal_with_fuel(alts_match, 3);
        reveal_with_fuel(pattern_matches, 2);
    }
    assert(!alts_match(magic_spec(FileType::PNG), p)) by {
        reveal_with_fuel(alts_match, 2);
        reveal_with_fuel(pattern_matches, 2);
    }
    assert(!alts_match(magic_spec(FileType::VTF), p)) by {
        reveal_with_fuel(alts_match, 2);
        reveal_with_fuel(pattern_matches, 2);
    }
    assert(!alts_match(magic_spec(FileType::MIDI), p)) by {
        reveal_with_fuel(alts_match, 2);
        reveal_with_fuel(pattern_matches, 2);
    }
    assert(!alts_match(magic_spec(FileType::UnixScript), p)) by {
        reveal_with_fuel(alts_match, 2);
        reveal_with_fuel(pattern_matches, 2);
    }
    assert(!alts_match(magic_spec(FileType::ELF), p)) by {
        reveal_with_fuel(alts_match, 2);
        reveal_with_fuel(pattern_matches, 2);
    }
    assert(!alts_match(magic_spec(FileType::PDF), p)) by {
        reveal_with_fuel(alts_match, 2);
        reveal_with_fuel(pattern_matches, 2);
    }
    assert(!alts_match(magic_spec(FileType::MBR), p)) by {
        reveal_with_fuel(alts_match, 2);
        reveal_with_fuel(pattern_matches, 2);
    }
    assert(!alts_match(magic_spec(FileType::TIFF), p)) by {
        reveal_with_fuel(alts_match, 5);
        reveal_with_fuel(pattern_matches, 2);
    }
    assert(!alts_match(magic_spec(FileType::WAD), p)) by {
        reveal_with_fuel(alts_match, 5);
        reveal_with_fuel(pattern_matches, 2);
    }
    assert(!alts_match(magic_spec(FileType::ZIP), p)) by {
        reveal_with_fuel(alts_match, 2);
        reveal_with_fuel(pattern_matches, 2);
    }
    assert(!alts_match(magic_spec(FileType::TAR), p)) by {
        reveal_with_fuel(alts_match, 3);
        reveal_with_fuel(pattern_matches, 2);
    }
    assert(!alts_match(magic_spec(FileType::XML), p)) by {
        reveal_with_fuel(alts_match, 6);
        reveal_with_fuel(pattern_matches, 2);
    }
    assert(!alts_match(magic_spec(FileType::TXT), p)) by {
        reveal_with_fuel(alts_match, 6);
        reveal_with_fuel(pattern_matches, 2);
    }
    assert(!alts_match(magic_spec(FileType::HEIC), p)) by {
        reveal_with_fuel(alts_match, 2);
        reveal_with_fuel(pattern_matches, 2);
    }
    assert(!alts_match(magic_spec(FileType::WEBP), p)) by {
        reveal_with_fuel(alts_match, 2);
        reveal_with_fuel(pattern_matches, 7);
    }
    assert(!alts_match(magic_spec(FileType::NES), p)) by {
        reveal_with_fuel(alts_match, 2);
        reveal_with_fuel(pattern_matches, 2);
    }
    assert(!alts_match(magic_spec(FileType::BMP), p)) by {
        reveal_with_fuel(alts_match, 2);
        reveal_with_fuel(pattern_matches, 2);
    }
    assert(!alts_match(magic_spec(FileType::SPC), p)) by {
        reveal_with_fuel(alts_match, 2);
        reveal_with_fuel(pattern_matches, 2);
    }
    assert(!alts_match(magic_spec(FileType::WAV), p)) by {
        reveal_with_fuel(alts_match, 2);
        reveal_with_fuel(pattern_matches, 7);
    }
    assert(!alts_match(magic_spec(FileType::AIFF), p)) by {
        reveal_with_fuel(alts_match, 2);
        reveal_with_fuel(pattern_matches, 2);
    }
    assert(!alts_match(magic_spec(FileType::MP3), p)) by {
        reveal_with_fuel(alts_match, 5);
        reveal_with_fuel(pattern_matches, 2);
    }
    assert(!alts_match(magic_spec(FileType::MP4), p)) by {
        reveal_with_fuel(alts_match, 2);
        reveal_with_fuel(pattern_matches, 2);
    }
    assert(!alts_match(magic_spec(FileType::OGG), p)) by {
        reveal_with_fuel(alts_match, 2);
        reveal_with_fuel(pattern_matches, 2);
    }
    assert(!alts_match(magic_spec(FileType::FLAC), p)) by {
        reveal_with_fuel(alts_match, 2);
        reveal_with_fuel(pattern_matches, 2);
    }
    assert(!alts_match(magic_spec(FileType::M4A), p)) by {
        reveal_with_fuel(alts_match, 3);
        reveal_with_fuel(pattern_matches, 2);
    }
    assert(!alts_match(magic_spec(FileType::AAC), p)) by {
        reveal_with_fuel(alts_match, 3);
        reveal_with_fuel(pattern_matches, 2);
    }
    assert forall|k2: FileType| k2 != FileType::AVI implies !kind_matches(k2, p) by {
    }
    assert(detect_spec(p) == Some(FileType::AVI)) by {
        reveal_with_fuel(first_match_from, 23);
    }
    lemma_truncations_undetected(p, FileType::AVI);
}

#[verifier::rlimit(100)]
proof fn lemma_canon_aiff()
    ensures
        detect_spec(canonical_prefix(FileType::AIFF)) == Some(FileType::AIFF),
        forall|n: int| 0 <= n < canonical_prefix(FileType::AIFF).len()
            ==> detect_spec(#[trigger] canonical_prefix(FileType::AIFF).take(n)) is None,
{
    let p = canonical_prefix(FileType::AIFF);
    assert(p.len() == 12);
    assert(alts_match(magic_spec(FileType::AIFF), p)) by {
        reveal_with_fuel(alts_match, 2);
        reveal_with_fuel(pattern_matches, 11);
    }
    assert(alts_all_need(magic_spec(FileType::AIFF), 12)) by {
        reveal_with_fuel(alts_all_need, 2);
        reveal_with_fuel(pattern_min_len, 11);
    }
    assert(!alts_match(magic_spec(FileType::JPEG), p)) by {
        reveal_with_fuel(alts_match, 6);
        reveal_with_fuel(pattern_matches, 2);
    }
    assert(!alts_match(magic_spec(FileType::GIF), p)) by {
        reveal_with_fuel(alts_match, 3);
        reveal_with_fuel(pattern_matches, 2);
    }
    assert(!alts_match(magic_spec(FileType::PNG), p)) by {
        reveal_with_fuel(alts_match, 2);
        reveal_with_fuel(pattern_matches, 2);
    }
    assert(!alts_match(magic_spec(FileType::VTF), p)) by {
        reveal_with_fuel(alts_match, 2);
        reveal_with_fuel(pattern_matches, 2);
    }
    assert(!alts_match(magic_spec(FileType::MIDI), p)) by {
        reveal_with_fuel(alts_match, 2);
        reveal_with_fuel(pattern_matches, 2);
    }
    assert(!alts_match(magic_spec(FileType::UnixScript), p)) by {
        reveal_with_fuel(alts_match, 2);
        reveal_with_fuel(pattern_matches, 2);
    }
    assert(!alts_match(magic_spec(FileType::ELF), p)) by {
        reveal_with_fuel(alts_match, 2);
        reveal_with_fuel(pattern_matches, 2);
    }
    assert(!alts_match(magic_spec(FileType::PDF), p)) by {
        reveal_with_fuel(alts_match, 2);
        reveal_with_fuel(pattern_matches, 2);
    }
    assert(!alts_match(magic_spec(FileType::MBR), p)) by {
        reveal_with_fuel(alts_match, 2);
        reveal_with_fuel(pattern_matches, 2);
    }
    assert(!alts_match(magic_spec(FileType::TIFF), p)) by {
        reveal_with_fuel(alts_match, 5);
        reveal_with_fuel(pattern_matches, 2);
    }
    assert(!alts_match(magic_spec(FileType::WAD), p)) by {
        reveal_with_fuel(alts_match, 5);
        reveal_with_fuel(pattern_matches, 2);
    }
    assert(!alts_match(magic_spec(FileType::ZIP), p)) by {
        reveal_with_fuel(alts_match, 2);
        reveal_with_fuel(pattern_matches, 2);
    }
    assert(!alts_match(magic_spec(FileType::TAR), p)) by {
        reveal_with_fuel(alts_match, 3);
        reveal_with_fuel(pattern_matches, 2);
    }
    assert(!alts_match(magic_spec(FileType::XML), p)) by {
        reveal_with_fuel(alts_match, 6);
        reveal_with_fuel(pattern_matches, 2);
    }
    assert(!alts_match(magic_spec(FileType::TXT), p)) by {
        reveal_with_fuel(alts_match, 6);
        reveal_with_fuel(pattern_matches, 2);
    }
    assert(!alts_match(magic_spec(FileType::HEIC), p)) by {
        reveal_with_fuel(alts_match, 2);
        reveal_with_fuel(pattern_matches, 2);
    }
    assert(!alts_match(magic_spec(FileType::WEBP), p)) by {
        reveal_with_fuel(alts_match, 2);
        reveal_with_fuel(pattern_matches, 2);
    }
    assert(!alts_match(magic_spec(FileType::NES), p)) by {
        reveal_with_fuel(alts_match, 2);
        reveal_with_fuel(pattern_matches, 2);
    }
    assert(!alts_match(magic_spec(FileType::BMP), p)) by {
        reveal_with_fuel(alts_match, 2);
        reveal_with_fuel(pattern_matches, 2);
    }
    assert(!alts_match(magic_spec(FileType::SPC), p)) by {
        reveal_with_fuel(alts_match, 2);
        reveal_with_fuel(pattern_matches, 2);
    }
    assert(!alts_match(magic_spec(FileType::WAV), p)) by {
        reveal_with_fuel(alts_match, 2);
        reveal_with_fuel(pattern_matches, 2);
    }
    assert(!alts_match(magic_spec(FileType::AVI), p)) by {
        reveal_with_fuel(alts_match, 2);
        reveal_with_fuel(pattern_matches, 2);
    }
    assert(!alts_match(magic_spec(FileType::MP3), p)) by {
        reveal_with_fuel(alts_match, 5);
        reveal_with_fuel(pattern_matches, 2);
    }
    assert(!alts_match(magic_spec(FileType::MP4), p)) by {
        reveal_with_fuel(alts_match, 2);
        reveal_with_fuel(pattern_matches, 2);
    }
    assert(!alts_match(magic_spec(FileType::OGG), p)) by {
        reveal_with_fuel(alts_match, 2);
        reveal_with_fuel(pattern_matches, 2);
    }
    assert(!alts_match(magic_spec(FileType::FLAC), p)) by {
        reveal_with_fuel(alts_match, 2);
        reveal_with_fuel(pattern_matches, 2);
    }
    assert(!alts_match(magic_spec(FileType::M4A), p)) by {
        reveal_with_fuel(alts_match, 3);
        reveal_with_fuel(pattern_matches, 2);
    }
    assert(!alts_match(magic_spec(FileType::AAC), p)) by {
        reveal_with_fuel(alts_match, 3);
        reveal_with_fuel(pattern_matches, 2);
    }
    assert forall|k2: FileType| k2 != FileType::AIFF implies !kind_matches(k2, p) by {
    }
    assert(detect_spec(p) == Some(FileType::AIFF)) by {
        reveal_with_fuel(first_match_from, 24);
    }
    lemma_truncations_undetected(p, FileType::AIFF);
}

#[verifier::rlimit(100)]
proof fn lemma_canon_mp3()
    ensures
        detect_spec(canonical_prefix(FileType::MP3)) == Some(FileType::MP3),
        forall|n: int| 0 <= n < canonical_prefix(FileType::MP3).len()
            ==> detect_spec(#[trigger] canonical_prefix(FileType::MP3).take(n)) is None,
{
    let p = canonical_prefix(FileType::MP3);
    assert(p.len() == 2);
    assert(alts_match(magic_spec(FileType::MP3), p)) by {
        reveal_with_fuel(alts_match, 2);
        reveal_with_fuel(pattern_matches, 4);
    }
    assert(alts_all_need(magic_spec(FileType::MP3), 2)) by {
        reveal_with_fuel(alts_all_need, 5);
        reveal_with_fuel(pattern_min_len, 5);
    }
    assert(!alts_match(magic_spec(FileType::JPEG), p)) by {
        reveal_with_fuel(alts_match, 6);
        reveal_with_fuel(pattern_matches, 3);
    }
    assert(!alts_match(magic_spec(FileType::GIF), p)) by {
        reveal_with_fuel(alts_match, 3);
        reveal_with_fuel(pattern_matches, 2);
    }
    assert(!alts_match(magic_spec(FileType::PNG), p)) by {
        reveal_with_fuel(alts_match, 2);
        reveal_with_fuel(pattern_matches, 2);
    }
    assert(!alts_match(magic_spec(FileType::VTF), p)) by {
        reveal_with_fuel(alts_match, 2);
        reveal_with_fuel(pattern_matches, 2);
    }
    assert(!alts_match(magic_spec(FileType::MIDI), p)) by {
        reveal_with_fuel(alts_match, 2);
        reveal_with_fuel(pattern_matches, 2);
    }
    assert(!alts_match(magic_spec(FileType::UnixScript), p)) by {
        reveal_with_fuel(alts_match, 2);
        reveal_with_fuel(pattern_matches, 2);
    }
    assert(!alts_match(magic_spec(FileType::ELF), p)) by {
        reveal_with_fuel(alts_match, 2);
        reveal_with_fuel(pattern_matches, 2);
    }
    assert(!alts_match(magic_spec(FileType::PDF), p)) by {
        reveal_with_fuel(alts_match, 2);
        reveal_with_fuel(pattern_matches, 2);
    }
    assert(!alts_match(magic_spec(FileType::MBR), p)) by {
        reveal_with_fuel(alts_match, 2);
        reveal_with_fuel(pattern_matches, 2);
    }
    assert(!alts_match(magic_spec(FileType::TIFF), p)) by {
        reveal_with_fuel(alts_match, 5);
        reveal_with_fuel(pattern_matches, 2);
    }
    assert(!alts_match(magic_spec(FileType::WAD), p)) by {
        reveal_with_fuel(alts_match, 5);
        reveal_with_fuel(pattern_matches, 2);
    }
    assert(!alts_match(magic_spec(FileType::ZIP), p)) by {
        reveal_with_fuel(alts_match, 2);
        reveal_with_fuel(pattern_matches, 2);
    }
    assert(!alts_match(magic_spec(FileType::TAR), p)) by {
        reveal_with_fuel(alts_match, 3);
        reveal_with_fuel(pattern_matches, 2);
    }
    assert(!alts_match(magic_spec(FileType::XML), p)) by {
        reveal_with_fuel(alts_match, 6);
        reveal_with_fuel(pattern_matches, 2);
    }
    assert(!alts_match(magic_spec(FileType::TXT), p)) by {
        reveal_with_fuel(alts_match, 6);
        reveal_with_fuel(pattern_matches, 3);
    }
    assert(!alts_match(magic_spec(FileType::HEIC), p)) by {
        reveal_with_fuel(alts_match, 2);
        reveal_with_fuel(pattern_matches, 2);
    }
    assert(!alts_match(magic_spec(FileType::WEBP), p)) by {
        reveal_with_fuel(alts_match, 2);
        reveal_with_fuel(pattern_matches, 2);
    }
    assert(!alts_match(magic_spec(FileType::NES), p)) by {
        reveal_with_fuel(alts_match, 2);
        reveal_with_fuel(pattern_matches, 2);
    }
    assert(!alts_match(magic_spec(FileType::BMP), p)) by {
        reveal_with_fuel(alts_match, 2);
        reveal_with_fuel(pattern_matches, 2);
    }
    assert(!alts_match(magic_spec(FileType::SPC), p)) by {
        reveal_with_fuel(alts_match, 2);
        reveal_with_fuel(pattern_matches, 2);
    }
    assert(!alts_match(magic_spec(FileType::WAV), p)) by {
        reveal_with_fuel(alts_match, 2);
        reveal_with_fuel(pattern_matches, 2);
    }
    assert(!alts_match(magic_spec(FileType::AVI), p)) by {
        reveal_with_fuel(alts_match, 2);
        reveal_with_fuel(pattern_matches, 2);
    }
    assert(!alts_match(magic_spec(FileType::AIFF), p)) by {
        reveal_with_fuel(alts_match, 2);
        reveal_with_fuel(pattern_matches, 2);
    }
    assert(!alts_match(magic_spec(FileType::MP4), p)) by {
        reveal_with_fuel(alts_match, 2);
        reveal_with_fuel(pattern_matches, 2);
    }
    assert(!alts_match(magic_spec(FileType::OGG), p)) by {
        reveal_with_fuel(alts_match, 2);
        reveal_with_fuel(pattern_matches, 2);
    }
    assert(!alts_match(magic_spec(FileType::FLAC), p)) by {
        reveal_with_fuel(alts_match, 2);
        reveal_with_fuel(pattern_matches, 2);
    }
    assert(!alts_match(magic_spec(FileType::M4A), p)) by {
        reveal_with_fuel(alts_match, 3);
        reveal_with_fuel(pattern_matches, 2);
    }
    assert(!alts_match(magic_spec(FileType::AAC), p)) by {
        reveal_with_fuel(alts_match, 3);
        reveal_with_fuel(pattern_matches, 3);
    }
    assert forall|k2: FileType| k2 != FileType::MP3 implies !kind_matches(k2, p) by {
    }
    assert(detect_spec(p) == Some(FileType::MP3)) by {
        reveal_with_fuel(first_match_from, 25);
    }
    lemma_truncations_undetected(p, FileType::MP3);
}

#[verifier::rlimit(100)]
proof fn lemma_canon_mp4()
    ensures
        detect_spec(canonical_prefix(FileType::MP4)) == Some(FileType::MP4),
        forall|n: int| 0 <= n < canonical_prefix(FileType::MP4).len()
            ==> detect_spec(#[trigger] canonical_prefix(FileType::MP4).take(n)) is None,
{
    let p = canonical_prefix(FileType::MP4);
    assert(p.len() == 8);
    assert(alts_match(magic_spec(FileType::MP4), p)) by {
        reveal_with_fuel(alts_match, 2);
        reveal_with_fuel(pattern_matches, 10);
    }
    assert(alts_all_need(magic_spec(FileType::MP4), 8)) by {
        reveal_with_fuel(alts_all_need, 2);
        reveal_with_fuel(pattern_min_len, 10);
    }
    assert(!alts_match(magic_spec(FileType::JPEG), p)) by {
        reveal_with_fuel(alts_match, 6);
        reveal_with_fuel(pattern_matches, 2);
    }
    assert(!alts_match(magic_spec(FileType::GIF), p)) by {
        reveal_with_fuel(alts_match, 3);
        reveal_with_fuel(pattern_matches, 2);
    }
    assert(!alts_match(magic_spec(FileType::PNG), p)) by {
        reveal_with_fuel(alts_match, 2);
        reveal_with_fuel(pattern_matches, 2);
    }
    assert(!alts_match(magic_spec(FileType::VTF), p)) by {
        reveal_with_fuel(alts_match, 2);
        reveal_with_fuel(pattern_matches, 2);
    }
    assert(!alts_match(magic_spec(FileType::MIDI), p)) by {
        reveal_with_fuel(alts_match, 2);
        reveal_with_fuel(pattern_matches, 2);
    }
    assert(!alts_match(magic_spec(FileType::UnixScript), p)) by {
        reveal_with_fuel(alts_match, 2);
        reveal_with_fuel(pattern_matches, 2);
    }
    assert(!alts_match(magic_spec(FileType::ELF), p)) by {
        reveal_with_fuel(alts_match, 2);
        reveal_with_fuel(pattern_matches, 2);
    }
    assert(!alts_match(magic_spec(FileType::PDF), p)) by {
        reveal_with_fuel(alts_match, 2);
        reveal_with_fuel(pattern_matches, 2);
    }
    assert(!alts_match(magic_spec(FileType::MBR), p)) by {
        reveal_with_fuel(alts_match, 2);
        reveal_with_fuel(pattern_matches, 2);
    }
    assert(!alts_match(magic_spec(FileType::TIFF), p)) by {
        reveal_with_fuel(alts_match, 5);
        reveal_with_fuel(pattern_matches, 2);
    }
    assert(!alts_match(magic_spec(FileType::WAD), p)) by {
        reveal_with_fuel(alts_match, 5);
        reveal_with_fuel(pattern_matches, 2);
    }
    assert(!alts_match(magic_spec(FileType::ZIP), p)) by {
        reveal_with_fuel(alts_match, 2);
        reveal_with_fuel(pattern_matches, 2);
    }
    assert(!alts_match(magic_spec(FileType::TAR), p)) by {
        reveal_with_fuel(alts_match, 3);
        reveal_with_fuel(pattern_matches, 2);
    }
    assert(!alts_match(magic_spec(FileType::XML), p)) by {
        reveal_with_fuel(alts_match, 6);
        reveal_with_fuel(pattern_matches, 2);
    }
    assert(!alts_match(magic_spec(FileType::TXT), p)) by {
        reveal_with_fuel(alts_match, 6);
        reveal_with_fuel(pattern_matches, 2);
    }
    assert(!alts_match(magic_spec(FileType::HEIC), p)) by {
        reveal_with_fuel(alts_match, 2);
        reveal_with_fuel(pattern_matches, 6);
    }
    assert(!alts_match(magic_spec(FileType::WEBP), p)) by {
        reveal_with_fuel(alts_match, 2);
        reveal_with_fuel(pattern_matches, 2);
    }
    assert(!alts_match(magic_spec(FileType::NES), p)) by {
        reveal_with_fuel(alts_match, 2);
        reveal_with_fuel(pattern_matches, 2);
    }
    assert(!alts_match(magic_spec(FileType::BMP), p)) by {
        reveal_with_fuel(alts_match, 2);
        reveal_with_fuel(pattern_matches, 2);
    }
    assert(!alts_match(magic_spec(FileType::SPC), p)) by {
        reveal_with_fuel(alts_match, 2);
        reveal_with_fuel(pattern_matches, 2);
    }
    assert(!alts_match(magic_spec(FileType::WAV), p)) by {
        reveal_with_fuel(alts_match, 2);
        reveal_with_fuel(pattern_matches, 2);
    }
    assert(!alts_match(magic_spec(FileType::AVI), p)) by {
        reveal_with_fuel(alts_match, 2);
        reveal_with_fuel(pattern_matches, 2);
    }
    assert(!alts_match(magic_spec(FileType::AIFF), p)) by {
        reveal_with_fuel(alts_match, 2);
        reveal_with_fuel(pattern_matches, 2);
    }
    assert(!alts_match(magic_spec(FileType::MP3), p)) by {
        reveal_with_fuel(alts_match, 5);
        reveal_with_fuel(pattern_matches, 2);
    }
    assert(!alts_match(magic_spec(FileType::OGG), p)) by {
        reveal_with_fuel(alts_match, 2);
        reveal_with_fuel(pattern_matches, 2);
    }
    assert(!alts_match(magic_spec(FileType::FLAC), p)) by {
        reveal_with_fuel(alts_match, 2);
        reveal_with_fuel(pattern_matches, 3);
    }
    assert(!alts_match(magic_spec(FileType::M4A), p)) by {
        reveal_with_fuel(alts_match, 3);
        reveal_with_fuel(pattern_matches, 2);
    }
    assert(!alts_match(magic_spec(FileType::AAC), p)) by {
        reveal_with_fuel(alts_match, 3);
        reveal_with_fuel(pattern_matches, 2);
    }
    assert forall|k2: FileType| k2 != FileType::MP4 implies !kind_matches(k2, p) by {
    }
    assert(detect_spec(p) == Some(FileType::MP4)) by {
        reveal_with_fuel(first_match_from, 26);
    }
    lemma_truncations_undetected(p, FileType::MP4);
}

#[verifier::rlimit(100)]
proof fn lemma_canon_ogg()
    ensures
        detect_spec(canonical_prefix(FileType::OGG)) == Some(FileType::OGG),
        forall|n: int| 0 <= n < canonical_prefix(FileType::OGG).len()
            ==> detect_spec(#[trigger] canonical_prefix(FileType::OGG).take(n)) is None,
{
    let p = canonical_prefix(FileType::OGG);
    assert(p.len() == 4);
    assert(alts_match(magic_spec(FileType::OGG), p)) by {
        reveal_with_fuel(alts_match, 2);
        reveal_with_fuel(pattern_matches, 6);
    }
    assert(alts_all_need(magic_spec(FileType::OGG), 4)) by {
        reveal_with_fuel(alts_all_need, 2);
        reveal_with_fuel(pattern_min_len, 6);
    }
    assert(!alts_match(magic_spec(FileType::JPEG), p)) by {
        reveal_with_fuel(alts_match, 6);
        reveal_with_fuel(pattern_matches, 2);
    }
    assert(!alts_match(magic_spec(FileType::GIF), p)) by {
        reveal_with_fuel(alts_match, 3);
        reveal_with_fuel(pattern_matches, 2);
    }
    assert(!alts_match(magic_spec(FileType::PNG), p)) by {
        reveal_with_fuel(alts_match, 2);
        reveal_with_fuel(pattern_matches, 2);
    }
    assert(!alts_match(magic_spec(FileType::VTF), p)) by {
        reveal_with_fuel(alts_match, 2);
        reveal_with_fuel(pattern_matches, 2);
    }
    assert(!alts_match(magic_spec(FileType::MIDI), p)) by {
        reveal_with_fuel(alts_match, 2);
        reveal_with_fuel(pattern_matches, 2);
    }
    assert(!alts_match(magic_spec(FileType::UnixScript), p)) by {
        reveal_with_fuel(alts_match, 2);
        reveal_with_fuel(pattern_matches, 2);
    }
    assert(!alts_match(magic_spec(FileType::ELF), p)) by {
        reveal_with_fuel(alts_match, 2);
        reveal_with_fuel(pattern_matches, 2);
    }
    assert(!alts_match(magic_spec(FileType::PDF), p)) by {
        reveal_with_fuel(alts_match, 2);
        reveal_with_fuel(pattern_matches, 2);
    }
    assert(!alts_match(magic_spec(FileType::MBR), p)) by {
        reveal_with_fuel(alts_match, 2);
        reveal_with_fuel(pattern_matches, 2);
    }
    assert(!alts_match(magic_spec(FileType::TIFF), p)) by {
        reveal_with_fuel(alts_match, 5);
        reveal_with_fuel(pattern_matches, 2);
    }
    assert(!alts_match(magic_spec(FileType::WAD), p)) by {
        reveal_with_fuel(alts_match, 5);
        reveal_with_fuel(pattern_matches, 2);
    }
    assert(!alts_match(magic_spec(FileType::ZIP), p)) by {
        reveal_with_fuel(alts_match, 2);
        reveal_with_fuel(pattern_matches, 2);
    }
    assert(!alts_match(magic_spec(FileType::TAR), p)) by {
        reveal_with_fuel(alts_match, 3);
        reveal_with_fuel(pattern_matches, 2);
    }
    assert(!alts_match(magic_spec(FileType::XML), p)) by {
        reveal_with_fuel(alts_match, 6);
        reveal_with_fuel(pattern_matches, 2);
    }
    assert(!alts_match(magic_spec(FileType::TXT), p)) by {
        reveal_with_fuel(alts_match, 6);
        reveal_with_fuel(pattern_matches, 2);
    }
    assert(!alts_match(magic_spec(FileType::HEIC), p)) by {
        reveal_with_fuel(alts_match, 2);
        reveal_with_fuel(pattern_matches, 2);
    }
    assert(!alts_match(magic_spec(FileType::WEBP), p)) by {
        reveal_with_fuel(alts_match, 2);
        reveal_with_fuel(pattern_matches, 2);
    }
    assert(!alts_match(magic_spec(FileType::NES), p)) by {
        reveal_with_fuel(alts_match, 2);
        reveal_with_fuel(pattern_matches, 2);
    }
    assert(!alts_match(magic_spec(FileType::BMP), p)) by {
        reveal_with_fuel(alts_match, 2);
        reveal_with_fuel(pattern_matches, 2);
    }
    assert(!alts_match(magic_spec(FileType::SPC), p)) by {
        reveal_with_fuel(alts_match, 2);
        reveal_with_fuel(pattern_matches, 2);
    }
    assert(!alts_match(magic_spec(FileType::WAV), p)) by {
        reveal_with_fuel(alts_match, 2);
        reveal_with_fuel(pattern_matches, 2);
    }
    assert(!alts_match(magic_spec(FileType::AVI), p)) by {
        reveal_with_fuel(alts_match, 2);
        reveal_with_fuel(pattern_matches, 2);
    }
    assert(!alts_match(magic_spec(FileType::AIFF), p)) by {
        reveal_with_fuel(alts_match, 2);
        reveal_with_fuel(pattern_matches, 2);
    }
    assert(!alts_match(magic_spec(FileType::MP3), p)) by {
        reveal_with_fuel(alts_match, 5);
        reveal_with_fuel(pattern_matches, 2);
    }
    assert(!alts_match(magic_spec(FileType::MP4), p)) by {
        reveal_with_fuel(alts_match, 2);
        reveal_with_fuel(pattern_matches, 2);
    }
    assert(!alts_match(magic_spec(FileType::FLAC), p)) by {
        reveal_with_fuel(alts_match, 2);
        reveal_with_fuel(pattern_matches, 2);
    }
    assert(!alts_match(magic_spec(FileType::M4A), p)) by {
        reveal_with_fuel(alts_match, 3);
        reveal_with_fuel(pattern_matches, 2);
    }
    assert(!alts_match(magic_spec(FileType::AAC), p)) by {
        reveal_with_fuel(alts_match, 3);
        reveal_with_fuel(pattern_matches, 2);
    }
    assert forall|k2: FileType| k2 != FileType::OGG implies !kind_matches(k2, p) by {
    }
    assert(detect_spec(p) == Some(FileType::OGG)) by {
        reveal_with_fuel(first_match_from, 27);
    }
    lemma_truncations_undetected(p, FileType::OGG);
}

#[verifier::rlimit(100)]
proof fn lemma_canon_flac()
    ensures
        detect_spec(canonical_prefix(FileType::FLAC)) == Some(FileType::FLAC),
        forall|n: int| 0 <= n < canonical_prefix(FileType::FLAC).len()
            ==> detect_spec(#[trigger] canonical_prefix(FileType::FLAC).take(n)) is None,
{
    let p = canonical_prefix(FileType::FLAC);
    assert(p.len() == 4);
    assert(alts_match(magic_spec(FileType::FLAC), p)) by {
        reveal_with_fuel(alts_match, 2);
        reveal_with_fuel(pattern_matches, 6);
    }
    assert(alts_all_need(magic_spec(FileType::FLAC), 4)) by {
        reveal_with_fuel(alts_all_need, 2);
        reveal_with_fuel(pattern_min_len, 6);
    }
    assert(!alts_match(magic_spec(FileType::JPEG), p)) by {
        reveal_with_fuel(alts_match, 6);
        reveal_with_fuel(pattern_matches, 2);
    }
    assert(!alts_match(magic_spec(FileType::GIF), p)) by {
        reveal_with_fuel(alts_match, 3);
        reveal_with_fuel(pattern_matches, 2);
    }
    assert(!alts_match(magic_spec(FileType::PNG), p)) by {
        reveal_with_fuel(alts_match, 2);
        reveal_with_fuel(pattern_matches, 2);
    }
    assert(!alts_match(magic_spec(FileType::VTF), p)) by {
        reveal_with_fuel(alts_match, 2);
        reveal_with_fuel(pattern_matches, 2);
    }
    assert(!alts_match(magic_spec(FileType::MIDI), p)) by {
        reveal_with_fuel(alts_match, 2);
        reveal_with_fuel(pattern_matches, 2);
    }
    assert(!alts_match(magic_spec(FileType::UnixScript), p)) by {
        reveal_with_fuel(alts_match, 2);
        reveal_with_fuel(pattern_matches, 2);
    }
    assert(!alts_match(magic_spec(FileType::ELF), p)) by {
        reveal_with_fuel(alts_match, 2);
        reveal_with_fuel(pattern_matches, 2);
    }
    assert(!alts_match(magic_spec(FileType::PDF), p)) by {
        reveal_with_fuel(alts_match, 2);
        reveal_with_fuel(pattern_matches, 2);
    }
    assert(!alts_match(magic_spec(FileType::MBR), p)) by {
        reveal_with_fuel(alts_match, 2);
        reveal_with_fuel(pattern_matches, 2);
    }
    assert(!alts_match(magic_spec(FileType::TIFF), p)) by {
        reveal_with_fuel(alts_match, 5);
        reveal_with_fuel(pattern_matches, 2);
    }
    assert(!alts_match(magic_spec(FileType::WAD), p)) by {
        reveal_with_fuel(alts_match, 5);
        reveal_with_fuel(pattern_matches, 2);
    }
    assert(!alts_match(magic_spec(FileType::ZIP), p)) by {
        reveal_with_fuel(alts_match, 2);
        reveal_with_fuel(pattern_matches, 2);
    }
    assert(!alts_match(magic_spec(FileType::TAR), p)) by {
        reveal_with_fuel(alts_match, 3);
        reveal_with_fuel(pattern_matches, 2);
    }
    assert(!alts_match(magic_spec(FileType::XML), p)) by {
        reveal_with_fuel(alts_match, 6);
        reveal_with_fuel(pattern_matches, 2);
    }
    assert(!alts_match(magic_spec(FileType::TXT), p)) by {
        reveal_with_fuel(alts_match, 6);
        reveal_with_fuel(pattern_matches, 2);
    }
    assert(!alts_match(magic_spec(FileType::HEIC), p)) by {
        reveal_with_fuel(alts_match, 2);
        reveal_with_fuel(pattern_matches, 3);
    }
    assert(!alts_match(magic_spec(FileType::WEBP), p)) by {
        reveal_with_fuel(alts_match, 2);
        reveal_with_fuel(pattern_matches, 2);
    }
    assert(!alts_match(magic_spec(FileType::NES), p)) by {
        reveal_with_fuel(alts_match, 2);
        reveal_with_fuel(pattern_matches, 2);
    }
    assert(!alts_match(magic_spec(FileType::BMP), p)) by {
        reveal_with_fuel(alts_match, 2);
        reveal_with_fuel(pattern_matches, 2);
    }
    assert(!alts_match(magic_spec(FileType::SPC), p)) by {
        reveal_with_fuel(alts_match, 2);
        reveal_with_fuel(pattern_matches, 2);
    }
    assert(!alts_match(magic_spec(FileType::WAV), p)) by {
        reveal_with_fuel(alts_match, 2);
        reveal_with_fuel(pattern_matches, 2);
    }
    assert(!alts_match(magic_spec(FileType::AVI), p)) by {
        reveal_with_fuel(alts_match, 2);
        reveal_with_fuel(pattern_matches, 2);
    }
    assert(!alts_match(magic_spec(FileType::AIFF), p)) by {
        reveal_with_fuel(alts_match, 2);
        reveal_with_fuel(pattern_matches, 2);
    }
    assert(!alts_match(magic_spec(FileType::MP3), p)) by {
        reveal_with_fuel(alts_match, 5);
        reveal_with_fuel(pattern_matches, 2);
    }
    assert(!alts_match(magic_spec(FileType::MP4), p)) by {
        reveal_with_fuel(alts_match, 2);
        reveal_with_fuel(pattern_matches, 3);
    }
    assert(!alts_match(magic_spec(FileType::OGG), p)) by {
        reveal_with_fuel(alts_match, 2);
        reveal_with_fuel(pattern_matches, 2);
    }
    assert(!alts_match(magic_spec(FileType::M4A), p)) by {
        reveal_with_fuel(alts_match, 3);
        reveal_with_fuel(pattern_matches, 2);
    }
    assert(!alts_match(magic_spec(FileType::AAC), p)) by {
        reveal_with_fuel(alts_match, 3);
        reveal_with_fuel(pattern_matches, 2);
    }
    assert forall|k2: FileType| k2 != FileType::FLAC implies !kind_matches(k2, p) by {
    }
    assert(detect_spec(p) == Some(FileType::FLAC)) by {
        reveal_with_fuel(first_match_from, 28);
    }
    lemma_truncations_undetected(p, FileType::FLAC);
}

#[verifier::rlimit(100)]
proof fn lemma_canon_m4a()
    ensures
        detect_spec(canonical_prefix(FileType::M4A)) == Some(FileType::M4A),
        forall|n: int| 0 <= n < canonical_prefix(FileType::M4A).len()
            ==> detect_spec(#[trigger] canonical_prefix(FileType::M4A).take(n)) is None,
{
    let p = canonical_prefix(FileType::M4A);
    assert(p.len() == 12);
    assert(alts_match(magic_spec(FileType::M4A), p)) by {
        reveal_with_fuel(alts_match, 2);
        reveal_with_fuel(pattern_matches, 14);
    }
    assert(alts_all_need(magic_spec(FileType::M4A), 12)) by {
        reveal_with_fuel(alts_all_need, 3);
        reveal_with_fuel(pattern_min_len, 14);
    }
    assert(!alts_match(magic_spec(FileType::JPEG), p)) by {
        reveal_with_fuel(alts_match, 6);
        reveal_with_fuel(pattern_matches, 2);
    }
    assert(!alts_match(magic_spec(FileType::GIF), p)) by {
        reveal_with_fuel(alts_match, 3);
        reveal_with_fuel(pattern_matches, 2);
    }
    assert(!alts_match(magic_spec(FileType::PNG), p)) by {
        reveal_with_fuel(alts_match, 2);
        reveal_with_fuel(pattern_matches, 2);
    }
    assert(!alts_match(magic_spec(FileType::VTF), p)) by {
        reveal_with_fuel(alts_match, 2);
        reveal_with_fuel(pattern_matches, 3);
    }
    assert(!alts_match(magic_spec(FileType::MIDI), p)) by {
        reveal_with_fuel(alts_match, 2);
        reveal_with_fuel(pattern_matches, 2);
    }
    assert(!alts_match(magic_spec(FileType::UnixScript), p)) by {
        reveal_with_fuel(alts_match, 2);
        reveal_with_fuel(pattern_matches, 2);
    }
    assert(!alts_match(magic_spec(FileType::ELF), p)) by {
        reveal_with_fuel(alts_match, 2);
        reveal_with_fuel(pattern_matches, 2);
    }
    assert(!alts_match(magic_spec(FileType::PDF), p)) by {
        reveal_with_fuel(alts_match, 2);
        reveal_with_fuel(pattern_matches, 2);
    }
    assert(!alts_match(magic_spec(FileType::MBR), p)) by {
        reveal_with_fuel(alts_match, 2);
        reveal_with_fuel(pattern_matches, 2);
    }
    assert(!alts_match(magic_spec(FileType::TIFF), p)) by {
        reveal_with_fuel(alts_match, 5);
        reveal_with_fuel(pattern_matches, 2);
    }
    assert(!alts_match(magic_spec(FileType::WAD), p)) by {
        reveal_with_fuel(alts_match, 5);
        reveal_with_fuel(pattern_matches, 2);
    }
    assert(!alts_match(magic_spec(FileType::ZIP), p)) by {
        reveal_with_fuel(alts_match, 2);
        reveal_with_fuel(pattern_matches, 2);
    }
    assert(!alts_match(magic_spec(FileType::TAR), p)) by {
        reveal_with_fuel(alts_match, 3);
        reveal_with_fuel(pattern_matches, 2);
    }
    assert(!alts_match(magic_spec(FileType::XML), p)) by {
        reveal_with_fuel(alts_match, 6);
        reveal_with_fuel(pattern_matches, 5);
    }
    assert(!alts_match(magic_spec(FileType::TXT), p)) by {
        reveal_with_fuel(alts_match, 6);
        reveal_with_fuel(pattern_matches, 4);
    }
    assert(!alts_match(magic_spec(FileType::HEIC), p)) by {
        reveal_with_fuel(alts_match, 2);
        reveal_with_fuel(pattern_matches, 2);
    }
    assert(!alts_match(magic_spec(FileType::WEBP), p)) by {
        reveal_with_fuel(alts_match, 2);
        reveal_with_fuel(pattern_matches, 2);
    }
    assert(!alts_match(magic_spec(FileType::NES), p)) by {
        reveal_with_fuel(alts_match, 2);
        reveal_with_fuel(pattern_matches, 2);
    }
    assert(!alts_match(magic_spec(FileType::BMP), p)) by {
        reveal_with_fuel(alts_match, 2);
        reveal_with_fuel(pattern_matches, 2);
    }
    assert(!alts_match(magic_spec(FileType::SPC), p)) by {
        reveal_with_fuel(alts_match, 2);
        reveal_with_fuel(pattern_matches, 2);
    }
    assert(!alts_match(magic_spec(FileType::WAV), p)) by {
        reveal_with_fuel(alts_match, 2);
        reveal_with_fuel(pattern_matches, 2);
    }
    assert(!alts_match(magic_spec(FileType::AVI), p)) by {
        reveal_with_fuel(alts_match, 2);
        reveal_with_fuel(pattern_matches, 2);
    }
    assert(!alts_match(magic_spec(FileType::AIFF), p)) by {
        reveal_with_fuel(alts_match, 2);
        reveal_with_fuel(pattern_matches, 2);
    }
    assert(!alts_match(magic_spec(FileType::MP3), p)) by {
        reveal_with_fuel(alts_match, 5);
        reveal_with_fuel(pattern_matches, 2);
    }
    assert(!alts_match(magic_spec(FileType::MP4), p)) by {
        reveal_with_fuel(alts_match, 2);
        reveal_with_fuel(pattern_matches, 2);
    }
    assert(!alts_match(magic_spec(FileType::OGG), p)) by {
        reveal_with_fuel(alts_match, 2);
        reveal_with_fuel(pattern_matches, 2);
    }
    assert(!alts_match(magic_spec(FileType::FLAC), p)) by {
        reveal_with_fuel(alts_match, 2);
        reveal_with_fuel(pattern_matches, 2);
    }
    assert(!alts_match(magic_spec(FileType::AAC), p)) by {
        reveal_with_fuel(alts_match, 3);
        reveal_with_fuel(pattern_matches, 2);
    }
    assert forall|k2: FileType| k2 != FileType::M4A implies !kind_matches(k2, p) by {
    }
    assert(detect_spec(p) == Some(FileType::M4A)) by {
        reveal_with_fuel(first_match_from, 29);
    }
    lemma_truncations_undetected(p, FileType::M4A);
}

#[verifier::rlimit(100)]
proof fn lemma_canon_aac()
    ensures
        detect_spec(canonical_prefix(FileType::AAC)) == Some(FileType::AAC),
        forall|n: int| 0 <= n < canonical_prefix(FileType::AAC).len()
            ==> detect_spec(#[trigger] canonical_prefix(FileType::AAC).take(n)) is None,
{
    let p = canonical_prefix(FileType::AAC);
    assert(p.len() == 2);
    assert(alts_match(magic_spec(FileType::AAC), p)) by {
        reveal_with_fuel(alts_match, 2);
        reveal_with_fuel(pattern_matches, 4);
    }
    assert(alts_all_need(magic_spec(FileType::AAC), 2)) by {
        reveal_with_fuel(alts_all_need, 3);
        reveal_with_fuel(pattern_min_len, 4);
    }
    assert(!alts_match(magic_spec(FileType::JPEG), p)) by {
        reveal_with_fuel(alts_match, 6);
        reveal_with_fuel(pattern_matches, 3);
    }
    assert(!alts_match(magic_spec(FileType::GIF), p)) by {
        reveal_with_fuel(alts_match, 3);
        reveal_with_fuel(pattern_matches, 2);
    }
    assert(!alts_match(magic_spec(FileType::PNG), p)) by {
        reveal_with_fuel(alts_match, 2);
        reveal_with_fuel(pattern_matches, 2);
    }
    assert(!alts_match(magic_spec(FileType::VTF), p)) by {
        reveal_with_fuel(alts_match, 2);
        reveal_with_fuel(pattern_matches, 2);
    }
    assert(!alts_match(magic_spec(FileType::MIDI), p)) by {
        reveal_with_fuel(alts_match, 2);
        reveal_with_fuel(pattern_matches, 2);
    }
    assert(!alts_match(magic_spec(FileType::UnixScript), p)) by {
        reveal_with_fuel(alts_match, 2);
        reveal_with_fuel(pattern_matches, 2);
    }
    assert(!alts_match(magic_spec(FileType::ELF), p)) by {
        reveal_with_fuel(alts_match, 2);
        reveal_with_fuel(pattern_matches, 2);
    }
    assert(!alts_match(magic_spec(FileType::PDF), p)) by {
        reveal_with_fuel(alts_match, 2);
        reveal_with_fuel(pattern_matches, 2);
    }
    assert(!alts_match(magic_spec(FileType::MBR), p)) by {
        reveal_with_fuel(alts_match, 2);
        reveal_with_fuel(pattern_matches, 2);
    }
    assert(!alts_match(magic_spec(FileType::TIFF), p)) by {
        reveal_with_fuel(alts_match, 5);
        reveal_with_fuel(pattern_matches, 2);
    }
    assert(!alts_match(magic_spec(FileType::WAD), p)) by {
        reveal_with_fuel(alts_match, 5);
        reveal_with_fuel(pattern_matches, 2);
    }
    assert(!alts_match(magic_spec(FileType::ZIP), p)) by {
        reveal_with_fuel(alts_match, 2);
        reveal_with_fuel(pattern_matches, 2);
    }
    assert(!alts_match(magic_spec(FileType::TAR), p)) by {
        reveal_with_fuel(alts_match, 3);
        reveal_with_fuel(pattern_matches, 2);
    }
    assert(!alts_match(magic_spec(FileType::XML), p)) by {
        reveal_with_fuel(alts_match, 6);
        reveal_with_fuel(pattern_matches, 2);
    }
    assert(!alts_match(magic_spec(FileType::TXT), p)) by {
        reveal_with_fuel(alts_match, 6);
        reveal_with_fuel(pattern_matches, 3);
    }
    assert(!alts_match(magic_spec(FileType::HEIC), p)) by {
        reveal_with_fuel(alts_match, 2);
        reveal_with_fuel(pattern_matches, 2);
    }
    assert(!alts_match(magic_spec(FileType::WEBP), p)) by {
        reveal_with_fuel(alts_match, 2);
        reveal_with_fuel(pattern_matches, 2);
    }
    assert(!alts_match(magic_spec(FileType::NES), p)) by {
        reveal_with_fuel(alts_match, 2);
        reveal_with_fuel(pattern_matches, 2);
    }
    assert(!alts_match(magic_spec(FileType::BMP), p)) by {
        reveal_with_fuel(alts_match, 2);
        reveal_with_fuel(pattern_matches, 2);
    }
    assert(!alts_match(magic_spec(FileType::SPC), p)) by {
        reveal_with_fuel(alts_match, 2);
        reveal_with_fuel(pattern_matches, 2);
    }
    assert(!alts_match(magic_spec(FileType::WAV), p)) by {
        reveal_with_fuel(alts_match, 2);
        reveal_with_fuel(pattern_matches, 2);
    }
    assert(!alts_match(magic_spec(FileType::AVI), p)) by {
        reveal_with_fuel(alts_match, 2);
        reveal_with_fuel(pattern_matches, 2);
    }
    assert(!alts_match(magic_spec(FileType::AIFF), p)) by {
        reveal_with_fuel(alts_match, 2);
        reveal_with_fuel(pattern_matches, 2);
    }
    assert(!alts_match(magic_spec(FileType::MP3), p)) by {
        reveal_with_fuel(alts_match, 5);
        reveal_with_fuel(pattern_matches, 3);
    }
    assert(!alts_match(magic_spec(FileType::MP4), p)) by {
        reveal_with_fuel(alts_match, 2);
        reveal_with_fuel(pattern_matches, 2);
    }
    assert(!alts_match(magic_spec(FileType::OGG), p)) by {
        reveal_with_fuel(alts_match, 2);
        reveal_with_fuel(pattern_matches, 2);
    }
    assert(!alts_match(magic_spec(FileType::FLAC), p)) by {
        reveal_with_fuel(alts_match, 2);
        reveal_with_fuel(pattern_matches, 2);
    }
    assert(!alts_match(magic_spec(FileType::M4A), p)) by {
        reveal_with_fuel(alts_match, 3);
        reveal_with_fuel(pattern_matches, 2);
    }
    assert forall|k2: FileType| k2 != FileType::AAC implies !kind_matches(k2, p) by {
    }
    assert(detect_spec(p) == Some(FileType::AAC)) by {
        reveal_with_fuel(first_match_from, 30);
    }
    lemma_truncations_undetected(p, FileType::AAC);
}

/// For every registered kind, feeding its canonical minimal signature
/// prefix to the detector returns exactly that kind, and feeding fewer
/// bytes than that minimum returns no classification at all.
pub proof fn lemma_detect_canonical_prefix(k: FileType)
    ensures
        detect_spec(canonical_prefix(k)) == Some(k),
        forall|n: int| 0 <= n < canonical_prefix(k).len()
            ==> detect_spec(#[trigger] canonical_prefix(k).take(n)) is None,
{
    match k {
        FileType::JPEG => lemma_canon_jpeg(),
        FileType::GIF => lemma_canon_gif(),
        FileType::PNG => lemma_canon_png(),
        FileType::VTF => lemma_canon_vtf(),
        FileType::MIDI => lemma_canon_midi(),
        FileType::UnixScript => lemma_canon_unixscript(),
        FileType::ELF => lemma_canon_elf(),
        FileType::PDF => lemma_canon_pdf(),
        FileType::MBR => lemma_canon_mbr(),
        FileType::TIFF => lemma_canon_tiff(),
        FileType::WAD => lemma_canon_wad(),
        FileType::ZIP => lemma_canon_zip(),
        FileType::TAR => lemma_canon_tar(),
        FileType::XML => lemma_canon_xml(),
        FileType::TXT => lemma_canon_txt(),
        FileType::HEIC => lemma_canon_heic(),
        FileType::WEBP => lemma_canon_webp(),
        FileType::NES => lemma_canon_nes(),
        FileType::BMP => lemma_canon_bmp(),
        FileType::SPC => lemma_canon_spc(),
        FileType::WAV => lemma_canon_wav(),
        FileType::AVI => lemma_canon_avi(),
        FileType::AIFF => lemma_canon_aiff(),
        FileType::MP3 => lemma_canon_mp3(),
        FileType::MP4 => lemma_canon_mp4(),
        FileType::OGG => lemma_canon_ogg(),
        FileType::FLAC => lemma_canon_flac(),
        FileType::M4A => lemma_canon_m4a(),
        FileType::AAC => lemma_canon_aac(),
    }
}

/// A buffer that no registered signature matches is classified as nothing.
pub proof fn lemma_unmatched_buffer_detects_none(d: Seq<u8>)
    requires
        forall|k: FileType| !kind_matches(k, d),
    ensures
        detect_spec(d) is None,
{
    lemma_first_match_none(d, 0);
}

/// Conversely, whatever the detector returns has a matching signature.
pub proof fn lemma_detected_kind_matches(d: Seq<u8>)
    ensures
        detect_spec(d) matches Some(k) ==> kind_matches(k, d),
{
    lemma_first_match_sound(d, 0);
}

} // verus!
