//! Which archive entries extraction writes, and where.
//!
//! Every entry of the archive is scanned.  An entry whose name could
//! resolve outside the destination directory (an absolute name, or one
//! with a parent-directory component) is rejected and skipped, never
//! followed.  Of the safe entries, only those whose base name carries the
//! fixed target raw-audio extension are written, each flattened to its
//! base name at the destination root; everything else, including implicit
//! directory entries, is skipped.

use vstd::prelude::*;

verus! {

/// Whether a parent-directory (`..`) path component starts at offset `i`.
/// Components are separated by `/`; a backslash is an ordinary name
/// character here, which is harmless because outputs are flattened to
/// base names anyway.
pub open spec fn parent_at(s: Seq<char>, i: int) -> bool {
    &&& 0 <= i
    &&& i + 2 <= s.len()
    &&& s[i] == '.'
    &&& s[i + 1] == '.'
    &&& (i == 0 || s[i - 1] == '/')
    &&& (i + 2 == s.len() || s[i + 2] == '/')
}

/// Whether the name has a parent-directory component anywhere.
pub open spec fn has_parent_component(s: Seq<char>) -> bool {
    exists|i: int| parent_at(s, i)
}

/// A safe entry name: non-empty, relative, and free of `..` components,
/// so it cannot resolve outside the destination directory.
pub open spec fn is_safe_entry_name(s: Seq<char>) -> bool {
    &&& s.len() > 0
    &&& s[0] != '/'
    &&& !has_parent_component(s)
}

/// The base name of an entry: what follows its last separator.  A name
/// that ends in a separator (a directory entry) has an empty base name.
pub open spec fn base_name_spec(s: Seq<char>) -> Seq<char>
    decreases s.len(),
{
    if s.len() == 0 {
        s
    } else if s[s.len() - 1] == '/' {
        Seq::empty()
    } else {
        base_name_spec(s.drop_last()).push(s[s.len() - 1])
    }
}

/// Whether the entry's base name carries the fixed target raw-audio
/// extension: it ends in `.spc` with a non-empty stem.  A directory
/// entry's empty base name never qualifies.
pub open spec fn is_target_entry(s: Seq<char>) -> bool {
    let b = base_name_spec(s);
    b.len() > 4 && b.skip(b.len() - 4) == seq!['.', 's', 'p', 'c']
}

/// What a full entry scan writes: for each safe entry with the target
/// extension, in order, its base name at the destination root.
pub open spec fn planned_outputs(names: Seq<Seq<char>>) -> Seq<Seq<char>>
    decreases names.len(),
{
    if names.len() == 0 {
        Seq::empty()
    } else {
        let rest = planned_outputs(names.drop_last());
        let last = names.last();
        if is_safe_entry_name(last) && is_target_entry(last) {
            rest.push(base_name_spec(last))
        } else {
            rest
        }
    }
}

/// A bare file name: non-empty and free of separators, hence a name that
/// stays at the destination root.
pub open spec fn is_bare_file_name(s: Seq<char>) -> bool {
    s.len() > 0 && forall|i: int| 0 <= i < s.len() ==> s[i] != '/'
}

/// What extraction does with one entry.
pub enum EntryAction {
    /// The name could resolve outside the destination: rejected.
    SkipUnsafe,
    /// Safe, but not a target-extension file (directories included).
    SkipOther,
    /// Write the entry to this base name at the destination root.
    Extract(String),
}

/// Whether the name is safe to resolve under the destination directory.
pub fn is_safe_entry(name: &str) -> (r: bool)
    ensures
        r == is_safe_entry_name(name@),
{
    let n = name.unicode_len();
    if n == 0 {
        return false;
    }
    if name.get_char(0) == '/' {
        return false;
    }
    let mut i: usize = 0;
    while i < n
        invariant
            n == name@.len(),
            i <= n,
            forall|t: int| 0 <= t < i ==> !parent_at(name@, t),
        decreases n - i,
    {
        if name.get_char(i) == '.' && i + 1 < n && name.get_char(i + 1) == '.'
            && (i == 0 || name.get_char(i - 1) == '/')
            && (i + 2 == n || name.get_char(i + 2) == '/') {
            proof {
                assert(parent_at(name@, i as int));
            }
            return false;
        }
        proof {
            if parent_at(name@, i as int) {
                assert(false);
            }
        }
        i += 1;
    }
    proof {
        if has_parent_component(name@) {
            let t = choose|t: int| parent_at(name@, t);
            assert(0 <= t < n);
            assert(false);
        }
    }
    true
}

/// `base_name_spec` is exactly the suffix after the last separator.
proof fn lemma_base_name_after_slash(s: Seq<char>, j: int)
    requires
        0 <= j <= s.len(),
        j == 0 || s[j - 1] == '/',
        forall|m: int| j <= m < s.len() ==> s[m] != '/',
    ensures
        base_name_spec(s) == s.skip(j),
    decreases s.len(),
{
    if j == s.len() {
        if s.len() == 0 {
            assert(s.skip(j) =~= s);
        } else {
            assert(s[s.len() - 1] == '/');
            assert(s.skip(j) =~= Seq::<char>::empty());
        }
    } else {
        assert(s[s.len() - 1] != '/');
        assert(forall|m: int| j <= m < s.drop_last().len() ==> s.drop_last()[m] != '/');
        lemma_base_name_after_slash(s.drop_last(), j);
        assert(s.drop_last().skip(j).push(s[s.len() - 1]) =~= s.skip(j));
    }
}

/// The base name never holds a separator.
proof fn lemma_base_name_no_slash(s: Seq<char>)
    ensures
        forall|i: int| 0 <= i < base_name_spec(s).len() ==> base_name_spec(s)[i] != '/',
    decreases s.len(),
{
    if s.len() == 0 {
    } else if s[s.len() - 1] == '/' {
    } else {
        lemma_base_name_no_slash(s.drop_last());
        let b = base_name_spec(s.drop_last());
        assert forall|i: int| 0 <= i < base_name_spec(s).len() implies base_name_spec(s)[i]
            != '/' by {
            if i < b.len() {
                assert(base_name_spec(s)[i] == b[i]);
            } else {
                assert(base_name_spec(s)[i] == s[s.len() - 1]);
            }
        }
    }
}

/// The base name of an entry name: what follows its last separator.
pub fn base_name(name: &str) -> (r: String)
    ensures
        r@ == base_name_spec(name@),
{
    let n = name.unicode_len();
    let mut start: usize = 0;
    let mut i: usize = 0;
    while i < n
        invariant
            n == name@.len(),
            i <= n,
            start <= i,
            start == 0 || name@[start - 1] == '/',
            forall|m: int| start <= m < i ==> name@[m] != '/',
        decreases n - i,
    {
        if name.get_char(i) == '/' {
            start = i + 1;
        }
        i += 1;
    }
    let r = name.substring_char(start, n).to_owned();
    proof {
        lemma_base_name_after_slash(name@, start as int);
        assert(name@.subrange(start as int, n as int) =~= name@.skip(start as int));
    }
    r
}

/// Decide what extraction does with one entry name.
pub fn entry_disposition(name: &str) -> (r: EntryAction)
    ensures
        !is_safe_entry_name(name@) ==> r is SkipUnsafe,
        is_safe_entry_name(name@) && !is_target_entry(name@) ==> r is SkipOther,
        is_safe_entry_name(name@) && is_target_entry(name@) ==> (r matches EntryAction::Extract(out)
            && out@ == base_name_spec(name@)),
{
    if !is_safe_entry(name) {
        return EntryAction::SkipUnsafe;
    }
    let base = base_name(name);
    let b = base.as_str();
    let bl = b.unicode_len();
    if bl <= 4 {
        return EntryAction::SkipOther;
    }
    if b.get_char(bl - 4) == '.' && b.get_char(bl - 3) == 's' && b.get_char(bl - 2) == 'p'
        && b.get_char(bl - 1) == 'c' {
        proof {
            assert(base@.skip(base@.len() - 4) =~= seq!['.', 's', 'p', 'c']);
        }
        EntryAction::Extract(base)
    } else {
        proof {
            if is_target_entry(name@) {
                let bb = base_name_spec(name@);
                assert(bb.skip(bb.len() - 4)[0] == bb[bb.len() - 4]);
                assert(bb.skip(bb.len() - 4)[1] == bb[bb.len() - 3]);
                assert(bb.skip(bb.len() - 4)[2] == bb[bb.len() - 2]);
                assert(bb.skip(bb.len() - 4)[3] == bb[bb.len() - 1]);
                assert(false);
            }
        }
        EntryAction::SkipOther
    }
}

/// Plan a full entry scan: the base names that extraction writes, in
/// entry order.  The caller performs the writes and, afterwards, deletes
/// the archive -- only once this full scan completed.
pub fn plan_extraction(entries: &Vec<String>) -> (outs: Vec<String>)
    ensures
        outs.deep_view() == planned_outputs(entries.deep_view()),
{
    let n = entries.len();
    let mut outs: Vec<String> = Vec::new();
    let mut i: usize = 0;
    proof {
        assert(outs.deep_view() =~= planned_outputs(entries.deep_view().take(0)));
    }
    while i < n
        invariant
            n == entries@.len(),
            i <= n,
            outs.deep_view() == planned_outputs(entries.deep_view().take(i as int)),
        decreases n - i,
    {
        let ghost dv = entries.deep_view();
        let ghost prev = outs.deep_view();
        proof {
            assert(dv.take(i + 1).drop_last() =~= dv.take(i as int));
            assert(dv.take(i + 1).last() == dv[i as int]);
            assert(dv[i as int] == entries@[i as int]@);
        }
        match entry_disposition(entries[i].as_str()) {
            EntryAction::Extract(out) => {
                let ghost outv = out@;
                outs.push(out);
                proof {
                    assert(outs.deep_view() =~= prev.push(outv));
                }
            },
            _ => {},
        }
        i += 1;
    }
    proof {
        assert(entries.deep_view().take(n as int) =~= entries.deep_view());
    }
    outs
}

/// Extraction never creates a file outside the destination directory:
/// every planned output is a bare file name at the destination root,
/// whatever the entry names -- parent-directory traversal segments
/// included, since entries carrying them are rejected outright.
pub proof fn lemma_extraction_stays_inside(names: Seq<Seq<char>>)
    ensures
        forall|j: int| 0 <= j < planned_outputs(names).len()
            ==> is_bare_file_name(#[trigger] planned_outputs(names)[j]),
    decreases names.len(),
{
    if names.len() > 0 {
        lemma_extraction_stays_inside(names.drop_last());
        let last = names.last();
        let rest = planned_outputs(names.drop_last());
        if is_safe_entry_name(last) && is_target_entry(last) {
            lemma_base_name_no_slash(last);
            assert forall|j: int| 0 <= j < planned_outputs(names).len() implies is_bare_file_name(
                #[trigger] planned_outputs(names)[j],
            ) by {
                if j < rest.len() {
                    assert(planned_outputs(names)[j] == rest[j]);
                } else {
                    assert(planned_outputs(names)[j] == base_name_spec(last));
                }
            }
        }
    }
}

/// An entry whose name has a parent-directory traversal segment yields no
/// output at all: it is rejected, not followed.
pub proof fn lemma_traversal_entry_skipped(names: Seq<Seq<char>>, j: int)
    requires
        0 <= j < names.len(),
        has_parent_component(names[j]),
    ensures
        planned_outputs(names) == planned_outputs(names.remove(j)),
    decreases names.len(),
{
    let last = names.last();
    if j == names.len() - 1 {
        assert(!is_safe_entry_name(last));
        assert(names.remove(j) =~= names.drop_last());
    } else {
        lemma_traversal_entry_skipped(names.drop_last(), j);
        assert(names.remove(j).drop_last() =~= names.drop_last().remove(j));
        assert(names.remove(j).last() == last);
    }
}

} // verus!
