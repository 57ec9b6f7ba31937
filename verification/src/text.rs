//! Pure text helpers of the surrounding shell: quantity bars, line
//! clamping, character mapping, and the derivation of stage file names
//! from the extracted entry's base name.

use vstd::prelude::*;
use vstd::string::StrSliceExecFns;
use vstd::string::StringExecFns;

verus! {

/// Relies on String::push: appends exactly the one character.
#[verifier::external_body]
fn push_char(s: &mut String, c: char)
    ensures
        final(s)@ == old(s)@.push(c),
{
    s.push(c);
}

/// A "quantity" string: `active_q` copies of the active character followed
/// by `total_q - active_q` copies of the inactive one.
pub fn q_str(active_c: &char, inactive_c: &char, active_q: u8, total_q: u8) -> (res: String)
    requires
        active_q <= total_q,
    ensures
        res@.len() == total_q,
        forall|i: int| 0 <= i < active_q ==> res@[i] == *active_c,
        forall|i: int| active_q <= i < total_q ==> res@[i] == *inactive_c,
{
    let mut res = String::new();
    let mut i: u8 = 0;
    while i < active_q
        invariant
            i <= active_q,
            res@.len() == i,
            forall|t: int| 0 <= t < i ==> res@[t] == *active_c,
        decreases active_q - i,
    {
        push_char(&mut res, *active_c);
        i = i + 1;
    }
    while i < total_q
        invariant
            active_q <= i <= total_q,
            res@.len() == i,
            forall|t: int| 0 <= t < active_q ==> res@[t] == *active_c,
            forall|t: int| active_q <= t < i ==> res@[t] == *inactive_c,
        decreases total_q - i,
    {
        push_char(&mut res, *inactive_c);
        i = i + 1;
    }
    res
}

/// What clamping yields: the text cut into chunks of `max` characters,
/// each chunk (the last one possibly short, possibly empty) followed by a
/// newline.
pub open spec fn clamp_spec(s: Seq<char>, max: int) -> Seq<char>
    decreases s.len(),
    when max > 0
{
    if s.len() < max {
        s.push('\n')
    } else {
        s.take(max).push('\n') + clamp_spec(s.skip(max), max)
    }
}

/// Append the characters `from..to` of `s` to `res`.
fn push_range(res: &mut String, s: &str, from: usize, to: usize)
    requires
        from <= to <= s@.len(),
    ensures
        final(res)@ == old(res)@ + s@.subrange(from as int, to as int),
{
    let mut t = from;
    proof {
        assert(old(res)@ + s@.subrange(from as int, from as int) =~= old(res)@);
    }
    while t < to
        invariant
            from <= t <= to <= s@.len(),
            res@ == old(res)@ + s@.subrange(from as int, t as int),
        decreases to - t,
    {
        push_char(res, s.get_char(t));
        proof {
            assert((old(res)@ + s@.subrange(from as int, t as int)).push(s@[t as int]) =~= old(
                res,
            )@ + s@.subrange(from as int, t as int + 1));
        }
        t = t + 1;
    }
}

/// Clamp the text to lines of at most `max_len` characters: after every
/// `max_len` characters a newline is inserted, and the final (possibly
/// empty) remainder also ends in a newline.
pub fn strclamp(str: &str, max_len: usize) -> (res: String)
    requires
        max_len > 0,
    ensures
        res@ == clamp_spec(str@, max_len as int),
{
    let n = str.unicode_len();
    let mut res = String::new();
    let mut start: usize = 0;
    proof {
        assert(Seq::<char>::empty() + clamp_spec(str@.skip(0), max_len as int) =~= clamp_spec(
            str@.skip(0),
            max_len as int,
        ));
        assert(str@.skip(0) =~= str@);
    }
    while n - start >= max_len
        invariant
            start <= n,
            n == str@.len(),
            max_len > 0,
            clamp_spec(str@, max_len as int) == res@ + clamp_spec(
                str@.skip(start as int),
                max_len as int,
            ),
        decreases n - start,
    {
        let ghost prev = res@;
        let ghost rem = str@.skip(start as int);
        push_range(&mut res, str, start, start + max_len);
        push_char(&mut res, '\n');
        proof {
            assert(rem.take(max_len as int) =~= str@.subrange(
                start as int,
                start as int + max_len as int,
            ));
            assert(rem.skip(max_len as int) =~= str@.skip(start as int + max_len as int));
            assert(res@ =~= prev + rem.take(max_len as int).push('\n'));
            assert(prev + rem.take(max_len as int).push('\n') + clamp_spec(
                rem.skip(max_len as int),
                max_len as int,
            ) =~= prev + (rem.take(max_len as int).push('\n') + clamp_spec(
                rem.skip(max_len as int),
                max_len as int,
            )));
        }
        start = start + max_len;
    }
    let ghost prev = res@;
    let ghost rem = str@.skip(start as int);
    push_range(&mut res, str, start, n);
    push_char(&mut res, '\n');
    proof {
        assert(rem =~= str@.subrange(start as int, n as int));
        assert(res@ =~= prev + rem.push('\n'));
    }
    res
}

/// A finite character-to-character mapping with earlier pairs taking
/// precedence, viewed as a mathematical map.
pub struct CharMap {
    pub pairs: Vec<(char, char)>,
}

/// The map a pair list denotes: the first pair with a given key wins.
pub open spec fn pairs_to_map(s: Seq<(char, char)>) -> Map<char, char>
    decreases s.len(),
{
    if s.len() == 0 {
        Map::empty()
    } else {
        pairs_to_map(s.drop_first()).insert(s[0].0, s[0].1)
    }
}

impl View for CharMap {
    type V = Map<char, char>;

    open spec fn view(&self) -> Map<char, char> {
        pairs_to_map(self.pairs@)
    }
}

/// Pairs before `j` not holding the key leave lookup of the key to the
/// rest of the list.
proof fn lemma_pairs_get(s: Seq<(char, char)>, c: char, j: int)
    requires
        0 <= j < s.len(),
        s[j].0 == c,
        forall|t: int| 0 <= t < j ==> s[t].0 != c,
    ensures
        pairs_to_map(s).contains_key(c),
        pairs_to_map(s)[c] == s[j].1,
    decreases j,
{
    if j > 0 {
        lemma_pairs_get(s.drop_first(), c, j - 1);
    }
}

/// A key on no pair is not in the map.
proof fn lemma_pairs_absent(s: Seq<(char, char)>, c: char)
    requires
        forall|t: int| 0 <= t < s.len() ==> s[t].0 != c,
    ensures
        !pairs_to_map(s).contains_key(c),
    decreases s.len(),
{
    if s.len() > 0 {
        lemma_pairs_absent(s.drop_first(), c);
    }
}

/// Every key in the map is on some pair.
proof fn lemma_pairs_domain(s: Seq<(char, char)>, c: char)
    requires
        pairs_to_map(s).contains_key(c),
    ensures
        exists|t: int| 0 <= t < s.len() && s[t].0 == c,
    decreases s.len(),
{
    if s.len() > 0 {
        if s[0].0 == c {
        } else {
            lemma_pairs_domain(s.drop_first(), c);
            let t = choose|t: int| 0 <= t < s.drop_first().len() && s.drop_first()[t].0 == c;
            assert(s[t + 1].0 == c);
        }
    }
}

impl CharMap {
    /// Look a character up: the first pair holding it decides.
    pub fn get(&self, c: char) -> (r: Option<char>)
        ensures
            self@.contains_key(c) ==> r == Some(self@[c]),
            !self@.contains_key(c) ==> r is None,
    {
        let n = self.pairs.len();
        let mut j: usize = 0;
        while j < n
            invariant
                n == self.pairs@.len(),
                j <= n,
                forall|t: int| 0 <= t < j ==> self.pairs@[t].0 != c,
            decreases n - j,
        {
            let (k, v) = self.pairs[j];
            if k == c {
                proof {
                    lemma_pairs_get(self.pairs@, c, j as int);
                }
                return Some(v);
            }
            j += 1;
        }
        proof {
            lemma_pairs_absent(self.pairs@, c);
        }
        None
    }
}

/// The character a mapping sends `c` to: itself where no mapping is
/// defined.
pub open spec fn mapped_char(m: Map<char, char>, c: char) -> char {
    if m.contains_key(c) {
        m[c]
    } else {
        c
    }
}

/// Apply the character mapper to every character, leaving unmapped
/// characters as they are.
pub fn alphamap(str: &str, mapper: &CharMap) -> (res: String)
    ensures
        res@.len() == str@.len(),
        forall|i: int| 0 <= i < str@.len() ==> res@[i] == mapped_char(mapper@, str@[i]),
{
    let n = str.unicode_len();
    let mut res = String::new();
    let mut i: usize = 0;
    while i < n
        invariant
            n == str@.len(),
            i <= n,
            res@.len() == i,
            forall|t: int| 0 <= t < i ==> res@[t] == mapped_char(mapper@, str@[t]),
        decreases n - i,
    {
        let c = str.get_char(i);
        match mapper.get(c) {
            Some(m) => push_char(&mut res, m),
            None => push_char(&mut res, c),
        }
        i += 1;
    }
    res
}

/// The `k`-th lower-case letter of the Latin alphabet.
pub open spec fn lowercase_alpha(k: int) -> char {
    if k == 0 { 'a' } else if k == 1 { 'b' } else if k == 2 { 'c' } else if k == 3 { 'd' }
    else if k == 4 { 'e' } else if k == 5 { 'f' } else if k == 6 { 'g' } else if k == 7 { 'h' }
    else if k == 8 { 'i' } else if k == 9 { 'j' } else if k == 10 { 'k' } else if k == 11 { 'l' }
    else if k == 12 { 'm' } else if k == 13 { 'n' } else if k == 14 { 'o' } else if k == 15 { 'p' }
    else if k == 16 { 'q' } else if k == 17 { 'r' } else if k == 18 { 's' } else if k == 19 { 't' }
    else if k == 20 { 'u' } else if k == 21 { 'v' } else if k == 22 { 'w' } else if k == 23 { 'x' }
    else if k == 24 { 'y' } else { 'z' }
}

/// The `k`-th lower-case letter, as executable data.
fn lowercase_alpha_at(k: usize) -> (r: char)
    requires
        k < 26,
    ensures
        r == lowercase_alpha(k as int),
{
    if k == 0 { 'a' } else if k == 1 { 'b' } else if k == 2 { 'c' } else if k == 3 { 'd' }
    else if k == 4 { 'e' } else if k == 5 { 'f' } else if k == 6 { 'g' } else if k == 7 { 'h' }
    else if k == 8 { 'i' } else if k == 9 { 'j' } else if k == 10 { 'k' } else if k == 11 { 'l' }
    else if k == 12 { 'm' } else if k == 13 { 'n' } else if k == 14 { 'o' } else if k == 15 { 'p' }
    else if k == 16 { 'q' } else if k == 17 { 'r' } else if k == 18 { 's' } else if k == 19 { 't' }
    else if k == 20 { 'u' } else if k == 21 { 'v' } else if k == 22 { 'w' } else if k == 23 { 'x' }
    else if k == 24 { 'y' } else { 'z' }
}

/// Turn an alphabetical vector of target characters into the map that
/// sends the `k`-th lower-case letter to the vector's `k`-th entry.
pub fn alphavec_to_map(alphavec: [char; 26]) -> (m: CharMap)
    ensures
        forall|k: int| 0 <= k < 26 ==> m@.contains_key(#[trigger] lowercase_alpha(k))
            && m@[lowercase_alpha(k)] == alphavec@[k],
        forall|c: char| m@.contains_key(c) ==> exists|k: int|
            0 <= k < 26 && lowercase_alpha(k) == c,
{
    let mut pairs: Vec<(char, char)> = Vec::new();
    let mut k: usize = 0;
    while k < 26
        invariant
            k <= 26,
            pairs@.len() == k,
            forall|t: int| 0 <= t < k ==> pairs@[t] == (lowercase_alpha(t), alphavec@[t]),
        decreases 26 - k,
    {
        pairs.push((lowercase_alpha_at(k), alphavec[k]));
        k += 1;
    }
    let m = CharMap { pairs };
    proof {
        assert(forall|k1: int| 0 <= k1 < 26 ==> #[trigger] lowercase_alpha(k1) as u32 == 97 + k1);
        assert forall|k1: int| 0 <= k1 < 26 implies m@.contains_key(#[trigger] lowercase_alpha(k1))
            && m@[lowercase_alpha(k1)] == alphavec@[k1] by {
            assert forall|t: int| 0 <= t < k1 implies m.pairs@[t].0 != lowercase_alpha(k1) by {
                assert(lowercase_alpha(t) as u32 == 97 + t);
            }
            lemma_pairs_get(m.pairs@, lowercase_alpha(k1), k1);
        }
        assert forall|c: char| m@.contains_key(c) implies exists|k1: int|
            0 <= k1 < 26 && lowercase_alpha(k1) == c by {
            lemma_pairs_domain(m.pairs@, c);
            let t = choose|t: int| 0 <= t < m.pairs@.len() && m.pairs@[t].0 == c;
            assert(lowercase_alpha(t) == c);
        }
    }
    m
}

/// The waveform file name the decoder produces for a raw-audio file: the
/// same stem with the `.wav` extension.
pub fn wav_name_for(spc_name: &str) -> (r: String)
    requires
        spc_name@.len() >= 4,
    ensures
        r@ == spc_name@.take(spc_name@.len() - 4) + seq!['.', 'w', 'a', 'v'],
{
    let n = spc_name.unicode_len();
    let mut r = spc_name.substring_char(0, n - 4).to_owned();
    let ghost stem = spc_name@.take(spc_name@.len() - 4);
    proof {
        assert(spc_name@.subrange(0, n as int - 4) =~= stem);
    }
    push_char(&mut r, '.');
    push_char(&mut r, 'w');
    push_char(&mut r, 'a');
    push_char(&mut r, 'v');
    proof {
        assert(r@ =~= stem + seq!['.', 'w', 'a', 'v']);
    }
    r
}

/// The final file name the encoder produces for a waveform: the same stem
/// with the operator-chosen target format as its extension.
pub fn reencoded_name_for(wav_name: &str, format: &str) -> (r: String)
    requires
        wav_name@.len() >= 4,
    ensures
        r@ == wav_name@.take(wav_name@.len() - 4).push('.') + format@,
{
    let n = wav_name.unicode_len();
    let mut r = wav_name.substring_char(0, n - 4).to_owned();
    let ghost stem = wav_name@.take(wav_name@.len() - 4);
    proof {
        assert(wav_name@.subrange(0, n as int - 4) =~= stem);
    }
    push_char(&mut r, '.');
    r.append(format);
    proof {
        assert(r@ =~= stem.push('.') + format@);
    }
    r
}

} // verus!
