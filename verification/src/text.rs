//! Character-level text operations with their specifications.
//!
//! Strings are handled as `Seq<char>` in specifications (the view of `&str`
//! and `String`), and as `Vec<char>` while they are being taken apart or
//! built up in executable code.
use vstd::prelude::*;

verus! {

/// `pat` occurs in `s` starting at position `i`.
pub open spec fn occurs_at(s: Seq<char>, pat: Seq<char>, i: int) -> bool {
    &&& 0 <= i
    &&& i + pat.len() <= s.len()
    &&& s.subrange(i, i + pat.len()) == pat
}

/// `s` starts with `p`.
pub open spec fn has_prefix(s: Seq<char>, p: Seq<char>) -> bool {
    occurs_at(s, p, 0)
}

/// `pat` occurs somewhere in `s` (the empty pattern occurs in every string).
pub open spec fn contains_seq(s: Seq<char>, pat: Seq<char>) -> bool {
    exists|i: int| occurs_at(s, pat, i)
}

/// `k` is the position of the first occurrence of `c` in `s`.
pub open spec fn is_first_index_of(s: Seq<char>, c: char, k: int) -> bool {
    &&& 0 <= k < s.len()
    &&& s[k] == c
    &&& forall|j: int| 0 <= j < k ==> s[j] != c
}

/// The position of the first occurrence of `c` in `s`, if `c` occurs in `s`.
pub open spec fn first_index_of(s: Seq<char>, c: char) -> Option<int> {
    if exists|k: int| is_first_index_of(s, c, k) {
        Some(choose|k: int| is_first_index_of(s, c, k))
    } else {
        None
    }
}

/// There is at most one first occurrence.
pub proof fn lemma_first_index_unique(s: Seq<char>, c: char, k1: int, k2: int)
    requires
        is_first_index_of(s, c, k1),
        is_first_index_of(s, c, k2),
    ensures
        k1 == k2,
{
    if k1 < k2 {
        assert(s[k1] != c);
    } else if k2 < k1 {
        assert(s[k2] != c);
    }
}

/// `c` occurs in `s` exactly when it has a first occurrence.
pub proof fn lemma_first_index_exists(s: Seq<char>, c: char, j: int)
    requires
        0 <= j < s.len(),
        s[j] == c,
    ensures
        exists|k: int| is_first_index_of(s, c, k),
    decreases j,
{
    if exists|i: int| 0 <= i < j && s[i] == c {
        let i = choose|i: int| 0 <= i < j && s[i] == c;
        lemma_first_index_exists(s, c, i);
    } else {
        assert(is_first_index_of(s, c, j));
    }
}

/// Every occurrence of `pat` in `s` (scanning left to right, without overlap)
/// replaced by `rep`; the behaviour of `str::replace` for a non-empty pattern.
pub open spec fn replace_seq(s: Seq<char>, pat: Seq<char>, rep: Seq<char>) -> Seq<char>
    recommends
        pat.len() > 0,
    decreases s.len(),
{
    if s.len() == 0 || pat.len() == 0 {
        s
    } else if has_prefix(s, pat) {
        rep + replace_seq(s.skip(pat.len() as int), pat, rep)
    } else {
        seq![s[0]] + replace_seq(s.skip(1), pat, rep)
    }
}

/// `s` with every trailing `c` removed; the behaviour of `str::trim_end_matches`
/// for a single character.
pub open spec fn trim_end_char(s: Seq<char>, c: char) -> Seq<char>
    decreases s.len(),
{
    if s.len() > 0 && s.last() == c {
        trim_end_char(s.drop_last(), c)
    } else {
        s
    }
}

/// The pieces of `parts` joined with `sep` between consecutive pieces.
pub open spec fn join_seq(parts: Seq<Seq<char>>, sep: Seq<char>) -> Seq<char>
    decreases parts.len(),
{
    if parts.len() == 0 {
        Seq::empty()
    } else if parts.len() == 1 {
        parts[0]
    } else {
        join_seq(parts.drop_last(), sep) + sep + parts.last()
    }
}

/// Every `c` in `s` that belongs to `from` replaced by `to`.
pub open spec fn map_chars(s: Seq<char>, from: Set<char>, to: char) -> Seq<char> {
    Seq::new(s.len(), |i: int| if from.contains(s[i]) { to } else { s[i] })
}

/// The decimal digit for `d` (below ten).
pub open spec fn digit_char(d: nat) -> char {
    (48 + d) as char
}

/// The decimal notation of `n`, without leading zeros.
pub open spec fn decimal(n: nat) -> Seq<char>
    decreases n,
{
    if n < 10 {
        seq![digit_char(n)]
    } else {
        decimal(n / 10).push(digit_char(n % 10))
    }
}

/// Appends the decimal notation of `n` to `out`.
pub fn push_decimal(out: &mut Vec<char>, n: u64)
    ensures
        final(out)@ == old(out)@ + decimal(n as nat),
    decreases n,
{
    if n >= 10 {
        push_decimal(out, n / 10);
    }
    let d: u8 = (n % 10) as u8;
    let c: char = (d + 48) as char;
    assert(c == digit_char((n % 10) as nat));
    out.push(c);
    proof {
        if n >= 10 {
            assert(decimal(n as nat) == decimal((n / 10) as nat).push(digit_char((n % 10) as nat)));
        }
    }
}

/// The characters of a string slice.
pub fn chars_of(s: &str) -> (r: Vec<char>)
    ensures
        r@ == s@,
{
    let mut v: Vec<char> = Vec::new();
    for c in it: s.chars()
        invariant
            v@ == it.seq().take(it.index() as int),
            it.seq() == s@,
    {
        v.push(c);
    }
    v
}

/// A `String` made of the given characters, in order: collects them through
/// std's `FromIterator<char>` impl for `String`, which appends each one.
#[verifier::external_body]
pub(crate) fn string_from_chars(v: &[char]) -> (r: String)
    ensures
        r@ == v@,
{
    v.iter().collect()
}

/// A copy of a string slice as an owned `String`.
pub fn owned(s: &str) -> (r: String)
    ensures
        r@ == s@,
{
    let v = chars_of(s);
    string_from_chars(v.as_slice())
}

/// Appends the characters of `s` to `out`.
pub fn push_str(out: &mut Vec<char>, s: &str)
    ensures
        final(out)@ == old(out)@ + s@,
{
    let v = chars_of(s);
    push_chars(out, v.as_slice());
}

/// Appends `v` to `out`.
pub fn push_chars(out: &mut Vec<char>, v: &[char])
    ensures
        final(out)@ == old(out)@ + v@,
{
    let ghost start = out@;
    let mut i: usize = 0;
    while i < v.len()
        invariant
            i <= v@.len(),
            out@ == start + v@.take(i as int),
        decreases v@.len() - i,
    {
        out.push(v[i]);
        i += 1;
        assert(v@.take(i as int) == v@.take((i - 1) as int).push(v@[i - 1]));
    }
    assert(v@.take(v@.len() as int) == v@);
}

/// Whether `pat` occurs in `s` at position `i`.
pub fn occurs_at_exec(s: &[char], pat: &[char], i: usize) -> (r: bool)
    ensures
        r == occurs_at(s@, pat@, i as int),
{
    if i > s.len() || pat.len() > s.len() - i {
        return false;
    }
    let n = s.len();
    let mut j: usize = 0;
    while j < pat.len()
        invariant
            n == s@.len(),
            i + pat@.len() <= s@.len(),
            j <= pat@.len(),
            forall|k: int| 0 <= k < j ==> s@[i + k] == pat@[k],
        decreases pat@.len() - j,
    {
        assert(i + j < n);
        if s[i + j] != pat[j] {
            assert(s@.subrange(i as int, i + pat@.len())[j as int] != pat@[j as int]);
            return false;
        }
        j += 1;
    }
    assert(s@.subrange(i as int, i + pat@.len()) =~= pat@);
    true
}

/// Whether `s` starts with `p`.
pub fn starts_with_chars(s: &[char], p: &[char]) -> (r: bool)
    ensures
        r == has_prefix(s@, p@),
{
    occurs_at_exec(s, p, 0)
}

/// Whether `pat` occurs somewhere in `s`.
pub fn contains_chars(s: &[char], pat: &[char]) -> (r: bool)
    ensures
        r == contains_seq(s@, pat@),
{
    if pat.len() > s.len() {
        assert(forall|i: int| !occurs_at(s@, pat@, i));
        return false;
    }
    let last = s.len() - pat.len();
    let mut i: usize = 0;
    while i <= last
        invariant
            last + pat@.len() == s@.len(),
            forall|k: int| 0 <= k < i ==> !occurs_at(s@, pat@, k),
        decreases last + 1 - i,
    {
        if occurs_at_exec(s, pat, i) {
            return true;
        }
        if i == last {
            assert forall|k: int| !occurs_at(s@, pat@, k) by {
                if 0 <= k < i {
                } else if k == i {
                } else {
                }
            }
            return false;
        }
        i += 1;
    }
    false
}

/// Whether `pat` occurs in the string slice `s`.
pub fn str_contains(s: &str, pat: &str) -> (r: bool)
    ensures
        r == contains_seq(s@, pat@),
{
    let sv = chars_of(s);
    let pv = chars_of(pat);
    contains_chars(sv.as_slice(), pv.as_slice())
}

/// Whether two string slices hold the same characters.
pub fn str_eq(a: &str, b: &str) -> (r: bool)
    ensures
        r == (a@ == b@),
{
    let x = owned(a);
    let y = owned(b);
    x == y
}

/// Whether the string slice `s` starts with `p`.
pub fn str_starts_with(s: &str, p: &str) -> (r: bool)
    ensures
        r == has_prefix(s@, p@),
{
    let sv = chars_of(s);
    let pv = chars_of(p);
    starts_with_chars(sv.as_slice(), pv.as_slice())
}

/// The position of the first `c` in `s`.
pub fn find_char(s: &[char], c: char) -> (r: Option<usize>)
    ensures
        match r {
            Some(k) => is_first_index_of(s@, c, k as int),
            None => forall|j: int| 0 <= j < s@.len() ==> s@[j] != c,
        },
        r matches Some(k) ==> first_index_of(s@, c) == Some(k as int),
        r is None ==> first_index_of(s@, c) is None,
{
    let mut i: usize = 0;
    while i < s.len()
        invariant
            i <= s@.len(),
            forall|j: int| 0 <= j < i ==> s@[j] != c,
        decreases s@.len() - i,
    {
        if s[i] == c {
            proof {
                assert(is_first_index_of(s@, c, i as int));
                let k = choose|k: int| is_first_index_of(s@, c, k);
                lemma_first_index_unique(s@, c, k, i as int);
            }
            return Some(i);
        }
        i += 1;
    }
    proof {
        if exists|k: int| is_first_index_of(s@, c, k) {
            let k = choose|k: int| is_first_index_of(s@, c, k);
            assert(s@[k] == c);
        }
    }
    None
}

/// The characters of `s` from position `from` (inclusive) to `to` (exclusive).
pub fn slice_chars(s: &[char], from: usize, to: usize) -> (r: Vec<char>)
    requires
        from <= to <= s@.len(),
    ensures
        r@ == s@.subrange(from as int, to as int),
{
    let mut out: Vec<char> = Vec::new();
    let mut i: usize = from;
    while i < to
        invariant
            from <= i <= to <= s@.len(),
            out@ == s@.subrange(from as int, i as int),
        decreases to - i,
    {
        out.push(s[i]);
        i += 1;
        assert(out@ =~= s@.subrange(from as int, i as int));
    }
    out
}

proof fn lemma_replace_step_match(s: Seq<char>, pat: Seq<char>, rep: Seq<char>, i: int)
    requires
        pat.len() > 0,
        0 <= i < s.len(),
        occurs_at(s, pat, i),
    ensures
        replace_seq(s.skip(i), pat, rep) == rep + replace_seq(s.skip(i + pat.len()), pat, rep),
{
    let t = s.skip(i);
    assert(t.subrange(0, pat.len() as int) =~= s.subrange(i, i + pat.len()));
    assert(has_prefix(t, pat));
    assert(t.skip(pat.len() as int) =~= s.skip(i + pat.len()));
}

proof fn lemma_replace_step_nomatch(s: Seq<char>, pat: Seq<char>, rep: Seq<char>, i: int)
    requires
        pat.len() > 0,
        0 <= i < s.len(),
        !occurs_at(s, pat, i),
    ensures
        replace_seq(s.skip(i), pat, rep) == seq![s[i]] + replace_seq(s.skip(i + 1), pat, rep),
{
    let t = s.skip(i);
    if has_prefix(t, pat) {
        assert(t.subrange(0, pat.len() as int) =~= s.subrange(i, i + pat.len()));
        assert(false);
    }
    assert(t.skip(1) =~= s.skip(i + 1));
}

/// `s` with every occurrence of the non-empty `pat` replaced by `rep`.
pub fn replace_chars(s: &[char], pat: &[char], rep: &[char]) -> (r: Vec<char>)
    requires
        pat@.len() > 0,
    ensures
        r@ == replace_seq(s@, pat@, rep@),
{
    let mut out: Vec<char> = Vec::new();
    let mut i: usize = 0;
    assert(s@.skip(0) =~= s@);
    while i < s.len()
        invariant
            pat@.len() > 0,
            i <= s@.len(),
            out@ + replace_seq(s@.skip(i as int), pat@, rep@) == replace_seq(s@, pat@, rep@),
        decreases s@.len() - i,
    {
        if occurs_at_exec(s, pat, i) {
            proof {
                lemma_replace_step_match(s@, pat@, rep@, i as int);
            }
            let ghost before = out@;
            push_chars(&mut out, rep);
            assert(out@ + replace_seq(s@.skip(i + pat@.len()), pat@, rep@) == before + (rep@
                + replace_seq(s@.skip(i + pat@.len()), pat@, rep@)));
            i = i + pat.len();
        } else {
            proof {
                lemma_replace_step_nomatch(s@, pat@, rep@, i as int);
            }
            let ghost before = out@;
            out.push(s[i]);
            assert(out@ + replace_seq(s@.skip(i + 1), pat@, rep@) == before + (seq![s@[i as int]]
                + replace_seq(s@.skip(i + 1), pat@, rep@)));
            i = i + 1;
        }
    }
    assert(s@.skip(i as int).len() == 0);
    assert(out@ + replace_seq(s@.skip(i as int), pat@, rep@) == out@);
    out
}

/// `s` with every character that belongs to `from` replaced by `to`.
pub fn map_chars_exec(s: &[char], from: &[char], to: char) -> (r: Vec<char>)
    ensures
        r@ == map_chars(s@, from@.to_set(), to),
{
    let mut out: Vec<char> = Vec::new();
    let mut i: usize = 0;
    while i < s.len()
        invariant
            i <= s@.len(),
            out@.len() == i,
            forall|k: int|
                0 <= k < i ==> out@[k] == (if from@.to_set().contains(s@[k]) {
                    to
                } else {
                    s@[k]
                }),
        decreases s@.len() - i,
    {
        let c = s[i];
        let mut hit = false;
        let mut j: usize = 0;
        while j < from.len()
            invariant
                j <= from@.len(),
                hit <==> exists|m: int| 0 <= m < j && from@[m] == c,
            decreases from@.len() - j,
        {
            if from[j] == c {
                hit = true;
            }
            j += 1;
        }
        proof {
            if hit {
                let m = choose|m: int| 0 <= m < j && from@[m] == c;
                assert(from@.to_set().contains(from@[m]));
            } else {
                if from@.to_set().contains(c) {
                    let m = choose|m: int| 0 <= m < from@.len() && from@[m] == c;
                    assert(false);
                }
            }
        }
        if hit {
            out.push(to);
        } else {
            out.push(c);
        }
        i += 1;
    }
    assert(out@ =~= map_chars(s@, from@.to_set(), to));
    out
}

/// `s` without its trailing `c` characters.
pub fn trim_end_char_exec(s: &[char], c: char) -> (r: Vec<char>)
    ensures
        r@ == trim_end_char(s@, c),
{
    let mut end: usize = s.len();
    assert(s@.take(end as int) =~= s@);
    while end > 0 && s[end - 1] == c
        invariant
            end <= s@.len(),
            trim_end_char(s@.take(end as int), c) == trim_end_char(s@, c),
        decreases end,
    {
        assert(s@.take(end as int).drop_last() =~= s@.take(end - 1));
        end -= 1;
    }
    slice_chars(s, 0, end)
}

/// The strings of `parts` joined with `sep`.
pub fn join_strings(parts: &Vec<String>, sep: &str) -> (r: Vec<char>)
    ensures
        r@ == join_seq(parts@.map_values(|p: String| p@), sep@),
{
    let ghost views = parts@.map_values(|p: String| p@);
    let mut out: Vec<char> = Vec::new();
    let mut i: usize = 0;
    while i < parts.len()
        invariant
            i <= parts@.len(),
            views == parts@.map_values(|p: String| p@),
            out@ == join_seq(views.take(i as int), sep@),
        decreases parts@.len() - i,
    {
        if i > 0 {
            push_str(&mut out, sep);
        }
        push_str(&mut out, parts[i].as_str());
        proof {
            assert(views.take(i + 1).drop_last() =~= views.take(i as int));
            if i == 0 {
                assert(views.take(1) =~= seq![views[0]]);
            }
        }
        i += 1;
    }
    assert(views.take(parts@.len() as int) =~= views);
    out
}

/// Whether a character has the Unicode `White_Space` property, which is
/// what `char::is_whitespace` tests: tab to carriage return, space, next
/// line, no-break space, ogham space mark, the spaces from en quad to hair
/// space, the line and paragraph separators, narrow no-break space, medium
/// mathematical space and ideographic space.
pub open spec fn is_white_space(c: char) -> bool {
    let u = c as u32;
    ||| 0x09 <= u <= 0x0d
    ||| u == 0x20
    ||| u == 0x85
    ||| u == 0xa0
    ||| u == 0x1680
    ||| 0x2000 <= u <= 0x200a
    ||| u == 0x2028
    ||| u == 0x2029
    ||| u == 0x202f
    ||| u == 0x205f
    ||| u == 0x3000
}

/// Whether a character is whitespace (has the Unicode `White_Space`
/// property).
pub(crate) fn char_is_whitespace(c: char) -> (r: bool)
    ensures
        r == is_white_space(c),
{
    let u = c as u32;
    (0x09 <= u && u <= 0x0d) || u == 0x20 || u == 0x85 || u == 0xa0 || u == 0x1680 || (0x2000 <= u
        && u <= 0x200a) || u == 0x2028 || u == 0x2029 || u == 0x202f || u == 0x205f || u == 0x3000
}

/// The lowercase mapping of a string, as `str::to_lowercase` computes it
/// (Unicode's `Lowercase` mapping, which may change the length).
pub uninterp spec fn lowercase(s: Seq<char>) -> Seq<char>;

/// Calls `str::to_lowercase`; the contract names its result.
#[verifier::external_body]
pub(crate) fn to_lowercase(s: &str) -> (r: String)
    ensures
        r@ == lowercase(s@),
{
    s.to_lowercase()
}

/// The number of leading whitespace characters of `s`.
pub open spec fn leading_space(s: Seq<char>) -> nat
    decreases s.len(),
{
    if s.len() > 0 && is_white_space(s[0]) {
        1 + leading_space(s.drop_first())
    } else {
        0
    }
}

/// `s` without its leading whitespace.
pub open spec fn trim_start_seq(s: Seq<char>) -> Seq<char>
    decreases s.len(),
{
    if s.len() > 0 && is_white_space(s[0]) {
        trim_start_seq(s.drop_first())
    } else {
        s
    }
}

/// `s` without its trailing whitespace.
pub open spec fn trim_end_seq(s: Seq<char>) -> Seq<char>
    decreases s.len(),
{
    if s.len() > 0 && is_white_space(s.last()) {
        trim_end_seq(s.drop_last())
    } else {
        s
    }
}

/// `s` without leading and trailing whitespace, as `str::trim` gives it.
pub open spec fn trim_seq(s: Seq<char>) -> Seq<char> {
    trim_end_seq(trim_start_seq(s))
}

/// `s` without leading and trailing whitespace.
pub fn trim(s: &str) -> (r: String)
    ensures
        r@ == trim_seq(s@),
{
    let cv = chars_of(s);
    let n = cv.len();
    let mut start: usize = 0;
    assert(cv@.skip(0) =~= cv@);
    while start < n && char_is_whitespace(cv[start])
        invariant
            n == cv@.len(),
            start <= n,
            trim_start_seq(cv@.skip(start as int)) == trim_start_seq(cv@),
        decreases n - start,
    {
        assert(cv@.skip(start as int).drop_first() =~= cv@.skip(start + 1));
        start += 1;
    }
    let ghost rest = cv@.skip(start as int);
    assert(trim_start_seq(rest) == rest);
    let mut end: usize = n;
    assert(cv@.subrange(start as int, n as int) =~= rest);
    while end > start && char_is_whitespace(cv[end - 1])
        invariant
            n == cv@.len(),
            start <= end <= n,
            trim_end_seq(cv@.subrange(start as int, end as int)) == trim_end_seq(rest),
        decreases end,
    {
        assert(cv@.subrange(start as int, end as int).drop_last() =~= cv@.subrange(
            start as int,
            end - 1,
        ));
        end -= 1;
    }
    let out = slice_chars(cv.as_slice(), start, end);
    string_from_chars(out.as_slice())
}

} // verus!
