//! Character-sequence helpers shared by the configuration parsers.
//!
//! Strings are handled as sequences of `char`; every operation here states
//! its result over `Seq<char>` so that callers can state theirs.
use vstd::prelude::*;
use vstd::string::*;

verus! {

/// The characters that `char::is_whitespace` accepts (Unicode `White_Space`).
pub open spec fn is_space(c: char) -> bool {
    ||| c == '\t' || c == '\n' || c == '\u{0B}' || c == '\u{0C}' || c == '\r'
    ||| c == ' ' || c == '\u{85}' || c == '\u{A0}' || c == '\u{1680}'
    ||| ('\u{2000}' <= c && c <= '\u{200A}')
    ||| c == '\u{2028}' || c == '\u{2029}' || c == '\u{202F}' || c == '\u{205F}'
    ||| c == '\u{3000}'
}

/// `s` without its leading whitespace.
pub open spec fn trim_start_seq(s: Seq<char>) -> Seq<char>
    decreases s.len(),
{
    if s.len() > 0 && is_space(s[0]) {
        trim_start_seq(s.drop_first())
    } else {
        s
    }
}

/// `s` without its trailing whitespace.
pub open spec fn trim_end_seq(s: Seq<char>) -> Seq<char>
    decreases s.len(),
{
    if s.len() > 0 && is_space(s.last()) {
        trim_end_seq(s.drop_last())
    } else {
        s
    }
}

/// `s` without leading and trailing whitespace (what `str::trim` gives).
pub open spec fn trim_seq(s: Seq<char>) -> Seq<char> {
    trim_end_seq(trim_start_seq(s))
}

/// `c` stands for the lowercase ASCII letter or symbol `l` once lowercased:
/// `c` is `l` itself, its ASCII capital, or (for `l == 'k'`) the Kelvin sign,
/// which `char::to_lowercase` maps to `'k'`.
pub open spec fn folds_to(c: char, l: char) -> bool {
    ||| c == l
    ||| ('a' <= l && l <= 'z' && c as u32 + 32 == l as u32)
    ||| (l == 'k' && c == '\u{212A}')
}

/// `s`, lowercased, is the lowercase ASCII word `w`.
pub open spec fn eq_lower_word(s: Seq<char>, w: Seq<char>) -> bool {
    &&& s.len() == w.len()
    &&& forall|i: int| 0 <= i < s.len() ==> #[trigger] folds_to(s[i], w[i])
}

/// A word starting with a lowercase ASCII letter is no other lowercase word
/// starting with a different letter, in any case.
pub proof fn lemma_first_letter_differs(s: Seq<char>, w: Seq<char>)
    requires
        s.len() > 0,
        w.len() > 0,
        'a' <= s[0] <= 'z',
        s[0] != w[0],
    ensures
        !eq_lower_word(s, w),
{
    assert(!folds_to(s[0], w[0]));
}

/// `s`, lowercased, contains the lowercase ASCII word `w` starting at index `i`.
pub open spec fn has_lower_word_at(s: Seq<char>, w: Seq<char>, i: int) -> bool {
    &&& 0 <= i
    &&& i + w.len() <= s.len()
    &&& eq_lower_word(s.subrange(i, i + w.len()), w)
}

/// `s`, lowercased, contains the lowercase ASCII word `w`.
pub open spec fn contains_lower_word(s: Seq<char>, w: Seq<char>) -> bool {
    exists|i: int| has_lower_word_at(s, w, i)
}

/// The code point of `c` with ASCII capitals mapped to lowercase.
pub open spec fn ascii_fold(c: char) -> u32 {
    if 'A' <= c && c <= 'Z' {
        (c as u32 + 32) as u32
    } else {
        c as u32
    }
}

/// `a` and `b` are equal up to ASCII case (what `str::eq_ignore_ascii_case` tests).
pub open spec fn eq_ignore_ascii_case_seq(a: Seq<char>, b: Seq<char>) -> bool {
    &&& a.len() == b.len()
    &&& forall|i: int| 0 <= i < a.len() ==> #[trigger] ascii_fold(a[i]) == ascii_fold(b[i])
}

/// Replaces every non-overlapping occurrence of `pat`, scanning left to right
/// (what `str::replace` does for a non-empty pattern).
pub open spec fn replace_all(s: Seq<char>, pat: Seq<char>, rep: Seq<char>) -> Seq<char>
    decreases s.len(),
{
    if pat.len() == 0 || s.len() < pat.len() {
        s
    } else if s.subrange(0, pat.len() as int) == pat {
        rep + replace_all(s.skip(pat.len() as int), pat, rep)
    } else {
        seq![s[0]] + replace_all(s.drop_first(), pat, rep)
    }
}

/// The pieces of `s` between occurrences of `sep` (what `str::split(sep)` yields):
/// `n` separators give `n + 1` pieces.
pub open spec fn split_on(s: Seq<char>, sep: char) -> Seq<Seq<char>>
    decreases s.len(),
{
    if s.len() == 0 {
        seq![Seq::<char>::empty()]
    } else {
        let r = split_on(s.drop_last(), sep);
        if s.last() == sep {
            r.push(Seq::<char>::empty())
        } else {
            r.update(r.len() - 1, r.last().push(s.last()))
        }
    }
}

/// The pieces `ps` joined with `sep` between consecutive pieces (`[T]::join`).
pub open spec fn join_with(ps: Seq<Seq<char>>, sep: Seq<char>) -> Seq<char>
    decreases ps.len(),
{
    if ps.len() == 0 {
        Seq::<char>::empty()
    } else if ps.len() == 1 {
        ps[0]
    } else {
        join_with(ps.drop_last(), sep) + sep + ps.last()
    }
}

/// The character sequences held by a vector of character vectors.
pub open spec fn seqs_of(v: Seq<Vec<char>>) -> Seq<Seq<char>> {
    v.map_values(|x: Vec<char>| x@)
}

/// The character sequences held by a vector of strings.
pub open spec fn strings_of(v: Seq<String>) -> Seq<Seq<char>> {
    v.map_values(|x: String| x@)
}

pub proof fn lemma_split_nonempty(s: Seq<char>, sep: char)
    ensures
        split_on(s, sep).len() >= 1,
    decreases s.len(),
{
    if s.len() > 0 {
        lemma_split_nonempty(s.drop_last(), sep);
    }
}

/// A text without `sep` splits into itself alone.
pub proof fn lemma_split_without_sep(s: Seq<char>, sep: char)
    requires
        !s.contains(sep),
    ensures
        split_on(s, sep) == seq![s],
    decreases s.len(),
{
    if s.len() > 0 {
        let p = s.drop_last();
        assert(!p.contains(sep)) by {
            if p.contains(sep) {
                let k = choose|k: int| 0 <= k < p.len() && p[k] == sep;
                assert(s[k] == sep);
            }
        }
        lemma_split_without_sep(p, sep);
        assert(s.last() != sep) by {
            assert(s[s.len() - 1] == s.last());
        }
        assert(p.push(s.last()) =~= s);
    } else {
        assert(s =~= Seq::<char>::empty());
    }
}

/// Splitting at a separator between `a` and `b` gives the pieces of `a`,
/// then those of `b`.
pub proof fn lemma_split_at_sep(a: Seq<char>, b: Seq<char>, sep: char)
    ensures
        split_on(a + seq![sep] + b, sep) == split_on(a, sep) + split_on(b, sep),
    decreases b.len(),
{
    let s = a + seq![sep] + b;
    if b.len() == 0 {
        assert(s.drop_last() =~= a);
        assert(split_on(b, sep) =~= seq![Seq::<char>::empty()]);
        assert(split_on(a, sep).push(Seq::<char>::empty()) =~= split_on(a, sep) + split_on(b, sep));
    } else {
        let b1 = b.drop_last();
        assert(s.drop_last() =~= a + seq![sep] + b1);
        assert(s.last() == b.last());
        lemma_split_at_sep(a, b1, sep);
        lemma_split_nonempty(b1, sep);
        let ra = split_on(a, sep);
        let rb = split_on(b1, sep);
        if b.last() == sep {
            assert((ra + rb).push(Seq::<char>::empty()) =~= ra + rb.push(Seq::<char>::empty()));
        } else {
            let r = ra + rb;
            assert(r.update(r.len() - 1, r.last().push(b.last())) =~= ra + rb.update(
                rb.len() - 1,
                rb.last().push(b.last()),
            ));
        }
    }
}

/// The text `String::from_utf8_lossy` gives for `bytes`: the bytes decoded
/// as UTF-8, each invalid sequence replaced by U+FFFD. This is also how a
/// Unix path with these bytes is shown (`Path::display`).
pub uninterp spec fn utf8_lossy(bytes: Seq<u8>) -> Seq<char>;

/// Calls `String::from_utf8_lossy` (std).
///
/// Claimed of it: the result is `utf8_lossy(bytes)`, and bytes that are all
/// ASCII come out as those characters (ASCII is valid UTF-8, which the
/// function returns unchanged).
#[verifier::external_body]
pub(crate) fn lossy_text(bytes: &Vec<u8>) -> (s: String)
    ensures
        s@ == utf8_lossy(bytes@),
        (forall|i: int| 0 <= i < bytes.len() ==> #[trigger] bytes@[i] < 128) ==> s@ == bytes@.map_values(
            |b: u8| b as char,
        ),
{
    String::from_utf8_lossy(bytes).into_owned()
}

/// Appends one character to a string (`String::push`).
#[verifier::external_body]
pub(crate) fn push_char(s: &mut String, c: char)
    ensures
        final(s)@ == old(s)@.push(c),
{
    s.push(c);
}

/// The characters of `s`.
pub fn str_chars(s: &str) -> (v: Vec<char>)
    ensures
        v@ == s@,
{
    let n = s.unicode_len();
    let mut v: Vec<char> = Vec::new();
    let mut i: usize = 0;
    while i < n
        invariant
            i <= n,
            n == s@.len(),
            v@ == s@.take(i as int),
        decreases n - i,
    {
        let c = s.get_char(i);
        v.push(c);
        proof {
            assert(s@.take(i as int + 1) =~= s@.take(i as int).push(c));
        }
        i += 1;
    }
    proof {
        assert(s@.take(n as int) =~= s@);
    }
    v
}

/// A string holding exactly the characters of `v`.
pub fn chars_to_string(v: &Vec<char>) -> (s: String)
    ensures
        s@ == v@,
{
    let mut s = String::new();
    let mut i: usize = 0;
    while i < v.len()
        invariant
            i <= v.len(),
            s@ == v@.take(i as int),
        decreases v.len() - i,
    {
        push_char(&mut s, v[i]);
        proof {
            assert(v@.take(i as int + 1) =~= v@.take(i as int).push(v@[i as int]));
        }
        i += 1;
    }
    proof {
        assert(v@.take(v.len() as int) =~= v@);
    }
    s
}

/// Appends the characters of `t` to `s`.
pub fn append_chars(s: &mut String, t: &Vec<char>)
    ensures
        final(s)@ == old(s)@ + t@,
{
    let mut i: usize = 0;
    while i < t.len()
        invariant
            i <= t.len(),
            s@ == old(s)@ + t@.take(i as int),
        decreases t.len() - i,
    {
        push_char(s, t[i]);
        proof {
            assert(t@.take(i as int + 1) =~= t@.take(i as int).push(t@[i as int]));
        }
        i += 1;
    }
    proof {
        assert(t@.take(t.len() as int) =~= t@);
    }
}

/// Whether `c` is whitespace (`char::is_whitespace`).
pub fn is_space_char(c: char) -> (b: bool)
    ensures
        b == is_space(c),
{
    c == '\t' || c == '\n' || c == '\u{0B}' || c == '\u{0C}' || c == '\r' || c == ' '
        || c == '\u{85}' || c == '\u{A0}' || c == '\u{1680}' || ('\u{2000}' <= c && c
        <= '\u{200A}') || c == '\u{2028}' || c == '\u{2029}' || c == '\u{202F}' || c
        == '\u{205F}' || c == '\u{3000}'
}

/// The characters `s[from..to]`.
pub fn sub_chars(s: &Vec<char>, from: usize, to: usize) -> (r: Vec<char>)
    requires
        from <= to <= s.len(),
    ensures
        r@ == s@.subrange(from as int, to as int),
{
    let mut r: Vec<char> = Vec::new();
    let mut i = from;
    while i < to
        invariant
            from <= i <= to,
            to <= s.len(),
            r@ == s@.subrange(from as int, i as int),
        decreases to - i,
    {
        r.push(s[i]);
        proof {
            assert(s@.subrange(from as int, i as int + 1) =~= s@.subrange(
                from as int,
                i as int,
            ).push(s@[i as int]));
        }
        i += 1;
    }
    r
}

/// `s` without leading and trailing whitespace.
pub fn trim_chars(s: &Vec<char>) -> (r: Vec<char>)
    ensures
        r@ == trim_seq(s@),
{
    let n = s.len();
    let mut a: usize = 0;
    proof {
        assert(s@.skip(0) =~= s@);
    }
    while a < n && is_space_char(s[a])
        invariant
            a <= n,
            n == s.len(),
            trim_start_seq(s@) == trim_start_seq(s@.skip(a as int)),
        decreases n - a,
    {
        proof {
            assert(s@.skip(a as int).drop_first() =~= s@.skip(a as int + 1));
        }
        a += 1;
    }
    proof {
        assert(trim_start_seq(s@.skip(a as int)) == s@.skip(a as int));
        assert(s@.skip(a as int) =~= s@.subrange(a as int, n as int));
    }
    let mut b: usize = n;
    while b > a && is_space_char(s[b - 1])
        invariant
            a <= b <= n,
            n == s.len(),
            trim_end_seq(s@.subrange(a as int, n as int)) == trim_end_seq(
                s@.subrange(a as int, b as int),
            ),
        decreases b,
    {
        proof {
            assert(s@.subrange(a as int, b as int).drop_last() =~= s@.subrange(
                a as int,
                b as int - 1,
            ));
        }
        b -= 1;
    }
    sub_chars(s, a, b)
}

/// Whether `s[i..i + pat.len()]` is `pat`.
pub fn matches_at(s: &Vec<char>, i: usize, pat: &Vec<char>) -> (b: bool)
    requires
        i + pat.len() <= s.len(),
    ensures
        b == (s@.subrange(i as int, i + pat.len()) == pat@),
{
    let mut k: usize = 0;
    while k < pat.len()
        invariant
            k <= pat.len(),
            i + pat.len() <= s.len(),
            forall|j: int| 0 <= j < k ==> s@[i + j] == pat@[j],
        decreases pat.len() - k,
    {
        if s[i + k] != pat[k] {
            proof {
                assert(s@.subrange(i as int, i + pat.len())[k as int] != pat@[k as int]);
            }
            return false;
        }
        k += 1;
    }
    proof {
        assert(s@.subrange(i as int, i + pat.len()) =~= pat@);
    }
    true
}

/// `s` with every occurrence of the non-empty `pat` replaced by `rep`.
pub fn replace_chars(s: &Vec<char>, pat: &Vec<char>, rep: &Vec<char>) -> (r: Vec<char>)
    requires
        pat.len() > 0,
    ensures
        r@ == replace_all(s@, pat@, rep@),
{
    let n = s.len();
    let plen = pat.len();
    let mut out: Vec<char> = Vec::new();
    let mut i: usize = 0;
    proof {
        assert(s@.skip(0) =~= s@);
        assert(out@ + s@ =~= s@);
    }
    while i < n
        invariant
            i <= n,
            n == s.len(),
            plen == pat.len(),
            plen > 0,
            out@ + replace_all(s@.skip(i as int), pat@, rep@) == replace_all(s@, pat@, rep@),
        decreases n - i,
    {
        let rest = Ghost(s@.skip(i as int));
        if plen <= n - i && matches_at(s, i, pat) {
            proof {
                assert(rest@.subrange(0, plen as int) =~= s@.subrange(i as int, i + plen));
                assert(rest@.skip(plen as int) =~= s@.skip(i + plen));
            }
            let mut k: usize = 0;
            let ghost out0 = out@;
            while k < rep.len()
                invariant
                    k <= rep.len(),
                    out@ == out0 + rep@.take(k as int),
                decreases rep.len() - k,
            {
                out.push(rep[k]);
                proof {
                    assert(rep@.take(k as int + 1) =~= rep@.take(k as int).push(rep@[k as int]));
                }
                k += 1;
            }
            proof {
                assert(rep@.take(rep.len() as int) =~= rep@);
                assert(out@ + replace_all(s@.skip(i + plen), pat@, rep@) =~= out0 + (rep@
                    + replace_all(s@.skip(i + plen), pat@, rep@)));
            }
            i += plen;
        } else {
            proof {
                assert(rest@.drop_first() =~= s@.skip(i as int + 1));
                if plen <= n - i {
                    assert(rest@.subrange(0, plen as int) =~= s@.subrange(i as int, i + plen));
                } else {
                    assert(replace_all(s@.skip(i as int + 1), pat@, rep@) == s@.skip(
                        i as int + 1,
                    ));
                }
                assert(seq![s@[i as int]] + replace_all(s@.skip(i as int + 1), pat@, rep@)
                    =~= replace_all(rest@, pat@, rep@));
            }
            let ghost out0 = out@;
            out.push(s[i]);
            proof {
                assert(out@ + replace_all(s@.skip(i as int + 1), pat@, rep@) =~= out0 + (seq![
                    s@[i as int],
                ] + replace_all(s@.skip(i as int + 1), pat@, rep@)));
            }
            i += 1;
        }
    }
    proof {
        assert(s@.skip(n as int) =~= Seq::<char>::empty());
        assert(out@ + Seq::<char>::empty() =~= out@);
    }
    out
}

/// The pieces of `s` between occurrences of `sep`.
pub fn split_chars(s: &Vec<char>, sep: char) -> (parts: Vec<Vec<char>>)
    ensures
        seqs_of(parts@) == split_on(s@, sep),
{
    let mut parts: Vec<Vec<char>> = Vec::new();
    let mut cur: Vec<char> = Vec::new();
    let mut i: usize = 0;
    while i < s.len()
        invariant
            i <= s.len(),
            seqs_of(parts@).push(cur@) == split_on(s@.take(i as int), sep),
        decreases s.len() - i,
    {
        let c = s[i];
        proof {
            assert(s@.take(i as int + 1).drop_last() =~= s@.take(i as int));
            lemma_split_nonempty(s@.take(i as int), sep);
        }
        if c == sep {
            let done = cur;
            parts.push(done);
            cur = Vec::new();
            proof {
                assert(seqs_of(parts@) =~= split_on(s@.take(i as int), sep));
                assert(seqs_of(parts@).push(cur@) =~= split_on(s@.take(i as int + 1), sep));
            }
        } else {
            let ghost before = seqs_of(parts@).push(cur@);
            cur.push(c);
            proof {
                assert(seqs_of(parts@).push(cur@) =~= before.update(
                    before.len() - 1,
                    before.last().push(c),
                ));
            }
        }
        i += 1;
    }
    let ghost before = seqs_of(parts@).push(cur@);
    parts.push(cur);
    proof {
        assert(s@.take(s.len() as int) =~= s@);
        assert(seqs_of(parts@) =~= before);
    }
    parts
}

/// The pieces `ps` joined with the single character `sep`.
pub fn join_chars(ps: &Vec<Vec<char>>, sep: char) -> (r: Vec<char>)
    ensures
        r@ == join_with(seqs_of(ps@), seq![sep]),
{
    let mut out: Vec<char> = Vec::new();
    let mut i: usize = 0;
    while i < ps.len()
        invariant
            i <= ps.len(),
            out@ == join_with(seqs_of(ps@).take(i as int), seq![sep]),
        decreases ps.len() - i,
    {
        let ghost prev = out@;
        proof {
            assert(seqs_of(ps@).take(i as int + 1).drop_last() =~= seqs_of(ps@).take(i as int));
        }
        if i > 0 {
            out.push(sep);
        }
        let piece = &ps[i];
        let mut k: usize = 0;
        let ghost mid = out@;
        while k < piece.len()
            invariant
                k <= piece.len(),
                out@ == mid + piece@.take(k as int),
            decreases piece.len() - k,
        {
            out.push(piece[k]);
            proof {
                assert(piece@.take(k as int + 1) =~= piece@.take(k as int).push(piece@[k as int]));
            }
            k += 1;
        }
        proof {
            assert(piece@.take(piece.len() as int) =~= piece@);
            if i == 0 {
                assert(out@ =~= join_with(seqs_of(ps@).take(1), seq![sep]));
            } else {
                assert(out@ =~= prev + seq![sep] + piece@);
            }
        }
        i += 1;
    }
    proof {
        assert(seqs_of(ps@).take(ps.len() as int) =~= seqs_of(ps@));
    }
    out
}

/// Whether `s` is, once lowercased, the lowercase ASCII word `w`.
pub fn chars_eq_lower_word(s: &Vec<char>, w: &Vec<char>) -> (b: bool)
    ensures
        b == eq_lower_word(s@, w@),
{
    if s.len() != w.len() {
        return false;
    }
    let mut i: usize = 0;
    while i < s.len()
        invariant
            i <= s.len(),
            s.len() == w.len(),
            forall|j: int| 0 <= j < i ==> #[trigger] folds_to(s@[j], w@[j]),
        decreases s.len() - i,
    {
        let c = s[i];
        let l = w[i];
        let ok = c == l || ('a' <= l && l <= 'z' && (c as u32) == (l as u32) - 32) || (l == 'k'
            && c == '\u{212A}');
        if !ok {
            proof {
                assert(!folds_to(s@[i as int], w@[i as int]));
            }
            return false;
        }
        i += 1;
    }
    true
}

/// Whether `s`, lowercased, contains the lowercase ASCII word `w`.
pub fn chars_contains_lower_word(s: &Vec<char>, w: &Vec<char>) -> (b: bool)
    ensures
        b == contains_lower_word(s@, w@),
{
    if w.len() > s.len() {
        proof {
            assert forall|i: int| !has_lower_word_at(s@, w@, i) by {}
        }
        return false;
    }
    let last = s.len() - w.len();
    let mut i: usize = 0;
    while i <= last
        invariant
            last == s.len() - w.len(),
            w.len() <= s.len(),
            i <= last + 1,
            forall|j: int| 0 <= j < i ==> !#[trigger] has_lower_word_at(s@, w@, j),
        decreases last + 1 - i,
    {
        let piece = sub_chars(s, i, i + w.len());
        if chars_eq_lower_word(&piece, w) {
            proof {
                assert(has_lower_word_at(s@, w@, i as int));
            }
            return true;
        }
        i += 1;
    }
    proof {
        assert forall|j: int| !has_lower_word_at(s@, w@, j) by {
            if 0 <= j && j + w@.len() <= s@.len() {
                assert(j < i);
            }
        }
    }
    false
}

/// Whether `a` and `b` hold the same characters.
pub fn chars_equal(a: &Vec<char>, b: &Vec<char>) -> (r: bool)
    ensures
        r == (a@ == b@),
{
    if a.len() != b.len() {
        return false;
    }
    let mut i: usize = 0;
    while i < a.len()
        invariant
            i <= a.len(),
            a.len() == b.len(),
            forall|j: int| 0 <= j < i ==> a@[j] == b@[j],
        decreases a.len() - i,
    {
        if a[i] != b[i] {
            return false;
        }
        i += 1;
    }
    proof {
        assert(a@ =~= b@);
    }
    true
}

/// An owned copy of `s`.
pub fn str_to_string(s: &str) -> (r: String)
    ensures
        r@ == s@,
{
    let chars = str_chars(s);
    chars_to_string(&chars)
}

/// Whether `a` and `b` are equal up to ASCII case.
pub fn chars_eq_ignore_ascii_case(a: &Vec<char>, b: &Vec<char>) -> (r: bool)
    ensures
        r == eq_ignore_ascii_case_seq(a@, b@),
{
    if a.len() != b.len() {
        return false;
    }
    let mut i: usize = 0;
    while i < a.len()
        invariant
            i <= a.len(),
            a.len() == b.len(),
            forall|j: int| 0 <= j < i ==> #[trigger] ascii_fold(a@[j]) == ascii_fold(b@[j]),
        decreases a.len() - i,
    {
        let x = a[i];
        let y = b[i];
        let fx: u32 = if 'A' <= x && x <= 'Z' { (x as u32) + 32 } else { x as u32 };
        let fy: u32 = if 'A' <= y && y <= 'Z' { (y as u32) + 32 } else { y as u32 };
        if fx != fy {
            proof {
                assert(ascii_fold(a@[i as int]) != ascii_fold(b@[i as int]));
            }
            return false;
        }
        i += 1;
    }
    true
}

/// The strings of `v` joined with `sep` between consecutive ones (`[String]::join`).
pub fn join_strings(v: &Vec<String>, sep: &str) -> (r: String)
    ensures
        r@ == join_with(strings_of(v@), sep@),
{
    let sep_chars = str_chars(sep);
    let mut out = String::new();
    let mut i: usize = 0;
    while i < v.len()
        invariant
            i <= v.len(),
            sep_chars@ == sep@,
            out@ == join_with(strings_of(v@).take(i as int), sep@),
        decreases v.len() - i,
    {
        let ghost prev = out@;
        proof {
            assert(strings_of(v@).take(i as int + 1).drop_last() =~= strings_of(v@).take(i as int));
            assert(strings_of(v@).take(i as int + 1).last() == v@[i as int]@);
        }
        if i > 0 {
            append_chars(&mut out, &sep_chars);
        }
        let piece = str_chars(v[i].as_str());
        append_chars(&mut out, &piece);
        proof {
            if i == 0 {
                assert(out@ =~= join_with(strings_of(v@).take(1), sep@));
            } else {
                assert(out@ =~= prev + sep@ + v@[i as int]@);
            }
        }
        i += 1;
    }
    proof {
        assert(strings_of(v@).take(v.len() as int) =~= strings_of(v@));
    }
    out
}

/// The decimal digit characters, by value.
pub open spec fn digit_chars() -> Seq<char> {
    seq!['0', '1', '2', '3', '4', '5', '6', '7', '8', '9']
}

/// The decimal spelling of `n`, without sign or leading zeros.
pub open spec fn decimal(n: nat) -> Seq<char>
    decreases n,
{
    if n < 10 {
        seq![digit_chars()[n as int]]
    } else {
        decimal(n / 10).push(digit_chars()[(n % 10) as int])
    }
}

/// The decimal spelling of the signed `n` (`{}` formatting of an integer).
pub open spec fn signed_decimal(n: int) -> Seq<char> {
    if n < 0 {
        seq!['-'] + decimal((-n) as nat)
    } else {
        decimal(n as nat)
    }
}

fn digit_char(d: u64) -> (c: char)
    requires
        d < 10,
    ensures
        c == digit_chars()[d as int],
{
    match d {
        0 => '0',
        1 => '1',
        2 => '2',
        3 => '3',
        4 => '4',
        5 => '5',
        6 => '6',
        7 => '7',
        8 => '8',
        _ => '9',
    }
}

/// The decimal digits of `n`.
pub fn decimal_chars(n: u64) -> (r: Vec<char>)
    ensures
        r@ == decimal(n as nat),
    decreases n,
{
    if n < 10 {
        let v = vec![digit_char(n)];
        proof {
            assert(v@ =~= seq![digit_chars()[n as int]]);
        }
        v
    } else {
        let mut v = decimal_chars(n / 10);
        v.push(digit_char(n % 10));
        v
    }
}

/// The decimal spelling of the signed `n`.
pub fn signed_decimal_chars(n: i64) -> (r: Vec<char>)
    ensures
        r@ == signed_decimal(n as int),
{
    if n < 0 {
        let magnitude: u64 = (0i128 - n as i128) as u64;
        let digits = decimal_chars(magnitude);
        let mut v = vec!['-'];
        let mut i: usize = 0;
        while i < digits.len()
            invariant
                i <= digits.len(),
                v@ == seq!['-'] + digits@.take(i as int),
            decreases digits.len() - i,
        {
            v.push(digits[i]);
            proof {
                assert(digits@.take(i as int + 1) =~= digits@.take(i as int).push(digits@[i as int]));
            }
            i += 1;
        }
        proof {
            assert(digits@.take(digits.len() as int) =~= digits@);
        }
        v
    } else {
        decimal_chars(n as u64)
    }
}

/// Why text is not an unsigned integer (`core::num::IntErrorKind`).
#[derive(Debug, Clone, Copy, PartialEq, Eq, Structural)]
pub enum IntErrorKind {
    /// The text is empty.
    Empty,
    /// The text holds a character that is not a digit.
    InvalidDigit,
    /// The value does not fit the target type.
    PosOverflow,
}

pub open spec fn is_digit(c: char) -> bool {
    '0' <= c && c <= '9'
}

pub open spec fn digit_value(c: char) -> nat {
    (c as u32 - '0' as u32) as nat
}

/// Reads the digits of `d` after the value `acc` read so far, left to right:
/// the first character that is not a digit, or the first digit that takes the
/// value above `max`, ends the reading with an error.
pub open spec fn scan_digits(d: Seq<char>, acc: nat, max: nat) -> Result<nat, IntErrorKind>
    decreases d.len(),
{
    if d.len() == 0 {
        Ok(acc)
    } else if !is_digit(d[0]) {
        Err(IntErrorKind::InvalidDigit)
    } else if acc * 10 + digit_value(d[0]) > max {
        Err(IntErrorKind::PosOverflow)
    } else {
        scan_digits(d.drop_first(), acc * 10 + digit_value(d[0]), max)
    }
}

/// What `str::parse` gives for an unsigned integer type whose largest value is `max`:
/// an optional leading '+', then at least one decimal digit.
pub open spec fn parse_unsigned_spec(s: Seq<char>, max: nat) -> Result<nat, IntErrorKind> {
    if s.len() == 0 {
        Err(IntErrorKind::Empty)
    } else {
        let d = if s[0] == '+' {
            s.drop_first()
        } else {
            s
        };
        if d.len() == 0 {
            Err(IntErrorKind::InvalidDigit)
        } else {
            scan_digits(d, 0, max)
        }
    }
}

/// The message `ParseIntError` displays for an error kind.
pub open spec fn int_error_message(k: IntErrorKind) -> Seq<char> {
    match k {
        IntErrorKind::Empty => "cannot parse integer from empty string"@,
        IntErrorKind::InvalidDigit => "invalid digit found in string"@,
        IntErrorKind::PosOverflow => "number too large to fit in target type"@,
    }
}

impl IntErrorKind {
    /// The message displayed for this error.
    pub fn message(&self) -> (s: &'static str)
        ensures
            s@ == int_error_message(*self),
    {
        match self {
            IntErrorKind::Empty => "cannot parse integer from empty string",
            IntErrorKind::InvalidDigit => "invalid digit found in string",
            IntErrorKind::PosOverflow => "number too large to fit in target type",
        }
    }
}

/// Parses `s` as an unsigned integer no larger than `max`.
pub fn parse_unsigned(s: &Vec<char>, max: u64) -> (r: Result<u64, IntErrorKind>)
    ensures
        match r {
            Ok(v) => parse_unsigned_spec(s@, max as nat) == Ok::<nat, IntErrorKind>(v as nat) && v <= max,
            Err(k) => parse_unsigned_spec(s@, max as nat) == Err::<nat, IntErrorKind>(k),
        },
{
    if s.len() == 0 {
        return Err(IntErrorKind::Empty);
    }
    let start: usize = if s[0] == '+' { 1 } else { 0 };
    if start == s.len() {
        proof {
            assert(s@.drop_first().len() == 0);
        }
        return Err(IntErrorKind::InvalidDigit);
    }
    let ghost d = if s@[0] == '+' { s@.drop_first() } else { s@ };
    proof {
        assert(d =~= s@.skip(start as int));
        assert(parse_unsigned_spec(s@, max as nat) == scan_digits(d, 0, max as nat));
    }
    let mut acc: u64 = 0;
    let mut i: usize = start;
    while i < s.len()
        invariant
            start <= i <= s.len(),
            acc <= max,
            d == s@.skip(start as int),
            d.len() > 0,
            parse_unsigned_spec(s@, max as nat) == scan_digits(d, 0, max as nat),
            scan_digits(d, 0, max as nat) == scan_digits(s@.skip(i as int), acc as nat, max as nat),
        decreases s.len() - i,
    {
        let c = s[i];
        proof {
            assert(s@.skip(i as int)[0] == c);
            assert(s@.skip(i as int).drop_first() =~= s@.skip(i as int + 1));
        }
        if !('0' <= c && c <= '9') {
            return Err(IntErrorKind::InvalidDigit);
        }
        let dv: u64 = (c as u32 - '0' as u32) as u64;
        let next: u128 = acc as u128 * 10 + dv as u128;
        if next > max as u128 {
            return Err(IntErrorKind::PosOverflow);
        }
        acc = next as u64;
        i += 1;
    }
    proof {
        assert(s@.skip(s.len() as int).len() == 0);
    }
    Ok(acc)
}

/// Law: reading a number back from its decimal spelling gives the number
/// when it is at most `max`, and the overflow error when it is larger.
pub proof fn law_parse_reads_decimal(n: nat, max: nat)
    ensures
        n <= max ==> parse_unsigned_spec(decimal(n), max) == Ok::<nat, IntErrorKind>(n),
        n > max ==> parse_unsigned_spec(decimal(n), max) == Err::<nat, IntErrorKind>(IntErrorKind::PosOverflow),
{
    lemma_decimal_digits(n);
    lemma_scan_decimal(n, max);
    let s = decimal(n);
    assert(is_digit(s[0]));
}

proof fn lemma_digit_char(k: nat)
    requires
        k < 10,
    ensures
        is_digit(digit_chars()[k as int]),
        digit_value(digit_chars()[k as int]) == k,
{
    if k == 0 {} else if k == 1 {} else if k == 2 {} else if k == 3 {} else if k == 4 {}
    else if k == 5 {} else if k == 6 {} else if k == 7 {} else if k == 8 {} else {}
}

proof fn lemma_decimal_digits(n: nat)
    ensures
        decimal(n).len() >= 1,
        forall|i: int| 0 <= i < decimal(n).len() ==> is_digit(#[trigger] decimal(n)[i]),
    decreases n,
{
    if n < 10 {
        lemma_digit_char(n);
    } else {
        lemma_decimal_digits(n / 10);
        lemma_digit_char(n % 10);
    }
}

proof fn lemma_scan_append(a: Seq<char>, b: Seq<char>, acc: nat, max: nat)
    ensures
        scan_digits(a + b, acc, max) == (match scan_digits(a, acc, max) {
            Ok(x) => scan_digits(b, x, max),
            Err(e) => Err(e),
        }),
    decreases a.len(),
{
    if a.len() > 0 {
        assert((a + b).drop_first() =~= a.drop_first() + b);
        assert((a + b)[0] == a[0]);
        lemma_scan_append(a.drop_first(), b, acc * 10 + digit_value(a[0]), max);
    } else {
        assert(a + b =~= b);
    }
}

proof fn lemma_scan_decimal(n: nat, max: nat)
    ensures
        n <= max ==> scan_digits(decimal(n), 0, max) == Ok::<nat, IntErrorKind>(n),
        n > max ==> scan_digits(decimal(n), 0, max) == Err::<nat, IntErrorKind>(IntErrorKind::PosOverflow),
    decreases n,
{
    if n < 10 {
        lemma_digit_char(n);
        let s = decimal(n);
        assert(s.drop_first() =~= Seq::<char>::empty());
        reveal_with_fuel(scan_digits, 2);
        assert(0 * 10 + digit_value(s[0]) == n);
    } else {
        lemma_scan_decimal(n / 10, max);
        lemma_digit_char(n % 10);
        let d = digit_chars()[(n % 10) as int];
        assert(decimal(n) =~= decimal(n / 10) + seq![d]);
        lemma_scan_append(decimal(n / 10), seq![d], 0, max);
        assert(seq![d].drop_first() =~= Seq::<char>::empty());
        assert(seq![d][0] == d);
        assert((n / 10) * 10 + n % 10 == n) by (nonlinear_arith);
        assert(n / 10 <= n) by (nonlinear_arith);
        reveal_with_fuel(scan_digits, 2);
        if n <= max {
            assert(scan_digits(decimal(n / 10), 0, max) == Ok::<nat, IntErrorKind>(n / 10));
            assert(scan_digits(seq![d], n / 10, max) == Ok::<nat, IntErrorKind>(n));
        }
    }
}

} // verus!
