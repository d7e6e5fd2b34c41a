//! Character sequences as the shell and the viewers handle text: literals,
//! comparison, whitespace, trimming, and splitting into words and lines.
use vstd::prelude::*;
use vstd::std_specs::iter::IteratorSpec;

verus! {

/// The views of a list of character vectors.
pub open spec fn seqs_of(v: Seq<Vec<char>>) -> Seq<Seq<char>> {
    v.map_values(|l: Vec<char>| l@)
}

/// Unicode `White_Space`, the characters `char::is_whitespace` accepts.
pub open spec fn is_space(c: char) -> bool {
    ||| ('\t' <= c && c <= '\r')
    ||| c == ' '
    ||| c == '\u{85}'
    ||| c == '\u{a0}'
    ||| c == '\u{1680}'
    ||| ('\u{2000}' <= c && c <= '\u{200a}')
    ||| c == '\u{2028}'
    ||| c == '\u{2029}'
    ||| c == '\u{202f}'
    ||| c == '\u{205f}'
    ||| c == '\u{3000}'
}

/// `s` without its leading whitespace.
pub open spec fn trim_start(s: Seq<char>) -> Seq<char>
    decreases s.len(),
{
    if s.len() > 0 && is_space(s[0]) {
        trim_start(s.drop_first())
    } else {
        s
    }
}

/// `s` without its trailing whitespace.
pub open spec fn trim_end(s: Seq<char>) -> Seq<char>
    decreases s.len(),
{
    if s.len() > 0 && is_space(s.last()) {
        trim_end(s.drop_last())
    } else {
        s
    }
}

/// `s` without leading and trailing whitespace (`str::trim`).
pub open spec fn trim(s: Seq<char>) -> Seq<char> {
    trim_end(trim_start(s))
}

/// Scanning `s` left to right: the words completed so far and the word
/// being read.
pub open spec fn word_scan(s: Seq<char>) -> (Seq<Seq<char>>, Seq<char>)
    decreases s.len(),
{
    if s.len() == 0 {
        (Seq::empty(), Seq::empty())
    } else {
        let (done, cur) = word_scan(s.drop_last());
        if is_space(s.last()) {
            if cur.len() > 0 { (done.push(cur), Seq::empty()) } else { (done, Seq::empty()) }
        } else {
            (done, cur.push(s.last()))
        }
    }
}

/// The maximal runs of non-whitespace characters of `s`, in order
/// (`str::split_whitespace`).
pub open spec fn words(s: Seq<char>) -> Seq<Seq<char>> {
    let (done, cur) = word_scan(s);
    if cur.len() > 0 { done.push(cur) } else { done }
}

/// The words `ws` separated by single spaces (`join(" ")`).
pub open spec fn join_spaced(ws: Seq<Seq<char>>) -> Seq<char>
    decreases ws.len(),
{
    if ws.len() == 0 {
        Seq::empty()
    } else if ws.len() == 1 {
        ws[0]
    } else {
        join_spaced(ws.drop_last()) + seq![' '] + ws.last()
    }
}

/// A line's text without the `\r` of a `\r\n` ending.
pub open spec fn strip_cr(l: Seq<char>) -> Seq<char> {
    if l.len() > 0 && l.last() == '\r' { l.drop_last() } else { l }
}

/// Scanning `s` left to right: the lines ended by `\n` so far and the
/// text after the last `\n`.
pub open spec fn line_scan(s: Seq<char>) -> (Seq<Seq<char>>, Seq<char>)
    decreases s.len(),
{
    if s.len() == 0 {
        (Seq::empty(), Seq::empty())
    } else {
        let (done, cur) = line_scan(s.drop_last());
        if s.last() == '\n' { (done.push(strip_cr(cur)), Seq::empty()) } else { (done, cur.push(s.last())) }
    }
}

/// The lines of `s` (`str::lines`): split at `\n`, a `\r` before the `\n`
/// dropped, and no empty line after a final `\n`.
pub open spec fn text_lines(s: Seq<char>) -> Seq<Seq<char>> {
    let (done, cur) = line_scan(s);
    if cur.len() > 0 { done.push(cur) } else { done }
}

/// `c` with ASCII capitals made small (`to_ascii_lowercase`).
pub open spec fn ascii_lower(c: char) -> char {
    if 'A' <= c && c <= 'Z' { ((c as u32) + 32) as char } else { c }
}

/// `s` with ASCII capitals made small.
pub open spec fn lower(s: Seq<char>) -> Seq<char> {
    s.map_values(|c: char| ascii_lower(c))
}

/// Whether `t` occurs in `s` as a contiguous run.
pub open spec fn contains_run(s: Seq<char>, t: Seq<char>) -> bool {
    exists|i: int| 0 <= i && i + t.len() <= s.len() && #[trigger] s.subrange(i, i + t.len()) == t
}

/// `s` preceded by zeros up to `width` characters.
pub open spec fn zero_pad(s: Seq<char>, width: nat) -> Seq<char> {
    if s.len() >= width { s } else { Seq::new((width - s.len()) as nat, |i: int| '0') + s }
}

/// `s` preceded by spaces up to `width` characters.
pub open spec fn space_pad(s: Seq<char>, width: nat) -> Seq<char> {
    if s.len() >= width { s } else { Seq::new((width - s.len()) as nat, |i: int| ' ') + s }
}

/// Whether `c` is whitespace.
pub fn is_space_char(c: char) -> (b: bool)
    ensures
        b == is_space(c),
{
    ('\t' <= c && c <= '\r') || c == ' ' || c == '\u{85}' || c == '\u{a0}' || c == '\u{1680}'
        || ('\u{2000}' <= c && c <= '\u{200a}') || c == '\u{2028}' || c == '\u{2029}'
        || c == '\u{202f}' || c == '\u{205f}' || c == '\u{3000}'
}

/// The characters of `t`.
pub fn chars_of(t: &str) -> (v: Vec<char>)
    ensures
        v@ == t@,
{
    let mut v: Vec<char> = Vec::new();
    let mut it = t.chars();
    let ghost mut k: int = 0;
    loop
        invariant_except_break
            it.remaining() == t@.skip(k),
        invariant
            0 <= k <= t@.len(),
            v@ == t@.take(k),
        ensures
            v@ == t@,
        decreases t@.len() - k,
    {
        match it.next() {
            Some(c) => {
                proof {
                    assert(t@.skip(k).len() > 0);
                    assert(t@.skip(k)[0] == c);
                    assert(t@.skip(k).drop_first() =~= t@.skip(k + 1));
                    assert(t@.take(k).push(c) =~= t@.take(k + 1));
                    k = k + 1;
                }
                v.push(c);
            },
            None => {
                proof {
                    assert(t@.skip(k).len() == 0);
                    assert(t@.take(k) =~= t@);
                }
                break;
            },
        }
    }
    v
}

/// Appends the characters of `w` to `v`.
pub fn append_chars(v: &mut Vec<char>, w: &[char])
    ensures
        final(v)@ == old(v)@ + w@,
{
    let mut i: usize = 0;
    while i < w.len()
        invariant
            i <= w@.len(),
            v@ == old(v)@ + w@.take(i as int),
        decreases w@.len() - i,
    {
        v.push(w[i]);
        assert(old(v)@ + w@.take(i + 1) =~= (old(v)@ + w@.take(i as int)).push(w@[i as int]));
        i = i + 1;
    }
    assert(w@.take(w@.len() as int) =~= w@);
}

/// Appends the characters of `t` to `v`.
pub fn append_str(v: &mut Vec<char>, t: &str)
    ensures
        final(v)@ == old(v)@ + t@,
{
    let w = chars_of(t);
    append_chars(v, w.as_slice());
}

/// The characters of `a` followed by those of `b`.
pub fn concat(a: &[char], b: &[char]) -> (v: Vec<char>)
    ensures
        v@ == a@ + b@,
{
    let mut v: Vec<char> = Vec::new();
    append_chars(&mut v, a);
    append_chars(&mut v, b);
    assert(Seq::<char>::empty() + a@ + b@ =~= a@ + b@);
    v
}

/// Whether `a` reads exactly `t`.
pub fn eq_str(a: &[char], t: &str) -> (b: bool)
    ensures
        b == (a@ == t@),
{
    let w = chars_of(t);
    eq_chars(a, w.as_slice())
}

/// Whether `a` and `b` hold the same characters.
pub fn eq_chars(a: &[char], b: &[char]) -> (r: bool)
    ensures
        r == (a@ == b@),
{
    if a.len() != b.len() {
        return false;
    }
    let mut i: usize = 0;
    while i < a.len()
        invariant
            i <= a@.len(),
            a@.len() == b@.len(),
            forall|j: int| 0 <= j < i ==> a@[j] == b@[j],
        decreases a@.len() - i,
    {
        if a[i] != b[i] {
            return false;
        }
        i = i + 1;
    }
    assert(a@ =~= b@);
    true
}

/// The characters of `t` from index `from` on.
pub fn chars_from(t: &[char], from: usize) -> (r: Vec<char>)
    requires
        from <= t@.len(),
    ensures
        r@ == t@.skip(from as int),
{
    let mut r: Vec<char> = Vec::new();
    let mut i = from;
    while i < t.len()
        invariant
            from <= i <= t@.len(),
            r@ == t@.subrange(from as int, i as int),
        decreases t@.len() - i,
    {
        r.push(t[i]);
        i = i + 1;
        assert(r@ =~= t@.subrange(from as int, i as int));
    }
    assert(t@.subrange(from as int, t@.len() as int) =~= t@.skip(from as int));
    r
}

/// Whether `t` is a prefix of `s`.
pub fn starts_with_chars(s: &[char], t: &[char]) -> (r: bool)
    ensures
        r == (t@.len() <= s@.len() && s@.take(t@.len() as int) == t@),
{
    if t.len() > s.len() {
        return false;
    }
    let mut i: usize = 0;
    while i < t.len()
        invariant
            i <= t@.len() <= s@.len(),
            forall|j: int| 0 <= j < i ==> s@[j] == t@[j],
        decreases t@.len() - i,
    {
        if s[i] != t[i] {
            assert(s@.take(t@.len() as int)[i as int] != t@[i as int]);
            return false;
        }
        i = i + 1;
    }
    assert(s@.take(t@.len() as int) =~= t@);
    true
}

/// Whether `t` occurs in `s` as a contiguous run.
pub fn contains_chars(s: &[char], t: &[char]) -> (r: bool)
    ensures
        r == contains_run(s@, t@),
{
    if t.len() > s.len() {
        return false;
    }
    if t.len() == 0 {
        assert(s@.subrange(0int, 0int + t@.len()) =~= t@);
        return true;
    }
    let mut i: usize = 0;
    let last = s.len() - t.len();
    while i <= last
        invariant
            last == s@.len() - t@.len(),
            t@.len() <= s@.len(),
            i <= s@.len() - t@.len() + 1,
            forall|k: int| 0 <= k < i ==> #[trigger] s@.subrange(k, k + t@.len()) != t@,
        decreases s@.len() - i,
    {
        let mut j: usize = 0;
        let mut same = true;
        while j < t.len()
            invariant
                j <= t@.len(),
                i <= last,
                last == s@.len() - t@.len(),
                s@.len() == s.len(),
                same == (forall|m: int| 0 <= m < j ==> s@[i + m] == t@[m]),
            decreases t@.len() - j,
        {
            if s[i + j] != t[j] {
                same = false;
            }
            j = j + 1;
        }
        if same {
            assert(s@.subrange(i as int, i + t@.len()) =~= t@);
            return true;
        }
        assert(s@.subrange(i as int, i + t@.len()) != t@) by {
            let m = choose|m: int| 0 <= m < t@.len() && s@[i + m] != t@[m];
            assert(s@.subrange(i as int, i + t@.len())[m] == s@[i + m]);
        }
        i = i + 1;
    }
    assert(!contains_run(s@, t@)) by {
        if contains_run(s@, t@) {
            let k = choose|k: int| 0 <= k && k + t@.len() <= s@.len() && #[trigger] s@.subrange(k, k + t@.len()) == t@;
            assert(s@.subrange(k, k + t@.len()) != t@);
        }
    }
    false
}

/// `s` with ASCII capitals made small.
pub fn to_lower(s: &[char]) -> (v: Vec<char>)
    ensures
        v@ == lower(s@),
{
    let mut v: Vec<char> = Vec::new();
    let mut i: usize = 0;
    while i < s.len()
        invariant
            i <= s@.len(),
            v@ == lower(s@.take(i as int)),
        decreases s@.len() - i,
    {
        let c = s[i];
        let d = if 'A' <= c && c <= 'Z' { ((c as u8) + 32) as char } else { c };
        proof {
            if 'A' <= c && c <= 'Z' {
                assert((((c as u8) + 32) as char) == ascii_lower(c));
            }
        }
        v.push(d);
        assert(lower(s@.take(i + 1)) =~= lower(s@.take(i as int)).push(ascii_lower(s@[i as int])));
        i = i + 1;
    }
    assert(s@.take(s@.len() as int) =~= s@);
    v
}

/// `str::trim` on `s`.
pub fn trim_chars(s: &[char]) -> (v: Vec<char>)
    ensures
        v@ == trim(s@),
{
    let n = s.len();
    let mut i: usize = 0;
    assert(s@.skip(0) =~= s@);
    while i < n && is_space_char(s[i])
        invariant
            i <= n == s@.len(),
            trim_start(s@.skip(i as int)) == trim_start(s@),
        decreases n - i,
    {
        assert(s@.skip(i as int).drop_first() =~= s@.skip(i + 1));
        i = i + 1;
    }
    assert(trim_start(s@) == s@.skip(i as int)) by {
        if i == n {
            assert(s@.skip(i as int) =~= Seq::<char>::empty());
        }
    }
    let mut j: usize = n;
    while j > i && is_space_char(s[j - 1])
        invariant
            i <= j <= n == s@.len(),
            trim_end(s@.subrange(i as int, j as int)) == trim_end(s@.skip(i as int)),
        decreases j,
    {
        assert(s@.subrange(i as int, j as int).drop_last() =~= s@.subrange(i as int, j - 1));
        j = j - 1;
    }
    assert(s@.subrange(i as int, n as int) =~= s@.skip(i as int));
    let mut v: Vec<char> = Vec::new();
    let mut k: usize = i;
    while k < j
        invariant
            i <= k <= j <= n == s@.len(),
            v@ == s@.subrange(i as int, k as int),
        decreases j - k,
    {
        v.push(s[k]);
        assert(s@.subrange(i as int, k + 1) =~= s@.subrange(i as int, k as int).push(s@[k as int]));
        k = k + 1;
    }
    v
}

/// `str::split_whitespace` on `s`.
pub fn split_words(s: &[char]) -> (ws: Vec<Vec<char>>)
    ensures
        seqs_of(ws@) == words(s@),
{
    let mut done: Vec<Vec<char>> = Vec::new();
    let mut cur: Vec<char> = Vec::new();
    let mut i: usize = 0;
    while i < s.len()
        invariant
            i <= s@.len(),
            (seqs_of(done@), cur@) == word_scan(s@.take(i as int)),
        decreases s@.len() - i,
    {
        let c = s[i];
        assert(s@.take(i + 1).drop_last() =~= s@.take(i as int));
        if is_space_char(c) {
            if cur.len() > 0 {
                let w = cur;
                proof {
                    assert(seqs_of(done@.push(w)) =~= seqs_of(done@).push(w@));
                }
                done.push(w);
                cur = Vec::new();
            }
        } else {
            cur.push(c);
        }
        i = i + 1;
    }
    assert(s@.take(s@.len() as int) =~= s@);
    if cur.len() > 0 {
        let w = cur;
        proof {
            assert(seqs_of(done@.push(w)) =~= seqs_of(done@).push(w@));
        }
        done.push(w);
    }
    done
}

/// The words `ws` separated by single spaces.
pub fn join_words(ws: &[Vec<char>]) -> (v: Vec<char>)
    ensures
        v@ == join_spaced(seqs_of(ws@)),
{
    let mut v: Vec<char> = Vec::new();
    let mut i: usize = 0;
    while i < ws.len()
        invariant
            i <= ws@.len(),
            v@ == join_spaced(seqs_of(ws@).take(i as int)),
        decreases ws@.len() - i,
    {
        let ghost prev = seqs_of(ws@).take(i as int);
        assert(seqs_of(ws@).take(i + 1).drop_last() =~= prev);
        if i > 0 {
            v.push(' ');
        } else {
            assert(v@ =~= Seq::<char>::empty());
        }
        append_chars(&mut v, ws[i].as_slice());
        proof {
            assert(seqs_of(ws@).take(i + 1).last() == ws@[i as int]@);
            if i == 0 {
                assert(v@ =~= seqs_of(ws@).take(1)[0]);
            }
        }
        i = i + 1;
    }
    assert(seqs_of(ws@).take(ws@.len() as int) =~= seqs_of(ws@));
    v
}

/// `str::lines` on `s`.
pub fn split_lines(s: &[char]) -> (ls: Vec<Vec<char>>)
    ensures
        seqs_of(ls@) == text_lines(s@),
{
    let mut done: Vec<Vec<char>> = Vec::new();
    let mut cur: Vec<char> = Vec::new();
    let mut i: usize = 0;
    while i < s.len()
        invariant
            i <= s@.len(),
            (seqs_of(done@), cur@) == line_scan(s@.take(i as int)),
        decreases s@.len() - i,
    {
        let c = s[i];
        assert(s@.take(i + 1).drop_last() =~= s@.take(i as int));
        if c == '\n' {
            let mut w = cur;
            let n = w.len();
            if n > 0 && w[n - 1] == '\r' {
                w.pop();
            }
            proof {
                assert(seqs_of(done@.push(w)) =~= seqs_of(done@).push(w@));
            }
            done.push(w);
            cur = Vec::new();
        } else {
            cur.push(c);
        }
        i = i + 1;
    }
    assert(s@.take(s@.len() as int) =~= s@);
    if cur.len() > 0 {
        let w = cur;
        proof {
            assert(seqs_of(done@.push(w)) =~= seqs_of(done@).push(w@));
        }
        done.push(w);
    }
    done
}

/// `n` in decimal, preceded by zeros up to `width` digits (`{:0w}`).
pub fn format_padded(n: u64, width: usize) -> (v: Vec<char>)
    ensures
        v@ == zero_pad(crate::text::decimal_digits(n as nat), width as nat),
{
    let d = crate::text::format_u64(n);
    if d.len() >= width {
        return d;
    }
    let mut v: Vec<char> = Vec::new();
    let k = width - d.len();
    let mut i: usize = 0;
    while i < k
        invariant
            i <= k,
            v@ == Seq::new(i as nat, |m: int| '0'),
        decreases k - i,
    {
        v.push('0');
        assert(v@ =~= Seq::new((i + 1) as nat, |m: int| '0'));
        i = i + 1;
    }
    append_chars(&mut v, d.as_slice());
    v
}


/// The decimal digits of `n`, right-aligned in `width` cells.
pub fn format_spaced(n: u64, width: usize) -> (v: Vec<char>)
    ensures
        v@ == space_pad(crate::text::decimal_digits(n as nat), width as nat),
{
    let d = crate::text::format_u64(n);
    if d.len() >= width {
        return d;
    }
    let mut v: Vec<char> = Vec::new();
    let k = width - d.len();
    let mut i: usize = 0;
    while i < k
        invariant
            i <= k,
            v@ == Seq::new(i as nat, |m: int| ' '),
        decreases k - i,
    {
        v.push(' ');
        assert(v@ =~= Seq::new((i + 1) as nat, |m: int| ' '));
        i = i + 1;
    }
    append_chars(&mut v, d.as_slice());
    v
}

} // verus!
