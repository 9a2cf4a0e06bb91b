//! Character-level helpers shared by the parsers and renderers.
//!
//! Every parser in this crate works on the characters of its input, so the
//! helpers here come in pairs: a spec function saying what a split, trim or
//! formatting step means over `Seq<char>`, and an executable function proved
//! to compute it.
use vstd::prelude::*;

verus! {

/// Appends one character to a string.
///
/// Wraps `String::push`, whose documentation says it appends the given
/// character to the end of the string; the contract states exactly that.
#[verifier::external_body]
pub fn push_char(s: &mut String, c: char)
    ensures
        final(s)@ == old(s)@.push(c),
{
    s.push(c);
}

/// Appends a string slice.
pub fn push_str(s: &mut String, t: &str)
    ensures
        final(s)@ == old(s)@ + t@,
{
    s.append(t);
}

/// A new string holding exactly the characters of `t`.
pub fn owned(t: &str) -> (s: String)
    ensures
        s@ == t@,
{
    t.to_owned()
}

/// The characters of `s`, in order.
pub fn chars_of(s: &str) -> (v: Vec<char>)
    ensures
        v@ == s@,
{
    let mut v: Vec<char> = Vec::new();
    for c in it: s.chars()
        invariant
            v@ == it.seq().take(it.index() as int),
            it.seq() == s@,
    {
        v.push(c);
    }
    v
}

/// A string made of `v[lo..hi]`.
pub fn string_of(v: &Vec<char>, lo: usize, hi: usize) -> (s: String)
    requires
        lo <= hi <= v.len(),
    ensures
        s@ == v@.subrange(lo as int, hi as int),
{
    let mut s = String::new();
    let mut i: usize = lo;
    while i < hi
        invariant
            lo <= i <= hi <= v.len(),
            s@ == v@.subrange(lo as int, i as int),
        decreases hi - i,
    {
        push_char(&mut s, v[i]);
        assert(v@.subrange(lo as int, i + 1) =~= v@.subrange(lo as int, i as int).push(v@[i as int]));
        i += 1;
    }
    s
}

/// A string made of all of `v`.
pub fn string_of_all(v: &Vec<char>) -> (s: String)
    ensures
        s@ == v@,
{
    let s = string_of(v, 0, v.len());
    assert(v@.subrange(0, v@.len() as int) =~= v@);
    s
}

/// Unicode `White_Space`, the set `char::is_whitespace` tests for.
pub open spec fn is_ws(c: char) -> bool {
    ||| c == ' '
    ||| ('\t' <= c && c <= '\r')
    ||| c == '\u{85}'
    ||| c == '\u{A0}'
    ||| c == '\u{1680}'
    ||| ('\u{2000}' <= c && c <= '\u{200A}')
    ||| c == '\u{2028}'
    ||| c == '\u{2029}'
    ||| c == '\u{202F}'
    ||| c == '\u{205F}'
    ||| c == '\u{3000}'
}

pub fn is_whitespace(c: char) -> (b: bool)
    ensures
        b == is_ws(c),
{
    c == ' ' || ('\t' <= c && c <= '\r') || c == '\u{85}' || c == '\u{A0}' || c == '\u{1680}'
        || ('\u{2000}' <= c && c <= '\u{200A}') || c == '\u{2028}' || c == '\u{2029}'
        || c == '\u{202F}' || c == '\u{205F}' || c == '\u{3000}'
}

/// `s` without its leading whitespace.
pub open spec fn trim_start(s: Seq<char>) -> Seq<char>
    decreases s.len(),
{
    if s.len() > 0 && is_ws(s[0]) {
        trim_start(s.drop_first())
    } else {
        s
    }
}

/// `s` without its trailing whitespace.
pub open spec fn trim_end(s: Seq<char>) -> Seq<char>
    decreases s.len(),
{
    if s.len() > 0 && is_ws(s.last()) {
        trim_end(s.drop_last())
    } else {
        s
    }
}

/// What `str::trim` returns: both ends without whitespace.
pub open spec fn trim(s: Seq<char>) -> Seq<char> {
    trim_end(trim_start(s))
}

/// True when every character of `s` is whitespace, which is when `trim`
/// leaves nothing.
pub open spec fn all_ws(s: Seq<char>) -> bool {
    forall|i: int| 0 <= i < s.len() ==> is_ws(#[trigger] s[i])
}

/// Bounds of `trim(v[lo..hi])` inside `v`.
pub fn trim_bounds(v: &Vec<char>, lo: usize, hi: usize) -> (r: (usize, usize))
    requires
        lo <= hi <= v.len(),
    ensures
        lo <= r.0 <= r.1 <= hi,
        v@.subrange(r.0 as int, r.1 as int) == trim(v@.subrange(lo as int, hi as int)),
{
    let mut a: usize = lo;
    while a < hi && is_whitespace(v[a])
        invariant
            lo <= a <= hi <= v.len(),
            trim_start(v@.subrange(lo as int, hi as int)) == trim_start(v@.subrange(a as int, hi as int)),
        decreases hi - a,
    {
        assert(v@.subrange(a as int, hi as int).drop_first() =~= v@.subrange(a + 1, hi as int));
        a += 1;
    }
    let mut b: usize = hi;
    while b > a && is_whitespace(v[b - 1])
        invariant
            lo <= a <= b <= hi <= v.len(),
            trim_end(v@.subrange(a as int, hi as int)) == trim_end(v@.subrange(a as int, b as int)),
        decreases b - a,
    {
        assert(v@.subrange(a as int, b as int).drop_last() =~= v@.subrange(a as int, b - 1));
        b -= 1;
    }
    (a, b)
}

/// `trim(s)` as a new string.
pub fn trimmed(s: &str) -> (r: String)
    ensures
        r@ == trim(s@),
{
    let v = chars_of(s);
    let (a, b) = trim_bounds(&v, 0, v.len());
    assert(v@.subrange(0, v@.len() as int) =~= v@);
    string_of(&v, a, b)
}

/// Lemma: trimming leaves nothing exactly when every character is whitespace.
pub proof fn lemma_trim_empty(s: Seq<char>)
    ensures
        (trim(s).len() == 0) <==> all_ws(s),
        trim_start(s).len() == 0 <==> all_ws(s),
    decreases s.len(),
{
    lemma_trim_start_empty(s);
    lemma_trim_end_empty(trim_start(s));
    lemma_trim_start_all_ws(s);
}

proof fn lemma_trim_start_empty(s: Seq<char>)
    ensures
        trim_start(s).len() == 0 <==> all_ws(s),
    decreases s.len(),
{
    if s.len() > 0 && is_ws(s[0]) {
        lemma_trim_start_empty(s.drop_first());
        if all_ws(s.drop_first()) {
            assert forall|i: int| 0 <= i < s.len() implies is_ws(#[trigger] s[i]) by {
                if i > 0 {
                    assert(s[i] == s.drop_first()[i - 1]);
                }
            }
        }
        if all_ws(s) {
            assert forall|i: int| 0 <= i < s.drop_first().len() implies is_ws(
                #[trigger] s.drop_first()[i],
            ) by {
                assert(s.drop_first()[i] == s[i + 1]);
            }
        }
    } else if s.len() > 0 {
        assert(!is_ws(s[0]));
    }
}

proof fn lemma_trim_end_empty(s: Seq<char>)
    ensures
        trim_end(s).len() == 0 <==> all_ws(s),
    decreases s.len(),
{
    if s.len() > 0 && is_ws(s.last()) {
        lemma_trim_end_empty(s.drop_last());
        if all_ws(s.drop_last()) {
            assert forall|i: int| 0 <= i < s.len() implies is_ws(#[trigger] s[i]) by {
                if i < s.len() - 1 {
                    assert(s[i] == s.drop_last()[i]);
                }
            }
        }
        if all_ws(s) {
            assert forall|i: int| 0 <= i < s.drop_last().len() implies is_ws(
                #[trigger] s.drop_last()[i],
            ) by {
                assert(s.drop_last()[i] == s[i]);
            }
        }
    } else if s.len() > 0 {
        assert(!is_ws(s[s.len() - 1]));
    }
}

/// `all_ws` of a trimmed-start sequence matches that of the original.
pub proof fn lemma_trim_start_all_ws(s: Seq<char>)
    ensures
        all_ws(trim_start(s)) <==> all_ws(s),
{
    lemma_trim_start_empty(s);
    lemma_trim_start_empty(trim_start(s));
    lemma_trim_start_idem(s);
    if trim_start(s).len() > 0 {
        lemma_trim_start_head(s);
    }
}

proof fn lemma_trim_start_head(s: Seq<char>)
    requires
        trim_start(s).len() > 0,
    ensures
        !is_ws(trim_start(s)[0]),
    decreases s.len(),
{
    if s.len() > 0 && is_ws(s[0]) {
        lemma_trim_start_head(s.drop_first());
    }
}

proof fn lemma_trim_start_idem(s: Seq<char>)
    ensures
        trim_start(trim_start(s)) == trim_start(s),
    decreases s.len(),
{
    if s.len() > 0 && is_ws(s[0]) {
        lemma_trim_start_idem(s.drop_first());
    }
}

/// True when `v[lo..hi]` is empty after trimming.
pub fn is_blank(v: &Vec<char>, lo: usize, hi: usize) -> (b: bool)
    requires
        lo <= hi <= v.len(),
    ensures
        b == (trim(v@.subrange(lo as int, hi as int)).len() == 0),
{
    let (a, c) = trim_bounds(v, lo, hi);
    a == c
}

/// The pieces `str::split(sep)` yields, empty ones included.
pub open spec fn split_seq(s: Seq<char>, sep: char) -> Seq<Seq<char>>
    decreases s.len(),
{
    if s.len() == 0 {
        seq![Seq::<char>::empty()]
    } else {
        let prev = split_seq(s.drop_last(), sep);
        if s.last() == sep {
            prev.push(Seq::<char>::empty())
        } else {
            prev.update(prev.len() - 1, prev.last().push(s.last()))
        }
    }
}

pub proof fn lemma_split_nonempty(s: Seq<char>, sep: char)
    ensures
        split_seq(s, sep).len() >= 1,
    decreases s.len(),
{
    if s.len() > 0 {
        lemma_split_nonempty(s.drop_last(), sep);
    }
}

/// The views of a vector of character vectors.
pub open spec fn views(v: Seq<Vec<char>>) -> Seq<Seq<char>> {
    v.map_values(|x: Vec<char>| x@)
}

/// Splits `v[lo..hi]` on every `sep`, keeping empty pieces, as
/// `str::split` does.
pub fn split_on(v: &Vec<char>, lo: usize, hi: usize, sep: char) -> (parts: Vec<Vec<char>>)
    requires
        lo <= hi <= v.len(),
    ensures
        views(parts@) == split_seq(v@.subrange(lo as int, hi as int), sep),
{
    let mut done: Vec<Vec<char>> = Vec::new();
    let mut cur: Vec<char> = Vec::new();
    let mut i: usize = lo;
    assert(v@.subrange(lo as int, lo as int) =~= Seq::<char>::empty());
    assert(views(done@).push(cur@) =~= seq![Seq::<char>::empty()]);
    while i < hi
        invariant
            lo <= i <= hi <= v.len(),
            views(done@).push(cur@) == split_seq(v@.subrange(lo as int, i as int), sep),
        decreases hi - i,
    {
        let ghost before = v@.subrange(lo as int, i as int);
        let ghost after = v@.subrange(lo as int, i + 1);
        assert(after.drop_last() =~= before);
        assert(after.last() == v@[i as int]);
        proof {
            lemma_split_nonempty(before, sep);
        }
        if v[i] == sep {
            let finished = cur;
            done.push(finished);
            cur = Vec::new();
            assert(views(done@) =~= views(done@.drop_last()).push(finished@));
            assert(views(done@).push(cur@) =~= split_seq(after, sep));
        } else {
            let ghost old_done = views(done@);
            let ghost old_cur = cur@;
            cur.push(v[i]);
            assert(views(done@).push(cur@) =~= old_done.push(old_cur).update(
                old_done.len() as int,
                old_cur.push(v@[i as int]),
            ));
        }
        i += 1;
    }
    done.push(cur);
    assert(views(done@) =~= split_seq(v@.subrange(lo as int, hi as int), sep));
    done
}

/// The lines `str::lines` yields: pieces between `\n`, with the final piece
/// dropped when it is empty, and a `\r` right before a `\n` removed with it.
/// A final piece that no `\n` ends keeps a trailing `\r`.
pub open spec fn lines_seq(s: Seq<char>) -> Seq<Seq<char>> {
    let parts = split_seq(s, '\n');
    let n: int = if parts.last().len() == 0 { parts.len() - 1 } else { parts.len() as int };
    Seq::new(n as nat, |i: int| line_at(parts, i))
}

/// The `i`th line of the pieces between `\n`: a piece that a `\n` ends loses
/// a trailing `\r`; the last piece, which none ends, keeps it.
pub open spec fn line_at(parts: Seq<Seq<char>>, i: int) -> Seq<char> {
    if i + 1 < parts.len() {
        strip_cr(parts[i])
    } else {
        parts[i]
    }
}

pub open spec fn strip_cr(l: Seq<char>) -> Seq<char> {
    if l.len() > 0 && l.last() == '\r' {
        l.drop_last()
    } else {
        l
    }
}

/// The lines of `v`, as `str::lines` yields them.
pub fn lines_of(v: &Vec<char>) -> (lines: Vec<Vec<char>>)
    ensures
        views(lines@) == lines_seq(v@),
{
    let parts = split_on(v, 0, v.len(), '\n');
    assert(v@.subrange(0, v@.len() as int) =~= v@);
    proof {
        lemma_split_nonempty(v@, '\n');
    }
    let ghost split = split_seq(v@, '\n');
    let mut n: usize = parts.len();
    if parts[n - 1].len() == 0 {
        n = n - 1;
    }
    let mut out: Vec<Vec<char>> = Vec::new();
    let mut i: usize = 0;
    while i < n
        invariant
            0 <= i <= n <= parts@.len(),
            views(parts@) == split,
            split == split_seq(v@, '\n'),
            n == if split.last().len() == 0 { split.len() - 1 } else { split.len() as int },
            views(out@) == Seq::new(i as nat, |j: int| line_at(split, j)),
        decreases n - i,
    {
        assert(split[i as int] == parts@[i as int]@);
        let line = &parts[i];
        let mut end: usize = line.len();
        if end > 0 && line[end - 1] == '\r' && i + 1 < parts.len() {
            end = end - 1;
        }
        let mut piece: Vec<char> = Vec::new();
        let mut k: usize = 0;
        while k < end
            invariant
                0 <= k <= end <= line@.len(),
                piece@ == line@.subrange(0, k as int),
            decreases end - k,
        {
            piece.push(line[k]);
            assert(line@.subrange(0, k + 1) =~= line@.subrange(0, k as int).push(line@[k as int]));
            k += 1;
        }
        assert(piece@ =~= line_at(split, i as int));
        let ghost prev = views(out@);
        out.push(piece);
        assert(views(out@) =~= prev.push(line_at(split, i as int)));
        assert(views(out@) =~= Seq::new((i + 1) as nat, |j: int| line_at(split, j)));
        i += 1;
    }
    out
}

/// True when `v[lo..hi]` begins with `p`.
pub fn starts_with(v: &Vec<char>, lo: usize, hi: usize, p: &Vec<char>) -> (b: bool)
    requires
        lo <= hi <= v.len(),
    ensures
        b == (p@.len() <= hi - lo && v@.subrange(lo as int, lo + p@.len()) == p@),
{
    if p.len() > hi - lo {
        return false;
    }
    let mut i: usize = 0;
    while i < p.len()
        invariant
            0 <= i <= p.len(),
            p.len() <= hi - lo,
            lo <= hi <= v.len(),
            forall|j: int| 0 <= j < i ==> v@[lo + j] == p@[j],
        decreases p.len() - i,
    {
        if v[lo + i] != p[i] {
            assert(v@.subrange(lo as int, lo + p@.len())[i as int] != p@[i as int]);
            return false;
        }
        i += 1;
    }
    assert(v@.subrange(lo as int, lo + p@.len()) =~= p@);
    true
}

/// True when `v[lo..hi]` equals `p`.
pub fn equals(v: &Vec<char>, lo: usize, hi: usize, p: &Vec<char>) -> (b: bool)
    requires
        lo <= hi <= v.len(),
    ensures
        b == (v@.subrange(lo as int, hi as int) == p@),
{
    if p.len() != hi - lo {
        assert(v@.subrange(lo as int, hi as int).len() != p@.len());
        return false;
    }
    let r = starts_with(v, lo, hi, p);
    r
}

/// True when `a` and `b` hold the same characters.
pub fn same(a: &str, b: &str) -> (r: bool)
    ensures
        r == (a@ == b@),
{
    let va = chars_of(a);
    let vb = chars_of(b);
    let r = equals(&va, 0, va.len(), &vb);
    assert(va@.subrange(0, va@.len() as int) =~= va@);
    r
}

/// The decimal digit for `d < 10`.
pub open spec fn digit(d: nat) -> char {
    if d == 0 { '0' }
    else if d == 1 { '1' }
    else if d == 2 { '2' }
    else if d == 3 { '3' }
    else if d == 4 { '4' }
    else if d == 5 { '5' }
    else if d == 6 { '6' }
    else if d == 7 { '7' }
    else if d == 8 { '8' }
    else { '9' }
}

/// The decimal rendering of `n`, with no leading zeros.
pub open spec fn decimal(n: nat) -> Seq<char>
    decreases n,
{
    if n < 10 {
        seq![digit(n)]
    } else {
        decimal(n / 10).push(digit(n % 10))
    }
}

fn digit_char(d: u64) -> (c: char)
    requires
        d < 10,
    ensures
        c == digit(d as nat),
{
    if d == 0 { '0' }
    else if d == 1 { '1' }
    else if d == 2 { '2' }
    else if d == 3 { '3' }
    else if d == 4 { '4' }
    else if d == 5 { '5' }
    else if d == 6 { '6' }
    else if d == 7 { '7' }
    else if d == 8 { '8' }
    else { '9' }
}

/// Appends the decimal rendering of `n`.
pub fn push_decimal(s: &mut String, n: u64)
    ensures
        final(s)@ == old(s)@ + decimal(n as nat),
    decreases n,
{
    if n < 10 {
        push_char(s, digit_char(n));
        assert(old(s)@.push(digit(n as nat)) =~= old(s)@ + decimal(n as nat));
    } else {
        push_decimal(s, n / 10);
        push_char(s, digit_char(n % 10));
        assert(final(s)@ =~= old(s)@ + decimal(n as nat));
    }
}

/// The decimal rendering of `n` as a new string.
pub fn decimal_string(n: u64) -> (s: String)
    ensures
        s@ == decimal(n as nat),
{
    let mut s = String::new();
    push_decimal(&mut s, n);
    assert(s@ =~= decimal(n as nat));
    s
}


/// `k` is the first position of `c` in `s`.
pub open spec fn first_at(s: Seq<char>, c: char, k: int) -> bool {
    &&& 0 <= k < s.len()
    &&& s[k] == c
    &&& forall|j: int| 0 <= j < k ==> s[j] != c
}

pub proof fn lemma_first_unique(s: Seq<char>, c: char, a: int, b: int)
    requires
        first_at(s, c, a),
        first_at(s, c, b),
    ensures
        a == b,
{
    if a < b {
        assert(s[a] != c);
    } else if b < a {
        assert(s[b] != c);
    }
}

/// What `str::split_once(c)` returns: the text before the first `c` and
/// the text after it.
pub open spec fn split_once(s: Seq<char>, c: char) -> Option<(Seq<char>, Seq<char>)> {
    if exists|k: int| first_at(s, c, k) {
        let k = choose|k: int| first_at(s, c, k);
        Some((s.take(k), s.skip(k + 1)))
    } else {
        None
    }
}

/// The first position of `c` in `v[lo..hi]`, as an index into `v`.
pub fn find_char(v: &Vec<char>, lo: usize, hi: usize, c: char) -> (r: Option<usize>)
    requires
        lo <= hi <= v.len(),
    ensures
        match r {
            Some(k) => lo <= k < hi && first_at(v@.subrange(lo as int, hi as int), c, k - lo),
            None => !exists|k: int| first_at(v@.subrange(lo as int, hi as int), c, k),
        },
{
    let ghost s = v@.subrange(lo as int, hi as int);
    let mut i: usize = lo;
    while i < hi
        invariant
            lo <= i <= hi <= v.len(),
            s == v@.subrange(lo as int, hi as int),
            forall|j: int| 0 <= j < i - lo ==> s[j] != c,
        decreases hi - i,
    {
        if v[i] == c {
            assert(s[i - lo] == c);
            return Some(i);
        }
        assert(s[i - lo] != c);
        i += 1;
    }
    assert forall|k: int| !first_at(s, c, k) by {
        if first_at(s, c, k) {
            assert(s[k] != c);
        }
    }
    None
}

/// Splits `v[lo..hi]` at its first `c`: the ranges before and after it.
pub fn split_once_at(v: &Vec<char>, lo: usize, hi: usize, c: char) -> (r: Option<(usize, usize)>)
    requires
        lo <= hi <= v.len(),
    ensures
        match r {
            Some((k, after)) => {
                &&& lo <= k < hi && after == k + 1
                &&& split_once(v@.subrange(lo as int, hi as int), c) == Some((
                    v@.subrange(lo as int, k as int),
                    v@.subrange(after as int, hi as int),
                ))
            },
            None => split_once(v@.subrange(lo as int, hi as int), c) is None,
        },
{
    let ghost s = v@.subrange(lo as int, hi as int);
    match find_char(v, lo, hi, c) {
        Some(k) => {
            proof {
                let kk = choose|kk: int| first_at(s, c, kk);
                lemma_first_unique(s, c, kk, k - lo);
                assert(s.take(k - lo) =~= v@.subrange(lo as int, k as int));
                assert(s.skip(k - lo + 1) =~= v@.subrange(k + 1, hi as int));
            }
            Some((k, k + 1))
        },
        None => None,
    }
}

/// The pieces of `s` between whitespace characters, empty ones included.
pub open spec fn split_ws_seq(s: Seq<char>) -> Seq<Seq<char>>
    decreases s.len(),
{
    if s.len() == 0 {
        seq![Seq::<char>::empty()]
    } else {
        let prev = split_ws_seq(s.drop_last());
        if is_ws(s.last()) {
            prev.push(Seq::<char>::empty())
        } else {
            prev.update(prev.len() - 1, prev.last().push(s.last()))
        }
    }
}

pub proof fn lemma_split_ws_nonempty(s: Seq<char>)
    ensures
        split_ws_seq(s).len() >= 1,
    decreases s.len(),
{
    if s.len() > 0 {
        lemma_split_ws_nonempty(s.drop_last());
    }
}

/// The non-empty pieces, in order.
pub open spec fn non_empty(parts: Seq<Seq<char>>) -> Seq<Seq<char>>
    decreases parts.len(),
{
    if parts.len() == 0 {
        parts
    } else if parts.last().len() == 0 {
        non_empty(parts.drop_last())
    } else {
        non_empty(parts.drop_last()).push(parts.last())
    }
}

/// The tokens `str::split_whitespace` yields.
pub open spec fn words(s: Seq<char>) -> Seq<Seq<char>> {
    non_empty(split_ws_seq(s))
}

/// Keeps the non-empty vectors, in order.
pub fn keep_non_empty(parts: Vec<Vec<char>>) -> (kept: Vec<Vec<char>>)
    ensures
        views(kept@) == non_empty(views(parts@)),
{
    let mut kept: Vec<Vec<char>> = Vec::new();
    let mut i: usize = 0;
    let ghost all = views(parts@);
    while i < parts.len()
        invariant
            0 <= i <= parts.len(),
            all == views(parts@),
            views(kept@) == non_empty(all.take(i as int)),
        decreases parts.len() - i,
    {
        assert(all.take(i + 1).drop_last() =~= all.take(i as int));
        assert(all.take(i + 1).last() == parts@[i as int]@);
        if parts[i].len() > 0 {
            let ghost prev = views(kept@);
            kept.push(parts[i].clone());
            assert(views(kept@) =~= prev.push(parts@[i as int]@));
        }
        i += 1;
    }
    assert(all.take(parts.len() as int) =~= all);
    kept
}

/// Splits `v[lo..hi]` on whitespace, keeping empty pieces.
pub fn split_ws_on(v: &Vec<char>, lo: usize, hi: usize) -> (parts: Vec<Vec<char>>)
    requires
        lo <= hi <= v.len(),
    ensures
        views(parts@) == split_ws_seq(v@.subrange(lo as int, hi as int)),
{
    let mut done: Vec<Vec<char>> = Vec::new();
    let mut cur: Vec<char> = Vec::new();
    let mut i: usize = lo;
    assert(v@.subrange(lo as int, lo as int) =~= Seq::<char>::empty());
    assert(views(done@).push(cur@) =~= seq![Seq::<char>::empty()]);
    while i < hi
        invariant
            lo <= i <= hi <= v.len(),
            views(done@).push(cur@) == split_ws_seq(v@.subrange(lo as int, i as int)),
        decreases hi - i,
    {
        let ghost before = v@.subrange(lo as int, i as int);
        let ghost after = v@.subrange(lo as int, i + 1);
        assert(after.drop_last() =~= before);
        assert(after.last() == v@[i as int]);
        proof {
            lemma_split_ws_nonempty(before);
        }
        if is_whitespace(v[i]) {
            let finished = cur;
            done.push(finished);
            cur = Vec::new();
            assert(views(done@) =~= views(done@.drop_last()).push(finished@));
            assert(views(done@).push(cur@) =~= split_ws_seq(after));
        } else {
            let ghost old_done = views(done@);
            let ghost old_cur = cur@;
            cur.push(v[i]);
            assert(views(done@).push(cur@) =~= old_done.push(old_cur).update(
                old_done.len() as int,
                old_cur.push(v@[i as int]),
            ));
        }
        i += 1;
    }
    done.push(cur);
    assert(views(done@) =~= split_ws_seq(v@.subrange(lo as int, hi as int)));
    done
}

/// The whitespace-separated tokens of `v[lo..hi]`.
pub fn words_of(v: &Vec<char>, lo: usize, hi: usize) -> (tokens: Vec<Vec<char>>)
    requires
        lo <= hi <= v.len(),
    ensures
        views(tokens@) == words(v@.subrange(lo as int, hi as int)),
{
    let parts = split_ws_on(v, lo, hi);
    keep_non_empty(parts)
}

pub open spec fn is_digit(c: char) -> bool {
    '0' <= c && c <= '9'
}

/// The value of a run of decimal digits.
pub open spec fn digits_value(s: Seq<char>) -> nat
    decreases s.len(),
{
    if s.len() == 0 {
        0
    } else {
        digits_value(s.drop_last()) * 10 + ((s.last() as u32) - ('0' as u32)) as nat
    }
}

pub open spec fn sign_stripped(s: Seq<char>) -> Seq<char> {
    if s.len() > 0 && s[0] == '+' { s.drop_first() } else { s }
}

pub open spec fn all_digits(s: Seq<char>) -> bool {
    forall|i: int| 0 <= i < s.len() ==> is_digit(#[trigger] s[i])
}

/// What `str::parse::<u32>` accepts: an optional `+`, then one or more
/// ASCII digits whose value fits in a `u32`.
pub open spec fn parse_u32(s: Seq<char>) -> Option<u32> {
    let body = sign_stripped(s);
    if body.len() > 0 && all_digits(body) && digits_value(body) <= u32::MAX {
        Some(digits_value(body) as u32)
    } else {
        None
    }
}

proof fn lemma_digits_monotone(s: Seq<char>, n: int)
    requires
        0 <= n <= s.len(),
        forall|i: int| 0 <= i < s.len() ==> is_digit(#[trigger] s[i]),
    ensures
        digits_value(s.take(n)) <= digits_value(s),
    decreases s.len() - n,
{
    if n < s.len() {
        lemma_digits_monotone(s, n + 1);
        assert(s.take(n + 1).drop_last() =~= s.take(n));
    } else {
        assert(s.take(n) =~= s);
    }
}

/// Parses `v[lo..hi]` as `str::parse::<u32>` does.
pub fn parse_u32_at(v: &Vec<char>, lo: usize, hi: usize) -> (r: Option<u32>)
    requires
        lo <= hi <= v.len(),
    ensures
        r == parse_u32(v@.subrange(lo as int, hi as int)),
{
    let ghost s = v@.subrange(lo as int, hi as int);
    let mut start: usize = lo;
    if lo < hi && v[lo] == '+' {
        start = lo + 1;
    }
    let ghost body = v@.subrange(start as int, hi as int);
    assert(body =~= sign_stripped(s));
    if start == hi {
        assert(body.len() == 0);
        return None;
    }
    let mut value: u64 = 0;
    let mut i: usize = start;
    while i < hi
        invariant
            start <= i <= hi <= v.len(),
            start < hi,
            body == v@.subrange(start as int, hi as int),
            s == v@.subrange(lo as int, hi as int),
            body == sign_stripped(s),
            forall|j: int| 0 <= j < i - start ==> is_digit(#[trigger] body[j]),
            value == digits_value(body.take(i - start)),
            value <= u32::MAX,
        decreases hi - i,
    {
        let c = v[i];
        if !('0' <= c && c <= '9') {
            assert(!is_digit(body[i - start]));
            assert(!all_digits(body));
            return None;
        }
        assert(body.take(i - start + 1).drop_last() =~= body.take(i - start));
        assert(body.take(i - start + 1).last() == c);
        let d = (c as u32 - '0' as u32) as u64;
        value = value * 10 + d;
        if value > 0xffff_ffffu64 {
            proof {
                assert forall|j: int| 0 <= j < i - start + 1 implies is_digit(#[trigger] body[j]) by {
                    if j == i - start {
                        assert(body[j] == c);
                    }
                }
                if all_digits(body) {
                    lemma_digits_monotone(body, i - start + 1);
                }
            }
            return None;
        }
        i += 1;
    }
    assert(body.take(hi - start) =~= body);
    assert(all_digits(body));
    Some(value as u32)
}


/// The views of a sequence of strings.
pub open spec fn strs(v: Seq<String>) -> Seq<Seq<char>> {
    v.map_values(|s: String| s@)
}

/// Appends clones of `more` to `v`.
pub fn extend_strings(v: &mut Vec<String>, more: &[String])
    ensures
        strs(final(v)@) == strs(old(v)@) + strs(more@),
{
    let mut i: usize = 0;
    while i < more.len()
        invariant
            0 <= i <= more@.len(),
            strs(v@) == strs(old(v)@) + strs(more@.take(i as int)),
        decreases more@.len() - i,
    {
        let ghost before = strs(v@);
        v.push(more[i].clone());
        assert(strs(v@) =~= before.push(more@[i as int]@));
        assert(strs(more@.take(i + 1)) =~= strs(more@.take(i as int)).push(more@[i as int]@));
        i += 1;
    }
    assert(more@.take(more@.len() as int) =~= more@);
}


pub open spec fn seq_starts_with(s: Seq<char>, p: Seq<char>) -> bool {
    p.len() <= s.len() && s.take(p.len() as int) == p
}

pub open spec fn seq_ends_with(s: Seq<char>, p: Seq<char>) -> bool {
    p.len() <= s.len() && s.skip(s.len() - p.len()) == p
}

/// True when `v[lo..hi]` ends with `p`.
pub fn ends_with(v: &Vec<char>, lo: usize, hi: usize, p: &Vec<char>) -> (b: bool)
    requires
        lo <= hi <= v.len(),
    ensures
        b == seq_ends_with(v@.subrange(lo as int, hi as int), p@),
{
    if p.len() > hi - lo {
        return false;
    }
    let r = equals(v, hi - p.len(), hi, p);
    assert(v@.subrange(lo as int, hi as int).skip(hi - lo - p@.len()) =~= v@.subrange(
        hi - p@.len(),
        hi as int,
    ));
    r
}

/// True when `v[lo..hi]` begins with `p`, stated over the piece itself.
pub fn has_prefix(v: &Vec<char>, lo: usize, hi: usize, p: &Vec<char>) -> (b: bool)
    requires
        lo <= hi <= v.len(),
    ensures
        b == seq_starts_with(v@.subrange(lo as int, hi as int), p@),
{
    let r = starts_with(v, lo, hi, p);
    if p.len() <= hi - lo {
        assert(v@.subrange(lo as int, hi as int).take(p@.len() as int) =~= v@.subrange(
            lo as int,
            lo + p@.len(),
        ));
    }
    r
}

/// The pieces `str::splitn(n, c)` yields.
pub open spec fn splitn_seq(s: Seq<char>, n: nat, c: char) -> Seq<Seq<char>>
    decreases n,
{
    if n <= 1 {
        seq![s]
    } else {
        match split_once(s, c) {
            None => seq![s],
            Some((a, rest)) => seq![a] + splitn_seq(rest, (n - 1) as nat, c),
        }
    }
}

/// Splits `v[lo..hi]` into at most `n` pieces at `c`, as `str::splitn`.
pub fn splitn_on(v: &Vec<char>, lo: usize, hi: usize, n: usize, c: char) -> (parts: Vec<Vec<char>>)
    requires
        lo <= hi <= v.len(),
        n >= 1,
    ensures
        views(parts@) == splitn_seq(v@.subrange(lo as int, hi as int), n as nat, c),
    decreases n,
{
    if n <= 1 {
        let mut one: Vec<Vec<char>> = Vec::new();
        one.push(slice_chars(v, lo, hi));
        assert(views(one@) =~= seq![v@.subrange(lo as int, hi as int)]);
        return one;
    }
    match split_once_at(v, lo, hi, c) {
        None => {
            let mut one: Vec<Vec<char>> = Vec::new();
            one.push(slice_chars(v, lo, hi));
            assert(views(one@) =~= seq![v@.subrange(lo as int, hi as int)]);
            one
        },
        Some((k, after)) => {
            let rest = splitn_on(v, after, hi, n - 1, c);
            let mut out: Vec<Vec<char>> = Vec::new();
            out.push(slice_chars(v, lo, k));
            let mut i: usize = 0;
            while i < rest.len()
                invariant
                    0 <= i <= rest@.len(),
                    views(out@) == seq![v@.subrange(lo as int, k as int)] + views(rest@).take(i as int),
                decreases rest@.len() - i,
            {
                let ghost before = views(out@);
                out.push(rest[i].clone());
                assert(views(rest@).take(i + 1) =~= views(rest@).take(i as int).push(rest@[i as int]@));
                assert(views(out@) =~= before.push(rest@[i as int]@));
                i += 1;
            }
            assert(views(rest@).take(rest@.len() as int) =~= views(rest@));
            out
        },
    }
}

/// A copy of `v[lo..hi]`.
pub fn slice_chars(v: &Vec<char>, lo: usize, hi: usize) -> (r: Vec<char>)
    requires
        lo <= hi <= v.len(),
    ensures
        r@ == v@.subrange(lo as int, hi as int),
{
    let mut r: Vec<char> = Vec::new();
    let mut i: usize = lo;
    while i < hi
        invariant
            lo <= i <= hi <= v.len(),
            r@ == v@.subrange(lo as int, i as int),
        decreases hi - i,
    {
        r.push(v[i]);
        assert(v@.subrange(lo as int, i + 1) =~= v@.subrange(lo as int, i as int).push(v@[i as int]));
        i += 1;
    }
    r
}

/// True when `needle` occurs somewhere in `s`, as `str::contains` tests.
pub open spec fn seq_contains(s: Seq<char>, needle: Seq<char>) -> bool {
    exists|i: int| 0 <= i <= s.len() - needle.len() && #[trigger] s.subrange(i, i + needle.len()) == needle
}

/// True when `needle` occurs in `v`.
pub fn contains(v: &Vec<char>, needle: &Vec<char>) -> (b: bool)
    ensures
        b == seq_contains(v@, needle@),
{
    let n: usize = needle.len();
    if n > v.len() {
        return false;
    }
    if n == 0 {
        assert(v@.subrange(0, 0 + needle@.len() as int) =~= needle@);
        return true;
    }
    let mut i: usize = 0;
    let last: usize = v.len() - n;
    while i <= last
        invariant
            n == needle@.len(),
            1 <= n <= v@.len(),
            v@.len() <= usize::MAX,
            last == v@.len() - n,
            i <= last + 1,
            forall|j: int| 0 <= j < i ==> #[trigger] v@.subrange(j, j + n) != needle@,
        decreases last + 1 - i,
    {
        if equals(v, i, i + n, needle) {
            return true;
        }
        i += 1;
    }
    false
}


/// True when `s` is empty after trimming, as `str::trim().is_empty()` tests.
pub fn blank(s: &str) -> (b: bool)
    ensures
        b == (trim(s@).len() == 0),
        b == all_ws(s@),
{
    let v = chars_of(s);
    proof { lemma_trim_empty(s@); }
    assert(v@.subrange(0, v@.len() as int) =~= v@);
    is_blank(&v, 0, v.len())
}

/// True when `c` occurs in `s`.
pub fn has_char(s: &str, c: char) -> (b: bool)
    ensures
        b == s@.contains(c),
{
    let v = chars_of(s);
    let mut i: usize = 0;
    while i < v.len()
        invariant
            0 <= i <= v@.len(),
            v@ == s@,
            forall|j: int| 0 <= j < i ==> v@[j] != c,
        decreases v@.len() - i,
    {
        if v[i] == c {
            assert(s@[i as int] == c);
            return true;
        }
        i += 1;
    }
    false
}

/// `parts` joined with `sep` between neighbours, as `[String]::join` builds.
pub open spec fn joined(parts: Seq<Seq<char>>, sep: Seq<char>) -> Seq<char>
    decreases parts.len(),
{
    if parts.len() == 0 {
        Seq::empty()
    } else if parts.len() == 1 {
        parts[0]
    } else {
        joined(parts.drop_last(), sep) + sep + parts.last()
    }
}

/// The strings of `parts` joined with `sep`.
pub fn join(parts: &[String], sep: &str) -> (s: String)
    ensures
        s@ == joined(strs(parts@), sep@),
{
    let ghost ps = strs(parts@);
    let mut s = String::new();
    let mut i: usize = 0;
    while i < parts.len()
        invariant
            0 <= i <= parts@.len(),
            ps == strs(parts@),
            s@ == joined(ps.take(i as int), sep@),
        decreases parts@.len() - i,
    {
        if i > 0 {
            push_str(&mut s, sep);
        }
        push_str(&mut s, parts[i].as_str());
        assert(ps.take(i + 1).drop_last() =~= ps.take(i as int));
        i += 1;
    }
    assert(ps.take(parts@.len() as int) =~= ps);
    s
}

} // verus!
