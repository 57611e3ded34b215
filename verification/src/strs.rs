//! Verified string helpers on which the rest of the library builds its text.
use vstd::prelude::*;
use vstd::string::*;

verus! {

/// The Unicode `White_Space` property, as used by `char::is_whitespace`.
pub open spec fn is_ws(c: char) -> bool {
    ||| ('\u{9}' <= c && c <= '\u{d}')
    ||| c == ' '
    ||| c == '\u{85}'
    ||| c == '\u{a0}'
    ||| c == '\u{1680}'
    ||| ('\u{2000}' <= c && c <= '\u{200a}')
    ||| c == '\u{2028}'
    ||| c == '\u{2029}'
    ||| c == '\u{202f}'
    ||| c == '\u{205f}'
    ||| c == '\u{3000}'
}

/// Whether `c` is white space in the sense of the Unicode `White_Space` property.
pub fn is_whitespace(c: char) -> (b: bool)
    ensures
        b == is_ws(c),
{
    ('\u{9}' <= c && c <= '\u{d}') || c == ' ' || c == '\u{85}' || c == '\u{a0}' || c
        == '\u{1680}' || ('\u{2000}' <= c && c <= '\u{200a}') || c == '\u{2028}' || c
        == '\u{2029}' || c == '\u{202f}' || c == '\u{205f}' || c == '\u{3000}'
}

/// Character-wise equality of two string slices.
pub fn str_eq(a: &str, b: &str) -> (r: bool)
    ensures
        r == (a@ == b@),
{
    let n = a.unicode_len();
    let m = b.unicode_len();
    if n != m {
        return false;
    }
    let mut i: usize = 0;
    while i < n
        invariant
            n == a@.len(),
            m == b@.len(),
            n == m,
            i <= n,
            forall|j: int| 0 <= j < i ==> a@[j] == b@[j],
        decreases n - i,
    {
        if a.get_char(i) != b.get_char(i) {
            return false;
        }
        i = i + 1;
    }
    assert(a@ =~= b@);
    true
}


/// The pieces of `s` cut at every white-space character (`str::split(char::is_whitespace)`):
/// consecutive separators give empty pieces, and there is always at least one piece.
pub open spec fn ws_pieces(s: Seq<char>) -> Seq<Seq<char>>
    decreases s.len(),
{
    if s.len() == 0 {
        seq![Seq::<char>::empty()]
    } else {
        let p = ws_pieces(s.drop_last());
        if is_ws(s.last()) {
            p.push(Seq::<char>::empty())
        } else {
            p.update(p.len() - 1, p.last().push(s.last()))
        }
    }
}

pub open spec fn nonempty(p: Seq<char>) -> bool {
    p.len() > 0
}

/// The white-space separated words of `s` (`str::split_whitespace`).
pub open spec fn words(s: Seq<char>) -> Seq<Seq<char>> {
    ws_pieces(s).filter(|p: Seq<char>| nonempty(p))
}

pub proof fn lemma_ws_pieces_nonempty(s: Seq<char>)
    ensures
        ws_pieces(s).len() >= 1,
    decreases s.len(),
{
    if s.len() > 0 {
        lemma_ws_pieces_nonempty(s.drop_last());
    }
}

/// No character of `w` is white space.
pub open spec fn ws_free(w: Seq<char>) -> bool {
    forall|i: int| 0 <= i < w.len() ==> !is_ws(#[trigger] w[i])
}

/// A text without white space is one piece.
pub proof fn lemma_ws_pieces_word(w: Seq<char>)
    requires
        ws_free(w),
    ensures
        ws_pieces(w) == seq![w],
    decreases w.len(),
{
    if w.len() > 0 {
        let p = w.drop_last();
        assert(ws_free(p)) by {
            assert forall|i: int| 0 <= i < p.len() implies !is_ws(#[trigger] p[i]) by {
                assert(p[i] == w[i]);
            }
        }
        lemma_ws_pieces_word(p);
        assert(!is_ws(w[w.len() - 1]));
        assert(p.push(w.last()) =~= w);
    } else {
        assert(w =~= Seq::<char>::empty());
    }
}

/// Cutting at a white-space character `c` between `a` and `b` gives the pieces of `a`, then
/// those of `b`.
pub proof fn lemma_ws_pieces_split(a: Seq<char>, c: char, b: Seq<char>)
    requires
        is_ws(c),
    ensures
        ws_pieces(a.push(c) + b) == ws_pieces(a) + ws_pieces(b),
    decreases b.len(),
{
    let s = a.push(c) + b;
    if b.len() == 0 {
        assert(s =~= a.push(c));
        assert(s.drop_last() =~= a);
        assert(ws_pieces(b) =~= seq![Seq::<char>::empty()]);
        assert(ws_pieces(a).push(Seq::<char>::empty()) =~= ws_pieces(a) + seq![Seq::<char>::empty()]);
    } else {
        let b0 = b.drop_last();
        assert(s.drop_last() =~= a.push(c) + b0);
        assert(s.last() == b.last());
        lemma_ws_pieces_split(a, c, b0);
        lemma_ws_pieces_nonempty(b0);
        let pa = ws_pieces(a);
        let pb = ws_pieces(b0);
        if is_ws(b.last()) {
            assert((pa + pb).push(Seq::<char>::empty()) =~= pa + pb.push(Seq::<char>::empty()));
        } else {
            assert((pa + pb).update((pa + pb).len() - 1, (pa + pb).last().push(b.last())) =~= pa
                + pb.update(pb.len() - 1, pb.last().push(b.last())));
        }
    }
}

/// Words without white space, joined with single spaces, are cut back into those words.
pub proof fn lemma_ws_pieces_joined(ws: Seq<Seq<char>>)
    requires
        ws.len() > 0,
        forall|i: int| 0 <= i < ws.len() ==> ws_free(#[trigger] ws[i]),
    ensures
        ws_pieces(joined(ws, seq![' '])) == ws,
    decreases ws.len(),
{
    if ws.len() == 1 {
        lemma_ws_pieces_word(ws[0]);
        assert(seq![ws[0]] =~= ws);
    } else {
        let init = ws.drop_last();
        assert forall|i: int| 0 <= i < init.len() implies ws_free(#[trigger] init[i]) by {
            assert(init[i] == ws[i]);
        }
        lemma_ws_pieces_joined(init);
        let j = joined(init, seq![' ']);
        assert(j + seq![' '] =~= j.push(' '));
        assert(is_ws(' '));
        lemma_ws_pieces_split(j, ' ', ws.last());
        assert(ws_free(ws[ws.len() - 1]));
        lemma_ws_pieces_word(ws.last());
        assert(init + seq![ws.last()] =~= ws);
    }
}

pub proof fn lemma_filter_push<A>(s: Seq<A>, pred: spec_fn(A) -> bool, e: A)
    ensures
        pred(e) ==> s.push(e).filter(pred) == s.filter(pred).push(e),
        !pred(e) ==> s.push(e).filter(pred) == s.filter(pred),
{
    reveal(Seq::filter);
    assert(s.push(e).drop_last() =~= s);
}

/// Splits `s` at every white-space character, keeping empty pieces.
pub fn split_at_whitespace(s: &str) -> (r: Vec<String>)
    ensures
        r.deep_view() =~= ws_pieces(s@),
{
    let n = s.unicode_len();
    let mut out: Vec<String> = Vec::new();
    let mut start: usize = 0;
    let mut i: usize = 0;
    assert(s@.take(0) =~= Seq::<char>::empty());
    assert(s@.subrange(0, 0) =~= Seq::<char>::empty());
    assert(out.deep_view() =~= Seq::<Seq<char>>::empty());
    while i < n
        invariant
            n == s@.len(),
            start <= i <= n,
            ws_pieces(s@.take(i as int)) =~= out.deep_view().push(
                s@.subrange(start as int, i as int),
            ),
        decreases n - i,
    {
        let c = s.get_char(i);
        proof {
            assert(s@.take(i + 1).drop_last() =~= s@.take(i as int));
            assert(s@.take(i + 1).last() == c);
        }
        if is_whitespace(c) {
            let piece = s.substring_char(start, i).to_owned();
            out.push(piece);
            start = i + 1;
            proof {
                assert(s@.subrange(start as int, i + 1) =~= Seq::<char>::empty());
            }
        } else {
            proof {
                assert(s@.subrange(start as int, i + 1) =~= s@.subrange(start as int, i as int).push(c));
            }
        }
        i = i + 1;
    }
    let last = s.substring_char(start, n).to_owned();
    out.push(last);
    assert(s@.take(n as int) =~= s@);
    out
}

/// The white-space separated words of `s`, as `str::split_whitespace` gives them.
pub fn split_words(s: &str) -> (r: Vec<String>)
    ensures
        r.deep_view() =~= words(s@),
{
    let pieces = split_at_whitespace(s);
    let mut out: Vec<String> = Vec::new();
    let mut j: usize = 0;
    let ghost pv = pieces.deep_view();
    assert(pv.take(0).filter(|p: Seq<char>| nonempty(p)) =~= Seq::<Seq<char>>::empty()) by {
        reveal(Seq::filter);
    }
    while j < pieces.len()
        invariant
            pv == pieces.deep_view(),
            j <= pieces.len(),
            out.deep_view() =~= pv.take(j as int).filter(|p: Seq<char>| nonempty(p)),
        decreases pieces.len() - j,
    {
        let ghost pred = |p: Seq<char>| nonempty(p);
        proof {
            lemma_filter_push(pv.take(j as int), pred, pv[j as int]);
            assert(pv.take(j + 1) =~= pv.take(j as int).push(pv[j as int]));
        }
        let pc = pieces[j].clone();
        if pc.as_str().unicode_len() > 0 {
            out.push(pc);
        }
        j = j + 1;
    }
    assert(pv.take(pieces.len() as int) =~= pv);
    out
}

/// The strings of `list` joined with `sep` between consecutive ones.
pub open spec fn joined(list: Seq<Seq<char>>, sep: Seq<char>) -> Seq<char>
    decreases list.len(),
{
    if list.len() == 0 {
        Seq::<char>::empty()
    } else if list.len() == 1 {
        list[0]
    } else {
        joined(list.drop_last(), sep) + sep + list.last()
    }
}

/// Joins `list` with `sep`, as `[String]::join` does.
pub fn join(list: &Vec<String>, sep: &str) -> (r: String)
    ensures
        r@ == joined(list.deep_view(), sep@),
{
    let mut res = String::new();
    let ghost lv = list.deep_view();
    let mut i: usize = 0;
    while i < list.len()
        invariant
            lv == list.deep_view(),
            i <= list.len(),
            res@ == joined(lv.take(i as int), sep@),
        decreases list.len() - i,
    {
        proof {
            assert(lv.take(i + 1).drop_last() =~= lv.take(i as int));
        }
        if i != 0 {
            res.append(sep);
        }
        res.append(list[i].as_str());
        proof {
            if i == 0 {
                assert(Seq::<char>::empty() + lv[0] =~= lv[0]);
            }
        }
        i = i + 1;
    }
    assert(lv.take(list.len() as int) =~= lv);
    res
}

/// `s` without leading white space.
pub open spec fn trim_start_spec(s: Seq<char>) -> Seq<char>
    decreases s.len(),
{
    if s.len() > 0 && is_ws(s[0]) {
        trim_start_spec(s.drop_first())
    } else {
        s
    }
}

/// `s` without trailing white space.
pub open spec fn trim_end_spec(s: Seq<char>) -> Seq<char>
    decreases s.len(),
{
    if s.len() > 0 && is_ws(s.last()) {
        trim_end_spec(s.drop_last())
    } else {
        s
    }
}

/// `s` without leading and trailing white space (`str::trim`).
pub open spec fn trimmed(s: Seq<char>) -> Seq<char> {
    trim_end_spec(trim_start_spec(s))
}

/// `s` with its leading and trailing white space removed, as `str::trim` does.
pub fn trim(s: &str) -> (r: &str)
    ensures
        r@ == trimmed(s@),
{
    let n = s.unicode_len();
    let mut a: usize = 0;
    assert(s@.subrange(0, n as int) =~= s@);
    while a < n && is_whitespace(s.get_char(a))
        invariant
            n == s@.len(),
            a <= n,
            trim_start_spec(s@) == trim_start_spec(s@.subrange(a as int, n as int)),
        decreases n - a,
    {
        assert(s@.subrange(a as int, n as int).drop_first() =~= s@.subrange(a + 1, n as int));
        a = a + 1;
    }
    assert(trim_start_spec(s@) =~= s@.subrange(a as int, n as int));
    let mut b: usize = n;
    while b > a && is_whitespace(s.get_char(b - 1))
        invariant
            n == s@.len(),
            a <= b <= n,
            trimmed(s@) == trim_end_spec(s@.subrange(a as int, b as int)),
        decreases b,
    {
        assert(s@.subrange(a as int, b as int).drop_last() =~= s@.subrange(a as int, b - 1));
        b = b - 1;
    }
    assert(trim_end_spec(s@.subrange(a as int, b as int)) =~= s@.subrange(a as int, b as int));
    s.substring_char(a, b)
}

/// The index of the first occurrence of `c` in `s`.
pub open spec fn first_index_of(s: Seq<char>, c: char, i: int) -> bool {
    0 <= i < s.len() && s[i] == c && forall|j: int| 0 <= j < i ==> s[j] != c
}

/// The position of the first `c` in `s`, if any (`str::find` with a char).
pub fn find_char(s: &str, c: char) -> (r: Option<usize>)
    ensures
        match r {
            Some(i) => first_index_of(s@, c, i as int),
            None => !s@.contains(c),
        },
{
    let n = s.unicode_len();
    let mut i: usize = 0;
    while i < n
        invariant
            n == s@.len(),
            i <= n,
            forall|j: int| 0 <= j < i ==> s@[j] != c,
        decreases n - i,
    {
        if s.get_char(i) == c {
            return Some(i);
        }
        i = i + 1;
    }
    None
}

/// Whether `s` begins with `p`.
pub open spec fn has_prefix(s: Seq<char>, p: Seq<char>) -> bool {
    p.len() <= s.len() && s.take(p.len() as int) == p
}

/// Whether `s` ends with `p`.
pub open spec fn has_suffix(s: Seq<char>, p: Seq<char>) -> bool {
    p.len() <= s.len() && s.skip(s.len() - p.len()) == p
}

/// Whether `p` occurs in `s` at position `i`.
pub open spec fn occurs_at(s: Seq<char>, p: Seq<char>, i: int) -> bool {
    0 <= i && i + p.len() <= s.len() && s.subrange(i, i + p.len()) == p
}

/// Whether `p` occurs anywhere in `s`.
pub open spec fn has_infix(s: Seq<char>, p: Seq<char>) -> bool {
    exists|i: int| occurs_at(s, p, i)
}

fn matches_at(s: &str, n: usize, p: &str, m: usize, i: usize) -> (r: bool)
    requires
        n == s@.len(),
        m == p@.len(),
        i + m <= n,
    ensures
        r == (s@.subrange(i as int, i + m) == p@),
{
    let mut k: usize = 0;
    while k < m
        invariant
            n == s@.len(),
            m == p@.len(),
            i + m <= n,
            k <= m,
            forall|j: int| 0 <= j < k ==> s@[i + j] == p@[j],
        decreases m - k,
    {
        if s.get_char(i + k) != p.get_char(k) {
            assert(s@.subrange(i as int, i + m)[k as int] != p@[k as int]);
            return false;
        }
        k = k + 1;
    }
    assert(s@.subrange(i as int, i + m) =~= p@);
    true
}

/// Whether `s` starts with `p`.
pub fn starts_with(s: &str, p: &str) -> (r: bool)
    ensures
        r == has_prefix(s@, p@),
{
    let n = s.unicode_len();
    let m = p.unicode_len();
    if m > n {
        return false;
    }
    let r = matches_at(s, n, p, m, 0);
    assert(s@.subrange(0, m as int) =~= s@.take(m as int));
    r
}

/// Whether `s` ends with `p`.
pub fn ends_with(s: &str, p: &str) -> (r: bool)
    ensures
        r == has_suffix(s@, p@),
{
    let n = s.unicode_len();
    let m = p.unicode_len();
    if m > n {
        return false;
    }
    let r = matches_at(s, n, p, m, n - m);
    assert(s@.subrange(n - m, n as int) =~= s@.skip(n - m));
    r
}

/// Whether `p` occurs in `s` (`str::contains` with a string pattern).
pub fn contains_str(s: &str, p: &str) -> (r: bool)
    ensures
        r == has_infix(s@, p@),
{
    let n = s.unicode_len();
    let m = p.unicode_len();
    if m > n {
        assert forall|i: int| !occurs_at(s@, p@, i) by {}
        return false;
    }
    if m == 0 {
        assert(s@.subrange(0, 0) =~= p@);
        assert(occurs_at(s@, p@, 0));
        return true;
    }
    let mut i: usize = 0;
    while i <= n - m
        invariant
            n == s@.len(),
            m == p@.len(),
            0 < m <= n,
            i <= n - m + 1,
            forall|j: int| 0 <= j < i ==> !occurs_at(s@, p@, j),
        decreases n - i,
    {
        if matches_at(s, n, p, m, i) {
            assert(occurs_at(s@, p@, i as int));
            return true;
        }
        i = i + 1;
    }
    assert forall|j: int| !occurs_at(s@, p@, j) by {}
    false
}


/// The decimal digit character for `d < 10`.
pub open spec fn digit(d: int) -> char {
    if d == 0 {
        '0'
    } else if d == 1 {
        '1'
    } else if d == 2 {
        '2'
    } else if d == 3 {
        '3'
    } else if d == 4 {
        '4'
    } else if d == 5 {
        '5'
    } else if d == 6 {
        '6'
    } else if d == 7 {
        '7'
    } else if d == 8 {
        '8'
    } else {
        '9'
    }
}

/// The decimal representation of a natural number, without leading zeros.
pub open spec fn dec_nat(n: nat) -> Seq<char>
    decreases n,
{
    if n < 10 {
        seq![digit(n as int)]
    } else {
        dec_nat(n / 10).push(digit((n % 10) as int))
    }
}

/// The decimal representation of an integer, with a leading `-` when it is negative
/// (what `Display` writes for Rust's integer types).
pub open spec fn dec_int(i: int) -> Seq<char> {
    if i < 0 {
        seq!['-'] + dec_nat((-i) as nat)
    } else {
        dec_nat(i as nat)
    }
}

fn digit_str(d: u64) -> (r: String)
    requires
        d < 10,
    ensures
        r@ == seq![digit(d as int)],
{
    if d == 0 {
        proof { reveal_strlit("0"); }
        "0".to_owned()
    } else if d == 1 {
        proof { reveal_strlit("1"); }
        "1".to_owned()
    } else if d == 2 {
        proof { reveal_strlit("2"); }
        "2".to_owned()
    } else if d == 3 {
        proof { reveal_strlit("3"); }
        "3".to_owned()
    } else if d == 4 {
        proof { reveal_strlit("4"); }
        "4".to_owned()
    } else if d == 5 {
        proof { reveal_strlit("5"); }
        "5".to_owned()
    } else if d == 6 {
        proof { reveal_strlit("6"); }
        "6".to_owned()
    } else if d == 7 {
        proof { reveal_strlit("7"); }
        "7".to_owned()
    } else if d == 8 {
        proof { reveal_strlit("8"); }
        "8".to_owned()
    } else {
        proof { reveal_strlit("9"); }
        "9".to_owned()
    }
}

/// The decimal representation of `n`, as `n.to_string()` gives it.
pub fn fmt_u64(n: u64) -> (r: String)
    ensures
        r@ == dec_nat(n as nat),
    decreases n,
{
    if n < 10 {
        digit_str(n)
    } else {
        let mut s = fmt_u64(n / 10);
        let d = digit_str(n % 10);
        s.append(d.as_str());
        s
    }
}

/// The decimal representation of `i`, as `i.to_string()` gives it.
pub fn fmt_i64(i: i64) -> (r: String)
    ensures
        r@ == dec_int(i as int),
{
    if i < 0 {
        let m: u64 = (0i128 - (i as i128)) as u64;
        proof {
            reveal_strlit("-");
        }
        let mut s = "-".to_owned();
        let d = fmt_u64(m);
        s.append(d.as_str());
        s
    } else {
        fmt_u64(i as u64)
    }
}

/// `t` before, between and after every character of `s` (what replacing the empty
/// pattern does).
pub open spec fn interleaved(s: Seq<char>, t: Seq<char>) -> Seq<char>
    decreases s.len(),
{
    if s.len() == 0 {
        t
    } else {
        t + seq![s[0]] + interleaved(s.skip(1), t)
    }
}

/// `s` with every non-overlapping occurrence of `f`, scanned from the left, replaced by `t`
/// (`str::replace`).
pub open spec fn replaced(s: Seq<char>, f: Seq<char>, t: Seq<char>) -> Seq<char>
    decreases s.len(),
{
    if f.len() == 0 {
        interleaved(s, t)
    } else if s.len() < f.len() {
        s
    } else if s.take(f.len() as int) == f {
        t + replaced(s.skip(f.len() as int), f, t)
    } else {
        seq![s[0]] + replaced(s.skip(1), f, t)
    }
}

/// Replaces every match of `from` in `s` with `to`, as `str::replace` does.
pub fn replace(s: &str, from: &str, to: &str) -> (r: String)
    ensures
        r@ == replaced(s@, from@, to@),
{
    let n = s.unicode_len();
    let m = from.unicode_len();
    let mut res = String::new();
    let mut i: usize = 0;
    assert(s@.skip(0) =~= s@);
    if m == 0 {
        while i < n
            invariant
                n == s@.len(),
                m == from@.len(),
                m == 0,
                i <= n,
                replaced(s@, from@, to@) == res@ + interleaved(s@.skip(i as int), to@),
            decreases n - i,
        {
            let one = s.substring_char(i, i + 1);
            let ghost before = res@;
            res.append(to);
            res.append(one);
            proof {
                assert(s@.skip(i as int).skip(1) =~= s@.skip(i + 1));
                assert(one@ =~= seq![s@.skip(i as int)[0]]);
                assert(before + (to@ + seq![s@.skip(i as int)[0]] + interleaved(s@.skip(i + 1), to@))
                    =~= res@ + interleaved(s@.skip(i + 1), to@));
            }
            i = i + 1;
        }
        res.append(to);
        assert(s@.skip(n as int) =~= Seq::<char>::empty());
        return res;
    }
    while i < n
        invariant
            n == s@.len(),
            m == from@.len(),
            m > 0,
            i <= n,
            replaced(s@, from@, to@) == res@ + replaced(s@.skip(i as int), from@, to@),
        decreases n - i,
    {
        let ghost before = res@;
        let ghost rest = s@.skip(i as int);
        if n - i < m {
            let tail = s.substring_char(i, n);
            res.append(tail);
            assert(tail@ =~= rest);
            i = n;
        } else if matches_at(s, n, from, m, i) {
            res.append(to);
            proof {
                assert(rest.take(m as int) =~= s@.subrange(i as int, i + m));
                assert(rest.skip(m as int) =~= s@.skip(i + m));
                assert(before + (to@ + replaced(s@.skip(i + m), from@, to@)) =~= res@ + replaced(
                    s@.skip(i + m),
                    from@,
                    to@,
                ));
            }
            i = i + m;
        } else {
            let one = s.substring_char(i, i + 1);
            res.append(one);
            proof {
                assert(rest.take(m as int) =~= s@.subrange(i as int, i + m));
                assert(rest.skip(1) =~= s@.skip(i + 1));
                assert(one@ =~= seq![rest[0]]);
                assert(before + (seq![rest[0]] + replaced(s@.skip(i + 1), from@, to@)) =~= res@
                    + replaced(s@.skip(i + 1), from@, to@));
            }
            i = i + 1;
        }
    }
    assert(s@.skip(n as int) =~= Seq::<char>::empty());
    assert(res@ + Seq::<char>::empty() =~= res@);
    res
}


/// The pieces of `s` cut at every occurrence of `c` (`str::split` with a char); there is
/// always at least one piece.
pub open spec fn pieces_by(s: Seq<char>, c: char) -> Seq<Seq<char>>
    decreases s.len(),
{
    if s.len() == 0 {
        seq![Seq::<char>::empty()]
    } else {
        let p = pieces_by(s.drop_last(), c);
        if s.last() == c {
            p.push(Seq::<char>::empty())
        } else {
            p.update(p.len() - 1, p.last().push(s.last()))
        }
    }
}

pub proof fn lemma_pieces_by_nonempty(s: Seq<char>, c: char)
    ensures
        pieces_by(s, c).len() >= 1,
    decreases s.len(),
{
    if s.len() > 0 {
        lemma_pieces_by_nonempty(s.drop_last(), c);
    }
}

/// A text without `c` is one piece.
pub proof fn lemma_pieces_by_word(w: Seq<char>, c: char)
    requires
        !w.contains(c),
    ensures
        pieces_by(w, c) == seq![w],
    decreases w.len(),
{
    if w.len() > 0 {
        let p = w.drop_last();
        assert(!p.contains(c)) by {
            if p.contains(c) {
                let i = choose|i: int| 0 <= i < p.len() && p[i] == c;
                assert(w[i] == c);
            }
        }
        lemma_pieces_by_word(p, c);
        assert(w[w.len() - 1] != c);
        assert(p.push(w.last()) =~= w);
    } else {
        assert(w =~= Seq::<char>::empty());
    }
}

/// Cutting at a `c` between `a` and `b` gives the pieces of `a`, then those of `b`.
pub proof fn lemma_pieces_by_split(a: Seq<char>, c: char, b: Seq<char>)
    ensures
        pieces_by(a.push(c) + b, c) == pieces_by(a, c) + pieces_by(b, c),
    decreases b.len(),
{
    let s = a.push(c) + b;
    if b.len() == 0 {
        assert(s =~= a.push(c));
        assert(s.drop_last() =~= a);
        assert(pieces_by(a, c).push(Seq::<char>::empty()) =~= pieces_by(a, c) + seq![
            Seq::<char>::empty(),
        ]);
    } else {
        let b0 = b.drop_last();
        assert(s.drop_last() =~= a.push(c) + b0);
        assert(s.last() == b.last());
        lemma_pieces_by_split(a, c, b0);
        lemma_pieces_by_nonempty(b0, c);
        let pa = pieces_by(a, c);
        let pb = pieces_by(b0, c);
        if b.last() == c {
            assert((pa + pb).push(Seq::<char>::empty()) =~= pa + pb.push(Seq::<char>::empty()));
        } else {
            assert((pa + pb).update((pa + pb).len() - 1, (pa + pb).last().push(b.last())) =~= pa
                + pb.update(pb.len() - 1, pb.last().push(b.last())));
        }
    }
}

/// Texts without `c`, joined with `c`, are cut back into those texts.
pub proof fn lemma_pieces_by_joined(ws: Seq<Seq<char>>, c: char)
    requires
        ws.len() > 0,
        forall|i: int| 0 <= i < ws.len() ==> !(#[trigger] ws[i]).contains(c),
    ensures
        pieces_by(joined(ws, seq![c]), c) == ws,
    decreases ws.len(),
{
    if ws.len() == 1 {
        lemma_pieces_by_word(ws[0], c);
        assert(seq![ws[0]] =~= ws);
    } else {
        let init = ws.drop_last();
        assert forall|i: int| 0 <= i < init.len() implies !(#[trigger] init[i]).contains(c) by {
            assert(init[i] == ws[i]);
        }
        lemma_pieces_by_joined(init, c);
        let j = joined(init, seq![c]);
        assert(j + seq![c] =~= j.push(c));
        lemma_pieces_by_split(j, c, ws.last());
        assert(!ws[ws.len() - 1].contains(c));
        lemma_pieces_by_word(ws.last(), c);
        assert(init + seq![ws.last()] =~= ws);
    }
}

/// Splits `s` at every `c`, keeping empty pieces.
pub fn split_char(s: &str, c: char) -> (r: Vec<String>)
    ensures
        r.deep_view() =~= pieces_by(s@, c),
{
    let n = s.unicode_len();
    let mut out: Vec<String> = Vec::new();
    let mut start: usize = 0;
    let mut i: usize = 0;
    assert(s@.take(0) =~= Seq::<char>::empty());
    assert(s@.subrange(0, 0) =~= Seq::<char>::empty());
    assert(out.deep_view() =~= Seq::<Seq<char>>::empty());
    while i < n
        invariant
            n == s@.len(),
            start <= i <= n,
            pieces_by(s@.take(i as int), c) =~= out.deep_view().push(
                s@.subrange(start as int, i as int),
            ),
        decreases n - i,
    {
        let d = s.get_char(i);
        proof {
            assert(s@.take(i + 1).drop_last() =~= s@.take(i as int));
            assert(s@.take(i + 1).last() == d);
        }
        if d == c {
            let piece = s.substring_char(start, i).to_owned();
            out.push(piece);
            start = i + 1;
            proof {
                assert(s@.subrange(start as int, i + 1) =~= Seq::<char>::empty());
            }
        } else {
            proof {
                assert(s@.subrange(start as int, i + 1) =~= s@.subrange(start as int, i as int).push(d));
            }
        }
        i = i + 1;
    }
    let last = s.substring_char(start, n).to_owned();
    out.push(last);
    assert(s@.take(n as int) =~= s@);
    out
}

/// The index of the last occurrence of `c` in `s`.
pub open spec fn last_index_of(s: Seq<char>, c: char, i: int) -> bool {
    0 <= i < s.len() && s[i] == c && forall|j: int| i < j < s.len() ==> s[j] != c
}

/// The position of the last `c` in `s`, if any (`str::rfind` with a char).
pub fn rfind_char(s: &str, c: char) -> (r: Option<usize>)
    ensures
        match r {
            Some(i) => last_index_of(s@, c, i as int),
            None => !s@.contains(c),
        },
{
    let n = s.unicode_len();
    let mut i: usize = n;
    while i > 0
        invariant
            n == s@.len(),
            i <= n,
            forall|j: int| i <= j < n ==> s@[j] != c,
        decreases i,
    {
        if s.get_char(i - 1) == c {
            return Some(i - 1);
        }
        i = i - 1;
    }
    None
}

/// The part of `s` before its first `c` (all of `s` when there is none); this is the first
/// piece of `s.split(c)`.
pub open spec fn before_first(s: Seq<char>, c: char) -> Seq<char> {
    if s.contains(c) {
        s.take(choose|i: int| first_index_of(s, c, i))
    } else {
        s
    }
}

/// The part of `s` after its last `c` (all of `s` when there is none); this is the last
/// piece of `s.split(c)`.
pub open spec fn after_last(s: Seq<char>, c: char) -> Seq<char> {
    if s.contains(c) {
        s.skip((choose|i: int| last_index_of(s, c, i)) + 1)
    } else {
        s
    }
}

/// The part of `s` before its first `c`.
pub fn prefix_before(s: &str, c: char) -> (r: &str)
    ensures
        r@ == before_first(s@, c),
{
    match find_char(s, c) {
        Some(i) => {
            proof {
                let j = choose|j: int| first_index_of(s@, c, j);
                assert(first_index_of(s@, c, j));
                if j < i {
                } else if i < j {
                }
                assert(j == i);
            }
            s.substring_char(0, i)
        },
        None => {
            assert(s@.subrange(0, s@.len() as int) =~= s@);
            s.substring_char(0, s.unicode_len())
        },
    }
}

/// The part of `s` after its last `c`.
pub fn suffix_after(s: &str, c: char) -> (r: &str)
    ensures
        r@ == after_last(s@, c),
{
    let n = s.unicode_len();
    match rfind_char(s, c) {
        Some(i) => {
            proof {
                let j = choose|j: int| last_index_of(s@, c, j);
                assert(last_index_of(s@, c, j));
                if j < i {
                } else if i < j {
                }
                assert(j == i);
                assert(s@.subrange(i + 1, n as int) =~= s@.skip(i + 1));
            }
            s.substring_char(i + 1, n)
        },
        None => {
            assert(s@.subrange(0, n as int) =~= s@);
            s.substring_char(0, n)
        },
    }
}

/// `a` followed by `b`.
pub fn cat2(a: &str, b: &str) -> (r: String)
    ensures
        r@ == a@ + b@,
{
    let mut r = a.to_owned();
    r.append(b);
    r
}

/// `a`, `b` and `c` one after another.
pub fn cat3(a: &str, b: &str, c: &str) -> (r: String)
    ensures
        r@ == a@ + b@ + c@,
{
    let mut r = a.to_owned();
    r.append(b);
    r.append(c);
    r
}

/// The five strings one after another.
pub fn cat5(a: &str, b: &str, c: &str, d: &str, e: &str) -> (r: String)
    ensures
        r@ == a@ + b@ + c@ + d@ + e@,
{
    let mut r = a.to_owned();
    r.append(b);
    r.append(c);
    r.append(d);
    r.append(e);
    r
}

/// A copy of a list of strings.
pub fn clone_strings(v: &Vec<String>) -> (r: Vec<String>)
    ensures
        r.deep_view() == v.deep_view(),
{
    let mut out: Vec<String> = Vec::new();
    let mut i: usize = 0;
    while i < v.len()
        invariant
            i <= v.len(),
            out.deep_view() =~= v.deep_view().take(i as int),
        decreases v.len() - i,
    {
        out.push(v[i].clone());
        proof {
            assert(v.deep_view().take(i + 1) =~= v.deep_view().take(i as int).push(v[i as int]@));
        }
        i = i + 1;
    }
    assert(v.deep_view().take(v.len() as int) =~= v.deep_view());
    out
}

/// Whether `s` holds a white-space character.
pub open spec fn has_ws(s: Seq<char>) -> bool {
    exists|i: int| 0 <= i < s.len() && is_ws(#[trigger] s[i])
}

/// Whether `s` holds a white-space character, as `str::contains(char::is_whitespace)`.
pub fn has_whitespace(s: &str) -> (r: bool)
    ensures
        r == has_ws(s@),
{
    let n = s.unicode_len();
    let mut i: usize = 0;
    while i < n
        invariant
            n == s@.len(),
            i <= n,
            forall|j: int| 0 <= j < i ==> !is_ws(#[trigger] s@[j]),
        decreases n - i,
    {
        let c = s.get_char(i);
        if is_whitespace(c) {
            return true;
        }
        i = i + 1;
    }
    false
}

/// Whether `c` is an ASCII digit.
pub open spec fn is_digit(c: char) -> bool {
    '0' <= c <= '9'
}

/// The value of a string of ASCII digits.
pub open spec fn digits_value(s: Seq<char>) -> nat
    decreases s.len(),
{
    if s.len() == 0 {
        0
    } else {
        digits_value(s.drop_last()) * 10 + ((s.last() as u32) - ('0' as u32)) as nat
    }
}

/// The digits that `str::parse::<u64>` reads: the text after an optional leading `+`.
pub open spec fn unsigned_digits(s: Seq<char>) -> Seq<char> {
    if s.len() > 0 && s[0] == '+' {
        s.drop_first()
    } else {
        s
    }
}

/// What `str::parse::<u64>` gives: the value of a non-empty run of digits, after an optional
/// `+`, when it fits in 64 bits.
pub open spec fn parsed_u64(s: Seq<char>) -> Option<u64> {
    let d = unsigned_digits(s);
    if d.len() > 0 && (forall|i: int| 0 <= i < d.len() ==> is_digit(#[trigger] d[i]))
        && digits_value(d) <= u64::MAX {
        Some(digits_value(d) as u64)
    } else {
        None
    }
}

/// A prefix of a run of digits is worth no more than the run.
proof fn lemma_digits_value_mono(d: Seq<char>, i: int)
    requires
        0 <= i <= d.len(),
        forall|k: int| 0 <= k < d.len() ==> is_digit(#[trigger] d[k]),
    ensures
        digits_value(d.take(i)) <= digits_value(d),
    decreases d.len() - i,
{
    if i < d.len() {
        lemma_digits_value_mono(d, i + 1);
        assert(d.take(i + 1).drop_last() =~= d.take(i));
    } else {
        assert(d.take(i) =~= d);
    }
}

/// Reads a number as `str::parse::<u64>` does.
pub fn parse_u64(s: &str) -> (r: Option<u64>)
    ensures
        r == parsed_u64(s@),
{
    let n = s.unicode_len();
    let start: usize = if n > 0 && s.get_char(0) == '+' {
        1
    } else {
        0
    };
    let d = s.substring_char(start, n);
    assert(d@ =~= unsigned_digits(s@));
    let m = d.unicode_len();
    if m == 0 {
        return None;
    }
    let mut i: usize = 0;
    let mut acc: u64 = 0;
    assert(d@.take(0) =~= Seq::<char>::empty());
    while i < m
        invariant
            m == d@.len(),
            d@ == unsigned_digits(s@),
            i <= m,
            forall|k: int| 0 <= k < i ==> is_digit(#[trigger] d@[k]),
            acc as nat == digits_value(d@.take(i as int)),
        decreases m - i,
    {
        let c = d.get_char(i);
        if !('0' <= c && c <= '9') {
            assert(!is_digit(d@[i as int]));
            return None;
        }
        let v: u64 = (c as u32 - '0' as u32) as u64;
        assert(d@.take(i + 1).drop_last() =~= d@.take(i as int));
        assert(d@.take(i + 1).last() == c);
        if acc > (u64::MAX - v) / 10 {
            proof {
                assert forall|k: int| 0 <= k < i + 1 implies is_digit(#[trigger] d@[k]) by {}
                assert(digits_value(d@.take(i + 1)) == acc * 10 + v);
                assert(acc * 10 + v > u64::MAX) by (nonlinear_arith)
                    requires
                        acc > (u64::MAX - v) / 10,
                        v <= 9,
                ;
                if forall|k: int| 0 <= k < m ==> is_digit(#[trigger] d@[k]) {
                    lemma_digits_value_mono(d@, i + 1);
                }
            }
            return None;
        }
        assert(acc * 10 + v <= u64::MAX) by (nonlinear_arith)
            requires
                acc <= (u64::MAX - v) / 10,
                v <= 9,
        ;
        acc = acc * 10 + v;
        i = i + 1;
    }
    assert(d@.take(m as int) =~= d@);
    Some(acc)
}

/// The decimal text of a number is a run of digits worth that number.
pub proof fn lemma_dec_nat_digits(n: nat)
    ensures
        dec_nat(n).len() > 0,
        forall|i: int| 0 <= i < dec_nat(n).len() ==> is_digit(#[trigger] dec_nat(n)[i]),
        digits_value(dec_nat(n)) == n,
    decreases n,
{
    if n < 10 {
        let s = dec_nat(n);
        assert(s.drop_last() =~= Seq::<char>::empty());
        assert(((digit(n as int) as u32) - ('0' as u32)) as nat == n);
        assert(digits_value(s) == digits_value(s.drop_last()) * 10 + ((s.last() as u32) - (
        '0' as u32)) as nat);
        assert(digits_value(Seq::<char>::empty()) == 0);
    } else {
        lemma_dec_nat_digits(n / 10);
        let p = dec_nat(n / 10);
        let s = dec_nat(n);
        let d = (n % 10) as int;
        assert(s == p.push(digit(d)));
        assert(s.drop_last() =~= p);
        assert(((digit(d) as u32) - ('0' as u32)) as nat == d);
        assert forall|i: int| 0 <= i < s.len() implies is_digit(#[trigger] s[i]) by {
            if i < p.len() {
                assert(s[i] == p[i]);
            }
        }
        assert(digits_value(s) == digits_value(s.drop_last()) * 10 + ((s.last() as u32) - (
        '0' as u32)) as nat);
        assert(digits_value(p) == n / 10);
        assert(digits_value(s) == (n / 10) * 10 + d);
        assert((n / 10) * 10 + n % 10 == n);
    }
}

/// Reading the decimal text of a number gives the number back: what `fmt_u64` writes,
/// `parse_u64` reads.
pub proof fn lemma_u64_text_round_trip(n: u64)
    ensures
        parsed_u64(dec_nat(n as nat)) == Some(n),
{
    lemma_dec_nat_digits(n as nat);
    let s = dec_nat(n as nat);
    assert(is_digit(s[0]));
    assert(unsigned_digits(s) == s);
}

} // verus!
