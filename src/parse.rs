//! Reading the mixer's query output: the volume percentage and the switch state
//! from the last non-empty line.
use vstd::prelude::*;
use crate::text::{is_ws, is_space, chars_of};
use crate::error::SoundError;

verus! {

/// Index just past the last non-whitespace character of `s`.
pub open spec fn text_end(s: Seq<char>) -> nat
    decreases s.len(),
{
    if s.len() == 0 {
        0
    } else if is_ws(s.last()) {
        text_end(s.drop_last())
    } else {
        s.len()
    }
}

/// Index just past the last `'\n'` among the first `end` characters of `s`, or 0.
pub open spec fn line_start(s: Seq<char>, end: nat) -> nat
    decreases end,
{
    if end == 0 || end > s.len() {
        0
    } else if s[end - 1] == '\n' {
        end
    } else {
        line_start(s, (end - 1) as nat)
    }
}

/// The last line of `s` once trailing whitespace is trimmed.
pub open spec fn last_line(s: Seq<char>) -> Seq<char> {
    s.subrange(line_start(s, text_end(s)) as int, text_end(s) as int)
}

/// The maximal runs of non-whitespace characters of `s`, in order.
pub open spec fn words(s: Seq<char>) -> Seq<Seq<char>>
    decreases s.len(),
{
    if s.len() == 0 {
        seq![]
    } else {
        let w = words(s.drop_last());
        let c = s.last();
        if is_ws(c) {
            w
        } else if s.len() >= 2 && !is_ws(s[s.len() - 2]) {
            w.drop_last().push(w.last().push(c))
        } else {
            w.push(seq![c])
        }
    }
}

pub open spec fn has_db(w: Seq<char>) -> bool {
    exists|i: int| 0 <= i && i + 1 < w.len() && #[trigger] w[i] == 'd' && w[i + 1] == 'B'
}

/// A bracketed word that is not a decibel reading.
pub open spec fn is_candidate(w: Seq<char>) -> bool {
    w.len() > 0 && w[0] == '[' && !has_db(w)
}

pub open spec fn is_decoration(c: char) -> bool {
    c == '[' || c == ']' || c == '%'
}

pub open spec fn strip_front(w: Seq<char>) -> Seq<char>
    decreases w.len(),
{
    if w.len() > 0 && is_decoration(w[0]) {
        strip_front(w.drop_first())
    } else {
        w
    }
}

pub open spec fn strip_back(w: Seq<char>) -> Seq<char>
    decreases w.len(),
{
    if w.len() > 0 && is_decoration(w.last()) {
        strip_back(w.drop_last())
    } else {
        w
    }
}

/// `w` without the brackets and percent signs at either end.
pub open spec fn strip(w: Seq<char>) -> Seq<char> {
    strip_back(strip_front(w))
}

/// The candidate words of `ws`, stripped, in order.
pub open spec fn candidates(ws: Seq<Seq<char>>) -> Seq<Seq<char>>
    decreases ws.len(),
{
    if ws.len() == 0 {
        seq![]
    } else if is_candidate(ws.last()) {
        candidates(ws.drop_last()).push(strip(ws.last()))
    } else {
        candidates(ws.drop_last())
    }
}

pub open spec fn is_digit(c: char) -> bool {
    '0' <= c && c <= '9'
}

pub open spec fn all_digits(d: Seq<char>) -> bool {
    forall|i: int| 0 <= i < d.len() ==> is_digit(#[trigger] d[i])
}

/// The number written by the decimal digits `d`.
pub open spec fn digits_value(d: Seq<char>) -> nat
    decreases d.len(),
{
    if d.len() == 0 {
        0
    } else {
        digits_value(d.drop_last()) * 10 + (d.last() as nat - '0' as nat) as nat
    }
}

/// `t` without one leading `+`.
pub open spec fn unsigned_part(t: Seq<char>) -> Seq<char> {
    if t.len() > 0 && t[0] == '+' {
        t.drop_first()
    } else {
        t
    }
}

/// An unsigned decimal number with an optional leading `+`, within `0..=100`.
pub open spec fn percent_value(t: Seq<char>) -> Option<u32> {
    let d = unsigned_part(t);
    if d.len() > 0 && all_digits(d) && digits_value(d) <= 100 {
        Some(digits_value(d) as u32)
    } else {
        None
    }
}

/// What a query output says: the volume, and whether the switch reads `off`.
pub open spec fn info_of(out: Seq<char>) -> Result<(u32, bool), SoundError> {
    let c = candidates(words(last_line(out)));
    if text_end(out) == 0 {
        Err(SoundError::NoOutput)
    } else if c.len() == 0 {
        Err(SoundError::NoVolume)
    } else {
        match percent_value(c[0]) {
            None => Err(SoundError::BadVolume),
            Some(v) => Ok((v, c.len() >= 2 && c[1] == "off"@)),
        }
    }
}

/// The contents of each vector of `v`.
pub open spec fn views(v: Seq<Vec<char>>) -> Seq<Seq<char>> {
    v.map_values(|w: Vec<char>| w@)
}

/// Index past the last non-whitespace character.
fn find_text_end(s: &Vec<char>) -> (r: usize)
    ensures
        r == text_end(s@),
        r <= s@.len(),
{
    let mut j: usize = s.len();
    assert(s@.subrange(0, s@.len() as int) =~= s@);
    while j > 0 && is_space(s[j - 1])
        invariant
            j <= s@.len(),
            text_end(s@) == text_end(s@.subrange(0, j as int)),
        decreases j,
    {
        assert(s@.subrange(0, j as int).drop_last() =~= s@.subrange(0, j - 1));
        j = j - 1;
    }
    j
}

/// Index past the last `'\n'` before `end`, or 0.
fn find_line_start(s: &Vec<char>, end: usize) -> (r: usize)
    requires
        end <= s@.len(),
    ensures
        r == line_start(s@, end as nat),
        r <= end,
{
    let mut j: usize = end;
    while j > 0 && s[j - 1] != '\n'
        invariant
            j <= end <= s@.len(),
            line_start(s@, end as nat) == line_start(s@, j as nat),
        decreases j,
    {
        j = j - 1;
    }
    j
}

/// The words of `s[a..b]`.
fn split_words(s: &Vec<char>, a: usize, b: usize) -> (r: Vec<Vec<char>>)
    requires
        a <= b <= s@.len(),
    ensures
        views(r@) == words(s@.subrange(a as int, b as int)),
{
    let mut done: Vec<Vec<char>> = Vec::new();
    let mut cur: Vec<char> = Vec::new();
    let mut in_word = false;
    let mut i: usize = a;
    assert(s@.subrange(a as int, a as int) =~= Seq::<char>::empty());
    assert(views(done@) =~= Seq::<Seq<char>>::empty());
    while i < b
        invariant
            a <= i <= b <= s@.len(),
            in_word == (i > a && !is_ws(s@[i - 1])),
            !in_word ==> cur@.len() == 0,
            words(s@.subrange(a as int, i as int)) == if in_word {
                views(done@).push(cur@)
            } else {
                views(done@)
            },
        decreases b - i,
    {
        let c = s[i];
        let ghost p = s@.subrange(a as int, i as int);
        let ghost q = s@.subrange(a as int, i + 1);
        assert(q.drop_last() =~= p);
        assert(q.last() == c);
        if is_space(c) {
            if in_word {
                let ghost old_done = views(done@);
                done.push(cur);
                assert(views(done@) =~= old_done.push(cur@));
                cur = Vec::new();
            }
            in_word = false;
        } else {
            let ghost old_cur = cur@;
            cur.push(c);
            if in_word {
                assert(q[q.len() - 2] == s@[i - 1]);
                assert(words(p).drop_last() =~= views(done@));
            } else {
                assert(cur@ =~= seq![c]);
            }
            in_word = true;
        }
        i = i + 1;
    }
    if in_word {
        let ghost old_done = views(done@);
        done.push(cur);
        assert(views(done@) =~= old_done.push(cur@));
    }
    done
}

fn contains_db(w: &Vec<char>) -> (r: bool)
    ensures
        r == has_db(w@),
{
    let mut i: usize = 0;
    while i < w.len() && i + 1 < w.len()
        invariant
            i <= w@.len(),
            forall|k: int| 0 <= k < i && k + 1 < w@.len() ==> !(#[trigger] w@[k] == 'd' && w@[k + 1] == 'B'),
        decreases w@.len() - i,
    {
        if w[i] == 'd' && w[i + 1] == 'B' {
            return true;
        }
        i = i + 1;
    }
    false
}

fn decoration(c: char) -> (r: bool)
    ensures
        r == is_decoration(c),
{
    c == '[' || c == ']' || c == '%'
}

/// `w` with its leading and trailing brackets and percent signs removed.
fn strip_word(w: &Vec<char>) -> (r: Vec<char>)
    ensures
        r@ == strip(w@),
{
    let n = w.len();
    let mut i: usize = 0;
    assert(w@.subrange(0, n as int) =~= w@);
    while i < n && decoration(w[i])
        invariant
            i <= n == w@.len(),
            strip_front(w@) == strip_front(w@.subrange(i as int, n as int)),
        decreases n - i,
    {
        assert(w@.subrange(i as int, n as int).drop_first() =~= w@.subrange(i + 1, n as int));
        i = i + 1;
    }
    let ghost f = w@.subrange(i as int, n as int);
    assert(strip_front(w@) == f);
    let mut j: usize = n;
    assert(f.subrange(0, f.len() as int) =~= f);
    while j > i && decoration(w[j - 1])
        invariant
            i <= j <= n == w@.len(),
            f == w@.subrange(i as int, n as int),
            strip_back(f) == strip_back(w@.subrange(i as int, j as int)),
        decreases j,
    {
        assert(w@.subrange(i as int, j as int).drop_last() =~= w@.subrange(i as int, j - 1));
        j = j - 1;
    }
    let mut r: Vec<char> = Vec::new();
    let mut k: usize = i;
    while k < j
        invariant
            i <= k <= j <= n == w@.len(),
            r@ == w@.subrange(i as int, k as int),
        decreases j - k,
    {
        r.push(w[k]);
        assert(r@ =~= w@.subrange(i as int, k + 1));
        k = k + 1;
    }
    r
}

/// The stripped candidate words among `ws`, in order.
fn select_candidates(ws: &Vec<Vec<char>>) -> (r: Vec<Vec<char>>)
    ensures
        views(r@) == candidates(views(ws@)),
{
    let mut r: Vec<Vec<char>> = Vec::new();
    let mut i: usize = 0;
    assert(views(ws@).subrange(0, 0) =~= Seq::<Seq<char>>::empty());
    assert(views(r@) =~= Seq::<Seq<char>>::empty());
    while i < ws.len()
        invariant
            i <= ws@.len(),
            views(r@) == candidates(views(ws@).subrange(0, i as int)),
        decreases ws@.len() - i,
    {
        let ghost p = views(ws@).subrange(0, i + 1);
        assert(p.drop_last() =~= views(ws@).subrange(0, i as int));
        assert(p.last() == ws@[i as int]@);
        let w = &ws[i];
        let lead = w.len() > 0 && w[0] == '[';
        if lead && !contains_db(w) {
            let t = strip_word(w);
            let ghost before = views(r@);
            r.push(t);
            assert(views(r@) =~= before.push(strip(ws@[i as int]@)));
        }
        i = i + 1;
    }
    assert(views(ws@).subrange(0, ws@.len() as int) =~= views(ws@));
    r
}

proof fn lemma_digits_prefix(d: Seq<char>, k: int)
    requires
        0 <= k <= d.len(),
    ensures
        digits_value(d.subrange(0, k)) <= digits_value(d),
    decreases d.len(),
{
    if k < d.len() {
        lemma_digits_prefix(d.drop_last(), k);
        assert(d.drop_last().subrange(0, k) =~= d.subrange(0, k));
    } else {
        assert(d.subrange(0, k) =~= d);
    }
}

/// The percentage that `t` spells, if it spells one in `0..=100`.
fn read_percent(t: &Vec<char>) -> (r: Option<u32>)
    ensures
        r == percent_value(t@),
{
    let n = t.len();
    let start: usize = if n > 0 && t[0] == '+' {
        1
    } else {
        0
    };
    let ghost d = unsigned_part(t@);
    assert(d =~= t@.subrange(start as int, n as int));
    if start == n {
        return None;
    }
    let mut acc: u32 = 0;
    let mut i: usize = start;
    assert(d.subrange(0, 0) =~= Seq::<char>::empty());
    while i < n
        invariant
            start <= i <= n == t@.len(),
            d == t@.subrange(start as int, n as int),
            d == unsigned_part(t@),
            acc <= 100,
            acc == digits_value(d.subrange(0, i - start)),
            all_digits(d.subrange(0, i - start)),
        decreases n - i,
    {
        let c = t[i];
        if !('0' <= c && c <= '9') {
            assert(!is_digit(d[i - start]));
            assert(!all_digits(d));
            return None;
        }
        let ghost p = d.subrange(0, i + 1 - start);
        assert(p.drop_last() =~= d.subrange(0, i - start));
        assert(p.last() == c);
        let v = acc * 10 + (c as u32 - '0' as u32);
        assert(v == digits_value(p));
        assert(all_digits(p)) by {
            assert forall|k: int| 0 <= k < p.len() implies is_digit(#[trigger] p[k]) by {
                if k < p.len() - 1 {
                    assert(p[k] == d.subrange(0, i - start)[k]);
                }
            }
        }
        if v > 100 {
            proof {
                lemma_digits_prefix(d, i + 1 - start);
            }

            return None;
        }
        acc = v;
        i = i + 1;
    }
    assert(d.subrange(0, n - start) =~= d);
    Some(acc)
}

/// Reads a query output: the volume, and whether the second reading is `off`.
pub fn parse_info(output: &str) -> (r: Result<(u32, bool), SoundError>)
    ensures
        r == info_of(output@),
{
    let s = chars_of(output);
    let end = find_text_end(&s);
    if end == 0 {
        return Err(SoundError::NoOutput);
    }
    let start = find_line_start(&s, end);
    let ws = split_words(&s, start, end);
    let c = select_candidates(&ws);
    if c.len() == 0 {
        return Err(SoundError::NoVolume);
    }
    match read_percent(&c[0]) {
        None => Err(SoundError::BadVolume),
        Some(v) => {
            let muted = c.len() >= 2 && is_off(&c[1]);
            Ok((v, muted))
        },
    }
}

fn is_off(w: &Vec<char>) -> (r: bool)
    ensures
        r == (w@ == "off"@),
{
    proof {
        reveal_strlit("off");
    }
    let r = w.len() == 3 && w[0] == 'o' && w[1] == 'f' && w[2] == 'f';
    if r {
        assert(w@ =~= "off"@);
    }
    r
}

} // verus!
