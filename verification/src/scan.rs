//! Reading tool output: lines, whitespace, tokens and UTF-8 lengths, as
//! the standard library's `str` methods define them.

use vstd::prelude::*;
use crate::text::{chars_of, contains, find_from, matches_at, occurs_at, starts_with, views};

verus! {

/// Unicode white space, the characters that `char::is_whitespace` accepts.
pub open spec fn is_ws(c: char) -> bool {
    let u = c as u32;
    (9 <= u && u <= 13) || u == 32 || u == 0x85 || u == 0xA0 || u == 0x1680 || (0x2000 <= u && u <= 0x200A)
        || u == 0x2028 || u == 0x2029 || u == 0x202F || u == 0x205F || u == 0x3000
}

/// Whether `c` is white space.
pub fn ws(c: char) -> (res: bool)
    ensures
        res == is_ws(c),
{
    let u = c as u32;
    (9 <= u && u <= 13) || u == 32 || u == 0x85 || u == 0xA0 || u == 0x1680 || (0x2000 <= u && u <= 0x200A)
        || u == 0x2028 || u == 0x2029 || u == 0x202F || u == 0x205F || u == 0x3000
}

/// `s` without its leading white space.
pub open spec fn trim_start(s: Seq<char>) -> Seq<char>
    decreases s.len(),
{
    if s.len() > 0 && is_ws(s[0]) {
        trim_start(s.drop_first())
    } else {
        s
    }
}

/// `s` without its trailing white space.
pub open spec fn trim_end(s: Seq<char>) -> Seq<char>
    decreases s.len(),
{
    if s.len() > 0 && is_ws(s.last()) {
        trim_end(s.drop_last())
    } else {
        s
    }
}

/// `s` without leading and trailing white space, as `str::trim` gives it.
pub open spec fn trim(s: Seq<char>) -> Seq<char> {
    trim_end(trim_start(s))
}

/// The index of the first character of `v` at or after `from` that is not
/// white space (the length when there is none).
fn skip_ws(v: &Vec<char>, from: usize) -> (res: usize)
    requires
        from <= v.len(),
    ensures
        from <= res <= v.len(),
        trim_start(v@.subrange(from as int, v.len() as int)) == v@.subrange(res as int, v.len() as int),
        res < v.len() ==> !is_ws(v@[res as int]),
{
    let mut i = from;
    while i < v.len() && ws(v[i])
        invariant
            from <= i <= v.len(),
            trim_start(v@.subrange(from as int, v.len() as int)) == trim_start(v@.subrange(i as int, v.len() as int)),
        decreases v.len() - i,
    {
        assert(v@.subrange(i as int, v.len() as int).drop_first() =~= v@.subrange(i + 1, v.len() as int));
        i = i + 1;
    }
    i
}

/// `s` without leading and trailing white space.
pub fn trim_str(s: &str) -> (res: String)
    ensures
        res@ == trim(s@),
{
    let v = chars_of(s);
    let n = v.len();
    let lo = skip_ws(&v, 0);
    assert(v@.subrange(0, n as int) =~= s@);
    let ghost t = v@.subrange(lo as int, n as int);
    let mut hi = n;
    while hi > lo && ws(v[hi - 1])
        invariant
            lo <= hi <= n,
            n == v.len(),
            t == v@.subrange(lo as int, n as int),
            trim_end(t) == trim_end(v@.subrange(lo as int, hi as int)),
        decreases hi,
    {
        assert(v@.subrange(lo as int, hi as int).drop_last() =~= v@.subrange(lo as int, hi - 1));
        hi = hi - 1;
    }
    String::from_str(s.substring_char(lo, hi))
}

/// A line without the carriage return that ended it.
pub open spec fn strip_cr(line: Seq<char>) -> Seq<char> {
    if line.len() > 0 && line.last() == '\r' {
        line.drop_last()
    } else {
        line
    }
}

/// Reading `s` line by line: the lines completed so far, each without its
/// line ending, and the line being read.
pub open spec fn lines_acc(s: Seq<char>) -> (Seq<Seq<char>>, Seq<char>)
    decreases s.len(),
{
    if s.len() == 0 {
        (seq![], seq![])
    } else {
        let (done, cur) = lines_acc(s.drop_last());
        if s.last() == '\n' {
            (done.push(strip_cr(cur)), seq![])
        } else {
            (done, cur.push(s.last()))
        }
    }
}

/// The lines of `s` as `str::lines` gives them: split at `\n` or `\r\n`,
/// a final line ending being optional.
pub open spec fn lines(s: Seq<char>) -> Seq<Seq<char>> {
    let (done, cur) = lines_acc(s);
    if cur.len() == 0 {
        done
    } else {
        done.push(cur)
    }
}

/// The lines of `s`.
pub fn split_lines(s: &str) -> (res: Vec<String>)
    ensures
        views(res@) == lines(s@),
{
    let v = chars_of(s);
    let n = v.len();
    let mut out: Vec<String> = Vec::new();
    let mut start: usize = 0;
    let mut i: usize = 0;
    while i < n
        invariant
            n == v.len(),
            v@ == s@,
            start <= i <= n,
            lines_acc(s@.take(i as int)) == (views(out@), s@.subrange(start as int, i as int)),
        decreases n - i,
    {
        assert(s@.take(i + 1).drop_last() =~= s@.take(i as int));
        assert(s@.take(i + 1).last() == v@[i as int]);
        if v[i] == '\n' {
            let mut end = i;
            if end > start && v[end - 1] == '\r' {
                end = end - 1;
            }
            assert(s@.subrange(start as int, end as int) =~= strip_cr(s@.subrange(start as int, i as int)));
            let line = String::from_str(s.substring_char(start, end));
            let ghost before = views(out@);
            out.push(line);
            assert(views(out@) =~= before.push(strip_cr(s@.subrange(start as int, i as int))));
            start = i + 1;
            assert(s@.subrange(start as int, i + 1) =~= Seq::<char>::empty());
        } else {
            assert(s@.subrange(start as int, i + 1) =~= s@.subrange(start as int, i as int).push(v@[i as int]));
        }
        i = i + 1;
    }
    assert(s@.take(n as int) =~= s@);
    if start < n {
        let ghost before = views(out@);
        out.push(String::from_str(s.substring_char(start, n)));
        assert(views(out@) =~= before.push(s@.subrange(start as int, n as int)));
    }
    out
}

/// The number of bytes that UTF-8 takes for `c`.
pub open spec fn char_utf8_len(c: char) -> nat {
    let u = c as u32;
    if u < 0x80 {
        1
    } else if u < 0x800 {
        2
    } else if u < 0x10000 {
        3
    } else {
        4
    }
}

/// The number of bytes that UTF-8 takes for `s`: the length `str::len` reports.
pub open spec fn utf8_len(s: Seq<char>) -> nat
    decreases s.len(),
{
    if s.len() == 0 {
        0
    } else {
        utf8_len(s.drop_last()) + char_utf8_len(s.last())
    }
}

proof fn lemma_utf8_len_prefix(s: Seq<char>, k: int)
    requires
        0 <= k <= s.len(),
    ensures
        utf8_len(s.take(k)) <= utf8_len(s),
    decreases s.len() - k,
{
    if k < s.len() {
        lemma_utf8_len_prefix(s, k + 1);
        assert(s.take(k + 1).drop_last() =~= s.take(k));
    } else {
        assert(s.take(k) =~= s);
    }
}

/// The UTF-8 length of `v` from index `from` on, or `cap + 1` when it is
/// larger than `cap`.
fn utf8_len_upto(v: &Vec<char>, from: usize, cap: u64) -> (res: u64)
    requires
        from <= v.len(),
        cap < 0xFFFF_FFFF,
    ensures
        res <= cap ==> res == utf8_len(v@.subrange(from as int, v.len() as int)),
        res > cap ==> res == cap + 1 && utf8_len(v@.subrange(from as int, v.len() as int)) > cap,
{
    let ghost t = v@.subrange(from as int, v.len() as int);
    let mut total: u64 = 0;
    let mut i = from;
    while i < v.len()
        invariant
            from <= i <= v.len(),
            t == v@.subrange(from as int, v.len() as int),
            cap < 0xFFFF_FFFF,
            total <= cap,
            total == utf8_len(v@.subrange(from as int, i as int)),
        decreases v.len() - i,
    {
        let u = v[i] as u32;
        let w: u64 = if u < 0x80 { 1 } else if u < 0x800 { 2 } else if u < 0x10000 { 3 } else { 4 };
        assert(v@.subrange(from as int, i + 1).drop_last() =~= v@.subrange(from as int, i as int));
        if total + w > cap {
            proof {
                assert(t.take(i + 1 - from) =~= v@.subrange(from as int, i + 1));
                lemma_utf8_len_prefix(t, i + 1 - from);
            }
            return cap + 1;
        }
        total = total + w;
        i = i + 1;
    }
    total
}

/// The text of `s` up to its first white space.
pub open spec fn token_head(s: Seq<char>) -> Seq<char>
    decreases s.len(),
{
    if s.len() == 0 || is_ws(s[0]) {
        seq![]
    } else {
        seq![s[0]] + token_head(s.drop_first())
    }
}

/// The first white-space separated token of `s`, as `split_whitespace`
/// gives it first (empty when there is none).
pub open spec fn first_token(s: Seq<char>) -> Seq<char> {
    token_head(trim_start(s))
}

/// The text of `s` after its last white space.
pub open spec fn token_tail(s: Seq<char>) -> Seq<char>
    decreases s.len(),
{
    if s.len() == 0 || is_ws(s.last()) {
        seq![]
    } else {
        token_tail(s.drop_last()).push(s.last())
    }
}

/// The last white-space separated token of `s` (empty when there is none).
pub open spec fn last_token(s: Seq<char>) -> Seq<char> {
    token_tail(trim_end(s))
}

/// The first white-space separated token of `s`.
pub fn first_token_of(s: &str) -> (res: String)
    ensures
        res@ == first_token(s@),
{
    let v = chars_of(s);
    let n = v.len();
    let lo = skip_ws(&v, 0);
    assert(v@.subrange(0, n as int) =~= s@);
    let mut hi = lo;
    while hi < n && !ws(v[hi])
        invariant
            lo <= hi <= n,
            n == v.len(),
            token_head(v@.subrange(lo as int, n as int)) == v@.subrange(lo as int, hi as int) + token_head(
                v@.subrange(hi as int, n as int),
            ),
        decreases n - hi,
    {
        assert(v@.subrange(hi as int, n as int).drop_first() =~= v@.subrange(hi + 1, n as int));
        assert(v@.subrange(lo as int, hi + 1) =~= v@.subrange(lo as int, hi as int) + seq![v@[hi as int]]);
        hi = hi + 1;
    }
    assert(v@.subrange(lo as int, hi as int) + token_head(v@.subrange(hi as int, n as int)) =~= v@.subrange(
        lo as int,
        hi as int,
    ));
    String::from_str(s.substring_char(lo, hi))
}

/// The last white-space separated token of `s`.
pub fn last_token_of(s: &str) -> (res: String)
    ensures
        res@ == last_token(s@),
{
    let v = chars_of(s);
    let n = v.len();
    assert(v@.subrange(0, n as int) =~= s@);
    let mut hi = n;
    while hi > 0 && ws(v[hi - 1])
        invariant
            hi <= n,
            n == v.len(),
            trim_end(s@) == trim_end(v@.subrange(0, hi as int)),
        decreases hi,
    {
        assert(v@.subrange(0, hi as int).drop_last() =~= v@.subrange(0, hi - 1));
        hi = hi - 1;
    }
    let mut lo = hi;
    while lo > 0 && !ws(v[lo - 1])
        invariant
            lo <= hi <= n,
            n == v.len(),
            hi == 0 || !is_ws(v@[hi - 1]),
            token_tail(v@.subrange(0, hi as int)) == token_tail(v@.subrange(0, lo as int)) + v@.subrange(
                lo as int,
                hi as int,
            ),
        decreases lo,
    {
        assert(v@.subrange(0, lo as int).drop_last() =~= v@.subrange(0, lo - 1));
        assert(v@.subrange(lo - 1, hi as int) =~= seq![v@[lo - 1]] + v@.subrange(lo as int, hi as int));
        assert(token_tail(v@.subrange(0, lo - 1)).push(v@[lo - 1]) + v@.subrange(lo as int, hi as int)
            =~= token_tail(v@.subrange(0, lo - 1)) + v@.subrange(lo - 1, hi as int));
        lo = lo - 1;
    }
    assert(token_tail(v@.subrange(0, lo as int)) + v@.subrange(lo as int, hi as int) =~= v@.subrange(lo as int, hi as int));
    String::from_str(s.substring_char(lo, hi))
}

/// Reading `s` piece by piece, split at `sep`: the pieces completed so far
/// and the piece being read.
pub open spec fn split_acc(s: Seq<char>, sep: char) -> (Seq<Seq<char>>, Seq<char>)
    decreases s.len(),
{
    if s.len() == 0 {
        (seq![], seq![])
    } else {
        let (done, cur) = split_acc(s.drop_last(), sep);
        if s.last() == sep {
            (done.push(cur), seq![])
        } else {
            (done, cur.push(s.last()))
        }
    }
}

/// The pieces of `s` between occurrences of `sep`, as `str::split` gives them.
pub open spec fn split_pieces(s: Seq<char>, sep: char) -> Seq<Seq<char>> {
    let (done, cur) = split_acc(s, sep);
    done.push(cur)
}

/// The piece of `s` at index `n` when split at `sep`, if there are that many.
pub fn nth_piece(s: &str, sep: char, n: usize) -> (res: Option<String>)
    ensures
        match res {
            Some(p) => n < split_pieces(s@, sep).len() && p@ == split_pieces(s@, sep)[n as int],
            None => n >= split_pieces(s@, sep).len(),
        },
{
    let v = chars_of(s);
    let len = v.len();
    let mut count: usize = 0;
    let mut start: usize = 0;
    let mut i: usize = 0;
    while i < len
        invariant
            len == v.len(),
            v@ == s@,
            start <= i <= len,
            count <= n,
            split_acc(s@.take(i as int), sep).0.len() == count,
            split_acc(s@.take(i as int), sep).1 == s@.subrange(start as int, i as int),
        decreases len - i,
    {
        assert(s@.take(i + 1).drop_last() =~= s@.take(i as int));
        if v[i] == sep {
            if count == n {
                let piece = String::from_str(s.substring_char(start, i));
                proof {
                    lemma_split_prefix(s@, sep, i + 1);
                    let d1 = split_acc(s@.take(i + 1), sep).0;
                    assert(d1[n as int] == piece@);
                    assert(split_acc(s@, sep).0[n as int] == d1[n as int]);
                }
                return Some(piece);
            }
            count = count + 1;
            start = i + 1;
            assert(s@.subrange(start as int, i + 1) =~= Seq::<char>::empty());
        } else {
            assert(s@.subrange(start as int, i + 1) =~= s@.subrange(start as int, i as int).push(v@[i as int]));
        }
        i = i + 1;
    }
    assert(s@.take(len as int) =~= s@);
    if count == n {
        let piece = String::from_str(s.substring_char(start, len));
        assert(split_pieces(s@, sep)[n as int] == piece@);
        return Some(piece);
    }
    None
}

proof fn lemma_split_prefix(s: Seq<char>, sep: char, k: int)
    requires
        0 <= k <= s.len(),
    ensures
        split_acc(s, sep).0.len() >= split_acc(s.take(k), sep).0.len(),
        forall|j: int|
            0 <= j < split_acc(s.take(k), sep).0.len() ==> split_acc(s, sep).0[j] == #[trigger] split_acc(s.take(k), sep).0[j],
    decreases s.len() - k,
{
    if k < s.len() {
        lemma_split_prefix(s, sep, k + 1);
        assert(s.take(k + 1).drop_last() =~= s.take(k));
        let d0 = split_acc(s.take(k), sep).0;
        let d1 = split_acc(s.take(k + 1), sep).0;
        assert(d1.len() >= d0.len());
        assert forall|j: int| 0 <= j < d0.len() implies split_acc(s, sep).0[j] == #[trigger] d0[j] by {
            assert(d1[j] == d0[j]);
        }
    } else {
        assert(s.take(k) =~= s);
    }
}


/// The first line of `ls` that satisfies `p`.
pub open spec fn first_match(ls: Seq<Seq<char>>, p: spec_fn(Seq<char>) -> bool) -> Option<Seq<char>>
    decreases ls.len(),
{
    if ls.len() == 0 {
        None
    } else if p(ls[0]) {
        Some(ls[0])
    } else {
        first_match(ls.drop_first(), p)
    }
}

proof fn lemma_first_match(ls: Seq<Seq<char>>, p: spec_fn(Seq<char>) -> bool, i: int)
    requires
        0 <= i <= ls.len(),
        forall|k: int| 0 <= k < i ==> !p(#[trigger] ls[k]),
    ensures
        i < ls.len() && p(ls[i]) ==> first_match(ls, p) == Some(ls[i]),
        i == ls.len() ==> first_match(ls, p) is None,
    decreases i,
{
    if i > 0 {
        let rest = ls.drop_first();
        assert forall|k: int| 0 <= k < i - 1 implies !p(#[trigger] rest[k]) by {
            assert(rest[k] == ls[k + 1]);
        }
        assert(!p(ls[0]));
        lemma_first_match(rest, p, i - 1);
        if i < ls.len() {
            assert(rest[i - 1] == ls[i]);
        }
    }
}

/// The index of the first occurrence of `t` in `s` (meaningful when `t`
/// occurs in `s`).
pub open spec fn first_occurrence(s: Seq<char>, t: Seq<char>) -> int {
    choose|i: int| occurs_at(s, t, i) && forall|j: int| 0 <= j < i ==> !occurs_at(s, t, j)
}

/// The index of the first occurrence of `t` in `s`, if any.
pub fn find_first(s: &str, t: &str) -> (res: Option<usize>)
    ensures
        match res {
            Some(i) => contains(s@, t@) && i == first_occurrence(s@, t@) && i <= s@.len(),
            None => !contains(s@, t@),
        },
{
    let sv = chars_of(s);
    let tv = chars_of(t);
    match find_from(&sv, &tv, 0) {
        Some(i) => {
            proof {
                assert(occurs_at(s@, t@, i as int) && forall|j: int| 0 <= j < i ==> !occurs_at(s@, t@, j));
                let c = first_occurrence(s@, t@);
                if c < i {
                    assert(!occurs_at(s@, t@, c));
                }
                if i < c {
                    assert(!occurs_at(s@, t@, i as int));
                }
            }
            Some(i)
        },
        None => {
            proof {
                if contains(s@, t@) {
                    let w = choose|i: int| occurs_at(s@, t@, i);
                    assert(occurs_at(s@, t@, w));
                }
            }
            None
        },
    }
}

/// A line of `starkli declare` output that gives the class hash: trimmed,
/// it starts with `0x` and is at least 60 bytes long.
pub open spec fn is_class_hash_line(l: Seq<char>) -> bool {
    starts_with(trim(l), "0x"@) && utf8_len(trim(l)) >= 60
}

/// The class hash in `starkli declare` output: the first such line, trimmed.
pub open spec fn class_hash_in(out: Seq<char>) -> Option<Seq<char>> {
    match first_match(lines(out), |l: Seq<char>| is_class_hash_line(l)) {
        Some(l) => Some(trim(l)),
        None => None,
    }
}

fn class_hash_line(l: &str) -> (res: Option<String>)
    ensures
        match res {
            Some(t) => is_class_hash_line(l@) && t@ == trim(l@),
            None => !is_class_hash_line(l@),
        },
{
    let t = trim_str(l);
    let prefixed = crate::text::str_starts_with(t.as_str(), "0x");
    if !prefixed {
        return None;
    }
    let v = chars_of(t.as_str());
    let n = utf8_len_upto(&v, 0, 59);
    assert(v@.subrange(0, v.len() as int) =~= trim(l@));
    if n > 59 {
        Some(t)
    } else {
        None
    }
}

/// The class hash in `starkli declare` output.
#[verifier::spinoff_prover]
#[verifier::rlimit(40)]
pub fn extract_class_hash(stdout: &str) -> (res: Option<String>)
    ensures
        match res {
            Some(h) => class_hash_in(stdout@) == Some(h@),
            None => class_hash_in(stdout@) is None,
        },
{
    let ls = split_lines(stdout);
    let ghost lv = views(ls@);
    let mut i: usize = 0;
    while i < ls.len()
        invariant
            i <= ls.len(),
            lv == views(ls@),
            lv == lines(stdout@),
            forall|k: int| 0 <= k < i ==> !(|l: Seq<char>| is_class_hash_line(l))(#[trigger] lv[k]),
        decreases ls.len() - i,
    {
        match class_hash_line(ls[i].as_str()) {
            Some(t) => {
                proof {
                    lemma_first_match(lv, |l: Seq<char>| is_class_hash_line(l), i as int);
                }
                return Some(t);
            },
            None => {},
        }
        i = i + 1;
    }
    proof {
        lemma_first_match(lv, |l: Seq<char>| is_class_hash_line(l), i as int);
    }
    None
}

/// A line of `starkli deploy` output that gives the contract address:
/// from its first `0x` on, it is at least 66 bytes long.
pub open spec fn is_address_line(l: Seq<char>) -> bool {
    contains(l, "0x"@) && utf8_len(l.skip(first_occurrence(l, "0x"@))) >= 66
}

/// The contract address in `starkli deploy` output: in the first such
/// line, the first token from its first `0x` on.
pub open spec fn address_in(out: Seq<char>) -> Option<Seq<char>> {
    match first_match(lines(out), |l: Seq<char>| is_address_line(l)) {
        Some(l) => Some(first_token(l.skip(first_occurrence(l, "0x"@)))),
        None => None,
    }
}

fn address_line(l: &str) -> (res: Option<String>)
    ensures
        match res {
            Some(a) => is_address_line(l@) && a@ == first_token(l@.skip(first_occurrence(l@, "0x"@))),
            None => !is_address_line(l@),
        },
{
    match find_first(l, "0x") {
        None => None,
        Some(start) => {
            let v = chars_of(l);
            let n = utf8_len_upto(&v, start, 65);
            assert(v@.subrange(start as int, v.len() as int) =~= l@.skip(start as int));
            if n > 65 {
                let rest = l.substring_char(start, v.len());
                assert(rest@ =~= l@.skip(start as int));
                Some(first_token_of(rest))
            } else {
                None
            }
        },
    }
}

/// The contract address in `starkli deploy` output.
#[verifier::spinoff_prover]
#[verifier::rlimit(40)]
pub fn extract_contract_address(stdout: &str) -> (res: Option<String>)
    ensures
        match res {
            Some(a) => address_in(stdout@) == Some(a@),
            None => address_in(stdout@) is None,
        },
{
    let ls = split_lines(stdout);
    let ghost lv = views(ls@);
    let mut i: usize = 0;
    while i < ls.len()
        invariant
            i <= ls.len(),
            lv == views(ls@),
            lv == lines(stdout@),
            forall|k: int| 0 <= k < i ==> !(|l: Seq<char>| is_address_line(l))(#[trigger] lv[k]),
        decreases ls.len() - i,
    {
        match address_line(ls[i].as_str()) {
            Some(a) => {
                proof {
                    lemma_first_match(lv, |l: Seq<char>| is_address_line(l), i as int);
                }
                return Some(a);
            },
            None => {},
        }
        i = i + 1;
    }
    proof {
        lemma_first_match(lv, |l: Seq<char>| is_address_line(l), i as int);
    }
    None
}

/// A line of `forge create` output that announces the deployment.
pub open spec fn is_deployed_line(l: Seq<char>) -> bool {
    contains(l, "Deployed to:"@)
}

/// The deployed address in `forge create` output: the last token of the
/// first line that announces the deployment.
pub open spec fn deployed_address_in(out: Seq<char>) -> Option<Seq<char>> {
    match first_match(lines(out), |l: Seq<char>| is_deployed_line(l)) {
        Some(l) => Some(last_token(l)),
        None => None,
    }
}

/// The deployed address in `forge create` output.
#[verifier::spinoff_prover]
#[verifier::rlimit(40)]
pub fn extract_deployed_address(stdout: &str) -> (res: Option<String>)
    ensures
        match res {
            Some(a) => deployed_address_in(stdout@) == Some(a@),
            None => deployed_address_in(stdout@) is None,
        },
{
    let ls = split_lines(stdout);
    let ghost lv = views(ls@);
    let mut i: usize = 0;
    while i < ls.len()
        invariant
            i <= ls.len(),
            lv == views(ls@),
            lv == lines(stdout@),
            forall|k: int| 0 <= k < i ==> !(|l: Seq<char>| is_deployed_line(l))(#[trigger] lv[k]),
        decreases ls.len() - i,
    {
        if crate::text::str_contains(ls[i].as_str(), "Deployed to:") {
            proof {
                lemma_first_match(lv, |l: Seq<char>| is_deployed_line(l), i as int);
            }
            return Some(last_token_of(ls[i].as_str()));
        }
        i = i + 1;
    }
    proof {
        lemma_first_match(lv, |l: Seq<char>| is_deployed_line(l), i as int);
    }
    None
}

/// A line of `cast send` output that mentions the transaction hash.
pub open spec fn is_receipt_line(l: Seq<char>) -> bool {
    contains(l, "transactionHash"@)
}

/// A line of `cast send` output that is a bare transaction hash: it starts
/// with `0x` and is 66 bytes long.
pub open spec fn is_hash_line(l: Seq<char>) -> bool {
    starts_with(l, "0x"@) && utf8_len(l) == 66
}

/// The transaction hash in `cast send` output: the fourth `"`-separated
/// piece of the first line that mentions it, or else the first bare hash
/// line, trimmed.
pub open spec fn tx_hash_in(out: Seq<char>) -> Option<Seq<char>> {
    let quoted = match first_match(lines(out), |l: Seq<char>| is_receipt_line(l)) {
        Some(l) => if split_pieces(l, '"').len() > 3 {
            Some(split_pieces(l, '"')[3])
        } else {
            None
        },
        None => None,
    };
    match quoted {
        Some(h) => Some(h),
        None => match first_match(lines(out), |l: Seq<char>| is_hash_line(l)) {
            Some(l) => Some(trim(l)),
            None => None,
        },
    }
}

#[verifier::spinoff_prover]
#[verifier::rlimit(40)]
fn quoted_hash(ls: &Vec<String>) -> (res: Option<String>)
    ensures
        match res {
            Some(h) => match first_match(views(ls@), |l: Seq<char>| is_receipt_line(l)) {
                Some(l) => split_pieces(l, '"').len() > 3 && h@ == split_pieces(l, '"')[3],
                None => false,
            },
            None => match first_match(views(ls@), |l: Seq<char>| is_receipt_line(l)) {
                Some(l) => split_pieces(l, '"').len() <= 3,
                None => true,
            },
        },
{
    let ghost lv = views(ls@);
    let mut i: usize = 0;
    while i < ls.len()
        invariant
            i <= ls.len(),
            lv == views(ls@),
            forall|k: int| 0 <= k < i ==> !(|l: Seq<char>| is_receipt_line(l))(#[trigger] lv[k]),
        decreases ls.len() - i,
    {
        if crate::text::str_contains(ls[i].as_str(), "transactionHash") {
            proof {
                lemma_first_match(lv, |l: Seq<char>| is_receipt_line(l), i as int);
            }
            return nth_piece(ls[i].as_str(), '"', 3);
        }
        i = i + 1;
    }
    proof {
        lemma_first_match(lv, |l: Seq<char>| is_receipt_line(l), i as int);
    }
    None
}

#[verifier::spinoff_prover]
#[verifier::rlimit(40)]
fn bare_hash(ls: &Vec<String>) -> (res: Option<String>)
    ensures
        match res {
            Some(h) => match first_match(views(ls@), |l: Seq<char>| is_hash_line(l)) {
                Some(l) => h@ == trim(l),
                None => false,
            },
            None => first_match(views(ls@), |l: Seq<char>| is_hash_line(l)) is None,
        },
{
    let ghost lv = views(ls@);
    let mut i: usize = 0;
    while i < ls.len()
        invariant
            i <= ls.len(),
            lv == views(ls@),
            forall|k: int| 0 <= k < i ==> !(|l: Seq<char>| is_hash_line(l))(#[trigger] lv[k]),
        decreases ls.len() - i,
    {
        let line = ls[i].as_str();
        if crate::text::str_starts_with(line, "0x") {
            let v = chars_of(line);
            let n = utf8_len_upto(&v, 0, 66);
            assert(v@.subrange(0, v.len() as int) =~= lv[i as int]);
            if n == 66 {
                proof {
                    lemma_first_match(lv, |l: Seq<char>| is_hash_line(l), i as int);
                }
                return Some(trim_str(line));
            }
        }
        i = i + 1;
    }
    proof {
        lemma_first_match(lv, |l: Seq<char>| is_hash_line(l), i as int);
    }
    None
}

/// The transaction hash in `cast send` output.
pub fn extract_tx_hash(stdout: &str) -> (res: Option<String>)
    ensures
        match res {
            Some(h) => tx_hash_in(stdout@) == Some(h@),
            None => tx_hash_in(stdout@) is None,
        },
{
    let ls = split_lines(stdout);
    match quoted_hash(&ls) {
        Some(h) => Some(h),
        None => bare_hash(&ls),
    }
}


/// `s` holds no white space.
pub open spec fn no_ws(s: Seq<char>) -> bool {
    forall|i: int| 0 <= i < s.len() ==> !is_ws(#[trigger] s[i])
}

proof fn lemma_trim_start_first(s: Seq<char>)
    ensures
        trim_start(s).len() > 0 ==> !is_ws(trim_start(s)[0]),
        trim_start(s).len() <= s.len(),
        trim_start(s) == s.skip(s.len() - trim_start(s).len()),
    decreases s.len(),
{
    if s.len() > 0 && is_ws(s[0]) {
        lemma_trim_start_first(s.drop_first());
        assert(s.drop_first().skip(s.drop_first().len() - trim_start(s.drop_first()).len()) =~= s.skip(
            s.len() - trim_start(s).len(),
        ));
    } else {
        assert(s.skip(0) =~= s);
    }
}

proof fn lemma_trim_end_prefix(s: Seq<char>)
    ensures
        trim_end(s).len() > 0 ==> !is_ws(trim_end(s).last()),
        trim_end(s) == s.take(trim_end(s).len() as int),
        trim_end(s).len() <= s.len(),
    decreases s.len(),
{
    if s.len() > 0 && is_ws(s.last()) {
        lemma_trim_end_prefix(s.drop_last());
        assert(s.drop_last().take(trim_end(s.drop_last()).len() as int) =~= s.take(trim_end(s).len() as int));
    } else {
        assert(s.take(s.len() as int) =~= s);
    }
}

proof fn lemma_trim_fixed(s: Seq<char>)
    requires
        s.len() > 0 ==> !is_ws(s[0]) && !is_ws(s.last()),
    ensures
        trim(s) == s,
{
    assert(trim_start(s) == s);
    assert(trim_end(s) == s);
}

/// Trimming twice is trimming once.
pub proof fn lemma_trim_idempotent(s: Seq<char>)
    ensures
        trim(trim(s)) == trim(s),
{
    let a = trim_start(s);
    lemma_trim_start_first(s);
    lemma_trim_end_prefix(a);
    let t = trim_end(a);
    if t.len() > 0 {
        assert(t[0] == a[0]);
    }
    lemma_trim_fixed(t);
}

proof fn lemma_token_head_no_ws(s: Seq<char>)
    ensures
        no_ws(token_head(s)),
        token_head(s).len() <= s.len(),
        token_head(s) == s.take(token_head(s).len() as int),
    decreases s.len(),
{
    if s.len() == 0 || is_ws(s[0]) {
    } else {
        lemma_token_head_no_ws(s.drop_first());
        let t = token_head(s.drop_first());
        assert forall|i: int| 0 <= i < token_head(s).len() implies !is_ws(#[trigger] token_head(s)[i]) by {
            if i > 0 {
                assert(token_head(s)[i] == t[i - 1]);
            }
        }
        assert(seq![s[0]] + s.drop_first().take(t.len() as int) =~= s.take(t.len() as int + 1));
    }
}

/// A token holds no white space, so trimming leaves it as it is.
pub proof fn lemma_first_token_trimmed(s: Seq<char>)
    ensures
        no_ws(first_token(s)),
        trim(first_token(s)) == first_token(s),
{
    lemma_token_head_no_ws(trim_start(s));
    let t = first_token(s);
    if t.len() > 0 {
        assert(!is_ws(t[0]));
        assert(!is_ws(t[t.len() - 1]));
    }
    lemma_trim_fixed(t);
}

} // verus!
