//! Character-level helpers shared by the parsers, with the spec functions
//! that describe them: whitespace as `char::is_whitespace` defines it,
//! trimming, whitespace-separated tokens, line splitting on `\r\n`, and
//! ASCII lower-casing.

use vstd::prelude::*;

verus! {

/// Copies the characters of a string slice into a vector.
pub(crate) fn chars_of(s: &str) -> (r: Vec<char>)
    ensures
        r@ == s@,
{
    broadcast use vstd::string::axiom_spec_iter;
    let mut v: Vec<char> = Vec::new();
    for c in it: s.chars()
        invariant
            v@ == s@.take(it.index()),
            it.seq() == s@,
    {
        v.push(c);
        assert(s@.take(it.index() + 1) == s@.take(it.index()).push(c));
    }
    assert(v@ =~= s@);
    v
}

/// Builds a `String` from a vector of characters.
/// Trusted: `String::from_iter` over the characters; the string holds exactly
/// those characters, in order.
#[verifier::external_body]
pub(crate) fn string_of(v: &Vec<char>) -> (r: String)
    ensures
        r@ == v@,
{
    v.iter().collect()
}

/// The Unicode `White_Space` property, which `char::is_whitespace`,
/// `str::trim` and `str::split_whitespace` use.
pub open spec fn is_ws(c: char) -> bool {
    let u = c as u32;
    ||| 0x9 <= u <= 0xd
    ||| u == 0x20
    ||| u == 0x85
    ||| u == 0xa0
    ||| u == 0x1680
    ||| 0x2000 <= u <= 0x200a
    ||| u == 0x2028
    ||| u == 0x2029
    ||| u == 0x202f
    ||| u == 0x205f
    ||| u == 0x3000
}

pub open spec fn ws_pred() -> spec_fn(char) -> bool {
    |c: char| is_ws(c)
}

pub open spec fn non_ws_pred() -> spec_fn(char) -> bool {
    |c: char| !is_ws(c)
}

pub open spec fn char_pred(x: char) -> spec_fn(char) -> bool {
    |c: char| c == x
}

pub open spec fn not_char_pred(x: char) -> spec_fn(char) -> bool {
    |c: char| c != x
}

/// Length of the longest prefix of `t` whose characters all satisfy `p`.
pub open spec fn prefix_while(t: Seq<char>, p: spec_fn(char) -> bool) -> nat
    decreases t.len(),
{
    if t.len() > 0 && p(t[0]) {
        1 + prefix_while(t.drop_first(), p)
    } else {
        0
    }
}

/// Length of the longest suffix of `t` whose characters all satisfy `p`.
pub open spec fn suffix_while(t: Seq<char>, p: spec_fn(char) -> bool) -> nat
    decreases t.len(),
{
    if t.len() > 0 && p(t.last()) {
        1 + suffix_while(t.drop_last(), p)
    } else {
        0
    }
}

/// `t` with leading whitespace removed (`str::trim_start`).
pub open spec fn trim_start(t: Seq<char>) -> Seq<char> {
    t.skip(prefix_while(t, ws_pred()) as int)
}

/// `t` with leading and trailing whitespace removed (`str::trim`).
pub open spec fn trim(t: Seq<char>) -> Seq<char> {
    let u = trim_start(t);
    u.take(u.len() - suffix_while(u, ws_pred()))
}

/// The first whitespace-separated token of `t`, if any.
pub open spec fn first_token(t: Seq<char>) -> Option<Seq<char>> {
    let u = trim_start(t);
    if u.len() == 0 {
        None
    } else {
        Some(u.take(prefix_while(u, non_ws_pred()) as int))
    }
}

/// What follows the first whitespace-separated token of `t`.
pub open spec fn after_first_token(t: Seq<char>) -> Seq<char> {
    let u = trim_start(t);
    u.skip(prefix_while(u, non_ws_pred()) as int)
}

/// The second whitespace-separated token of `t`, if any.
pub open spec fn second_token(t: Seq<char>) -> Option<Seq<char>> {
    first_token(after_first_token(t))
}

/// `str::split_once` on a single character.
pub open spec fn split_once(t: Seq<char>, x: char) -> Option<(Seq<char>, Seq<char>)> {
    let k = prefix_while(t, not_char_pred(x));
    if k == t.len() {
        None
    } else {
        Some((t.take(k as int), t.skip(k as int + 1)))
    }
}

/// `char::to_ascii_lowercase`.
pub open spec fn ascii_lower(c: char) -> char {
    if 'A' <= c && c <= 'Z' {
        ((c as u32) + 32) as char
    } else {
        c
    }
}

/// `str::to_ascii_lowercase`.
pub open spec fn ascii_lower_seq(t: Seq<char>) -> Seq<char> {
    t.map_values(|c: char| ascii_lower(c))
}

/// `true` when `t[i..i + 2]` is `\r\n`.
pub open spec fn crlf_at(t: Seq<char>, i: int) -> bool {
    &&& 0 <= i
    &&& i + 1 < t.len()
    &&& t[i] == '\r'
    &&& t[i + 1] == '\n'
}

/// Index of the first `\r\n` in `t`, or `t.len()` when there is none.
pub open spec fn first_crlf(t: Seq<char>) -> int
    decreases t.len(),
{
    if t.len() < 2 {
        t.len() as int
    } else if t[0] == '\r' && t[1] == '\n' {
        0
    } else {
        1 + first_crlf(t.drop_first())
    }
}

/// `str::split("\r\n")`: the pieces between successive `\r\n`, left to right.
pub open spec fn split_crlf(t: Seq<char>) -> Seq<Seq<char>>
    decreases t.len(),
{
    let k = first_crlf(t);
    if k < t.len() {
        proof {
            lemma_first_crlf_is_crlf(t);
        }
        seq![t.take(k)] + split_crlf(t.skip(k + 2))
    } else {
        seq![t]
    }
}

pub proof fn lemma_first_crlf_is_crlf(t: Seq<char>)
    ensures
        0 <= first_crlf(t) <= t.len(),
        first_crlf(t) < t.len() ==> crlf_at(t, first_crlf(t)),
        forall|j: int| 0 <= j < first_crlf(t) ==> !crlf_at(t, j),
    decreases t.len(),
{
    if t.len() >= 2 && !(t[0] == '\r' && t[1] == '\n') {
        let d = t.drop_first();
        lemma_first_crlf_is_crlf(d);
        assert forall|j: int| 0 <= j < first_crlf(t) implies !crlf_at(t, j) by {
            if j > 0 && j + 1 < t.len() {
                assert(!crlf_at(d, j - 1));
                assert(d[j - 1] == t[j]);
                assert(d[j] == t[j + 1]);
            }
        }
        if first_crlf(t) < t.len() {
            assert(crlf_at(d, first_crlf(d)));
            assert(d[first_crlf(d)] == t[first_crlf(t)]);
            assert(d[first_crlf(d) + 1] == t[first_crlf(t) + 1]);
        }
    }
}

/// `first_crlf` is the first `\r\n` position.
pub proof fn lemma_first_crlf_char(t: Seq<char>, k: int)
    requires
        0 <= k <= t.len(),
        forall|j: int| 0 <= j < k ==> !crlf_at(t, j),
        k < t.len() ==> crlf_at(t, k),
    ensures
        first_crlf(t) == k,
    decreases t.len(),
{
    lemma_first_crlf_is_crlf(t);
    let f = first_crlf(t);
    if f < k {
        assert(crlf_at(t, f));
    } else if k < f {
        assert(!crlf_at(t, k));
    }
}

/// `prefix_while` is the length of the longest prefix that satisfies `p`.
pub proof fn lemma_prefix_while_char(t: Seq<char>, p: spec_fn(char) -> bool, n: int)
    requires
        0 <= n <= t.len(),
        forall|j: int| 0 <= j < n ==> p(#[trigger] t[j]),
        n < t.len() ==> !p(t[n]),
    ensures
        prefix_while(t, p) == n,
    decreases n,
{
    if n > 0 {
        let d = t.drop_first();
        assert forall|j: int| 0 <= j < n - 1 implies p(#[trigger] d[j]) by {
            assert(d[j] == t[j + 1]);
            assert(p(t[j + 1]));
        }
        if n - 1 < d.len() {
            assert(d[n - 1] == t[n]);
        }
        lemma_prefix_while_char(d, p, n - 1);
    }
}

pub proof fn lemma_prefix_while_bound(t: Seq<char>, p: spec_fn(char) -> bool)
    ensures
        prefix_while(t, p) <= t.len(),
    decreases t.len(),
{
    if t.len() > 0 && p(t[0]) {
        lemma_prefix_while_bound(t.drop_first(), p);
    }
}

/// The character where `prefix_while` stops does not satisfy `p`.
pub proof fn lemma_prefix_while_stop(t: Seq<char>, p: spec_fn(char) -> bool)
    ensures
        prefix_while(t, p) < t.len() ==> !p(t[prefix_while(t, p) as int]),
    decreases t.len(),
{
    if t.len() > 0 && p(t[0]) {
        let d = t.drop_first();
        lemma_prefix_while_stop(d, p);
        if prefix_while(d, p) < d.len() {
            assert(d[prefix_while(d, p) as int] == t[prefix_while(t, p) as int]);
        }
    }
}

/// Every character of the prefix that `prefix_while` measures satisfies `p`.
pub proof fn lemma_prefix_while_prefix(t: Seq<char>, p: spec_fn(char) -> bool, j: int)
    requires
        0 <= j < prefix_while(t, p),
    ensures
        p(t[j]),
    decreases t.len(),
{
    lemma_prefix_while_bound(t, p);
    if j > 0 {
        let d = t.drop_first();
        lemma_prefix_while_bound(d, p);
        lemma_prefix_while_prefix(d, p, j - 1);
        assert(d[j - 1] == t[j]);
    }
}

/// `suffix_while` is the length of the longest suffix that satisfies `p`.
pub proof fn lemma_suffix_while_char(t: Seq<char>, p: spec_fn(char) -> bool, n: int)
    requires
        0 <= n <= t.len(),
        forall|j: int| t.len() - n <= j < t.len() ==> p(#[trigger] t[j]),
        n < t.len() ==> !p(t[t.len() - 1 - n]),
    ensures
        suffix_while(t, p) == n,
    decreases n,
{
    if n > 0 {
        let d = t.drop_last();
        assert forall|j: int| d.len() - (n - 1) <= j < d.len() implies p(#[trigger] d[j]) by {
            assert(d[j] == t[j]);
        }
        if n - 1 < d.len() {
            assert(d[d.len() - 1 - (n - 1)] == t[t.len() - 1 - n]);
        }
        assert(p(t[t.len() - 1]));
        lemma_suffix_while_char(d, p, n - 1);
    }
}

/// `char::is_whitespace`.
pub fn is_whitespace(c: char) -> (b: bool)
    ensures
        b == is_ws(c),
{
    let u = c as u32;
    (0x9 <= u && u <= 0xd) || u == 0x20 || u == 0x85 || u == 0xa0 || u == 0x1680 || (0x2000 <= u
        && u <= 0x200a) || u == 0x2028 || u == 0x2029 || u == 0x202f || u == 0x205f || u == 0x3000
}

/// The characters `t[lo..hi]`.
pub fn sub_chars(t: &Vec<char>, lo: usize, hi: usize) -> (r: Vec<char>)
    requires
        lo <= hi <= t@.len(),
    ensures
        r@ == t@.subrange(lo as int, hi as int),
{
    let mut r: Vec<char> = Vec::new();
    let mut i = lo;
    while i < hi
        invariant
            lo <= i <= hi <= t@.len(),
            r@ == t@.subrange(lo as int, i as int),
        decreases hi - i,
    {
        r.push(t[i]);
        i = i + 1;
    }
    r
}

/// Number of leading whitespace characters of `t`.
pub fn count_leading_ws(t: &Vec<char>) -> (n: usize)
    ensures
        n <= t@.len(),
        n == prefix_while(t@, ws_pred()),
{
    let mut i: usize = 0;
    while i < t.len() && is_whitespace(t[i])
        invariant
            i <= t@.len(),
            forall|j: int| 0 <= j < i ==> #[trigger] is_ws(t@[j]),
        decreases t@.len() - i,
    {
        i = i + 1;
    }
    proof {
        lemma_prefix_while_char(t@, ws_pred(), i as int);
    }
    i
}

/// Number of leading non-whitespace characters of `t`.
pub fn count_leading_non_ws(t: &Vec<char>) -> (n: usize)
    ensures
        n <= t@.len(),
        n == prefix_while(t@, non_ws_pred()),
{
    let mut i: usize = 0;
    while i < t.len() && !is_whitespace(t[i])
        invariant
            i <= t@.len(),
            forall|j: int| 0 <= j < i ==> !is_ws(#[trigger] t@[j]),
        decreases t@.len() - i,
    {
        i = i + 1;
    }
    proof {
        lemma_prefix_while_char(t@, non_ws_pred(), i as int);
    }
    i
}

/// Number of trailing whitespace characters of `t`.
pub fn count_trailing_ws(t: &Vec<char>) -> (n: usize)
    ensures
        n <= t@.len(),
        n == suffix_while(t@, ws_pred()),
{
    let mut n: usize = 0;
    while n < t.len() && is_whitespace(t[t.len() - 1 - n])
        invariant
            n <= t@.len(),
            forall|j: int| t@.len() - n <= j < t@.len() ==> #[trigger] is_ws(t@[j]),
        decreases t@.len() - n,
    {
        n = n + 1;
    }
    proof {
        lemma_suffix_while_char(t@, ws_pred(), n as int);
    }
    n
}

/// Index of the first `x` in `t`, or `t.len()` when there is none.
pub fn find_char(t: &Vec<char>, x: char) -> (n: usize)
    ensures
        n <= t@.len(),
        n == prefix_while(t@, not_char_pred(x)),
{
    let mut i: usize = 0;
    while i < t.len() && t[i] != x
        invariant
            i <= t@.len(),
            forall|j: int| 0 <= j < i ==> #[trigger] t@[j] != x,
        decreases t@.len() - i,
    {
        i = i + 1;
    }
    proof {
        lemma_prefix_while_char(t@, not_char_pred(x), i as int);
    }
    i
}

/// `str::trim`.
pub fn trim_chars(t: &Vec<char>) -> (r: Vec<char>)
    ensures
        r@ == trim(t@),
{
    let a = count_leading_ws(t);
    let u = sub_chars(t, a, t.len());
    assert(u@ == trim_start(t@));
    let b = count_trailing_ws(&u);
    sub_chars(&u, 0, u.len() - b)
}

/// The first whitespace-separated token of `t` and what follows it.
pub fn split_first_token(t: &Vec<char>) -> (r: (Option<Vec<char>>, Vec<char>))
    ensures
        match r.0 {
            Some(tok) => first_token(t@) == Some(tok@),
            None => first_token(t@) is None,
        },
        r.1@ == after_first_token(t@),
{
    let a = count_leading_ws(t);
    let u = sub_chars(t, a, t.len());
    assert(u@ == trim_start(t@));
    let k = count_leading_non_ws(&u);
    let rest = sub_chars(&u, k, u.len());
    if u.len() == 0 {
        (None, rest)
    } else {
        let tok = sub_chars(&u, 0, k);
        (Some(tok), rest)
    }
}

/// `str::to_ascii_lowercase`.
pub fn lower_ascii_chars(t: &Vec<char>) -> (r: Vec<char>)
    ensures
        r@ == ascii_lower_seq(t@),
{
    let mut r: Vec<char> = Vec::new();
    let mut i: usize = 0;
    while i < t.len()
        invariant
            i <= t@.len(),
            r@ == ascii_lower_seq(t@.take(i as int)),
        decreases t@.len() - i,
    {
        let c = t[i];
        let l = if 'A' <= c && c <= 'Z' {
            let b = (c as u8) + 32;
            b as char
        } else {
            c
        };
        r.push(l);
        assert(t@.take(i + 1) == t@.take(i as int).push(c));
        i = i + 1;
    }
    assert(t@.take(t@.len() as int) == t@);
    r
}

/// `str::split("\r\n")`, collected.
pub fn split_lines_crlf(t: &Vec<char>) -> (r: Vec<Vec<char>>)
    ensures
        r@.len() == split_crlf(t@).len(),
        forall|i: int| 0 <= i < r@.len() ==> #[trigger] r@[i]@ == split_crlf(t@)[i],
{
    let mut lines: Vec<Vec<char>> = Vec::new();
    let mut start: usize = 0;
    let mut i: usize = 0;
    let n = t.len();
    assert(t@.skip(0) == t@);
    assert(lines@.map_values(|v: Vec<char>| v@) == Seq::<Seq<char>>::empty());
    while n > 0 && i < n - 1
        invariant
            n == t@.len(),
            start <= i <= n,
            forall|j: int| start <= j < i ==> !crlf_at(t@, j),
            lines@.map_values(|v: Vec<char>| v@) + split_crlf(t@.skip(start as int)) == split_crlf(
                t@,
            ),
        decreases n - i,
    {
        if t[i] == '\r' && t[i + 1] == '\n' {
            let ghost u = t@.skip(start as int);
            proof {
                assert forall|j: int| 0 <= j < i - start implies !crlf_at(u, j) by {
                    assert(!crlf_at(t@, start + j));
                }
                lemma_first_crlf_char(u, i - start);
                assert(u.skip(i - start + 2) == t@.skip(i + 2));
                assert(u.take(i - start) == t@.subrange(start as int, i as int));
            }
            let line = sub_chars(t, start, i);
            let ghost before = lines@.map_values(|v: Vec<char>| v@);
            lines.push(line);
            assert(lines@.map_values(|v: Vec<char>| v@) == before.push(line@));
            start = i + 2;
            i = i + 2;
        } else {
            assert(!crlf_at(t@, i as int));
            i = i + 1;
        }
    }
    let ghost u = t@.skip(start as int);
    proof {
        assert forall|j: int| 0 <= j < u.len() implies !crlf_at(u, j) by {
            if j + 1 < u.len() {
                assert(start + j < i);
                assert(!crlf_at(t@, start + j));
            }
        }
        lemma_first_crlf_char(u, u.len() as int);
    }
    let last = sub_chars(t, start, n);
    let ghost before = lines@.map_values(|v: Vec<char>| v@);
    lines.push(last);
    assert(lines@.map_values(|v: Vec<char>| v@) == before.push(last@));
    assert(split_crlf(u) == seq![u]);
    proof {
        let m = lines@.map_values(|v: Vec<char>| v@);
        assert forall|k: int| 0 <= k < lines@.len() implies #[trigger] lines@[k]@ == split_crlf(
            t@,
        )[k] by {
            assert(m[k] == lines@[k]@);
        }
    }
    lines
}

/// `a` followed by `b`.
pub fn concat_chars(a: &Vec<char>, b: &Vec<char>) -> (r: Vec<char>)
    ensures
        r@ == a@ + b@,
{
    let mut r: Vec<char> = Vec::new();
    let mut i: usize = 0;
    while i < a.len()
        invariant
            i <= a@.len(),
            r@ == a@.take(i as int),
        decreases a@.len() - i,
    {
        r.push(a[i]);
        assert(a@.take(i + 1) == a@.take(i as int).push(a@[i as int]));
        i = i + 1;
    }
    assert(a@.take(a@.len() as int) == a@);
    let mut j: usize = 0;
    while j < b.len()
        invariant
            j <= b@.len(),
            r@ == a@ + b@.take(j as int),
        decreases b@.len() - j,
    {
        r.push(b[j]);
        assert(b@.take(j + 1) == b@.take(j as int).push(b@[j as int]));
        j = j + 1;
    }
    assert(b@.take(b@.len() as int) == b@);
    r
}

/// Character-wise equality.
pub fn chars_eq(a: &Vec<char>, b: &Vec<char>) -> (r: bool)
    ensures
        r == (a@ == b@),
{
    if a.len() != b.len() {
        return false;
    }
    let mut i: usize = 0;
    while i < a.len()
        invariant
            i <= a@.len(),
            a@.len() == b@.len(),
            forall|j: int| 0 <= j < i ==> a@[j] == b@[j],
        decreases a@.len() - i,
    {
        if a[i] != b[i] {
            return false;
        }
        i = i + 1;
    }
    assert(a@ =~= b@);
    true
}

} // verus!
