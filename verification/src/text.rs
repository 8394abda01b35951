//! Text primitives shared by the command grammars and the reply builders.
//!
//! Strings are viewed as sequences of characters. Searching and trimming are
//! defined on those sequences; the executable versions work on a `Vec<char>`
//! taken once from the input.

use vstd::prelude::*;
use vstd::string::*;

verus! {

/// Whether `c` has the Unicode `White_Space` property, as `char::is_whitespace`
/// reports it.
pub uninterp spec fn white_space(c: char) -> bool;

/// The lowercase form of `s` as `str::to_lowercase` computes it.
pub uninterp spec fn lowercase(s: Seq<char>) -> Seq<char>;

/// `char::is_whitespace`: the answer depends on the character alone. Nothing
/// is claimed about which characters count as whitespace.
pub assume_specification[ char::is_whitespace ](c: char) -> (r: bool)
    ensures
        r == white_space(c),
;

/// `str::to_lowercase`: the result depends on the input text alone. Nothing is
/// claimed about the mapping itself.
pub assume_specification[ str::to_lowercase ](s: &str) -> (r: String)
    ensures
        r@ == lowercase(s@),
;

/// `s` without its leading whitespace.
pub open spec fn trim_start(s: Seq<char>) -> Seq<char>
    decreases s.len(),
{
    if s.len() > 0 && white_space(s[0]) {
        trim_start(s.drop_first())
    } else {
        s
    }
}

/// `s` without its trailing whitespace.
pub open spec fn trim_end(s: Seq<char>) -> Seq<char>
    decreases s.len(),
{
    if s.len() > 0 && white_space(s.last()) {
        trim_end(s.drop_last())
    } else {
        s
    }
}

/// `s` without leading and trailing whitespace.
pub open spec fn trimmed(s: Seq<char>) -> Seq<char> {
    trim_end(trim_start(s))
}

/// `pattern` occurs in `s` starting at index `at`.
pub open spec fn occurs_at(s: Seq<char>, pattern: Seq<char>, at: int) -> bool {
    &&& 0 <= at
    &&& at + pattern.len() <= s.len()
    &&& s.subrange(at, at + pattern.len()) == pattern
}

/// Index of the first occurrence of `pattern` in `s` at or after `from`.
pub open spec fn find(s: Seq<char>, pattern: Seq<char>, from: int) -> Option<int>
    decreases s.len() + 1 - from,
{
    if from < 0 || from + pattern.len() > s.len() {
        None
    } else if occurs_at(s, pattern, from) {
        Some(from)
    } else {
        find(s, pattern, from + 1)
    }
}

/// The text before and the text after the first occurrence of `pattern`.
pub open spec fn split_once(s: Seq<char>, pattern: Seq<char>) -> Option<(Seq<char>, Seq<char>)> {
    match find(s, pattern, 0) {
        Some(at) => Some((s.subrange(0, at), s.subrange(at + pattern.len(), s.len() as int))),
        None => None,
    }
}

/// `s` without its trailing run of `c`.
pub open spec fn strip_trailing(s: Seq<char>, c: char) -> Seq<char>
    decreases s.len(),
{
    if s.len() > 0 && s.last() == c {
        strip_trailing(s.drop_last(), c)
    } else {
        s
    }
}

/// The character that stands for the digit `d`.
pub open spec fn digit_char(d: int) -> char {
    if d == 0 {
        '0'
    } else if d == 1 {
        '1'
    } else if d == 2 {
        '2'
    } else if d == 3 {
        '3'
    } else if d == 4 {
        '4'
    } else if d == 5 {
        '5'
    } else if d == 6 {
        '6'
    } else if d == 7 {
        '7'
    } else if d == 8 {
        '8'
    } else {
        '9'
    }
}

/// Decimal notation of `n`, without sign or leading zeros.
pub open spec fn decimal(n: nat) -> Seq<char>
    decreases n,
{
    if n < 10 {
        seq![digit_char(n as int)]
    } else {
        decimal(n / 10).push(digit_char((n % 10) as int))
    }
}

/// What `find` reports is the first occurrence, and there is none before it.
pub proof fn lemma_find_is_first(s: Seq<char>, pattern: Seq<char>, from: int)
    requires
        0 <= from,
    ensures
        match find(s, pattern, from) {
            Some(at) => from <= at && occurs_at(s, pattern, at) && forall|k: int|
                from <= k < at ==> !occurs_at(s, pattern, k),
            None => forall|k: int| from <= k ==> !occurs_at(s, pattern, k),
        },
    decreases s.len() + 1 - from,
{
    if from + pattern.len() > s.len() {
    } else if occurs_at(s, pattern, from) {
    } else {
        lemma_find_is_first(s, pattern, from + 1);
    }
}

/// For each character of `s`, whether it is whitespace.
pub open spec fn blank_marks(s: Seq<char>) -> Seq<bool> {
    Seq::new(s.len(), |i: int| white_space(s[i]))
}

/// The first index in `from..to` that is not marked blank, or `to`.
pub open spec fn first_kept(blank: Seq<bool>, from: int, to: int) -> int
    decreases to - from,
{
    if from < to && blank[from] {
        first_kept(blank, from + 1, to)
    } else {
        from
    }
}

/// The index after the last one in `from..to` that is not marked blank, or
/// `from`.
pub open spec fn last_kept(blank: Seq<bool>, from: int, to: int) -> int
    decreases to - from,
{
    if from < to && blank[to - 1] {
        last_kept(blank, from, to - 1)
    } else {
        to
    }
}

/// Trimming by marks is trimming: between the first and the last character
/// of `s[from..to]` that is no whitespace lies `s[from..to]` trimmed.
pub proof fn lemma_trim_by_marks(s: Seq<char>, from: int, to: int)
    requires
        0 <= from <= to <= s.len(),
    ensures
        ({
            let lo = first_kept(blank_marks(s), from, to);
            let hi = last_kept(blank_marks(s), lo, to);
            &&& from <= lo <= hi <= to
            &&& s.subrange(lo, hi) == trimmed(s.subrange(from, to))
        }),
{
    lemma_first_kept(s, from, to);
    let lo = first_kept(blank_marks(s), from, to);
    lemma_last_kept(s, lo, to);
}

proof fn lemma_first_kept(s: Seq<char>, from: int, to: int)
    requires
        0 <= from <= to <= s.len(),
    ensures
        from <= first_kept(blank_marks(s), from, to) <= to,
        s.subrange(first_kept(blank_marks(s), from, to), to) == trim_start(s.subrange(from, to)),
    decreases to - from,
{
    if from < to && blank_marks(s)[from] {
        lemma_first_kept(s, from + 1, to);
        assert(s.subrange(from, to).drop_first() =~= s.subrange(from + 1, to));
    }
}

proof fn lemma_last_kept(s: Seq<char>, from: int, to: int)
    requires
        0 <= from <= to <= s.len(),
    ensures
        from <= last_kept(blank_marks(s), from, to) <= to,
        s.subrange(from, last_kept(blank_marks(s), from, to)) == trim_end(s.subrange(from, to)),
    decreases to - from,
{
    if from < to && blank_marks(s)[to - 1] {
        lemma_last_kept(s, from, to - 1);
        assert(s.subrange(from, to).drop_last() =~= s.subrange(from, to - 1));
    }
}

/// The characters of `s`, in order.
pub fn chars_of(s: &str) -> (r: Vec<char>)
    ensures
        r@ == s@,
{
    let mut out: Vec<char> = Vec::new();
    for c in it: s.chars()
        invariant
            out@ == s@.take(it.index() as int),
            it.seq() == s@,
    {
        out.push(c);
    }
    out
}

/// An owned copy of `s`.
pub fn owned(s: &str) -> (r: String)
    ensures
        r@ == s@,
{
    String::from_str(s)
}

/// `a` followed by `b`.
pub fn join(a: &str, b: &str) -> (r: String)
    ensures
        r@ == a@ + b@,
{
    let mut out = String::from_str(a);
    out.append(b);
    out
}

/// `a`, `b` and `c` in a row.
pub fn join3(a: &str, b: &str, c: &str) -> (r: String)
    ensures
        r@ == a@ + b@ + c@,
{
    let mut out = String::from_str(a);
    out.append(b);
    out.append(c);
    out
}

/// Whether two texts hold the same characters.
pub fn same(a: &str, b: &str) -> (r: bool)
    ensures
        r == (a@ == b@),
{
    let x = String::from_str(a);
    let y = String::from_str(b);
    x == y
}

/// The characters of `s` from index `from` up to, not including, `to`.
pub fn slice(s: &str, from: usize, to: usize) -> (r: String)
    requires
        from <= to <= s@.len(),
    ensures
        r@ == s@.subrange(from as int, to as int),
{
    String::from_str(s.substring_char(from, to))
}

/// Whether `pattern` occurs in `chars` at index `at`.
pub fn occurs(chars: &Vec<char>, pattern: &Vec<char>, at: usize) -> (r: bool)
    ensures
        r == occurs_at(chars@, pattern@, at as int),
{
    let n: usize = chars.len();
    let m: usize = pattern.len();
    if m > n || at > n - m {
        return false;
    }
    let mut k: usize = 0;
    while k < m
        invariant
            n == chars.len(),
            m == pattern.len(),
            at + m <= n,
            k <= m,
            forall|j: int| 0 <= j < k ==> chars@[at + j] == pattern@[j],
        decreases m - k,
    {
        if chars[at + k] != pattern[k] {
            assert(chars@.subrange(at as int, at + m)[k as int] != pattern@[k as int]);
            return false;
        }
        k += 1;
    }
    assert(chars@.subrange(at as int, at + m) =~= pattern@);
    true
}

/// Index of the first occurrence of `pattern` in `chars` at or after `from`.
pub fn find_in(chars: &Vec<char>, pattern: &Vec<char>, from: usize) -> (r: Option<usize>)
    ensures
        r is Some <==> find(chars@, pattern@, from as int) is Some,
        r matches Some(at) ==> find(chars@, pattern@, from as int) == Some(at as int) && from <= at
            && at + pattern.len() <= chars.len(),
        r matches Some(at) ==> forall|k: int| from <= k < at ==> !occurs_at(chars@, pattern@, k),
        r is None ==> forall|k: int| from <= k ==> !occurs_at(chars@, pattern@, k),
{
    proof {
        lemma_find_is_first(chars@, pattern@, from as int);
    }
    let n: usize = chars.len();
    let m: usize = pattern.len();
    if m > n || from > n - m {
        return None;
    }
    let last: usize = n - m;
    let mut i: usize = from;
    loop
        invariant
            n == chars.len(),
            m == pattern.len(),
            last == n - m,
            from <= i <= last,
            find(chars@, pattern@, from as int) == find(chars@, pattern@, i as int),
        decreases last - i,
    {
        if occurs(chars, pattern, i) {
            proof {
                lemma_find_is_first(chars@, pattern@, from as int);
            }
            return Some(i);
        }
        if i == last {
            assert(find(chars@, pattern@, i + 1) is None);
            proof {
                lemma_find_is_first(chars@, pattern@, from as int);
            }
            return None;
        }
        i += 1;
    }
}

/// For each of `chars`, whether it is whitespace.
pub fn blanks(chars: &Vec<char>) -> (r: Vec<bool>)
    ensures
        r@ == blank_marks(chars@),
{
    let mut out: Vec<bool> = Vec::new();
    let mut i: usize = 0;
    while i < chars.len()
        invariant
            i <= chars.len(),
            out@.len() == i,
            forall|k: int| 0 <= k < i ==> out@[k] == white_space(chars@[k]),
        decreases chars.len() - i,
    {
        out.push(chars[i].is_whitespace());
        i += 1;
    }
    assert(out@ =~= blank_marks(chars@));
    out
}

/// Bounds of what is kept of `from..to` once the blanks at both ends are
/// dropped.
pub fn trim_marked(blank: &Vec<bool>, from: usize, to: usize) -> (r: (usize, usize))
    requires
        from <= to <= blank.len(),
    ensures
        r.0 == first_kept(blank@, from as int, to as int),
        r.1 == last_kept(blank@, r.0 as int, to as int),
        from <= r.0 <= r.1 <= to,
{
    let mut lo: usize = from;
    while lo < to && blank[lo]
        invariant
            from <= lo <= to <= blank.len(),
            first_kept(blank@, from as int, to as int) == first_kept(blank@, lo as int, to as int),
        decreases to - lo,
    {
        lo += 1;
    }
    let mut hi: usize = to;
    while hi > lo && blank[hi - 1]
        invariant
            lo <= hi <= to <= blank.len(),
            last_kept(blank@, lo as int, to as int) == last_kept(blank@, lo as int, hi as int),
        decreases hi - lo,
    {
        hi -= 1;
    }
    (lo, hi)
}

/// Bounds of `chars[from..to]` once leading and trailing whitespace is dropped.
pub fn trim_bounds(chars: &Vec<char>, from: usize, to: usize) -> (r: (usize, usize))
    requires
        from <= to <= chars.len(),
    ensures
        from <= r.0 <= r.1 <= to,
        chars@.subrange(r.0 as int, r.1 as int) == trimmed(chars@.subrange(from as int, to as int)),
{
    let marks = blanks(chars);
    proof {
        lemma_trim_by_marks(chars@, from as int, to as int);
    }
    trim_marked(&marks, from, to)
}

/// Length of `chars` once its trailing run of `c` is dropped.
pub fn strip_trailing_len(chars: &Vec<char>, c: char) -> (r: usize)
    ensures
        r <= chars.len(),
        chars@.subrange(0, r as int) == strip_trailing(chars@, c),
{
    let mut hi: usize = chars.len();
    assert(chars@.subrange(0, hi as int) =~= chars@);
    while hi > 0 && chars[hi - 1] == c
        invariant
            hi <= chars.len(),
            strip_trailing(chars@, c) == strip_trailing(chars@.subrange(0, hi as int), c),
        decreases hi,
    {
        assert(chars@.subrange(0, hi as int).drop_last() =~= chars@.subrange(0, hi - 1));
        hi -= 1;
    }
    hi
}

/// The text of one decimal digit.
fn digit_text(d: u64) -> (r: &'static str)
    requires
        d < 10,
    ensures
        r@ == seq![digit_char(d as int)],
{
    proof {
        reveal_strlit("0");
        reveal_strlit("1");
        reveal_strlit("2");
        reveal_strlit("3");
        reveal_strlit("4");
        reveal_strlit("5");
        reveal_strlit("6");
        reveal_strlit("7");
        reveal_strlit("8");
        reveal_strlit("9");
    }
    let r = if d == 0 {
        "0"
    } else if d == 1 {
        "1"
    } else if d == 2 {
        "2"
    } else if d == 3 {
        "3"
    } else if d == 4 {
        "4"
    } else if d == 5 {
        "5"
    } else if d == 6 {
        "6"
    } else if d == 7 {
        "7"
    } else if d == 8 {
        "8"
    } else {
        "9"
    };
    assert(r@ =~= seq![digit_char(d as int)]);
    r
}

/// Decimal notation of `n`.
pub fn decimal_text(n: u64) -> (r: String)
    ensures
        r@ == decimal(n as nat),
    decreases n,
{
    if n < 10 {
        String::from_str(digit_text(n))
    } else {
        let mut out = decimal_text(n / 10);
        out.append(digit_text(n % 10));
        assert(out@ =~= decimal((n / 10) as nat).push(digit_char((n % 10) as int)));
        out
    }
}

} // verus!
