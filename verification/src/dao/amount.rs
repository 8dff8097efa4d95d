//! Reading the amount that a treasury proposal asks for out of its description.
//!
//! A description names its amount as `amount:` followed by the number and a space
//! (e.g. `amount:1000 ZHTP`); without such a number the amount is 1000.

use vstd::prelude::*;

verus! {

broadcast use vstd::string::group_string_axioms;

/// The marker that precedes an amount.
pub open spec fn amount_marker() -> Seq<char> {
    seq!['a', 'm', 'o', 'u', 'n', 't', ':']
}

/// The amount of a treasury proposal that names none.
pub open spec fn default_amount() -> u64 {
    1000
}

/// `needle` occurs in `s` at position `i`.
pub open spec fn occurs_at(s: Seq<char>, needle: Seq<char>, i: int) -> bool {
    0 <= i && i + needle.len() <= s.len() && s.subrange(i, i + needle.len()) == needle
}

/// The first position where `needle` occurs in `s`, if any.
#[verifier::opaque]
pub open spec fn first_occurrence(s: Seq<char>, needle: Seq<char>) -> Option<int> {
    if exists|i: int| occurs_at(s, needle, i) {
        Some(choose|i: int| occurs_at(s, needle, i) && forall|j: int| 0 <= j < i ==> !occurs_at(s, needle, j))
    } else {
        None
    }
}

/// The first position of `c` in `s`, if any.
#[verifier::opaque]
pub open spec fn first_position(s: Seq<char>, c: char) -> Option<int> {
    if exists|i: int| 0 <= i < s.len() && s[i] == c {
        Some(choose|i: int| 0 <= i < s.len() && s[i] == c && forall|j: int| 0 <= j < i ==> s[j] != c)
    } else {
        None
    }
}

/// Unicode White_Space, the whitespace that Rust's `str::trim` removes.
pub open spec fn is_white_space(c: char) -> bool {
    ||| '\u{9}' <= c <= '\u{d}'
    ||| c == ' '
    ||| c == '\u{85}'
    ||| c == '\u{a0}'
    ||| c == '\u{1680}'
    ||| '\u{2000}' <= c <= '\u{200a}'
    ||| c == '\u{2028}'
    ||| c == '\u{2029}'
    ||| c == '\u{202f}'
    ||| c == '\u{205f}'
    ||| c == '\u{3000}'
}

/// `s` without its leading whitespace.
pub open spec fn trim_start(s: Seq<char>) -> Seq<char>
    decreases s.len(),
{
    if s.len() > 0 && is_white_space(s[0]) {
        trim_start(s.drop_first())
    } else {
        s
    }
}

/// `s` without its trailing whitespace.
pub open spec fn trim_end(s: Seq<char>) -> Seq<char>
    decreases s.len(),
{
    if s.len() > 0 && is_white_space(s.last()) {
        trim_end(s.drop_last())
    } else {
        s
    }
}

/// `s` without leading and trailing whitespace.
pub open spec fn trim(s: Seq<char>) -> Seq<char> {
    trim_end(trim_start(s))
}

/// `c` is an ASCII decimal digit.
pub open spec fn is_digit(c: char) -> bool {
    '0' <= c <= '9'
}

/// The number that the decimal digits `d` write.
pub open spec fn digits_value(d: Seq<char>) -> nat
    decreases d.len(),
{
    if d.len() == 0 {
        0
    } else {
        digits_value(d.drop_last()) * 10 + (d.last() as nat - '0' as nat) as nat
    }
}

/// What Rust's `str::parse::<u64>` gives for `s`: an optional `+`, then one or
/// more decimal digits, whose value fits in 64 bits.
pub open spec fn parse_u64(s: Seq<char>) -> Option<u64> {
    parse_digits(if s.len() > 0 && s[0] == '+' { s.drop_first() } else { s })
}

/// The value of the decimal digits `d`, if `d` is one or more digits whose value
/// fits in 64 bits.
pub open spec fn parse_digits(d: Seq<char>) -> Option<u64> {
    if d.len() == 0 {
        None
    } else if !(forall|i: int| 0 <= i < d.len() ==> is_digit(#[trigger] d[i])) {
        None
    } else if digits_value(d) > u64::MAX {
        None
    } else {
        Some(digits_value(d) as u64)
    }
}

/// The amount that a description names: after the first `amount:`, the text up
/// to the next space, trimmed, read as a `u64`; otherwise 1000.
pub open spec fn treasury_amount(description: Seq<char>) -> u64 {
    match first_occurrence(description, amount_marker()) {
        None => default_amount(),
        Some(start) => {
            let section = description.subrange(start + 7, description.len() as int);
            match first_position(section, ' ') {
                None => default_amount(),
                Some(end) => match parse_u64(trim(section.subrange(0, end))) {
                    Some(v) => v,
                    None => default_amount(),
                },
            }
        },
    }
}

proof fn lemma_digits_value_grows(d: Seq<char>, i: int)
    requires
        0 <= i <= d.len(),
        forall|k: int| 0 <= k < d.len() ==> is_digit(#[trigger] d[k]),
    ensures
        digits_value(d.take(i)) <= digits_value(d),
    decreases d.len() - i,
{
    if i < d.len() {
        lemma_digits_value_grows(d, i + 1);
        assert(d.take(i + 1).drop_last() =~= d.take(i));
    } else {
        assert(d.take(i) =~= d);
    }
}

/// The characters of `s`.
fn chars_of(s: &String) -> (r: Vec<char>)
    ensures
        r@ == s@,
{
    let t = s.as_str();
    let mut out: Vec<char> = Vec::new();
    for c in it: t.chars()
        invariant
            it.seq() == t@,
            out@ == it.seq().take(it.index()),
    {
        proof {
            assert(it.seq().take(it.index() + 1) =~= out@.push(c));
        }
        out.push(c);
    }
    proof {
        assert(out@ =~= t@);
    }
    out
}

/// Whether `c` is Unicode White_Space.
fn white_space(c: char) -> (r: bool)
    ensures
        r == is_white_space(c),
{
    ('\u{9}' <= c && c <= '\u{d}') || c == ' ' || c == '\u{85}' || c == '\u{a0}' || c == '\u{1680}'
        || ('\u{2000}' <= c && c <= '\u{200a}') || c == '\u{2028}' || c == '\u{2029}' || c == '\u{202f}'
        || c == '\u{205f}' || c == '\u{3000}'
}

/// The bounds of `s[lo..hi]` without its leading and trailing whitespace.
fn trimmed_bounds(s: &Vec<char>, lo: usize, hi: usize) -> (r: (usize, usize))
    requires
        lo <= hi <= s@.len(),
    ensures
        lo <= r.0 <= r.1 <= hi,
        s@.subrange(r.0 as int, r.1 as int) == trim(s@.subrange(lo as int, hi as int)),
{
    let mut a = lo;
    while a < hi && white_space(s[a])
        invariant
            lo <= a <= hi <= s@.len(),
            trim_start(s@.subrange(lo as int, hi as int)) == trim_start(s@.subrange(a as int, hi as int)),
        decreases hi - a,
    {
        proof {
            assert(s@.subrange(a as int, hi as int).drop_first() =~= s@.subrange(a + 1, hi as int));
        }
        a = a + 1;
    }
    let mut b = hi;
    while b > a && white_space(s[b - 1])
        invariant
            lo <= a <= b <= hi <= s@.len(),
            trim_end(s@.subrange(a as int, hi as int)) == trim_end(s@.subrange(a as int, b as int)),
        decreases b - a,
    {
        proof {
            assert(s@.subrange(a as int, b as int).drop_last() =~= s@.subrange(a as int, b - 1));
        }
        b = b - 1;
    }
    (a, b)
}

/// Reads `s[lo..hi]` as Rust's `str::parse::<u64>` does.
fn parse_range(s: &Vec<char>, lo: usize, hi: usize) -> (r: Option<u64>)
    requires
        lo <= hi <= s@.len(),
    ensures
        r == parse_u64(s@.subrange(lo as int, hi as int)),
{
    let ghost t = s@.subrange(lo as int, hi as int);
    let mut start = lo;
    if lo < hi && s[lo] == '+' {
        start = lo + 1;
    }
    let ghost d = s@.subrange(start as int, hi as int);
    proof {
        let d0 = if t.len() > 0 && t[0] == '+' { t.drop_first() } else { t };
        assert(d0 =~= d);
    }
    if start == hi {
        return None;
    }
    let mut acc: u64 = 0;
    let mut i = start;
    while i < hi
        invariant
            start <= i <= hi <= s@.len(),
            lo <= start < hi,
            t == s@.subrange(lo as int, hi as int),
            d == s@.subrange(start as int, hi as int),
            (if t.len() > 0 && t[0] == '+' { t.drop_first() } else { t }) == d,
            forall|k: int| start <= k < i ==> is_digit(#[trigger] s@[k]),
            acc == digits_value(d.take(i - start)),
        decreases hi - i,
    {
        let c = s[i];
        if !('0' <= c && c <= '9') {
            proof {
                assert(!is_digit(d[i - start]));
                assert(!(forall|k: int| 0 <= k < d.len() ==> is_digit(#[trigger] d[k])));
                assert(parse_digits(d) is None);
            }
            return None;
        }
        let digit = (c as u32 - '0' as u32) as u64;
        proof {
            assert(d.take(i - start + 1).drop_last() =~= d.take(i - start));
            assert(d.take(i - start + 1).last() == c);
        }
        if acc > 1844674407370955161 || (acc == 1844674407370955161 && digit > 5) {
            proof {
                assert(digits_value(d.take(i - start + 1)) > u64::MAX);
                if forall|k: int| 0 <= k < d.len() ==> is_digit(#[trigger] d[k]) {
                    lemma_digits_value_grows(d, i - start + 1);
                    assert(digits_value(d) > u64::MAX);
                }
                assert(parse_digits(d) is None);
            }
            return None;
        }
        acc = acc * 10 + digit;
        i = i + 1;
    }
    proof {
        assert(d.take(d.len() as int) =~= d);
        assert forall|k: int| 0 <= k < d.len() implies is_digit(#[trigger] d[k]) by {
            assert(d[k] == s@[start + k]);
        }
    }
    Some(acc)
}

/// Whether `amount:` occurs in `s` at position `i`.
fn marker_at(s: &Vec<char>, i: usize) -> (r: bool)
    requires
        i + 7 <= s@.len(),
    ensures
        r == occurs_at(s@, amount_marker(), i as int),
{
    let n = s.len();
    assert(i + 7 <= n);
    let r = s[i] == 'a' && s[i + 1] == 'm' && s[i + 2] == 'o' && s[i + 3] == 'u' && s[i + 4] == 'n'
        && s[i + 5] == 't' && s[i + 6] == ':';
    proof {
        let sub = s@.subrange(i as int, i + 7);
        if r {
            assert(sub =~= amount_marker());
        } else {
            if sub == amount_marker() {
                assert(sub[0] == 'a' && sub[1] == 'm' && sub[2] == 'o' && sub[3] == 'u' && sub[4] == 'n' && sub[5] == 't' && sub[6] == ':');
            }
        }
    }
    r
}

/// The first position of `amount:` in `s`, if any.
fn find_marker(s: &Vec<char>) -> (r: Option<usize>)
    ensures
        match r {
            Some(i) => first_occurrence(s@, amount_marker()) == Some(i as int) && i + 7 <= s@.len(),
            None => first_occurrence(s@, amount_marker()) is None,
        },
{
    let mut i: usize = 0;
    while i < s.len() && s.len() - i >= 7
        invariant
            i <= s@.len(),
            forall|j: int| 0 <= j < i ==> !#[trigger] occurs_at(s@, amount_marker(), j),
        decreases s@.len() - i,
    {
        if marker_at(s, i) {
            proof {
                reveal(first_occurrence);
                let k = choose|k: int| occurs_at(s@, amount_marker(), k)
                    && forall|j: int| 0 <= j < k ==> !occurs_at(s@, amount_marker(), j);
                assert(occurs_at(s@, amount_marker(), i as int));
                assert(k == i);
            }
            return Some(i);
        }
        i = i + 1;
    }
    proof {
        reveal(first_occurrence);
        assert forall|j: int| !#[trigger] occurs_at(s@, amount_marker(), j) by {
            if j >= i {
                assert(!(j + 7 <= s@.len()));
            }
        }
    }
    None
}

/// The first position at or after `from` where `s` holds a space, if any.
fn find_space(s: &Vec<char>, from: usize) -> (r: Option<usize>)
    requires
        from <= s@.len(),
    ensures
        match r {
            Some(j) => from <= j < s@.len() && first_position(s@.subrange(from as int, s@.len() as int), ' ') == Some(j - from),
            None => first_position(s@.subrange(from as int, s@.len() as int), ' ') is None,
        },
{
    let ghost sec = s@.subrange(from as int, s@.len() as int);
    let mut j = from;
    while j < s.len()
        invariant
            from <= j <= s@.len(),
            sec == s@.subrange(from as int, s@.len() as int),
            forall|k: int| 0 <= k < j - from ==> sec[k] != ' ',
        decreases s@.len() - j,
    {
        if s[j] == ' ' {
            proof {
                reveal(first_position);
                let e = (j - from) as int;
                assert(sec[e] == ' ');
                let k = choose|k: int| 0 <= k < sec.len() && sec[k] == ' ' && forall|x: int| 0 <= x < k ==> sec[x] != ' ';
                assert(k == e);
            }
            return Some(j);
        }
        j = j + 1;
    }
    proof {
        reveal(first_position);
    }
    None
}

/// The amount that `description` names: after the first `amount:`, the text up to
/// the next space, trimmed and read as a `u64`; otherwise 1000.
pub fn treasury_amount_of(description: &String) -> (r: u64)
    ensures
        r == treasury_amount(description@),
{
    let s = chars_of(description);
    let start = match find_marker(&s) {
        Some(i) => i,
        None => {
            return 1000;
        },
    };
    let n = s.len();
    assert(start + 7 <= n);
    let from = start + 7;
    let ghost section = s@.subrange(from as int, s@.len() as int);
    let end = match find_space(&s, from) {
        Some(j) => j,
        None => {
            return 1000;
        },
    };
    proof {
        assert(section.subrange(0, end - from) =~= s@.subrange(from as int, end as int));
    }
    let (a, b) = trimmed_bounds(&s, from, end);
    match parse_range(&s, a, b) {
        Some(v) => v,
        None => 1000,
    }
}

} // verus!
