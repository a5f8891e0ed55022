//! Plain text handling: trimming, splitting into lines, searching and numerals.

use vstd::prelude::*;

verus! {

/// Whether `c` has the Unicode property White_Space.
pub open spec fn is_space(c: char) -> bool {
    let n = c as u32;
    ||| 0x9 <= n <= 0xd
    ||| n == 0x20
    ||| n == 0x85
    ||| n == 0xa0
    ||| n == 0x1680
    ||| 0x2000 <= n <= 0x200a
    ||| n == 0x2028
    ||| n == 0x2029
    ||| n == 0x202f
    ||| n == 0x205f
    ||| n == 0x3000
}

/// `s` without the white space that it starts with.
pub open spec fn trim_front(s: Seq<char>) -> Seq<char>
    decreases s.len(),
{
    if s.len() > 0 && is_space(s[0]) {
        trim_front(s.drop_first())
    } else {
        s
    }
}

/// `s` without the white space that it ends with.
pub open spec fn trim_back(s: Seq<char>) -> Seq<char>
    decreases s.len(),
{
    if s.len() > 0 && is_space(s.last()) {
        trim_back(s.drop_last())
    } else {
        s
    }
}

/// `s` without the white space around it.
pub open spec fn trimmed(s: Seq<char>) -> Seq<char> {
    trim_back(trim_front(s))
}

/// The index of the first `c` in `s`, or the length of `s` where there is none.
pub open spec fn first_index(s: Seq<char>, c: char) -> int
    decreases s.len(),
{
    if s.len() == 0 || s[0] == c {
        0
    } else {
        1 + first_index(s.drop_first(), c)
    }
}

/// A line without the carriage return that may stand before its line feed.
pub open spec fn without_return(line: Seq<char>) -> Seq<char> {
    if line.len() > 0 && line.last() == '\r' {
        line.drop_last()
    } else {
        line
    }
}

/// The lines of `s`: each ends with a line feed, with a carriage return and a line
/// feed, or with the text itself.
pub open spec fn lines_of(s: Seq<char>) -> Seq<Seq<char>>
    decreases s.len(),
    via lines_of_terminates
{
    let end = first_index(s, '\n');
    if s.len() == 0 {
        Seq::empty()
    } else if end == s.len() {
        seq![s]
    } else {
        seq![without_return(s.take(end))] + lines_of(s.skip(end + 1))
    }
}

#[via_fn]
proof fn lines_of_terminates(s: Seq<char>) {
    lemma_first_index(s, '\n');
}

/// Where `pattern` occurs in `s` for the first time at `from` or after it.
pub open spec fn find_from(s: Seq<char>, pattern: Seq<char>, from: int) -> Option<int>
    decreases s.len() - from,
{
    if from < 0 || from + pattern.len() > s.len() {
        None
    } else if s.subrange(from, from + pattern.len()) =~= pattern {
        Some(from)
    } else {
        find_from(s, pattern, from + 1)
    }
}

/// Whether `c` is one of the ten ASCII digits.
pub open spec fn is_digit(c: char) -> bool {
    '0' <= c <= '9'
}

/// The number that the decimal digits of `s` stand for.
pub open spec fn digits_value(s: Seq<char>) -> nat
    decreases s.len(),
{
    if s.len() == 0 {
        0
    } else {
        digits_value(s.drop_last()) * 10 + (s.last() as u32 - '0' as u32) as nat
    }
}

/// The number that one or more decimal digits stand for, where it is at most `max`.
pub open spec fn number_of(digits: Seq<char>, max: nat) -> Option<nat> {
    if digits.len() > 0 && (forall|i: int| 0 <= i < digits.len() ==> is_digit(digits[i]))
        && digits_value(digits) <= max {
        Some(digits_value(digits))
    } else {
        None
    }
}

/// The number that `s` spells: decimal digits, possibly after a plus sign, with a value
/// of at most `max`.
pub open spec fn unsigned_value(s: Seq<char>, max: nat) -> Option<nat> {
    if s.len() > 0 && s[0] == '+' {
        number_of(s.skip(1), max)
    } else {
        number_of(s, max)
    }
}

/// The digit for a number below ten.
pub open spec fn digit_char(n: nat) -> char {
    ('0' as u32 + n) as char
}

/// `n` written in the given base, without leading zeros.
pub open spec fn numeral(n: nat, base: nat) -> Seq<char>
    decreases n,
{
    if base < 2 || n < base {
        seq![digit_char(n)]
    } else {
        proof {
            vstd::arithmetic::div_mod::lemma_div_decreases(n as int, base as int);
        }
        numeral(n / base, base).push(digit_char(n % base))
    }
}

/// The texts that a vector of strings holds.
pub open spec fn texts(v: Seq<String>) -> Seq<Seq<char>> {
    v.map_values(|t: String| t@)
}

/// The first index lies within the text, everything before it differs from `c`, and what
/// stands there is `c`.
pub proof fn lemma_first_index(s: Seq<char>, c: char)
    ensures
        0 <= first_index(s, c) <= s.len(),
        forall|i: int| 0 <= i < first_index(s, c) ==> s[i] != c,
        first_index(s, c) < s.len() ==> s[first_index(s, c)] == c,
    decreases s.len(),
{
    if s.len() != 0 && s[0] != c {
        let rest = s.drop_first();
        lemma_first_index(rest, c);
        assert forall|i: int| 0 <= i < first_index(s, c) implies s[i] != c by {
            if i > 0 {
                assert(s[i] == rest[i - 1]);
            }
        }
    }
}

/// An index with `c` at it and no `c` before it is the first index.
proof fn lemma_first_index_is(s: Seq<char>, c: char, k: int)
    requires
        0 <= k <= s.len(),
        forall|i: int| 0 <= i < k ==> s[i] != c,
        k < s.len() ==> s[k] == c,
    ensures
        first_index(s, c) == k,
{
    lemma_first_index(s, c);
}

/// The characters of `s`.
pub fn chars_of(s: &str) -> (r: Vec<char>)
    ensures
        r@ == s@,
{
    let mut out: Vec<char> = Vec::new();
    for c in it: s.chars()
        invariant
            it.seq() == s@,
            out@ == s@.take(it.index() as int),
    {
        out.push(c);
    }
    out
}

/// The part of `s` from character `from` up to, but not including, character `to`.
pub fn part(s: &str, from: usize, to: usize) -> (r: String)
    requires
        from <= to <= s@.len(),
    ensures
        r@ == s@.subrange(from as int, to as int),
{
    s.substring_char(from, to).to_owned()
}

/// Whether `c` is white space.
pub fn is_space_char(c: char) -> (r: bool)
    ensures
        r == is_space(c),
{
    let n: u32 = c as u32;
    (0x9 <= n && n <= 0xd) || n == 0x20 || n == 0x85 || n == 0xa0 || n == 0x1680 || (0x2000 <= n
        && n <= 0x200a) || n == 0x2028 || n == 0x2029 || n == 0x202f || n == 0x205f || n == 0x3000
}

/// `s` without the white space around it.
pub fn trim(s: &str) -> (r: String)
    ensures
        r@ == trimmed(s@),
{
    let cs = chars_of(s);
    let n: usize = cs.len();
    let mut a: usize = 0;
    assert(s@.skip(0) == s@);
    while a < n && is_space_char(cs[a])
        invariant
            n == cs.len(),
            cs@ == s@,
            a <= n,
            trim_front(s@) == trim_front(s@.skip(a as int)),
        decreases n - a,
    {
        assert(s@.skip(a as int).drop_first() == s@.skip(a + 1));
        a = a + 1;
    }
    let ghost front = s@.skip(a as int);
    assert(trim_front(s@) == front);
    let mut b: usize = n;
    assert(s@.subrange(a as int, b as int) == front);
    while b > a && is_space_char(cs[b - 1])
        invariant
            n == cs.len(),
            cs@ == s@,
            a <= b <= n,
            trim_back(front) == trim_back(s@.subrange(a as int, b as int)),
        decreases b,
    {
        assert(s@.subrange(a as int, b as int).drop_last() == s@.subrange(a as int, b - 1));
        b = b - 1;
    }
    part(s, a, b)
}

/// The lines of `s`.
pub fn lines(s: &str) -> (r: Vec<String>)
    ensures
        texts(r@) == lines_of(s@),
{
    let cs = chars_of(s);
    let n: usize = cs.len();
    let mut out: Vec<String> = Vec::new();
    let mut start: usize = 0;
    let mut at: usize = 0;
    assert(s@.skip(0) == s@);
    assert(texts(out@) + lines_of(s@) == lines_of(s@));
    while at < n
        invariant
            n == cs.len(),
            cs@ == s@,
            start <= at <= n,
            forall|i: int| start <= i < at ==> s@[i] != '\n',
            texts(out@) + lines_of(s@.skip(start as int)) == lines_of(s@),
        decreases n - at,
    {
        if cs[at] == '\n' {
            let ghost rest = s@.skip(start as int);
            let ghost before = out@;
            proof {
                lemma_first_index_is(rest, '\n', at - start);
                assert(rest.take(at - start) == s@.subrange(start as int, at as int));
                assert(rest.skip(at - start + 1) == s@.skip(at + 1));
            }
            let end: usize = if at > start && cs[at - 1] == '\r' {
                at - 1
            } else {
                at
            };
            let line = part(s, start, end);
            assert(line@ == without_return(rest.take(at - start)));
            out.push(line);
            assert(texts(out@) == texts(before).push(line@));
            assert(texts(out@) + lines_of(s@.skip(at + 1)) == texts(before) + lines_of(rest));
            start = at + 1;
        }
        at = at + 1;
    }
    if start < n {
        let ghost rest = s@.skip(start as int);
        let ghost before = out@;
        proof {
            lemma_first_index_is(rest, '\n', n - start);
        }
        let line = part(s, start, n);
        assert(line@ == rest);
        out.push(line);
        assert(texts(out@) == texts(before).push(line@));
        assert(texts(before) + lines_of(rest) == texts(before).push(rest));
    } else {
        assert(lines_of(s@.skip(n as int)) == Seq::<Seq<char>>::empty());
    }
    out
}

/// Where `pattern` occurs in `s` for the first time at character `from` or after it.
pub fn find(s: &Vec<char>, pattern: &Vec<char>, from: usize) -> (r: Option<usize>)
    requires
        from <= s.len(),
    ensures
        match find_from(s@, pattern@, from as int) {
            Some(i) => r == Some(i as usize) && from <= i && i + pattern.len() <= s.len(),
            None => r is None,
        },
{
    let n: usize = s.len();
    let m: usize = pattern.len();
    let mut at: usize = from;
    while m <= n - at
        invariant
            n == s.len(),
            m == pattern.len(),
            from <= at <= n,
            find_from(s@, pattern@, from as int) == find_from(s@, pattern@, at as int),
        decreases n - at,
    {
        let mut k: usize = 0;
        while k < m && s[at + k] == pattern[k]
            invariant
                n == s.len(),
                m == pattern.len(),
                at + m <= n,
                k <= m,
                forall|i: int| 0 <= i < k ==> s@[at + i] == pattern@[i],
            decreases m - k,
        {
            k = k + 1;
        }
        let ghost here = s@.subrange(at as int, at + m);
        if k == m {
            assert(here == pattern@);
            return Some(at);
        }
        assert(here[k as int] != pattern@[k as int]);
        at = at + 1;
    }
    None
}

/// A longer run of digits stands for at least as much as its beginning.
proof fn lemma_digits_grow(s: Seq<char>, k: int)
    requires
        0 <= k <= s.len(),
    ensures
        digits_value(s.take(k)) <= digits_value(s),
    decreases s.len(),
{
    if k == s.len() {
        assert(s.take(k) == s);
    } else {
        lemma_digits_grow(s.drop_last(), k);
        assert(s.drop_last().take(k) == s.take(k));
    }
}

/// The number that `s` spells in decimal, where that is at most `max`.
pub fn parse_unsigned(s: &str, max: u64) -> (r: Option<u64>)
    ensures
        match unsigned_value(s@, max as nat) {
            Some(n) => r == Some(n as u64) && n <= max,
            None => r is None,
        },
{
    let cs = chars_of(s);
    let n: usize = cs.len();
    let first: usize = if n > 0 && cs[0] == '+' {
        1
    } else {
        0
    };
    let ghost digits = s@.skip(first as int);
    proof {
        assert(first == 0 ==> digits == s@);
    }
    if first == n {
        return None;
    }
    let mut value: u64 = 0;
    let mut at: usize = first;
    assert(digits.take(0) == Seq::<char>::empty());
    while at < n
        invariant
            n == cs.len(),
            cs@ == s@,
            first <= at <= n,
            first < n,
            digits == s@.skip(first as int),
            unsigned_value(s@, max as nat) == number_of(digits, max as nat),
            forall|i: int| 0 <= i < at - first ==> is_digit(digits[i]),
            value == digits_value(digits.take(at - first)),
            value <= max,
        decreases n - at,
    {
        let c: char = cs[at];
        let ghost done = digits.take(at - first + 1);
        proof {
            assert(digits[at - first] == c);
            assert(done.drop_last() == digits.take(at - first));
            assert(done.last() == c);
            lemma_digits_grow(digits, at - first + 1);
        }
        if !('0' <= c && c <= '9') {
            assert(!is_digit(digits[at - first]));
            return None;
        }
        let d: u64 = (c as u32 - '0' as u32) as u64;
        if value > max / 10 || d > max - value * 10 {
            assert(digits_value(done) > max);
            return None;
        }
        value = value * 10 + d;
        at = at + 1;
    }
    assert(digits.take(n - first) == digits);
    Some(value)
}

/// The digit for a number below ten.
fn digit_text(n: u32) -> (r: &'static str)
    requires
        n < 10,
    ensures
        r@ == seq![digit_char(n as nat)],
{
    proof {
        reveal_strlit("0");
        reveal_strlit("1");
        reveal_strlit("2");
        reveal_strlit("3");
        reveal_strlit("4");
        reveal_strlit("5");
        reveal_strlit("6");
        reveal_strlit("7");
        reveal_strlit("8");
        reveal_strlit("9");
    }
    let r: &'static str = match n {
        0 => "0",
        1 => "1",
        2 => "2",
        3 => "3",
        4 => "4",
        5 => "5",
        6 => "6",
        7 => "7",
        8 => "8",
        _ => "9",
    };
    assert(r@ =~= seq![digit_char(n as nat)]);
    r
}

/// `n` written in the given base, without leading zeros.
pub fn write_numeral(n: u32, base: u32) -> (r: String)
    requires
        2 <= base <= 10,
    ensures
        r@ == numeral(n as nat, base as nat),
    decreases n,
{
    if n < base {
        digit_text(n).to_owned()
    } else {
        proof {
            vstd::arithmetic::div_mod::lemma_div_decreases(n as int, base as int);
        }
        let mut out = write_numeral(n / base, base);
        out.append(digit_text(n % base));
        assert(out@ == numeral(n as nat, base as nat));
        out
    }
}

/// `head`, `middle` and `tail` one after the other.
pub fn join3(head: &str, middle: &str, tail: &str) -> (r: String)
    ensures
        r@ == head@ + middle@ + tail@,
{
    let mut out = head.to_owned();
    out.append(middle);
    out.append(tail);
    out
}

/// A numeral has decimal digits only, at least one, and their value is the number.
proof fn lemma_numeral_digits(n: nat)
    ensures
        numeral(n, 10).len() > 0,
        forall|i: int| 0 <= i < numeral(n, 10).len() ==> is_digit(numeral(n, 10)[i]),
        digits_value(numeral(n, 10)) == n,
    decreases n,
{
    let s = numeral(n, 10);
    if n < 10 {
        assert(s.drop_last() == Seq::<char>::empty());
        assert(digits_value(Seq::<char>::empty()) == 0);
        assert(s.last() == digit_char(n));
    } else {
        lemma_numeral_digits(n / 10);
        assert(s.drop_last() == numeral(n / 10, 10));
        assert(s.last() == digit_char(n % 10));
    }
}

/// The number that digits stand for in the given base.
pub open spec fn value_in_base(s: Seq<char>, base: nat) -> nat
    decreases s.len(),
{
    if s.len() == 0 {
        0
    } else {
        value_in_base(s.drop_last(), base) * base + (s.last() as u32 - '0' as u32) as nat
    }
}

/// A numeral stands for its number, whatever the base.
pub proof fn law_numeral_stands_for_its_number(n: nat, base: nat)
    requires
        2 <= base <= 10,
    ensures
        value_in_base(numeral(n, base), base) == n,
    decreases n,
{
    let s = numeral(n, base);
    if n < base {
        assert(s.drop_last() == Seq::<char>::empty());
        assert(value_in_base(Seq::<char>::empty(), base) * base == 0) by (nonlinear_arith)
            requires
                value_in_base(Seq::<char>::empty(), base) == 0,
        ;
        assert(s.last() == digit_char(n));
    } else {
        vstd::arithmetic::div_mod::lemma_div_decreases(n as int, base as int);
        vstd::arithmetic::div_mod::lemma_fundamental_div_mod(n as int, base as int);
        vstd::arithmetic::mul::lemma_mul_is_commutative(base as int, n as int / base as int);
        law_numeral_stands_for_its_number(n / base, base);
        assert(s.drop_last() == numeral(n / base, base));
        assert(s.last() == digit_char(n % base));
    }
}

/// A number that is written in decimal is read back as it was.
pub proof fn law_numeral_reads_back(n: nat, max: nat)
    requires
        n <= max,
    ensures
        unsigned_value(numeral(n, 10), max) == Some(n),
{
    lemma_numeral_digits(n);
    assert(is_digit(numeral(n, 10)[0]));
}

/// What is left after trimming starts and ends without white space.
pub proof fn law_trimmed_has_no_space_around(s: Seq<char>)
    ensures
        trimmed(s).len() > 0 ==> !is_space(trimmed(s)[0]) && !is_space(trimmed(s).last()),
{
    lemma_trim_front(s);
    lemma_trim_back(trim_front(s));
}

/// Trimming a second time changes nothing.
pub proof fn law_trimming_twice_is_trimming_once(s: Seq<char>)
    ensures
        trimmed(trimmed(s)) == trimmed(s),
{
    law_trimmed_has_no_space_around(s);
}

proof fn lemma_trim_front(s: Seq<char>)
    ensures
        trim_front(s).len() > 0 ==> !is_space(trim_front(s)[0]),
    decreases s.len(),
{
    if s.len() > 0 && is_space(s[0]) {
        lemma_trim_front(s.drop_first());
    }
}

proof fn lemma_trim_back(s: Seq<char>)
    ensures
        trim_back(s).len() <= s.len(),
        trim_back(s).len() > 0 ==> !is_space(trim_back(s).last()) && trim_back(s)[0] == s[0],
    decreases s.len(),
{
    if s.len() > 0 && is_space(s.last()) {
        lemma_trim_back(s.drop_last());
    }
}

/// No line holds a line feed.
pub proof fn law_lines_hold_no_line_feed(s: Seq<char>, i: int, k: int)
    requires
        0 <= i < lines_of(s).len(),
        0 <= k < lines_of(s)[i].len(),
    ensures
        lines_of(s)[i][k] != '\n',
    decreases s.len(),
{
    let end = first_index(s, '\n');
    lemma_first_index(s, '\n');
    if end < s.len() {
        if i > 0 {
            assert(lines_of(s)[i] == lines_of(s.skip(end + 1))[i - 1]);
            law_lines_hold_no_line_feed(s.skip(end + 1), i - 1, k);
        }
    }
}

/// A line, a line feed and a further text have that line first, and the lines of the further
/// text after it.
pub proof fn law_lines_split_at_line_feed(line: Seq<char>, rest: Seq<char>)
    requires
        forall|i: int| 0 <= i < line.len() ==> line[i] != '\n',
    ensures
        lines_of(line + seq!['\n'] + rest) == seq![without_return(line)] + lines_of(rest),
{
    let s = line + seq!['\n'] + rest;
    lemma_first_index_is(s, '\n', line.len() as int);
    assert(s.take(line.len() as int) == line);
    assert(s.skip(line.len() as int + 1) == rest);
}

/// Trimming drops white space only, and only at the two ends: what is left is one stretch of
/// the text with nothing but white space before and after it.
pub proof fn law_trimming_drops_only_space_at_the_ends(s: Seq<char>)
    ensures
        exists|a: int, b: int|
            0 <= a <= b <= s.len() && #[trigger] s.subrange(a, b) == trimmed(s) && (forall|i: int|
                0 <= i < a || b <= i < s.len() ==> is_space(s[i])),
{
    let a = lemma_trim_front_cut(s);
    let front = trim_front(s);
    let b = lemma_trim_back_cut(front);
    assert(s.subrange(a, a + b) == trimmed(s));
    assert forall|i: int| 0 <= i < a || a + b <= i < s.len() implies is_space(s[i]) by {
        if i >= a {
            assert(s[i] == front[i - a]);
        }
    }
}

proof fn lemma_trim_front_cut(s: Seq<char>) -> (a: int)
    ensures
        0 <= a <= s.len(),
        trim_front(s) == s.skip(a),
        forall|i: int| 0 <= i < a ==> is_space(s[i]),
    decreases s.len(),
{
    if s.len() > 0 && is_space(s[0]) {
        let rest = s.drop_first();
        let a = lemma_trim_front_cut(rest);
        assert(rest.skip(a) == s.skip(a + 1));
        assert forall|i: int| 0 <= i < a + 1 implies is_space(s[i]) by {
            if i > 0 {
                assert(s[i] == rest[i - 1]);
            }
        }
        a + 1
    } else {
        assert(s.skip(0) == s);
        0
    }
}

proof fn lemma_trim_back_cut(s: Seq<char>) -> (b: int)
    ensures
        0 <= b <= s.len(),
        trim_back(s) == s.take(b),
        forall|i: int| b <= i < s.len() ==> is_space(s[i]),
    decreases s.len(),
{
    if s.len() > 0 && is_space(s.last()) {
        let rest = s.drop_last();
        let b = lemma_trim_back_cut(rest);
        assert(rest.take(b) == s.take(b));
        assert forall|i: int| b <= i < s.len() implies is_space(s[i]) by {
            if i < s.len() - 1 {
                assert(s[i] == rest[i]);
            }
        }
        b
    } else {
        assert(s.take(s.len() as int) == s);
        s.len() as int
    }
}

/// A text that neither starts nor ends with white space comes back out of any white space
/// that is put around it.
pub proof fn law_trimming_takes_space_away_again(
    before: Seq<char>,
    s: Seq<char>,
    after: Seq<char>,
)
    requires
        forall|i: int| 0 <= i < before.len() ==> is_space(before[i]),
        forall|i: int| 0 <= i < after.len() ==> is_space(after[i]),
        s.len() > 0 ==> !is_space(s[0]) && !is_space(s.last()),
    ensures
        trimmed(before + s + after) == s,
{
    let whole = before + s + after;
    lemma_trim_front_of(before, s + after);
    assert(before + (s + after) == whole);
    if s.len() > 0 {
        assert((s + after)[0] == s[0]);
        assert(trim_front(s + after) == s + after);
        lemma_trim_back_of(s, after);
        assert(trim_back(s) == s);
    } else {
        assert(s + after == after);
        lemma_trim_front_of(after, Seq::empty());
        assert(after + Seq::<char>::empty() == after);
        assert(trim_front(Seq::<char>::empty()) == Seq::<char>::empty());
        assert(trim_back(Seq::<char>::empty()) == Seq::<char>::empty());
    }
}

proof fn lemma_trim_front_of(space: Seq<char>, s: Seq<char>)
    requires
        forall|i: int| 0 <= i < space.len() ==> is_space(space[i]),
    ensures
        trim_front(space + s) == trim_front(s),
    decreases space.len(),
{
    if space.len() == 0 {
        assert(space + s == s);
    } else {
        assert((space + s)[0] == space[0]);
        assert((space + s).drop_first() == space.drop_first() + s);
        lemma_trim_front_of(space.drop_first(), s);
    }
}

proof fn lemma_trim_back_of(s: Seq<char>, space: Seq<char>)
    requires
        forall|i: int| 0 <= i < space.len() ==> is_space(space[i]),
    ensures
        trim_back(s + space) == trim_back(s),
    decreases space.len(),
{
    if space.len() == 0 {
        assert(s + space == s);
    } else {
        assert((s + space).last() == space.last());
        assert((s + space).drop_last() == s + space.drop_last());
        lemma_trim_back_of(s, space.drop_last());
    }
}

/// A text without a line feed is one line, and an empty text is none.
pub proof fn law_text_without_line_feed_is_one_line(s: Seq<char>)
    requires
        forall|i: int| 0 <= i < s.len() ==> s[i] != '\n',
    ensures
        s.len() == 0 ==> lines_of(s).len() == 0,
        s.len() > 0 ==> lines_of(s) == seq![s],
{
    lemma_first_index_is(s, '\n', s.len() as int);
}

/// A line ends with a line feed or with a carriage return and a line feed, and neither is
/// part of it.
pub proof fn law_line_ends_are_not_part_of_lines(line: Seq<char>, rest: Seq<char>)
    requires
        forall|i: int| 0 <= i < line.len() ==> line[i] != '\n',
    ensures
        lines_of(line + seq!['\r', '\n'] + rest) == seq![line] + lines_of(rest),
        line.len() == 0 || line.last() != '\r' ==> lines_of(line + seq!['\n'] + rest)
            == seq![line] + lines_of(rest),
{
    let returned = line.push('\r');
    law_lines_split_at_line_feed(line, rest);
    law_lines_split_at_line_feed(returned, rest);
    assert(returned + seq!['\n'] + rest == line + seq!['\r', '\n'] + rest);
    assert(returned.drop_last() == line);
}

/// What is found is an occurrence and the first one; where nothing is found there is none.
pub proof fn law_found_is_the_first_occurrence(s: Seq<char>, pattern: Seq<char>, from: int)
    requires
        0 <= from,
    ensures
        find_from(s, pattern, from) matches Some(i) ==> {
            &&& from <= i
            &&& i + pattern.len() <= s.len()
            &&& s.subrange(i, i + pattern.len()) == pattern
            &&& forall|k: int|
                from <= k < i ==> #[trigger] s.subrange(k, k + pattern.len()) != pattern
        },
        find_from(s, pattern, from) is None ==> forall|k: int|
            from <= k && k + pattern.len() <= s.len() ==> #[trigger] s.subrange(
                k,
                k + pattern.len(),
            ) != pattern,
    decreases s.len() - from,
{
    if from + pattern.len() <= s.len() && !(s.subrange(from, from + pattern.len()) =~= pattern) {
        law_found_is_the_first_occurrence(s, pattern, from + 1);
    }
}

/// Digits are read as the decimal number that they stand for, with or without a plus sign
/// before them; a number beyond the bound is not read.
pub proof fn law_digits_are_read_as_their_number(digits: Seq<char>, max: nat)
    requires
        digits.len() > 0,
        forall|i: int| 0 <= i < digits.len() ==> '0' <= #[trigger] digits[i] <= '9',
    ensures
        value_in_base(digits, 10) <= max ==> unsigned_value(digits, max) == Some(
            value_in_base(digits, 10),
        ) && unsigned_value(seq!['+'] + digits, max) == Some(value_in_base(digits, 10)),
        value_in_base(digits, 10) > max ==> unsigned_value(digits, max) is None
            && unsigned_value(seq!['+'] + digits, max) is None,
{
    lemma_decimal_value(digits);
    assert(digits[0] != '+');
    assert((seq!['+'] + digits).skip(1) == digits);
}

/// A text that holds anything but digits, apart from a plus sign at its start, is no number,
/// and neither is one without digits.
pub proof fn law_other_text_is_no_number(s: Seq<char>, max: nat, i: int)
    requires
        s.len() == 0 || s =~= seq!['+'] || (0 <= i < s.len() && !('0' <= s[i] <= '9') && (i > 0
            || s[0] != '+')),
    ensures
        unsigned_value(s, max) is None,
{
    if s.len() > 0 && s[0] == '+' {
        if i > 0 && i < s.len() && !('0' <= s[i] <= '9') {
            assert(s.skip(1)[i - 1] == s[i]);
            assert(!is_digit(s.skip(1)[i - 1]));
        }
    } else if s.len() > 0 {
        assert(!is_digit(s[i]));
    }
}

proof fn lemma_decimal_value(s: Seq<char>)
    ensures
        digits_value(s) == value_in_base(s, 10),
    decreases s.len(),
{
    if s.len() > 0 {
        lemma_decimal_value(s.drop_last());
    }
}

/// A numeral is made of digits below its base, and does not start with a zero unless it is
/// the numeral of zero.
pub proof fn law_numeral_is_canonical(n: nat, base: nat)
    requires
        2 <= base <= 10,
    ensures
        numeral(n, base).len() > 0,
        forall|i: int|
            0 <= i < numeral(n, base).len() ==> 0 <= ((#[trigger] numeral(n, base)[i]) as u32
                - '0' as u32) < base,
        numeral(n, base)[0] == '0' ==> n == 0 && numeral(n, base).len() == 1,
    decreases n,
{
    if n >= base {
        vstd::arithmetic::div_mod::lemma_div_decreases(n as int, base as int);
        vstd::arithmetic::div_mod::lemma_div_non_zero(n as int, base as int);
        vstd::arithmetic::div_mod::lemma_mod_bound(n as int, base as int);
        law_numeral_is_canonical(n / base, base);
        assert(n / base >= 1);
    }
}

/// Different numbers have different numerals.
pub proof fn law_numerals_differ(n: nat, m: nat, base: nat)
    requires
        2 <= base <= 10,
        numeral(n, base) == numeral(m, base),
    ensures
        n == m,
{
    law_numeral_stands_for_its_number(n, base);
    law_numeral_stands_for_its_number(m, base);
}

/// White space is the blank, what moves on to the next column, line or page, and the spaces of
/// other scripts and widths; nothing else is, in particular no visible ASCII character.
pub proof fn law_white_space(c: char)
    ensures
        '!' <= c <= '~' ==> !is_space(c),
        is_space(c) <==> c == ' ' || c == '\t' || c == '\n' || c == '\u{b}' || c == '\u{c}' || c
            == '\r' || c == '\u{85}' || c == '\u{a0}' || c == '\u{1680}' || '\u{2000}' <= c
            <= '\u{200a}' || c == '\u{2028}' || c == '\u{2029}' || c == '\u{202f}' || c
            == '\u{205f}' || c == '\u{3000}',
{
}

/// Text between two fixed texts can be told apart.
pub proof fn lemma_middle_is_kept(head: Seq<char>, a: Seq<char>, b: Seq<char>, tail: Seq<char>)
    requires
        head + a + tail == head + b + tail,
    ensures
        a == b,
{
    let s = head + a + tail;
    let t = head + b + tail;
    assert(s.len() == t.len());
    assert forall|i: int| 0 <= i < a.len() implies a[i] == b[i] by {
        assert(s[head.len() + i] == a[i]);
        assert(t[head.len() + i] == b[i]);
    }
    assert(a =~= b);
}

} // verus!
