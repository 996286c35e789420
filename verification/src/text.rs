//! Strings as sequences of characters: search, comparison and decimal digits.

use vstd::prelude::*;

verus! {

/// `needle` stands in `hay` with its first character at index `at`.
pub open spec fn occurs_at(hay: Seq<char>, needle: Seq<char>, at: int) -> bool {
    &&& 0 <= at
    &&& at + needle.len() <= hay.len()
    &&& hay.subrange(at, at + needle.len()) == needle
}

/// `needle` stands somewhere in `hay`. The empty text stands in every text.
pub open spec fn has_text(hay: Seq<char>, needle: Seq<char>) -> bool {
    exists|at: int| occurs_at(hay, needle, at)
}

/// The characters of `s`, in order.
pub fn chars_of(s: &str) -> (v: Vec<char>)
    ensures
        v@ == s@,
{
    let mut v: Vec<char> = Vec::new();
    for c in it: s.chars()
        invariant
            it.seq() == s@,
            v@ == it.seq().take(it.index() as int),
    {
        v.push(c);
    }
    v
}

/// Whether `needle` stands in `hay` at index `at`.
pub fn matches_at(hay: &Vec<char>, needle: &Vec<char>, at: usize) -> (r: bool)
    ensures
        r == occurs_at(hay@, needle@, at as int),
{
    if needle.len() > hay.len() || at > hay.len() - needle.len() {
        return false;
    }
    let mut k: usize = 0;
    while k < needle.len()
        invariant
            k <= needle.len(),
            at + needle.len() <= hay.len(),
            forall|j: int| 0 <= j < k ==> hay@[at + j] == needle@[j],
        decreases needle.len() - k,
    {
        if hay[at + k] != needle[k] {
            assert(hay@.subrange(at as int, at + needle.len())[k as int] != needle@[k as int]);
            return false;
        }
        k += 1;
    }
    assert(hay@.subrange(at as int, at + needle.len()) =~= needle@);
    true
}

/// Whether `needle` stands somewhere in `hay`, both given as characters.
pub fn chars_contain(hay: &Vec<char>, needle: &Vec<char>) -> (r: bool)
    ensures
        r == has_text(hay@, needle@),
{
    if needle.len() > hay.len() {
        return false;
    }
    if needle.len() == 0 {
        assert(occurs_at(hay@, needle@, 0)) by {
            assert(hay@.subrange(0, 0) =~= needle@);
        }
        return true;
    }
    let last: usize = hay.len() - needle.len();
    let mut at: usize = 0;
    while at <= last
        invariant
            at <= last + 1,
            last == hay.len() - needle.len(),
            0 < needle.len() <= hay.len(),
            forall|j: int| 0 <= j < at ==> !occurs_at(hay@, needle@, j),
        decreases last + 1 - at,
    {
        if matches_at(hay, needle, at) {
            return true;
        }
        at += 1;
    }
    false
}

/// Whether `needle` stands somewhere in `hay`.
pub fn contains(hay: &str, needle: &str) -> (r: bool)
    ensures
        r == has_text(hay@, needle@),
{
    let h = chars_of(hay);
    let n = chars_of(needle);
    chars_contain(&h, &n)
}

/// Whether two strings hold the same characters.
pub fn same_text(a: &str, b: &str) -> (r: bool)
    ensures
        r == (a@ == b@),
{
    let x = chars_of(a);
    let y = chars_of(b);
    if x.len() != y.len() {
        return false;
    }
    let r = matches_at(&x, &y, 0);
    assert(x@.subrange(0, x@.len() as int) =~= x@);
    r
}

/// Whether `item` is one of `list`.
pub open spec fn lists_text(list: Seq<Seq<char>>, item: Seq<char>) -> bool {
    exists|i: int| 0 <= i < list.len() && list[i] == item
}

/// The digit `d` as a character; `'0'` for anything that is no digit.
pub open spec fn digit_char(d: int) -> char {
    if d == 1 {
        '1'
    } else if d == 2 {
        '2'
    } else if d == 3 {
        '3'
    } else if d == 4 {
        '4'
    } else if d == 5 {
        '5'
    } else if d == 6 {
        '6'
    } else if d == 7 {
        '7'
    } else if d == 8 {
        '8'
    } else if d == 9 {
        '9'
    } else {
        '0'
    }
}

/// `n` written in decimal, without sign or leading zeros.
pub open spec fn decimal_text(n: nat) -> Seq<char>
    decreases n,
{
    if n < 10 {
        seq![digit_char(n as int)]
    } else {
        decimal_text(n / 10).push(digit_char((n % 10) as int))
    }
}

/// The one-character string of a digit; `0` for anything that is no digit.
pub fn digit_str(d: u64) -> (r: &'static str)
    ensures
        r@ == seq![digit_char(d as int)],
{
    proof {
        reveal_strlit("0");
        reveal_strlit("1");
        reveal_strlit("2");
        reveal_strlit("3");
        reveal_strlit("4");
        reveal_strlit("5");
        reveal_strlit("6");
        reveal_strlit("7");
        reveal_strlit("8");
        reveal_strlit("9");
    }
    let r = if d == 1 {
        "1"
    } else if d == 2 {
        "2"
    } else if d == 3 {
        "3"
    } else if d == 4 {
        "4"
    } else if d == 5 {
        "5"
    } else if d == 6 {
        "6"
    } else if d == 7 {
        "7"
    } else if d == 8 {
        "8"
    } else if d == 9 {
        "9"
    } else {
        "0"
    };
    assert(r@ =~= seq![digit_char(d as int)]);
    r
}

/// Appends `n` in decimal to `out`.
pub fn append_decimal(out: &mut String, n: u64)
    ensures
        final(out)@ == old(out)@ + decimal_text(n as nat),
    decreases n,
{
    if n >= 10 {
        append_decimal(out, n / 10);
    }
    out.append(digit_str(n % 10));
    assert(out@ =~= old(out)@ + decimal_text(n as nat));
}

/// `n` in decimal.
pub fn decimal_string(n: u64) -> (r: String)
    ensures
        r@ == decimal_text(n as nat),
{
    let mut out = String::new();
    append_decimal(&mut out, n);
    assert(out@ =~= decimal_text(n as nat));
    out
}


/// `i` is the first place in `s` that holds `c`.
pub open spec fn first_here(s: Seq<char>, c: char, i: int) -> bool {
    &&& 0 <= i < s.len()
    &&& s[i] == c
    &&& forall|j: int| 0 <= j < i ==> s[j] != c
}

/// The first place in `s` that holds `c`, or the length of `s` where none
/// does.
pub open spec fn first_at(s: Seq<char>, c: char) -> int {
    if exists|i: int| first_here(s, c, i) {
        choose|i: int| first_here(s, c, i)
    } else {
        s.len() as int
    }
}

/// Where `i` is the first place that holds `c`, `first_at` gives `i`.
pub proof fn lemma_first_found(s: Seq<char>, c: char, i: int)
    requires
        first_here(s, c, i),
    ensures
        first_at(s, c) == i,
{
    let k = choose|k: int| first_here(s, c, k);
    assert(first_here(s, c, k));
    if k < i {
        assert(s[k] != c);
    }
    if i < k {
        assert(s[i] != c);
    }
}

/// Where no place holds `c`, `first_at` gives the length.
pub proof fn lemma_first_absent(s: Seq<char>, c: char)
    requires
        forall|j: int| 0 <= j < s.len() ==> s[j] != c,
    ensures
        first_at(s, c) == s.len(),
{
    if exists|i: int| first_here(s, c, i) {
        let i = choose|i: int| first_here(s, c, i);
        assert(s[i] == c);
    }
}

/// `first_at` lies within the text or at its end, and no place before it
/// holds `c`.
pub proof fn lemma_first_at_bounds(s: Seq<char>, c: char)
    ensures
        0 <= first_at(s, c) <= s.len(),
        first_at(s, c) < s.len() ==> s[first_at(s, c)] == c,
        forall|j: int| 0 <= j < first_at(s, c) ==> s[j] != c,
{
    if exists|i: int| first_here(s, c, i) {
        let i = choose|i: int| first_here(s, c, i);
        assert(first_here(s, c, i));
    } else {
        assert forall|j: int| 0 <= j < s.len() implies s[j] != c by {
            if s[j] == c {
                lemma_some_first_here(s, c, j);
            }
        }
    }
}

/// Where the place `k` holds `c`, a first such place exists.
proof fn lemma_some_first_here(s: Seq<char>, c: char, k: int)
    requires
        0 <= k < s.len(),
        s[k] == c,
    ensures
        exists|i: int| first_here(s, c, i),
    decreases k,
{
    if forall|j: int| 0 <= j < k ==> s[j] != c {
        assert(first_here(s, c, k));
    } else {
        let j = choose|j: int| 0 <= j < k && s[j] == c;
        lemma_some_first_here(s, c, j);
    }
}

/// The first place from `from` and before `upto` that holds `c`, or `upto`
/// where none does.
pub fn find_from(chars: &Vec<char>, from: usize, upto: usize, c: char) -> (r: usize)
    requires
        from <= upto <= chars.len(),
    ensures
        from <= r <= upto,
        r == from + first_at(chars@.subrange(from as int, upto as int), c),
{
    let ghost part = chars@.subrange(from as int, upto as int);
    let mut i: usize = from;
    while i < upto
        invariant
            from <= i <= upto <= chars.len(),
            part == chars@.subrange(from as int, upto as int),
            forall|j: int| 0 <= j < i - from ==> part[j] != c,
        decreases upto - i,
    {
        if chars[i] == c {
            proof {
                assert(part[i - from] == c);
                lemma_first_found(part, c, i - from);
            }
            return i;
        }
        assert(part[i - from] == chars@[i as int]);
        i += 1;
    }
    proof {
        lemma_first_absent(part, c);
    }
    upto
}

/// The pieces of `s` between the places that hold `c`, in order. A text
/// without `c` is one piece; `c` at either end gives an empty piece there.
pub open spec fn split_on(s: Seq<char>, c: char) -> Seq<Seq<char>>
    decreases s.len(),
{
    let k = first_at(s, c);
    if 0 <= k < s.len() {
        seq![s.take(k)] + split_on(s.skip(k + 1), c)
    } else {
        seq![s]
    }
}

/// The texts that the ranges `ranges` cut from `s`.
pub open spec fn ranges_text(s: Seq<char>, ranges: Seq<(usize, usize)>) -> Seq<Seq<char>> {
    ranges.map_values(|p: (usize, usize)| s.subrange(p.0 as int, p.1 as int))
}

/// Every range lies within `a` and `b`, its start not after its end.
pub open spec fn ranges_within(ranges: Seq<(usize, usize)>, a: int, b: int) -> bool {
    forall|k: int| 0 <= k < ranges.len() ==> a <= (#[trigger] ranges[k]).0 <= ranges[k].1 <= b
}

/// The pieces of the characters from `a` to `b` between the places that
/// hold `sep`, as ranges.
pub fn split_ranges(chars: &Vec<char>, a: usize, b: usize, sep: char) -> (r: Vec<(usize, usize)>)
    requires
        a <= b <= chars.len(),
    ensures
        ranges_text(chars@, r@) == split_on(chars@.subrange(a as int, b as int), sep),
        ranges_within(r@, a as int, b as int),
        r@.len() >= 1,
{
    let ghost whole = chars@.subrange(a as int, b as int);
    let mut out: Vec<(usize, usize)> = Vec::new();
    let mut cur: usize = a;
    let mut done = false;
    assert(ranges_text(chars@, out@) + split_on(chars@.subrange(cur as int, b as int), sep)
        =~= split_on(whole, sep));
    while !done
        invariant
            a <= cur <= b <= chars.len(),
            whole == chars@.subrange(a as int, b as int),
            ranges_within(out@, a as int, b as int),
            done ==> ranges_text(chars@, out@) == split_on(whole, sep) && out@.len() >= 1,
            !done ==> ranges_text(chars@, out@) + split_on(
                chars@.subrange(cur as int, b as int),
                sep,
            ) == split_on(whole, sep),
        decreases
                (if done {
                    0int
                } else {
                    b - cur + 1
                }),
    {
        let ghost rest = chars@.subrange(cur as int, b as int);
        let ghost before = ranges_text(chars@, out@);
        let k = find_from(chars, cur, b, sep);
        out.push((cur, k));
        proof {
            assert(ranges_text(chars@, out@) =~= before.push(
                chars@.subrange(cur as int, k as int),
            ));
            assert(rest.take(k - cur) =~= chars@.subrange(cur as int, k as int));
            if k < b {
                assert(rest.skip(k - cur + 1) =~= chars@.subrange(k + 1, b as int));
                assert(before.push(chars@.subrange(cur as int, k as int)) + split_on(
                    chars@.subrange(k + 1, b as int),
                    sep,
                ) =~= before + (seq![rest.take(k - cur)] + split_on(rest.skip(k - cur + 1), sep)));
            } else {
                assert(chars@.subrange(cur as int, k as int) =~= rest);
                assert(before.push(rest) =~= before + seq![rest]);
            }
        }
        if k < b {
            cur = k + 1;
        } else {
            done = true;
        }
    }
    out
}

/// The character is white space: a blank, a tab, a line break or one of the
/// other separators of Unicode.
pub open spec fn is_space(c: char) -> bool {
    let u = c as u32;
    (0x09 <= u <= 0x0d) || u == 0x20 || u == 0x85 || u == 0xa0 || u == 0x1680 || (0x2000 <= u
        <= 0x200a) || u == 0x2028 || u == 0x2029 || u == 0x202f || u == 0x205f || u == 0x3000
}

/// Whether the character is white space.
pub fn is_whitespace(c: char) -> (r: bool)
    ensures
        r == is_space(c),
{
    let u: u32 = c as u32;
    (0x09 <= u && u <= 0x0d) || u == 0x20 || u == 0x85 || u == 0xa0 || u == 0x1680 || (0x2000 <= u
        && u <= 0x200a) || u == 0x2028 || u == 0x2029 || u == 0x202f || u == 0x205f || u == 0x3000
}

/// `i` is the first place in `s` that holds no white space.
pub open spec fn first_ink(s: Seq<char>, i: int) -> bool {
    &&& 0 <= i < s.len()
    &&& !is_space(s[i])
    &&& forall|j: int| 0 <= j < i ==> is_space(s[j])
}

/// `i` is the last place in `s` that holds no white space.
pub open spec fn last_ink(s: Seq<char>, i: int) -> bool {
    &&& 0 <= i < s.len()
    &&& !is_space(s[i])
    &&& forall|j: int| i < j < s.len() ==> is_space(s[j])
}

/// Where the text begins once the white space before it is taken off: the
/// first place without white space, or the length where there is none.
pub open spec fn trim_start(s: Seq<char>) -> int {
    if exists|i: int| first_ink(s, i) {
        choose|i: int| first_ink(s, i)
    } else {
        s.len() as int
    }
}

/// Where the text ends once the white space behind it is taken off: just
/// after the last place without white space, or the length where there is
/// none.
pub open spec fn trim_end(s: Seq<char>) -> int {
    if exists|i: int| last_ink(s, i) {
        (choose|i: int| last_ink(s, i)) + 1
    } else {
        s.len() as int
    }
}

/// `s` without the white space before and behind it.
pub open spec fn trimmed(s: Seq<char>) -> Seq<char> {
    if trim_start(s) <= trim_end(s) {
        s.subrange(trim_start(s), trim_end(s))
    } else {
        Seq::empty()
    }
}

/// Where `i` is the first place without white space, `trim_start` gives
/// `i`; where all is white space, it gives the length.
pub proof fn lemma_trim_start(s: Seq<char>, i: int)
    requires
        0 <= i <= s.len(),
        forall|j: int| 0 <= j < i ==> is_space(s[j]),
        i < s.len() ==> !is_space(s[i]),
    ensures
        trim_start(s) == i,
{
    if exists|k: int| first_ink(s, k) {
        let k = choose|k: int| first_ink(s, k);
        assert(first_ink(s, k));
        if k < i {
            assert(is_space(s[k]));
        }
        if i < k {
            assert(is_space(s[i]));
        }
    } else {
        if i < s.len() {
            assert(first_ink(s, i));
        }
    }
}

/// Where `e` is just after the last place without white space, `trim_end`
/// gives `e`; where all is white space, it gives the length.
pub proof fn lemma_trim_end(s: Seq<char>, e: int)
    requires
        0 <= e <= s.len(),
        forall|j: int| e <= j < s.len() ==> is_space(s[j]),
        e > 0 ==> !is_space(s[e - 1]),
        e == 0 ==> s.len() == 0,
    ensures
        trim_end(s) == e,
{
    if exists|k: int| last_ink(s, k) {
        let k = choose|k: int| last_ink(s, k);
        assert(last_ink(s, k));
        if k + 1 < e {
            assert(is_space(s[e - 1]));
        }
        if e < k + 1 {
            assert(is_space(s[k]));
        }
    } else {
        if e > 0 {
            assert(last_ink(s, e - 1));
        }
    }
}

/// The range of the characters from `a` to `b` that is left once the white
/// space before and behind is taken off.
pub fn trim_range(chars: &Vec<char>, a: usize, b: usize) -> (r: (usize, usize))
    requires
        a <= b <= chars.len(),
    ensures
        a <= r.0 <= r.1 <= b,
        chars@.subrange(r.0 as int, r.1 as int) == trimmed(chars@.subrange(a as int, b as int)),
{
    let ghost part = chars@.subrange(a as int, b as int);
    let mut start: usize = a;
    while start < b && is_whitespace(chars[start])
        invariant
            a <= start <= b <= chars.len(),
            part == chars@.subrange(a as int, b as int),
            forall|j: int| 0 <= j < start - a ==> is_space(part[j]),
        decreases b - start,
    {
        assert(part[start - a] == chars@[start as int]);
        start += 1;
    }
    if start == b {
        proof {
            lemma_trim_start(part, part.len() as int);
            if exists|k: int| last_ink(part, k) {
                let k = choose|k: int| last_ink(part, k);
                assert(is_space(part[k]));
            }
            assert(chars@.subrange(start as int, start as int) =~= trimmed(part));
        }
        return (start, start);
    }
    let mut end: usize = b;
    while end > start + 1 && is_whitespace(chars[end - 1])
        invariant
            a <= start < end <= b <= chars.len(),
            part == chars@.subrange(a as int, b as int),
            !is_space(chars@[start as int]),
            forall|j: int| end - a <= j < part.len() ==> is_space(part[j]),
        decreases end - start,
    {
        assert(part[end - 1 - a] == chars@[end - 1]);
        end -= 1;
    }
    proof {
        assert(part[start - a] == chars@[start as int]);
        assert(part[end - 1 - a] == chars@[end - 1]);
        lemma_trim_start(part, start - a);
        lemma_trim_end(part, end - a);
        assert(chars@.subrange(start as int, end as int) =~= part.subrange(start - a, end - a));
    }
    (start, end)
}

/// Whether the characters from `a` to `b` are those of `word`.
pub fn range_is(chars: &Vec<char>, a: usize, b: usize, word: &str) -> (r: bool)
    requires
        a <= b <= chars.len(),
    ensures
        r == (chars@.subrange(a as int, b as int) == word@),
{
    let w = chars_of(word);
    if w.len() != b - a {
        return false;
    }
    let r = matches_at(chars, &w, a);
    r
}


/// A text that lacks one of the characters of `needle` does not hold
/// `needle`.
pub proof fn lemma_lacking_char_lacks_text(hay: Seq<char>, needle: Seq<char>, k: int)
    requires
        0 <= k < needle.len(),
        forall|i: int| 0 <= i < hay.len() ==> hay[i] != needle[k],
    ensures
        !has_text(hay, needle),
{
    if has_text(hay, needle) {
        let at = choose|at: int| occurs_at(hay, needle, at);
        assert(hay.subrange(at, at + needle.len())[k] == needle[k]);
        assert(hay[at + k] == needle[k]);
    }
}

/// A number in decimal is made of the digits `0` to `9`.
pub proof fn lemma_decimal_text_is_digits(n: nat, i: int)
    requires
        0 <= i < decimal_text(n).len(),
    ensures
        '0' <= decimal_text(n)[i] <= '9',
    decreases n,
{
    if n >= 10 {
        if i < decimal_text(n / 10).len() {
            lemma_decimal_text_is_digits(n / 10, i);
        }
    }
}

} // verus!
