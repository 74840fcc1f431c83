//! Character-sequence helpers shared by the rest of the library: decimal
//! rendering, prefix/suffix tests, search and replacement.

use vstd::prelude::*;
use vstd::utf8::*;

verus! {

/// The character of a decimal digit.
pub open spec fn digit_char(d: nat) -> char {
    if d == 0 { '0' }
    else if d == 1 { '1' }
    else if d == 2 { '2' }
    else if d == 3 { '3' }
    else if d == 4 { '4' }
    else if d == 5 { '5' }
    else if d == 6 { '6' }
    else if d == 7 { '7' }
    else if d == 8 { '8' }
    else { '9' }
}

/// The decimal rendering of a natural number, without sign or leading zeros.
pub open spec fn decimal(n: nat) -> Seq<char>
    decreases n,
{
    if n < 10 {
        seq![digit_char(n)]
    } else {
        decimal(n / 10).push(digit_char(n % 10))
    }
}

/// Appends one character to a string.
#[verifier::external_body]
pub(crate) fn push_char(s: &mut String, c: char)
    ensures
        final(s)@ == old(s)@.push(c),
{
    s.push(c);
}

fn digit(d: u64) -> (c: char)
    requires
        d < 10,
    ensures
        c == digit_char(d as nat),
{
    match d {
        0 => '0',
        1 => '1',
        2 => '2',
        3 => '3',
        4 => '4',
        5 => '5',
        6 => '6',
        7 => '7',
        8 => '8',
        _ => '9',
    }
}

/// Appends the decimal rendering of `n` to `s`.
pub fn push_decimal(s: &mut String, n: u64)
    ensures
        final(s)@ == old(s)@ + decimal(n as nat),
    decreases n,
{
    if n >= 10 {
        push_decimal(s, n / 10);
    }
    push_char(s, digit(n % 10));
    assert(s@ =~= old(s)@ + decimal(n as nat));
}

/// The decimal rendering of `n`, as `n.to_string()` gives it.
pub fn decimal_string(n: u64) -> (s: String)
    ensures
        s@ == decimal(n as nat),
{
    let mut s = String::new();
    push_decimal(&mut s, n);
    assert(s@ =~= decimal(n as nat));
    s
}

/// The characters of a string slice, in order.
pub fn chars_of(s: &str) -> (v: Vec<char>)
    ensures
        v@ == s@,
{
    let mut v: Vec<char> = Vec::new();
    for c in it: s.chars()
        invariant
            v@ == it.seq().take(it.index() as int),
            it.seq() == s@,
    {
        v.push(c);
    }
    v
}


/// A string holding exactly the given characters.
pub fn string_from_chars(v: &Vec<char>) -> (s: String)
    ensures
        s@ == v@,
{
    let mut s = String::new();
    let mut i: usize = 0;
    while i < v.len()
        invariant
            i <= v.len(),
            s@ == v@.take(i as int),
        decreases v.len() - i,
    {
        push_char(&mut s, v[i]);
        i = i + 1;
        assert(s@ =~= v@.take(i as int));
    }
    assert(v@.take(v.len() as int) =~= v@);
    s
}

/// `p` occurs in `s` starting at character position `i`.
pub open spec fn occurs_at(s: Seq<char>, p: Seq<char>, i: int) -> bool {
    0 <= i && i + p.len() <= s.len() && s.subrange(i, i + p.len()) == p
}

/// `s` begins with `p`.
pub open spec fn has_prefix(s: Seq<char>, p: Seq<char>) -> bool {
    occurs_at(s, p, 0)
}

/// `s` ends with `p`.
pub open spec fn has_suffix(s: Seq<char>, p: Seq<char>) -> bool {
    p.len() <= s.len() && occurs_at(s, p, s.len() - p.len())
}

/// `p` occurs somewhere in `s`.
pub open spec fn contains(s: Seq<char>, p: Seq<char>) -> bool {
    exists|i: int| occurs_at(s, p, i)
}

/// The first position at or after `i` where `p` occurs in `s`.
pub open spec fn find_from(s: Seq<char>, p: Seq<char>, i: int) -> Option<int>
    decreases s.len() + 1 - i,
{
    if i < 0 || i + p.len() > s.len() {
        None
    } else if occurs_at(s, p, i) {
        Some(i)
    } else {
        find_from(s, p, i + 1)
    }
}

/// The first position where `p` occurs in `s`, as `str::find` reports it.
pub open spec fn find_first(s: Seq<char>, p: Seq<char>) -> Option<int> {
    find_from(s, p, 0)
}

/// Left-to-right replacement of every non-overlapping occurrence of the
/// non-empty pattern `p` by `r`, as `str::replace` does it.
pub open spec fn replace_all(s: Seq<char>, p: Seq<char>, r: Seq<char>) -> Seq<char>
    decreases s.len(),
{
    if p.len() == 0 || s.len() < p.len() {
        s
    } else if s.subrange(0, p.len() as int) == p {
        r + replace_all(s.subrange(p.len() as int, s.len() as int), p, r)
    } else {
        seq![s[0]] + replace_all(s.subrange(1, s.len() as int), p, r)
    }
}

/// `s` with every leading repetition of `p` removed, as `str::trim_start_matches` does it.
pub open spec fn strip_prefixes(s: Seq<char>, p: Seq<char>) -> Seq<char>
    decreases s.len(),
{
    if p.len() > 0 && has_prefix(s, p) {
        strip_prefixes(s.subrange(p.len() as int, s.len() as int), p)
    } else {
        s
    }
}

/// The part of `s` before the first occurrence of the character `c`
/// (all of `s` when `c` does not occur), as `s.split(c).next()` gives it.
pub open spec fn before_char(s: Seq<char>, c: char) -> Seq<char>
    decreases s.len(),
{
    if s.len() == 0 {
        s
    } else if s[0] == c {
        Seq::empty()
    } else {
        seq![s[0]] + before_char(s.subrange(1, s.len() as int), c)
    }
}

/// The part of `s` after the first occurrence of the character `c`.
pub open spec fn after_char(s: Seq<char>, c: char) -> Seq<char>
    decreases s.len(),
{
    if s.len() == 0 {
        s
    } else if s[0] == c {
        s.subrange(1, s.len() as int)
    } else {
        after_char(s.subrange(1, s.len() as int), c)
    }
}

/// Whether `p` occurs in `s` at position `i`.
pub fn occurs_at_exec(s: &Vec<char>, p: &Vec<char>, i: usize) -> (b: bool)
    ensures
        b == occurs_at(s@, p@, i as int),
{
    if i > s.len() || p.len() > s.len() - i {
        return false;
    }
    let mut j: usize = 0;
    while j < p.len()
        invariant
            j <= p.len(),
            i + p.len() <= s.len(),
            forall|k: int| 0 <= k < j ==> s@[i + k] == p@[k],
        decreases p.len() - j,
    {
        if s[i + j] != p[j] {
            assert(s@.subrange(i as int, i + p.len())[j as int] != p@[j as int]);
            return false;
        }
        j = j + 1;
    }
    assert(s@.subrange(i as int, i + p.len()) =~= p@);
    true
}

/// Whether `s` ends with the character `c`.
pub fn ends_with_char(s: &str, c: char) -> (b: bool)
    ensures
        b == has_suffix(s@, seq![c]),
{
    let v = chars_of(s);
    if v.len() == 0 {
        false
    } else {
        let b = v[v.len() - 1] == c;
        assert(b ==> v@.subrange(v.len() - 1, v.len() as int) =~= seq![c]);
        assert(!b ==> v@.subrange(v.len() - 1, v.len() as int)[0] != seq![c][0]);
        b
    }
}

/// Whether `s` begins with `p`.
pub fn starts_with_str(s: &str, p: &str) -> (b: bool)
    ensures
        b == has_prefix(s@, p@),
{
    let sv = chars_of(s);
    let pv = chars_of(p);
    occurs_at_exec(&sv, &pv, 0)
}

/// Whether `s` contains `p`.
pub fn contains_str(s: &str, p: &str) -> (b: bool)
    ensures
        b == contains(s@, p@),
{
    let sv = chars_of(s);
    let pv = chars_of(p);
    if pv.len() > sv.len() {
        assert forall|k: int| !occurs_at(sv@, pv@, k) by {}
        return false;
    }
    let last = sv.len() - pv.len();
    let mut i: usize = 0;
    while i < last
        invariant
            i <= last,
            last + pv.len() == sv.len(),
            sv@ == s@,
            pv@ == p@,
            forall|k: int| 0 <= k < i ==> !occurs_at(sv@, pv@, k),
        decreases last - i,
    {
        if occurs_at_exec(&sv, &pv, i) {
            assert(occurs_at(s@, p@, i as int));
            return true;
        }
        i = i + 1;
    }
    if occurs_at_exec(&sv, &pv, i) {
        assert(occurs_at(s@, p@, i as int));
        return true;
    }
    assert forall|k: int| !occurs_at(sv@, pv@, k) by {
        if 0 <= k < i {
        }
    }
    false
}

proof fn lemma_replace_step(s: Seq<char>, p: Seq<char>, r: Seq<char>, i: int)
    requires
        p.len() > 0,
        0 <= i < s.len(),
    ensures
        occurs_at(s, p, i) ==> replace_all(s.subrange(i, s.len() as int), p, r)
            == r + replace_all(s.subrange(i + p.len(), s.len() as int), p, r),
        !occurs_at(s, p, i) ==> replace_all(s.subrange(i, s.len() as int), p, r)
            == seq![s[i]] + replace_all(s.subrange(i + 1, s.len() as int), p, r),
{
    let t = s.subrange(i, s.len() as int);
    if t.len() >= p.len() {
        assert(t.subrange(0, p.len() as int) =~= s.subrange(i, i + p.len()));
        assert(t.subrange(p.len() as int, t.len() as int) =~= s.subrange(i + p.len(), s.len() as int));
        assert(t.subrange(1, t.len() as int) =~= s.subrange(i + 1, s.len() as int));
    } else {
        let u = s.subrange(i + 1, s.len() as int);
        assert(replace_all(u, p, r) == u);
        assert(t =~= seq![s[i]] + u);
    }
}

/// `s` with every occurrence of the non-empty pattern `p` replaced by `r`.
pub fn replace_str(s: &str, p: &str, r: &str) -> (out: String)
    requires
        p@.len() > 0,
    ensures
        out@ == replace_all(s@, p@, r@),
{
    let sv = chars_of(s);
    let pv = chars_of(p);
    let mut out = String::new();
    let mut i: usize = 0;
    assert(sv@.subrange(0, sv@.len() as int) =~= sv@);
    while i < sv.len()
        invariant
            i <= sv.len(),
            sv@ == s@,
            pv@ == p@,
            p@.len() > 0,
            out@ + replace_all(sv@.subrange(i as int, sv@.len() as int), pv@, r@)
                == replace_all(sv@, pv@, r@),
        decreases sv.len() - i,
    {
        proof {
            lemma_replace_step(sv@, pv@, r@, i as int);
        }
        if occurs_at_exec(&sv, &pv, i) {
            let ghost before = out@;
            out.append(r);
            assert(out@ == before + r@);
            i = i + pv.len();
        } else {
            push_char(&mut out, sv[i]);
            i = i + 1;
        }
        assert(out@ + replace_all(sv@.subrange(i as int, sv@.len() as int), pv@, r@)
            =~= replace_all(sv@, pv@, r@));
    }
    assert(sv@.subrange(i as int, sv@.len() as int) =~= Seq::<char>::empty());
    assert(out@ =~= replace_all(sv@, pv@, r@));
    assert(sv@.subrange(0, sv@.len() as int) =~= sv@);
    out
}


/// The number of bytes in the UTF-8 encoding of `s`, which is what `str::len` reports.
pub open spec fn byte_len(s: Seq<char>) -> nat {
    encode_utf8(s).len()
}

/// The number of bytes in the UTF-8 encoding of one character.
pub open spec fn char_width(c: char) -> nat {
    encode_scalar(c as u32).len()
}

/// A position reported by `find_from` is an occurrence at or after the start.
pub proof fn lemma_find_from_occurs(s: Seq<char>, p: Seq<char>, i: int)
    ensures
        find_from(s, p, i) matches Some(k) ==> i <= k && occurs_at(s, p, k),
    decreases s.len() + 1 - i,
{
    if i < 0 || i + p.len() > s.len() {
    } else if occurs_at(s, p, i) {
    } else {
        lemma_find_from_occurs(s, p, i + 1);
    }
}

/// Byte lengths add up over concatenation.
pub proof fn lemma_byte_len_concat(a: Seq<char>, b: Seq<char>)
    ensures
        byte_len(a + b) == byte_len(a) + byte_len(b),
    decreases a.len(),
{
    if a.len() == 0 {
        assert(a + b =~= b);
    } else {
        assert((a + b).drop_first() =~= a.drop_first() + b);
        assert((a + b)[0] == a[0]);
        lemma_byte_len_concat(a.drop_first(), b);
    }
}

/// Every character takes between one and four bytes.
pub proof fn lemma_char_width_bounds(c: char)
    ensures
        1 <= char_width(c) <= 4,
        byte_len(seq![c]) == char_width(c),
{
    broadcast use char_is_scalar;
    assert(seq![c].drop_first() =~= Seq::<char>::empty());
    assert(encode_utf8(Seq::<char>::empty()) =~= Seq::<u8>::empty());
    assert(seq![c][0] == c);
    assert(encode_utf8(seq![c]) == encode_scalar(c as u32) + encode_utf8(seq![c].drop_first()));
    assert(encode_utf8(seq![c]) =~= encode_scalar(c as u32));
}

/// The byte offset of character position `i + 1` is that of `i` plus the width of `s[i]`.
pub proof fn lemma_byte_offset_step(s: Seq<char>, i: int)
    requires
        0 <= i < s.len(),
    ensures
        byte_len(s.take(i + 1)) == byte_len(s.take(i)) + char_width(s[i]),
        byte_len(s.take(i + 1)) > byte_len(s.take(i)),
{
    assert(s.take(i + 1) =~= s.take(i) + seq![s[i]]);
    lemma_byte_len_concat(s.take(i), seq![s[i]]);
    lemma_char_width_bounds(s[i]);
}

/// Byte offsets of character positions strictly increase.
pub proof fn lemma_byte_offset_strict(s: Seq<char>, a: int, b: int)
    requires
        0 <= a < b <= s.len(),
    ensures
        byte_len(s.take(a)) < byte_len(s.take(b)),
    decreases b - a,
{
    lemma_byte_offset_step(s, b - 1);
    if a < b - 1 {
        lemma_byte_offset_strict(s, a, b - 1);
    }
}

/// The number of UTF-8 bytes of one character.
pub fn char_width_exec(c: char) -> (w: u128)
    ensures
        w == char_width(c),
{
    broadcast use char_is_scalar;
    let u = c as u32;
    if u < 0x80 {
        1
    } else if u < 0x800 {
        2
    } else if u < 0x10000 {
        3
    } else {
        4
    }
}

/// The byte offset of character position `n` of `s`.
pub fn byte_offset(s: &Vec<char>, n: usize) -> (b: u128)
    requires
        n <= s.len(),
    ensures
        b == byte_len(s@.take(n as int)),
        b <= 4 * n,
{
    let mut b: u128 = 0;
    let mut i: usize = 0;
    assert(s@.take(0) =~= Seq::<char>::empty());
    while i < n
        invariant
            i <= n <= s.len(),
            b == byte_len(s@.take(i as int)),
            b <= 4 * i,
        decreases n - i,
    {
        proof {
            lemma_byte_offset_step(s@, i as int);
            lemma_char_width_bounds(s@[i as int]);
        }
        b = b + char_width_exec(s[i]);
        i = i + 1;
    }
    b
}

/// The first position where `p` occurs in `s`.
pub fn find_first_exec(s: &Vec<char>, p: &Vec<char>) -> (r: Option<usize>)
    ensures
        match r {
            Some(i) => find_first(s@, p@) == Some(i as int) && occurs_at(s@, p@, i as int),
            None => find_first(s@, p@) is None,
        },
{
    if p.len() > s.len() {
        return None;
    }
    let last = s.len() - p.len();
    let mut i: usize = 0;
    while i <= last
        invariant
            last + p.len() == s.len(),
            find_first(s@, p@) == find_from(s@, p@, i as int),
        decreases last + 1 - i,
    {
        if occurs_at_exec(s, p, i) {
            return Some(i);
        }
        if i == last {
            assert(find_from(s@, p@, i + 1) is None);
            return None;
        }
        i = i + 1;
    }
    None
}


/// `c` is one of the ASCII digits `0` to `9`.
pub open spec fn is_ascii_digit(c: char) -> bool {
    48 <= c as u32 <= 57
}

/// The value of an ASCII digit.
pub open spec fn digit_value(c: char) -> nat {
    (c as u32 - 48) as nat
}

/// The value of a string of decimal digits.
pub open spec fn digits_value(d: Seq<char>) -> nat
    decreases d.len(),
{
    if d.len() == 0 {
        0
    } else {
        digits_value(d.drop_last()) * 10 + digit_value(d.last())
    }
}

/// Every character of `d` is an ASCII digit.
pub open spec fn all_digits(d: Seq<char>) -> bool {
    forall|i: int| 0 <= i < d.len() ==> is_ascii_digit(#[trigger] d[i])
}

/// The digits of an unsigned number: `s` without one leading `+`.
pub open spec fn unsigned_digits(s: Seq<char>) -> Seq<char> {
    if s.len() > 0 && s[0] == '+' {
        s.subrange(1, s.len() as int)
    } else {
        s
    }
}

/// What `str::parse::<u16>` gives: an optional `+`, then one or more ASCII
/// digits whose value fits in sixteen bits.
pub open spec fn parse_u16(s: Seq<char>) -> Option<u16> {
    let d = unsigned_digits(s);
    if d.len() > 0 && all_digits(d) && digits_value(d) <= 65535 {
        Some(digits_value(d) as u16)
    } else {
        None
    }
}

/// Parses an unsigned sixteen-bit number as `str::parse::<u16>` does.
pub fn parse_u16_exec(s: &Vec<char>) -> (r: Option<u16>)
    ensures
        r == parse_u16(s@),
{
    let start: usize = if s.len() > 0 && s[0] == '+' { 1 } else { 0 };
    assert(unsigned_digits(s@) =~= s@.subrange(start as int, s.len() as int));
    if start == s.len() {
        return None;
    }
    let mut acc: u32 = 0;
    let mut i: usize = start;
    assert(s@.subrange(start as int, start as int) =~= Seq::<char>::empty());
    while i < s.len()
        invariant
            start <= i <= s.len(),
            start < s.len(),
            unsigned_digits(s@) == s@.subrange(start as int, s.len() as int),
            all_digits(s@.subrange(start as int, i as int)),
            acc <= 65536,
            acc == if digits_value(s@.subrange(start as int, i as int)) >= 65536 {
                65536
            } else {
                digits_value(s@.subrange(start as int, i as int))
            },
        decreases s.len() - i,
    {
        let c = s[i];
        let u = c as u32;
        if u < 48 || u > 57 {
            assert(s@.subrange(start as int, s.len() as int)[i - start] == c);
            assert(!is_ascii_digit(c));
            assert(!all_digits(s@.subrange(start as int, s.len() as int)));
            return None;
        }
        let d = u - 48;
        let ghost prev = s@.subrange(start as int, i as int);
        let ghost next = s@.subrange(start as int, i + 1);
        assert(next.drop_last() =~= prev);
        assert(next.last() == c);
        assert(digits_value(next) == digits_value(prev) * 10 + d);
        if acc >= 65536 {
            acc = 65536;
        } else {
            let v = acc * 10 + d;
            acc = if v >= 65536 { 65536 } else { v };
        }
        i = i + 1;
        assert forall|k: int| 0 <= k < next.len() implies is_ascii_digit(#[trigger] next[k]) by {
            if k < prev.len() {
                assert(next[k] == prev[k]);
            }
        }
    }
    if acc > 65535 {
        None
    } else {
        Some(acc as u16)
    }
}

/// Removes every leading repetition of the non-empty pattern `p` from `s`.
pub fn strip_prefixes_exec(s: &Vec<char>, p: &Vec<char>) -> (r: Vec<char>)
    ensures
        r@ == strip_prefixes(s@, p@),
{
    let mut i: usize = 0;
    assert(s@.subrange(0, s.len() as int) =~= s@);
    if p.len() == 0 {
        return s.clone();
    }
    while occurs_at_exec(s, p, i)
        invariant
            i <= s.len(),
            p.len() > 0,
            strip_prefixes(s@, p@) == strip_prefixes(s@.subrange(i as int, s.len() as int), p@),
        decreases s.len() - i,
    {
        let ghost t = s@.subrange(i as int, s.len() as int);
        assert(t.subrange(0, p.len() as int) =~= s@.subrange(i as int, i + p.len()));
        assert(t.subrange(p.len() as int, t.len() as int) =~= s@.subrange(i + p.len(), s.len() as int));
        i = i + p.len();
    }
    let ghost t = s@.subrange(i as int, s.len() as int);
    assert(!has_prefix(t, p@)) by {
        if t.len() >= p.len() {
            assert(t.subrange(0, p.len() as int) =~= s@.subrange(i as int, i + p.len()));
        }
    }
    let mut r: Vec<char> = Vec::new();
    let mut k: usize = i;
    while k < s.len()
        invariant
            i <= k <= s.len(),
            r@ == s@.subrange(i as int, k as int),
        decreases s.len() - k,
    {
        r.push(s[k]);
        k = k + 1;
        assert(r@ =~= s@.subrange(i as int, k as int));
    }
    r
}

proof fn lemma_split_at_char(s: Seq<char>, c: char, j: int)
    requires
        0 <= j <= s.len(),
        forall|k: int| 0 <= k < j ==> s[k] != c,
        j < s.len() ==> s[j] == c,
    ensures
        before_char(s, c) == s.take(j),
        j < s.len() ==> after_char(s, c) == s.skip(j + 1),
    decreases j,
{
    if j == 0 {
        if s.len() > 0 {
            assert(s.skip(1) =~= s.subrange(1, s.len() as int));
        }
        assert(s.take(0) =~= Seq::<char>::empty());
    } else {
        let t = s.subrange(1, s.len() as int);
        assert forall|k: int| 0 <= k < j - 1 implies t[k] != c by {
            assert(t[k] == s[k + 1]);
        }
        lemma_split_at_char(t, c, j - 1);
        assert(seq![s[0]] + t.take(j - 1) =~= s.take(j));
        if j < s.len() {
            assert(t.skip(j) =~= s.skip(j + 1));
        }
    }
}

/// The parts of `s` before and after the first occurrence of `c`, and
/// whether `c` occurs at all.
pub fn split_at_char(s: &Vec<char>, c: char) -> (r: (Vec<char>, Vec<char>, bool))
    ensures
        r.0@ == before_char(s@, c),
        r.2 == contains(s@, seq![c]),
        r.2 ==> r.1@ == after_char(s@, c),
{
    let mut j: usize = 0;
    while j < s.len() && s[j] != c
        invariant
            j <= s.len(),
            forall|k: int| 0 <= k < j ==> s@[k] != c,
        decreases s.len() - j,
    {
        j = j + 1;
    }
    proof {
        lemma_split_at_char(s@, c, j as int);
        if j < s.len() {
            assert(s@.subrange(j as int, j + 1) =~= seq![c]);
            assert(occurs_at(s@, seq![c], j as int));
        } else {
            assert forall|k: int| !occurs_at(s@, seq![c], k) by {
                if occurs_at(s@, seq![c], k) {
                    assert(s@.subrange(k, k + 1)[0] == s@[k]);
                }
            }
        }
    }
    let mut before: Vec<char> = Vec::new();
    let mut i: usize = 0;
    while i < j
        invariant
            j <= s.len(),
            i <= j,
            before@ == s@.take(i as int),
        decreases j - i,
    {
        before.push(s[i]);
        i = i + 1;
        assert(before@ =~= s@.take(i as int));
    }
    let mut after: Vec<char> = Vec::new();
    if j < s.len() {
        let mut k: usize = j + 1;
        while k < s.len()
            invariant
                j < s.len(),
                j + 1 <= k <= s.len(),
                after@ == s@.subrange(j + 1, k as int),
            decreases s.len() - k,
        {
            after.push(s[k]);
            k = k + 1;
            assert(after@ =~= s@.subrange(j + 1, k as int));
        }
        assert(after@ =~= s@.skip(j + 1));
    }
    (before, after, j < s.len())
}


proof fn lemma_digit_char(k: nat)
    requires
        k < 10,
    ensures
        digit_value(digit_char(k)) == k,
        is_ascii_digit(digit_char(k)),
{
    if k == 0 {
    } else if k == 1 {
    } else if k == 2 {
    } else if k == 3 {
    } else if k == 4 {
    } else if k == 5 {
    } else if k == 6 {
    } else if k == 7 {
    } else if k == 8 {
    } else {
    }
}

/// Every character of a decimal rendering is a digit, and there is at least one.
pub proof fn lemma_decimal_digits(n: nat)
    ensures
        all_digits(decimal(n)),
        decimal(n).len() >= 1,
        digits_value(decimal(n)) == n,
    decreases n,
{
    let d = decimal(n);
    if n < 10 {
        assert(d.drop_last() =~= Seq::<char>::empty());
        assert(digits_value(Seq::<char>::empty()) == 0);
        lemma_digit_char(n);
        assert(digits_value(d) == digits_value(d.drop_last()) * 10 + digit_value(d.last()));
    } else {
        lemma_decimal_digits(n / 10);
        let r = n % 10;
        assert(r < 10);
        lemma_digit_char(r);
        assert(d.drop_last() =~= decimal(n / 10));
        assert(d.last() == digit_char(r));
        assert(digits_value(d) == digits_value(d.drop_last()) * 10 + digit_value(d.last()));
        assert(n == (n / 10) * 10 + r);
        assert forall|i: int| 0 <= i < d.len() implies is_ascii_digit(#[trigger] d[i]) by {
            if i < d.len() - 1 {
                assert(d[i] == decimal(n / 10)[i]);
            }
        }
    }
}

/// Distinct numbers have distinct decimal renderings.
pub proof fn lemma_decimal_injective(n: nat, m: nat)
    requires
        decimal(n) == decimal(m),
    ensures
        n == m,
{
    lemma_decimal_digits(n);
    lemma_decimal_digits(m);
}


/// `c` has the Unicode White_Space property, which is what `char::is_whitespace` tests.
pub open spec fn is_white_space(c: char) -> bool {
    let u = c as u32;
    (0x09 <= u <= 0x0D) || u == 0x20 || u == 0x85 || u == 0xA0 || u == 0x1680
        || (0x2000 <= u <= 0x200A) || u == 0x2028 || u == 0x2029 || u == 0x202F
        || u == 0x205F || u == 0x3000
}

/// `s` without leading white space.
pub open spec fn trim_start(s: Seq<char>) -> Seq<char>
    decreases s.len(),
{
    if s.len() > 0 && is_white_space(s[0]) {
        trim_start(s.subrange(1, s.len() as int))
    } else {
        s
    }
}

/// `s` without trailing white space.
pub open spec fn trim_end(s: Seq<char>) -> Seq<char>
    decreases s.len(),
{
    if s.len() > 0 && is_white_space(s.last()) {
        trim_end(s.drop_last())
    } else {
        s
    }
}

/// `s` without leading and trailing white space, as `str::trim` gives it.
pub open spec fn trimmed(s: Seq<char>) -> Seq<char> {
    trim_end(trim_start(s))
}

fn is_white_space_exec(c: char) -> (b: bool)
    ensures
        b == is_white_space(c),
{
    let u = c as u32;
    (0x09 <= u && u <= 0x0D) || u == 0x20 || u == 0x85 || u == 0xA0 || u == 0x1680
        || (0x2000 <= u && u <= 0x200A) || u == 0x2028 || u == 0x2029 || u == 0x202F
        || u == 0x205F || u == 0x3000
}

/// `s` without leading and trailing white space.
pub fn trim_str(s: &str) -> (r: String)
    ensures
        r@ == trimmed(s@),
{
    let v = chars_of(s);
    let mut i: usize = 0;
    assert(v@.subrange(0, v.len() as int) =~= v@);
    while i < v.len() && is_white_space_exec(v[i])
        invariant
            i <= v.len(),
            trim_start(v@) == trim_start(v@.subrange(i as int, v.len() as int)),
        decreases v.len() - i,
    {
        assert(v@.subrange(i as int, v.len() as int).subrange(1, v.len() - i) =~= v@.subrange(i + 1, v.len() as int));
        i = i + 1;
    }
    let ghost start = v@.subrange(i as int, v.len() as int);
    assert(trim_start(v@) == start);
    let mut j: usize = v.len();
    assert(start.subrange(0, (j - i) as int) =~= start);
    while j > i && is_white_space_exec(v[j - 1])
        invariant
            i <= j <= v.len(),
            start == v@.subrange(i as int, v.len() as int),
            trim_end(start) == trim_end(v@.subrange(i as int, j as int)),
        decreases j,
    {
        assert(v@.subrange(i as int, j as int).drop_last() =~= v@.subrange(i as int, j - 1));
        j = j - 1;
    }
    let mut out: Vec<char> = Vec::new();
    let mut k: usize = i;
    while k < j
        invariant
            i <= k <= j <= v.len(),
            out@ == v@.subrange(i as int, k as int),
        decreases j - k,
    {
        out.push(v[k]);
        k = k + 1;
        assert(out@ =~= v@.subrange(i as int, k as int));
    }
    string_from_chars(&out)
}


/// Whether two strings hold the same characters.
pub fn same_text(a: &str, b: &str) -> (r: bool)
    ensures
        r == (a@ == b@),
{
    let av = chars_of(a);
    let bv = chars_of(b);
    if av.len() != bv.len() {
        return false;
    }
    let mut i: usize = 0;
    while i < av.len()
        invariant
            i <= av.len() == bv.len(),
            av@ == a@,
            bv@ == b@,
            forall|k: int| 0 <= k < i ==> av@[k] == bv@[k],
        decreases av.len() - i,
    {
        if av[i] != bv[i] {
            return false;
        }
        i = i + 1;
    }
    assert(av@ =~= bv@);
    true
}


/// Where `p` does not occur, the search finds nothing.
pub proof fn lemma_find_absent(s: Seq<char>, p: Seq<char>, i: int)
    requires
        !contains(s, p),
    ensures
        find_from(s, p, i) is None,
    decreases s.len() + 1 - i,
{
    if i < 0 || i + p.len() > s.len() {
    } else {
        assert(!occurs_at(s, p, i));
        lemma_find_absent(s, p, i + 1);
    }
}

/// Replacing a pattern that does not occur changes nothing.
pub proof fn lemma_replace_absent(s: Seq<char>, p: Seq<char>, r: Seq<char>)
    requires
        !contains(s, p),
    ensures
        replace_all(s, p, r) == s,
    decreases s.len(),
{
    if p.len() == 0 || s.len() < p.len() {
    } else {
        assert(!occurs_at(s, p, 0));
        assert(s.subrange(0, p.len() as int) != p);
        let t = s.subrange(1, s.len() as int);
        assert(!contains(t, p)) by {
            if contains(t, p) {
                let j = choose|j: int| occurs_at(t, p, j);
                assert(t.subrange(j, j + p.len()) =~= s.subrange(j + 1, j + 1 + p.len()));
                assert(occurs_at(s, p, j + 1));
            }
        }
        lemma_replace_absent(t, p, r);
        assert(seq![s[0]] + t =~= s);
    }
}

/// Replacing a whole text that is the pattern gives the replacement.
pub proof fn lemma_replace_whole(p: Seq<char>, r: Seq<char>)
    requires
        p.len() > 0,
    ensures
        replace_all(p, p, r) == r,
{
    assert(p.subrange(0, p.len() as int) =~= p);
    assert(p.subrange(p.len() as int, p.len() as int) =~= Seq::<char>::empty());
    assert(replace_all(Seq::<char>::empty(), p, r) == Seq::<char>::empty());
    assert(replace_all(p, p, r) == r + replace_all(p.subrange(p.len() as int, p.len() as int), p, r));
    assert(r + Seq::<char>::empty() =~= r);
}

} // verus!
