//! Character-level text handling: whitespace trimming, ASCII case folding,
//! decimal integers and the few string operations the boot and menu logic use.
//!
//! Every string is reasoned about through its view, the sequence of its
//! Unicode scalar values (`Seq<char>`).
use vstd::prelude::*;
use vstd::string::*;

verus! {

/// `char::is_whitespace`: the characters with the Unicode `White_Space` property.
pub open spec fn is_whitespace(c: char) -> bool {
    let u = c as u32;
    ||| 0x09 <= u && u <= 0x0d
    ||| u == 0x20
    ||| u == 0x85
    ||| u == 0xa0
    ||| u == 0x1680
    ||| 0x2000 <= u && u <= 0x200a
    ||| u == 0x2028
    ||| u == 0x2029
    ||| u == 0x202f
    ||| u == 0x205f
    ||| u == 0x3000
}

/// `char::is_control`: the characters of general category `Cc`.
pub open spec fn is_control(c: char) -> bool {
    let u = c as u32;
    u <= 0x1f || (0x7f <= u && u <= 0x9f)
}

/// `char::is_ascii_digit`.
pub open spec fn is_ascii_digit(c: char) -> bool {
    0x30 <= (c as u32) && (c as u32) <= 0x39
}

/// `char::to_ascii_lowercase`.
pub open spec fn ascii_lower(c: char) -> char {
    if 0x41 <= (c as u32) && (c as u32) <= 0x5a {
        ((c as u32) + 32) as char
    } else {
        c
    }
}

/// `str::to_ascii_lowercase`.
pub open spec fn lowercase(s: Seq<char>) -> Seq<char> {
    Seq::new(s.len(), |i: int| ascii_lower(s[i]))
}

/// `s` with its leading whitespace removed.
pub open spec fn trim_start(s: Seq<char>) -> Seq<char>
    decreases s.len(),
{
    if s.len() > 0 && is_whitespace(s[0]) {
        trim_start(s.drop_first())
    } else {
        s
    }
}

/// `s` with its trailing whitespace removed.
pub open spec fn trim_end(s: Seq<char>) -> Seq<char>
    decreases s.len(),
{
    if s.len() > 0 && is_whitespace(s.last()) {
        trim_end(s.drop_last())
    } else {
        s
    }
}

/// `str::trim`: `s` without leading and trailing whitespace.
pub open spec fn trimmed(s: Seq<char>) -> Seq<char> {
    trim_end(trim_start(s))
}

/// `str::starts_with` for a string pattern.
pub open spec fn has_prefix(s: Seq<char>, p: Seq<char>) -> bool {
    p.len() <= s.len() && s.take(p.len() as int) == p
}

/// `str::contains` for a string pattern.
pub open spec fn has_infix(s: Seq<char>, p: Seq<char>) -> bool {
    exists|i: int| 0 <= i && i + p.len() <= s.len() && #[trigger] s.subrange(i, i + p.len()) == p
}

/// The position of the last `c` in `s`, or -1.
pub open spec fn last_index_of(s: Seq<char>, c: char) -> int
    decreases s.len(),
{
    if s.len() == 0 {
        -1
    } else if s.last() == c {
        s.len() - 1
    } else {
        last_index_of(s.drop_last(), c)
    }
}

/// Where the last `c` of `s` is: at `last_index_of(s, c)`, with no `c` after
/// it; or nowhere when that is -1.
pub proof fn lemma_last_index_of(s: Seq<char>, c: char)
    ensures
        -1 <= last_index_of(s, c) < s.len(),
        last_index_of(s, c) >= 0 ==> s[last_index_of(s, c)] == c,
        forall|j: int| last_index_of(s, c) < j < s.len() ==> s[j] != c,
    decreases s.len(),
{
    if s.len() > 0 && s.last() != c {
        lemma_last_index_of(s.drop_last(), c);
        assert forall|j: int| last_index_of(s, c) < j < s.len() implies s[j] != c by {
            if j < s.len() - 1 {
                assert(s[j] == s.drop_last()[j]);
            }
        }
    }
}

/// `str::eq_ignore_ascii_case`.
pub open spec fn eq_ignore_ascii_case(a: Seq<char>, b: Seq<char>) -> bool {
    lowercase(a) == lowercase(b)
}

/// The numeric value of an ASCII digit.
pub open spec fn digit_value(c: char) -> nat {
    ((c as u32) - 0x30) as nat
}

/// Every character of `s` is an ASCII digit.
pub open spec fn all_digits(s: Seq<char>) -> bool {
    forall|i: int| 0 <= i < s.len() ==> is_ascii_digit(#[trigger] s[i])
}

/// The value of a string of decimal digits, most significant first.
pub open spec fn decimal_value(s: Seq<char>) -> nat
    decreases s.len(),
{
    if s.len() == 0 {
        0
    } else {
        decimal_value(s.drop_last()) * 10 + digit_value(s.last())
    }
}

/// The digits of an unsigned decimal numeral after its optional `+` sign.
pub open spec fn unsigned_digits(s: Seq<char>) -> Seq<char> {
    if s.len() > 0 && s[0] == '+' {
        s.drop_first()
    } else {
        s
    }
}

/// `str::parse` for an unsigned integer type whose largest value is `max`:
/// an optional `+`, then one or more ASCII digits whose value is at most `max`.
pub open spec fn parse_unsigned(s: Seq<char>, max: nat) -> Option<nat> {
    let d = unsigned_digits(s);
    if d.len() > 0 && all_digits(d) && decimal_value(d) <= max {
        Some(decimal_value(d))
    } else {
        None
    }
}

/// `str::parse::<i32>`: an optional `+` or `-`, then one or more ASCII digits
/// whose signed value lies in the range of `i32`.
pub open spec fn parse_i32_value(s: Seq<char>) -> Option<int> {
    if s.len() > 0 && s[0] == '-' {
        let d = s.drop_first();
        if d.len() > 0 && all_digits(d) && decimal_value(d) <= 0x8000_0000 {
            Some(-(decimal_value(d) as int))
        } else {
            None
        }
    } else {
        match parse_unsigned(s, 0x7fff_ffff) {
            Some(n) => Some(n as int),
            None => None,
        }
    }
}

/// The ASCII digit for a value below ten.
pub open spec fn digit_char(d: nat) -> char {
    (d + 0x30) as char
}

/// The decimal numeral of `n` (`ToString` of an unsigned integer).
pub open spec fn decimal_chars(n: nat) -> Seq<char>
    decreases n,
{
    if n < 10 {
        seq![digit_char(n)]
    } else {
        decimal_chars(n / 10).push(digit_char(n % 10))
    }
}

/// The first `n` characters of `s` (all of them when `s` is shorter): `chars().take(n)`.
pub open spec fn take_chars(s: Seq<char>, n: nat) -> Seq<char> {
    if s.len() <= n {
        s
    } else {
        s.take(n as int)
    }
}

/// `str::parse::<u64>` of `s` with surrounding whitespace removed.
pub open spec fn trimmed_u64(s: Seq<char>) -> Option<u64> {
    match parse_unsigned(trimmed(s), u64::MAX as nat) {
        Some(n) => Some(n as u64),
        None => None,
    }
}

/// `str::parse::<u16>` of `s` with surrounding whitespace removed.
pub open spec fn trimmed_u16(s: Seq<char>) -> Option<u16> {
    match parse_unsigned(trimmed(s), u16::MAX as nat) {
        Some(n) => Some(n as u16),
        None => None,
    }
}

/// `str::parse::<i32>` of `s` with surrounding whitespace removed.
pub open spec fn trimmed_i32(s: Seq<char>) -> Option<i32> {
    match parse_i32_value(trimmed(s)) {
        Some(n) => Some(n as i32),
        None => None,
    }
}

/// The position of the first character of `s` that is one of `set`, or -1.
pub open spec fn index_of_any(s: Seq<char>, set: Seq<char>) -> int
    decreases s.len(),
{
    if s.len() == 0 {
        -1
    } else if set.contains(s[0]) {
        0
    } else {
        let k = index_of_any(s.drop_first(), set);
        if k < 0 {
            -1
        } else {
            k + 1
        }
    }
}

/// A decimal numeral consists of ASCII digits.
pub proof fn lemma_decimal_chars_are_digits(n: nat)
    ensures
        all_digits(decimal_chars(n)),
        decimal_chars(n).len() > 0,
    decreases n,
{
    if n >= 10 {
        lemma_decimal_chars_are_digits(n / 10);
        let s = decimal_chars(n / 10).push(digit_char(n % 10));
        assert forall|i: int| 0 <= i < s.len() implies is_ascii_digit(#[trigger] s[i]) by {
            if i < s.len() - 1 {
                assert(s[i] == decimal_chars(n / 10)[i]);
            }
        }
    }
}

/// `String::push`.
#[verifier::external_body]
pub(crate) fn push_char(s: &mut String, c: char)
    ensures
        final(s)@ == old(s)@.push(c),
{
    s.push(c);
}

/// `String::pop`: removes and returns the last character, if any.
#[verifier::external_body]
pub(crate) fn pop_char(s: &mut String) -> (r: Option<char>)
    ensures
        old(s)@.len() == 0 ==> r is None && final(s)@ == old(s)@,
        old(s)@.len() > 0 ==> r == Some(old(s)@.last()) && final(s)@ == old(s)@.drop_last(),
{
    s.pop()
}

/// The characters of `s`, in order.
pub fn chars_of(s: &str) -> (v: Vec<char>)
    ensures
        v@ == s@,
{
    let n = s.unicode_len();
    let mut v: Vec<char> = Vec::new();
    for i in 0..n
        invariant
            n == s@.len(),
            v@ == s@.take(i as int),
    {
        v.push(s.get_char(i));
        assert(s@.take(i + 1) == s@.take(i as int).push(s@[i as int]));
    }
    assert(s@.take(n as int) == s@);
    v
}

/// A `String` holding exactly the characters of `v`.
pub fn string_of(v: &[char]) -> (s: String)
    ensures
        s@ == v@,
{
    let mut s = String::new();
    for i in 0..v.len()
        invariant
            s@ == v@.take(i as int),
    {
        push_char(&mut s, v[i]);
        assert(v@.take(i + 1) == v@.take(i as int).push(v@[i as int]));
    }
    assert(v@.take(v@.len() as int) == v@);
    s
}

/// A `String` holding the characters of the literal `lit`.
pub fn string_from(lit: &str) -> (s: String)
    ensures
        s@ == lit@,
{
    let v = chars_of(lit);
    string_of(v.as_slice())
}

/// Appends the characters of `v` to `s`.
pub fn push_all(s: &mut String, v: &[char])
    ensures
        final(s)@ == old(s)@ + v@,
{
    for i in 0..v.len()
        invariant
            s@ == old(s)@ + v@.take(i as int),
    {
        push_char(s, v[i]);
        assert(v@.take(i + 1) == v@.take(i as int).push(v@[i as int]));
    }
    assert(v@.take(v@.len() as int) == v@);
}

/// Appends the characters of `t` to `s`.
pub fn push_str(s: &mut String, t: &str)
    ensures
        final(s)@ == old(s)@ + t@,
{
    let v = chars_of(t);
    push_all(s, v.as_slice());
}

/// `char::is_whitespace`.
pub fn char_is_whitespace(c: char) -> (b: bool)
    ensures
        b == is_whitespace(c),
{
    let u = c as u32;
    (0x09 <= u && u <= 0x0d) || u == 0x20 || u == 0x85 || u == 0xa0 || u == 0x1680 || (0x2000
        <= u && u <= 0x200a) || u == 0x2028 || u == 0x2029 || u == 0x202f || u == 0x205f || u
        == 0x3000
}

/// `char::is_control`.
pub fn char_is_control(c: char) -> (b: bool)
    ensures
        b == is_control(c),
{
    let u = c as u32;
    u <= 0x1f || (0x7f <= u && u <= 0x9f)
}

/// `char::is_ascii_digit`.
pub fn char_is_ascii_digit(c: char) -> (b: bool)
    ensures
        b == is_ascii_digit(c),
{
    let u = c as u32;
    0x30 <= u && u <= 0x39
}

/// `char::to_ascii_lowercase`.
pub fn char_to_ascii_lower(c: char) -> (r: char)
    ensures
        r == ascii_lower(c),
{
    let u = c as u32;
    if 0x41 <= u && u <= 0x5a {
        let b = c as u8;
        let r = (b + 32) as char;
        assert(r as u32 == u + 32);
        r
    } else {
        c
    }
}

proof fn lemma_trim_start_at(s: Seq<char>, i: int)
    requires
        0 <= i <= s.len(),
        forall|k: int| 0 <= k < i ==> is_whitespace(#[trigger] s[k]),
        i == s.len() || !is_whitespace(s[i]),
    ensures
        trim_start(s) == s.skip(i),
    decreases i,
{
    if i == 0 {
        assert(s.skip(0) == s);
    } else {
        let t = s.drop_first();
        assert forall|k: int| 0 <= k < i - 1 implies is_whitespace(#[trigger] t[k]) by {
            assert(t[k] == s[k + 1]);
        }
        lemma_trim_start_at(t, i - 1);
        assert(t.skip(i - 1) == s.skip(i));
    }
}

proof fn lemma_trim_end_at(s: Seq<char>, j: int)
    requires
        0 <= j <= s.len(),
        forall|k: int| j <= k < s.len() ==> is_whitespace(#[trigger] s[k]),
        j == 0 || !is_whitespace(s[j - 1]),
    ensures
        trim_end(s) == s.take(j),
    decreases s.len() - j,
{
    if j == s.len() {
        assert(s.take(j) == s);
    } else {
        let t = s.drop_last();
        assert forall|k: int| j <= k < t.len() implies is_whitespace(#[trigger] t[k]) by {
            assert(t[k] == s[k]);
        }
        lemma_trim_end_at(t, j);
        assert(t.take(j) == s.take(j));
    }
}

/// The bounds `(i, j)` of the trimmed part of `v`: `trimmed(v@) == v@[i..j]`.
pub fn trim_bounds(v: &[char]) -> (r: (usize, usize))
    ensures
        r.0 <= r.1 <= v@.len(),
        trimmed(v@) == v@.subrange(r.0 as int, r.1 as int),
{
    let n = v.len();
    let mut i: usize = 0;
    while i < n && char_is_whitespace(v[i])
        invariant
            i <= n,
            n == v@.len(),
            forall|k: int| 0 <= k < i ==> is_whitespace(#[trigger] v@[k]),
        decreases n - i,
    {
        i = i + 1;
    }
    proof {
        lemma_trim_start_at(v@, i as int);
    }
    let ghost t = v@.skip(i as int);
    let mut j: usize = n;
    while j > i && char_is_whitespace(v[j - 1])
        invariant
            i <= j <= n,
            n == v@.len(),
            t == v@.skip(i as int),
            forall|k: int| j <= k < n ==> is_whitespace(#[trigger] v@[k]),
        decreases j,
    {
        j = j - 1;
    }
    proof {
        assert forall|k: int| (j - i) <= k < t.len() implies is_whitespace(#[trigger] t[k]) by {
            assert(t[k] == v@[k + i]);
        }
        if j > i {
            assert(t[j - i - 1] == v@[j - 1]);
        }
        lemma_trim_end_at(t, j - i);
        assert(t.take(j - i) == v@.subrange(i as int, j as int));
    }
    (i, j)
}

/// `str::trim`, as characters.
pub fn trim_chars(v: &[char]) -> (r: Vec<char>)
    ensures
        r@ == trimmed(v@),
{
    let (i, j) = trim_bounds(v);
    let mut r: Vec<char> = Vec::new();
    for k in i..j
        invariant
            i <= j <= v@.len(),
            r@ == v@.subrange(i as int, k as int),
    {
        r.push(v[k]);
        assert(v@.subrange(i as int, k + 1) == v@.subrange(i as int, k as int).push(v@[k as int]));
    }
    r
}

/// `str::trim` of a string slice, as characters.
pub fn trim_str(s: &str) -> (r: Vec<char>)
    ensures
        r@ == trimmed(s@),
{
    let v = chars_of(s);
    trim_chars(v.as_slice())
}

/// `str::to_ascii_lowercase`, as characters.
pub fn to_ascii_lowercase(v: &[char]) -> (r: Vec<char>)
    ensures
        r@ == lowercase(v@),
{
    let mut r: Vec<char> = Vec::new();
    for k in 0..v.len()
        invariant
            r@.len() == k,
            forall|m: int| 0 <= m < k ==> r@[m] == ascii_lower(#[trigger] v@[m]),
    {
        r.push(char_to_ascii_lower(v[k]));
    }
    assert(r@ == lowercase(v@));
    r
}

/// Whether `v` holds exactly the characters of the literal `lit`.
pub fn chars_are(v: &[char], lit: &str) -> (b: bool)
    ensures
        b == (v@ == lit@),
{
    let n = lit.unicode_len();
    if v.len() != n {
        return false;
    }
    for k in 0..n
        invariant
            n == lit@.len(),
            n == v@.len(),
            forall|m: int| 0 <= m < k ==> v@[m] == lit@[m],
    {
        if v[k] != lit.get_char(k) {
            return false;
        }
    }
    assert(v@ == lit@);
    true
}

/// Whether `a` and `b` hold the same characters.
pub fn chars_eq(a: &[char], b: &[char]) -> (r: bool)
    ensures
        r == (a@ == b@),
{
    if a.len() != b.len() {
        return false;
    }
    for k in 0..a.len()
        invariant
            a@.len() == b@.len(),
            forall|m: int| 0 <= m < k ==> a@[m] == b@[m],
    {
        if a[k] != b[k] {
            return false;
        }
    }
    assert(a@ == b@);
    true
}

/// Whether `v` begins with the characters of the literal `lit`.
pub fn chars_start_with(v: &[char], lit: &str) -> (b: bool)
    ensures
        b == has_prefix(v@, lit@),
{
    let n = lit.unicode_len();
    if v.len() < n {
        return false;
    }
    for k in 0..n
        invariant
            n == lit@.len(),
            n <= v@.len(),
            forall|m: int| 0 <= m < k ==> v@[m] == lit@[m],
    {
        if v[k] != lit.get_char(k) {
            assert(v@.take(n as int)[k as int] != lit@[k as int]);
            return false;
        }
    }
    assert(v@.take(n as int) == lit@);
    true
}

/// Whether `v` holds the characters of `w` at position `at`.
fn chars_match_at(v: &[char], w: &[char], at: usize) -> (b: bool)
    requires
        at + w@.len() <= v@.len(),
    ensures
        b == (v@.subrange(at as int, at + w@.len()) == w@),
{
    for k in 0..w.len()
        invariant
            at + w@.len() <= v@.len(),
            v@.len() == v.len(),
            forall|m: int| 0 <= m < k ==> v@[at + m] == w@[m],
    {
        if v[at + k] != w[k] {
            assert(v@.subrange(at as int, at + w@.len())[k as int] != w@[k as int]);
            return false;
        }
    }
    assert(v@.subrange(at as int, at + w@.len()) == w@);
    true
}

/// `str::contains` for a string pattern.
pub fn chars_contain(v: &[char], w: &[char]) -> (b: bool)
    ensures
        b == has_infix(v@, w@),
{
    if w.len() > v.len() {
        return false;
    }
    let last = v.len() - w.len();
    let mut at: usize = 0;
    loop
        invariant
            at <= last,
            last + w@.len() == v@.len(),
            forall|i: int|
                0 <= i < at ==> #[trigger] v@.subrange(i, i + w@.len()) != w@,
        decreases last - at,
    {
        if chars_match_at(v, w, at) {
            return true;
        }
        if at == last {
            return false;
        }
        at = at + 1;
    }
}

proof fn lemma_decimal_value_prefix(s: Seq<char>, k: int)
    requires
        0 <= k <= s.len(),
        all_digits(s),
    ensures
        decimal_value(s.take(k)) <= decimal_value(s),
    decreases s.len() - k,
{
    if k < s.len() {
        let t = s.take(k + 1);
        assert(t.drop_last() == s.take(k));
        assert(is_ascii_digit(s[k]));
        lemma_decimal_value_prefix(s, k + 1);
    } else {
        assert(s.take(k) == s);
    }
}

/// The value of the ASCII digits `d`, when it is at most `max`.
fn digits_up_to(d: &[char], max: u64) -> (r: Option<u64>)
    ensures
        r is Some <==> (all_digits(d@) && decimal_value(d@) <= max),
        r matches Some(n) ==> n == decimal_value(d@),
{
    let mut acc: u64 = 0;
    for k in 0..d.len()
        invariant
            forall|m: int| 0 <= m < k ==> is_ascii_digit(#[trigger] d@[m]),
            acc == decimal_value(d@.take(k as int)),
            acc <= max,
    {
        let c = d[k];
        if !char_is_ascii_digit(c) {
            return None;
        }
        let dv = (c as u32 - 0x30) as u64;
        assert(d@.take(k + 1).drop_last() == d@.take(k as int));
        if dv > max {
            proof {
                if all_digits(d@) {
                    lemma_decimal_value_prefix(d@, k + 1);
                }
            }
            return None;
        }
        if acc > (max - dv) / 10 {
            proof {
                assert forall|m: int| 0 <= m < k + 1 implies is_ascii_digit(
                    #[trigger] d@.take(k + 1)[m],
                ) by {}
                if all_digits(d@) {
                    lemma_decimal_value_prefix(d@, k + 1);
                }
                assert(acc * 10 + dv > max) by (nonlinear_arith)
                    requires
                        acc > (max - dv) / 10,
                        dv <= max,
                ;
            }
            return None;
        }
        assert(acc * 10 + dv <= max) by (nonlinear_arith)
            requires
                acc <= (max - dv) / 10,
                dv <= max,
        ;
        acc = acc * 10 + dv;
    }
    assert(d@.take(d@.len() as int) == d@);
    Some(acc)
}

/// `str::parse` for an unsigned integer type whose largest value is `max`.
pub fn parse_unsigned_chars(v: &[char], max: u64) -> (r: Option<u64>)
    ensures
        r is Some <==> parse_unsigned(v@, max as nat) is Some,
        r matches Some(n) ==> parse_unsigned(v@, max as nat) == Some(n as nat),
{
    if v.len() > 0 && v[0] == '+' {
        let mut d: Vec<char> = Vec::new();
        for k in 1..v.len()
            invariant
                1 <= v@.len(),
                d@ == v@.subrange(1, k as int),
        {
            d.push(v[k]);
            assert(v@.subrange(1, k + 1) == v@.subrange(1, k as int).push(v@[k as int]));
        }
        assert(d@ == v@.drop_first());
        if d.len() == 0 {
            return None;
        }
        digits_up_to(d.as_slice(), max)
    } else {
        if v.len() == 0 {
            return None;
        }
        digits_up_to(v, max)
    }
}

/// `str::parse::<u64>`.
pub fn parse_u64(v: &[char]) -> (r: Option<u64>)
    ensures
        r is Some <==> parse_unsigned(v@, u64::MAX as nat) is Some,
        r matches Some(n) ==> parse_unsigned(v@, u64::MAX as nat) == Some(n as nat),
{
    parse_unsigned_chars(v, u64::MAX)
}

/// `str::parse::<u16>`.
pub fn parse_u16(v: &[char]) -> (r: Option<u16>)
    ensures
        r is Some <==> parse_unsigned(v@, u16::MAX as nat) is Some,
        r matches Some(n) ==> parse_unsigned(v@, u16::MAX as nat) == Some(n as nat),
{
    match parse_unsigned_chars(v, u16::MAX as u64) {
        Some(n) => Some(n as u16),
        None => None,
    }
}

/// `str::parse::<i32>`.
pub fn parse_i32(v: &[char]) -> (r: Option<i32>)
    ensures
        r is Some <==> parse_i32_value(v@) is Some,
        r matches Some(n) ==> parse_i32_value(v@) == Some(n as int),
{
    if v.len() > 0 && v[0] == '-' {
        let mut d: Vec<char> = Vec::new();
        for k in 1..v.len()
            invariant
                1 <= v@.len(),
                d@ == v@.subrange(1, k as int),
        {
            d.push(v[k]);
            assert(v@.subrange(1, k + 1) == v@.subrange(1, k as int).push(v@[k as int]));
        }
        assert(d@ == v@.drop_first());
        if d.len() == 0 {
            return None;
        }
        match digits_up_to(d.as_slice(), 0x8000_0000) {
            Some(n) => {
                if n == 0x8000_0000 {
                    Some(i32::MIN)
                } else {
                    Some(-(n as i32))
                }
            },
            None => None,
        }
    } else {
        match parse_unsigned_chars(v, 0x7fff_ffff) {
            Some(n) => Some(n as i32),
            None => None,
        }
    }
}

/// Appends the decimal numeral of `n` to `s`.
pub fn push_decimal(s: &mut String, n: u64)
    ensures
        final(s)@ == old(s)@ + decimal_chars(n as nat),
    decreases n,
{
    if n >= 10 {
        push_decimal(s, n / 10);
    }
    let d = (n % 10) as u8;
    let c = (d + 0x30) as char;
    assert(c == digit_char((n % 10) as nat));
    push_char(s, c);
}

/// `str::parse::<u64>` after `str::trim`.
pub fn parse_trimmed_u64(v: &[char]) -> (r: Option<u64>)
    ensures
        r == trimmed_u64(v@),
{
    let t = trim_chars(v);
    parse_u64(t.as_slice())
}

/// `str::parse::<u16>` after `str::trim`.
pub fn parse_trimmed_u16(v: &[char]) -> (r: Option<u16>)
    ensures
        r == trimmed_u16(v@),
{
    let t = trim_chars(v);
    parse_u16(t.as_slice())
}

/// `str::parse::<i32>` after `str::trim`.
pub fn parse_trimmed_i32(v: &[char]) -> (r: Option<i32>)
    ensures
        r == trimmed_i32(v@),
{
    let t = trim_chars(v);
    parse_i32(t.as_slice())
}

proof fn lemma_index_of_any_at(s: Seq<char>, set: Seq<char>, k: int)
    requires
        0 <= k <= s.len(),
        forall|m: int| 0 <= m < k ==> !set.contains(#[trigger] s[m]),
        k == s.len() || set.contains(s[k]),
    ensures
        index_of_any(s, set) == (if k == s.len() { -1 } else { k }),
    decreases k,
{
    if k > 0 {
        let t = s.drop_first();
        assert forall|m: int| 0 <= m < k - 1 implies !set.contains(#[trigger] t[m]) by {
            assert(t[m] == s[m + 1]);
        }
        lemma_index_of_any_at(t, set, k - 1);
    }
}

/// The position of the first character of `v` that is one of `set`, if any.
pub fn find_any(v: &[char], set: &[char]) -> (r: Option<usize>)
    ensures
        index_of_any(v@, set@) == (match r {
            Some(k) => k as int,
            None => -1,
        }),
        r matches Some(k) ==> k < v@.len(),
{
    for k in 0..v.len()
        invariant
            forall|m: int| 0 <= m < k ==> !set@.contains(#[trigger] v@[m]),
    {
        let c = v[k];
        let mut hit = false;
        for q in 0..set.len()
            invariant
                !hit ==> forall|m: int| 0 <= m < q ==> set@[m] != c,
                hit ==> set@.contains(c),
        {
            if set[q] == c {
                hit = true;
            }
        }
        if hit {
            proof {
                lemma_index_of_any_at(v@, set@, k as int);
            }
            return Some(k);
        }
        assert(!set@.contains(v@[k as int]));
    }
    proof {
        lemma_index_of_any_at(v@, set@, v@.len() as int);
    }
    None
}

/// The characters of `v` from `from` up to `to`.
pub fn slice_chars(v: &[char], from: usize, to: usize) -> (r: Vec<char>)
    requires
        from <= to <= v@.len(),
    ensures
        r@ == v@.subrange(from as int, to as int),
{
    let mut r: Vec<char> = Vec::new();
    for k in from..to
        invariant
            from <= to <= v@.len(),
            r@ == v@.subrange(from as int, k as int),
    {
        r.push(v[k]);
        assert(v@.subrange(from as int, k + 1) == v@.subrange(from as int, k as int).push(
            v@[k as int],
        ));
    }
    r
}

} // verus!
