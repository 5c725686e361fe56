//! Comparison of byte strings and of text.

use vstd::prelude::*;

verus! {

/// Whether two byte strings are equal.
pub fn bytes_eq(a: &[u8], b: &[u8]) -> (r: bool)
    ensures
        r == (a@ == b@),
{
    if a.len() != b.len() {
        return false;
    }
    let mut i: usize = 0;
    while i < a.len()
        invariant
            a@.len() == b@.len(),
            i <= a@.len(),
            forall|j: int| 0 <= j < i ==> a@[j] == b@[j],
        decreases a.len() - i,
    {
        if a[i] != b[i] {
            return false;
        }
        i = i + 1;
    }
    assert(a@ =~= b@);
    true
}

/// Whether two strings hold the same characters.
pub fn str_eq(a: &str, b: &str) -> (r: bool)
    ensures
        r == (a@ == b@),
{
    let r = bytes_eq(a.as_bytes(), b.as_bytes());
    proof {
        vstd::utf8::encode_utf8_decode_utf8(a@);
        vstd::utf8::encode_utf8_decode_utf8(b@);
    }
    r
}

/// The character of a decimal digit.
pub open spec fn spec_digit(d: nat) -> char {
    if d == 0 {
        '0'
    } else if d == 1 {
        '1'
    } else if d == 2 {
        '2'
    } else if d == 3 {
        '3'
    } else if d == 4 {
        '4'
    } else if d == 5 {
        '5'
    } else if d == 6 {
        '6'
    } else if d == 7 {
        '7'
    } else if d == 8 {
        '8'
    } else {
        '9'
    }
}

/// A number in decimal, without leading zeros.
pub open spec fn spec_decimal(n: nat) -> Seq<char>
    decreases n,
{
    if n < 10 {
        seq![spec_digit(n)]
    } else {
        spec_decimal(n / 10).push(spec_digit(n % 10))
    }
}

fn digit_str(d: u64) -> (r: &'static str)
    requires
        d < 10,
    ensures
        r@ == seq![spec_digit(d as nat)],
{
    proof {
        reveal_strlit("0");
        reveal_strlit("1");
        reveal_strlit("2");
        reveal_strlit("3");
        reveal_strlit("4");
        reveal_strlit("5");
        reveal_strlit("6");
        reveal_strlit("7");
        reveal_strlit("8");
        reveal_strlit("9");
    }
    let r = if d == 0 {
        "0"
    } else if d == 1 {
        "1"
    } else if d == 2 {
        "2"
    } else if d == 3 {
        "3"
    } else if d == 4 {
        "4"
    } else if d == 5 {
        "5"
    } else if d == 6 {
        "6"
    } else if d == 7 {
        "7"
    } else if d == 8 {
        "8"
    } else {
        "9"
    };
    assert(r@ =~= seq![spec_digit(d as nat)]);
    r
}

/// Appends a number in decimal to a string.
pub fn push_decimal(out: &mut String, n: u64)
    ensures
        final(out)@ == old(out)@ + spec_decimal(n as nat),
    decreases n,
{
    if n < 10 {
        out.append(digit_str(n));
    } else {
        push_decimal(out, n / 10);
        out.append(digit_str(n % 10));
        assert(out@ =~= old(out)@ + spec_decimal(n as nat));
    }
}

/// Whether a character is a decimal digit.
pub open spec fn spec_is_digit(c: char) -> bool {
    '0' <= c && c <= '9'
}

/// The value of a decimal digit.
pub open spec fn spec_digit_value(c: char) -> nat {
    (c as u32 - '0' as u32) as nat
}

/// Whether every character of a string is a decimal digit.
pub open spec fn spec_all_digits(s: Seq<char>) -> bool {
    forall|i: int| 0 <= i < s.len() ==> spec_is_digit(#[trigger] s[i])
}

/// The value of a string of decimal digits.
pub open spec fn spec_decimal_value(s: Seq<char>) -> nat
    decreases s.len(),
{
    if s.len() == 0 {
        0
    } else {
        spec_decimal_value(s.drop_last()) * 10 + spec_digit_value(s.last())
    }
}

/// The number that a string stands for in decimal: the string is not empty,
/// holds digits only, and its value fits.
pub open spec fn spec_parse_decimal(s: Seq<char>) -> Option<u64> {
    if s.len() > 0 && spec_all_digits(s) && spec_decimal_value(s) <= u64::MAX {
        Some(spec_decimal_value(s) as u64)
    } else {
        None
    }
}

/// The value of a string of digits is at least that of each of its prefixes.
pub proof fn lemma_decimal_value_prefix(s: Seq<char>, k: int)
    requires
        0 <= k <= s.len(),
    ensures
        spec_decimal_value(s.take(k)) <= spec_decimal_value(s),
    decreases s.len() - k,
{
    if k == s.len() {
        assert(s.take(k) =~= s);
    } else {
        lemma_decimal_value_prefix(s, k + 1);
        assert(s.take(k + 1).drop_last() =~= s.take(k));
    }
}

/// Reading a number back from its decimal form gives the number.
pub proof fn lemma_decimal_round_trip(n: nat)
    ensures
        spec_decimal(n).len() > 0,
        spec_all_digits(spec_decimal(n)),
        spec_decimal_value(spec_decimal(n)) == n,
    decreases n,
{
    if n < 10 {
        let s = spec_decimal(n);
        assert(s.drop_last() =~= Seq::<char>::empty());
        assert(spec_decimal_value(s.drop_last()) == 0);
    } else {
        lemma_decimal_round_trip(n / 10);
        let s = spec_decimal(n);
        assert(s.drop_last() =~= spec_decimal(n / 10));
        assert(s.last() == spec_digit(n % 10));
        assert forall|i: int| 0 <= i < s.len() implies spec_is_digit(#[trigger] s[i]) by {
            if i < s.len() - 1 {
                assert(s[i] == spec_decimal(n / 10)[i]);
            }
        }
    }
}

/// The characters of a string from `from` up to `to`, read as a decimal
/// number; `None` where they are no number that fits.
pub fn parse_decimal_range(s: &str, from: usize, to: usize) -> (r: Option<u64>)
    requires
        from <= to <= s@.len(),
    ensures
        r == spec_parse_decimal(s@.subrange(from as int, to as int)),
{
    let ghost t = s@.subrange(from as int, to as int);
    if from == to {
        return None;
    }
    let mut acc: u64 = 0;
    let mut i: usize = from;
    assert(t.take(0) =~= Seq::<char>::empty());
    while i < to
        invariant
            from <= i <= to <= s@.len(),
            t == s@.subrange(from as int, to as int),
            spec_all_digits(t.take(i - from)),
            acc as nat == spec_decimal_value(t.take(i - from)),
        decreases to - i,
    {
        let c = s.get_char(i);
        let ghost k = i - from;
        proof {
            assert(t[k] == c);
            assert(t.take(k + 1).drop_last() =~= t.take(k));
            assert(t.take(k + 1).last() == c);
            lemma_decimal_value_prefix(t, k + 1);
        }
        if !(c >= '0' && c <= '9') {
            return None;
        }
        let d: u64 = (c as u32 - '0' as u32) as u64;
        if acc > (u64::MAX - d) / 10 {
            return None;
        }
        acc = acc * 10 + d;
        i = i + 1;
        proof {
            assert forall|j: int| 0 <= j < t.take(k + 1).len() implies spec_is_digit(
                #[trigger] t.take(k + 1)[j],
            ) by {
                if j < k {
                    assert(t.take(k + 1)[j] == t.take(k)[j]);
                }
            }
        }
    }
    assert(t.take(to - from) =~= t);
    Some(acc)
}

/// A string read as a decimal number; `None` where it is no number that
/// fits.
pub fn parse_decimal(s: &str) -> (r: Option<u64>)
    ensures
        r == spec_parse_decimal(s@),
{
    let n = s.unicode_len();
    assert(s@.subrange(0, n as int) =~= s@);
    parse_decimal_range(s, 0, n)
}

/// Appends one character to a string.
///
/// This is `String::push` of the standard library, which is documented to
/// append the given character to the end of the string; the contract says
/// that and nothing more.
#[verifier::external_body]
pub(crate) fn push_char(s: &mut String, c: char)
    ensures
        final(s)@ == old(s)@.push(c),
{
    s.push(c);
}

/// A string with every occurrence of one character replaced by another.
pub open spec fn spec_replace_char(s: Seq<char>, from: char, to: char) -> Seq<char> {
    Seq::new(
        s.len(),
        |i: int|
            if s[i] == from {
                to
            } else {
                s[i]
            },
    )
}

/// Appends `s` to `out`, with every occurrence of `from` replaced by `to`.
pub fn push_replaced(out: &mut String, s: &str, from: char, to: char)
    ensures
        final(out)@ == old(out)@ + spec_replace_char(s@, from, to),
{
    let n = s.unicode_len();
    let mut i: usize = 0;
    while i < n
        invariant
            i <= n,
            n == s@.len(),
            out@ == old(out)@ + spec_replace_char(s@, from, to).take(i as int),
        decreases n - i,
    {
        let c = s.get_char(i);
        if c == from {
            push_char(out, to);
        } else {
            push_char(out, c);
        }
        i = i + 1;
        assert(out@ =~= old(out)@ + spec_replace_char(s@, from, to).take(i as int));
    }
    assert(spec_replace_char(s@, from, to).take(n as int) =~= spec_replace_char(s@, from, to));
}

/// The lower-case form of a string, as the standard library gives it.
pub uninterp spec fn spec_to_lowercase(s: Seq<char>) -> Seq<char>;

/// The lower-case form of a string.
///
/// This is `str::to_lowercase` of the standard library, which goes by the
/// Unicode lower-case mapping; the contract only gives its result a name.
#[verifier::external_body]
pub(crate) fn to_lowercase(s: &str) -> (r: String)
    ensures
        r@ == spec_to_lowercase(s@),
{
    s.to_lowercase()
}

/// The first position from `from` on at which `c` stands in `s`, or the
/// length of `s` where it stands at none.
pub open spec fn spec_find_char(s: Seq<char>, c: char, from: int) -> int
    decreases s.len() - from,
{
    if from >= s.len() {
        s.len() as int
    } else if s[from] == c {
        from
    } else {
        spec_find_char(s, c, from + 1)
    }
}

/// The first position from `from` on at which `c` stands in `s`, or the
/// length of `s` where it stands at none.
pub fn find_char(s: &str, c: char, from: usize) -> (r: usize)
    requires
        from <= s@.len(),
    ensures
        r as int == spec_find_char(s@, c, from as int),
        from <= r <= s@.len(),
        r < s@.len() ==> s@[r as int] == c,
        forall|i: int| from <= i < r ==> s@[i] != c,
{
    let n = s.unicode_len();
    let mut i: usize = from;
    while i < n
        invariant
            from <= i <= n,
            n == s@.len(),
            spec_find_char(s@, c, from as int) == spec_find_char(s@, c, i as int),
            forall|j: int| from <= j < i ==> s@[j] != c,
        decreases n - i,
    {
        if s.get_char(i) == c {
            return i;
        }
        i = i + 1;
    }
    i
}

/// Whether a character is white space: one of the characters that Unicode
/// gives the property `White_Space`.
pub open spec fn spec_is_whitespace(c: char) -> bool {
    let u = c as u32;
    (0x09 <= u <= 0x0D) || u == 0x20 || u == 0x85 || u == 0xA0 || u == 0x1680 || (0x2000 <= u
        <= 0x200A) || u == 0x2028 || u == 0x2029 || u == 0x202F || u == 0x205F || u == 0x3000
}

/// Whether a character is white space.
pub fn is_whitespace(c: char) -> (r: bool)
    ensures
        r == spec_is_whitespace(c),
{
    let u = c as u32;
    (0x09 <= u && u <= 0x0D) || u == 0x20 || u == 0x85 || u == 0xA0 || u == 0x1680 || (0x2000 <= u
        && u <= 0x200A) || u == 0x2028 || u == 0x2029 || u == 0x202F || u == 0x205F || u == 0x3000
}

/// Where the part `from..to` of a string starts once the white space at its
/// front is left out.
pub open spec fn spec_trim_start(s: Seq<char>, from: int, to: int) -> int
    decreases to - from,
{
    if from >= to {
        to
    } else if spec_is_whitespace(s[from]) {
        spec_trim_start(s, from + 1, to)
    } else {
        from
    }
}

/// Where the part `from..to` of a string ends once the white space at its
/// end is left out.
pub open spec fn spec_trim_end(s: Seq<char>, from: int, to: int) -> int
    decreases to - from,
{
    if from >= to {
        from
    } else if spec_is_whitespace(s[to - 1]) {
        spec_trim_end(s, from, to - 1)
    } else {
        to
    }
}

/// The part `from..to` of a string without the white space at its front and
/// at its end.
pub open spec fn spec_trim(s: Seq<char>, from: int, to: int) -> Seq<char> {
    let a = spec_trim_start(s, from, to);
    s.subrange(a, spec_trim_end(s, a, to))
}

/// Where the part `from..to` of a string starts and ends once the white
/// space at its front and at its end is left out.
pub fn trim_range(s: &str, from: usize, to: usize) -> (r: (usize, usize))
    requires
        from <= to <= s@.len(),
    ensures
        r.0 as int == spec_trim_start(s@, from as int, to as int),
        r.1 as int == spec_trim_end(s@, r.0 as int, to as int),
        from <= r.0 <= r.1 <= to,
        s@.subrange(r.0 as int, r.1 as int) == spec_trim(s@, from as int, to as int),
{
    let mut a: usize = from;
    while a < to && is_whitespace(s.get_char(a))
        invariant
            from <= a <= to <= s@.len(),
            spec_trim_start(s@, from as int, to as int) == spec_trim_start(s@, a as int, to as int),
        decreases to - a,
    {
        a = a + 1;
    }
    let mut b: usize = to;
    while a < b && is_whitespace(s.get_char(b - 1))
        invariant
            a <= b <= to <= s@.len(),
            spec_trim_end(s@, a as int, to as int) == spec_trim_end(s@, a as int, b as int),
        decreases b - a,
    {
        b = b - 1;
    }
    (a, b)
}

/// Removes the last character of a string, where it has one.
///
/// This is `String::pop` of the standard library, which is documented to
/// remove the last character and to leave an empty string as it is; the
/// contract says that and nothing more.
#[verifier::external_body]
pub(crate) fn pop_char(s: &mut String)
    ensures
        final(s)@ == spec_pop(old(s)@),
{
    s.pop();
}

/// A string without its last character; the empty string as it is.
pub open spec fn spec_pop(s: Seq<char>) -> Seq<char> {
    if s.len() > 0 {
        s.drop_last()
    } else {
        s
    }
}

/// A string in the form in which the standard library prints it for
/// debugging: between double quotes, with escapes.
pub uninterp spec fn spec_debug_str(s: Seq<char>) -> Seq<char>;

/// A string in the form in which the standard library prints it for
/// debugging.
///
/// This formats the string with `{:?}`, that is by the implementation of
/// `Debug` for `str` in the standard library; the contract only gives its
/// result a name.
#[verifier::external_body]
pub(crate) fn debug_str(s: &str) -> (r: String)
    ensures
        r@ == spec_debug_str(s@),
{
    format!("{:?}", s)
}

/// Whether `a` comes before `b` where strings are ordered character by
/// character, a string coming after each of its proper prefixes; decided
/// from position `i` on, up to which the two are equal.
pub open spec fn spec_str_lt_from(a: Seq<char>, b: Seq<char>, i: int) -> bool
    decreases b.len() - i,
{
    if i < 0 || i >= b.len() {
        false
    } else if i >= a.len() {
        true
    } else if a[i] != b[i] {
        a[i] < b[i]
    } else {
        spec_str_lt_from(a, b, i + 1)
    }
}

/// Whether `a` comes before `b` where strings are ordered character by
/// character.
pub open spec fn spec_str_lt(a: Seq<char>, b: Seq<char>) -> bool {
    spec_str_lt_from(a, b, 0)
}

/// Whether `a` comes before `b` where strings are ordered character by
/// character.
pub fn str_lt(a: &str, b: &str) -> (r: bool)
    ensures
        r == spec_str_lt(a@, b@),
{
    let an = a.unicode_len();
    let bn = b.unicode_len();
    let mut i: usize = 0;
    loop
        invariant
            i <= an,
            i <= bn,
            an == a@.len(),
            bn == b@.len(),
            spec_str_lt(a@, b@) == spec_str_lt_from(a@, b@, i as int),
        decreases bn - i,
    {
        if i >= bn {
            return false;
        }
        if i >= an {
            return true;
        }
        let x = a.get_char(i);
        let y = b.get_char(i);
        if x != y {
            return x < y;
        }
        i = i + 1;
    }
}

/// Whether the part `from..to` of a string starts with a prefix.
pub open spec fn spec_starts_with(s: Seq<char>, from: int, to: int, prefix: Seq<char>) -> bool {
    from + prefix.len() <= to && s.subrange(from, from + prefix.len()) == prefix
}

/// Whether the part `from..to` of a string starts with a prefix.
pub fn starts_with(s: &str, from: usize, to: usize, prefix: &str) -> (r: bool)
    requires
        from <= to <= s@.len(),
    ensures
        r == spec_starts_with(s@, from as int, to as int, prefix@),
{
    let n = prefix.unicode_len();
    if n > to - from {
        return false;
    }
    let mut i: usize = 0;
    while i < n
        invariant
            i <= n,
            n == prefix@.len(),
            from + n <= to <= s@.len(),
            forall|j: int| 0 <= j < i ==> s@[from + j] == prefix@[j],
        decreases n - i,
    {
        if s.get_char(from + i) != prefix.get_char(i) {
            assert(s@.subrange(from as int, from + n)[i as int] != prefix@[i as int]);
            return false;
        }
        i = i + 1;
    }
    assert(s@.subrange(from as int, from + n) =~= prefix@);
    true
}

/// Where the part `from..to` of a string starts once every repetition of a
/// prefix at its front is left out. An empty prefix leaves nothing out.
pub open spec fn spec_skip_prefixes(s: Seq<char>, from: int, to: int, prefix: Seq<char>) -> int
    decreases to - from,
{
    if prefix.len() > 0 && spec_starts_with(s, from, to, prefix) {
        spec_skip_prefixes(s, from + prefix.len(), to, prefix)
    } else {
        from
    }
}

/// Where the part `from..to` of a string starts once every repetition of a
/// prefix at its front is left out.
pub fn skip_prefixes(s: &str, from: usize, to: usize, prefix: &str) -> (r: usize)
    requires
        from <= to <= s@.len(),
    ensures
        r as int == spec_skip_prefixes(s@, from as int, to as int, prefix@),
        from <= r <= to,
{
    let n = prefix.unicode_len();
    if n == 0 {
        return from;
    }
    let mut a: usize = from;
    while starts_with(s, a, to, prefix)
        invariant
            from <= a <= to <= s@.len(),
            n == prefix@.len(),
            n > 0,
            spec_skip_prefixes(s@, from as int, to as int, prefix@) == spec_skip_prefixes(
                s@,
                a as int,
                to as int,
                prefix@,
            ),
        decreases to - a,
    {
        a = a + n;
    }
    a
}

/// Where the part `from..to` of a string starts once every `c` at its front
/// is left out.
pub open spec fn spec_skip_chars(s: Seq<char>, c: char, from: int, to: int) -> int
    decreases to - from,
{
    if from < to && s[from] == c {
        spec_skip_chars(s, c, from + 1, to)
    } else {
        from
    }
}

/// Where the part `from..to` of a string ends once every `c` at its end is
/// left out.
pub open spec fn spec_drop_chars(s: Seq<char>, c: char, from: int, to: int) -> int
    decreases to - from,
{
    if from < to && s[to - 1] == c {
        spec_drop_chars(s, c, from, to - 1)
    } else {
        to
    }
}

/// Where the part `from..to` of a string starts and ends once every `c` at
/// its front and at its end is left out.
pub fn trim_char_range(s: &str, c: char, from: usize, to: usize) -> (r: (usize, usize))
    requires
        from <= to <= s@.len(),
    ensures
        r.0 as int == spec_skip_chars(s@, c, from as int, to as int),
        r.1 as int == spec_drop_chars(s@, c, r.0 as int, to as int),
        from <= r.0 <= r.1 <= to,
{
    let mut a: usize = from;
    while a < to && s.get_char(a) == c
        invariant
            from <= a <= to <= s@.len(),
            spec_skip_chars(s@, c, from as int, to as int) == spec_skip_chars(
                s@,
                c,
                a as int,
                to as int,
            ),
        decreases to - a,
    {
        a = a + 1;
    }
    let mut b: usize = to;
    while a < b && s.get_char(b - 1) == c
        invariant
            a <= b <= to <= s@.len(),
            spec_drop_chars(s@, c, a as int, to as int) == spec_drop_chars(
                s@,
                c,
                a as int,
                b as int,
            ),
        decreases b - a,
    {
        b = b - 1;
    }
    (a, b)
}

/// The last position before `to` at which `c` stands in `s`, or -1 where it
/// stands at none.
pub open spec fn spec_rfind_char(s: Seq<char>, c: char, to: int) -> int
    decreases to,
{
    if to <= 0 {
        -1
    } else if s[to - 1] == c {
        to - 1
    } else {
        spec_rfind_char(s, c, to - 1)
    }
}

/// The position after the last `c` of a string, or 0 where it holds none.
pub fn after_last(s: &str, c: char) -> (r: usize)
    ensures
        r as int == spec_rfind_char(s@, c, s@.len() as int) + 1,
        r <= s@.len(),
{
    let n = s.unicode_len();
    let mut to: usize = n;
    while to > 0
        invariant
            to <= n,
            n == s@.len(),
            spec_rfind_char(s@, c, n as int) == spec_rfind_char(s@, c, to as int),
        decreases to,
    {
        if s.get_char(to - 1) == c {
            return to;
        }
        to = to - 1;
    }
    0
}

/// Of two strings that are equal up to position `i` and differ, one comes
/// before the other.
pub proof fn lemma_str_lt_total(a: Seq<char>, b: Seq<char>, i: int)
    requires
        0 <= i <= a.len(),
        i <= b.len(),
        forall|j: int| 0 <= j < i ==> a[j] == b[j],
        a != b,
    ensures
        spec_str_lt_from(a, b, i) || spec_str_lt_from(b, a, i),
        !(spec_str_lt_from(a, b, i) && spec_str_lt_from(b, a, i)),
    decreases a.len() - i,
{
    if i < a.len() && i < b.len() {
        if a[i] == b[i] {
            lemma_str_lt_total(a, b, i + 1);
        }
    } else if i >= a.len() && i >= b.len() {
        assert(a =~= b);
    }
}

/// No string comes before itself.
pub proof fn lemma_str_lt_irreflexive(a: Seq<char>, i: int)
    requires
        0 <= i <= a.len(),
    ensures
        !spec_str_lt_from(a, a, i),
    decreases a.len() - i,
{
    if i < a.len() {
        lemma_str_lt_irreflexive(a, i + 1);
    }
}

/// Where `a` comes before `b` and `b` before `c`, `a` comes before `c`.
pub proof fn lemma_str_lt_transitive(a: Seq<char>, b: Seq<char>, c: Seq<char>, i: int)
    requires
        0 <= i,
        spec_str_lt_from(a, b, i),
        spec_str_lt_from(b, c, i),
    ensures
        spec_str_lt_from(a, c, i),
    decreases c.len() - i,
{
    if i < a.len() && i < b.len() && i < c.len() {
        if a[i] == b[i] && b[i] == c[i] {
            lemma_str_lt_transitive(a, b, c, i + 1);
        }
    }
}

/// Whether a string holds another as a part.
pub open spec fn spec_contains(hay: Seq<char>, needle: Seq<char>) -> bool {
    exists|i: int| 0 <= i && #[trigger] spec_starts_with(hay, i, hay.len() as int, needle)
}

/// Whether a string holds another as a part.
pub fn contains(hay: &str, needle: &str) -> (r: bool)
    ensures
        r == spec_contains(hay@, needle@),
{
    let n = hay.unicode_len();
    let mut i: usize = 0;
    loop
        invariant
            i <= n,
            n == hay@.len(),
            forall|j: int| 0 <= j < i ==> !spec_starts_with(hay@, j, n as int, needle@),
        decreases n - i,
    {
        if starts_with(hay, i, n, needle) {
            return true;
        }
        if i >= n {
            assert forall|j: int| 0 <= j implies !#[trigger] spec_starts_with(
                hay@,
                j,
                n as int,
                needle@,
            ) by {
                if j > n {
                    assert(j + needle@.len() > n);
                }
            }
            return false;
        }
        i = i + 1;
    }
}

/// A position found from `from` on lies between `from` and the end.
pub proof fn lemma_find_char_bounds(s: Seq<char>, c: char, from: int)
    requires
        0 <= from <= s.len(),
    ensures
        from <= spec_find_char(s, c, from) <= s.len(),
        spec_find_char(s, c, from) < s.len() ==> s[spec_find_char(s, c, from)] == c,
        forall|i: int| from <= i < spec_find_char(s, c, from) ==> s[i] != c,
    decreases s.len() - from,
{
    if from < s.len() && s[from] != c {
        lemma_find_char_bounds(s, c, from + 1);
    }
}

/// Where a character stands at `p` and nowhere from `from` up to `p`, it is
/// found at `p`; and where it stands nowhere from `from` on, it is found at
/// the end.
pub proof fn lemma_find_char_first(s: Seq<char>, c: char, from: int, p: int)
    requires
        0 <= from <= p <= s.len(),
        forall|i: int| from <= i < p ==> s[i] != c,
        p < s.len() ==> s[p] == c,
    ensures
        spec_find_char(s, c, from) == p,
    decreases p - from,
{
    if from < p {
        lemma_find_char_first(s, c, from + 1, p);
    }
}

} // verus!
