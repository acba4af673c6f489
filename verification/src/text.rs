use vstd::prelude::*;
use vstd::std_specs::iter::IteratorSpec;

verus! {

/// `String::push` appends one character to the end of the string.
pub assume_specification[ String::push ](s: &mut String, c: char)
    ensures
        final(s)@ == old(s)@.push(c),
;

/// The characters of `s`, in order.
pub fn chars_of(s: &str) -> (v: Vec<char>)
    ensures
        v@ == s@,
{
    let mut v: Vec<char> = Vec::new();
    let mut it = s.chars();
    loop
        invariant
            it.obeys_prophetic_iter_laws(),
            it.decrease() is Some,
            v@ + it.remaining() == s@,
        ensures
            v@ == s@,
        decreases it.decrease()->0,
    {
        match it.next() {
            Some(c) => {
                v.push(c);
            },
            None => {
                break;
            },
        }
    }
    v
}

/// The decimal digit for a value below ten.
pub open spec fn digit_char(d: nat) -> char {
    if d == 0 {
        '0'
    } else if d == 1 {
        '1'
    } else if d == 2 {
        '2'
    } else if d == 3 {
        '3'
    } else if d == 4 {
        '4'
    } else if d == 5 {
        '5'
    } else if d == 6 {
        '6'
    } else if d == 7 {
        '7'
    } else if d == 8 {
        '8'
    } else {
        '9'
    }
}

/// The decimal numeral of `n`, without sign or leading zeros.
pub open spec fn decimal(n: nat) -> Seq<char>
    decreases n,
{
    if n < 10 {
        seq![digit_char(n)]
    } else {
        decimal(n / 10).push(digit_char(n % 10))
    }
}

/// The decimal digit for a value below ten.
fn digit_of(d: u8) -> (c: char)
    requires
        d < 10,
    ensures
        c == digit_char(d as nat),
{
    match d {
        0 => '0',
        1 => '1',
        2 => '2',
        3 => '3',
        4 => '4',
        5 => '5',
        6 => '6',
        7 => '7',
        8 => '8',
        _ => '9',
    }
}

/// Appends the decimal numeral of `n` to `out`.
pub fn push_decimal(out: &mut String, n: u64)
    ensures
        final(out)@ == old(out)@ + decimal(n as nat),
    decreases n,
{
    if n >= 10 {
        push_decimal(out, n / 10);
    }
    out.push(digit_of((n % 10) as u8));
}

/// Whether `needle` stands in `hay` from position `i` on.
pub open spec fn occurs_at(hay: Seq<char>, needle: Seq<char>, i: int) -> bool {
    0 <= i && i + needle.len() <= hay.len() && hay.subrange(i, i + needle.len()) == needle
}

/// Whether `needle` stands somewhere in `hay`.
pub open spec fn contains_text(hay: Seq<char>, needle: Seq<char>) -> bool {
    exists|i: int| occurs_at(hay, needle, i)
}

/// Decides whether `needle` stands in `hay` from position `i` on.
fn matches_at(hay: &Vec<char>, needle: &Vec<char>, i: usize) -> (b: bool)
    requires
        i + needle.len() <= hay.len(),
    ensures
        b == occurs_at(hay@, needle@, i as int),
{
    let mut k: usize = 0;
    while k < needle.len()
        invariant
            k <= needle.len(),
            i + needle.len() <= hay.len(),
            forall|j: int| 0 <= j < k ==> hay@[i + j] == needle@[j],
        decreases needle.len() - k,
    {
        if hay[i + k] != needle[k] {
            return false;
        }
        k += 1;
    }
    assert(hay@.subrange(i as int, i + needle.len()) =~= needle@);
    true
}

/// Decides whether `needle` stands somewhere in `hay`.
pub fn str_contains(hay: &str, needle: &str) -> (b: bool)
    ensures
        b == contains_text(hay@, needle@),
{
    let h = chars_of(hay);
    let n = chars_of(needle);
    if n.len() > h.len() {
        return false;
    }
    let last: usize = h.len() - n.len();
    let mut i: usize = 0;
    loop
        invariant
            i <= last,
            last == h.len() - n.len(),
            n.len() <= h.len(),
            h@ == hay@,
            n@ == needle@,
            forall|j: int| 0 <= j < i ==> !occurs_at(h@, n@, j),
        decreases last - i,
    {
        if matches_at(&h, &n, i) {
            return true;
        }
        if i == last {
            return false;
        }
        i += 1;
    }
}

/// Decides whether the characters of `text` from `from` up to `to` are
/// those of `word`.
pub fn span_equals(text: &[char], from: usize, to: usize, word: &str) -> (b: bool)
    requires
        from <= to <= text@.len(),
    ensures
        b == (text@.subrange(from as int, to as int) == word@),
{
    let w = chars_of(word);
    if w.len() != to - from {
        return false;
    }
    let mut k: usize = 0;
    while k < w.len()
        invariant
            k <= w@.len(),
            w@ == word@,
            w@.len() == to - from,
            from <= to <= text@.len(),
            forall|j: int| 0 <= j < k ==> text@[from + j] == w@[j],
        decreases w.len() - k,
    {
        if text[from + k] != w[k] {
            return false;
        }
        k += 1;
    }
    assert(text@.subrange(from as int, to as int) =~= w@);
    true
}

/// Decides whether two strings hold the same characters.
pub fn str_equal(a: &str, b: &str) -> (same: bool)
    ensures
        same == (a@ == b@),
{
    let x = chars_of(a);
    assert(x@.subrange(0, x@.len() as int) == x@);
    span_equals(x.as_slice(), 0, x.len(), b)
}

/// The position of the first `c` in `s`, or the length of `s` where `c`
/// does not occur.
pub open spec fn index_of(s: Seq<char>, c: char) -> nat
    decreases s.len(),
{
    if s.len() == 0 {
        0
    } else if s[0] == c {
        0
    } else {
        1 + index_of(s.drop_first(), c)
    }
}

/// `index_of` gives the first position of the character.
pub proof fn lemma_index_of(s: Seq<char>, c: char, i: int)
    requires
        0 <= i <= s.len(),
        forall|j: int| 0 <= j < i ==> s[j] != c,
        i == s.len() || s[i] == c,
    ensures
        index_of(s, c) == i,
    decreases s.len(),
{
    if s.len() > 0 && i > 0 {
        let rest = s.drop_first();
        lemma_index_of(rest, c, i - 1);
    }
}

/// The position of the first `c` in `text` from `from` on and before `to`,
/// or `to` where there is none.
pub fn find_char(text: &[char], from: usize, to: usize, c: char) -> (at: usize)
    requires
        from <= to <= text@.len(),
    ensures
        from <= at <= to,
        at == from + index_of(text@.subrange(from as int, to as int), c),
{
    let mut i: usize = from;
    while i < to && text[i] != c
        invariant
            from <= i <= to,
            to <= text@.len(),
            forall|j: int| from <= j < i ==> text@[j] != c,
        decreases to - i,
    {
        i += 1;
    }
    proof {
        lemma_index_of(text@.subrange(from as int, to as int), c, i - from);
    }
    i
}

/// A line without the carriage return that it may end with.
pub open spec fn without_cr(line: Seq<char>) -> Seq<char> {
    if line.len() > 0 && line.last() == '\r' {
        line.drop_last()
    } else {
        line
    }
}

/// The lines of a text. A line ends with a line feed, or with a carriage
/// return and a line feed, neither of which belongs to the line; the last
/// line may also end with the text. A text that ends with a line feed has
/// no empty line after it.
pub open spec fn lines(s: Seq<char>) -> Seq<Seq<char>>
    decreases s.len(),
{
    if s.len() == 0 {
        Seq::empty()
    } else {
        let i = index_of(s, '\n');
        if i >= s.len() {
            seq![s]
        } else {
            seq![without_cr(s.take(i as int))] + lines(s.skip(i as int + 1))
        }
    }
}

/// The parts of `s` between one separator and the next. There is always a
/// first part, and each separator begins another, be it empty.
pub open spec fn fields(s: Seq<char>, sep: char) -> Seq<Seq<char>>
    decreases s.len(),
{
    let i = index_of(s, sep);
    if i >= s.len() {
        seq![s]
    } else {
        seq![s.take(i as int)] + fields(s.skip(i as int + 1), sep)
    }
}

/// Finds the line that begins at `start`: returns where it ends and where
/// the next line begins.
pub fn next_line(text: &[char], start: usize) -> (span: (usize, usize))
    requires
        start < text@.len(),
    ensures
        start <= span.0 <= span.1 <= text@.len(),
        start < span.1,
        lines(text@.skip(start as int)) == seq![text@.subrange(start as int, span.0 as int)]
            + lines(text@.skip(span.1 as int)),
{
    let n = text.len();
    let at = find_char(text, start, n, '\n');
    let ghost s = text@.skip(start as int);
    if at == n {
        (n, n)
    } else {
        let end = if at > start && text[at - 1] == '\r' {
            at - 1
        } else {
            at
        };
        proof {
            assert(s.skip(at - start + 1) == text@.skip(at + 1));
            assert(without_cr(s.take(at - start)) == text@.subrange(start as int, end as int));
        }
        (end, at + 1)
    }
}

/// Finds the parts of the text from `from` up to `to` that `sep` separates:
/// returns for each part where it begins and where it ends.
pub fn field_spans(text: &[char], from: usize, to: usize, sep: char) -> (spans: Vec<(usize, usize)>)
    requires
        from <= to <= text@.len(),
    ensures
        spans@.len() == fields(text@.subrange(from as int, to as int), sep).len(),
        forall|k: int|
            0 <= k < spans@.len() ==> from <= (#[trigger] spans@[k]).0 <= spans@[k].1 <= to
                && text@.subrange(spans@[k].0 as int, spans@[k].1 as int) == fields(
                text@.subrange(from as int, to as int),
                sep,
            )[k],
{
    let mut spans: Vec<(usize, usize)> = Vec::new();
    let mut cursor: usize = from;
    let ghost whole = fields(text@.subrange(from as int, to as int), sep);
    let ghost mut done: Seq<Seq<char>> = Seq::empty();
    loop
        invariant_except_break
            from <= cursor <= to,
            whole == done + fields(text@.subrange(cursor as int, to as int), sep),
        invariant
            to <= text@.len(),
            whole == fields(text@.subrange(from as int, to as int), sep),
            done.len() == spans@.len(),
            forall|k: int|
                0 <= k < spans@.len() ==> from <= (#[trigger] spans@[k]).0 <= spans@[k].1 <= to
                    && text@.subrange(spans@[k].0 as int, spans@[k].1 as int) == done[k],
        ensures
            whole == done,
        decreases to - cursor,
    {
        let at = find_char(text, cursor, to, sep);
        let ghost rest = text@.subrange(cursor as int, to as int);
        let ghost part = text@.subrange(cursor as int, at as int);
        spans.push((cursor, at));
        if at == to {
            proof {
                done = done.push(part);
            }
            break;
        }
        proof {
            assert(rest.take(at - cursor) == part);
            assert(rest.skip(at - cursor + 1) == text@.subrange(at + 1, to as int));
            done = done.push(part);
        }
        cursor = at + 1;
    }
    spans
}

/// Whether `c` is one of the ten decimal digits.
pub open spec fn is_digit(c: char) -> bool {
    '0' <= c <= '9'
}

/// The number that the decimal digits of `s` denote.
pub open spec fn digits_value(s: Seq<char>) -> nat
    decreases s.len(),
{
    if s.len() == 0 {
        0
    } else {
        digits_value(s.drop_last()) * 10 + (s.last() as nat - '0' as nat) as nat
    }
}

/// Whether `s` is made of decimal digits only.
pub open spec fn all_digits(s: Seq<char>) -> bool {
    forall|i: int| 0 <= i < s.len() ==> is_digit(#[trigger] s[i])
}

/// The number that a numeral denotes: one or more decimal digits, which a
/// plus sign may precede, and a value of at most `max`.
pub open spec fn unsigned_of(s: Seq<char>, max: nat) -> Option<nat> {
    let body = if s.len() > 0 && s[0] == '+' {
        s.drop_first()
    } else {
        s
    };
    if body.len() > 0 && all_digits(body) && digits_value(body) <= max {
        Some(digits_value(body))
    } else {
        None
    }
}

/// The digits of a numeral denote the number that the numeral was written
/// for.
pub proof fn lemma_decimal_denotes(n: nat)
    ensures
        decimal(n).len() >= 1,
        all_digits(decimal(n)),
        digits_value(decimal(n)) == n,
    decreases n,
{
    if n < 10 {
        reveal_with_fuel(digits_value, 2);
    } else {
        lemma_decimal_denotes(n / 10);
        let init = decimal(n / 10);
        assert(decimal(n).drop_last() == init);
    }
}

/// A numeral that was written for a number is read as that number, if the
/// number is not above the greatest allowed.
pub proof fn law_decimal_is_read(n: nat, max: nat)
    requires
        n <= max,
    ensures
        unsigned_of(decimal(n), max) == Some(n),
{
    lemma_decimal_denotes(n);
}

/// More digits never denote less.
pub proof fn lemma_digits_grow(s: Seq<char>, n: int)
    requires
        0 <= n <= s.len(),
    ensures
        digits_value(s.take(n)) <= digits_value(s),
    decreases s.len() - n,
{
    if n < s.len() {
        lemma_digits_grow(s, n + 1);
        assert(s.take(n + 1).drop_last() == s.take(n));
    } else {
        assert(s.take(n) == s);
    }
}

/// Reads the numeral that stands in `text` from `from` up to `to`, where
/// its value is one of a `u32`.
pub fn parse_u32(text: &[char], from: usize, to: usize) -> (r: Option<u32>)
    requires
        from <= to <= text@.len(),
    ensures
        match unsigned_of(text@.subrange(from as int, to as int), u32::MAX as nat) {
            Some(value) => r == Some(value as u32),
            None => r is None,
        },
{
    let ghost s = text@.subrange(from as int, to as int);
    let start = if from < to && text[from] == '+' {
        from + 1
    } else {
        from
    };
    let ghost body = text@.subrange(start as int, to as int);
    proof {
        if from < to && text@[from as int] == '+' {
            assert(s.drop_first() == body);
        }
    }
    if start == to {
        return None;
    }
    let mut value: u64 = 0;
    let mut i: usize = start;
    while i < to
        invariant
            from <= start <= i <= to,
            start < to,
            to <= text@.len(),
            body == text@.subrange(start as int, to as int),
            unsigned_of(text@.subrange(from as int, to as int), u32::MAX as nat) == (if all_digits(
                body,
            ) && digits_value(body) <= u32::MAX {
                Some(digits_value(body))
            } else {
                None
            }),
            all_digits(body.take(i - start)),
            value == digits_value(body.take(i - start)),
            value <= u32::MAX,
        decreases to - i,
    {
        let c = text[i];
        if c < '0' || c > '9' {
            assert(!is_digit(body[i - start]));
            return None;
        }
        let digit: u64 = (c as u32 - '0' as u32) as u64;
        proof {
            assert(body.take(i - start + 1).drop_last() == body.take(i - start));
        }
        value = value * 10 + digit;
        if value > 0xffff_ffff {
            proof {
                lemma_digits_grow(body, i - start + 1);
            }
            return None;
        }
        i += 1;
    }
    proof {
        assert(body.take(to - start) == body);
    }
    Some(value as u32)
}

/// The whole part of the logarithm of `n` to the base two, and zero for
/// zero.
pub open spec fn floor_log2(n: nat) -> nat
    decreases n,
{
    if n <= 1 {
        0
    } else {
        1 + floor_log2(n / 2)
    }
}

/// The logarithm is the exponent of the largest power of two that is not
/// above the number.
pub proof fn law_floor_log2_bounds(n: nat)
    requires
        n >= 1,
    ensures
        vstd::arithmetic::power2::pow2(floor_log2(n)) <= n,
        n < vstd::arithmetic::power2::pow2(floor_log2(n) + 1),
    decreases n,
{
    vstd::arithmetic::power2::lemma2_to64();
    if n > 1 {
        law_floor_log2_bounds(n / 2);
        vstd::arithmetic::power2::lemma_pow2_unfold(floor_log2(n));
        vstd::arithmetic::power2::lemma_pow2_unfold(floor_log2(n) + 1);
    }
}

/// A number below a power of two has a logarithm below the exponent.
pub proof fn lemma_floor_log2_below(n: nat, bits: nat)
    requires
        bits >= 1,
        n < vstd::arithmetic::power2::pow2(bits),
    ensures
        floor_log2(n) < bits,
    decreases n,
{
    if n > 1 {
        vstd::arithmetic::power2::lemma_pow2_unfold(bits);
        if bits == 1 {
            vstd::arithmetic::power2::lemma2_to64();
        } else {
            lemma_floor_log2_below(n / 2, (bits - 1) as nat);
        }
    }
}

/// Computes the whole part of the logarithm of `n` to the base two.
pub fn log2_floor(n: u32) -> (k: u8)
    ensures
        k == floor_log2(n as nat),
        k <= 31,
    decreases n,
{
    proof {
        vstd::arithmetic::power2::lemma2_to64();
        lemma_floor_log2_below(n as nat, 32);
    }
    if n <= 1 {
        0
    } else {
        1 + log2_floor(n / 2)
    }
}

/// Whether `c` is white space: a blank, a tab, one of the characters that
/// end a line, or one of the spaces of other widths.
pub open spec fn is_whitespace(c: char) -> bool {
    let n = c as u32;
    ||| 0x09 <= n <= 0x0d
    ||| n == 0x20
    ||| n == 0x85
    ||| n == 0xa0
    ||| n == 0x1680
    ||| 0x2000 <= n <= 0x200a
    ||| n == 0x2028
    ||| n == 0x2029
    ||| n == 0x202f
    ||| n == 0x205f
    ||| n == 0x3000
}

/// How many characters of white space `s` begins with.
pub open spec fn leading_space(s: Seq<char>) -> nat
    decreases s.len(),
{
    if s.len() > 0 && is_whitespace(s[0]) {
        1 + leading_space(s.drop_first())
    } else {
        0
    }
}

/// How many characters of white space `s` ends with.
pub open spec fn trailing_space(s: Seq<char>) -> nat
    decreases s.len(),
{
    if s.len() > 0 && is_whitespace(s.last()) {
        1 + trailing_space(s.drop_last())
    } else {
        0
    }
}

/// `s` without the white space that it begins and ends with.
pub open spec fn trimmed(s: Seq<char>) -> Seq<char> {
    let from = leading_space(s);
    if from >= s.len() {
        Seq::empty()
    } else {
        s.subrange(from as int, s.len() - trailing_space(s))
    }
}

/// Decides whether `c` is white space.
pub fn check_whitespace(c: char) -> (b: bool)
    ensures
        b == is_whitespace(c),
{
    let n: u32 = c as u32;
    (0x09 <= n && n <= 0x0d) || n == 0x20 || n == 0x85 || n == 0xa0 || n == 0x1680 || (0x2000
        <= n && n <= 0x200a) || n == 0x2028 || n == 0x2029 || n == 0x202f || n == 0x205f || n
        == 0x3000
}

/// A text begins with exactly `k` characters of white space when its
/// first `k` characters are white space and the next is not.
proof fn lemma_leading_space(s: Seq<char>, k: int)
    requires
        0 <= k <= s.len(),
        forall|j: int| 0 <= j < k ==> is_whitespace(#[trigger] s[j]),
        k == s.len() || !is_whitespace(s[k]),
    ensures
        leading_space(s) == k,
    decreases s.len(),
{
    if k > 0 {
        let rest = s.drop_first();
        lemma_leading_space(rest, k - 1);
    }
}

/// A text ends with exactly `k` characters of white space when its last
/// `k` characters are white space and the one before is not.
proof fn lemma_trailing_space(s: Seq<char>, k: int)
    requires
        0 <= k <= s.len(),
        forall|j: int| s.len() - k <= j < s.len() ==> is_whitespace(#[trigger] s[j]),
        k == s.len() || !is_whitespace(s[s.len() - k - 1]),
    ensures
        trailing_space(s) == k,
    decreases s.len(),
{
    if k > 0 {
        let init = s.drop_last();
        lemma_trailing_space(init, k - 1);
    }
}

/// Finds the part of the text from `from` up to `to` that is left when the
/// white space at both ends is taken away: returns where it begins and
/// where it ends.
pub fn trim_span(text: &[char], from: usize, to: usize) -> (span: (usize, usize))
    requires
        from <= to <= text@.len(),
    ensures
        from <= span.0 <= span.1 <= to,
        text@.subrange(span.0 as int, span.1 as int) == trimmed(
            text@.subrange(from as int, to as int),
        ),
{
    let ghost s = text@.subrange(from as int, to as int);
    let mut a: usize = from;
    while a < to && check_whitespace(text[a])
        invariant
            from <= a <= to <= text@.len(),
            forall|j: int| from <= j < a ==> is_whitespace(#[trigger] text@[j]),
        decreases to - a,
    {
        a += 1;
    }
    proof {
        lemma_leading_space(s, a - from);
    }
    if a == to {
        return (a, a);
    }
    let mut b: usize = to;
    while b > a && check_whitespace(text[b - 1])
        invariant
            from <= a <= b <= to <= text@.len(),
            a < to,
            !is_whitespace(text@[a as int]),
            forall|j: int| b <= j < to ==> is_whitespace(#[trigger] text@[j]),
        decreases b - a,
    {
        b -= 1;
    }
    proof {
        lemma_trailing_space(s, to - b);
    }
    (a, b)
}

/// A string of the characters of `text` from `from` up to `to`.
pub fn string_of(text: &[char], from: usize, to: usize) -> (s: String)
    requires
        from <= to <= text@.len(),
    ensures
        s@ == text@.subrange(from as int, to as int),
{
    let mut s = String::new();
    let mut i: usize = from;
    while i < to
        invariant
            from <= i <= to <= text@.len(),
            s@ == text@.subrange(from as int, i as int),
        decreases to - i,
    {
        s.push(text[i]);
        i += 1;
    }
    s
}

} // verus!
