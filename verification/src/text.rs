//! Characters, digits and numbers: what the wire formats are made of.
//!
//! Every rule is stated over `Seq<char>`; the executable functions work on a
//! `Vec<char>` and a range of it, so that a field of a record can be read
//! where it lies.

use vstd::prelude::*;

verus! {

/// `String::push` appends one character.
pub assume_specification[ std::string::String::push ](s: &mut std::string::String, ch: char)
    ensures
        final(s)@ == old(s)@.push(ch),
;

/// What `c` is worth as a digit: `0`-`9`, then `a`-`z` or `A`-`Z` for ten to
/// thirty-five.
pub open spec fn digit_value(c: char) -> Option<int> {
    if '0' <= c && c <= '9' {
        Some(c as int - '0' as int)
    } else if 'a' <= c && c <= 'z' {
        Some(c as int - 'a' as int + 10)
    } else if 'A' <= c && c <= 'Z' {
        Some(c as int - 'A' as int + 10)
    } else {
        None
    }
}

/// `c` is a digit of base `radix`.
pub open spec fn is_digit(c: char, radix: int) -> bool {
    digit_value(c) matches Some(d) && d < radix
}

/// `s` holds digits of base `radix` and nothing else.
pub open spec fn all_digits(s: Seq<char>, radix: int) -> bool {
    forall|i: int| 0 <= i < s.len() ==> is_digit(#[trigger] s[i], radix)
}

/// The number that the digits `s` write in base `radix`, most significant
/// digit first.
pub open spec fn digits_value(s: Seq<char>, radix: int) -> int
    decreases s.len(),
{
    if s.len() == 0 {
        0
    } else {
        digits_value(s.drop_last(), radix) * radix + digit_value(s.last()).unwrap()
    }
}

/// A number without a sign: at least one digit, nothing but digits, and a
/// value of at most `max`.
pub open spec fn parse_digits(s: Seq<char>, radix: int, max: int) -> Option<int> {
    if s.len() > 0 && all_digits(s, radix) && digits_value(s, radix) <= max {
        Some(digits_value(s, radix))
    } else {
        None
    }
}

/// A number of an unsigned type: digits, with `+` allowed in front of them.
pub open spec fn parse_unsigned(s: Seq<char>, radix: int, max: int) -> Option<int> {
    if s.len() > 0 && s[0] == '+' {
        parse_digits(s.skip(1), radix, max)
    } else {
        parse_digits(s, radix, max)
    }
}

/// A number of a signed type: digits, with `+` or `-` allowed in front of
/// them, and a value from `min` to `max`.
pub open spec fn parse_signed(s: Seq<char>, radix: int, min: int, max: int) -> Option<int> {
    if s.len() > 0 && s[0] == '-' {
        match parse_digits(s.skip(1), radix, -min) {
            Some(v) => Some(-v),
            None => None,
        }
    } else {
        parse_unsigned(s, radix, max)
    }
}

/// A window address as the event channel writes it: hexadecimal, 64 bits.
pub open spec fn hex_u64(s: Seq<char>) -> Option<int> {
    parse_unsigned(s, 16, u64::MAX as int)
}

/// A window address as a group listing writes it: decimal, 64 bits.
pub open spec fn decimal_u64(s: Seq<char>) -> Option<int> {
    parse_unsigned(s, 10, u64::MAX as int)
}

/// A workspace id as the event channel writes it: hexadecimal, 32 bits, signed.
pub open spec fn hex_i32(s: Seq<char>) -> Option<int> {
    parse_signed(s, 16, i32::MIN as int, i32::MAX as int)
}

/// A workspace id as a command writes it: decimal, 32 bits, signed.
pub open spec fn decimal_i32(s: Seq<char>) -> Option<int> {
    parse_signed(s, 10, i32::MIN as int, i32::MAX as int)
}

/// `true` and `false`, spelled exactly so.
pub open spec fn parse_bool(s: Seq<char>) -> Option<bool> {
    if s == seq!['t', 'r', 'u', 'e'] {
        Some(true)
    } else if s == seq!['f', 'a', 'l', 's', 'e'] {
        Some(false)
    } else {
        None
    }
}

/// A number that was read, as a number of mathematics.
pub open spec fn as_int<T: Integer>(r: Option<T>) -> Option<int> {
    match r {
        Some(v) => Some(v as int),
        None => None,
    }
}

/// `s` begins with `0x`.
pub open spec fn has_hex_prefix(s: Seq<char>) -> bool {
    s.len() >= 2 && s[0] == '0' && s[1] == 'x'
}

/// `s` without any `0x` in front of it, however often it is repeated.
pub open spec fn strip_hex_prefix(s: Seq<char>) -> Seq<char>
    decreases s.len(),
{
    if has_hex_prefix(s) {
        strip_hex_prefix(s.skip(2))
    } else {
        s
    }
}

/// A window address as a JSON reply writes it: hexadecimal with `0x` in front.
pub open spec fn prefixed_hex_u64(s: Seq<char>) -> Option<int> {
    hex_u64(strip_hex_prefix(s))
}

/// The character that writes the digit `d`, for `d` below ten.
pub open spec fn digit_char(d: int) -> char {
    (d + '0' as int) as char
}

/// `n` in decimal, without a sign.
pub open spec fn decimal_digits(n: nat) -> Seq<char>
    decreases n,
{
    if n < 10 {
        seq![digit_char(n as int)]
    } else {
        decimal_digits(n / 10).push(digit_char((n % 10) as int))
    }
}

/// `n` in decimal, with `-` in front of a negative number.
pub open spec fn decimal(n: int) -> Seq<char> {
    if n < 0 {
        seq!['-'] + decimal_digits((-n) as nat)
    } else {
        decimal_digits(n as nat)
    }
}

/// `n` in decimal, with its sign in front: `+` for zero and above.
pub open spec fn signed_decimal(n: int) -> Seq<char> {
    if n < 0 {
        seq!['-'] + decimal_digits((-n) as nat)
    } else {
        seq!['+'] + decimal_digits(n as nat)
    }
}

/// Digits never write a negative number.
pub proof fn lemma_digits_value_nonnegative(s: Seq<char>, radix: int)
    requires
        radix >= 1,
        all_digits(s, radix),
    ensures
        digits_value(s, radix) >= 0,
    decreases s.len(),
{
    if s.len() > 0 {
        lemma_digits_value_nonnegative(s.drop_last(), radix);
        let v = digits_value(s.drop_last(), radix);
        assert(v * radix >= 0) by (nonlinear_arith)
            requires
                v >= 0,
                radix >= 1,
        ;
    }
}

/// Digits in front write no more than the whole does.
pub proof fn lemma_digits_value_prefix(s: Seq<char>, k: int, radix: int)
    requires
        radix >= 1,
        all_digits(s, radix),
        0 <= k <= s.len(),
    ensures
        digits_value(s.take(k), radix) <= digits_value(s, radix),
    decreases s.len(),
{
    if k == s.len() {
        assert(s.take(k) =~= s);
    } else {
        let front = s.drop_last();
        assert(front.take(k) =~= s.take(k));
        lemma_digits_value_prefix(front, k, radix);
        lemma_digits_value_nonnegative(front, radix);
        let v = digits_value(front, radix);
        assert(v * radix >= v) by (nonlinear_arith)
            requires
                v >= 0,
                radix >= 1,
        ;
    }
}

/// What the decimal digits of `n` are: at least one, all of them decimal
/// digits, and worth `n`.
pub proof fn lemma_decimal_digits(n: nat)
    ensures
        decimal_digits(n).len() >= 1,
        all_digits(decimal_digits(n), 10),
        digits_value(decimal_digits(n), 10) == n,
    decreases n,
{
    let s = decimal_digits(n);
    if n < 10 {
        assert(digits_value(s.drop_last(), 10) == 0);
    } else {
        lemma_decimal_digits(n / 10);
        assert(s.drop_last() =~= decimal_digits(n / 10));
    }
}

/// Writing a number in decimal and reading it back gives the number.
pub proof fn lemma_decimal_round_trip(n: int, min: int, max: int)
    requires
        min <= n <= max,
    ensures
        parse_signed(decimal(n), 10, min, max) == Some(n),
{
    if n < 0 {
        let digits = decimal_digits((-n) as nat);
        lemma_decimal_digits((-n) as nat);
        assert(decimal(n).skip(1) =~= digits);
    } else {
        lemma_decimal_digits(n as nat);
    }
}

/// An address with `0x` in front is none where addresses are written
/// without it: the prefix is taken off in JSON replies only.
pub proof fn lemma_hex_prefix_is_rejected(s: Seq<char>)
    requires
        has_hex_prefix(s),
    ensures
        hex_u64(s) is None,
        prefixed_hex_u64(s) == prefixed_hex_u64(s.skip(2)),
{
}

/// A field that holds a letter is no address in decimal, though it may be
/// one in hexadecimal: where a record lists addresses, they are decimal.
pub proof fn lemma_letters_are_not_decimal(s: Seq<char>, i: int)
    requires
        0 <= i < s.len(),
        digit_value(s[i]) matches Some(d) && d >= 10,
    ensures
        decimal_u64(s) is None,
{
    if s[0] == '+' {
        assert(s.skip(1)[i - 1] == s[i]);
    }
    assert(!is_digit(s[i], 10));
}

/// The characters of `s`, in order.
pub fn to_chars(s: &str) -> (v: Vec<char>)
    ensures
        v@ == s@,
{
    broadcast use vstd::string::group_string_axioms;

    let mut v: Vec<char> = Vec::new();
    for c in it: s.chars()
        invariant
            it.seq() == s@,
            v@ == it.seq().take(it.index()),
    {
        v.push(c);
    }
    v
}

/// The string made of `chars[from..to]`.
pub(crate) fn to_string(chars: &Vec<char>, from: usize, to: usize) -> (s: String)
    requires
        from <= to <= chars.len(),
    ensures
        s@ == chars@.subrange(from as int, to as int),
{
    let mut s = String::new();
    let mut i: usize = from;
    while i < to
        invariant
            from <= i <= to <= chars.len(),
            s@ == chars@.subrange(from as int, i as int),
        decreases to - i,
    {
        s.push(chars[i]);
        i = i + 1;
    }
    s
}

/// The digit that `c` writes, if it writes one.
pub(crate) fn digit_of(c: char) -> (r: Option<u32>)
    ensures
        match r {
            Some(d) => digit_value(c) == Some(d as int),
            None => digit_value(c) is None,
        },
{
    if '0' <= c && c <= '9' {
        Some(c as u32 - '0' as u32)
    } else if 'a' <= c && c <= 'z' {
        Some(c as u32 - 'a' as u32 + 10)
    } else if 'A' <= c && c <= 'Z' {
        Some(c as u32 - 'A' as u32 + 10)
    } else {
        None
    }
}

/// Reads `chars[from..to]` as a number without a sign, in base `radix`.
pub(crate) fn read_digits(chars: &Vec<char>, from: usize, to: usize, radix: u32) -> (r: Option<u64>)
    requires
        from <= to <= chars.len(),
        2 <= radix <= 36,
    ensures
        as_int(r) == parse_digits(
            chars@.subrange(from as int, to as int),
            radix as int,
            u64::MAX as int,
        ),
{
    let ghost body = chars@.subrange(from as int, to as int);
    if from == to {
        return None;
    }
    let mut acc: u64 = 0;
    let mut i: usize = from;
    while i < to
        invariant
            from <= i <= to <= chars.len(),
            2 <= radix <= 36,
            body == chars@.subrange(from as int, to as int),
            all_digits(body.take(i - from), radix as int),
            acc == digits_value(body.take(i - from), radix as int),
        decreases to - i,
    {
        let ghost k = i - from;
        let ghost seen = body.take(k + 1);
        assert(seen.drop_last() =~= body.take(k));
        let d = match digit_of(chars[i]) {
            Some(d) => d,
            None => {
                assert(!is_digit(body[k], radix as int));
                return None;
            },
        };
        if d >= radix {
            return None;
        }
        assert(all_digits(seen, radix as int));
        let next = match acc.checked_mul(radix as u64) {
            Some(m) => m.checked_add(d as u64),
            None => None,
        };
        match next {
            Some(n) => {
                acc = n;
            },
            None => {
                proof {
                    if all_digits(body, radix as int) {
                        lemma_digits_value_prefix(body, k + 1, radix as int);
                    }
                }
                return None;
            },
        }
        i = i + 1;
    }
    assert(body.take(i - from) =~= body);
    Some(acc)
}

/// Reads `chars[from..to]` as a number of an unsigned 64-bit type.
pub(crate) fn read_u64(chars: &Vec<char>, from: usize, to: usize, radix: u32) -> (r: Option<u64>)
    requires
        from <= to <= chars.len(),
        2 <= radix <= 36,
    ensures
        as_int(r) == parse_unsigned(
            chars@.subrange(from as int, to as int),
            radix as int,
            u64::MAX as int,
        ),
{
    let ghost s = chars@.subrange(from as int, to as int);
    if from < to && chars[from] == '+' {
        assert(s.skip(1) =~= chars@.subrange(from + 1, to as int));
        read_digits(chars, from + 1, to, radix)
    } else {
        read_digits(chars, from, to, radix)
    }
}

/// Reads `chars[from..to]` as a number of a signed 32-bit type.
pub(crate) fn read_i32(chars: &Vec<char>, from: usize, to: usize, radix: u32) -> (r: Option<i32>)
    requires
        from <= to <= chars.len(),
        2 <= radix <= 36,
    ensures
        as_int(r) == parse_signed(
            chars@.subrange(from as int, to as int),
            radix as int,
            i32::MIN as int,
            i32::MAX as int,
        ),
{
    let ghost s = chars@.subrange(from as int, to as int);
    if from < to && chars[from] == '-' {
        assert(s.skip(1) =~= chars@.subrange(from + 1, to as int));
        match read_digits(chars, from + 1, to, radix) {
            Some(m) => {
                if m <= 0x7fff_ffff {
                    Some(-(m as i32))
                } else if m == 0x8000_0000 {
                    Some(i32::MIN)
                } else {
                    None
                }
            },
            None => {
                proof {
                    let body = s.skip(1);
                    if body.len() > 0 && all_digits(body, radix as int) {
                        lemma_digits_value_nonnegative(body, radix as int);
                    }
                }
                None
            },
        }
    } else {
        match read_u64(chars, from, to, radix) {
            Some(m) => {
                if m <= 0x7fff_ffff {
                    Some(m as i32)
                } else {
                    None
                }
            },
            None => {
                proof {
                    let body = if s.len() > 0 && s[0] == '+' {
                        s.skip(1)
                    } else {
                        s
                    };
                    if body.len() > 0 && all_digits(body, radix as int) {
                        lemma_digits_value_nonnegative(body, radix as int);
                    }
                }
                None
            },
        }
    }
}

/// Reads `chars[from..to]` as `true` or `false`.
pub(crate) fn read_bool(chars: &Vec<char>, from: usize, to: usize) -> (r: Option<bool>)
    requires
        from <= to <= chars.len(),
    ensures
        r == parse_bool(chars@.subrange(from as int, to as int)),
{
    let ghost s = chars@.subrange(from as int, to as int);
    let ghost t = seq!['t', 'r', 'u', 'e'];
    let ghost f = seq!['f', 'a', 'l', 's', 'e'];
    assert(t.len() == 4 && t[0] == 't' && t[1] == 'r' && t[2] == 'u' && t[3] == 'e');
    assert(f.len() == 5 && f[0] == 'f' && f[1] == 'a' && f[2] == 'l' && f[3] == 's' && f[4] == 'e');
    let n = to - from;
    if n == 4 && chars[from] == 't' && chars[from + 1] == 'r' && chars[from + 2] == 'u'
        && chars[from + 3] == 'e' {
        assert(s =~= t);
        Some(true)
    } else if n == 5 && chars[from] == 'f' && chars[from + 1] == 'a' && chars[from + 2] == 'l'
        && chars[from + 3] == 's' && chars[from + 4] == 'e' {
        assert(s =~= f);
        Some(false)
    } else {
        assert(s != t) by {
            if s == t {
                assert(s[0] == t[0] && s[1] == t[1] && s[2] == t[2] && s[3] == t[3]);
            }
        }
        assert(s != f) by {
            if s == f {
                assert(s[0] == f[0] && s[1] == f[1] && s[2] == f[2] && s[3] == f[3] && s[4]
                    == f[4]);
            }
        }
        None
    }
}

/// Reads `chars[from..to]` as a hexadecimal address with `0x` in front.
pub(crate) fn read_prefixed_hex_u64(chars: &Vec<char>, from: usize, to: usize) -> (r: Option<u64>)
    requires
        from <= to <= chars.len(),
    ensures
        as_int(r) == prefixed_hex_u64(chars@.subrange(from as int, to as int)),
{
    let ghost s = chars@.subrange(from as int, to as int);
    let mut start: usize = from;
    while to - start >= 2 && chars[start] == '0' && chars[start + 1] == 'x'
        invariant
            from <= start <= to <= chars.len(),
            strip_hex_prefix(s) == strip_hex_prefix(chars@.subrange(start as int, to as int)),
        decreases to - start,
    {
        assert(chars@.subrange(start as int, to as int).skip(2) =~= chars@.subrange(
            start + 2,
            to as int,
        ));
        start = start + 2;
    }
    read_u64(chars, start, to, 16)
}

/// Appends the decimal digits of `n` to `out`.
pub(crate) fn push_decimal_digits(out: &mut String, n: u64)
    ensures
        final(out)@ == old(out)@ + decimal_digits(n as nat),
    decreases n,
{
    if n >= 10 {
        push_decimal_digits(out, n / 10);
    }
    let d = (n % 10) as u8;
    out.push((d + 48) as char);
}

/// Appends `n` in decimal to `out`, with `-` in front of a negative number.
pub(crate) fn push_decimal(out: &mut String, n: i64)
    requires
        n > i64::MIN,
    ensures
        final(out)@ == old(out)@ + decimal(n as int),
{
    if n < 0 {
        out.push('-');
        push_decimal_digits(out, (-n) as u64);
    } else {
        push_decimal_digits(out, n as u64);
    }
}

/// Appends `n` in decimal to `out`, with its sign in front.
pub(crate) fn push_signed_decimal(out: &mut String, n: i64)
    requires
        n > i64::MIN,
    ensures
        final(out)@ == old(out)@ + signed_decimal(n as int),
{
    if n < 0 {
        out.push('-');
        push_decimal_digits(out, (-n) as u64);
    } else {
        out.push('+');
        push_decimal_digits(out, n as u64);
    }
}

/// Reads a window address as the event channel writes it: hexadecimal
/// digits, with `+` allowed in front of them and nothing else.
pub fn parse_hex_u64(text: &str) -> (r: Option<u64>)
    ensures
        as_int(r) == hex_u64(text@),
{
    let chars = to_chars(text);
    assert(chars@.subrange(0, chars.len() as int) =~= chars@);
    read_u64(&chars, 0, chars.len(), 16)
}

/// Reads a window address as a group listing writes it: decimal digits,
/// with `+` allowed in front of them.
pub fn parse_decimal_u64(text: &str) -> (r: Option<u64>)
    ensures
        as_int(r) == decimal_u64(text@),
{
    let chars = to_chars(text);
    assert(chars@.subrange(0, chars.len() as int) =~= chars@);
    read_u64(&chars, 0, chars.len(), 10)
}

/// Reads a workspace id as the event channel writes it: hexadecimal digits,
/// with `+` or `-` allowed in front of them.
pub fn parse_hex_i32(text: &str) -> (r: Option<i32>)
    ensures
        as_int(r) == hex_i32(text@),
{
    let chars = to_chars(text);
    assert(chars@.subrange(0, chars.len() as int) =~= chars@);
    read_i32(&chars, 0, chars.len(), 16)
}

/// Reads a workspace id as a command writes it: decimal digits, with `+` or
/// `-` allowed in front of them.
pub fn parse_decimal_i32(text: &str) -> (r: Option<i32>)
    ensures
        as_int(r) == decimal_i32(text@),
{
    let chars = to_chars(text);
    assert(chars@.subrange(0, chars.len() as int) =~= chars@);
    read_i32(&chars, 0, chars.len(), 10)
}

/// Reads `text` as `true` or `false`.
pub fn parse_boolean(text: &str) -> (r: Option<bool>)
    ensures
        r == parse_bool(text@),
{
    let chars = to_chars(text);
    assert(chars@.subrange(0, chars.len() as int) =~= chars@);
    read_bool(&chars, 0, chars.len())
}

} // verus!
