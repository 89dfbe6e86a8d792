//! Small text helpers: decimal rendering of counters, character pushes, and quoted
//! strings as Rust's `Debug` writes them.
use vstd::prelude::*;
use vstd::string::StrSliceExecFns;

verus! {

/// The ASCII digit for a value below ten.
pub open spec fn digit_char(d: nat) -> char {
    if d == 0 { '0' }
    else if d == 1 { '1' }
    else if d == 2 { '2' }
    else if d == 3 { '3' }
    else if d == 4 { '4' }
    else if d == 5 { '5' }
    else if d == 6 { '6' }
    else if d == 7 { '7' }
    else if d == 8 { '8' }
    else { '9' }
}

/// Decimal rendering of a natural number, most significant digit first.
pub open spec fn decimal(n: nat) -> Seq<char>
    decreases n,
{
    if n < 10 {
        seq![digit_char(n)]
    } else {
        decimal(n / 10).push(digit_char(n % 10))
    }
}

/// Calls `String::push`: the string gains the character at its end.
#[verifier::external_body]
pub(crate) fn push_char(s: &mut String, c: char)
    ensures
        final(s)@ == old(s)@.push(c),
{
    s.push(c);
}

fn digit(d: u64) -> (c: char)
    requires
        d < 10,
    ensures
        c == digit_char(d as nat),
{
    if d == 0 { '0' }
    else if d == 1 { '1' }
    else if d == 2 { '2' }
    else if d == 3 { '3' }
    else if d == 4 { '4' }
    else if d == 5 { '5' }
    else if d == 6 { '6' }
    else if d == 7 { '7' }
    else if d == 8 { '8' }
    else { '9' }
}

/// Appends the decimal rendering of `n` to `s`.
pub fn push_decimal(s: &mut String, n: u64)
    ensures
        final(s)@ == old(s)@ + decimal(n as nat),
    decreases n,
{
    if n < 10 {
        push_char(s, digit(n));
        assert(decimal(n as nat) == seq![digit_char(n as nat)]);
        assert(old(s)@.push(digit_char(n as nat)) =~= old(s)@ + decimal(n as nat));
    } else {
        push_decimal(s, n / 10);
        push_char(s, digit(n % 10));
        assert(old(s)@ + decimal((n / 10) as nat) + seq![digit_char((n % 10) as nat)]
            =~= old(s)@ + decimal(n as nat));
    }
}

/// Copies a string slice into an owned string.
pub fn owned(s: &str) -> (r: String)
    ensures
        r@ == s@,
{
    s.to_string()
}

/// A signed integer in decimal, with a leading minus sign when negative.
pub open spec fn signed_decimal(n: int) -> Seq<char> {
    if n < 0 { seq!['-'] + decimal((-n) as nat) } else { decimal(n as nat) }
}

/// Appends a signed 64-bit integer in decimal.
pub fn push_signed_decimal(s: &mut String, n: i64)
    ensures
        final(s)@ == old(s)@ + signed_decimal(n as int),
{
    if n < 0 {
        push_char(s, '-');
        let magnitude: u64 = (0i128 - n as i128) as u64;
        assert(magnitude as int == -(n as int));
        push_decimal(s, magnitude);
        assert(old(s)@.push('-') + decimal(magnitude as nat) =~= old(s)@ + signed_decimal(n as int));
    } else {
        push_decimal(s, n as u64);
    }
}

proof fn lemma_decimal_nonempty(n: nat)
    ensures
        decimal(n).len() >= 1,
        n >= 10 ==> decimal(n).len() >= 2,
    decreases n,
{
    if n >= 10 {
        lemma_decimal_nonempty(n / 10);
    }
}

/// Different numbers have different decimal renderings.
pub proof fn lemma_decimal_injective(n: nat, m: nat)
    requires
        decimal(n) == decimal(m),
    ensures
        n == m,
    decreases n,
{
    lemma_decimal_nonempty(n);
    lemma_decimal_nonempty(m);
    if n < 10 && m < 10 {
        assert(decimal(n)[0] == digit_char(n));
        assert(decimal(m)[0] == digit_char(m));
    } else if n >= 10 && m >= 10 {
        assert(decimal(n).last() == digit_char(n % 10));
        assert(decimal(m).last() == digit_char(m % 10));
        assert(decimal(n).drop_last() =~= decimal(n / 10));
        assert(decimal(m).drop_last() =~= decimal(m / 10));
        lemma_decimal_injective(n / 10, m / 10);
    }
}

/// A lowercase hexadecimal digit for a value below sixteen.
pub open spec fn hex_digit(d: nat) -> char {
    if d < 10 { digit_char(d) }
    else if d == 10 { 'a' }
    else if d == 11 { 'b' }
    else if d == 12 { 'c' }
    else if d == 13 { 'd' }
    else if d == 14 { 'e' }
    else { 'f' }
}

/// A control character, which `Debug` writes as a `\u{..}` escape.
pub open spec fn is_control(c: char) -> bool {
    (c as u32) < 0x20 || (c as u32) == 0x7f
}

/// How `Debug` writes one character of a string: quotes, backslashes and the common
/// control characters get a backslash escape, other control characters a `\u{..}` escape.
pub open spec fn debug_char(c: char) -> Seq<char> {
    if c == '\0' {
        seq!['\\', '0']
    } else if c == '\t' {
        seq!['\\', 't']
    } else if c == '\r' {
        seq!['\\', 'r']
    } else if c == '\n' {
        seq!['\\', 'n']
    } else if c == '\\' {
        seq!['\\', '\\']
    } else if c == '"' {
        seq!['\\', '"']
    } else if is_control(c) {
        let v = c as u32 as nat;
        if v < 16 {
            seq!['\\', 'u', '{', hex_digit(v), '}']
        } else {
            seq!['\\', 'u', '{', hex_digit(v / 16), hex_digit(v % 16), '}']
        }
    } else {
        seq![c]
    }
}

/// The characters of a string, each as `Debug` writes it.
pub open spec fn debug_chars(s: Seq<char>) -> Seq<char>
    decreases s.len(),
{
    if s.len() == 0 {
        Seq::empty()
    } else {
        debug_chars(s.drop_last()) + debug_char(s.last())
    }
}

/// A string as `Debug` writes it: quoted, with its characters escaped.
pub open spec fn debug_string(s: Seq<char>) -> Seq<char> {
    seq!['"'] + debug_chars(s) + seq!['"']
}

fn hex_digit_of(d: u32) -> (c: char)
    requires
        d < 16,
    ensures
        c == hex_digit(d as nat),
{
    if d < 10 { digit(d as u64) }
    else if d == 10 { 'a' }
    else if d == 11 { 'b' }
    else if d == 12 { 'c' }
    else if d == 13 { 'd' }
    else if d == 14 { 'e' }
    else { 'f' }
}

/// Appends one character as `Debug` writes it inside a string.
pub fn push_debug_char(s: &mut String, c: char)
    ensures
        final(s)@ == old(s)@ + debug_char(c),
{
    let pre = if c == '\0' {
        '0'
    } else if c == '\t' {
        't'
    } else if c == '\r' {
        'r'
    } else if c == '\n' {
        'n'
    } else if c == '\\' {
        '\\'
    } else if c == '"' {
        '"'
    } else {
        ' '
    };
    if pre != ' ' {
        push_char(s, '\\');
        push_char(s, pre);
        assert(final(s)@ =~= old(s)@ + debug_char(c)) by {
            assert(old(s)@.push('\\').push(pre) =~= old(s)@ + seq!['\\', pre]);
        }
    } else {
        let v = c as u32;
        if v < 0x20 || v == 0x7f {
            push_char(s, '\\');
            push_char(s, 'u');
            push_char(s, '{');
            if v < 16 {
                push_char(s, hex_digit_of(v));
            } else {
                push_char(s, hex_digit_of(v / 16));
                push_char(s, hex_digit_of(v % 16));
            }
            push_char(s, '}');
            assert(final(s)@ =~= old(s)@ + debug_char(c));
        } else {
            push_char(s, c);
            assert(final(s)@ =~= old(s)@ + debug_char(c));
        }
    }
}

/// Appends a string as `Debug` writes it, quoted and escaped.
pub fn push_debug_string(s: &mut String, t: &str)
    ensures
        final(s)@ == old(s)@ + debug_string(t@),
{
    let ghost start = s@;
    push_char(s, '"');
    let n = t.unicode_len();
    let mut i: usize = 0;
    while i < n
        invariant
            n == t@.len(),
            i <= n,
            s@ == start + seq!['"'] + debug_chars(t@.take(i as int)),
        decreases n - i,
    {
        let c = t.get_char(i);
        let ghost prev = s@;
        push_debug_char(s, c);
        proof {
            let u = t@.take(i + 1);
            assert(u.drop_last() =~= t@.take(i as int));
            assert(u.last() == c);
        }
        i += 1;
    }
    assert(t@.take(n as int) =~= t@);
    push_char(s, '"');
    assert(s@ =~= start + debug_string(t@));
}

} // verus!
