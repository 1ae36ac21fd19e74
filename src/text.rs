//! Character-level helpers: decimal text, prefixes, and the few std string
//! operations the library relies on.

use vstd::prelude::*;

verus! {

/// What `str::trim` leaves of a string: the characters with leading and
/// trailing Unicode white space removed.
pub uninterp spec fn trimmed(s: Seq<char>) -> Seq<char>;

/// Relies on `str::trim`: the result depends on the characters alone, and
/// an empty string stays empty.
#[verifier::external_body]
pub(crate) fn trim_text(s: &str) -> (r: String)
    ensures
        r@ == trimmed(s@),
        s@.len() == 0 ==> r@.len() == 0,
{
    s.trim().to_string()
}

/// Relies on `str::chars`: the characters of the string, in order.
#[verifier::external_body]
pub(crate) fn chars_of(s: &str) -> (r: Vec<char>)
    ensures
        r@ == s@,
{
    s.chars().collect()
}

/// Relies on `String::push`: appends one character.
#[verifier::external_body]
pub(crate) fn push_char(s: &mut String, c: char)
    ensures
        final(s)@ == old(s)@.push(c),
{
    s.push(c)
}

/// Relies on `String::pop`: removes the last character, if any.
#[verifier::external_body]
pub(crate) fn pop_char(s: &mut String)
    ensures
        final(s)@ == if old(s)@.len() > 0 { old(s)@.drop_last() } else { old(s)@ },
{
    s.pop();
}

pub open spec fn digit_char(d: nat) -> char {
    if d == 0 { '0' }
    else if d == 1 { '1' }
    else if d == 2 { '2' }
    else if d == 3 { '3' }
    else if d == 4 { '4' }
    else if d == 5 { '5' }
    else if d == 6 { '6' }
    else if d == 7 { '7' }
    else if d == 8 { '8' }
    else { '9' }
}

/// The decimal text of a number, without sign or leading zeros.
pub open spec fn decimal(n: nat) -> Seq<char>
    decreases n,
{
    if n < 10 {
        seq![digit_char(n)]
    } else {
        decimal(n / 10).push(digit_char(n % 10))
    }
}

fn digit_of(d: u32) -> (c: char)
    requires
        d < 10,
    ensures
        c == digit_char(d as nat),
{
    if d == 0 { '0' }
    else if d == 1 { '1' }
    else if d == 2 { '2' }
    else if d == 3 { '3' }
    else if d == 4 { '4' }
    else if d == 5 { '5' }
    else if d == 6 { '6' }
    else if d == 7 { '7' }
    else if d == 8 { '8' }
    else { '9' }
}

/// Appends the decimal text of `n` to `s`.
pub fn push_decimal(s: &mut String, n: u32)
    ensures
        final(s)@ == old(s)@ + decimal(n as nat),
    decreases n,
{
    if n >= 10 {
        push_decimal(s, n / 10);
    }
    push_char(s, digit_of(n % 10));
    proof {
        if n >= 10 {
            assert(decimal(n as nat) == decimal((n / 10) as nat).push(digit_char((n % 10) as nat)));
        }
    }
    assert(final(s)@ =~= old(s)@ + decimal(n as nat));
}

/// The decimal text of `n`, as `format!("{}", n)` writes it.
pub fn decimal_string(n: u32) -> (r: String)
    ensures
        r@ == decimal(n as nat),
{
    let mut s = String::new();
    push_decimal(&mut s, n);
    assert(s@ =~= decimal(n as nat));
    s
}

pub open spec fn is_digit(c: char) -> bool {
    '0' <= c && c <= '9'
}

pub open spec fn all_digits(s: Seq<char>) -> bool {
    forall|i: int| 0 <= i < s.len() ==> is_digit(#[trigger] s[i])
}

/// The value of a string of decimal digits.
pub open spec fn digits_value(s: Seq<char>) -> nat
    decreases s.len(),
{
    if s.len() == 0 {
        0
    } else {
        digits_value(s.drop_last()) * 10 + ((s.last() as u32 - '0' as u32) as nat)
    }
}

/// The digits of an unsigned number's text: an optional leading `+` removed.
pub open spec fn unsigned_body(s: Seq<char>) -> Seq<char> {
    if s.len() > 0 && s[0] == '+' { s.drop_first() } else { s }
}

/// The number that `s` spells when read as an unsigned integer no larger than
/// `max`, and 0 where it spells none.
pub open spec fn number_or_zero(s: Seq<char>, max: nat) -> nat {
    let b = unsigned_body(s);
    if b.len() > 0 && all_digits(b) && digits_value(b) <= max {
        digits_value(b)
    } else {
        0
    }
}

proof fn lemma_digits_value_grows(s: Seq<char>, k: int)
    requires
        0 <= k <= s.len(),
        all_digits(s),
    ensures
        digits_value(s.subrange(0, k)) <= digits_value(s),
    decreases s.len() - k,
{
    if k < s.len() {
        lemma_digits_value_grows(s, k + 1);
        let t = s.subrange(0, k + 1);
        assert(t.drop_last() =~= s.subrange(0, k));
        assert(is_digit(s[k]));
    } else {
        assert(s.subrange(0, k) =~= s);
    }
}

/// Reads `cs[from..to]` as an unsigned number no larger than `max`; 0 where
/// the characters spell no such number.
pub fn parse_number_or_zero(cs: &Vec<char>, from: usize, to: usize, max: u64) -> (r: u64)
    requires
        from <= to <= cs@.len(),
    ensures
        r as nat == number_or_zero(cs@.subrange(from as int, to as int), max as nat),
{
    let ghost s = cs@.subrange(from as int, to as int);
    let mut start = from;
    if from < to && cs[from] == '+' {
        start = from + 1;
    }
    let ghost b = cs@.subrange(start as int, to as int);
    assert(b =~= unsigned_body(s));
    if start == to {
        return 0;
    }
    let mut acc: u64 = 0;
    let mut i = start;
    while i < to
        invariant
            start <= i <= to <= cs@.len(),
            b == cs@.subrange(start as int, to as int),
            b == unsigned_body(cs@.subrange(from as int, to as int)),
            all_digits(cs@.subrange(start as int, i as int)),
            acc as nat == digits_value(cs@.subrange(start as int, i as int)),
            acc <= max,
        decreases to - i,
    {
        let c = cs[i];
        if !('0' <= c && c <= '9') {
            assert(b[i - start] == c);
            assert(!is_digit(b[i - start]));
            return 0;
        }
        let d = (c as u32 - '0' as u32) as u64;
        let ghost p = cs@.subrange(start as int, i as int + 1);
        assert(p.drop_last() =~= cs@.subrange(start as int, i as int));
        assert(all_digits(p));
        if d > max || acc > (max - d) / 10 {
            proof {
                assert(digits_value(p) > max) by (nonlinear_arith)
                    requires
                        digits_value(p) == acc * 10 + d,
                        d > max || acc > (max - d) / 10,
                ;
                if all_digits(b) {
                    assert(p =~= b.subrange(0, i - start + 1));
                    lemma_digits_value_grows(b, i - start + 1);
                }
            }
            return 0;
        }
        acc = acc * 10 + d;
        i = i + 1;
    }
    assert(cs@.subrange(start as int, i as int) =~= b);
    acc
}

pub open spec fn starts_with(s: Seq<char>, p: Seq<char>) -> bool {
    p.len() <= s.len() && s.subrange(0, p.len() as int) == p
}

/// A path with the home directory written as `~`: where `home` is given and
/// the path starts with it, `~` followed by the rest.
pub open spec fn short_path(path: Seq<char>, home: Option<Seq<char>>) -> Seq<char> {
    match home {
        Some(h) => if starts_with(path, h) {
            seq!['~'] + path.subrange(h.len() as int, path.len() as int)
        } else {
            path
        },
        None => path,
    }
}

/// Shortens the home directory to `~` in a path.
pub fn shorten_path(path: &str, home: Option<&str>) -> (r: String)
    ensures
        r@ == short_path(path@, match home { Some(h) => Some(h@), None => None }),
{
    match home {
        Some(h) => {
            let pl = path.unicode_len();
            let hl = h.unicode_len();
            if hl <= pl {
                let head = path.substring_char(0, hl);
                let hs = String::from_str(h);
                let heads = String::from_str(head);
                if heads == hs {
                    let mut r = String::from_str("~");
                    proof { reveal_strlit("~"); }
                    r.append(path.substring_char(hl, pl));
                    assert(r@ =~= seq!['~'] + path@.subrange(h@.len() as int, path@.len() as int));
                    return r;
                }
            }
            String::from_str(path)
        },
        None => String::from_str(path),
    }
}

} // verus!
