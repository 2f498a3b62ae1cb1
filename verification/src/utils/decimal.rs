//! Decimal text for integers, read and written as Rust's `str::parse`
//! and `to_string` read and write it.
use vstd::prelude::*;

verus! {

pub open spec fn is_digit(c: char) -> bool {
    '0' <= c && c <= '9'
}

pub open spec fn digit_value(c: char) -> nat {
    (c as int - '0' as int) as nat
}

pub open spec fn digit_char(d: nat) -> char {
    ('0' as int + d) as char
}

pub open spec fn all_digits(s: Seq<char>) -> bool {
    forall|i: int| 0 <= i < s.len() ==> is_digit(#[trigger] s[i])
}

/// The number that a string of digits spells in base ten.
pub open spec fn digits_value(s: Seq<char>) -> nat
    decreases s.len(),
{
    if s.len() == 0 {
        0
    } else {
        digits_value(s.drop_last()) * 10 + digit_value(s.last())
    }
}

/// The shortest base-ten spelling of `n`.
pub open spec fn decimal(n: nat) -> Seq<char>
    decreases n,
{
    if n < 10 {
        seq![digit_char(n)]
    } else {
        decimal(n / 10).push(digit_char(n % 10))
    }
}

/// The base-ten spelling of `n`, with a leading `-` when it is negative.
pub open spec fn signed_decimal(n: int) -> Seq<char> {
    if n < 0 {
        seq!['-'] + decimal((-n) as nat)
    } else {
        decimal(n as nat)
    }
}

/// What parsing `s` as an unsigned integer of largest value `max`
/// gives: an optional `+`, then one or more digits whose value is at
/// most `max`.
pub open spec fn parse_unsigned(s: Seq<char>, max: nat) -> Option<nat> {
    let body = if s.len() > 0 && s[0] == '+' {
        s.drop_first()
    } else {
        s
    };
    if body.len() > 0 && all_digits(body) && digits_value(body) <= max {
        Some(digits_value(body))
    } else {
        None
    }
}

/// What parsing `s` as an `i64` in base ten gives: an optional sign,
/// then one or more digits whose signed value fits in an `i64`.
pub open spec fn parse_i64(s: Seq<char>) -> Option<int> {
    if s.len() > 0 && s[0] == '-' {
        let body = s.drop_first();
        if body.len() > 0 && all_digits(body) && digits_value(body) <= 0x8000_0000_0000_0000 {
            Some(-(digits_value(body) as int))
        } else {
            None
        }
    } else {
        match parse_unsigned(s, i64::MAX as nat) {
            Some(v) => Some(v as int),
            None => None,
        }
    }
}

// ---------------------------------------------------------------------
// Lemmas
// ---------------------------------------------------------------------
pub proof fn lemma_decimal_digits(n: nat)
    ensures
        decimal(n).len() > 0,
        all_digits(decimal(n)),
        digits_value(decimal(n)) == n,
        decimal(n)[0] != '+' && decimal(n)[0] != '-',
        !decimal(n).contains(','),
    decreases n,
{
    if n >= 10 {
        lemma_decimal_digits(n / 10);
        let s = decimal(n);
        assert(s.drop_last() =~= decimal(n / 10));
        assert(digit_value(digit_char(n % 10)) == n % 10);
        assert(digits_value(s) == (n / 10) * 10 + n % 10);
        assert((n / 10) * 10 + n % 10 == n);
        assert forall|i: int| 0 <= i < s.len() implies is_digit(#[trigger] s[i]) by {
            if i < s.len() - 1 {
                assert(s[i] == decimal(n / 10)[i]);
            }
        }
        if s.contains(',') {
            let i = choose|i: int| 0 <= i < s.len() && s[i] == ',';
            assert(is_digit(s[i]));
        }
    } else {
        let s = decimal(n);
        assert(s.drop_last() =~= Seq::<char>::empty());
        assert(digit_value(digit_char(n)) == n);
        assert(digits_value(s.drop_last()) == 0);
        assert(digits_value(s) == n);
        if s.contains(',') {
            let i = choose|i: int| 0 <= i < s.len() && s[i] == ',';
            assert(i == 0);
        }
    }
}

/// Parsing the spelling of `n` gives `n` back, for every bound `max >= n`.
pub proof fn lemma_parse_decimal(n: nat, max: nat)
    requires
        n <= max,
    ensures
        parse_unsigned(decimal(n), max) == Some(n),
{
    lemma_decimal_digits(n);
}

/// Parsing the spelling of an `i64` gives it back.
pub proof fn lemma_parse_signed_decimal(n: i64)
    ensures
        parse_i64(signed_decimal(n as int)) == Some(n as int),
{
    if n < 0 {
        let m = (-(n as int)) as nat;
        lemma_decimal_digits(m);
        assert((seq!['-'] + decimal(m)).drop_first() =~= decimal(m));
    } else {
        lemma_decimal_digits(n as nat);
    }
}

proof fn lemma_digits_value_push(s: Seq<char>, c: char)
    ensures
        digits_value(s.push(c)) == digits_value(s) * 10 + digit_value(c),
{
    assert(s.push(c).drop_last() =~= s);
}

proof fn lemma_digits_value_prefix(s: Seq<char>, i: int)
    requires
        0 <= i < s.len(),
    ensures
        digits_value(s.take(i + 1)) == digits_value(s.take(i)) * 10 + digit_value(s[i]),
{
    assert(s.take(i + 1) =~= s.take(i).push(s[i]));
    lemma_digits_value_push(s.take(i), s[i]);
}

// ---------------------------------------------------------------------
// Executable code
// ---------------------------------------------------------------------
/// `String::push`: appends one character.
#[verifier::external_body]
pub(crate) fn push_char(s: &mut String, c: char)
    ensures
        final(s)@ == old(s)@.push(c),
{
    s.push(c)
}

/// The characters of `s`, in order.
pub fn chars_of(s: &str) -> (r: Vec<char>)
    ensures
        r@ == s@,
{
    let mut r: Vec<char> = Vec::new();
    for c in it: s.chars()
        invariant
            r@ == it.seq().take(it.index() as int),
            it.seq() == s@,
    {
        r.push(c);
        proof {
            assert(it.seq().take(it.index() + 1) =~= it.seq().take(it.index() as int).push(c));
        }
    }
    proof {
        assert(r@ =~= s@);
    }
    r
}

/// Reads `s[from..to]` as digits of a number no larger than `max`.
fn parse_digits(s: &Vec<char>, from: usize, to: usize, max: u64) -> (r: Option<u64>)
    requires
        from <= to <= s.len(),
    ensures
        ({
            let body = s@.subrange(from as int, to as int);
            r == (if body.len() > 0 && all_digits(body) && digits_value(body) <= max {
                Some(digits_value(body) as u64)
            } else {
                None::<u64>
            })
        }),
{
    let ghost body = s@.subrange(from as int, to as int);
    if from == to {
        return None;
    }
    let mut acc: u64 = 0;
    let mut i: usize = from;
    let mut fits = true;
    while i < to
        invariant
            from <= i <= to <= s.len(),
            body == s@.subrange(from as int, to as int),
            forall|j: int| from <= j < i ==> is_digit(#[trigger] s@[j]),
            fits ==> acc == digits_value(body.take(i - from)) && acc <= max,
            !fits ==> digits_value(body.take(i - from)) > max,
        decreases to - i,
    {
        let c = s[i];
        if !('0' <= c && c <= '9') {
            proof {
                assert(!is_digit(body[i - from]));
            }
            return None;
        }
        proof {
            lemma_digits_value_prefix(body, i - from);
            assert(body[i - from] == c);
        }
        let d: u64 = ((c as u32) - ('0' as u32)) as u64;
        if fits {
            if d > max || acc > (max - d) / 10 {
                fits = false;
                proof {
                    if d <= max {
                        assert(acc * 10 + d > max) by (nonlinear_arith)
                            requires
                                acc > (max - d) / 10,
                                d <= max,
                        ;
                    }
                }
            } else {
                proof {
                    assert(acc * 10 + d <= max) by (nonlinear_arith)
                        requires
                            acc <= (max - d) / 10,
                            d <= max,
                    ;
                }
                acc = acc * 10 + d;
            }
        } else {
            proof {
                assert(digits_value(body.take(i - from)) * 10 + d > max) by (nonlinear_arith)
                    requires
                        digits_value(body.take(i - from)) > max,
                ;
            }
        }
        i += 1;
    }
    proof {
        assert(body.take(to - from) =~= body);
        assert(all_digits(body));
    }
    if fits {
        Some(acc)
    } else {
        None
    }
}

/// Parses `s` as Rust parses an unsigned integer whose largest value is
/// `max`: an optional `+` followed by digits.
pub fn parse_unsigned_text(s: &Vec<char>, from: usize, to: usize, max: u64) -> (r: Option<u64>)
    requires
        from <= to <= s.len(),
    ensures
        r == (match parse_unsigned(s@.subrange(from as int, to as int), max as nat) {
            Some(v) => Some(v as u64),
            None => None::<u64>,
        }),
{
    let ghost t = s@.subrange(from as int, to as int);
    if from < to && s[from] == '+' {
        proof {
            assert(t.drop_first() =~= s@.subrange(from + 1, to as int));
        }
        parse_digits(s, from + 1, to, max)
    } else {
        parse_digits(s, from, to, max)
    }
}

/// Parses `s` as `i64::from_str_radix(s, 10)` does.
pub fn parse_i64_text(s: &str) -> (r: Option<i64>)
    ensures
        r == (match parse_i64(s@) {
            Some(v) => Some(v as i64),
            None => None::<i64>,
        }),
{
    let cs = chars_of(s);
    let n = cs.len();
    proof {
        assert(cs@.subrange(0, n as int) =~= s@);
    }
    if n > 0 && cs[0] == '-' {
        proof {
            assert(s@.drop_first() =~= cs@.subrange(1, n as int));
        }
        match parse_digits(&cs, 1, n, 0x8000_0000_0000_0000) {
            Some(v) => {
                if v == 0x8000_0000_0000_0000 {
                    Some(i64::MIN)
                } else {
                    Some(-(v as i64))
                }
            },
            None => None,
        }
    } else {
        match parse_unsigned_text(&cs, 0, n, i64::MAX as u64) {
            Some(v) => Some(v as i64),
            None => None,
        }
    }
}

fn digit_to_char(d: u64) -> (c: char)
    requires
        d < 10,
    ensures
        c == digit_char(d as nat),
{
    match d {
        0 => '0',
        1 => '1',
        2 => '2',
        3 => '3',
        4 => '4',
        5 => '5',
        6 => '6',
        7 => '7',
        8 => '8',
        _ => '9',
    }
}

/// The decimal spelling of `n`, appended to `out`.
pub fn push_decimal(out: &mut String, n: u64)
    ensures
        final(out)@ == old(out)@ + decimal(n as nat),
    decreases n,
{
    if n >= 10 {
        push_decimal(out, n / 10);
    }
    let c = digit_to_char(n % 10);
    push_char(out, c);
    proof {
        if n >= 10 {
            assert(decimal(n as nat) == decimal((n / 10) as nat).push(digit_char((n % 10) as nat)));
        }
    }
}

/// `n.to_string()` for an `i64`.
pub fn i64_to_string(n: i64) -> (r: String)
    ensures
        r@ == signed_decimal(n as int),
{
    let mut out = String::new();
    if n < 0 {
        push_char(&mut out, '-');
        let m: u64 = if n == i64::MIN {
            0x8000_0000_0000_0000
        } else {
            (-n) as u64
        };
        push_decimal(&mut out, m);
    } else {
        push_decimal(&mut out, n as u64);
    }
    out
}

} // verus!
