//! Decimal rendering and parsing of integers, with round-trip lemmas.

use vstd::prelude::*;
use vstd::string::StringExecFns;

verus! {

/// The decimal digit character for a value below ten.
pub open spec fn digit_char(d: nat) -> char {
    if d == 0 {
        '0'
    } else if d == 1 {
        '1'
    } else if d == 2 {
        '2'
    } else if d == 3 {
        '3'
    } else if d == 4 {
        '4'
    } else if d == 5 {
        '5'
    } else if d == 6 {
        '6'
    } else if d == 7 {
        '7'
    } else if d == 8 {
        '8'
    } else {
        '9'
    }
}

/// The numeric value of a decimal digit character, or ten for any other
/// character.
pub open spec fn digit_val(c: char) -> nat {
    if c == '0' {
        0
    } else if c == '1' {
        1
    } else if c == '2' {
        2
    } else if c == '3' {
        3
    } else if c == '4' {
        4
    } else if c == '5' {
        5
    } else if c == '6' {
        6
    } else if c == '7' {
        7
    } else if c == '8' {
        8
    } else if c == '9' {
        9
    } else {
        10
    }
}

pub open spec fn is_digit(c: char) -> bool {
    digit_val(c) < 10
}

/// The decimal rendering of a natural number, without leading zeros.
pub open spec fn spec_nat_str(n: nat) -> Seq<char>
    decreases n,
{
    if n < 10 {
        seq![digit_char(n)]
    } else {
        spec_nat_str(n / 10) + seq![digit_char(n % 10)]
    }
}

/// The decimal rendering of an integer: a minus sign for negatives,
/// then the digits of the magnitude.
pub open spec fn spec_int_str(v: int) -> Seq<char> {
    if v < 0 {
        seq!['-'] + spec_nat_str((-v) as nat)
    } else {
        spec_nat_str(v as nat)
    }
}

fn digit_str(d: u64) -> (r: &'static str)
    requires
        d < 10,
    ensures
        r@ =~= seq![digit_char(d as nat)],
{
    let r = if d == 0 {
        "0"
    } else if d == 1 {
        "1"
    } else if d == 2 {
        "2"
    } else if d == 3 {
        "3"
    } else if d == 4 {
        "4"
    } else if d == 5 {
        "5"
    } else if d == 6 {
        "6"
    } else if d == 7 {
        "7"
    } else if d == 8 {
        "8"
    } else {
        "9"
    };
    proof {
        reveal_strlit("0");
        reveal_strlit("1");
        reveal_strlit("2");
        reveal_strlit("3");
        reveal_strlit("4");
        reveal_strlit("5");
        reveal_strlit("6");
        reveal_strlit("7");
        reveal_strlit("8");
        reveal_strlit("9");
    }
    r
}

/// Render a `u64` in decimal.
pub fn u64_to_string(n: u64) -> (r: String)
    ensures
        r@ == spec_nat_str(n as nat),
    decreases n,
{
    if n < 10 {
        let r = String::from_str(digit_str(n));
        assert(r@ =~= spec_nat_str(n as nat));
        r
    } else {
        let mut r = u64_to_string(n / 10);
        r.append(digit_str(n % 10));
        assert(r@ =~= spec_nat_str(n as nat));
        r
    }
}

/// Render an `i64` in decimal.
pub fn i64_to_string(v: i64) -> (r: String)
    ensures
        r@ == spec_int_str(v as int),
{
    if v >= 0 {
        u64_to_string(v as u64)
    } else {
        let mag: u64 = if v == i64::MIN {
            9223372036854775808u64
        } else {
            (-v) as u64
        };
        assert(mag as int == -(v as int));
        let mut r = String::from_str("-");
        proof {
            reveal_strlit("-");
        }
        r.append(u64_to_string(mag).as_str());
        assert(r@ =~= spec_int_str(v as int));
        r
    }
}

/// Render an `i32` in decimal.
pub fn i32_to_string(v: i32) -> (r: String)
    ensures
        r@ == spec_int_str(v as int),
{
    i64_to_string(v as i64)
}

/// The value of a digit string read left to right, given a value
/// already accumulated. Returns none if any character is not a digit.
pub open spec fn spec_dec_val_acc(s: Seq<char>, acc: nat) -> Option<nat>
    decreases s.len(),
{
    if s.len() == 0 {
        Some(acc)
    } else if is_digit(s[0]) {
        spec_dec_val_acc(s.drop_first(), acc * 10 + digit_val(s[0]))
    } else {
        None
    }
}

/// The numeric value of a nonempty all-digit string.
pub open spec fn spec_dec_val(s: Seq<char>) -> Option<nat> {
    if s.len() == 0 {
        None
    } else {
        spec_dec_val_acc(s, 0)
    }
}

/// The integer a decimal string denotes: an optional minus sign, then
/// at least one digit.
pub open spec fn spec_int_val(s: Seq<char>) -> Option<int> {
    if s.len() > 0 && s[0] == '-' {
        match spec_dec_val(s.drop_first()) {
            Some(n) => Some(-(n as int)),
            None => None,
        }
    } else {
        match spec_dec_val(s) {
            Some(n) => Some(n as int),
            None => None,
        }
    }
}

/// Ten to the power `k`.
pub open spec fn pow10(k: nat) -> nat
    decreases k,
{
    if k == 0 {
        1
    } else {
        10 * pow10((k - 1) as nat)
    }
}

/// A rendered natural number is a nonempty string of digits.
pub proof fn lemma_nat_str_digits(n: nat)
    ensures
        spec_nat_str(n).len() >= 1,
        forall|i: int| 0 <= i < spec_nat_str(n).len() ==> is_digit(#[trigger] spec_nat_str(n)[i]),
    decreases n,
{
    if n >= 10 {
        lemma_nat_str_digits(n / 10);
    }
}

proof fn lemma_dec_val_acc_append(s: Seq<char>, t: Seq<char>, acc: nat)
    requires
        spec_dec_val_acc(s, acc) is Some,
    ensures
        spec_dec_val_acc(s + t, acc) == spec_dec_val_acc(t, spec_dec_val_acc(s, acc)->Some_0),
    decreases s.len(),
{
    if s.len() == 0 {
        assert(s + t =~= t);
    } else {
        assert((s + t).drop_first() =~= s.drop_first() + t);
        lemma_dec_val_acc_append(s.drop_first(), t, acc * 10 + digit_val(s[0]));
    }
}

proof fn lemma_dec_val_acc_nat_str(n: nat, acc: nat)
    ensures
        spec_dec_val_acc(spec_nat_str(n), acc) == Some(acc * pow10(spec_nat_str(n).len() as nat) + n),
    decreases n,
{
    if n < 10 {
        assert(spec_nat_str(n) =~= seq![digit_char(n)]);
        assert(digit_val(digit_char(n)) == n);
        assert(spec_nat_str(n).drop_first() =~= Seq::<char>::empty());
        assert(spec_dec_val_acc(Seq::<char>::empty(), acc * 10 + n) == Some(acc * 10 + n));
        assert(spec_dec_val_acc(spec_nat_str(n), acc) == Some(acc * 10 + n));
        assert(pow10(1) == 10 * pow10(0));
    } else {
        let hd = spec_nat_str(n / 10);
        let tl = seq![digit_char(n % 10)];
        assert(spec_nat_str(n) == hd + tl);
        lemma_dec_val_acc_nat_str(n / 10, acc);
        lemma_dec_val_acc_append(hd, tl, acc);
        let v = acc * pow10(hd.len() as nat) + n / 10;
        assert(tl.drop_first() =~= Seq::<char>::empty());
        assert(digit_val(digit_char(n % 10)) == n % 10);
        assert(spec_dec_val_acc(Seq::<char>::empty(), v * 10 + n % 10) == Some(v * 10 + n % 10));
        assert(spec_dec_val_acc(tl, v) == Some(v * 10 + n % 10));
        assert((hd + tl).len() == hd.len() + 1);
        assert(pow10(hd.len() + 1) == 10 * pow10(hd.len()));
        assert(v * 10 + n % 10 == acc * (10 * pow10(hd.len() as nat)) + n) by (nonlinear_arith)
            requires
                v == acc * pow10(hd.len() as nat) + n / 10,
                n >= 10,
        ;
        assert(acc * (10 * pow10(hd.len() as nat)) == acc * pow10((hd.len() + 1) as nat));
    }
}

/// Parsing the decimal rendering of a natural number gives it back.
pub proof fn lemma_nat_str_round_trip(n: nat)
    ensures
        spec_dec_val(spec_nat_str(n)) == Some(n),
{
    lemma_nat_str_digits(n);
    lemma_dec_val_acc_nat_str(n, 0);
}

/// Parsing the decimal rendering of an integer gives it back.
pub proof fn lemma_int_str_round_trip(v: int)
    ensures
        spec_int_val(spec_int_str(v)) == Some(v),
{
    if v < 0 {
        let s = spec_int_str(v);
        assert(s.drop_first() =~= spec_nat_str((-v) as nat));
        lemma_nat_str_round_trip((-v) as nat);
    } else {
        lemma_nat_str_round_trip(v as nat);
        let s = spec_int_str(v);
        lemma_nat_str_digits(v as nat);
        assert(s[0] != '-');
    }
}

/// Parse a decimal integer that fits in `i64` from the whole of `s`.
/// Returns `None` if `s` is not a decimal integer or does not fit.
pub fn parse_i64(s: &str) -> (r: Option<i64>)
    ensures
        match r {
            Some(v) => spec_int_val(s@) == Some(v as int),
            None => spec_int_val(s@) is None || (spec_int_val(s@) matches Some(w)
                && !(i64::MIN <= w <= i64::MAX)),
        },
{
    let n = s.unicode_len();
    if n == 0 {
        return None;
    }
    let neg = s.get_char(0) == '-';
    let start: usize = if neg {
        1
    } else {
        0
    };
    if n == start {
        return None;
    }
    let mut acc: u64 = 0;
    let mut i: usize = start;
    let ghost body = s@.subrange(start as int, n as int);
    proof {
        assert(spec_dec_val_acc(body.subrange(0, 0), 0) == Some(0nat));
    }
    while i < n
        invariant
            n == s@.len(),
            start <= i <= n,
            start < n,
            start == 0 || start == 1,
            neg ==> start == 1 && s@[0] == '-',
            !neg ==> start == 0 && s@[0] != '-',
            body == s@.subrange(start as int, n as int),
            spec_dec_val_acc(body.subrange(0, i - start), 0) == Some(acc as nat),
            acc <= 0x8000000000000000u64,
        decreases n - i,
    {
        let c = s.get_char(i);
        let d: u64 = match c {
            '0' => 0,
            '1' => 1,
            '2' => 2,
            '3' => 3,
            '4' => 4,
            '5' => 5,
            '6' => 6,
            '7' => 7,
            '8' => 8,
            '9' => 9,
            _ => {
                proof {
                    let done = body.subrange(0, i - start);
                    let rest = body.subrange(i - start, body.len() as int);
                    assert(body =~= done + rest);
                    lemma_dec_val_acc_append(done, rest, 0);
                    assert(rest[0] == c && !is_digit(c));
                    assert(spec_dec_val_acc(body, 0) is None);
                    if neg {
                        assert(s@.drop_first() =~= body);
                    } else {
                        assert(s@ =~= body);
                    }
                }
                return None;
            },
        };
        assert(d == digit_val(c));
        if acc > 922337203685477580u64 || (acc == 922337203685477580u64 && d > 8) {
            proof {
                let done = body.subrange(0, i - start);
                let rest = body.subrange(i - start, body.len() as int);
                assert(body =~= done + rest);
                lemma_dec_val_acc_append(done, rest, 0);
                assert(rest[0] == c);
                lemma_dec_acc_monotone(rest, acc as nat);
                if neg {
                    assert(s@.drop_first() =~= body);
                } else {
                    assert(s@ =~= body);
                }
            }
            return None;
        }
        let ghost acc0 = acc as nat;
        acc = acc * 10 + d;
        i += 1;
        proof {
            let prev = body.subrange(0, i - 1 - start);
            let cur = body.subrange(0, i - start);
            assert(cur =~= prev + seq![c]);
            lemma_dec_val_acc_append(prev, seq![c], 0);
            assert(seq![c].drop_first() =~= Seq::<char>::empty());
            assert(spec_dec_val_acc(Seq::<char>::empty(), acc0 * 10 + digit_val(c)) == Some(
                acc0 * 10 + digit_val(c),
            ));
            assert(spec_dec_val_acc(seq![c], acc0) == Some(acc0 * 10 + digit_val(c)));
        }
    }
    proof {
        assert(body.subrange(0, (n - start) as int) =~= body);
    }
    if neg {
        let v: i64 = if acc == 0x8000000000000000u64 {
            i64::MIN
        } else {
            -(acc as i64)
        };
        proof {
            assert(s@.drop_first() =~= body);
        }
        Some(v)
    } else {
        proof {
            assert(s@ =~= body);
        }
        if acc > 0x7fffffffffffffffu64 {
            return None;
        }
        Some(acc as i64)
    }
}

/// A nonempty tail of digits parses to at least its head-weighted
/// prefix value.
proof fn lemma_dec_acc_monotone(s: Seq<char>, acc: nat)
    requires
        s.len() >= 1,
        is_digit(s[0]),
    ensures
        spec_dec_val_acc(s, acc) is Some ==> spec_dec_val_acc(s, acc)->Some_0 >= acc * 10
            + digit_val(s[0]),
    decreases s.len(),
{
    let acc2 = acc * 10 + digit_val(s[0]);
    if s.len() == 1 {
        assert(s.drop_first() =~= Seq::<char>::empty());
        assert(spec_dec_val_acc(Seq::<char>::empty(), acc2) == Some(acc2));
    } else {
        let rest = s.drop_first();
        if is_digit(rest[0]) {
            lemma_dec_acc_monotone(rest, acc2);
            if spec_dec_val_acc(s, acc) is Some {
                assert(spec_dec_val_acc(rest, acc2)->Some_0 >= acc2 * 10 + digit_val(rest[0]));
                assert(acc2 * 10 >= acc2) by (nonlinear_arith)
                    requires
                        acc2 >= 0,
                ;
            }
        }
    }
}

/// Parse a decimal integer that fits in `i32`.
pub fn parse_i32(s: &str) -> (r: Option<i32>)
    ensures
        match r {
            Some(v) => spec_int_val(s@) == Some(v as int),
            None => spec_int_val(s@) is None || (spec_int_val(s@) matches Some(w)
                && !(i32::MIN <= w <= i32::MAX)),
        },
{
    match parse_i64(s) {
        Some(v) => {
            if v >= -2147483648i64 && v <= 2147483647i64 {
                Some(v as i32)
            } else {
                None
            }
        },
        None => None,
    }
}

} // verus!
