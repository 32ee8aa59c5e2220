//! Decimal rendering of integers with thousands separators.

use vstd::prelude::*;

verus! {

/// The decimal digit character for `d`.
pub open spec fn spec_digit(d: int) -> char {
    if d == 0 {
        '0'
    } else if d == 1 {
        '1'
    } else if d == 2 {
        '2'
    } else if d == 3 {
        '3'
    } else if d == 4 {
        '4'
    } else if d == 5 {
        '5'
    } else if d == 6 {
        '6'
    } else if d == 7 {
        '7'
    } else if d == 8 {
        '8'
    } else {
        '9'
    }
}

/// The decimal digits of `n`, most significant first, with no leading zero
/// except for `n == 0` itself.
pub open spec fn spec_digits(n: nat) -> Seq<char>
    decreases n,
{
    if n < 10 {
        seq![spec_digit(n as int)]
    } else {
        spec_digits(n / 10).push(spec_digit((n % 10) as int))
    }
}

/// Digits grouped in threes from the right, a comma between groups.
pub open spec fn grouped(d: Seq<char>) -> Seq<char>
    decreases d.len(),
{
    if d.len() <= 3 {
        d
    } else {
        grouped(d.take(d.len() - 3)) + seq![','] + d.skip(d.len() - 3)
    }
}

/// What [`Format::commas1`] renders: the digits of `n`, grouped in threes —
/// except that a digit count divisible by three comes out ungrouped, a quirk
/// this variant keeps.
pub open spec fn spec_commas1(n: nat) -> Seq<char> {
    if spec_digits(n).len() % 3 == 0 {
        spec_digits(n)
    } else {
        grouped(spec_digits(n))
    }
}

/// What [`Format::commas`] renders: a minus sign for negative input, then
/// the digits of the magnitude grouped in threes; the sign never takes a
/// comma after it.
pub open spec fn spec_commas(n: int) -> Seq<char> {
    if n >= 0 {
        grouped(spec_digits(n as nat))
    } else {
        seq!['-'] + grouped(spec_digits((-n) as nat))
    }
}

fn digit_char(d: u64) -> (c: char)
    requires
        d < 10,
    ensures
        c == spec_digit(d as int),
{
    if d == 0 {
        '0'
    } else if d == 1 {
        '1'
    } else if d == 2 {
        '2'
    } else if d == 3 {
        '3'
    } else if d == 4 {
        '4'
    } else if d == 5 {
        '5'
    } else if d == 6 {
        '6'
    } else if d == 7 {
        '7'
    } else if d == 8 {
        '8'
    } else {
        '9'
    }
}

/// The decimal digits of `n`, most significant first.
fn digits_u64(n: u64) -> (v: Vec<char>)
    ensures
        v@ == spec_digits(n as nat),
        v@.len() > 0,
    decreases n,
{
    if n < 10 {
        let mut v = Vec::new();
        v.push(digit_char(n));
        v
    } else {
        assert(n / 10 < n && n / 10 >= 1) by (nonlinear_arith)
            requires
                n >= 10,
        ;
        let mut v = digits_u64(n / 10);
        v.push(digit_char(n % 10));
        v
    }
}

/// Inserts a comma between each group of three digits, counted from the
/// right.
fn insert_commas(d: &Vec<char>) -> (v: Vec<char>)
    requires
        d@.len() > 0,
    ensures
        v@ == grouped(d@),
{
    let len = d.len();
    let head = (len - 1) % 3 + 1;
    proof {
        vstd::arithmetic::div_mod::lemma_mod_decreases((len - 1) as nat, 3);
    }
    assert(1 <= head <= len);
    let mut v: Vec<char> = Vec::new();
    let mut i: usize = 0;
    while i < head
        invariant
            0 <= i <= head,
            head == (len - 1) % 3 + 1,
            1 <= head <= len,
            len == d@.len(),
            v@ == d@.take(i as int),
        decreases head - i,
    {
        v.push(d[i]);
        i = i + 1;
        assert(v@ =~= d@.take(i as int));
    }
    assert(v@ == grouped(d@.take(head as int)));
    let mut p: usize = head;
    while p < len
        invariant
            head == (len - 1) % 3 + 1,
            1 <= head <= len,
            len == d@.len(),
            head <= p <= len,
            (p - head) % 3 == 0,
            v@ == grouped(d@.take(p as int)),
        decreases len - p,
    {
        assert(p + 3 <= len);
        let ghost before = v@;
        v.push(',');
        v.push(d[p]);
        v.push(d[p + 1]);
        v.push(d[p + 2]);
        proof {
            let q = p + 3;
            let t = d@.take(q as int);
            assert(t.len() == q);
            assert(t.take(q - 3) =~= d@.take(p as int));
            assert(t.skip(q - 3) =~= d@.subrange(p as int, q as int));
            assert(grouped(t) == grouped(d@.take(p as int)) + seq![','] + d@.subrange(
                p as int,
                q as int,
            ));
            assert(v@ =~= before + seq![','] + d@.subrange(p as int, q as int));
        }
        p = p + 3;
    }
    assert(d@.take(len as int) =~= d@);
    v
}

/// Relies on String::from_iter: the returned string holds exactly the given
/// characters, in order.
#[verifier::external_body]
fn chars_to_string(chars: &Vec<char>) -> (r: String)
    ensures
        r@ == chars@,
{
    chars.iter().collect()
}

/// Number rendering helpers.
pub struct Format;

impl Format {
    /// `n` in decimal with thousands separators — except that a digit count
    /// divisible by three comes out plain, a quirk this variant keeps:
    /// `1895` gives `1,895`, but `123456` gives `123456`.
    pub fn commas1(n: u64) -> (r: String)
        ensures
            r@ == spec_commas1(n as nat),
    {
        let d = digits_u64(n);
        if d.len() % 3 == 0 {
            chars_to_string(&d)
        } else {
            chars_to_string(&insert_commas(&d))
        }
    }

    /// `n` in decimal with a comma between each group of three digits,
    /// counted from the right; a minus sign, when there is one, never takes
    /// a comma after it: `-1000000` gives `-1,000,000`.
    pub fn commas(n: i64) -> (r: String)
        ensures
            r@ == spec_commas(n as int),
    {
        if n >= 0 {
            let d = digits_u64(n as u64);
            chars_to_string(&insert_commas(&d))
        } else {
            let magnitude: u64 = if n == i64::MIN {
                9223372036854775808u64
            } else {
                (-n) as u64
            };
            assert(magnitude == -(n as int));
            let d = digits_u64(magnitude);
            let grouped_digits = insert_commas(&d);
            let mut chars: Vec<char> = Vec::new();
            chars.push('-');
            chars.append(&mut { grouped_digits });
            assert(chars@ =~= seq!['-'] + grouped(spec_digits((-(n as int)) as nat)));
            chars_to_string(&chars)
        }
    }
}

} // verus!
