use vstd::prelude::*;

verus! {

/// The character for one decimal digit.
pub open spec fn spec_digit_char(d: nat) -> char
    recommends
        d < 10,
{
    if d == 0 {
        '0'
    } else if d == 1 {
        '1'
    } else if d == 2 {
        '2'
    } else if d == 3 {
        '3'
    } else if d == 4 {
        '4'
    } else if d == 5 {
        '5'
    } else if d == 6 {
        '6'
    } else if d == 7 {
        '7'
    } else if d == 8 {
        '8'
    } else {
        '9'
    }
}

/// The plain decimal representation of `n`, without padding or sign.
pub open spec fn spec_decimal(n: nat) -> Seq<char>
    decreases n,
{
    if n < 10 {
        seq![spec_digit_char(n)]
    } else {
        spec_decimal(n / 10).push(spec_digit_char(n % 10))
    }
}

/// The sequence-number text: numbers under 100 are zero-padded to three
/// digits, larger numbers are printed plainly (and never re-padded).
pub open spec fn spec_number_text(n: nat) -> Seq<char> {
    if n < 10 {
        seq!['0', '0'] + spec_decimal(n)
    } else if n < 100 {
        seq!['0'] + spec_decimal(n)
    } else {
        spec_decimal(n)
    }
}

/// How many digits the plain decimal representation has, for each band of
/// values that a sequence number can fall in.
pub proof fn lemma_decimal_len(n: nat)
    ensures
        spec_decimal(n).len() >= 1,
        n < 10 ==> spec_decimal(n).len() == 1,
        10 <= n < 100 ==> spec_decimal(n).len() == 2,
        100 <= n < 1000 ==> spec_decimal(n).len() == 3,
        1000 <= n < 10000 ==> spec_decimal(n).len() == 4,
        10000 <= n < 100000 ==> spec_decimal(n).len() == 5,
        n >= 10 ==> spec_decimal(n).len() >= 2,
        n >= 100 ==> spec_decimal(n).len() >= 3,
    decreases n,
{
    if n >= 10 {
        lemma_decimal_len(n / 10);
    }
}

/// More digits are never needed for a smaller number.
pub proof fn lemma_decimal_len_monotone(m: nat, n: nat)
    requires
        m <= n,
    ensures
        spec_decimal(m).len() <= spec_decimal(n).len(),
    decreases n,
{
    if n < 10 {
    } else if m < 10 {
        lemma_decimal_len(m);
        lemma_decimal_len(n);
    } else {
        vstd::arithmetic::div_mod::lemma_div_is_ordered(m as int, n as int, 10);
        lemma_decimal_len_monotone(m / 10, n / 10);
    }
}

/// The padded sequence-number text is three digits for small numbers and
/// exactly the plain representation above 99.
pub proof fn lemma_number_text_len(n: nat)
    ensures
        n < 100 ==> spec_number_text(n).len() == 3,
        n >= 100 ==> spec_number_text(n).len() == spec_decimal(n).len(),
        spec_number_text(n).len() >= 3,
{
    lemma_decimal_len(n);
}

/// The character for one decimal digit.
fn digit_char(d: u64) -> (c: char)
    requires
        d < 10,
    ensures
        c == spec_digit_char(d as nat),
{
    if d == 0 {
        '0'
    } else if d == 1 {
        '1'
    } else if d == 2 {
        '2'
    } else if d == 3 {
        '3'
    } else if d == 4 {
        '4'
    } else if d == 5 {
        '5'
    } else if d == 6 {
        '6'
    } else if d == 7 {
        '7'
    } else if d == 8 {
        '8'
    } else {
        '9'
    }
}

/// The plain decimal digits of `n`.
pub fn decimal_chars(n: u64) -> (r: Vec<char>)
    ensures
        r@ == spec_decimal(n as nat),
    decreases n,
{
    if n < 10 {
        let mut v: Vec<char> = Vec::new();
        v.push(digit_char(n));
        proof {
            assert(v@ =~= seq![spec_digit_char(n as nat)]);
        }
        v
    } else {
        let mut v = decimal_chars(n / 10);
        v.push(digit_char(n % 10));
        v
    }
}

/// The padded sequence-number text of `n` as characters.
pub fn number_text_chars(n: u32) -> (r: Vec<char>)
    ensures
        r@ == spec_number_text(n as nat),
{
    let digits = decimal_chars(n as u64);
    let mut r: Vec<char> = Vec::new();
    if n < 10 {
        r.push('0');
        r.push('0');
    } else if n < 100 {
        r.push('0');
    }
    crate::text::push_all(&mut r, &digits);
    proof {
        assert(r@ =~= spec_number_text(n as nat));
    }
    r
}

/// How many digits the plain decimal representation of `n` has.
pub fn decimal_width(n: u32) -> (r: usize)
    ensures
        r == spec_decimal(n as nat).len(),
{
    let v = decimal_chars(n as u64);
    v.len()
}

} // verus!
