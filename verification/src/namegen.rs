use vstd::prelude::*;

use crate::numbers::{
    decimal_chars, decimal_width, lemma_decimal_len, lemma_decimal_len_monotone,
    lemma_number_text_len, number_text_chars, spec_decimal, spec_number_text,
};
use crate::text::{lower_chars, push_all, spec_lower};

verus! {

/// Largest sequence number a file may receive.
pub const MAX_NUMBER: u32 = 99999;

/// Length budget for the non-extension part of a name: prefix, date and
/// sequence number together.
pub const MAX_TOTAL_LENGTH: usize = 15;

/// Length of the date stamp.
pub const DATE_LENGTH: usize = 6;

/// A caller-supplied number clamped to the supported maximum.
pub open spec fn spec_clamp(n: u32) -> u32 {
    if n > MAX_NUMBER {
        MAX_NUMBER
    } else {
        n
    }
}

/// Clamp a caller-supplied sequence number to the supported maximum.
pub fn clamp_number(n: u32) -> (r: u32)
    ensures
        r == spec_clamp(n),
{
    if n > MAX_NUMBER {
        MAX_NUMBER
    } else {
        n
    }
}

/// The largest sequence number a batch of `count` files starting at the
/// (already clamped) number `start` can reach.
pub open spec fn spec_max_possible(start: u32, count: nat) -> u32
    recommends
        start <= MAX_NUMBER,
        count >= 1,
{
    if start + count - 1 > MAX_NUMBER {
        MAX_NUMBER
    } else {
        (start + count - 1) as u32
    }
}

/// The largest sequence number the batch will reach.
pub fn max_possible_number(start: u32, count: usize) -> (r: u32)
    requires
        start <= MAX_NUMBER,
        count >= 1,
    ensures
        r == spec_max_possible(start, count as nat),
{
    if count - 1 > (MAX_NUMBER - start) as usize {
        MAX_NUMBER
    } else {
        start + (count - 1) as u32
    }
}

/// How many characters the prefix may keep, computed backward from the
/// total budget: budget minus date length minus the digit width of the
/// largest number the batch will reach.
pub open spec fn spec_max_prefix_len(number_width: nat) -> nat {
    if DATE_LENGTH + number_width > MAX_TOTAL_LENGTH {
        0
    } else {
        (MAX_TOTAL_LENGTH - DATE_LENGTH - number_width) as nat
    }
}

/// The prefix budget left beside the date and the widest number.
pub fn max_prefix_len(number_width: usize) -> (r: usize)
    ensures
        r == spec_max_prefix_len(number_width as nat),
{
    if number_width > MAX_TOTAL_LENGTH - DATE_LENGTH {
        0
    } else {
        MAX_TOTAL_LENGTH - DATE_LENGTH - number_width
    }
}

/// A sequence cut down to at most `max` characters.
pub open spec fn spec_truncate(s: Seq<char>, max: nat) -> Seq<char> {
    if s.len() > max {
        s.subrange(0, max as int)
    } else {
        s
    }
}

/// Cut a prefix down to at most `max` characters.
pub fn truncate_chars(v: &Vec<char>, max: usize) -> (r: Vec<char>)
    ensures
        r@ == spec_truncate(v@, max as nat),
{
    if v.len() <= max {
        let mut r: Vec<char> = Vec::new();
        push_all(&mut r, v);
        proof {
            assert(r@ =~= v@);
        }
        r
    } else {
        let mut r: Vec<char> = Vec::new();
        let mut i: usize = 0;
        while i < max
            invariant
                max < v@.len(),
                i <= max,
                r@ == v@.subrange(0, i as int),
            decreases max - i,
        {
            r.push(v[i]);
            i = i + 1;
            proof {
                assert(r@ =~= v@.subrange(0, i as int));
            }
        }
        r
    }
}

/// The effective prefix of a batch: the caller's prefix truncated to the
/// budget that the widest sequence number of the batch leaves.
pub open spec fn spec_effective_prefix(prefix: Seq<char>, start_number: u32, count: nat) -> Seq<
    char,
> {
    spec_truncate(
        prefix,
        spec_max_prefix_len(
            spec_decimal(spec_max_possible(spec_clamp(start_number), count) as nat).len(),
        ),
    )
}

/// The effective prefix of a batch of `count` files.
pub fn effective_prefix(prefix: &Vec<char>, start_number: u32, count: usize) -> (r: Vec<char>)
    requires
        count >= 1,
    ensures
        r@ == spec_effective_prefix(prefix@, start_number, count as nat),
{
    let start = clamp_number(start_number);
    let widest = max_possible_number(start, count);
    let width = decimal_width(widest);
    let budget = max_prefix_len(width);
    truncate_chars(prefix, budget)
}

/// A valid date stamp: exactly six decimal digits (two-digit year, month,
/// day).
pub open spec fn spec_is_date_stamp(s: Seq<char>) -> bool {
    &&& s.len() == DATE_LENGTH
    &&& forall|i: int| 0 <= i < s.len() ==> '0' <= #[trigger] s[i] && s[i] <= '9'
}

/// Whether `s` is exactly six decimal digits.
pub fn is_date_stamp(v: &Vec<char>) -> (r: bool)
    ensures
        r == spec_is_date_stamp(v@),
{
    if v.len() != DATE_LENGTH {
        return false;
    }
    let mut i: usize = 0;
    while i < v.len()
        invariant
            v@.len() == DATE_LENGTH,
            i <= v@.len(),
            forall|j: int| 0 <= j < i ==> '0' <= #[trigger] v@[j] && v@[j] <= '9',
        decreases v@.len() - i,
    {
        let c = v[i];
        if c < '0' || c > '9' {
            return false;
        }
        i = i + 1;
    }
    true
}

/// The supported image extensions, dot included, compared after ASCII
/// lower-casing.
pub open spec fn spec_is_supported_extension(e: Seq<char>) -> bool {
    ||| spec_lower(e) == seq!['.', 'j', 'p', 'g']
    ||| spec_lower(e) == seq!['.', 'j', 'p', 'e', 'g']
    ||| spec_lower(e) == seq!['.', 'p', 'n', 'g']
}

/// Whether an extension, dot included, names a supported image format,
/// ignoring ASCII case.
pub fn is_supported_extension(e: &Vec<char>) -> (r: bool)
    ensures
        r == spec_is_supported_extension(e@),
{
    let l = lower_chars(e);
    let jpg = (l.len() == 4 && l[0] == '.' && l[1] == 'j' && l[2] == 'p' && l[3] == 'g');
    let jpeg = (l.len() == 5 && l[0] == '.' && l[1] == 'j' && l[2] == 'p' && l[3] == 'e' && l[4]
        == 'g');
    let png = (l.len() == 4 && l[0] == '.' && l[1] == 'p' && l[2] == 'n' && l[3] == 'g');
    proof {
        assert(jpg == (l@ =~= seq!['.', 'j', 'p', 'g']));
        assert(jpeg == (l@ =~= seq!['.', 'j', 'p', 'e', 'g']));
        assert(png == (l@ =~= seq!['.', 'p', 'n', 'g']));
    }
    jpg || jpeg || png
}

/// The stem of a generated name: prefix, date stamp and padded sequence
/// number, with no separators.
pub open spec fn spec_name_stem(prefix: Seq<char>, date: Seq<char>, number: u32) -> Seq<char> {
    prefix + date + spec_number_text(number as nat)
}

/// A full generated file name: the stem with the original extension, in its
/// original case, appended verbatim.
pub open spec fn spec_new_file_name(
    prefix: Seq<char>,
    date: Seq<char>,
    number: u32,
    ext: Seq<char>,
) -> Seq<char> {
    spec_name_stem(prefix, date, number) + ext
}

/// Generate a file name from the effective prefix, the batch's date stamp,
/// the file's sequence number and its extension. The result is a pure
/// function of the four arguments: equal inputs always give equal names.
pub fn new_file_name(prefix: &Vec<char>, date: &Vec<char>, number: u32, ext: &Vec<char>) -> (r:
    Vec<char>)
    ensures
        r@ == spec_new_file_name(prefix@, date@, number, ext@),
{
    let mut r: Vec<char> = Vec::new();
    push_all(&mut r, prefix);
    push_all(&mut r, date);
    let num = number_text_chars(number);
    push_all(&mut r, &num);
    push_all(&mut r, ext);
    proof {
        assert(r@ =~= spec_new_file_name(prefix@, date@, number, ext@));
    }
    r
}

/// The summary name for a renamed folder:
/// `{prefix}{date} {start}-{end} {count}张`.
pub open spec fn spec_folder_summary_name(
    prefix: Seq<char>,
    date: Seq<char>,
    start: u32,
    end: u32,
    count: nat,
) -> Seq<char> {
    prefix + date + seq![' '] + spec_decimal(start as nat) + seq!['-'] + spec_decimal(end as nat)
        + seq![' '] + spec_decimal(count) + seq!['张']
}

/// Build the folder summary name for a finished batch.
pub fn folder_summary_name(
    prefix: &Vec<char>,
    date: &Vec<char>,
    start: u32,
    end: u32,
    count: usize,
) -> (r: Vec<char>)
    ensures
        r@ == spec_folder_summary_name(prefix@, date@, start, end, count as nat),
{
    let mut r: Vec<char> = Vec::new();
    push_all(&mut r, prefix);
    push_all(&mut r, date);
    r.push(' ');
    let s = decimal_chars(start as u64);
    push_all(&mut r, &s);
    r.push('-');
    let e = decimal_chars(end as u64);
    push_all(&mut r, &e);
    r.push(' ');
    let c = decimal_chars(count as u64);
    push_all(&mut r, &c);
    r.push('张');
    proof {
        assert(r@ =~= spec_folder_summary_name(prefix@, date@, start, end, count as nat));
    }
    r
}

/// Relies on `chrono::Utc::now` and `chrono::format::DelayedFormat` with
/// `%y%m%d`: the current UTC date as two-digit year, month and day. The
/// result depends on the clock, so nothing is promised of it; callers
/// validate the shape with `is_date_stamp`.
#[verifier::external_body]
fn now_yymmdd() -> String {
    chrono::Utc::now().format("%y%m%d").to_string()
}

/// Today's date stamp, validated: `Some` only when the clock yielded a
/// six-digit `YYMMDD` text.
pub fn current_date_stamp() -> (r: Option<Vec<char>>)
    ensures
        match r {
            Some(d) => spec_is_date_stamp(d@),
            None => true,
        },
{
    let raw = now_yymmdd();
    let chars = crate::text::to_char_vec(raw.as_str());
    if is_date_stamp(&chars) {
        Some(chars)
    } else {
        None
    }
}

/// Length law of the naming policy: every name stem in a batch stays
/// within the total budget whenever the batch's widest number needs at
/// least the three digits that padding guarantees; when the widest number
/// is below 100, the padded number text may exceed the width that was
/// budgeted for, by exactly the shortfall, so the stem stays within the
/// budget plus that slack.
pub proof fn lemma_name_stem_budget(
    prefix: Seq<char>,
    date: Seq<char>,
    start_number: u32,
    count: nat,
    number: u32,
)
    requires
        count >= 1,
        spec_is_date_stamp(date),
        spec_clamp(start_number) <= number <= spec_max_possible(spec_clamp(start_number), count),
    ensures
        spec_max_possible(spec_clamp(start_number), count) >= 100 ==> spec_name_stem(
            spec_effective_prefix(prefix, start_number, count),
            date,
            number,
        ).len() <= MAX_TOTAL_LENGTH,
        spec_name_stem(spec_effective_prefix(prefix, start_number, count), date, number).len()
            <= MAX_TOTAL_LENGTH + 2,
{
    let widest = spec_max_possible(spec_clamp(start_number), count);
    let width = spec_decimal(widest as nat).len();
    let eff = spec_effective_prefix(prefix, start_number, count);
    lemma_decimal_len(widest as nat);
    lemma_decimal_len(number as nat);
    lemma_decimal_len_monotone(number as nat, widest as nat);
    lemma_number_text_len(number as nat);
    assert(eff.len() <= spec_max_prefix_len(width));
}

} // verus!
