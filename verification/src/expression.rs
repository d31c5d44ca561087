//! Duration expressions: texts such as `500ms` or `1 day -1 hour`, their
//! evaluation, and what is kept away from it.
//!
//! The evaluation is that of the `parse_duration` crate. It raises ten to
//! the power of an exponent before it looks at the size of the result, so a
//! text whose exponent is too large for any machine is not handed to it,
//! where it would come as far as that exponent. Whether it would is seen
//! from the text without the exponent, which is evaluated first.

use crate::duration::NANOS_PER_SEC;
use crate::text::chars_of;
use vstd::prelude::*;
use vstd::string::StringExecFns;

verus! {

/// The most digits, leading zeros aside, of an exponent that is always
/// evaluated. An exponent of one digit more asks for a power of ten of at
/// least a million million million digits, which takes more than four
/// hundred petabytes to hold: no machine evaluates it. An exponent of yet
/// more digits is beyond the range in which exponents are read at all.
pub const MAX_EXPONENT_DIGITS: usize = 18;

/// The reason given for a duration expression that is refused for the size
/// of an exponent.
pub const EXPONENT_OUT_OF_RANGE: &'static str = "exponent out of range";

/// Whether a character is one of the ten ASCII digits.
pub open spec fn is_digit(c: char) -> bool {
    '0' <= c && c <= '9'
}

/// How many ASCII digits stand in `text` from position `from` on, up to the
/// first character that is none.
pub open spec fn digit_run(text: Seq<char>, from: int) -> nat
    decreases text.len() - from,
{
    if 0 <= from < text.len() && is_digit(text[from]) {
        1 + digit_run(text, from + 1)
    } else {
        0
    }
}

/// How many zeros stand in `text` from position `from` on, up to the first
/// character that is none.
pub open spec fn zero_run(text: Seq<char>, from: int) -> nat
    decreases text.len() - from,
{
    if 0 <= from < text.len() && text[from] == '0' {
        1 + zero_run(text, from + 1)
    } else {
        0
    }
}

/// Whether a character is the letter that opens an exponent.
pub open spec fn is_marker(c: char) -> bool {
    c == 'e' || c == 'E'
}

/// Whether a number ends right before position `at`: a digit stands there,
/// or a point behind a digit.
pub open spec fn number_ends_at(text: Seq<char>, at: int) -> bool {
    at >= 1 && (is_digit(text[at - 1]) || (text[at - 1] == '.' && at >= 2 && is_digit(
        text[at - 2],
    )))
}

/// Whether the digits that begin at `start` are those of an exponent: an `e`
/// behind a number stands before them, or before their sign.
pub open spec fn follows_marker(text: Seq<char>, start: int) -> bool {
    ||| start >= 1 && is_marker(text[start - 1]) && number_ends_at(text, start - 1)
    ||| start >= 2 && (text[start - 1] == '+' || text[start - 1] == '-') && is_marker(
        text[start - 2],
    ) && number_ends_at(text, start - 2)
}

/// Whether the digits that begin at `start` follow a point behind a digit.
pub open spec fn follows_point(text: Seq<char>, start: int) -> bool {
    start >= 2 && text[start - 1] == '.' && is_digit(text[start - 2])
}

/// Whether the character at `at` opens an exponent: an `e` of either case
/// right behind a number. The digits before the `e` must not be those of an
/// exponent themselves: an `e` behind an exponent is the begin of a unit.
/// Where a point stands before the `e`, the digits before the point must be
/// the whole digits of the number: behind decimals and behind an exponent a
/// point belongs to the number no more, and the `e` is the begin of a unit.
pub open spec fn exponent_at(text: Seq<char>, at: int) -> bool {
    &&& 0 < at < text.len()
    &&& is_marker(text[at])
    &&& if is_digit(text[at - 1]) {
        !follows_marker(text, at - digits_before(text, at))
    } else {
        let start = at - 1 - digits_before(text, at - 1);
        &&& text[at - 1] == '.'
        &&& at >= 2
        &&& is_digit(text[at - 2])
        &&& !follows_marker(text, start)
        &&& !follows_point(text, start)
    }
}

/// Where the digits of the exponent opened at `at` begin: behind the `e`, and
/// behind one sign where a sign follows it.
pub open spec fn exponent_digits_from(text: Seq<char>, at: int) -> int {
    if at + 1 < text.len() && (text[at + 1] == '+' || text[at + 1] == '-') {
        at + 2
    } else {
        at + 1
    }
}

/// The number that the `count` digits of `text` from position `from` on
/// write.
pub open spec fn digits_value(text: Seq<char>, from: int, count: nat) -> nat
    decreases count,
{
    if count == 0 {
        0
    } else {
        10 * digits_value(text, from, (count - 1) as nat) + (text[from + count - 1] as nat
            - '0' as nat) as nat
    }
}

/// Ten to the power `k`.
pub open spec fn pow10(k: nat) -> nat
    decreases k,
{
    if k == 0 {
        1
    } else {
        10 * pow10((k - 1) as nat)
    }
}

/// How many ASCII digits stand in `text` right before position `end`.
pub open spec fn digits_before(text: Seq<char>, end: int) -> nat
    decreases end,
{
    if 0 < end <= text.len() && is_digit(text[end - 1]) {
        1 + digits_before(text, end - 1)
    } else {
        0
    }
}

/// How many decimals the number before the exponent opened at `at` has: the
/// digits between a point and the exponent, where a digit stands before the
/// point.
pub open spec fn decimals_before(text: Seq<char>, at: int) -> nat {
    let count = digits_before(text, at);
    if count > 0 && at - count >= 2 && text[at - count - 1] == '.' && is_digit(
        text[at - count - 2],
    ) {
        count
    } else {
        0
    }
}

/// Whether the exponent opened at `at` is written with a minus sign.
pub open spec fn exponent_is_negative(text: Seq<char>, at: int) -> bool {
    at + 1 < text.len() && text[at + 1] == '-'
}

/// Whether the exponent opened at `at` is too large to be evaluated: it has
/// one digit more than [`MAX_EXPONENT_DIGITS`], and it is in the range in
/// which exponents are read. That range is the one of `isize`, for the
/// exponent less the count of the decimals of the number before it.
pub open spec fn exponent_too_large(text: Seq<char>, at: int) -> bool {
    let from = exponent_digits_from(text, at);
    let first = from + zero_run(text, from);
    let size = digits_value(text, first, (MAX_EXPONENT_DIGITS + 1) as nat);
    &&& digit_run(text, first) == MAX_EXPONENT_DIGITS + 1
    &&& if exponent_is_negative(text, at) {
        size + decimals_before(text, at) <= isize::MAX + 1
    } else {
        size <= isize::MAX + decimals_before(text, at)
    }
}

/// Where the digits of the exponent opened at `at` end, if it has one digit
/// more than [`MAX_EXPONENT_DIGITS`].
pub open spec fn exponent_end(text: Seq<char>, at: int) -> int {
    let from = exponent_digits_from(text, at);
    from + zero_run(text, from) + MAX_EXPONENT_DIGITS + 1
}

/// Whether the exponent opened at `at` is the first in `text` that is too
/// large to be evaluated.
pub open spec fn is_first_too_large(text: Seq<char>, at: int) -> bool {
    &&& exponent_at(text, at)
    &&& exponent_too_large(text, at)
    &&& forall|j: int| 0 <= j < at && #[trigger] exponent_at(text, j) ==> !exponent_too_large(text, j)
}

/// Whether the exponent opened at `at` has more digits than
/// [`MAX_EXPONENT_DIGITS`], leading zeros aside. Unless it is too large, the
/// evaluation refuses such an exponent when it comes to it.
pub open spec fn exponent_is_long(text: Seq<char>, at: int) -> bool {
    let from = exponent_digits_from(text, at);
    exponent_at(text, at) && digit_run(text, from + zero_run(text, from)) > MAX_EXPONENT_DIGITS
}

/// Whether an exponent before position `at` is long.
pub open spec fn long_exponent_before(text: Seq<char>, at: int) -> bool {
    exists|j: int| 0 <= j < at && #[trigger] exponent_is_long(text, j)
}

/// Whether the evaluation reads a character as a digit: the ten ASCII
/// digits, and of the characters beyond ASCII those that stand for a digit
/// in another script. The evaluation tells those: a text of one such
/// character is a number to it, which it then fails to read.
pub open spec fn reads_as_digit(c: char) -> bool {
    is_digit(c) || ((c as u32) >= 128 && duration_expr_outcome(seq![c]) matches Err(
        (RefusalKind::ParseInt, _),
    ))
}

/// How many characters that are not read as digits stand in `text` from
/// position `from` on.
pub open spec fn unit_run(text: Seq<char>, from: int) -> nat
    decreases text.len() - from,
{
    if 0 <= from < text.len() && !reads_as_digit(text[from]) {
        1 + unit_run(text, from + 1)
    } else {
        0
    }
}

/// The text up to the number whose exponent is opened at `at`, without that
/// exponent: the number, what follows the exponent up to the next digit, and
/// one second more to close the text.
pub open spec fn without_exponent(text: Seq<char>, at: int) -> Seq<char> {
    let end = exponent_end(text, at);
    text.subrange(0, at) + text.subrange(end, end + unit_run(text, end)) + seq![' ', '1', 's']
}

/// Whether the evaluation of `text` ends before it raises the power that
/// the exponent opened at `at` asks for. It does where a long exponent
/// stands before, which it refuses. It also does where the text without the
/// exponent is refused while the evaluation goes through the numbers: up to
/// the number with the exponent and its unit the two texts are read alike,
/// and nothing follows in the shorter one that could be refused. A refusal
/// as out of bounds is none of these: with no long exponent before, it
/// comes at the end, from the sum, and the power is raised before that.
pub open spec fn evaluation_stops_before(text: Seq<char>, at: int) -> bool {
    ||| long_exponent_before(text, at)
    ||| duration_expr_outcome(without_exponent(text, at)) matches Err((kind, _)) && kind
        != RefusalKind::OutOfBounds
}

/// Whether `text` can be evaluated: it has no exponent that is too large,
/// or the evaluation ends before it comes to the first of them.
pub open spec fn exponents_evaluable(text: Seq<char>) -> bool {
    forall|at: int| #[trigger] is_first_too_large(text, at) ==> evaluation_stops_before(text, at)
}

/// The powers of ten grow with the exponent.
proof fn lemma_pow10_grows(a: nat, b: nat)
    requires
        a <= b,
    ensures
        pow10(a) <= pow10(b),
    decreases b,
{
    if a < b {
        lemma_pow10_grows(a, (b - 1) as nat);
    }
}

/// Where the run of digits that ends before position `end` begins.
fn run_start(chars: &Vec<char>, end: usize) -> (start: usize)
    requires
        end <= chars.len(),
    ensures
        start == end - digits_before(chars@, end as int),
{
    let mut start: usize = end;
    while start > 0 && '0' <= chars[start - 1] && chars[start - 1] <= '9'
        invariant
            start <= end <= chars.len(),
            digits_before(chars@, end as int) == (end - start) + digits_before(chars@, start as int),
        decreases start,
    {
        start -= 1;
    }
    start
}

/// Whether a number ends right before position `at`.
fn ends_number(chars: &Vec<char>, at: usize) -> (ends: bool)
    requires
        at <= chars.len(),
    ensures
        ends == number_ends_at(chars@, at as int),
{
    if at == 0 {
        return false;
    }
    let before: char = chars[at - 1];
    if '0' <= before && before <= '9' {
        return true;
    }
    before == '.' && at >= 2 && '0' <= chars[at - 2] && chars[at - 2] <= '9'
}

/// Whether the digits that begin at `start` are those of an exponent.
fn after_marker(chars: &Vec<char>, start: usize) -> (after: bool)
    requires
        start <= chars.len(),
    ensures
        after == follows_marker(chars@, start as int),
{
    if start >= 1 && (chars[start - 1] == 'e' || chars[start - 1] == 'E') {
        return ends_number(chars, start - 1);
    }
    start >= 2 && (chars[start - 1] == '+' || chars[start - 1] == '-') && (chars[start - 2] == 'e'
        || chars[start - 2] == 'E') && ends_number(chars, start - 2)
}

/// Whether the character at `at` opens an exponent.
fn opens_exponent(chars: &Vec<char>, at: usize) -> (opens: bool)
    requires
        at < chars.len(),
    ensures
        opens == exponent_at(chars@, at as int),
{
    if at == 0 {
        return false;
    }
    let c: char = chars[at];
    if c != 'e' && c != 'E' {
        return false;
    }
    let before: char = chars[at - 1];
    if '0' <= before && before <= '9' {
        let start: usize = run_start(chars, at);
        return !after_marker(chars, start);
    }
    if before != '.' || at < 2 || !('0' <= chars[at - 2] && chars[at - 2] <= '9') {
        return false;
    }
    let start: usize = run_start(chars, at - 1);
    let follows_point: bool = start >= 2 && chars[start - 1] == '.' && '0' <= chars[start - 2]
        && chars[start - 2] <= '9';
    !after_marker(chars, start) && !follows_point
}

/// Whether the exponent opened at `at` has more digits than
/// [`MAX_EXPONENT_DIGITS`], and where its digits end if it is too large to
/// be evaluated. The digits are counted only as far as it takes to tell.
#[verifier::rlimit(30)]
fn measure_exponent(chars: &Vec<char>, at: usize) -> (measured: (bool, Option<usize>))
    requires
        at < chars.len(),
    ensures
        measured.0 == (digit_run(
            chars@,
            exponent_digits_from(chars@, at as int) + zero_run(
                chars@,
                exponent_digits_from(chars@, at as int),
            ),
        ) > MAX_EXPONENT_DIGITS),
        match measured.1 {
            Some(end) => exponent_too_large(chars@, at as int) && end == exponent_end(
                chars@,
                at as int,
            ) && at < end <= chars.len(),
            None => !exponent_too_large(chars@, at as int),
        },
{
    let n: usize = chars.len();
    let from: usize = if at + 1 < n && (chars[at + 1] == '+' || chars[at + 1] == '-') {
        at + 2
    } else {
        at + 1
    };
    let mut first: usize = from;
    while first < n && chars[first] == '0'
        invariant
            from <= first <= n,
            n == chars.len(),
            zero_run(chars@, from as int) == (first - from) + zero_run(chars@, first as int),
        decreases n - first,
    {
        first += 1;
    }
    let mut next: usize = first;
    let mut count: usize = 0;
    while next < n && '0' <= chars[next] && chars[next] <= '9' && count <= MAX_EXPONENT_DIGITS + 1
        invariant
            first <= next <= n,
            n == chars.len(),
            count == next - first,
            count <= MAX_EXPONENT_DIGITS + 2,
            digit_run(chars@, first as int) == count + digit_run(chars@, next as int),
            forall|k: int| first <= k < next ==> is_digit(#[trigger] chars@[k]),
        decreases n - next,
    {
        next += 1;
        count += 1;
    }
    if count != MAX_EXPONENT_DIGITS + 1 {
        return (count > MAX_EXPONENT_DIGITS, None);
    }
    let mut value: u128 = 0;
    let mut k: usize = 0;
    while k < count
        invariant
            k <= count,
            count == MAX_EXPONENT_DIGITS + 1,
            first + count <= n,
            n == chars.len(),
            forall|i: int| first <= i < first + count ==> is_digit(#[trigger] chars@[i]),
            zero_run(chars@, from as int) == first - from,
            digit_run(chars@, first as int) == MAX_EXPONENT_DIGITS + 1,
            from == exponent_digits_from(chars@, at as int),
            value == digits_value(chars@, first as int, k as nat),
            value < pow10(k as nat),
            k <= 19,
        decreases count - k,
    {
        proof {
            lemma_pow10_grows(k as nat, 18);
            assert(pow10(18) == 1_000_000_000_000_000_000) by {
                reveal_with_fuel(pow10, 19);
            }
            assert(is_digit(chars@[first + k]));
        }
        let digit: u8 = (chars[first + k] as u8) - ('0' as u8);
        value = value * 10 + digit as u128;
        k += 1;
    }
    assert(value < 10_000_000_000_000_000_000) by {
        reveal_with_fuel(pow10, 20);
    }
    let decimals: u128 = decimals_of(chars, at) as u128;
    let negative: bool = at + 1 < n && chars[at + 1] == '-';
    let in_range: bool = if negative {
        value + decimals <= isize::MAX as u128 + 1
    } else {
        value <= isize::MAX as u128 + decimals
    };
    if in_range {
        (true, Some(first + count))
    } else {
        (true, None)
    }
}

/// How many decimals the number before the exponent opened at `at` has.
fn decimals_of(chars: &Vec<char>, at: usize) -> (decimals: usize)
    requires
        at < chars.len(),
    ensures
        decimals == decimals_before(chars@, at as int),
{
    let start: usize = run_start(chars, at);
    let count: usize = at - start;
    if count > 0 && start >= 2 && chars[start - 1] == '.' && '0' <= chars[start - 2] && chars[start
        - 2] <= '9' {
        count
    } else {
        0
    }
}

/// The first exponent among the characters that is too large to be
/// evaluated: where it is opened, where its digits end, and whether a long
/// exponent stands before it.
#[verifier::rlimit(30)]
fn first_too_large(chars: &Vec<char>) -> (found: Option<(usize, usize, bool)>)
    ensures
        match found {
            Some((at, end, long_before)) => is_first_too_large(chars@, at as int) && end
                == exponent_end(chars@, at as int) && at < end <= chars.len() && long_before
                == long_exponent_before(chars@, at as int),
            None => forall|at: int| #[trigger]
                exponent_at(chars@, at) ==> !exponent_too_large(chars@, at),
        },
{
    let mut at: usize = 0;
    let mut long_before: bool = false;
    while at < chars.len()
        invariant
            at <= chars.len(),
            forall|k: int|
                0 <= k < at && #[trigger] exponent_at(chars@, k) ==> !exponent_too_large(chars@, k),
            long_before == long_exponent_before(chars@, at as int),
        decreases chars.len() - at,
    {
        let mut long: bool = false;
        if opens_exponent(chars, at) {
            let (is_long, end) = measure_exponent(chars, at);
            match end {
                Some(end) => {
                    return Some((at, end, long_before));
                },
                None => {},
            }
            long = is_long;
        }
        proof {
            assert(long == exponent_is_long(chars@, at as int));
            if long_exponent_before(chars@, at + 1) {
                let j = choose|j: int| 0 <= j < at + 1 && #[trigger] exponent_is_long(chars@, j);
                assert(j == at || long_exponent_before(chars@, at as int));
            }
        }
        long_before = long_before || long;
        at += 1;
    }
    None
}

/// Where the characters that follow position `end` and are not read as
/// digits end. Of a character beyond ASCII the evaluation is asked.
#[verifier::rlimit(30)]
fn unit_stop(text: &str, chars: &Vec<char>, end: usize) -> (stop: usize)
    requires
        chars@ == text@,
        end <= chars.len(),
    ensures
        stop == end + unit_run(text@, end as int),
        end <= stop <= chars.len(),
{
    let n: usize = chars.len();
    let mut stop: usize = end;
    let mut found: bool = false;
    while stop < n && !found
        invariant
            end <= stop <= n,
            n == chars.len(),
            chars@ == text@,
            unit_run(chars@, end as int) == (stop - end) + unit_run(chars@, stop as int),
            found ==> stop < n && reads_as_digit(chars@[stop as int]),
        decreases n - stop + (if found { 0int } else { 1int }),
    {
        let c: char = chars[stop];
        let is_digit: bool = if (c as u32) < 128 {
            '0' <= c && c <= '9'
        } else {
            let alone = text.substring_char(stop, stop + 1);
            assert(alone@ =~= seq![c]);
            match eval_duration_expr(alone) {
                Err((RefusalKind::ParseInt, _)) => true,
                _ => false,
            }
        };
        if is_digit {
            found = true;
        } else {
            stop += 1;
        }
    }
    stop
}

/// The text without the exponent opened at `at`, whose digits end at `end`,
/// with what follows them up to `stop`.
fn probe_of(text: &str, at: usize, end: usize, stop: usize) -> (probe: String)
    requires
        at < end <= stop <= text@.len(),
    ensures
        probe@ == text@.subrange(0, at as int) + text@.subrange(end as int, stop as int) + seq![
            ' ',
            '1',
            's',
        ],
{
    let mut probe = String::from_str(text.substring_char(0, at));
    probe.append(text.substring_char(end, stop));
    probe.append(" 1s");
    proof {
        reveal_strlit(" 1s");
        assert(" 1s"@ =~= seq![' ', '1', 's']);
    }
    probe
}

/// No run of digits goes beyond a character that is no digit, and two texts
/// that agree up to such a character have the same runs before it.
proof fn lemma_runs_agree(a: Seq<char>, b: Seq<char>, p: int, at: int)
    requires
        0 <= p <= at,
        at < a.len(),
        at < b.len(),
        forall|i: int| 0 <= i < at ==> a[i] == b[i],
        !is_digit(a[at]),
        !is_digit(b[at]),
    ensures
        digit_run(a, p) == digit_run(b, p),
        zero_run(a, p) == zero_run(b, p),
        digit_run(a, p) <= at - p,
        zero_run(a, p) <= at - p,
    decreases at - p,
{
    if p < at {
        lemma_runs_agree(a, b, p + 1, at);
    }
}

/// Two texts that agree up to a position have the same digits right before
/// any position up to it.
proof fn lemma_digits_before_agree(a: Seq<char>, b: Seq<char>, end: int, at: int)
    requires
        0 <= end <= at,
        at <= a.len(),
        at <= b.len(),
        forall|i: int| 0 <= i < at ==> a[i] == b[i],
    ensures
        digits_before(a, end) == digits_before(b, end),
        digits_before(a, end) <= end,
    decreases end,
{
    if end > 0 {
        lemma_digits_before_agree(a, b, end - 1, at);
    }
}

/// Two texts that agree up to a position write the same numbers before it.
proof fn lemma_values_agree(a: Seq<char>, b: Seq<char>, from: int, count: nat, at: int)
    requires
        0 <= from,
        from + count <= at,
        at <= a.len(),
        at <= b.len(),
        forall|i: int| 0 <= i < at ==> a[i] == b[i],
    ensures
        digits_value(a, from, count) == digits_value(b, from, count),
    decreases count,
{
    if count > 0 {
        lemma_values_agree(a, b, from, (count - 1) as nat, at);
    }
}

/// A run of digits fits into its text, and so does a run of characters
/// that are not read as digits, none of which is a digit.
proof fn lemma_runs_fit(text: Seq<char>, from: int)
    requires
        0 <= from,
    ensures
        from + digit_run(text, from) <= text.len() || digit_run(text, from) == 0,
        from + unit_run(text, from) <= text.len() || unit_run(text, from) == 0,
        forall|i: int| from <= i < from + unit_run(text, from) ==> !is_digit(#[trigger] text[i]),
    decreases text.len() - from,
{
    if from < text.len() {
        lemma_runs_fit(text, from + 1);
    }
}

/// Two texts that agree up to a character that is no digit in either have
/// the same exponents before it, of the same sizes.
#[verifier::rlimit(30)]
proof fn lemma_same_exponent_before(a: Seq<char>, b: Seq<char>, j: int, at: int)
    requires
        0 < j,
        j + 1 < at,
        at < a.len(),
        at < b.len(),
        forall|i: int| 0 <= i < at ==> a[i] == b[i],
        !is_digit(a[at]),
        !is_digit(b[at]),
    ensures
        exponent_at(a, j) == exponent_at(b, j),
        exponent_too_large(a, j) == exponent_too_large(b, j),
{
    lemma_digits_before_agree(a, b, j, at);
    lemma_digits_before_agree(a, b, j - 1, at);
    assert(exponent_at(a, j) == exponent_at(b, j));
    let from = exponent_digits_from(a, j);
    assert(from == exponent_digits_from(b, j));
    lemma_runs_agree(a, b, from, at);
    let first = from + zero_run(a, from);
    lemma_runs_agree(a, b, first, at);
    assert(decimals_before(a, j) == decimals_before(b, j));
    assert(exponent_is_negative(a, j) == exponent_is_negative(b, j));
    if digit_run(a, first) == MAX_EXPONENT_DIGITS + 1 {
        lemma_values_agree(a, b, first, (MAX_EXPONENT_DIGITS + 1) as nat, at);
    }
}

/// Where the only digit from a position on is the last character but one,
/// no exponent from there on is too large.
proof fn lemma_no_exponent_behind(b: Seq<char>, j: int, at: int)
    requires
        0 <= at <= j,
        b.len() >= 2,
        forall|i: int| at <= i < b.len() && is_digit(#[trigger] b[i]) ==> i == b.len() - 2,
    ensures
        !exponent_too_large(b, j),
{
    let from = exponent_digits_from(b, j);
    let first = from + zero_run(b, from);
    if first < b.len() && is_digit(b[first]) {
        assert(first == b.len() - 2);
        assert(!is_digit(b[first + 1]));
        assert(digit_run(b, first + 1) == 0);
        assert(digit_run(b, first) == 1);
    } else {
        assert(digit_run(b, first) == 0);
    }
}

/// The text without the exponent opened at `at` is the text up to `at`, and
/// then holds no digit but the one that closes it.
#[verifier::rlimit(30)]
proof fn lemma_without_exponent_shape(text: Seq<char>, at: int)
    requires
        0 < at < text.len(),
        exponent_too_large(text, at),
    ensures
        without_exponent(text, at).len() > at + 2,
        forall|i: int| 0 <= i < at ==> without_exponent(text, at)[i] == text[i],
        forall|i: int|
            at <= i < without_exponent(text, at).len() && is_digit(
                #[trigger] without_exponent(text, at)[i],
            ) ==> i == without_exponent(text, at).len() - 2,
{
    let from = exponent_digits_from(text, at);
    let first = from + zero_run(text, from);
    let end = exponent_end(text, at);
    let stop = end + unit_run(text, end);
    let rest = without_exponent(text, at);
    lemma_runs_fit(text, first);
    lemma_runs_fit(text, end);
    assert(end <= text.len());
    assert(stop <= text.len());
    assert(rest.len() == at + (stop - end) + 3);
    assert forall|i: int| at <= i < rest.len() && is_digit(#[trigger] rest[i]) implies i
        == rest.len() - 2 by {
        if i < at + (stop - end) {
            assert(rest[i] == text[end + (i - at)]);
            assert(!is_digit(text[end + (i - at)]));
        }
    }
}

/// The text without its first exponent that is too large has no exponent
/// that is too large.
#[verifier::rlimit(30)]
proof fn lemma_without_exponent_is_evaluable(text: Seq<char>, at: int)
    requires
        is_first_too_large(text, at),
    ensures
        exponents_evaluable(without_exponent(text, at)),
{
    let rest = without_exponent(text, at);
    lemma_without_exponent_shape(text, at);
    assert(!is_digit(text[at]));
    assert(!is_digit(rest[at]));
    assert forall|j: int| #[trigger] exponent_at(rest, j) implies !exponent_too_large(rest, j) by {
        if j < at {
            assert(rest[j] == text[j]);
            assert(j + 1 < at);
            lemma_same_exponent_before(text, rest, j, at);
        } else {
            lemma_no_exponent_behind(rest, j, at);
        }
    }
}

/// At which step the evaluation of a duration expression refuses a text.
/// All but the last come while the evaluation goes through the numbers of
/// the text one by one; the last can also come at the end, when it adds up
/// what it has read.
#[derive(Debug, Clone, Copy, PartialEq, Eq, Structural)]
pub enum RefusalKind {
    /// A number or an exponent is not read as an integer.
    ParseInt,
    /// The unit of a number is not known.
    UnknownUnit,
    /// A number has no unit.
    NoUnitFound,
    /// The text holds no number.
    NoValueFound,
    /// An exponent or the sum is beyond the range of what is held.
    OutOfBounds,
}

/// What the evaluation of a duration expression ends in: its whole seconds
/// and the nanoseconds below the second, or the step at which the text is
/// refused and the reason as the evaluation words it.
pub uninterp spec fn duration_expr_outcome(expr: Seq<char>) -> Result<
    (u64, u32),
    (RefusalKind, Seq<char>),
>;

/// Whether an outcome in hand is the named one: the same parts, or the same
/// step and a reason of the same text.
pub open spec fn same_outcome(
    outcome: Result<(u64, u32), (RefusalKind, String)>,
    named: Result<(u64, u32), (RefusalKind, Seq<char>)>,
) -> bool {
    match outcome {
        Ok(parts) => named == Ok::<(u64, u32), (RefusalKind, Seq<char>)>(parts),
        Err((kind, reason)) => named == Err::<(u64, u32), (RefusalKind, Seq<char>)>(
            (kind, reason@),
        ),
    }
}

/// Evaluates a duration expression with `parse_duration::parse`, and takes
/// the variant and the text of the error where it returns one.
///
/// The call is a function of the text alone, so its outcome has a name,
/// [`duration_expr_outcome`]; what is claimed beyond that is that the
/// nanoseconds handed out stay below one second, as
/// `std::time::Duration::subsec_nanos` promises. A text with an exponent
/// that is too large to be evaluated is kept away from the call, unless the
/// evaluation ends before it comes to that exponent: the call raises ten to
/// the power before it looks at the size of the result.
#[verifier::external_body]
fn eval_duration_expr(expr: &str) -> (outcome: Result<(u64, u32), (RefusalKind, String)>)
    requires
        exponents_evaluable(expr@),
    ensures
        same_outcome(outcome, duration_expr_outcome(expr@)),
        outcome matches Ok(parts) ==> parts.1 < NANOS_PER_SEC,
{
    match parse_duration::parse(expr) {
        Ok(span) => Ok((span.as_secs(), span.subsec_nanos())),
        Err(err) => {
            let kind = match &err {
                parse_duration::parse::Error::ParseInt(_) => RefusalKind::ParseInt,
                parse_duration::parse::Error::UnknownUnit(_) => RefusalKind::UnknownUnit,
                parse_duration::parse::Error::NoUnitFound(_) => RefusalKind::NoUnitFound,
                parse_duration::parse::Error::NoValueFound(_) => RefusalKind::NoValueFound,
                parse_duration::parse::Error::OutOfBounds(_) => RefusalKind::OutOfBounds,
            };
            Err((kind, err.to_string()))
        },
    }
}

/// What the evaluation of a text ends in, as this library hands it on: the
/// parts of the span, or the reason of the refusal. The reason is the
/// library's own where the text cannot be evaluated for an exponent, else
/// the one that the evaluation gives.
pub open spec fn spec_evaluate(text: Seq<char>) -> Result<(u64, u32), Seq<char>> {
    if !exponents_evaluable(text) {
        Err(EXPONENT_OUT_OF_RANGE@)
    } else {
        match duration_expr_outcome(text) {
            Ok(parts) => Ok(parts),
            Err((_, reason)) => Err(reason),
        }
    }
}

/// Evaluates a duration expression: its whole seconds and the nanoseconds
/// below the second, or the reason for which it is refused.
#[verifier::rlimit(30)]
pub fn evaluate(text: &str) -> (outcome: Result<(u64, u32), String>)
    ensures
        match outcome {
            Ok(parts) => spec_evaluate(text@) == Ok::<(u64, u32), Seq<char>>(parts) && parts.1
                < NANOS_PER_SEC,
            Err(reason) => spec_evaluate(text@) == Err::<(u64, u32), Seq<char>>(reason@),
        },
{
    let chars = chars_of(text);
    match first_too_large(&chars) {
        Some((at, end, long_before)) => {
            let stops = if long_before {
                true
            } else {
                let stop = unit_stop(text, &chars, end);
                let probe = probe_of(text, at, end, stop);
                proof {
                    lemma_without_exponent_is_evaluable(text@, at as int);
                }
                match eval_duration_expr(probe.as_str()) {
                    Ok(_) => false,
                    Err((RefusalKind::OutOfBounds, _)) => false,
                    Err(_) => true,
                }
            };
            assert(stops == evaluation_stops_before(text@, at as int));
            if !stops {
                return Err(String::from_str(EXPONENT_OUT_OF_RANGE));
            }
            assert forall|other: int| #[trigger] is_first_too_large(text@, other) implies other
                == at by {
                if other < at {
                    assert(exponent_at(text@, other));
                } else if at < other {
                    assert(exponent_at(text@, at as int));
                }
            }
        },
        None => {},
    }
    match eval_duration_expr(text) {
        Ok(parts) => Ok(parts),
        Err((_, reason)) => Err(reason),
    }
}

} // verus!
