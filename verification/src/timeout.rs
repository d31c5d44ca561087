//! How long a receive may wait, and the text form of that policy.

use crate::duration::Duration;
use crate::duration::{MILLIS_PER_SEC, NANOS_PER_MILLI, NANOS_PER_SEC};
use crate::expression::{evaluate, spec_evaluate};
use crate::text::chars_of;
use vstd::prelude::*;
use vstd::string::StringExecFns;

verus! {

/// The seconds that a receive without a time limit is given when the limit
/// has to be written as a span: the largest raw timeout, in whole seconds.
pub const NEVER_SECS: u64 = 9_223_372_036_854_775;

/// How long a receive waits for a message.
#[derive(Debug, Clone, Copy, PartialEq, Eq, Structural)]
pub enum Timeout {
    /// Wait until a message arrives.
    Never,
    /// Do not wait: return at once when nothing is available.
    NoWait,
    /// Wait up to the given span.
    Duration(Duration),
}

/// Why a text is not a timeout.
#[derive(Debug, PartialEq, Eq)]
pub enum TimeoutError {
    /// The text was empty.
    Empty,
    /// The text is neither a keyword nor a duration expression: the text, and
    /// the reason it was refused.
    Invalid(String, String),
}

/// The lower-case form of an ASCII letter; any other character is itself.
pub open spec fn ascii_lower(c: char) -> char {
    if 'A' <= c && c <= 'Z' {
        ((c as u8) + 32) as char
    } else {
        c
    }
}

/// Whether two texts are the same but for the case of their ASCII letters.
pub open spec fn eq_ignore_ascii_case(a: Seq<char>, b: Seq<char>) -> bool {
    &&& a.len() == b.len()
    &&& forall|i: int| 0 <= i < a.len() ==> ascii_lower(#[trigger] a[i]) == ascii_lower(b[i])
}

/// The lower-case form of an ASCII letter.
fn lower(c: char) -> (l: char)
    ensures
        l == ascii_lower(c),
{
    if 'A' <= c && c <= 'Z' {
        ((c as u8) + 32) as char
    } else {
        c
    }
}

/// Whether the characters spell `keyword`, in any case of its letters.
fn matches_keyword(chars: &Vec<char>, keyword: &str) -> (same: bool)
    ensures
        same == eq_ignore_ascii_case(chars@, keyword@),
{
    let word = chars_of(keyword);
    if chars.len() != word.len() {
        return false;
    }
    let mut i: usize = 0;
    while i < chars.len()
        invariant
            i <= chars.len(),
            chars.len() == word.len(),
            word@ == keyword@,
            forall|k: int| 0 <= k < i ==> ascii_lower(#[trigger] chars@[k]) == ascii_lower(word@[k]),
        decreases chars.len() - i,
    {
        if lower(chars[i]) != lower(word[i]) {
            return false;
        }
        i += 1;
    }
    true
}

impl Timeout {
    /// The raw form of a timeout: `-1` to wait without limit, `0` not to wait,
    /// else the span in whole milliseconds, held at the largest raw value
    /// where it exceeds it.
    pub open spec fn spec_raw_timeout(self) -> int {
        match self {
            Timeout::Never => -1,
            Timeout::NoWait => 0,
            Timeout::Duration(span) => if span.spec_millis() <= i64::MAX {
                span.spec_millis() as int
            } else {
                i64::MAX as int
            },
        }
    }

    /// What a text stands for: the timeout, or nothing where the text is
    /// refused.
    pub open spec fn spec_parse(text: Seq<char>) -> Option<Timeout> {
        if text.len() == 0 {
            None
        } else if eq_ignore_ascii_case(text, "never"@) {
            Some(Timeout::Never)
        } else if eq_ignore_ascii_case(text, "none"@) {
            Some(Timeout::NoWait)
        } else {
            match spec_evaluate(text) {
                Ok((secs, nanos)) => Some(Timeout::Duration(Duration::spec_from_parts(secs, nanos))),
                Err(_) => None,
            }
        }
    }

    /// The reason with which a text that is neither empty nor a keyword is
    /// refused: the one that its evaluation as a duration expression gives.
    pub open spec fn spec_refusal(text: Seq<char>) -> Seq<char> {
        match spec_evaluate(text) {
            Ok(_) => Seq::empty(),
            Err(reason) => reason,
        }
    }

    /// Wait up to `secs` seconds.
    pub fn from_secs(secs: u64) -> (timeout: Timeout)
        ensures
            timeout matches Timeout::Duration(span) && span.spec_secs() == secs
                && span.spec_subsec_nanos() == 0 && span@ == secs * NANOS_PER_SEC,
    {
        Timeout::Duration(Duration::from_secs(secs))
    }

    /// Wait up to `millis` milliseconds.
    pub fn from_millis(millis: u64) -> (timeout: Timeout)
        ensures
            timeout matches Timeout::Duration(span) && span.spec_secs() == millis / MILLIS_PER_SEC
                && span.spec_subsec_nanos() == (millis % MILLIS_PER_SEC) * NANOS_PER_MILLI && span@
                == millis * NANOS_PER_MILLI && span.spec_millis() == millis,
    {
        Timeout::Duration(Duration::from_millis(millis))
    }

    /// Wait until a message arrives.
    pub fn never() -> (timeout: Timeout)
        ensures
            timeout == Timeout::Never,
    {
        Timeout::Never
    }

    /// Do not wait.
    pub fn none() -> (timeout: Timeout)
        ensures
            timeout == Timeout::NoWait,
    {
        Timeout::NoWait
    }

    /// The raw timeout in milliseconds that lower layers take.
    pub fn as_raw_timeout(&self) -> (raw: i64)
        ensures
            raw == self.spec_raw_timeout(),
    {
        match self {
            Timeout::Never => -1,
            Timeout::NoWait => 0,
            Timeout::Duration(span) => {
                let millis: u128 = span.as_millis();
                if millis > i64::MAX as u128 {
                    i64::MAX
                } else {
                    millis as i64
                }
            },
        }
    }

    /// The timeout as a span: a very long but finite one for
    /// [`Timeout::Never`], an empty one for [`Timeout::NoWait`], and the span
    /// itself otherwise.
    pub fn as_duration(&self) -> (span: Duration)
        ensures
            match *self {
                Timeout::Never => span.spec_secs() == NEVER_SECS && span.spec_subsec_nanos() == 0,
                Timeout::NoWait => span.spec_secs() == 0 && span.spec_subsec_nanos() == 0,
                Timeout::Duration(given) => span == given,
            },
    {
        match self {
            Timeout::Never => Duration::from_secs(NEVER_SECS),
            Timeout::NoWait => Duration::from_secs(0),
            Timeout::Duration(span) => *span,
        }
    }

    /// The timeout that the evaluation of a duration expression gives: the
    /// span where it has a value, else the refusal of `expr` with the
    /// evaluator's reason.
    pub fn from_evaluated(expr: &str, outcome: Result<Duration, String>) -> (parsed: Result<
        Timeout,
        TimeoutError,
    >)
        ensures
            match outcome {
                Ok(span) => parsed == Ok::<Timeout, TimeoutError>(Timeout::Duration(span)),
                Err(reason) => parsed matches Err(TimeoutError::Invalid(text, why)) && text@
                    == expr@ && why == reason,
            },
    {
        match outcome {
            Ok(span) => Ok(Timeout::Duration(span)),
            Err(reason) => Err(TimeoutError::Invalid(String::from_str(expr), reason)),
        }
    }

    /// Reads a timeout from its text form: `never` or `none` in any case of
    /// letters, or a duration expression such as `500ms` or `5s`.
    ///
    /// A duration expression is what [`evaluate`] takes for one, and is
    /// refused with the reason that it gives.
    pub fn from_str(text: &str) -> (parsed: Result<Timeout, TimeoutError>)
        ensures
            match parsed {
                Ok(timeout) => Timeout::spec_parse(text@) == Some(timeout),
                Err(TimeoutError::Empty) => text@.len() == 0,
                Err(TimeoutError::Invalid(refused, reason)) => text@.len() > 0
                    && Timeout::spec_parse(text@) is None && refused@ == text@ && reason@
                    == Timeout::spec_refusal(text@),
            },
    {
        let chars = chars_of(text);
        if chars.len() == 0 {
            return Err(TimeoutError::Empty);
        }
        if matches_keyword(&chars, "never") {
            return Ok(Timeout::Never);
        }
        if matches_keyword(&chars, "none") {
            return Ok(Timeout::NoWait);
        }
        match evaluate(text) {
            Ok((secs, nanos)) => {
                let span = Duration::new(secs, nanos).unwrap();
                Timeout::from_evaluated(text, Ok(span))
            },
            Err(reason) => Timeout::from_evaluated(text, Err(reason)),
        }
    }
}

impl core::str::FromStr for Timeout {
    type Err = TimeoutError;

    /// Reads a timeout as [`Timeout::from_str`] does.
    fn from_str(text: &str) -> (parsed: Result<Timeout, TimeoutError>)
        ensures
            match parsed {
                Ok(timeout) => Timeout::spec_parse(text@) == Some(timeout),
                Err(TimeoutError::Empty) => text@.len() == 0,
                Err(TimeoutError::Invalid(refused, reason)) => text@.len() > 0
                    && Timeout::spec_parse(text@) is None && refused@ == text@ && reason@
                    == Timeout::spec_refusal(text@),
            },
    {
        Timeout::from_str(text)
    }
}

/// The raw form of a timeout tells what kind it is: `-1` stands for waiting
/// without limit and for nothing else, no span has a negative raw form, and
/// `0` stands for not waiting or for a span below one millisecond.
pub proof fn lemma_raw_timeout_by_kind(timeout: Timeout)
    ensures
        timeout.spec_raw_timeout() == -1 <==> timeout is Never,
        timeout is NoWait ==> timeout.spec_raw_timeout() == 0,
        timeout matches Timeout::Duration(span) ==> 0 <= timeout.spec_raw_timeout() <= i64::MAX,
        timeout matches Timeout::Duration(span) ==> span.spec_millis() <= i64::MAX
            ==> timeout.spec_raw_timeout() == span.spec_millis(),
        timeout.spec_raw_timeout() == 0 <==> timeout is NoWait || (timeout matches Timeout::Duration(
            span,
        ) && span.spec_millis() == 0),
{
}

/// Among the timeouts that are not a span below one millisecond, the raw form
/// is `-1` exactly for waiting without limit, `0` exactly for not waiting,
/// and the count of milliseconds for a span.
pub proof fn lemma_raw_timeout_identifies(timeout: Timeout)
    requires
        !(timeout matches Timeout::Duration(span) && span.spec_millis() == 0),
    ensures
        timeout.spec_raw_timeout() == -1 <==> timeout is Never,
        timeout.spec_raw_timeout() == 0 <==> timeout is NoWait,
        timeout.spec_raw_timeout() > 0 <==> timeout is Duration,
        timeout matches Timeout::Duration(span) ==> span.spec_millis() <= i64::MAX
            ==> timeout.spec_raw_timeout() == span.spec_millis(),
{
}

/// A text is read as a timeout exactly when it is a keyword, or a duration
/// expression that has a value; the empty text is refused.
pub proof fn lemma_parse_accepts(text: Seq<char>)
    ensures
        text.len() == 0 ==> Timeout::spec_parse(text) is None,
        Timeout::spec_parse(text) is Some <==> text.len() > 0 && (eq_ignore_ascii_case(
            text,
            "never"@,
        ) || eq_ignore_ascii_case(text, "none"@) || spec_evaluate(text) is Ok),
        Timeout::spec_parse(text) == Some(Timeout::Never) <==> text.len() > 0
            && eq_ignore_ascii_case(text, "never"@),
        Timeout::spec_parse(text) == Some(Timeout::NoWait) <==> text.len() > 0
            && eq_ignore_ascii_case(text, "none"@),
{
    reveal_strlit("never");
    reveal_strlit("none");
}

/// Keywords are read without regard to the case of their letters: a text
/// that differs from a keyword only in the case of its letters stands for
/// the same timeout.
pub proof fn lemma_keywords_ignore_case(keyword: Seq<char>, text: Seq<char>)
    requires
        eq_ignore_ascii_case(keyword, text),
        Timeout::spec_parse(keyword) == Some(Timeout::Never) || Timeout::spec_parse(keyword)
            == Some(Timeout::NoWait),
    ensures
        Timeout::spec_parse(text) == Timeout::spec_parse(keyword),
{
    lemma_parse_accepts(keyword);
    lemma_parse_accepts(text);
    let never = "never"@;
    let none = "none"@;
    reveal_strlit("never");
    reveal_strlit("none");
    if eq_ignore_ascii_case(keyword, never) {
        assert forall|i: int| 0 <= i < text.len() implies ascii_lower(#[trigger] text[i])
            == ascii_lower(never[i]) by {
            assert(ascii_lower(keyword[i]) == ascii_lower(text[i]));
            assert(ascii_lower(keyword[i]) == ascii_lower(never[i]));
        }
    } else {
        assert forall|i: int| 0 <= i < text.len() implies ascii_lower(#[trigger] text[i])
            == ascii_lower(none[i]) by {
            assert(ascii_lower(keyword[i]) == ascii_lower(text[i]));
            assert(ascii_lower(keyword[i]) == ascii_lower(none[i]));
        }
    }
}

impl TimeoutError {
    /// What the message of an error says.
    pub open spec fn spec_message(self) -> Seq<char> {
        match self {
            TimeoutError::Empty => "empty timeout value"@,
            TimeoutError::Invalid(text, why) => "invalid timeout expression `"@ + text@ + "`: "@
                + why@,
        }
    }

    /// The message of the error.
    pub fn message(&self) -> (message: String)
        ensures
            message@ == self.spec_message(),
    {
        match self {
            TimeoutError::Empty => String::from_str("empty timeout value"),
            TimeoutError::Invalid(text, why) => {
                let mut message = String::from_str("invalid timeout expression `");
                message.append(text.as_str());
                message.append("`: ");
                message.append(why.as_str());
                message
            },
        }
    }
}

} // verus!
