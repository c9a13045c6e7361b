//! Reading the mixer's status line: mute state and volume percentage.
use vstd::prelude::*;
use vstd::std_specs::iter::IteratorSpec;

verus! {

/// What went wrong while reading a status line.
#[derive(PartialEq, Eq, Structural, Debug, Clone, Copy)]
pub enum ParseErrorKind {
    /// The line holds no `[`.
    MalformedOutput,
    /// The part from the first `[` holds neither `on` nor `off`.
    AmbiguousMuteState,
    /// The digits of an unmuted line do not form a valid `i32`.
    InvalidPercentage,
}

/// An error from reading a status line, with a message for people.
#[derive(Debug, Clone)]
pub struct ParseError {
    pub kind: ParseErrorKind,
    pub message: String,
}

/// What a well-formed status line says.
#[derive(PartialEq, Eq, Structural, Debug, Clone, Copy)]
pub enum StatusReading {
    /// The channel is on, at this percentage.
    Unmuted(i32),
    /// The channel is off; the line's percentage is not read.
    Muted,
}

pub open spec fn is_digit(c: char) -> bool {
    '0' <= c && c <= '9'
}

pub open spec fn digit_value(c: char) -> nat {
    (c as u32 - '0' as u32) as nat
}

/// The part of `s` from its first `[` to its end, if `s` holds a `[`.
pub open spec fn bracket_segment(s: Seq<char>) -> Option<Seq<char>>
    decreases s.len(),
{
    if s.len() == 0 {
        None
    } else if s[0] == '[' {
        Some(s)
    } else {
        bracket_segment(s.drop_first())
    }
}

/// `t` occurs in `s` starting at position `i`.
pub open spec fn occurs_at(s: Seq<char>, t: Seq<char>, i: int) -> bool {
    0 <= i && i + t.len() <= s.len() && s.subrange(i, i + t.len()) == t
}

pub open spec fn contains(s: Seq<char>, t: Seq<char>) -> bool {
    exists|i: int| occurs_at(s, t, i)
}

pub open spec fn on_token() -> Seq<char> {
    seq!['o', 'n']
}

pub open spec fn off_token() -> Seq<char> {
    seq!['o', 'f', 'f']
}

/// The decimal digits of `s`, in order.
pub open spec fn digits_of(s: Seq<char>) -> Seq<char>
    decreases s.len(),
{
    if s.len() == 0 {
        seq![]
    } else if is_digit(s.last()) {
        digits_of(s.drop_last()).push(s.last())
    } else {
        digits_of(s.drop_last())
    }
}

/// The number that a string of decimal digits denotes.
pub open spec fn digits_value(d: Seq<char>) -> nat
    decreases d.len(),
{
    if d.len() == 0 {
        0
    } else {
        digits_value(d.drop_last()) * 10 + digit_value(d.last())
    }
}

/// The percentage an unmuted segment carries, if its digits form a valid `i32`.
pub open spec fn percent_of(seg: Seq<char>) -> Option<i32> {
    let d = digits_of(seg);
    if d.len() > 0 && digits_value(d) <= i32::MAX {
        Some(digits_value(d) as i32)
    } else {
        None
    }
}

/// What reading `line` gives: the mute state and, when unmuted, the percentage.
pub open spec fn status_of(line: Seq<char>) -> Result<StatusReading, ParseErrorKind> {
    match bracket_segment(line) {
        None => Err(ParseErrorKind::MalformedOutput),
        Some(seg) => if contains(seg, on_token()) {
            match percent_of(seg) {
                Some(p) => Ok(StatusReading::Unmuted(p)),
                None => Err(ParseErrorKind::InvalidPercentage),
            }
        } else if contains(seg, off_token()) {
            Ok(StatusReading::Muted)
        } else {
            Err(ParseErrorKind::AmbiguousMuteState)
        },
    }
}

/// std's description of why `raw` does not parse as an `i32`.
pub uninterp spec fn parse_failure_text(raw: Seq<char>) -> Seq<char>;

/// The message of an `InvalidPercentage` error: the digit string `raw`, then
/// the parse failure described by `detail`.
pub open spec fn invalid_percentage_text(raw: Seq<char>, detail: Seq<char>) -> Seq<char> {
    "couldn't parse volume from `"@ + raw + "`: "@ + detail
}

/// Whether `msg` is the message for an error of `kind` on `line`.
pub open spec fn error_message_fits(kind: ParseErrorKind, line: Seq<char>, msg: Seq<char>) -> bool {
    match kind {
        ParseErrorKind::MalformedOutput => msg == "couldn't parse mixer output"@,
        ParseErrorKind::AmbiguousMuteState => msg
            == "couldn't parse if volume is definitely muted or not"@,
        ParseErrorKind::InvalidPercentage => {
            let raw = digits_of(bracket_segment(line)->0);
            msg == invalid_percentage_text(raw, parse_failure_text(raw))
        },
    }
}

proof fn lemma_digits_are_digits(s: Seq<char>)
    ensures
        forall|i: int| 0 <= i < digits_of(s).len() ==> is_digit(#[trigger] digits_of(s)[i]),
    decreases s.len(),
{
    if s.len() > 0 {
        let d = digits_of(s.drop_last());
        lemma_digits_are_digits(s.drop_last());
        assert forall|i: int| 0 <= i < digits_of(s).len() implies is_digit(
            #[trigger] digits_of(s)[i],
        ) by {
            if i < d.len() {
                assert(digits_of(s)[i] == d[i]);
            }
        }
    }
}

proof fn lemma_bracket_segment_at(s: Seq<char>, i: int)
    requires
        0 <= i < s.len(),
        s[i] == '[',
        forall|j: int| 0 <= j < i ==> s[j] != '[',
    ensures
        bracket_segment(s) == Some(s.subrange(i, s.len() as int)),
    decreases i,
{
    if i > 0 {
        lemma_bracket_segment_at(s.drop_first(), i - 1);
        assert(s.drop_first().subrange(i - 1, s.len() - 1) =~= s.subrange(i, s.len() as int));
    } else {
        assert(s.subrange(0, s.len() as int) =~= s);
    }
}

proof fn lemma_bracket_segment_none(s: Seq<char>)
    requires
        forall|j: int| 0 <= j < s.len() ==> s[j] != '[',
    ensures
        bracket_segment(s) is None,
    decreases s.len(),
{
    if s.len() > 0 {
        lemma_bracket_segment_none(s.drop_first());
    }
}

/// The characters of `s`, in order.
pub(crate) fn chars_of(s: &str) -> (r: Vec<char>)
    ensures
        r@ == s@,
{
    broadcast use vstd::string::axiom_spec_iter, vstd::string::next_postcondition;
    let mut it = s.chars();
    let mut r: Vec<char> = Vec::new();
    loop
        invariant
            r@ + it.remaining() == s@,
            it.decrease() is Some,
        ensures
            r@ == s@,
        decreases it.decrease()->0,
    {
        match it.next() {
            Some(c) => {
                r.push(c);
            },
            None => {
                assert(it.remaining().len() == 0);
                assert(r@ =~= s@);
                break;
            },
        }
    }
    r
}

/// The position of the first `c` in `v`, if any.
fn first_index_of(v: &Vec<char>, c: char) -> (r: Option<usize>)
    ensures
        match r {
            Some(i) => i < v@.len() && v@[i as int] == c && forall|j: int| 0 <= j < i ==> v@[j] != c,
            None => forall|j: int| 0 <= j < v@.len() ==> v@[j] != c,
        },
{
    let mut i: usize = 0;
    while i < v.len()
        invariant
            i <= v@.len(),
            forall|j: int| 0 <= j < i ==> v@[j] != c,
        decreases v@.len() - i,
    {
        if v[i] == c {
            return Some(i);
        }
        i = i + 1;
    }
    None
}

/// Whether `t` occurs at position `i` of `s`.
fn occurs_at_exec(s: &Vec<char>, t: &Vec<char>, i: usize) -> (r: bool)
    requires
        i + t@.len() <= s@.len(),
    ensures
        r == occurs_at(s@, t@, i as int),
{
    let mut k: usize = 0;
    let n: usize = s.len();
    while k < t.len()
        invariant
            i + t@.len() <= s@.len(),
            s@.len() <= usize::MAX,
            k <= t@.len(),
            forall|m: int| 0 <= m < k ==> s@[i + m] == t@[m],
        decreases t@.len() - k,
    {
        if s[i + k] != t[k] {
            assert(s@.subrange(i as int, i + t@.len())[k as int] != t@[k as int]);
            return false;
        }
        k = k + 1;
    }
    assert(s@.subrange(i as int, i + t@.len()) =~= t@);
    true
}

/// Whether `t` occurs anywhere in `s`.
fn contains_exec(s: &Vec<char>, t: &Vec<char>) -> (r: bool)
    ensures
        r == contains(s@, t@),
{
    if t.len() > s.len() {
        assert(forall|j: int| !occurs_at(s@, t@, j));
        return false;
    }
    let last: usize = s.len() - t.len();
    let mut i: usize = 0;
    loop
        invariant
            last == s@.len() - t@.len(),
            i <= last,
            forall|j: int| 0 <= j < i ==> !occurs_at(s@, t@, j),
        ensures
            forall|j: int| 0 <= j <= last ==> !occurs_at(s@, t@, j),
        decreases last - i,
    {
        if occurs_at_exec(s, t, i) {
            return true;
        }
        if i == last {
            break;
        }
        i = i + 1;
    }
    assert forall|j: int| !occurs_at(s@, t@, j) by {
        if 0 <= j <= last {
        }
    }
    false
}

/// The decimal digits of `s`, in order, as a string.
fn digit_string(s: &str) -> (r: String)
    ensures
        r@ == digits_of(s@),
{
    let v = chars_of(s);
    let mut r = String::new();
    let mut i: usize = 0;
    while i < v.len()
        invariant
            v@ == s@,
            i <= v@.len(),
            r@ == digits_of(s@.subrange(0, i as int)),
        decreases v@.len() - i,
    {
        assert(s@.subrange(0, i + 1).drop_last() =~= s@.subrange(0, i as int));
        let c = v[i];
        if '0' <= c && c <= '9' {
            let one = s.substring_char(i, i + 1);
            assert(one@ =~= seq![c]);
            r.append(one);
        }
        i = i + 1;
    }
    assert(s@.subrange(0, v@.len() as int) =~= s@);
    r
}

/// Relies on `str::parse::<i32>`: a string of ASCII digits parses exactly when
/// it is non-empty and its value fits in `i32`, and then to that value. A
/// failure is handed on as the text of its `Display`, which depends on the
/// string alone.
#[verifier::external_body]
fn parse_i32(raw: &str) -> (r: Result<i32, String>)
    requires
        forall|i: int| 0 <= i < raw@.len() ==> is_digit(#[trigger] raw@[i]),
    ensures
        r is Ok <==> (raw@.len() > 0 && digits_value(raw@) <= i32::MAX),
        r is Ok ==> r->Ok_0 == digits_value(raw@),
        r is Err ==> r->Err_0@ == parse_failure_text(raw@),
{
    match raw.parse::<i32>() {
        Ok(v) => Ok(v),
        Err(e) => Err(e.to_string()),
    }
}

/// The message of an `InvalidPercentage` error on the digit string `raw`,
/// whose parse failed as `detail` says.
fn invalid_percentage_message(raw: &str, detail: &str) -> (r: String)
    ensures
        r@ == invalid_percentage_text(raw@, detail@),
{
    let mut r = String::from_str("couldn't parse volume from `");
    r.append(raw);
    r.append("`: ");
    r.append(detail);
    r
}

/// Reads a status line of the mixer.
///
/// The part of the line from its first `[` decides: if it holds `on` the
/// channel is unmuted and all its decimal digits, joined, are the percentage;
/// otherwise, if it holds `off`, the channel is muted.
pub fn parse_status_line(line: &str) -> (r: Result<StatusReading, ParseError>)
    ensures
        match status_of(line@) {
            Ok(reading) => r == Ok::<StatusReading, ParseError>(reading),
            Err(kind) => r is Err && r->Err_0.kind == kind,
        },
        r is Err ==> error_message_fits(r->Err_0.kind, line@, r->Err_0.message@),
{
    let v = chars_of(line);
    match first_index_of(&v, '[') {
        None => {
            proof {
                lemma_bracket_segment_none(line@);
            }
            Err(
                ParseError {
                    kind: ParseErrorKind::MalformedOutput,
                    message: String::from_str("couldn't parse mixer output"),
                },
            )
        },
        Some(b) => {
            proof {
                lemma_bracket_segment_at(line@, b as int);
            }
            let seg_str = line.substring_char(b, v.len());
            let seg = chars_of(seg_str);
            let on = vec!['o', 'n'];
            let off = vec!['o', 'f', 'f'];
            assert(on@ =~= on_token());
            assert(off@ =~= off_token());
            if contains_exec(&seg, &on) {
                let raw = digit_string(seg_str);
                proof {
                    lemma_digits_are_digits(seg@);
                }
                match parse_i32(raw.as_str()) {
                    Ok(p) => Ok(StatusReading::Unmuted(p)),
                    Err(detail) => {
                        let message = invalid_percentage_message(raw.as_str(), detail.as_str());
                        Err(ParseError { kind: ParseErrorKind::InvalidPercentage, message })
                    },
                }
            } else if contains_exec(&seg, &off) {
                Ok(StatusReading::Muted)
            } else {
                Err(
                    ParseError {
                        kind: ParseErrorKind::AmbiguousMuteState,
                        message: String::from_str(
                            "couldn't parse if volume is definitely muted or not",
                        ),
                    },
                )
            }
        },
    }
}

} // verus!
