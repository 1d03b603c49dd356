//! The four threshold evaluators and the types they share.
//!
//! Each evaluator is a pure function from the measured quantity and its
//! configured bounds to a `CheckResult`; the three-way "no bound / warning
//! bound / warning+critical bound" comparison is factored into one shared
//! rule (`limits_state`) used by both time-like checks.
use vstd::prelude::*;

verus! {

/// The four-valued severity vocabulary of this plugin family.
#[derive(Clone, Copy, Debug, PartialEq, Eq, Structural)]
pub enum State {
    Okay,
    Warn,
    Crit,
    Unknown,
}

/// What one check dimension reports: a severity and a human-readable summary.
#[derive(Clone, Debug, PartialEq, Eq)]
pub struct CheckResult {
    pub state: State,
    pub summary: String,
}

/// Mathematical image of a `CheckResult`: the severity plus the summary's
/// character sequence.
pub ghost struct CheckView {
    pub state: State,
    pub summary: Seq<char>,
}

impl View for CheckResult {
    type V = CheckView;

    open spec fn view(&self) -> CheckView {
        CheckView { state: self.state, summary: self.summary@ }
    }
}

/// Acceptable range for the response body's byte count; `Unbounded` means no
/// constraint was configured.
#[derive(Clone, Copy, Debug, PartialEq, Eq, Structural)]
pub enum Bounds {
    Unbounded,
    Lower(usize),
    LowerUpper(usize, usize),
}

/// Thresholds for a time-like quantity; `Unbounded` means no constraint was
/// configured.
#[derive(Clone, Copy, Debug, PartialEq, Eq, Structural)]
pub enum Limits {
    Unbounded,
    Warn(u64),
    WarnCrit(u64, u64),
}

/// Severity of a measured quantity under `Limits`: comparison is inclusive,
/// so exact equality with a threshold triggers that threshold's severity.
pub open spec fn limits_state(value: u64, limits: Limits) -> State {
    match limits {
        Limits::Unbounded => State::Okay,
        Limits::Warn(w) => if value >= w {
            State::Warn
        } else {
            State::Okay
        },
        Limits::WarnCrit(w, c) => if value >= c {
            State::Crit
        } else if value >= w {
            State::Warn
        } else {
            State::Okay
        },
    }
}

/// Severity of a byte count under `Bounds`: out of range is WARNING.
pub open spec fn bounds_state(size: nat, bounds: Bounds) -> State {
    match bounds {
        Bounds::Unbounded => State::Okay,
        Bounds::Lower(min) => if size >= min {
            State::Okay
        } else {
            State::Warn
        },
        Bounds::LowerUpper(min, max) => if min <= size && size <= max {
            State::Okay
        } else {
            State::Warn
        },
    }
}

/// The character for one decimal digit.
pub open spec fn digit_char(d: nat) -> char {
    if d == 0 {
        '0'
    } else if d == 1 {
        '1'
    } else if d == 2 {
        '2'
    } else if d == 3 {
        '3'
    } else if d == 4 {
        '4'
    } else if d == 5 {
        '5'
    } else if d == 6 {
        '6'
    } else if d == 7 {
        '7'
    } else if d == 8 {
        '8'
    } else {
        '9'
    }
}

/// The decimal rendering of a number, without leading zeros (except for 0
/// itself).
pub open spec fn dec_str(n: nat) -> Seq<char>
    decreases n,
{
    if n < 10 {
        seq![digit_char(n)]
    } else {
        dec_str(n / 10).push(digit_char(n % 10))
    }
}

fn append_digit(out: &mut String, d: u64)
    requires
        d < 10,
    ensures
        final(out)@ == old(out)@ + seq![digit_char(d as nat)],
{
    let piece: &str = if d == 0 {
        "0"
    } else if d == 1 {
        "1"
    } else if d == 2 {
        "2"
    } else if d == 3 {
        "3"
    } else if d == 4 {
        "4"
    } else if d == 5 {
        "5"
    } else if d == 6 {
        "6"
    } else if d == 7 {
        "7"
    } else if d == 8 {
        "8"
    } else {
        "9"
    };
    proof {
        reveal_strlit("0");
        reveal_strlit("1");
        reveal_strlit("2");
        reveal_strlit("3");
        reveal_strlit("4");
        reveal_strlit("5");
        reveal_strlit("6");
        reveal_strlit("7");
        reveal_strlit("8");
        reveal_strlit("9");
        assert(piece@ =~= seq![digit_char(d as nat)]);
    }
    out.append(piece);
}

/// Appends the decimal rendering of `n` to `out`.
pub fn append_dec(out: &mut String, n: u64)
    ensures
        final(out)@ == old(out)@ + dec_str(n as nat),
    decreases n,
{
    if n >= 10 {
        proof {
            assert(n / 10 < n) by (nonlinear_arith)
                requires
                    n >= 10,
            ;
        }
        append_dec(out, n / 10);
        append_digit(out, n % 10);
        proof {
            assert(old(out)@ + dec_str((n / 10) as nat) + seq![digit_char((n % 10) as nat)] =~= old(
                out,
            )@ + dec_str(n as nat));
        }
    } else {
        append_digit(out, n);
    }
}

/// The shared ordered-threshold comparison used by the response-time and
/// document-age evaluators.
pub fn evaluate_limits(value: u64, limits: Limits) -> (s: State)
    ensures
        s == limits_state(value, limits),
{
    match limits {
        Limits::Unbounded => State::Okay,
        Limits::Warn(w) => if value >= w {
            State::Warn
        } else {
            State::Okay
        },
        Limits::WarnCrit(w, c) => if value >= c {
            State::Crit
        } else if value >= w {
            State::Warn
        } else {
            State::Okay
        },
    }
}

/// Law: under a two-sided body bound, any size inside the closed range
/// [min, max] is OK, and any size below min or above max is WARNING.
pub proof fn lemma_bounds_lower_upper(size: nat, min: usize, max: usize)
    ensures
        min <= size <= max ==> bounds_state(size, Bounds::LowerUpper(min, max)) == State::Okay,
        size < min || size > max ==> bounds_state(size, Bounds::LowerUpper(min, max))
            == State::Warn,
{
}

/// Law: under warning and critical thresholds with w <= c, a value below w
/// is OK, a value in [w, c) is WARNING, and a value at or above c is
/// CRITICAL — both boundaries inclusive on the severe side.
pub proof fn lemma_limits_warn_crit(value: u64, w: u64, c: u64)
    requires
        w <= c,
    ensures
        value < w ==> limits_state(value, Limits::WarnCrit(w, c)) == State::Okay,
        w <= value < c ==> limits_state(value, Limits::WarnCrit(w, c)) == State::Warn,
        value >= c ==> limits_state(value, Limits::WarnCrit(w, c)) == State::Crit,
{
}

/// The parenthesised note a time-like summary carries when a threshold was
/// reached: it cites the threshold that fired, with its unit.
pub open spec fn limits_note(value: u64, limits: Limits, unit: Seq<char>) -> Seq<char> {
    match limits {
        Limits::Unbounded => Seq::<char>::empty(),
        Limits::Warn(w) => if value >= w {
            " (warn at "@ + dec_str(w as nat) + unit + ")"@
        } else {
            Seq::<char>::empty()
        },
        Limits::WarnCrit(w, c) => if value >= c {
            " (crit at "@ + dec_str(c as nat) + unit + ")"@
        } else if value >= w {
            " (warn at "@ + dec_str(w as nat) + unit + ")"@
        } else {
            Seq::<char>::empty()
        },
    }
}

fn append_threshold(out: &mut String, label: &str, threshold: u64, unit: &str)
    ensures
        final(out)@ == old(out)@ + label@ + dec_str(threshold as nat) + unit@ + ")"@,
{
    out.append(label);
    append_dec(out, threshold);
    out.append(unit);
    out.append(")");
}

fn append_limits_note(out: &mut String, value: u64, limits: Limits, unit: &str)
    ensures
        final(out)@ == old(out)@ + limits_note(value, limits, unit@),
{
    let fired: Option<(bool, u64)> = match limits {
        Limits::Unbounded => Option::None,
        Limits::Warn(w) => if value >= w {
            Option::Some((false, w))
        } else {
            Option::None
        },
        Limits::WarnCrit(w, c) => if value >= c {
            Option::Some((true, c))
        } else if value >= w {
            Option::Some((false, w))
        } else {
            Option::None
        },
    };
    match fired {
        Option::None => {
            proof {
                assert(old(out)@ + limits_note(value, limits, unit@) =~= old(out)@);
            }
        },
        Option::Some((is_crit, threshold)) => {
            if is_crit {
                append_threshold(out, " (crit at ", threshold, unit);
            } else {
                append_threshold(out, " (warn at ", threshold, unit);
            }
        },
    }
}

/// The HTTP protocol version reported by the transport adapter.
#[derive(Clone, Copy, Debug, PartialEq, Eq, Structural)]
pub enum HttpVersion {
    Http09,
    Http10,
    Http11,
    Http2,
    Http3,
}

/// The conventional rendering of an HTTP protocol version.
pub open spec fn version_str(v: HttpVersion) -> Seq<char> {
    match v {
        HttpVersion::Http09 => "HTTP/0.9"@,
        HttpVersion::Http10 => "HTTP/1.0"@,
        HttpVersion::Http11 => "HTTP/1.1"@,
        HttpVersion::Http2 => "HTTP/2"@,
        HttpVersion::Http3 => "HTTP/3"@,
    }
}

fn version_text(v: HttpVersion) -> (s: &'static str)
    ensures
        s@ == version_str(v),
{
    match v {
        HttpVersion::Http09 => "HTTP/0.9",
        HttpVersion::Http10 => "HTTP/1.0",
        HttpVersion::Http11 => "HTTP/1.1",
        HttpVersion::Http2 => "HTTP/2",
        HttpVersion::Http3 => "HTTP/3",
    }
}

/// How the caller configured redirect handling; threaded into the status
/// evaluator, which must know whether a surviving redirect status is
/// expected.
#[derive(Clone, Copy, Debug, PartialEq, Eq, Structural)]
pub enum OnRedirect {
    Okay,
    Warning,
    Critical,
    Follow,
    Sticky,
    Stickyport,
}

/// Severity of a status code in light of the redirect policy: client errors
/// are WARNING, server errors CRITICAL; a surviving redirect status takes
/// the severity the policy asks for (expected, hence OK, unless the policy
/// says redirects warrant WARNING or CRITICAL); everything else is OK.
pub open spec fn status_state(status: u16, policy: OnRedirect) -> State {
    if 400 <= status && status < 500 {
        State::Warn
    } else if 500 <= status && status < 600 {
        State::Crit
    } else if 300 <= status && status < 400 {
        match policy {
            OnRedirect::Warning => State::Warn,
            OnRedirect::Critical => State::Crit,
            _ => State::Okay,
        }
    } else {
        State::Okay
    }
}

/// The status summary: protocol version and status code.
pub open spec fn status_summary(status: u16, version: HttpVersion) -> Seq<char> {
    version_str(version) + " "@ + dec_str(status as nat)
}

/// Status check: exactly one result, severity per `status_state`.
pub fn check_status(status: u16, version: HttpVersion, onredirect: OnRedirect) -> (r: CheckResult)
    ensures
        r@.state == status_state(status, onredirect),
        r@.summary == status_summary(status, version),
{
    let mut summary = String::from_str(version_text(version));
    summary.append(" ");
    append_dec(&mut summary, status as u64);
    let state = if 400 <= status && status < 500 {
        State::Warn
    } else if 500 <= status && status < 600 {
        State::Crit
    } else if 300 <= status && status < 400 {
        match onredirect {
            OnRedirect::Warning => State::Warn,
            OnRedirect::Critical => State::Crit,
            _ => State::Okay,
        }
    } else {
        State::Okay
    };
    CheckResult { state, summary }
}

/// The body summary for a fetched body: the measured size, and when the
/// size falls outside the configured bounds, the bound that was missed.
pub open spec fn page_size_summary(size: nat, bounds: Bounds) -> Seq<char> {
    let base = "Page size: "@ + dec_str(size) + " bytes"@;
    match bounds {
        Bounds::Unbounded => base,
        Bounds::Lower(min) => if size >= min {
            base
        } else {
            base + " (warn below "@ + dec_str(min as nat) + " bytes)"@
        },
        Bounds::LowerUpper(min, max) => if size < min {
            base + " (warn below "@ + dec_str(min as nat) + " bytes)"@
        } else if size > max {
            base + " (warn above "@ + dec_str(max as nat) + " bytes)"@
        } else {
            base
        },
    }
}

/// Body check: exactly one result. A skipped body fetch (no-body mode) is
/// reported as a neutral OK, never as a zero-size failure; otherwise the
/// byte count is held against the configured bounds.
pub fn check_body(body: &Option<Vec<u8>>, bounds: Bounds) -> (r: CheckResult)
    ensures
        body is None ==> r@.state == State::Okay && r@.summary == "Body not checked"@,
        body matches Some(b) ==> r@.state == bounds_state(b@.len(), bounds) && r@.summary
            == page_size_summary(b@.len(), bounds),
{
    match body {
        Option::None => CheckResult { state: State::Okay, summary: String::from_str("Body not checked") },
        Option::Some(b) => {
            let size = b.len();
            let mut summary = String::from_str("Page size: ");
            append_dec(&mut summary, size as u64);
            summary.append(" bytes");
            let state: State = match bounds {
                Bounds::Unbounded => State::Okay,
                Bounds::Lower(min) => {
                    if size >= min {
                        State::Okay
                    } else {
                        summary.append(" (warn below ");
                        append_dec(&mut summary, min as u64);
                        summary.append(" bytes)");
                        State::Warn
                    }
                },
                Bounds::LowerUpper(min, max) => {
                    if size < min {
                        summary.append(" (warn below ");
                        append_dec(&mut summary, min as u64);
                        summary.append(" bytes)");
                        State::Warn
                    } else if size > max {
                        summary.append(" (warn above ");
                        append_dec(&mut summary, max as u64);
                        summary.append(" bytes)");
                        State::Warn
                    } else {
                        State::Okay
                    }
                },
            };
            CheckResult { state, summary }
        },
    }
}

/// The response-time summary: the elapsed milliseconds and, when a
/// threshold fired, which one.
pub open spec fn time_summary(elapsed_ms: u64, limits: Limits) -> Seq<char> {
    "Response time: "@ + dec_str(elapsed_ms as nat) + "ms"@ + limits_note(elapsed_ms, limits, "ms"@)
}

/// Response-time check: exactly one result, severity per `limits_state`
/// (boundary-inclusive at both thresholds).
pub fn check_response_time(elapsed_ms: u64, limits: Limits) -> (r: CheckResult)
    ensures
        r@.state == limits_state(elapsed_ms, limits),
        r@.summary == time_summary(elapsed_ms, limits),
{
    let mut summary = String::from_str("Response time: ");
    append_dec(&mut summary, elapsed_ms);
    summary.append("ms");
    append_limits_note(&mut summary, elapsed_ms, limits, "ms");
    let state = evaluate_limits(elapsed_ms, limits);
    CheckResult { state, summary }
}

/// The document-age summary: the age in seconds and, when a threshold
/// fired, which one.
pub open spec fn age_summary(age_seconds: u64, limits: Limits) -> Seq<char> {
    "Document age: "@ + dec_str(age_seconds as nat) + "s"@ + limits_note(
        age_seconds,
        limits,
        "s"@,
    )
}

/// Document-age check: zero or one result. When no age could be derived
/// from the response headers (absent or unparsable freshness header) the
/// evaluator emits nothing; otherwise the age is held against the
/// configured thresholds exactly as the response time is.
pub fn check_document_age(age_seconds: &Option<u64>, limits: Limits) -> (r: Option<CheckResult>)
    ensures
        age_seconds is None ==> r is None,
        age_seconds matches Some(age) ==> r matches Some(cr) && cr@.state == limits_state(
            *age,
            limits,
        ) && cr@.summary == age_summary(*age, limits),
{
    match age_seconds {
        Option::None => Option::None,
        Option::Some(age) => {
            let mut summary = String::from_str("Document age: ");
            append_dec(&mut summary, *age);
            summary.append("s");
            append_limits_note(&mut summary, *age, limits, "s");
            let state = evaluate_limits(*age, limits);
            Option::Some(CheckResult { state, summary })
        },
    }
}

} // verus!
