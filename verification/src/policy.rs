//! Provider run policy: throttling with jitter, exponential backoff after
//! repeated failures, and graceful degradation to the last good output.
//!
//! The policy is a pure state machine over the run history (last invocation
//! time, last good output, consecutive-failure count, backoff deadline).
//! `plan_step` decides whether the external command provider is invoked at
//! all, and `outcome_step` folds the outcome of one invocation back into the
//! history. The engine's executable methods are proved against these two
//! transition functions.

use vstd::arithmetic::power2::lemma2_to64;
use vstd::arithmetic::power2::lemma_pow2_pos;
use vstd::arithmetic::power2::pow2;
use vstd::math::min;
use vstd::prelude::*;
use vstd::string::*;

verus! {

/// The engine-private run history of the command provider, as mathematical
/// values. Times are in milliseconds.
pub ghost struct RunHistory {
    pub last_run: Option<int>,
    pub last_line3: Option<Seq<char>>,
    pub consecutive_failures: nat,
    pub backoff_until: Option<int>,
}

/// The history of an engine that has never invoked the provider.
pub open spec fn empty_history() -> RunHistory {
    RunHistory { last_run: None, last_line3: None, consecutive_failures: 0, backoff_until: None }
}

/// The mathematical content of an engine configuration.
pub ghost struct ConfigView {
    pub command_timeout_ms: u64,
    pub command: Option<Seq<char>>,
    pub enabled: bool,
    pub provider: Seq<char>,
}

/// The outcome of one invocation of the external command provider: a
/// non-empty first output line, nothing to show, or an I/O failure.
#[derive(Debug, Clone, PartialEq, Eq)]
pub enum ProviderOutcome {
    Success(String),
    Empty,
    Error,
}

/// The outcome as mathematical values.
pub ghost enum OutcomeView {
    Success(Seq<char>),
    Empty,
    Error,
}

impl View for ProviderOutcome {
    type V = OutcomeView;

    open spec fn view(&self) -> OutcomeView {
        match self {
            ProviderOutcome::Success(line) => OutcomeView::Success(line@),
            ProviderOutcome::Empty => OutcomeView::Empty,
            ProviderOutcome::Error => OutcomeView::Error,
        }
    }
}

/// What one frame does about the provider: skip it and show the given
/// secondary line (absent or cached), or invoke it and report the outcome
/// back.
#[derive(Debug, Clone, PartialEq, Eq)]
pub enum ProviderStep {
    Skip(Option<String>),
    Invoke,
}

/// The step as mathematical values.
pub ghost enum StepView {
    Skip(Option<Seq<char>>),
    Invoke,
}

impl View for ProviderStep {
    type V = StepView;

    open spec fn view(&self) -> StepView {
        match self {
            ProviderStep::Skip(line) => StepView::Skip(line.deep_view()),
            ProviderStep::Invoke => StepView::Invoke,
        }
    }
}

/// The `provider` value that selects the external command provider.
pub open spec fn command_str() -> Seq<char> {
    seq!['c', 'o', 'm', 'm', 'a', 'n', 'd']
}

/// The `provider` value that selects the built-in provider, and the fallback
/// for invalid values.
pub open spec fn builtin_str() -> Seq<char> {
    seq!['b', 'u', 'i', 'l', 't', 'i', 'n']
}

/// Whether the configuration enables the command provider at all.
pub open spec fn provider_is_command(cfg: ConfigView) -> bool {
    cfg.provider == command_str() && cfg.command is Some
}

/// The base cooldown between two provider invocations, in milliseconds.
pub open spec fn base_cooldown_ms() -> int {
    300
}

/// The jitter added to the cooldown at one evaluation: 0 to 99 ms, derived
/// from the evaluation time.
pub open spec fn jitter_ms(now_ms: u64) -> int {
    now_ms as int % 100
}

/// The cooldown in force at one evaluation.
pub open spec fn effective_cooldown_ms(now_ms: u64) -> int {
    base_cooldown_ms() + jitter_ms(now_ms)
}

/// Milliseconds elapsed from `last` to `now_ms`, zero when `now_ms` is not
/// past `last`.
pub open spec fn elapsed_ms(now_ms: u64, last: int) -> int {
    if now_ms >= last {
        now_ms - last
    } else {
        0
    }
}

/// Decide what one frame does about the provider, and how the history
/// changes: a disabled provider is skipped with no secondary line; during
/// backoff the cached line is shown; an expired backoff deadline is cleared;
/// within the jittered cooldown since the last run the cached line is shown;
/// otherwise the provider is invoked.
pub open spec fn plan_step(cfg: ConfigView, h: RunHistory, now_ms: u64) -> (StepView, RunHistory) {
    if !provider_is_command(cfg) {
        (StepView::Skip(None), h)
    } else if h.backoff_until is Some && (now_ms as int) < h.backoff_until->0 {
        (StepView::Skip(h.last_line3), h)
    } else {
        let h1 = RunHistory { backoff_until: None, ..h };
        if h1.last_run is Some && elapsed_ms(now_ms, h1.last_run->0) < effective_cooldown_ms(
            now_ms,
        ) {
            (StepView::Skip(h1.last_line3), h1)
        } else {
            (StepView::Invoke, h1)
        }
    }
}

/// The backoff window after `failures` consecutive failures, once they have
/// reached three: one second, doubled per further failure, capped at five
/// seconds.
pub open spec fn backoff_window_ms(failures: nat) -> int
    recommends
        failures >= 3,
{
    min(5000, 1000 * pow2((failures - 3) as nat) as int)
}

/// Fold the outcome of one invocation into the history, and give the
/// secondary line this frame shows. A success is cached and shown and clears
/// the failure count; an empty outcome clears the failure count and leaves
/// the cached line showing; an error raises the failure count (saturating at
/// the counter's machine bound) and, from the third consecutive failure on,
/// sets the backoff deadline. The invocation time is recorded whatever the
/// outcome.
pub open spec fn outcome_step(h: RunHistory, now_ms: u64, outcome: OutcomeView) -> (
    RunHistory,
    Option<Seq<char>>,
) {
    match outcome {
        OutcomeView::Success(line) => (
            RunHistory {
                last_run: Some(now_ms as int),
                last_line3: Some(line),
                consecutive_failures: 0,
                backoff_until: h.backoff_until,
            },
            Some(line),
        ),
        OutcomeView::Empty => (
            RunHistory { last_run: Some(now_ms as int), consecutive_failures: 0, ..h },
            h.last_line3,
        ),
        OutcomeView::Error => {
            let failures = if h.consecutive_failures < u32::MAX {
                h.consecutive_failures + 1
            } else {
                h.consecutive_failures
            };
            let backoff = if failures >= 3 {
                Some(now_ms + backoff_window_ms(failures))
            } else {
                h.backoff_until
            };
            (
                RunHistory {
                    last_run: Some(now_ms as int),
                    consecutive_failures: failures,
                    backoff_until: backoff,
                    ..h
                },
                h.last_line3,
            )
        },
    }
}

/// Whether a character counts as whitespace for trimming. What
/// `char::is_whitespace` returns: a Unicode character property, a function
/// of the character alone.
pub uninterp spec fn is_space(c: char) -> bool;

/// Relies on char::is_whitespace: the result depends on the character alone.
pub assume_specification[ char::is_whitespace ](c: char) -> (r: bool)
    ensures
        r == is_space(c),
;

/// The text up to, and not including, the first line break.
pub open spec fn line_prefix(s: Seq<char>) -> Seq<char>
    decreases s.len(),
{
    if s.len() == 0 {
        s
    } else if s[0] == '\n' {
        Seq::empty()
    } else {
        seq![s[0]] + line_prefix(s.drop_first())
    }
}

/// The text with its leading whitespace removed.
pub open spec fn trim_start_spec(s: Seq<char>) -> Seq<char>
    decreases s.len(),
{
    if s.len() > 0 && is_space(s[0]) {
        trim_start_spec(s.drop_first())
    } else {
        s
    }
}

/// The text with its trailing whitespace removed.
pub open spec fn trim_end_spec(s: Seq<char>) -> Seq<char>
    decreases s.len(),
{
    if s.len() > 0 && is_space(s.last()) {
        trim_end_spec(s.drop_last())
    } else {
        s
    }
}

/// The text with surrounding whitespace removed.
pub open spec fn trim_spec(s: Seq<char>) -> Seq<char> {
    trim_end_spec(trim_start_spec(s))
}

/// What one finished provider invocation shows: nothing on an error exit
/// status; otherwise the first line of the output, trimmed, as a success
/// when it is non-empty and nothing when it is not.
pub open spec fn classify_spec(status_ok: bool, out: Seq<char>) -> OutcomeView {
    if !status_ok {
        OutcomeView::Empty
    } else {
        let line = trim_spec(line_prefix(out));
        if line.len() == 0 {
            OutcomeView::Empty
        } else {
            OutcomeView::Success(line)
        }
    }
}

/// The index of the first line break, or the length when there is none.
fn line_end(s: &str) -> (i: usize)
    ensures
        i <= s@.len(),
        forall|j: int| 0 <= j < i ==> s@[j] != '\n',
        i < s@.len() ==> s@[i as int] == '\n',
{
    let n = s.unicode_len();
    let mut i: usize = 0;
    while i < n
        invariant
            i <= n,
            n == s@.len(),
            forall|j: int| 0 <= j < i ==> s@[j] != '\n',
        decreases n - i,
    {
        if s.get_char(i) == '\n' {
            return i;
        }
        i = i + 1;
    }
    i
}

/// The index of the first non-whitespace character, or the length when the
/// whole text is whitespace.
fn first_non_space(s: &str) -> (i: usize)
    ensures
        i <= s@.len(),
        forall|j: int| 0 <= j < i ==> is_space(s@[j]),
        i < s@.len() ==> !is_space(s@[i as int]),
{
    let n = s.unicode_len();
    let mut i: usize = 0;
    while i < n
        invariant
            i <= n,
            n == s@.len(),
            forall|j: int| 0 <= j < i ==> is_space(s@[j]),
        decreases n - i,
    {
        if !s.get_char(i).is_whitespace() {
            return i;
        }
        i = i + 1;
    }
    i
}

/// The index one past the last non-whitespace character at or after `start`,
/// or `start` when everything after it is whitespace.
fn end_non_space(s: &str, start: usize) -> (j: usize)
    requires
        start <= s@.len(),
    ensures
        start <= j <= s@.len(),
        forall|k: int| j <= k < s@.len() ==> is_space(s@[k]),
        j > start ==> !is_space(s@[j - 1]),
{
    let n = s.unicode_len();
    let mut j: usize = n;
    while j > start
        invariant
            start <= j <= n,
            n == s@.len(),
            forall|k: int| j <= k < n ==> is_space(s@[k]),
        decreases j,
    {
        if !s.get_char(j - 1).is_whitespace() {
            return j;
        }
        j = j - 1;
    }
    j
}

/// A prefix free of line breaks, and broken off by one where the text goes
/// on, is the text's first line.
proof fn lemma_line_prefix_take(s: Seq<char>, end: int)
    requires
        0 <= end <= s.len(),
        forall|j: int| 0 <= j < end ==> s[j] != '\n',
        end < s.len() ==> s[end] == '\n',
    ensures
        line_prefix(s) == s.take(end),
    decreases end,
{
    if s.len() == 0 {
        assert(s.take(end) =~= s);
    } else if s[0] == '\n' {
        assert(s.take(end) =~= Seq::<char>::empty());
    } else {
        lemma_line_prefix_take(s.drop_first(), end - 1);
        assert(seq![s[0]] + s.drop_first().take(end - 1) =~= s.take(end));
    }
}

/// Dropping a whitespace prefix, up to the first character that is none, is
/// what trimming the start does.
proof fn lemma_trim_start_skip(s: Seq<char>, i: int)
    requires
        0 <= i <= s.len(),
        forall|j: int| 0 <= j < i ==> is_space(s[j]),
        i < s.len() ==> !is_space(s[i]),
    ensures
        trim_start_spec(s) == s.skip(i),
    decreases i,
{
    if i == 0 {
        assert(s.skip(0) =~= s);
    } else {
        lemma_trim_start_skip(s.drop_first(), i - 1);
        assert(s.drop_first().skip(i - 1) =~= s.skip(i));
    }
}

/// Dropping a whitespace suffix, back to the first character that is none,
/// is what trimming the end does.
proof fn lemma_trim_end_take(s: Seq<char>, j: int)
    requires
        0 <= j <= s.len(),
        forall|k: int| j <= k < s.len() ==> is_space(s[k]),
        j > 0 ==> !is_space(s[j - 1]),
    ensures
        trim_end_spec(s) == s.take(j),
    decreases s.len(),
{
    if j == s.len() {
        assert(s.take(j) =~= s);
    } else {
        lemma_trim_end_take(s.drop_last(), j);
        assert(s.drop_last().take(j) =~= s.take(j));
    }
}

/// Classify one finished provider invocation from its exit status and its
/// standard output: only a non-error exit is eligible; its first output
/// line, trimmed of surrounding whitespace, is a success when non-empty and
/// nothing to show when empty.
pub fn classify_output(status_ok: bool, stdout: &str) -> (outcome: ProviderOutcome)
    ensures
        outcome@ == classify_spec(status_ok, stdout@),
{
    if !status_ok {
        return ProviderOutcome::Empty;
    }
    let line_len = line_end(stdout);
    let line = stdout.substring_char(0, line_len);
    proof {
        lemma_line_prefix_take(stdout@, line_len as int);
    }
    let start = first_non_space(line);
    let end = end_non_space(line, start);
    let trimmed = line.substring_char(start, end);
    proof {
        lemma_trim_start_skip(line@, start as int);
        lemma_trim_end_take(line@.skip(start as int), end - start);
        assert(line@.skip(start as int).take(end - start) =~= line@.subrange(
            start as int,
            end as int,
        ));
    }
    if trimmed.is_empty() {
        ProviderOutcome::Empty
    } else {
        ProviderOutcome::Success(String::from_str(trimmed))
    }
}

/// The backoff window is at least one second and at most five.
pub proof fn lemma_backoff_window_bounds(failures: nat)
    requires
        failures >= 3,
    ensures
        1000 <= backoff_window_ms(failures) <= 5000,
        failures == 3 ==> backoff_window_ms(failures) == 1000,
{
    lemma2_to64();
    lemma_pow2_pos((failures - 3) as nat);
}

/// Three consecutive error outcomes set a backoff deadline at least 1000 ms
/// past the last of them, and a plan made before that deadline shows the
/// cached output, leaves the history unchanged, and does not invoke the
/// provider.
pub proof fn lemma_backoff_after_three_errors(
    cfg: ConfigView,
    h: RunHistory,
    t1: u64,
    t2: u64,
    t3: u64,
    later: u64,
)
    requires
        h.consecutive_failures == 0,
        provider_is_command(cfg),
        (later as int) < t3 + 1000,
    ensures
        ({
            let (h1, r1) = outcome_step(h, t1, OutcomeView::Error);
            let (h2, r2) = outcome_step(h1, t2, OutcomeView::Error);
            let (h3, r3) = outcome_step(h2, t3, OutcomeView::Error);
            &&& h3.backoff_until == Some(t3 + 1000int)
            &&& h3.backoff_until->0 >= t3 + 1000
            &&& h3.last_line3 == h.last_line3
            &&& r3 == h.last_line3
            &&& plan_step(cfg, h3, later) == (StepView::Skip(h3.last_line3), h3)
        }),
{
    let (h1, r1) = outcome_step(h, t1, OutcomeView::Error);
    let (h2, r2) = outcome_step(h1, t2, OutcomeView::Error);
    let (h3, r3) = outcome_step(h2, t3, OutcomeView::Error);
    lemma_backoff_window_bounds(3);
    assert(h3.backoff_until == Some(t3 + 1000int));
}

/// An empty outcome after a prior success still shows the cached line on
/// that very call, and resets the failure counter to zero.
pub proof fn lemma_empty_preserves_success(
    h: RunHistory,
    t1: u64,
    t2: u64,
    line: Seq<char>,
)
    ensures
        ({
            let (h1, r1) = outcome_step(h, t1, OutcomeView::Success(line));
            let (h2, r2) = outcome_step(h1, t2, OutcomeView::Empty);
            &&& r1 == Some(line)
            &&& r2 == Some(line)
            &&& h2.last_line3 == Some(line)
            &&& h2.consecutive_failures == 0
        }),
{
}

/// Two plans made within the jittered cooldown window both skip the
/// provider and show the same cached output.
pub proof fn lemma_throttle_identical(cfg: ConfigView, h: RunHistory, t1: u64, t2: u64)
    requires
        provider_is_command(cfg),
        h.last_run is Some,
        elapsed_ms(t1, h.last_run->0) < effective_cooldown_ms(t1),
        elapsed_ms(t2, h.last_run->0) < effective_cooldown_ms(t2),
    ensures
        ({
            let (s1, h1) = plan_step(cfg, h, t1);
            let (s2, h2) = plan_step(cfg, h1, t2);
            &&& s1 == StepView::Skip(h.last_line3)
            &&& s2 == s1
            &&& h2.last_line3 == h.last_line3
            &&& h2.last_run == h.last_run
        }),
{
}

} // verus!
