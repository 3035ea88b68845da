//! The status engine: validated configuration, current session state, the
//! status-item selection, and the command-provider run history, with the
//! per-frame operations over them.

use crate::compose::branch_budget_exec;
use crate::compose::build_parts;
use crate::compose::clone_opt;
use crate::compose::counts_text;
use crate::compose::empty_state;
use crate::compose::format_counts;
use crate::compose::join_with_sep;
use crate::compose::line2_spec;
use crate::compose::line2_width_spec;
use crate::compose::parts_with_width_rec;
use crate::compose::render_token;
use crate::compose::str_eq;
use crate::compose::style_status_line;
use crate::compose::StateView;
use crate::compose::StatusEngineState;
use crate::compose::StatusItem;
use crate::payload::json_text;
use crate::payload::payload_spec;
use crate::payload::payload_to_string;
use crate::payload::SerializeError;
use crate::policy::backoff_window_ms;
use crate::policy::base_cooldown_ms;
use crate::policy::builtin_str;
use crate::policy::command_str;
use crate::policy::empty_history;
use crate::policy::outcome_step;
use crate::policy::plan_step;
use crate::policy::ConfigView;
use crate::policy::ProviderOutcome;
use crate::policy::ProviderStep;
use crate::policy::RunHistory;
use crate::truncate::truncate_with_ellipsis;
use vstd::arithmetic::power2::lemma2_to64;
use vstd::arithmetic::power2::lemma_pow2_strictly_increases;
use vstd::prelude::*;
use vstd::string::*;

verus! {

/// Configuration of an engine, validated once at construction.
#[derive(Debug, Clone)]
pub struct StatusEngineConfig {
    /// Timeout for the external command provider, in milliseconds; clamped
    /// into [150, 500] at construction.
    pub command_timeout_ms: u64,
    /// Path to the external command provider; absence disables the command
    /// provider regardless of `provider`.
    pub command: Option<String>,
    /// Master on/off switch, interpreted by the host.
    pub enabled: bool,
    /// Provider selection: `"command"` or `"builtin"`; any other value falls
    /// back to `"builtin"` at construction.
    pub provider: String,
}

impl View for StatusEngineConfig {
    type V = ConfigView;

    open spec fn view(&self) -> ConfigView {
        ConfigView {
            command_timeout_ms: self.command_timeout_ms,
            command: self.command.deep_view(),
            enabled: self.enabled,
            provider: self.provider@,
        }
    }
}

impl Default for StatusEngineConfig {
    /// The default configuration: a 300 ms timeout, no command, disabled,
    /// built-in provider.
    fn default() -> (c: StatusEngineConfig)
        ensures
            c@.command_timeout_ms == 300,
            c@.command is None,
            !c@.enabled,
            c@.provider == builtin_str(),
    {
        proof {
            reveal_strlit("builtin");
            assert("builtin"@ =~= builtin_str());
        }
        StatusEngineConfig {
            command_timeout_ms: 300,
            command: None,
            enabled: false,
            provider: String::from_str("builtin"),
        }
    }
}

/// The two-line output of one frame: the primary status line, and the
/// optional secondary line from the command provider.
#[derive(Debug, Clone)]
pub struct StatusEngineOutput {
    pub line2: String,
    pub line3: Option<String>,
}

impl Default for StatusEngineOutput {
    /// The empty output: no content on either line.
    fn default() -> (out: StatusEngineOutput)
        ensures
            out.line2@ == Seq::<char>::empty(),
            out.line3 is None,
    {
        StatusEngineOutput { line2: String::new(), line3: None }
    }
}

/// The mathematical content of an engine: configuration, state snapshot,
/// selection, provider run history, and the base cooldown.
pub ghost struct EngineView {
    pub config: ConfigView,
    pub state: StateView,
    pub items: Seq<StatusItem>,
    pub history: RunHistory,
    pub cooldown_ms: int,
}

/// The status engine.
pub struct StatusEngine {
    config: StatusEngineConfig,
    state: StatusEngineState,
    line2_items: Vec<StatusItem>,
    last_command_run: Option<u64>,
    last_line3: Option<String>,
    command_cooldown_ms: u64,
    consecutive_failures: u32,
    backoff_until: Option<u64>,
}

impl View for StatusEngine {
    type V = EngineView;

    closed spec fn view(&self) -> EngineView {
        EngineView {
            config: self.config@,
            state: self.state@,
            items: self.line2_items@,
            history: RunHistory {
                last_run: match self.last_command_run {
                    None => None,
                    Some(t) => Some(t as int),
                },
                last_line3: self.last_line3.deep_view(),
                consecutive_failures: self.consecutive_failures as nat,
                backoff_until: match self.backoff_until {
                    None => None,
                    Some(t) => Some(t as int),
                },
            },
            cooldown_ms: self.command_cooldown_ms as int,
        }
    }
}

/// The timeout clamped into its sane range.
pub open spec fn clamp_timeout(t: u64) -> u64 {
    if t < 150 {
        150
    } else if t > 500 {
        500
    } else {
        t
    }
}

/// The provider value, with invalid values replaced by the built-in one.
pub open spec fn normalize_provider(p: Seq<char>) -> Seq<char> {
    if p == command_str() || p == builtin_str() {
        p
    } else {
        builtin_str()
    }
}

/// What construction makes of a configuration.
pub open spec fn normalize_config(c: ConfigView) -> ConfigView {
    ConfigView {
        command_timeout_ms: clamp_timeout(c.command_timeout_ms),
        provider: normalize_provider(c.provider),
        ..c
    }
}

/// The default selection and order of status items.
pub open spec fn default_items() -> Seq<StatusItem> {
    seq![
        StatusItem::Model,
        StatusItem::Effort,
        StatusItem::WorkspaceName,
        StatusItem::GitBranch,
        StatusItem::Sandbox,
        StatusItem::Approval,
    ]
}

impl StatusEngine {
    /// The engine's structural invariant: the configuration was validated
    /// and the base cooldown is in place.
    pub open spec fn wf(&self) -> bool {
        &&& 150 <= self@.config.command_timeout_ms <= 500
        &&& self@.config.provider == command_str() || self@.config.provider == builtin_str()
        &&& self@.cooldown_ms == base_cooldown_ms()
    }

    /// Create an engine from a configuration, clamping the timeout into its
    /// sane range and replacing an invalid provider value with the built-in
    /// one. The engine starts with an empty state snapshot, the default item
    /// selection, and a blank run history.
    pub fn new(config: StatusEngineConfig) -> (engine: StatusEngine)
        ensures
            engine.wf(),
            engine@.config == normalize_config(config@),
            engine@.state == empty_state(),
            engine@.items == default_items(),
            engine@.history == empty_history(),
    {
        proof {
            reveal_strlit("command");
            reveal_strlit("builtin");
            assert("command"@ =~= command_str());
            assert("builtin"@ =~= builtin_str());
        }
        let StatusEngineConfig { command_timeout_ms, command, enabled, provider } = config;
        let command_timeout_ms = if command_timeout_ms < 150 {
            150
        } else if command_timeout_ms > 500 {
            500
        } else {
            command_timeout_ms
        };
        let provider_valid = str_eq(provider.as_str(), "command") || str_eq(
            provider.as_str(),
            "builtin",
        );
        let provider = if provider_valid {
            provider
        } else {
            String::from_str("builtin")
        };
        let mut line2_items: Vec<StatusItem> = Vec::new();
        line2_items.push(StatusItem::Model);
        line2_items.push(StatusItem::Effort);
        line2_items.push(StatusItem::WorkspaceName);
        line2_items.push(StatusItem::GitBranch);
        line2_items.push(StatusItem::Sandbox);
        line2_items.push(StatusItem::Approval);
        proof {
            assert(line2_items@ =~= default_items());
        }
        StatusEngine {
            config: StatusEngineConfig { command_timeout_ms, command, enabled, provider },
            state: StatusEngineState::default(),
            line2_items,
            last_command_run: None,
            last_line3: None,
            command_cooldown_ms: 300,
            consecutive_failures: 0,
            backoff_until: None,
        }
    }

    /// Replace the session state wholesale.
    pub fn set_state(&mut self, state: StatusEngineState)
        ensures
            final(self)@ == (EngineView { state: state@, ..old(self)@ }),
            final(self).wf() == old(self).wf(),
    {
        self.state = state;
    }

    /// Replace the selection and order of items on the primary line.
    pub fn set_line2_selection(&mut self, items: &[StatusItem])
        ensures
            final(self)@ == (EngineView { items: items@, ..old(self)@ }),
            final(self).wf() == old(self).wf(),
    {
        let mut selection: Vec<StatusItem> = Vec::new();
        let mut i: usize = 0;
        while i < items.len()
            invariant
                i <= items@.len(),
                selection@ == items@.take(i as int),
            decreases items@.len() - i,
        {
            selection.push(items[i]);
            proof {
                assert(items@.take(i + 1) =~= items@.take(i as int).push(items@[i as int]));
            }
            i = i + 1;
        }
        proof {
            assert(items@.take(items@.len() as int) =~= items@);
        }
        self.line2_items = selection;
    }

    /// The current selection of items for the primary line.
    pub fn line2_items(&self) -> (items: &[StatusItem])
        ensures
            items@ == self@.items,
    {
        self.line2_items.as_slice()
    }

    /// Overwrite the git-derived state fields from a refresh: the refresh is
    /// a pull, so an absent result overwrites the last known value with
    /// absence. Present diff counts are rendered as `+added -removed`.
    pub fn apply_git_refresh(&mut self, branch: Option<String>, diff_counts: Option<(u64, u64)>)
        ensures
            ({
                let counts_view = match diff_counts {
                    None => None,
                    Some((added, removed)) => Some(counts_text(added, removed)),
                };
                final(self)@ == (EngineView {
                    state: (StateView {
                        git_branch: branch.deep_view(),
                        git_counts: counts_view,
                        ..old(self)@.state
                    }),
                    ..old(self)@
                })
            }),
            final(self).wf() == old(self).wf(),
    {
        self.state.git_branch = branch;
        match diff_counts {
            None => {
                self.state.git_counts = None;
            },
            Some((added, removed)) => {
                self.state.git_counts = Some(format_counts(added, removed));
            },
        }
    }

    /// Build the primary status line from the selected items over the
    /// current state.
    pub fn build_line2(&self) -> (line2: String)
        ensures
            line2@ == line2_spec(self@.state, self@.items),
    {
        let parts = build_parts(&self.state, &self.line2_items);
        proof {
            assert(parts.deep_view().len() == parts@.len());
        }
        if parts.len() == 0 {
            String::new()
        } else {
            style_status_line(join_with_sep(&parts))
        }
    }

    /// Build the primary status line to fit a terminal width: the most
    /// elastic token, the git branch, is truncated first to the budget left
    /// at its position; if the joined line still runs over the width, the
    /// whole line is truncated as a fallback.
    pub fn get_line2_with_width(&self, max_width: usize) -> (line2: String)
        ensures
            line2@ == line2_width_spec(self@.state, self@.items, max_width as nat),
    {
        let total = self.line2_items.len();
        let mut parts: Vec<String> = Vec::new();
        let mut i: usize = 0;
        while i < total
            invariant
                i <= total,
                total == self.line2_items@.len(),
                parts@.len() <= i,
                parts.deep_view() == parts_with_width_rec(
                    self@.state,
                    self@.items.take(i as int),
                    total as nat,
                    max_width as nat,
                ),
            decreases total - i,
        {
            let ghost prefix = self@.items.take(i as int);
            proof {
                assert(self@.items.take(i + 1).drop_last() =~= prefix);
                assert(self@.items.take(i + 1).last() == self@.items[i as int]);
            }
            let item = self.line2_items[i];
            match item {
                StatusItem::GitBranch => {
                    match render_token(&self.state, item) {
                        None => {},
                        Some(git) => {
                            let budget = branch_budget_exec(&parts, total, max_width);
                            let git_len = git.as_str().unicode_len();
                            if git_len > budget && budget > 3 {
                                let truncated = truncate_with_ellipsis(git.as_str(), budget);
                                parts.push(truncated);
                            } else {
                                parts.push(git);
                            }
                        },
                    }
                },
                _ => {
                    match render_token(&self.state, item) {
                        None => {},
                        Some(token) => parts.push(token),
                    }
                },
            }
            i = i + 1;
        }
        proof {
            assert(self@.items.take(total as int) =~= self@.items);
        }
        if parts.len() == 0 {
            String::new()
        } else {
            let joined = join_with_sep(&parts);
            let joined_len = joined.as_str().unicode_len();
            if joined_len > max_width {
                style_status_line(truncate_with_ellipsis(joined.as_str(), max_width))
            } else {
                style_status_line(joined)
            }
        }
    }

    /// Build the one-line JSON payload handed to the command provider on its
    /// standard input, from whichever state fields are present. Serialization
    /// of this payload shape cannot fail, and the text holds no line break.
    pub fn build_command_payload(&self) -> (r: Result<String, SerializeError>)
        ensures
            r is Ok,
            r matches Ok(text) ==> text@ == json_text(payload_spec(self@.state)),
            r matches Ok(text) ==> forall|i: int|
                0 <= i < text@.len() ==> text@[i] != '\n' && text@[i] != '\r',
    {
        payload_to_string(&self.state)
    }

    /// Decide whether this frame invokes the command provider. A disabled
    /// provider is skipped with no secondary line; within backoff or within
    /// the jittered cooldown since the last run, the cached line is shown
    /// instead; an expired backoff deadline is cleared.
    pub fn plan_provider(&mut self, now_ms: u64) -> (step: ProviderStep)
        requires
            old(self).wf(),
        ensures
            final(self).wf(),
            ({
                let (s, h2) = plan_step(old(self)@.config, old(self)@.history, now_ms);
                &&& step@ == s
                &&& final(self)@ == (EngineView { history: h2, ..old(self)@ })
            }),
    {
        proof {
            reveal_strlit("command");
            assert("command"@ =~= command_str());
        }
        let is_command = str_eq(self.config.provider.as_str(), "command");
        if !is_command || self.config.command.is_none() {
            return ProviderStep::Skip(None);
        }
        match self.backoff_until {
            Some(deadline) => {
                if now_ms < deadline {
                    return ProviderStep::Skip(clone_opt(&self.last_line3));
                }
                self.backoff_until = None;
            },
            None => {},
        }
        let jitter = now_ms % 100;
        let cooldown = self.command_cooldown_ms + jitter;
        match self.last_command_run {
            Some(last) => {
                if now_ms.saturating_sub(last) < cooldown {
                    return ProviderStep::Skip(clone_opt(&self.last_line3));
                }
            },
            None => {},
        }
        ProviderStep::Invoke
    }

    /// Fold the outcome of one provider invocation into the run history and
    /// give the secondary line to show this frame: the new line on success,
    /// the cached one otherwise. The invocation time is recorded whatever
    /// the outcome, a success or an empty outcome clears the failure count,
    /// and from the third consecutive failure on a backoff deadline is set.
    pub fn apply_outcome(&mut self, now_ms: u64, outcome: ProviderOutcome) -> (line3: Option<
        String,
    >)
        requires
            now_ms + 5000 <= u64::MAX,
        ensures
            ({
                let (h2, shown) = outcome_step(old(self)@.history, now_ms, outcome@);
                &&& line3.deep_view() == shown
                &&& final(self)@ == (EngineView { history: h2, ..old(self)@ })
            }),
            final(self).wf() == old(self).wf(),
    {
        self.last_command_run = Some(now_ms);
        match outcome {
            ProviderOutcome::Success(line) => {
                self.last_line3 = Some(line.clone());
                self.consecutive_failures = 0;
                Some(line)
            },
            ProviderOutcome::Empty => {
                self.consecutive_failures = 0;
                clone_opt(&self.last_line3)
            },
            ProviderOutcome::Error => {
                let shown = clone_opt(&self.last_line3);
                self.consecutive_failures = self.consecutive_failures.saturating_add(1);
                if self.consecutive_failures >= 3 {
                    let window = backoff_window_exec(self.consecutive_failures);
                    self.backoff_until = Some(now_ms + window);
                }
                shown
            },
        }
    }
}

/// The backoff window for a failure count that has reached three: one
/// second, doubled per further failure, capped at five seconds.
fn backoff_window_exec(failures: u32) -> (window: u64)
    requires
        failures >= 3,
    ensures
        window == backoff_window_ms(failures as nat),
        window <= 5000,
{
    proof {
        lemma2_to64();
    }
    if failures == 3 {
        1000
    } else if failures == 4 {
        2000
    } else if failures == 5 {
        4000
    } else {
        proof {
            if failures > 6 {
                lemma_pow2_strictly_increases(3, (failures - 3) as nat);
            }
        }
        5000
    }
}

} // verus!
