//! Session state, status-item selection, and composition of the primary
//! status line.
//!
//! A status line is built by walking the selected items in order, rendering
//! each item whose state field is present, joining the rendered tokens with
//! `" | "`, and applying a purely cosmetic dim style at the end.

use crate::truncate::truncate_spec;
use vstd::prelude::*;
use vstd::string::*;

verus! {

/// The status items that may appear on the primary line, in any order.
#[derive(Debug, Clone, Copy, PartialEq, Eq, Structural)]
pub enum StatusItem {
    Model,
    Effort,
    WorkspaceName,
    GitBranch,
    Sandbox,
    Approval,
}

/// A snapshot of the session facts the status line is built from. Every
/// field is optional; an absent field is simply left off the line.
#[derive(Debug, Clone)]
pub struct StatusEngineState {
    pub model: Option<String>,
    pub effort: Option<String>,
    pub workspace_name: Option<String>,
    pub git_branch: Option<String>,
    pub git_counts: Option<String>,
    pub sandbox: Option<String>,
    pub approval: Option<String>,
    pub since_session_ms: Option<u64>,
    pub cwd: Option<String>,
}

/// The mathematical content of a state snapshot: each text field as an
/// optional sequence of characters.
pub ghost struct StateView {
    pub model: Option<Seq<char>>,
    pub effort: Option<Seq<char>>,
    pub workspace_name: Option<Seq<char>>,
    pub git_branch: Option<Seq<char>>,
    pub git_counts: Option<Seq<char>>,
    pub sandbox: Option<Seq<char>>,
    pub approval: Option<Seq<char>>,
    pub since_session_ms: Option<u64>,
    pub cwd: Option<Seq<char>>,
}

impl View for StatusEngineState {
    type V = StateView;

    open spec fn view(&self) -> StateView {
        StateView {
            model: self.model.deep_view(),
            effort: self.effort.deep_view(),
            workspace_name: self.workspace_name.deep_view(),
            git_branch: self.git_branch.deep_view(),
            git_counts: self.git_counts.deep_view(),
            sandbox: self.sandbox.deep_view(),
            approval: self.approval.deep_view(),
            since_session_ms: self.since_session_ms,
            cwd: self.cwd.deep_view(),
        }
    }
}

impl Default for StatusEngineState {
    /// The empty snapshot: every field absent.
    fn default() -> (s: StatusEngineState)
        ensures
            s@ == empty_state(),
    {
        StatusEngineState {
            model: None,
            effort: None,
            workspace_name: None,
            git_branch: None,
            git_counts: None,
            sandbox: None,
            approval: None,
            since_session_ms: None,
            cwd: None,
        }
    }
}

/// The view of a snapshot with every field absent.
pub open spec fn empty_state() -> StateView {
    StateView {
        model: None,
        effort: None,
        workspace_name: None,
        git_branch: None,
        git_counts: None,
        sandbox: None,
        approval: None,
        since_session_ms: None,
        cwd: None,
    }
}

/// The separator written between rendered tokens.
pub open spec fn sep() -> Seq<char> {
    seq![' ', '|', ' ']
}

/// The rendered git token: the branch, followed by the diff counts when
/// those are present too. Absent branch means no token at all.
pub open spec fn git_token(s: StateView) -> Option<Seq<char>> {
    match s.git_branch {
        None => None,
        Some(branch) => match s.git_counts {
            None => Some(branch),
            Some(counts) => Some(branch + seq![' '] + counts),
        },
    }
}

/// The rendered token of one selected item, or `None` when the state holds
/// no value for it.
pub open spec fn token_of(s: StateView, item: StatusItem) -> Option<Seq<char>> {
    match item {
        StatusItem::Model => s.model,
        StatusItem::Effort => s.effort,
        StatusItem::WorkspaceName => s.workspace_name,
        StatusItem::GitBranch => git_token(s),
        StatusItem::Sandbox => s.sandbox,
        StatusItem::Approval => s.approval,
    }
}

/// The rendered tokens of a selection, in selection order, with the absent
/// ones dropped.
pub open spec fn parts_of(s: StateView, items: Seq<StatusItem>) -> Seq<Seq<char>>
    decreases items.len(),
{
    if items.len() == 0 {
        Seq::empty()
    } else {
        let rest = parts_of(s, items.drop_last());
        match token_of(s, items.last()) {
            Some(token) => rest.push(token),
            None => rest,
        }
    }
}

/// The tokens joined with the separator; empty when there is no token.
pub open spec fn join_parts(parts: Seq<Seq<char>>) -> Seq<char>
    decreases parts.len(),
{
    if parts.len() == 0 {
        Seq::empty()
    } else if parts.len() == 1 {
        parts[0]
    } else {
        join_parts(parts.drop_last()) + sep() + parts.last()
    }
}

/// What the dim styling makes of a text. The display content is a function
/// of the text alone.
pub uninterp spec fn dim_of(s: Seq<char>) -> Seq<char>;

/// The primary status line: the joined tokens under the dim style, or the
/// empty string when no token was rendered.
pub open spec fn line2_spec(s: StateView, items: Seq<StatusItem>) -> Seq<char> {
    let parts = parts_of(s, items);
    if parts.len() == 0 {
        Seq::empty()
    } else {
        dim_of(join_parts(parts))
    }
}

/// Relies on ratatui's `Stylize::dim` and on the `Display` impl of its
/// `Span`: the dim modifier changes only the style, and displaying a span
/// writes its content line by line, so text without line-break characters
/// passes through unchanged.
#[verifier::external_body]
pub(crate) fn style_status_line(text: String) -> (r: String)
    ensures
        r@ == dim_of(text@),
        (forall|i: int| 0 <= i < text@.len() ==> text@[i] != '\n' && text@[i] != '\r') ==> r@
            == text@,
{
    ratatui::style::Stylize::dim(text).to_string()
}

/// Render one selected item from the state, or nothing when the field it
/// draws on is absent.
pub(crate) fn render_token(state: &StatusEngineState, item: StatusItem) -> (r: Option<String>)
    ensures
        r.deep_view() == token_of(state@, item),
{
    match item {
        StatusItem::Model => clone_opt(&state.model),
        StatusItem::Effort => clone_opt(&state.effort),
        StatusItem::WorkspaceName => clone_opt(&state.workspace_name),
        StatusItem::GitBranch => match &state.git_branch {
            None => None,
            Some(branch) => {
                let mut token = branch.clone();
                match &state.git_counts {
                    None => {},
                    Some(counts) => {
                        proof {
                            reveal_strlit(" ");
                            assert(" "@ =~= seq![' ']);
                        }
                        token.append(" ");
                        token.append(counts.as_str());
                    },
                }
                Some(token)
            },
        },
        StatusItem::Sandbox => clone_opt(&state.sandbox),
        StatusItem::Approval => clone_opt(&state.approval),
    }
}

/// Clone an optional string field.
pub(crate) fn clone_opt(field: &Option<String>) -> (r: Option<String>)
    ensures
        r.deep_view() == field.deep_view(),
{
    match field {
        None => None,
        Some(text) => Some(text.clone()),
    }
}

/// Render every selected item whose field is present, in selection order.
pub(crate) fn build_parts(state: &StatusEngineState, items: &Vec<StatusItem>) -> (parts: Vec<
    String,
>)
    ensures
        parts.deep_view() == parts_of(state@, items@),
{
    let mut parts: Vec<String> = Vec::new();
    let mut i: usize = 0;
    while i < items.len()
        invariant
            i <= items@.len(),
            parts.deep_view() == parts_of(state@, items@.take(i as int)),
        decreases items@.len() - i,
    {
        let ghost prefix = items@.take(i as int);
        match render_token(state, items[i]) {
            Some(token) => parts.push(token),
            None => {},
        }
        proof {
            assert(items@.take(i + 1).drop_last() =~= prefix);
            assert(items@.take(i + 1).last() == items@[i as int]);
        }
        i = i + 1;
    }
    proof {
        assert(items@.take(items@.len() as int) =~= items@);
    }
    parts
}

/// Join rendered tokens with the separator.
pub(crate) fn join_with_sep(parts: &Vec<String>) -> (r: String)
    requires
        parts@.len() >= 1,
    ensures
        r@ == join_parts(parts.deep_view()),
{
    let mut r = parts[0].clone();
    assert(r@ == join_parts(parts.deep_view().take(1)));
    let mut i: usize = 1;
    while i < parts.len()
        invariant
            1 <= i <= parts@.len(),
            r@ == join_parts(parts.deep_view().take(i as int)),
        decreases parts@.len() - i,
    {
        let ghost prefix = parts.deep_view().take(i as int);
        proof {
            reveal_strlit(" | ");
            assert(" | "@ =~= sep());
            assert(parts.deep_view().take(i + 1).drop_last() =~= prefix);
        }
        r.append(" | ");
        r.append(parts[i].as_str());
        i = i + 1;
    }
    proof {
        assert(parts.deep_view().take(parts@.len() as int) =~= parts.deep_view());
    }
    r
}

/// The total character count of a list of tokens.
pub open spec fn sum_lens(parts: Seq<Seq<char>>) -> int
    decreases parts.len(),
{
    if parts.len() == 0 {
        0
    } else {
        sum_lens(parts.drop_last()) + parts.last().len()
    }
}

/// An integer capped at the machine word's maximum, as the saturating
/// machine arithmetic computes it.
pub open spec fn cap_usize(x: int) -> int {
    if x > usize::MAX {
        usize::MAX as int
    } else {
        x
    }
}

/// The width budget left for the git-branch token: the full width, less the
/// tokens already emitted with their separators, less a separator before the
/// branch token, less a rough fixed allowance of 15 columns for each item
/// still pending after it. Never negative.
pub open spec fn branch_budget(prior: Seq<Seq<char>>, total_items: nat, width: nat) -> int {
    let k = prior.len();
    let sep_before: int = if k == 0 {
        0
    } else {
        3
    };
    let seps_between: int = if k == 0 {
        0
    } else {
        (k - 1) * 3
    };
    let pending: int = if total_items > k + 1 {
        total_items - k - 1
    } else {
        0
    };
    let consumed = sum_lens(prior) + seps_between + sep_before + pending * 15;
    if width >= consumed {
        width - consumed
    } else {
        0
    }
}

/// The rendered tokens of a selection under a width budget: as `parts_of`,
/// except that a git-branch token longer than the budget left at its
/// position is truncated to that budget, when the budget is workable.
pub open spec fn parts_with_width_rec(
    s: StateView,
    items: Seq<StatusItem>,
    total_items: nat,
    width: nat,
) -> Seq<Seq<char>>
    decreases items.len(),
{
    if items.len() == 0 {
        Seq::empty()
    } else {
        let prior = parts_with_width_rec(s, items.drop_last(), total_items, width);
        match token_of(s, items.last()) {
            None => prior,
            Some(token) => {
                if items.last() is GitBranch {
                    let budget = branch_budget(prior, total_items, width);
                    if token.len() > budget && budget > 3 {
                        prior.push(truncate_spec(token, budget as nat))
                    } else {
                        prior.push(token)
                    }
                } else {
                    prior.push(token)
                }
            },
        }
    }
}

/// The rendered tokens of a selection under a width budget.
pub open spec fn parts_with_width(s: StateView, items: Seq<StatusItem>, width: nat) -> Seq<
    Seq<char>,
> {
    parts_with_width_rec(s, items, items.len(), width)
}

/// The width-aware primary status line: tokens built under the width budget,
/// joined, truncated as a whole if they still run over, and dimmed.
pub open spec fn line2_width_spec(s: StateView, items: Seq<StatusItem>, width: nat) -> Seq<char> {
    let parts = parts_with_width(s, items, width);
    if parts.len() == 0 {
        Seq::empty()
    } else {
        let joined = join_parts(parts);
        if joined.len() > width {
            dim_of(truncate_spec(joined, width))
        } else {
            dim_of(joined)
        }
    }
}

/// Compute the width budget left for the git-branch token, saturating at
/// the machine word where the exact tally would not fit; the budget itself
/// is unaffected, since such a tally exhausts any width.
pub(crate) fn branch_budget_exec(parts: &Vec<String>, total_items: usize, width: usize) -> (budget:
    usize)
    requires
        parts@.len() < total_items,
    ensures
        budget == branch_budget(parts.deep_view(), total_items as nat, width as nat),
{
    let k = parts.len();
    let mut others: usize = 0;
    let mut j: usize = 0;
    while j < k
        invariant
            j <= k,
            k == parts@.len(),
            others == cap_usize(sum_lens(parts.deep_view().take(j as int))),
        decreases k - j,
    {
        let ghost sum_before = sum_lens(parts.deep_view().take(j as int));
        others = others.saturating_add(parts[j].as_str().unicode_len());
        proof {
            assert(parts.deep_view().take(j + 1).drop_last() =~= parts.deep_view().take(j as int));
            assert(parts.deep_view().take(j + 1).last() == parts.deep_view()[j as int]);
            assert(others == cap_usize(sum_before + parts.deep_view()[j as int].len()));
        }
        j = j + 1;
    }
    proof {
        assert(parts.deep_view().take(k as int) =~= parts.deep_view());
    }
    let sep_before: usize = if k == 0 {
        0
    } else {
        3
    };
    let seps_between: usize = if k == 0 {
        0
    } else {
        match (k - 1).checked_mul(3) {
            Some(v) => v,
            None => usize::MAX,
        }
    };
    let pending: usize = total_items - k - 1;
    let allowance: usize = match pending.checked_mul(15) {
        Some(v) => v,
        None => usize::MAX,
    };
    let ghost exact = sum_lens(parts.deep_view()) + (if k == 0 {
        0int
    } else {
        (k - 1) * 3
    }) + (if k == 0 {
        0int
    } else {
        3int
    }) + pending * 15;
    let consumed = others.saturating_add(seps_between).saturating_add(sep_before).saturating_add(
        allowance,
    );
    proof {
        assert(consumed == cap_usize(exact));
    }
    width.saturating_sub(consumed)
}

/// A selection with no item, or one whose selected fields are all absent in
/// the state, renders no token at all.
proof fn lemma_parts_all_absent(s: StateView, items: Seq<StatusItem>)
    requires
        forall|i: int| 0 <= i < items.len() ==> token_of(s, items[i]) is None,
    ensures
        parts_of(s, items).len() == 0,
    decreases items.len(),
{
    if items.len() > 0 {
        lemma_parts_all_absent(s, items.drop_last());
        assert(token_of(s, items[items.len() - 1]) is None);
    }
}

/// Composing an empty selection, or a selection whose fields are all absent
/// in the state, yields the empty string.
pub proof fn lemma_compose_empty(s: StateView, items: Seq<StatusItem>)
    requires
        forall|i: int| 0 <= i < items.len() ==> token_of(s, items[i]) is None,
    ensures
        line2_spec(s, items) == Seq::<char>::empty(),
{
    lemma_parts_all_absent(s, items);
}

/// The decimal digit characters.
pub open spec fn digit_char(d: nat) -> char {
    if d == 0 {
        '0'
    } else if d == 1 {
        '1'
    } else if d == 2 {
        '2'
    } else if d == 3 {
        '3'
    } else if d == 4 {
        '4'
    } else if d == 5 {
        '5'
    } else if d == 6 {
        '6'
    } else if d == 7 {
        '7'
    } else if d == 8 {
        '8'
    } else {
        '9'
    }
}

/// The decimal rendering of a number, most significant digit first, with no
/// leading zero except on zero itself.
pub open spec fn dec_str(n: nat) -> Seq<char>
    decreases n,
{
    if n < 10 {
        seq![digit_char(n)]
    } else {
        dec_str(n / 10).push(digit_char(n % 10))
    }
}

/// The rendered diff-counts summary: `+added -removed`.
pub open spec fn counts_text(added: u64, removed: u64) -> Seq<char> {
    seq!['+'] + dec_str(added as nat) + seq![' ', '-'] + dec_str(removed as nat)
}

/// One decimal digit as a string slice.
fn digit_str(d: u64) -> (r: &'static str)
    requires
        d < 10,
    ensures
        r@ == seq![digit_char(d as nat)],
{
    proof {
        reveal_strlit("0");
        reveal_strlit("1");
        reveal_strlit("2");
        reveal_strlit("3");
        reveal_strlit("4");
        reveal_strlit("5");
        reveal_strlit("6");
        reveal_strlit("7");
        reveal_strlit("8");
        reveal_strlit("9");
    }
    match d {
        0 => "0",
        1 => "1",
        2 => "2",
        3 => "3",
        4 => "4",
        5 => "5",
        6 => "6",
        7 => "7",
        8 => "8",
        _ => "9",
    }
}

/// Append the decimal rendering of `n` to `s`.
fn push_dec(s: &mut String, n: u64)
    ensures
        final(s)@ == old(s)@ + dec_str(n as nat),
    decreases n,
{
    if n >= 10 {
        push_dec(s, n / 10);
        s.append(digit_str(n % 10));
    } else {
        s.append(digit_str(n));
    }
}

/// Render the diff-counts summary `+added -removed`.
pub(crate) fn format_counts(added: u64, removed: u64) -> (r: String)
    ensures
        r@ == counts_text(added, removed),
{
    proof {
        reveal_strlit("+");
        reveal_strlit(" -");
        assert("+"@ =~= seq!['+']);
        assert(" -"@ =~= seq![' ', '-']);
    }
    let mut r = String::from_str("+");
    push_dec(&mut r, added);
    r.append(" -");
    push_dec(&mut r, removed);
    proof {
        assert(r@ =~= counts_text(added, removed));
    }
    r
}

/// Character-by-character string equality.
pub(crate) fn str_eq(a: &str, b: &str) -> (r: bool)
    ensures
        r == (a@ == b@),
{
    let an = a.unicode_len();
    let bn = b.unicode_len();
    if an != bn {
        return false;
    }
    let mut i: usize = 0;
    while i < an
        invariant
            i <= an,
            an == a@.len(),
            an == b@.len(),
            forall|j: int| 0 <= j < i ==> a@[j] == b@[j],
        decreases an - i,
    {
        if a.get_char(i) != b.get_char(i) {
            return false;
        }
        i = i + 1;
    }
    proof {
        assert(a@ =~= b@);
    }
    true
}

} // verus!
