//! The decisions of a request to the query layer: translate the prompt, check
//! the query with a dry run, execute it, and heal it once if it fails; the
//! healed query is checked with a dry run too before it is executed.
//!
//! The work itself (calling the model, the database) is done by the caller,
//! who performs each action and reports what came of it as an event.
use vstd::prelude::*;
use vstd::string::*;

verus! {

/// The message with which a request ends when the dry run rejects the query.
pub open spec fn dry_run_failed_message() -> Seq<char> {
    "Dry run failed for generated query"@
}

/// Where a request stands.
pub enum AskStep {
    /// Waiting for the translation of the prompt.
    Translating,
    /// Waiting for the dry run of a query; `healed` when it is the healed one.
    CheckingDryRun { query: String, healed: bool },
    /// Waiting for the execution of a query; `healed` when it is the healed one.
    Executing { query: String, healed: bool },
    /// Waiting for the healer's new query.
    Healing { query: String },
    /// The request is over.
    Done,
}

/// What the caller reports after performing an action.
pub enum AskEvent {
    /// The translator produced a plan with this query.
    Translated { query: String },
    /// The dry run accepted (`true`) or rejected the query.
    DryRunChecked { ok: bool },
    /// The engine ran the query.
    Executed { success: bool, error: Option<String> },
    /// The healer produced a plan with this query.
    Healed { query: String },
    /// The action failed with this error.
    Failed { message: String },
}

/// What the caller is to do next.
pub enum AskAction {
    /// Translate the prompt.
    Translate,
    /// Check the query with a dry run.
    DryRun { query: String },
    /// Execute the query.
    Execute { query: String },
    /// Ask the healer to repair the query that failed with the error.
    Heal { query: String, error: String },
    /// Answer with the result of the last execution.
    Finish,
    /// Answer with this error.
    Fail { message: String },
}

pub enum AskStepView {
    Translating,
    CheckingDryRun { query: Seq<char>, healed: bool },
    Executing { query: Seq<char>, healed: bool },
    Healing { query: Seq<char> },
    Done,
}

pub enum AskEventView {
    Translated { query: Seq<char> },
    DryRunChecked { ok: bool },
    Executed { success: bool, error: Option<Seq<char>> },
    Healed { query: Seq<char> },
    Failed { message: Seq<char> },
}

pub enum AskActionView {
    Translate,
    DryRun { query: Seq<char> },
    Execute { query: Seq<char> },
    Heal { query: Seq<char>, error: Seq<char> },
    Finish,
    Fail { message: Seq<char> },
}

impl View for AskStep {
    type V = AskStepView;

    open spec fn view(&self) -> AskStepView {
        match self {
            AskStep::Translating => AskStepView::Translating,
            AskStep::CheckingDryRun { query, healed } => AskStepView::CheckingDryRun {
                query: query@,
                healed: *healed,
            },
            AskStep::Executing { query, healed } => AskStepView::Executing {
                query: query@,
                healed: *healed,
            },
            AskStep::Healing { query } => AskStepView::Healing { query: query@ },
            AskStep::Done => AskStepView::Done,
        }
    }
}

impl View for AskEvent {
    type V = AskEventView;

    open spec fn view(&self) -> AskEventView {
        match self {
            AskEvent::Translated { query } => AskEventView::Translated { query: query@ },
            AskEvent::DryRunChecked { ok } => AskEventView::DryRunChecked { ok: *ok },
            AskEvent::Executed { success, error } => AskEventView::Executed {
                success: *success,
                error: crate::model::opt_str(*error),
            },
            AskEvent::Healed { query } => AskEventView::Healed { query: query@ },
            AskEvent::Failed { message } => AskEventView::Failed { message: message@ },
        }
    }
}

impl View for AskAction {
    type V = AskActionView;

    open spec fn view(&self) -> AskActionView {
        match self {
            AskAction::Translate => AskActionView::Translate,
            AskAction::DryRun { query } => AskActionView::DryRun { query: query@ },
            AskAction::Execute { query } => AskActionView::Execute { query: query@ },
            AskAction::Heal { query, error } => AskActionView::Heal {
                query: query@,
                error: error@,
            },
            AskAction::Finish => AskActionView::Finish,
            AskAction::Fail { message } => AskActionView::Fail { message: message@ },
        }
    }
}

/// The event is one that the step waits for (a failure is always possible).
pub open spec fn expects(s: AskStepView, e: AskEventView) -> bool {
    match (s, e) {
        (AskStepView::Done, _) => false,
        (_, AskEventView::Failed { .. }) => true,
        (AskStepView::Translating, AskEventView::Translated { .. }) => true,
        (AskStepView::CheckingDryRun { .. }, AskEventView::DryRunChecked { .. }) => true,
        (AskStepView::Executing { .. }, AskEventView::Executed { .. }) => true,
        (AskStepView::Healing { .. }, AskEventView::Healed { .. }) => true,
        _ => false,
    }
}

/// The step and action that follow a step and an event.
pub open spec fn next_spec(s: AskStepView, e: AskEventView) -> (AskStepView, AskActionView) {
    match e {
        AskEventView::Failed { message } => (AskStepView::Done, AskActionView::Fail { message }),
        AskEventView::Translated { query } => (
            AskStepView::CheckingDryRun { query, healed: false },
            AskActionView::DryRun { query },
        ),
        AskEventView::DryRunChecked { ok } => match s {
            AskStepView::CheckingDryRun { query, healed } => if ok {
                (AskStepView::Executing { query, healed }, AskActionView::Execute { query })
            } else {
                (AskStepView::Done, AskActionView::Fail { message: dry_run_failed_message() })
            },
            _ => (AskStepView::Done, AskActionView::Finish),
        },
        AskEventView::Executed { success, error } => match s {
            AskStepView::Executing { query, healed } => if !healed && !success
                && error is Some {
                (AskStepView::Healing { query }, AskActionView::Heal { query, error: error->0 })
            } else {
                (AskStepView::Done, AskActionView::Finish)
            },
            _ => (AskStepView::Done, AskActionView::Finish),
        },
        AskEventView::Healed { query } => (
            AskStepView::CheckingDryRun { query, healed: true },
            AskActionView::DryRun { query },
        ),
    }
}

impl AskStep {
    /// A request starts by translating the prompt.
    pub fn start() -> (r: (AskStep, AskAction))
        ensures
            r.0@ == AskStepView::Translating,
            r.1@ == AskActionView::Translate,
    {
        (AskStep::Translating, AskAction::Translate)
    }

    /// The request is over.
    pub fn is_done(&self) -> (r: bool)
        ensures
            r == (self@ is Done),
    {
        match self {
            AskStep::Done => true,
            _ => false,
        }
    }

    /// Decides what follows an event.
    pub fn next(self, event: AskEvent) -> (r: (AskStep, AskAction))
        ensures
            (r.0@, r.1@) == next_spec(self@, event@),
    {
        match event {
            AskEvent::Failed { message } => (AskStep::Done, AskAction::Fail { message }),
            AskEvent::Translated { query } => {
                let q = query.clone();
                (AskStep::CheckingDryRun { query, healed: false }, AskAction::DryRun { query: q })
            },
            AskEvent::DryRunChecked { ok } => match self {
                AskStep::CheckingDryRun { query, healed } => {
                    if ok {
                        let q = query.clone();
                        (AskStep::Executing { query, healed }, AskAction::Execute { query: q })
                    } else {
                        (
                            AskStep::Done,
                            AskAction::Fail {
                                message: String::from_str("Dry run failed for generated query"),
                            },
                        )
                    }
                },
                _ => (AskStep::Done, AskAction::Finish),
            },
            AskEvent::Executed { success, error } => match self {
                AskStep::Executing { query, healed } => {
                    if !healed && !success {
                        match error {
                            Some(message) => {
                                let q = query.clone();
                                (AskStep::Healing { query }, AskAction::Heal { query: q, error: message })
                            },
                            None => (AskStep::Done, AskAction::Finish),
                        }
                    } else {
                        (AskStep::Done, AskAction::Finish)
                    }
                },
                _ => (AskStep::Done, AskAction::Finish),
            },
            AskEvent::Healed { query } => {
                let q = query.clone();
                (AskStep::CheckingDryRun { query, healed: true }, AskAction::DryRun { query: q })
            },
        }
    }
}

/// The actions a request takes from step `s` when the events come in order,
/// up to the event that ends it (later events are not looked at).
pub open spec fn run_from(s: AskStepView, events: Seq<AskEventView>) -> Seq<AskActionView>
    decreases events.len(),
{
    if events.len() == 0 || s is Done || !expects(s, events[0]) {
        Seq::empty()
    } else {
        let (s2, a) = next_spec(s, events[0]);
        seq![a] + run_from(s2, events.drop_first())
    }
}

/// The number of heal actions in a sequence of actions.
pub open spec fn heal_count(actions: Seq<AskActionView>) -> nat
    decreases actions.len(),
{
    if actions.len() == 0 {
        0
    } else {
        (if actions[0] is Heal { 1nat } else { 0nat }) + heal_count(actions.drop_first())
    }
}

/// The step may still lead to healing.
pub open spec fn may_heal(s: AskStepView) -> bool {
    match s {
        AskStepView::Translating => true,
        AskStepView::CheckingDryRun { healed, .. } => !healed,
        AskStepView::Executing { healed, .. } => !healed,
        _ => false,
    }
}

proof fn lemma_heal_bound(s: AskStepView, events: Seq<AskEventView>)
    ensures
        heal_count(run_from(s, events)) <= (if may_heal(s) { 1nat } else { 0nat }),
    decreases events.len(),
{
    if events.len() == 0 || s is Done || !expects(s, events[0]) {
    } else {
        let (s2, a) = next_spec(s, events[0]);
        lemma_heal_bound(s2, events.drop_first());
        let rest = run_from(s2, events.drop_first());
        assert((seq![a] + rest).drop_first() =~= rest);
    }
}

/// A request heals its query at most once, whatever the events.
pub proof fn law_heals_at_most_once(events: Seq<AskEventView>)
    ensures
        heal_count(run_from(AskStepView::Translating, events)) <= 1,
{
    lemma_heal_bound(AskStepView::Translating, events);
}

/// A query is executed only once the dry run accepted it; when the dry run
/// rejects it, the request ends with the dry-run error and executes nothing.
pub proof fn law_dry_run_guards_execution(query: Seq<char>, healed: bool, ok: bool)
    ensures
        ok ==> next_spec(
            AskStepView::CheckingDryRun { query, healed },
            AskEventView::DryRunChecked { ok },
        ) == (AskStepView::Executing { query, healed }, AskActionView::Execute { query }),
        !ok ==> next_spec(
            AskStepView::CheckingDryRun { query, healed },
            AskEventView::DryRunChecked { ok },
        ) == (AskStepView::Done, AskActionView::Fail { message: dry_run_failed_message() }),
{
}

/// A failed execution with an error message is healed with that query and
/// that message; the healed query is then checked with a dry run.
pub proof fn law_failure_is_healed(query: Seq<char>, message: Seq<char>, healed_query: Seq<char>)
    ensures
        next_spec(
            AskStepView::Executing { query, healed: false },
            AskEventView::Executed { success: false, error: Some(message) },
        ) == (AskStepView::Healing { query }, AskActionView::Heal { query, error: message }),
        next_spec(
            AskStepView::Healing { query },
            AskEventView::Healed { query: healed_query },
        ) == (
            AskStepView::CheckingDryRun { query: healed_query, healed: true },
            AskActionView::DryRun { query: healed_query },
        ),
{
}

/// The step waits for the dry run of `q`.
pub open spec fn holds_query(s: AskStepView, q: Seq<char>) -> bool {
    match s {
        AskStepView::CheckingDryRun { query, .. } => query == q,
        _ => false,
    }
}

proof fn lemma_next_shape(s: AskStepView, e: AskEventView)
    ensures
        next_spec(s, e).1 is Execute ==> e == (AskEventView::DryRunChecked { ok: true })
            && holds_query(s, next_spec(s, e).1->Execute_query),
        next_spec(s, e).0 is CheckingDryRun ==> next_spec(s, e).1 == (AskActionView::DryRun {
            query: next_spec(s, e).0->CheckingDryRun_query,
        }),
{
}

/// Every execution in the actions taken from `s` follows the acceptance of its
/// dry run.
pub open spec fn executions_checked(
    s: AskStepView,
    events: Seq<AskEventView>,
    acts: Seq<AskActionView>,
) -> bool {
    &&& acts.len() <= events.len()
    &&& forall|k: int|
        0 <= k < acts.len() && (#[trigger] acts[k]) is Execute ==> events[k] == (
        AskEventView::DryRunChecked { ok: true }) && (if k == 0 {
            holds_query(s, acts[k]->Execute_query)
        } else {
            acts[k - 1] == (AskActionView::DryRun { query: acts[k]->Execute_query })
        })
}

proof fn lemma_executions_checked_step(
    s: AskStepView,
    e: AskEventView,
    a: AskActionView,
    s2: AskStepView,
    rest_events: Seq<AskEventView>,
    rest: Seq<AskActionView>,
)
    requires
        a is Execute ==> e == (AskEventView::DryRunChecked { ok: true }) && holds_query(
            s,
            a->Execute_query,
        ),
        s2 is CheckingDryRun ==> a == (AskActionView::DryRun { query: s2->CheckingDryRun_query }),
        executions_checked(s2, rest_events, rest),
    ensures
        executions_checked(s, seq![e] + rest_events, seq![a] + rest),
{
    let all = seq![a] + rest;
    let evs = seq![e] + rest_events;
    assert forall|k: int| 0 <= k < all.len() && (#[trigger] all[k]) is Execute implies evs[k] == (
    AskEventView::DryRunChecked { ok: true }) && (if k == 0 {
        holds_query(s, all[k]->Execute_query)
    } else {
        all[k - 1] == (AskActionView::DryRun { query: all[k]->Execute_query })
    }) by {
        if k > 0 {
            assert(all[k] == rest[k - 1]);
            assert(evs[k] == rest_events[k - 1]);
            if k > 1 {
                assert(all[k - 1] == rest[k - 2]);
            }
        }
    }
}

proof fn lemma_executions_checked(s: AskStepView, events: Seq<AskEventView>)
    ensures
        executions_checked(s, events, run_from(s, events)),
    decreases events.len(),
{
    if events.len() == 0 || s is Done || !expects(s, events[0]) {
    } else {
        let r = next_spec(s, events[0]);
        let rest_events = events.drop_first();
        lemma_executions_checked(r.0, rest_events);
        lemma_next_shape(s, events[0]);
        lemma_executions_checked_step(s, events[0], r.1, r.0, rest_events, run_from(r.0, rest_events));
        assert(events =~= seq![events[0]] + rest_events);
    }
}

/// Every query that a request executes, the translated one and the healed one
/// alike, was first sent to the dry run, and the dry run accepted it: the action
/// before each execution is the dry run of the same query, and the event that
/// leads to the execution is the dry run's acceptance.
pub proof fn law_every_execution_is_dry_run_first(events: Seq<AskEventView>, k: int, q: Seq<char>)
    requires
        0 <= k < run_from(AskStepView::Translating, events).len(),
        run_from(AskStepView::Translating, events)[k] == (AskActionView::Execute { query: q }),
    ensures
        k >= 1,
        run_from(AskStepView::Translating, events)[k - 1] == (AskActionView::DryRun { query: q }),
        events[k] == (AskEventView::DryRunChecked { ok: true }),
{
    lemma_executions_checked(AskStepView::Translating, events);
    assert(run_from(AskStepView::Translating, events)[k] is Execute);
}

} // verus!
