//! Bringing the window to the foreground when the shortcut is pressed.
//!
//! An activation is a fixed sequence of requests to the operating system.
//! The caller performs them one at a time and reports how each one went; the
//! controller answers with the request to make next. No report of failure
//! ever cuts the sequence short: a window that was shown but could not be
//! focused is still better than no window at all.

use vstd::prelude::*;
use crate::binding::{Binding, KeyState, ShortcutEvent};

verus! {

/// How the operating system treats a background process that asks for the
/// foreground.
#[derive(Clone, Copy, Debug, PartialEq, Eq, Hash, Structural)]
pub enum Platform {
    /// A plain foreground request is honoured.
    Unrestricted,
    /// Foreground requests are only honoured from a process that has just
    /// received input, so an inert modifier key press is wrapped around the
    /// request.
    ForegroundLocked,
}

/// The choices that differ between builds of the shell.
#[derive(Clone, Copy, Debug, PartialEq, Eq, Hash, Structural)]
pub struct Config {
    pub platform: Platform,
    /// Whether listeners are told that an activation took place.
    pub notify: bool,
}

/// One request that the caller makes on the controller's behalf.
#[derive(Clone, Copy, Debug, PartialEq, Eq, Hash, Structural)]
pub enum Action {
    /// Bring the window back from its minimized state.
    RestoreWindow,
    /// Make the window visible.
    ShowWindow,
    /// Synthesize the key-down half of the inert modifier key press.
    SyntheticKeyDown,
    /// Ask the operating system to make the window the foreground window.
    AssignForeground,
    /// Synthesize the key-up half of the inert modifier key press.
    SyntheticKeyUp,
    /// Ask for keyboard focus.
    RequestFocus,
    /// Emit the payload-less notification named by [`NOTIFICATION`].
    Notify,
}

/// How a request went, as far as the caller can tell.
#[derive(Clone, Copy, Debug, PartialEq, Eq, Hash, Structural)]
pub enum Outcome {
    Done,
    Failed,
}

/// The name under which an activation is announced to listeners.
pub const NOTIFICATION: &'static str = "global-shortcut-activated";

/// The most requests a single activation can make.
pub const MAX_ACTIONS: usize = 7;

/// The requests of one activation under `config`, in the order in which they
/// are made.
pub open spec fn plan(config: Config) -> Seq<Action> {
    let foreground = if config.platform == Platform::ForegroundLocked {
        seq![Action::SyntheticKeyDown, Action::AssignForeground, Action::SyntheticKeyUp]
    } else {
        seq![Action::AssignForeground]
    };
    let close = if config.notify {
        seq![Action::RequestFocus, Action::Notify]
    } else {
        seq![Action::RequestFocus]
    };
    seq![Action::RestoreWindow, Action::ShowWindow] + foreground + close
}

/// The request that follows `prev` under `config`, once `prev` is reported
/// to have gone as `outcome` says. `None` for `prev` stands for the start of
/// an activation, where the outcome is of no account; `None` as the result
/// stands for its end.
pub open spec fn successor(config: Config, prev: Option<Action>, outcome: Outcome) -> Option<
    Action,
> {
    match prev {
        None => Some(Action::RestoreWindow),
        Some(Action::RestoreWindow) => Some(Action::ShowWindow),
        Some(Action::ShowWindow) => if config.platform == Platform::ForegroundLocked {
            Some(Action::SyntheticKeyDown)
        } else {
            Some(Action::AssignForeground)
        },
        Some(Action::SyntheticKeyDown) => Some(Action::AssignForeground),
        Some(Action::AssignForeground) => if config.platform == Platform::ForegroundLocked {
            Some(Action::SyntheticKeyUp)
        } else {
            Some(Action::RequestFocus)
        },
        Some(Action::SyntheticKeyUp) => Some(Action::RequestFocus),
        Some(Action::RequestFocus) => if config.notify {
            Some(Action::Notify)
        } else {
            None
        },
        Some(Action::Notify) => None,
    }
}

/// How far into an activation `prev` lies.
pub open spec fn progress(prev: Option<Action>) -> nat {
    match prev {
        None => 0,
        Some(Action::RestoreWindow) => 1,
        Some(Action::ShowWindow) => 2,
        Some(Action::SyntheticKeyDown) => 3,
        Some(Action::AssignForeground) => 4,
        Some(Action::SyntheticKeyUp) => 5,
        Some(Action::RequestFocus) => 6,
        Some(Action::Notify) => 7,
    }
}

/// Everything the caller is asked to do after `prev`, when the request `a`
/// is reported to have gone as `outcomes(a)` says.
pub open spec fn run_after(
    config: Config,
    prev: Option<Action>,
    outcomes: spec_fn(Action) -> Outcome,
) -> Seq<Action>
    decreases 8 - progress(prev),
{
    let outcome = match prev {
        Some(a) => outcomes(a),
        None => Outcome::Done,
    };
    match successor(config, prev, outcome) {
        None => Seq::empty(),
        Some(a) => seq![a] + run_after(config, Some(a), outcomes),
    }
}

/// A whole activation as the caller experiences it: the requests it is
/// handed, one after the other, under the given outcomes.
pub open spec fn run(config: Config, outcomes: spec_fn(Action) -> Outcome) -> Seq<Action> {
    run_after(config, None, outcomes)
}

/// The request to make after `prev` went as `outcome` says; `None` when the
/// activation is over. Pass `None` for `prev` to begin.
///
/// A reported failure changes nothing: every request is made whatever
/// became of the ones before it.
pub fn next_action(config: Config, prev: Option<Action>, outcome: Outcome) -> (next: Option<Action>)
    ensures
        next == successor(config, prev, outcome),
{
    let locked = match config.platform {
        Platform::ForegroundLocked => true,
        Platform::Unrestricted => false,
    };
    match (prev, outcome) {
        (None, _) => Some(Action::RestoreWindow),
        (Some(Action::RestoreWindow), _) => Some(Action::ShowWindow),
        (Some(Action::ShowWindow), _) => {
            if locked {
                Some(Action::SyntheticKeyDown)
            } else {
                Some(Action::AssignForeground)
            }
        },
        (Some(Action::SyntheticKeyDown), _) => Some(Action::AssignForeground),
        (Some(Action::AssignForeground), _) => {
            if locked {
                Some(Action::SyntheticKeyUp)
            } else {
                Some(Action::RequestFocus)
            }
        },
        (Some(Action::SyntheticKeyUp), _) => Some(Action::RequestFocus),
        (Some(Action::RequestFocus), _) => {
            if config.notify {
                Some(Action::Notify)
            } else {
                None
            }
        },
        (Some(Action::Notify), _) => None,
    }
}

/// The whole plan of an activation under `config`, for callers that would
/// rather walk a list than ask for one request at a time.
pub fn activation_plan(config: Config) -> (actions: Vec<Action>)
    ensures
        actions@ == plan(config),
{
    let mut actions: Vec<Action> = Vec::new();
    actions.push(Action::RestoreWindow);
    actions.push(Action::ShowWindow);
    match config.platform {
        Platform::ForegroundLocked => {
            actions.push(Action::SyntheticKeyDown);
            actions.push(Action::AssignForeground);
            actions.push(Action::SyntheticKeyUp);
        },
        Platform::Unrestricted => {
            actions.push(Action::AssignForeground);
        },
    }
    actions.push(Action::RequestFocus);
    if config.notify {
        actions.push(Action::Notify);
    }
    assert(actions@ =~= plan(config));
    actions
}

/// The application context handed to the shortcut callback: the binding the
/// shell listens for and the configuration it was built with.
#[derive(Clone, Copy, Debug)]
pub struct Controller {
    binding: Binding,
    config: Config,
}

impl Controller {
    pub closed spec fn spec_binding(&self) -> Binding {
        self.binding
    }

    pub closed spec fn spec_config(&self) -> Config {
        self.config
    }

    /// Whether `event` is a press of this controller's binding.
    pub open spec fn triggers(&self, event: ShortcutEvent) -> bool {
        event.binding == self.spec_binding() && event.state == KeyState::Pressed
    }

    /// What the controller asks for in answer to `event`: the whole plan for
    /// a press of its binding, nothing for anything else.
    pub open spec fn response(&self, event: ShortcutEvent) -> Seq<Action> {
        if self.triggers(event) {
            plan(self.spec_config())
        } else {
            Seq::empty()
        }
    }

    pub fn new(binding: Binding, config: Config) -> (c: Controller)
        ensures
            c.spec_binding() == binding,
            c.spec_config() == config,
    {
        Controller { binding, config }
    }

    #[verifier::when_used_as_spec(spec_binding)]
    pub fn binding(&self) -> (b: Binding)
        ensures
            b == self.spec_binding(),
    {
        self.binding
    }

    #[verifier::when_used_as_spec(spec_config)]
    pub fn config(&self) -> (c: Config)
        ensures
            c == self.spec_config(),
    {
        self.config
    }

    /// Decides whether `event` starts an activation: it does when it names
    /// this controller's binding and reports it pressed, and never
    /// otherwise.
    pub fn should_activate(&self, event: &ShortcutEvent) -> (go: bool)
        ensures
            go == self.triggers(*event),
    {
        let pressed = match event.state {
            KeyState::Pressed => true,
            KeyState::Released => false,
        };
        pressed && self.binding.same_as(&event.binding)
    }

    /// The first request of the activation that `event` starts, or `None`
    /// when `event` starts none. Continue with [`Controller::advance`].
    pub fn begin(&self, event: &ShortcutEvent) -> (first: Option<Action>)
        ensures
            self.triggers(*event) ==> first == Some(Action::RestoreWindow),
            !self.triggers(*event) ==> first is None,
    {
        if self.should_activate(event) {
            next_action(self.config, None, Outcome::Done)
        } else {
            None
        }
    }

    /// The request that follows `prev`, whatever `outcome` it had.
    pub fn advance(&self, prev: Action, outcome: Outcome) -> (next: Option<Action>)
        ensures
            next == successor(self.spec_config(), Some(prev), outcome),
    {
        next_action(self.config, Some(prev), outcome)
    }

    /// Everything to do in answer to `event`, as one list.
    pub fn respond(&self, event: &ShortcutEvent) -> (actions: Vec<Action>)
        ensures
            actions@ == self.response(*event),
    {
        if self.should_activate(event) {
            activation_plan(self.config)
        } else {
            Vec::new()
        }
    }
}

/// The plan written out for each of the four configurations.
proof fn lemma_plan_written_out(config: Config)
    ensures
        config.platform == Platform::ForegroundLocked && config.notify ==> plan(config) == seq![
            Action::RestoreWindow,
            Action::ShowWindow,
            Action::SyntheticKeyDown,
            Action::AssignForeground,
            Action::SyntheticKeyUp,
            Action::RequestFocus,
            Action::Notify,
        ],
        config.platform == Platform::ForegroundLocked && !config.notify ==> plan(config) == seq![
            Action::RestoreWindow,
            Action::ShowWindow,
            Action::SyntheticKeyDown,
            Action::AssignForeground,
            Action::SyntheticKeyUp,
            Action::RequestFocus,
        ],
        config.platform == Platform::Unrestricted && config.notify ==> plan(config) == seq![
            Action::RestoreWindow,
            Action::ShowWindow,
            Action::AssignForeground,
            Action::RequestFocus,
            Action::Notify,
        ],
        config.platform == Platform::Unrestricted && !config.notify ==> plan(config) == seq![
            Action::RestoreWindow,
            Action::ShowWindow,
            Action::AssignForeground,
            Action::RequestFocus,
        ],
{
    let locked = config.platform == Platform::ForegroundLocked;
    if locked && config.notify {
        assert(plan(config) =~= seq![
            Action::RestoreWindow,
            Action::ShowWindow,
            Action::SyntheticKeyDown,
            Action::AssignForeground,
            Action::SyntheticKeyUp,
            Action::RequestFocus,
            Action::Notify,
        ]);
    } else if locked {
        assert(plan(config) =~= seq![
            Action::RestoreWindow,
            Action::ShowWindow,
            Action::SyntheticKeyDown,
            Action::AssignForeground,
            Action::SyntheticKeyUp,
            Action::RequestFocus,
        ]);
    } else if config.notify {
        assert(plan(config) =~= seq![
            Action::RestoreWindow,
            Action::ShowWindow,
            Action::AssignForeground,
            Action::RequestFocus,
            Action::Notify,
        ]);
    } else {
        assert(plan(config) =~= seq![
            Action::RestoreWindow,
            Action::ShowWindow,
            Action::AssignForeground,
            Action::RequestFocus,
        ]);
    }
}

/// How a request went has no say in what is asked for next.
pub proof fn lemma_outcome_changes_nothing(
    config: Config,
    prev: Option<Action>,
    one: Outcome,
    other: Outcome,
)
    ensures
        successor(config, prev, one) == successor(config, prev, other),
{
}

/// Whatever the caller reports of any request, it is handed every request
/// of the plan, in the plan's order, and nothing else.
pub proof fn lemma_run_is_plan(config: Config, outcomes: spec_fn(Action) -> Outcome)
    ensures
        run(config, outcomes) == plan(config),
{
    reveal_with_fuel(run_after, 9);
    lemma_plan_written_out(config);
    assert(run(config, outcomes) =~= plan(config));
}

/// A failure of any request, the first included, keeps none of the later
/// ones from being made: the window is still shown, focus is still asked
/// for, and where notifications are switched on the notification is still
/// the last thing sent.
pub proof fn lemma_failures_abort_nothing(config: Config, outcomes: spec_fn(Action) -> Outcome)
    ensures
        run(config, outcomes).contains(Action::RestoreWindow),
        run(config, outcomes).contains(Action::ShowWindow),
        run(config, outcomes).contains(Action::AssignForeground),
        run(config, outcomes).contains(Action::RequestFocus),
        config.notify ==> run(config, outcomes).last() == Action::Notify,
        !config.notify ==> !run(config, outcomes).contains(Action::Notify),
{
    lemma_run_is_plan(config, outcomes);
    lemma_plan_written_out(config);
    let r = run(config, outcomes);
    assert(r[0] == Action::RestoreWindow);
    assert(r[1] == Action::ShowWindow);
    if config.platform == Platform::ForegroundLocked {
        assert(r[3] == Action::AssignForeground);
        assert(r[5] == Action::RequestFocus);
    } else {
        assert(r[2] == Action::AssignForeground);
        assert(r[3] == Action::RequestFocus);
    }
}

/// Where the foreground is locked, the synthetic key goes down immediately
/// before the foreground request and comes up immediately after it, in every
/// run: the three stand side by side, once each.
pub proof fn lemma_key_press_wraps_foreground(config: Config, outcomes: spec_fn(Action) -> Outcome)
    requires
        config.platform == Platform::ForegroundLocked,
    ensures
        run(config, outcomes).no_duplicates(),
        run(config, outcomes).contains(Action::SyntheticKeyDown),
        run(config, outcomes).contains(Action::AssignForeground),
        run(config, outcomes).contains(Action::SyntheticKeyUp),
        run(config, outcomes).index_of(Action::SyntheticKeyDown) + 1 == run(
            config,
            outcomes,
        ).index_of(Action::AssignForeground),
        run(config, outcomes).index_of(Action::AssignForeground) + 1 == run(
            config,
            outcomes,
        ).index_of(Action::SyntheticKeyUp),
{
    lemma_run_is_plan(config, outcomes);
    lemma_plan_written_out(config);
    let r = run(config, outcomes);
    assert(r[2] == Action::SyntheticKeyDown);
    assert(r[3] == Action::AssignForeground);
    assert(r[4] == Action::SyntheticKeyUp);
    assert(r.no_duplicates());
    let d = r.index_of(Action::SyntheticKeyDown);
    let f = r.index_of(Action::AssignForeground);
    let u = r.index_of(Action::SyntheticKeyUp);
    assert(0 <= d < r.len() && r[d] == Action::SyntheticKeyDown);
    assert(0 <= f < r.len() && r[f] == Action::AssignForeground);
    assert(0 <= u < r.len() && r[u] == Action::SyntheticKeyUp);
}

/// Where the foreground is not locked, no key event is ever synthesized.
pub proof fn lemma_no_key_press_without_lock(config: Config, outcomes: spec_fn(Action) -> Outcome)
    requires
        config.platform == Platform::Unrestricted,
    ensures
        !run(config, outcomes).contains(Action::SyntheticKeyDown),
        !run(config, outcomes).contains(Action::SyntheticKeyUp),
{
    lemma_run_is_plan(config, outcomes);
    lemma_plan_written_out(config);
}

/// An activation is over after at most `MAX_ACTIONS` requests, and makes no
/// request twice.
pub proof fn lemma_run_is_bounded(config: Config, outcomes: spec_fn(Action) -> Outcome)
    ensures
        run(config, outcomes).len() <= MAX_ACTIONS,
        run(config, outcomes).no_duplicates(),
{
    lemma_run_is_plan(config, outcomes);
    lemma_plan_written_out(config);
}

/// A release of the binding, and any event for another binding, starts
/// nothing.
pub proof fn lemma_only_press_of_binding_activates(controller: Controller, event: ShortcutEvent)
    ensures
        event.state == KeyState::Released ==> controller.response(event) == Seq::<Action>::empty(),
        event.binding != controller.spec_binding() ==> controller.response(event) == Seq::<
            Action,
        >::empty(),
        event.state == KeyState::Pressed && event.binding == controller.spec_binding()
            ==> controller.response(event) == plan(controller.spec_config()),
{
}

} // verus!
