use window_activation::activation::{
    activation_plan, next_action, Action, Config, Controller, Outcome, Platform, MAX_ACTIONS,
    NOTIFICATION,
};
use window_activation::binding::{Binding, Key, KeyState, Modifiers, ShortcutEvent};

fn control_shift_t() -> Binding {
    Binding::new(Modifiers::control_shift(), Key::T)
}

fn locked() -> Config {
    Config { platform: Platform::ForegroundLocked, notify: true }
}

fn count(actions: &[Action], wanted: Action) -> usize {
    actions.iter().filter(|a| **a == wanted).count()
}

fn place(actions: &[Action], wanted: Action) -> usize {
    actions.iter().position(|a| *a == wanted).unwrap()
}

/// Walks an activation one request at a time, reporting `Failed` for every
/// request listed in `failing`.
fn walk(config: Config, failing: &[Action]) -> Vec<Action> {
    let mut made = Vec::new();
    let mut prev: Option<Action> = None;
    let mut outcome = Outcome::Done;
    while let Some(action) = next_action(config, prev, outcome) {
        made.push(action);
        outcome = if failing.contains(&action) { Outcome::Failed } else { Outcome::Done };
        prev = Some(action);
        assert!(made.len() <= MAX_ACTIONS);
    }
    made
}

#[test]
fn press_of_the_binding_runs_the_whole_sequence() {
    let controller = Controller::new(control_shift_t(), locked());
    let actions = controller.respond(&ShortcutEvent::pressed(control_shift_t()));
    assert_eq!(
        actions,
        vec![
            Action::RestoreWindow,
            Action::ShowWindow,
            Action::SyntheticKeyDown,
            Action::AssignForeground,
            Action::SyntheticKeyUp,
            Action::RequestFocus,
            Action::Notify,
        ]
    );
    assert_eq!(count(&actions, Action::RestoreWindow), 1);
    assert_eq!(count(&actions, Action::ShowWindow), 1);
    assert_eq!(count(&actions, Action::RequestFocus), 1);
    assert_eq!(count(&actions, Action::Notify), 1);
}

#[test]
fn press_of_another_combination_does_nothing() {
    let controller = Controller::new(control_shift_t(), locked());
    let other_key = Binding::new(Modifiers::control_shift(), Key::Y);
    let other_modifiers = Binding::new(
        Modifiers { control: true, shift: false, alt: false, meta: false },
        Key::T,
    );
    let plus_alt = Binding::new(
        Modifiers { control: true, shift: true, alt: true, meta: false },
        Key::T,
    );
    for binding in [other_key, other_modifiers, plus_alt] {
        let event = ShortcutEvent::pressed(binding);
        assert!(!controller.should_activate(&event));
        assert_eq!(controller.respond(&event), Vec::<Action>::new());
        assert_eq!(controller.begin(&event), None);
    }
}

#[test]
fn release_of_the_binding_does_nothing() {
    let controller = Controller::new(control_shift_t(), locked());
    let event = ShortcutEvent::released(control_shift_t());
    assert_eq!(event.state, KeyState::Released);
    assert!(!controller.should_activate(&event));
    assert_eq!(controller.respond(&event), Vec::<Action>::new());
    assert_eq!(controller.begin(&event), None);
}

#[test]
fn press_then_release_activates_once() {
    let controller = Controller::new(control_shift_t(), locked());
    let stream = [
        ShortcutEvent::pressed(control_shift_t()),
        ShortcutEvent::released(control_shift_t()),
    ];
    let mut notifications = 0;
    for event in stream.iter() {
        notifications += count(&controller.respond(event), Action::Notify);
    }
    assert_eq!(notifications, 1);
}

#[test]
fn synthetic_key_press_wraps_the_foreground_request() {
    let actions = activation_plan(locked());
    let down = place(&actions, Action::SyntheticKeyDown);
    let assign = place(&actions, Action::AssignForeground);
    let up = place(&actions, Action::SyntheticKeyUp);
    assert!(down < assign);
    assert!(assign < up);
    assert_eq!(down + 1, assign);
    assert_eq!(assign + 1, up);
    assert_eq!(count(&actions, Action::SyntheticKeyDown), 1);
    assert_eq!(count(&actions, Action::AssignForeground), 1);
    assert_eq!(count(&actions, Action::SyntheticKeyUp), 1);
}

#[test]
fn unrestricted_platform_skips_the_workaround() {
    let config = Config { platform: Platform::Unrestricted, notify: true };
    assert_eq!(
        activation_plan(config),
        vec![
            Action::RestoreWindow,
            Action::ShowWindow,
            Action::AssignForeground,
            Action::RequestFocus,
            Action::Notify,
        ]
    );
}

#[test]
fn notification_can_be_switched_off() {
    let quiet_locked = Config { platform: Platform::ForegroundLocked, notify: false };
    assert_eq!(
        activation_plan(quiet_locked),
        vec![
            Action::RestoreWindow,
            Action::ShowWindow,
            Action::SyntheticKeyDown,
            Action::AssignForeground,
            Action::SyntheticKeyUp,
            Action::RequestFocus,
        ]
    );
    let quiet = Config { platform: Platform::Unrestricted, notify: false };
    assert_eq!(
        activation_plan(quiet),
        vec![
            Action::RestoreWindow,
            Action::ShowWindow,
            Action::AssignForeground,
            Action::RequestFocus,
        ]
    );
}

#[test]
fn failed_restore_still_ends_with_the_notification() {
    let made = walk(locked(), &[Action::RestoreWindow]);
    assert_eq!(made, activation_plan(locked()));
    assert_eq!(made.last(), Some(&Action::Notify));
    assert_eq!(count(&made, Action::ShowWindow), 1);
    assert_eq!(count(&made, Action::RequestFocus), 1);
}

#[test]
fn no_failure_shortens_an_activation() {
    let every = [
        Action::RestoreWindow,
        Action::ShowWindow,
        Action::SyntheticKeyDown,
        Action::AssignForeground,
        Action::SyntheticKeyUp,
        Action::RequestFocus,
        Action::Notify,
    ];
    for platform in [Platform::Unrestricted, Platform::ForegroundLocked] {
        for notify in [false, true] {
            let config = Config { platform, notify };
            let plan = activation_plan(config);
            assert_eq!(walk(config, &[]), plan);
            assert_eq!(walk(config, &every), plan);
            for failing in every.iter() {
                assert_eq!(walk(config, &[*failing]), plan);
            }
        }
    }
}

#[test]
fn stepping_through_the_controller_matches_its_plan() {
    let controller = Controller::new(control_shift_t(), locked());
    let event = ShortcutEvent::pressed(control_shift_t());
    let mut made = Vec::new();
    let mut next = controller.begin(&event);
    while let Some(action) = next {
        made.push(action);
        next = controller.advance(action, Outcome::Failed);
    }
    assert_eq!(made, controller.respond(&event));
    assert_eq!(made.len(), 7);
}

#[test]
fn an_activation_is_short() {
    assert_eq!(MAX_ACTIONS, 7);
    for platform in [Platform::Unrestricted, Platform::ForegroundLocked] {
        for notify in [false, true] {
            assert!(activation_plan(Config { platform, notify }).len() <= MAX_ACTIONS);
        }
    }
    assert_eq!(next_action(locked(), Some(Action::Notify), Outcome::Done), None);
    let quiet = Config { platform: Platform::Unrestricted, notify: false };
    assert_eq!(next_action(quiet, Some(Action::RequestFocus), Outcome::Done), None);
}

#[test]
fn controller_keeps_what_it_was_built_with() {
    let controller = Controller::new(control_shift_t(), locked());
    assert_eq!(controller.binding(), control_shift_t());
    assert_eq!(controller.config(), locked());
    assert_eq!(controller.binding().key, Key::T);
    assert!(controller.binding().modifiers.control);
    assert!(controller.binding().modifiers.shift);
    assert!(!controller.binding().modifiers.alt);
    assert!(!controller.binding().modifiers.meta);
}

#[test]
fn notification_has_its_name() {
    assert_eq!(NOTIFICATION, "global-shortcut-activated");
}

#[test]
fn bindings_compare_by_modifiers_and_key() {
    let a = control_shift_t();
    assert!(a.same_as(&control_shift_t()));
    assert!(!a.same_as(&Binding::new(Modifiers::none(), Key::T)));
    assert!(!a.same_as(&Binding::new(Modifiers::control_shift(), Key::F5)));
    assert_eq!(Modifiers::none(), Modifiers { control: false, shift: false, alt: false, meta: false });
}
