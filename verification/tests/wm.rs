use boringwm::keys::{Keybindings, MultimediaKeycodes};
use boringwm::state::WmState;
use boringwm::wm::{
    border_colors, contains_atom, focused_window, plan_close, resolve_command, step,
    window_is_fullscreen, Action, CloseAction, Command, WmEvent, BORDER_FOCUSED, BORDER_NORMAL,
};

fn test_bindings() -> Keybindings {
    Keybindings {
        terminal: vec![36],
        close: vec![24],
        focus_next: vec![44],
        focus_prev: vec![45],
        file_manager: vec![28],
        browser: vec![56],
        launcher: vec![40],
    }
}

fn test_multimedia() -> MultimediaKeycodes {
    MultimediaKeycodes { volume_down: vec![122], volume_mute: vec![121], volume_up: vec![123] }
}

#[test]
fn bound_keycodes_resolve_to_their_commands() {
    let b = test_bindings();
    let m = test_multimedia();
    assert_eq!(resolve_command(&b, &m, 36), Some(Command::Terminal));
    assert_eq!(resolve_command(&b, &m, 24), Some(Command::Close));
    assert_eq!(resolve_command(&b, &m, 44), Some(Command::FocusNext));
    assert_eq!(resolve_command(&b, &m, 45), Some(Command::FocusPrev));
    assert_eq!(resolve_command(&b, &m, 28), Some(Command::FileManager));
    assert_eq!(resolve_command(&b, &m, 56), Some(Command::Browser));
    assert_eq!(resolve_command(&b, &m, 40), Some(Command::Launcher));
    assert_eq!(resolve_command(&b, &m, 123), Some(Command::VolumeUp));
    assert_eq!(resolve_command(&b, &m, 122), Some(Command::VolumeDown));
    assert_eq!(resolve_command(&b, &m, 121), Some(Command::VolumeMute));
    assert_eq!(resolve_command(&b, &m, 99), None);
}

#[test]
fn command_bindings_take_precedence_over_multimedia() {
    let b = test_bindings();
    let mut m = test_multimedia();
    m.volume_up = vec![36];
    assert_eq!(resolve_command(&b, &m, 36), Some(Command::Terminal));
}

#[test]
fn advertised_close_convention_gets_a_client_message() {
    let advertised = Some(vec![300, 400, 500]);
    let r = plan_close(Some(1), Some(400), &advertised);
    assert_eq!(r, CloseAction::Graceful { protocols_atom: 1, delete_atom: 400 });
}

#[test]
fn unadvertised_close_convention_forces_termination() {
    let advertised = Some(vec![300, 500]);
    assert_eq!(plan_close(Some(1), Some(400), &advertised), CloseAction::Force);
    assert_eq!(plan_close(Some(1), Some(400), &None), CloseAction::Force);
    assert_eq!(plan_close(None, Some(400), &Some(vec![400])), CloseAction::Force);
    assert_eq!(plan_close(Some(1), None, &Some(vec![400])), CloseAction::Force);
}

#[test]
fn map_request_manages_and_focuses_the_window() {
    let mut state = WmState::new();
    state.add_window(10);
    let actions = step(
        &mut state,
        &test_bindings(),
        &test_multimedia(),
        &WmEvent::MapRequest { window: 20, bypass_tiling: false },
    );
    assert_eq!(state.windows, vec![10, 20]);
    assert_eq!(state.focused, 1);
    assert_eq!(actions, vec![Action::ManageWindow { window: 20 }]);
}

#[test]
fn bypassed_map_request_is_mapped_unmanaged() {
    let mut state = WmState::new();
    let actions = step(
        &mut state,
        &test_bindings(),
        &test_multimedia(),
        &WmEvent::MapRequest { window: 20, bypass_tiling: true },
    );
    assert!(state.windows.is_empty());
    assert_eq!(actions, vec![Action::MapUnmanaged { window: 20 }]);
}

#[test]
fn destroy_notify_removes_the_window() {
    let mut state = WmState::new();
    state.add_window(10);
    state.add_window(20);
    let actions = step(
        &mut state,
        &test_bindings(),
        &test_multimedia(),
        &WmEvent::DestroyNotify { window: 20 },
    );
    assert_eq!(state.windows, vec![10]);
    assert_eq!(state.focused, 0);
    assert!(actions.is_empty());
}

#[test]
fn unmap_notify_of_unmanaged_window_is_idempotent() {
    let mut state = WmState::new();
    state.add_window(10);
    let actions = step(
        &mut state,
        &test_bindings(),
        &test_multimedia(),
        &WmEvent::UnmapNotify { window: 99 },
    );
    assert_eq!(state.windows, vec![10]);
    assert!(actions.is_empty());
}

#[test]
fn close_key_requests_close_of_the_focused_window() {
    let mut state = WmState::new();
    state.add_window(10);
    state.add_window(20);
    state.focused = 0;
    let actions = step(
        &mut state,
        &test_bindings(),
        &test_multimedia(),
        &WmEvent::KeyPress { keycode: 24 },
    );
    assert_eq!(actions, vec![Action::RequestClose { window: 10 }]);
    assert_eq!(state.windows, vec![10, 20]);
}

#[test]
fn close_key_with_nothing_managed_does_nothing() {
    let mut state = WmState::new();
    let actions = step(
        &mut state,
        &test_bindings(),
        &test_multimedia(),
        &WmEvent::KeyPress { keycode: 24 },
    );
    assert!(actions.is_empty());
}

#[test]
fn focus_keys_rotate_focus() {
    let mut state = WmState::new();
    state.windows = vec![1, 2, 3];
    state.focused = 2;
    let actions = step(
        &mut state,
        &test_bindings(),
        &test_multimedia(),
        &WmEvent::KeyPress { keycode: 44 },
    );
    assert_eq!(state.focused, 0);
    assert!(actions.is_empty());
    step(&mut state, &test_bindings(), &test_multimedia(), &WmEvent::KeyPress { keycode: 45 });
    assert_eq!(state.focused, 2);
}

#[test]
fn spawn_keys_emit_spawn_actions() {
    let mut state = WmState::new();
    let b = test_bindings();
    let m = test_multimedia();
    assert_eq!(
        step(&mut state, &b, &m, &WmEvent::KeyPress { keycode: 36 }),
        vec![Action::SpawnTerminal]
    );
    assert_eq!(
        step(&mut state, &b, &m, &WmEvent::KeyPress { keycode: 28 }),
        vec![Action::SpawnFileManager]
    );
    assert_eq!(
        step(&mut state, &b, &m, &WmEvent::KeyPress { keycode: 56 }),
        vec![Action::SpawnBrowser]
    );
    assert_eq!(
        step(&mut state, &b, &m, &WmEvent::KeyPress { keycode: 40 }),
        vec![Action::SpawnLauncher]
    );
    assert_eq!(
        step(&mut state, &b, &m, &WmEvent::KeyPress { keycode: 123 }),
        vec![Action::VolumeUp]
    );
    assert_eq!(
        step(&mut state, &b, &m, &WmEvent::KeyPress { keycode: 122 }),
        vec![Action::VolumeDown]
    );
    assert_eq!(
        step(&mut state, &b, &m, &WmEvent::KeyPress { keycode: 121 }),
        vec![Action::VolumeMute]
    );
    assert_eq!(step(&mut state, &b, &m, &WmEvent::KeyPress { keycode: 99 }), vec![]);
}

#[test]
fn focus_in_reconciles_focus_to_the_notified_window() {
    let mut state = WmState::new();
    state.windows = vec![1, 2, 3];
    state.focused = 0;
    let actions = step(
        &mut state,
        &test_bindings(),
        &test_multimedia(),
        &WmEvent::FocusIn { window: 3 },
    );
    assert_eq!(state.focused, 2);
    assert!(actions.is_empty());
    // an unmanaged window leaves focus alone
    step(&mut state, &test_bindings(), &test_multimedia(), &WmEvent::FocusIn { window: 9 });
    assert_eq!(state.focused, 2);
}

#[test]
fn configure_request_of_unmanaged_window_is_forwarded() {
    let mut state = WmState::new();
    state.add_window(10);
    let actions = step(
        &mut state,
        &test_bindings(),
        &test_multimedia(),
        &WmEvent::ConfigureRequest { window: 50 },
    );
    assert_eq!(actions, vec![Action::ForwardConfigure { window: 50 }]);
    let actions = step(
        &mut state,
        &test_bindings(),
        &test_multimedia(),
        &WmEvent::ConfigureRequest { window: 10 },
    );
    assert!(actions.is_empty());
}

#[test]
fn other_events_are_ignored() {
    let mut state = WmState::new();
    state.add_window(10);
    let actions = step(&mut state, &test_bindings(), &test_multimedia(), &WmEvent::Other);
    assert_eq!(state.windows, vec![10]);
    assert_eq!(state.focused, 0);
    assert!(actions.is_empty());
}

#[test]
fn border_colors_highlight_the_focused_window() {
    let mut state = WmState::new();
    state.windows = vec![1, 2, 3];
    state.focused = 1;
    assert_eq!(border_colors(&state), vec![BORDER_NORMAL, BORDER_FOCUSED, BORDER_NORMAL]);
}

#[test]
fn focused_window_names_the_window_at_the_focus_index() {
    let mut state = WmState::new();
    assert_eq!(focused_window(&state), None);
    state.windows = vec![5, 6];
    state.focused = 1;
    assert_eq!(focused_window(&state), Some(6));
}

#[test]
fn fullscreen_state_is_read_from_the_atom_list() {
    assert!(window_is_fullscreen(&vec![7, 8, 9], 8));
    assert!(!window_is_fullscreen(&vec![7, 9], 8));
    assert!(contains_atom(&vec![1, 2], 2));
    assert!(!contains_atom(&vec![], 2));
}
