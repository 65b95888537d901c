//! Per-event dispatch and the client-termination decision.
//!
//! `step` is the engine's state machine: it takes one display-server event
//! as plain values, mutates the window/focus state accordingly, and returns
//! the side effects the caller must perform. The caller retiles and flushes
//! after every event. `plan_close` decides between a graceful close message
//! and forced termination from what the target window advertises.

use vstd::prelude::*;

use crate::keys::{Keybindings, MultimediaKeycodes};
use crate::state::WmState;

verus! {

/// Border width of every managed window, in pixels.
pub const BORDER_WIDTH: u32 = 2;

/// Border color of the focused window.
pub const BORDER_FOCUSED: u32 = 0x88CCFF;

/// Border color of every other managed window.
pub const BORDER_NORMAL: u32 = 0x333333;

/// A logical command a key press can be bound to.
#[derive(Clone, Copy, Debug, PartialEq, Eq, Structural)]
pub enum Command {
    Terminal,
    FileManager,
    Browser,
    Launcher,
    Close,
    FocusNext,
    FocusPrev,
    VolumeUp,
    VolumeDown,
    VolumeMute,
}

/// One display-server event, reduced to the plain values the engine reads.
/// `bypass_tiling` on a map request says the window asked to be left alone
/// (override-redirect or fullscreen), which the caller determines before
/// handing the event in.
#[derive(Clone, Copy, Debug, PartialEq, Eq, Structural)]
pub enum WmEvent {
    MapRequest { window: u32, bypass_tiling: bool },
    DestroyNotify { window: u32 },
    UnmapNotify { window: u32 },
    ConfigureRequest { window: u32 },
    KeyPress { keycode: u8 },
    FocusIn { window: u32 },
    Other,
}

/// A side effect the caller must perform after a step: map or decorate a
/// window, forward an unmanaged window's configure request, spawn a
/// collaborator process, begin a close request, or adjust the volume.
#[derive(Clone, Copy, Debug, PartialEq, Eq, Structural)]
pub enum Action {
    MapUnmanaged { window: u32 },
    ManageWindow { window: u32 },
    ForwardConfigure { window: u32 },
    SpawnTerminal,
    SpawnFileManager,
    SpawnBrowser,
    SpawnLauncher,
    RequestClose { window: u32 },
    VolumeUp,
    VolumeDown,
    VolumeMute,
}

/// How a close request ends: a graceful client message naming the close
/// protocol, or forced termination of the owning client.
#[derive(Clone, Copy, Debug, PartialEq, Eq, Structural)]
pub enum CloseAction {
    Graceful { protocols_atom: u32, delete_atom: u32 },
    Force,
}

/// The logical command `keycode` is bound to, if any; bindings take
/// precedence over multimedia keys, in a fixed order.
pub open spec fn spec_resolve_command(
    b: Keybindings,
    m: MultimediaKeycodes,
    keycode: u8,
) -> Option<Command> {
    if b.terminal@.contains(keycode) {
        Some(Command::Terminal)
    } else if b.file_manager@.contains(keycode) {
        Some(Command::FileManager)
    } else if b.browser@.contains(keycode) {
        Some(Command::Browser)
    } else if b.launcher@.contains(keycode) {
        Some(Command::Launcher)
    } else if b.close@.contains(keycode) {
        Some(Command::Close)
    } else if b.focus_next@.contains(keycode) {
        Some(Command::FocusNext)
    } else if b.focus_prev@.contains(keycode) {
        Some(Command::FocusPrev)
    } else if m.volume_up@.contains(keycode) {
        Some(Command::VolumeUp)
    } else if m.volume_down@.contains(keycode) {
        Some(Command::VolumeDown)
    } else if m.volume_mute@.contains(keycode) {
        Some(Command::VolumeMute)
    } else {
        None
    }
}

/// Returns the logical command bound to `keycode`, or `None` for an unbound
/// key.
pub fn resolve_command(
    bindings: &Keybindings,
    multimedia: &MultimediaKeycodes,
    keycode: u8,
) -> (r: Option<Command>)
    ensures
        r == spec_resolve_command(*bindings, *multimedia, keycode),
{
    if contains_keycode(&bindings.terminal, keycode) {
        Some(Command::Terminal)
    } else if contains_keycode(&bindings.file_manager, keycode) {
        Some(Command::FileManager)
    } else if contains_keycode(&bindings.browser, keycode) {
        Some(Command::Browser)
    } else if contains_keycode(&bindings.launcher, keycode) {
        Some(Command::Launcher)
    } else if contains_keycode(&bindings.close, keycode) {
        Some(Command::Close)
    } else if contains_keycode(&bindings.focus_next, keycode) {
        Some(Command::FocusNext)
    } else if contains_keycode(&bindings.focus_prev, keycode) {
        Some(Command::FocusPrev)
    } else if contains_keycode(&multimedia.volume_up, keycode) {
        Some(Command::VolumeUp)
    } else if contains_keycode(&multimedia.volume_down, keycode) {
        Some(Command::VolumeDown)
    } else if contains_keycode(&multimedia.volume_mute, keycode) {
        Some(Command::VolumeMute)
    } else {
        None
    }
}

/// Whether `codes` holds `keycode`.
fn contains_keycode(codes: &Vec<u8>, keycode: u8) -> (r: bool)
    ensures
        r == codes@.contains(keycode),
{
    let mut i: usize = 0;
    while i < codes.len()
        invariant
            i <= codes@.len(),
            forall|j: int| 0 <= j < i ==> codes@[j] != keycode,
        decreases codes@.len() - i,
    {
        if codes[i] == keycode {
            return true;
        }
        i = i + 1;
    }
    false
}

/// Whether `atoms` lists `atom`.
pub fn contains_atom(atoms: &Vec<u32>, atom: u32) -> (r: bool)
    ensures
        r == atoms@.contains(atom),
{
    let found = crate::state::find_window(atoms, atom);
    found.is_some()
}

/// The target window advertises the graceful-close convention: both
/// protocol atoms are known and the advertised protocol list names the
/// close protocol.
pub open spec fn spec_graceful_close_supported(
    wm_protocols: Option<u32>,
    wm_delete: Option<u32>,
    advertised: Option<Seq<u32>>,
) -> bool {
    &&& wm_protocols is Some
    &&& wm_delete is Some
    &&& advertised is Some
    &&& advertised.unwrap().contains(wm_delete.unwrap())
}

/// The advertised protocol atoms as a mathematical value, `None` when the
/// property could not be read.
pub open spec fn spec_atoms_view(advertised: Option<Vec<u32>>) -> Option<Seq<u32>> {
    match advertised {
        Some(v) => Some(v@),
        None => None,
    }
}

/// Decides how to terminate a window: a graceful client message exactly
/// when the window advertises the close convention (and both protocol atoms
/// could be interned), forced termination otherwise.
pub fn plan_close(
    wm_protocols: Option<u32>,
    wm_delete: Option<u32>,
    advertised: &Option<Vec<u32>>,
) -> (r: CloseAction)
    ensures
        spec_graceful_close_supported(wm_protocols, wm_delete, spec_atoms_view(*advertised))
            ==> r == (CloseAction::Graceful {
            protocols_atom: wm_protocols.unwrap(),
            delete_atom: wm_delete.unwrap(),
        }),
        !spec_graceful_close_supported(wm_protocols, wm_delete, spec_atoms_view(*advertised))
            ==> r == CloseAction::Force,
{
    match (wm_protocols, wm_delete) {
        (Some(protocols_atom), Some(delete_atom)) => match advertised {
            Some(atoms) => {
                if contains_atom(atoms, delete_atom) {
                    CloseAction::Graceful { protocols_atom, delete_atom }
                } else {
                    CloseAction::Force
                }
            },
            None => CloseAction::Force,
        },
        _ => CloseAction::Force,
    }
}

/// The window the focus index names, or `None` when it points past the
/// sequence (in particular when nothing is managed).
pub open spec fn spec_focused_window(s: WmState) -> Option<u32> {
    if s.focused < s.windows@.len() {
        Some(s.windows@[s.focused as int])
    } else {
        None
    }
}

/// Returns the currently focused window, if any.
pub fn focused_window(state: &WmState) -> (r: Option<u32>)
    ensures
        r == spec_focused_window(*state),
{
    if state.focused < state.windows.len() {
        Some(state.windows[state.focused])
    } else {
        None
    }
}

/// Returns one border color per managed window: the focus color at the
/// focus index, the normal color everywhere else.
pub fn border_colors(state: &WmState) -> (r: Vec<u32>)
    ensures
        r@.len() == state.windows@.len(),
        forall|i: int|
            0 <= i < r@.len() ==> r@[i] == (if i == state.focused as int {
                BORDER_FOCUSED
            } else {
                BORDER_NORMAL
            }),
{
    let mut r: Vec<u32> = Vec::new();
    let mut i: usize = 0;
    while i < state.windows.len()
        invariant
            i <= state.windows@.len(),
            r@.len() == i,
            forall|j: int|
                0 <= j < i ==> r@[j] == (if j == state.focused as int {
                    BORDER_FOCUSED
                } else {
                    BORDER_NORMAL
                }),
        decreases state.windows@.len() - i,
    {
        if i == state.focused {
            r.push(BORDER_FOCUSED);
        } else {
            r.push(BORDER_NORMAL);
        }
        i = i + 1;
    }
    r
}

/// Whether the window's state property lists the fullscreen atom, in which
/// case it is mapped unmanaged at full screen bounds instead of tiled.
pub fn window_is_fullscreen(state_atoms: &Vec<u32>, fullscreen_atom: u32) -> (r: bool)
    ensures
        r == state_atoms@.contains(fullscreen_atom),
{
    contains_atom(state_atoms, fullscreen_atom)
}

/// The managed-window sequence after one event: a tiled map request adds
/// the window, a destroy or unmap notification removes it, everything else
/// leaves the sequence alone.
pub open spec fn spec_windows_after_event(ws: Seq<u32>, e: WmEvent) -> Seq<u32> {
    match e {
        WmEvent::MapRequest { window, bypass_tiling } => if bypass_tiling {
            ws
        } else {
            crate::state::spec_windows_after_add(ws, window)
        },
        WmEvent::DestroyNotify { window } => crate::state::spec_windows_after_remove(ws, window),
        WmEvent::UnmapNotify { window } => crate::state::spec_windows_after_remove(ws, window),
        _ => ws,
    }
}

/// The focus index after one event: re-derived on add and remove, rotated
/// by the focus commands, and reconciled to a managed window named by a
/// focus-change notification.
pub open spec fn spec_focus_after_event(
    ws: Seq<u32>,
    focused: int,
    b: Keybindings,
    m: MultimediaKeycodes,
    e: WmEvent,
) -> int {
    match e {
        WmEvent::MapRequest { window, bypass_tiling } => if bypass_tiling {
            focused
        } else {
            crate::state::spec_focus_after_add(ws, focused, window)
        },
        WmEvent::DestroyNotify { window } => crate::state::spec_focus_after_remove(
            ws,
            focused,
            window,
        ),
        WmEvent::UnmapNotify { window } => crate::state::spec_focus_after_remove(
            ws,
            focused,
            window,
        ),
        WmEvent::KeyPress { keycode } => match spec_resolve_command(b, m, keycode) {
            Some(Command::FocusNext) => crate::state::spec_focus_next(focused, ws.len() as int),
            Some(Command::FocusPrev) => crate::state::spec_focus_prev(focused, ws.len() as int),
            _ => focused,
        },
        WmEvent::FocusIn { window } => if ws.contains(window) {
            ws.index_of(window)
        } else {
            focused
        },
        _ => focused,
    }
}

/// The side effects one event asks of the caller. Map requests map the
/// window (managed or not), a configure request from an unmanaged window is
/// forwarded unchanged, and a key press runs its bound command: spawning a
/// collaborator, closing the focused window, or adjusting the volume. Focus
/// rotation and removal act on the state alone.
pub open spec fn spec_actions_for_event(
    ws: Seq<u32>,
    focused: int,
    b: Keybindings,
    m: MultimediaKeycodes,
    e: WmEvent,
) -> Seq<Action> {
    match e {
        WmEvent::MapRequest { window, bypass_tiling } => if bypass_tiling {
            seq![Action::MapUnmanaged { window }]
        } else {
            seq![Action::ManageWindow { window }]
        },
        WmEvent::ConfigureRequest { window } => if ws.contains(window) {
            Seq::empty()
        } else {
            seq![Action::ForwardConfigure { window }]
        },
        WmEvent::KeyPress { keycode } => match spec_resolve_command(b, m, keycode) {
            Some(Command::Terminal) => seq![Action::SpawnTerminal],
            Some(Command::FileManager) => seq![Action::SpawnFileManager],
            Some(Command::Browser) => seq![Action::SpawnBrowser],
            Some(Command::Launcher) => seq![Action::SpawnLauncher],
            Some(Command::Close) => if 0 <= focused < ws.len() {
                seq![Action::RequestClose { window: ws[focused] }]
            } else {
                Seq::empty()
            },
            Some(Command::VolumeUp) => seq![Action::VolumeUp],
            Some(Command::VolumeDown) => seq![Action::VolumeDown],
            Some(Command::VolumeMute) => seq![Action::VolumeMute],
            _ => Seq::empty(),
        },
        _ => Seq::empty(),
    }
}

/// Processes one event: mutates the window/focus state as the event
/// demands and returns the side effects to perform, in order. The caller
/// recomputes the layout and flushes after every event.
pub fn step(
    state: &mut WmState,
    bindings: &Keybindings,
    multimedia: &MultimediaKeycodes,
    event: &WmEvent,
) -> (actions: Vec<Action>)
    requires
        old(state).wf(),
    ensures
        final(state).wf(),
        final(state).master_percent == old(state).master_percent,
        final(state).windows@ == spec_windows_after_event(old(state).windows@, *event),
        final(state).focused == spec_focus_after_event(
            old(state).windows@,
            old(state).focused as int,
            *bindings,
            *multimedia,
            *event,
        ),
        actions@ == spec_actions_for_event(
            old(state).windows@,
            old(state).focused as int,
            *bindings,
            *multimedia,
            *event,
        ),
{
    let mut actions: Vec<Action> = Vec::new();
    match event {
        WmEvent::MapRequest { window, bypass_tiling } => {
            if *bypass_tiling {
                actions.push(Action::MapUnmanaged { window: *window });
            } else {
                state.add_window(*window);
                actions.push(Action::ManageWindow { window: *window });
            }
        },
        WmEvent::DestroyNotify { window } => {
            state.remove_window(*window);
        },
        WmEvent::UnmapNotify { window } => {
            state.remove_window(*window);
        },
        WmEvent::ConfigureRequest { window } => {
            if crate::state::find_window(&state.windows, *window).is_none() {
                actions.push(Action::ForwardConfigure { window: *window });
            }
        },
        WmEvent::KeyPress { keycode } => {
            match resolve_command(bindings, multimedia, *keycode) {
                Some(Command::Terminal) => actions.push(Action::SpawnTerminal),
                Some(Command::FileManager) => actions.push(Action::SpawnFileManager),
                Some(Command::Browser) => actions.push(Action::SpawnBrowser),
                Some(Command::Launcher) => actions.push(Action::SpawnLauncher),
                Some(Command::Close) => {
                    if let Some(window) = focused_window(state) {
                        actions.push(Action::RequestClose { window });
                    }
                },
                Some(Command::FocusNext) => state.focus_next(),
                Some(Command::FocusPrev) => state.focus_prev(),
                Some(Command::VolumeUp) => actions.push(Action::VolumeUp),
                Some(Command::VolumeDown) => actions.push(Action::VolumeDown),
                Some(Command::VolumeMute) => actions.push(Action::VolumeMute),
                None => {},
            }
        },
        WmEvent::FocusIn { window } => {
            if let Some(index) = crate::state::find_window(&state.windows, *window) {
                proof {
                    crate::state::lemma_unique_index(state.windows@, *window, index as int);
                }
                state.focused = index;
            }
        },
        WmEvent::Other => {},
    }
    proof {
        assert(actions@ =~= spec_actions_for_event(
            old(state).windows@,
            old(state).focused as int,
            *bindings,
            *multimedia,
            *event,
        ));
    }
    actions
}

} // verus!
