//! The states of the game and how the events of a frame move between them.
use vstd::prelude::*;
use crate::window::{InputState, Key, MouseButton, WindowEvent};

verus! {

/// Where the game is.
#[derive(Clone, Copy, PartialEq, Eq, Structural, Debug)]
pub enum GameState {
    MainMenu,
    SetupPlaying,
    Playing,
    Creating,
}

/// Whether an event is `key` going down.
pub open spec fn is_key_press(e: WindowEvent, key: Key) -> bool {
    e == WindowEvent::KeyInput { key, state: InputState::Pressed }
}

/// Whether an event is the Escape key going up or down.
pub open spec fn is_escape(e: WindowEvent) -> bool {
    e matches WindowEvent::KeyInput { key: Key::Escape, .. }
}

/// Whether one of the events is the Escape key.
pub open spec fn has_escape(events: Seq<WindowEvent>) -> bool {
    exists|i: int| 0 <= i < events.len() && #[trigger] is_escape(events[i])
}

/// The state the main menu is left for after the first `n` events, starting
/// in `s`: Space starts a game, C opens the editor; the last such key wins.
pub open spec fn menu_choice(events: Seq<WindowEvent>, n: int, s: GameState) -> GameState
    decreases n,
{
    if n <= 0 {
        s
    } else {
        let prev = menu_choice(events, n - 1, s);
        if is_key_press(events[n - 1], Key::Space) {
            GameState::SetupPlaying
        } else if is_key_press(events[n - 1], Key::C) {
            GameState::Creating
        } else {
            prev
        }
    }
}

/// The state the editor is left for after the first `n` events, starting in
/// `s`: Escape goes back to the menu, Space starts a game; the last such key
/// wins.
pub open spec fn editor_choice(events: Seq<WindowEvent>, n: int, s: GameState) -> GameState
    decreases n,
{
    if n <= 0 {
        s
    } else {
        let prev = editor_choice(events, n - 1, s);
        if is_key_press(events[n - 1], Key::Escape) {
            GameState::MainMenu
        } else if is_key_press(events[n - 1], Key::Space) {
            GameState::SetupPlaying
        } else {
            prev
        }
    }
}

/// The state after one update of the game in `state` with the frame's
/// events: a set-up game starts playing; a game in play goes back to the
/// menu on any Escape key event; the menu and the editor follow the keys
/// pressed.
pub open spec fn spec_next_state(state: GameState, events: Seq<WindowEvent>) -> GameState {
    match state {
        GameState::MainMenu => menu_choice(events, events.len() as int, GameState::MainMenu),
        GameState::SetupPlaying => GameState::Playing,
        GameState::Playing => if has_escape(events) {
            GameState::MainMenu
        } else {
            GameState::Playing
        },
        GameState::Creating => editor_choice(events, events.len() as int, GameState::Creating),
    }
}

/// The state after one update of the game in `state` with the frame's events.
pub fn next_state(state: GameState, events: &[WindowEvent]) -> (next: GameState)
    ensures
        next == spec_next_state(state, events@),
{
    match state {
        GameState::MainMenu => {
            let mut s = GameState::MainMenu;
            let mut i: usize = 0;
            while i < events.len()
                invariant
                    i <= events@.len(),
                    s == menu_choice(events@, i as int, GameState::MainMenu),
                decreases events@.len() - i,
            {
                match events[i] {
                    WindowEvent::KeyInput { key: Key::Space, state: InputState::Pressed } => {
                        s = GameState::SetupPlaying;
                    },
                    WindowEvent::KeyInput { key: Key::C, state: InputState::Pressed } => {
                        s = GameState::Creating;
                    },
                    _ => {},
                }
                i = i + 1;
            }
            s
        },
        GameState::SetupPlaying => GameState::Playing,
        GameState::Playing => {
            let mut i: usize = 0;
            while i < events.len()
                invariant
                    i <= events@.len(),
                    state == GameState::Playing,
                    forall|j: int| 0 <= j < i ==> !#[trigger] is_escape(events@[j]),
                decreases events@.len() - i,
            {
                match events[i] {
                    WindowEvent::KeyInput { key: Key::Escape, .. } => {
                        assert(is_escape(events@[i as int]));
                        return GameState::MainMenu;
                    },
                    _ => {},
                }
                i = i + 1;
            }
            GameState::Playing
        },
        GameState::Creating => {
            let mut s = GameState::Creating;
            let mut i: usize = 0;
            while i < events.len()
                invariant
                    i <= events@.len(),
                    s == editor_choice(events@, i as int, GameState::Creating),
                decreases events@.len() - i,
            {
                match events[i] {
                    WindowEvent::KeyInput { key: Key::Escape, state: InputState::Pressed } => {
                        s = GameState::MainMenu;
                    },
                    WindowEvent::KeyInput { key: Key::Space, state: InputState::Pressed } => {
                        s = GameState::SetupPlaying;
                    },
                    _ => {},
                }
                i = i + 1;
            }
            s
        },
    }
}

/// The state after `n` updates from `s` with the same events.
pub open spec fn orbit(s: GameState, events: Seq<WindowEvent>, n: nat) -> GameState
    decreases n,
{
    if n == 0 {
        s
    } else {
        spec_next_state(orbit(s, events, (n - 1) as nat), events)
    }
}

/// Whether an update with `events` leaves `s` as it is.
pub open spec fn is_settled(s: GameState, events: Seq<WindowEvent>) -> bool {
    spec_next_state(s, events) == s
}

/// Whether updates from `state` with the same events ever reach a state an
/// update leaves as it is.
pub open spec fn eventually_settles(state: GameState, events: Seq<WindowEvent>) -> bool {
    exists|n: nat| #[trigger] is_settled(orbit(state, events, n), events)
}

/// The states a frame goes through: the game is updated with the frame's
/// events, again and again, until an update leaves the state as it is. The
/// result lists every state that is updated, in order, the settled one last.
/// The frame's updates must settle: when they go round a cycle instead (as
/// with Escape and Space in the same frame), the game never finishes the
/// frame; `settles` tells the two apart.
pub fn settle(state: GameState, events: &[WindowEvent]) -> (visited: Vec<GameState>)
    requires
        eventually_settles(state, events@),
    ensures
        1 <= visited@.len() <= 4,
        forall|k: int| 0 <= k < visited@.len() ==> #[trigger] visited@[k] == orbit(state, events@, k as nat),
        is_settled(visited@.last(), events@),
        forall|k: int| 0 <= k < visited@.len() - 1 ==> !#[trigger] is_settled(visited@[k], events@),
{
    let mut visited: Vec<GameState> = Vec::new();
    let mut cur = state;
    let mut i: usize = 0;
    while i < 4
        invariant
            i <= 4,
            eventually_settles(state, events@),
            visited@.len() == i,
            cur == orbit(state, events@, i as nat),
            forall|k: int| 0 <= k < i ==> #[trigger] visited@[k] == orbit(state, events@, k as nat),
            forall|k: int| 0 <= k < i ==> !#[trigger] is_settled(visited@[k], events@),
        decreases 4 - i,
    {
        visited.push(cur);
        let next = next_state(cur, events);
        if next == cur {
            return visited;
        }
        cur = next;
        i = i + 1;
    }
    proof {
        assert forall|k: nat| k < 4 implies !#[trigger] is_settled(orbit(state, events@, k), events@) by {
            assert(visited@[k as int] == orbit(state, events@, k));
        }
        lemma_never_settles(state, events@);
        let n = choose|n: nat| #[trigger] is_settled(orbit(state, events@, n), events@);
        assert(is_settled(orbit(state, events@, n), events@));
    }
    visited
}

/// Whether the updates of a frame from `state` with `events` settle.
pub fn settles(state: GameState, events: &[WindowEvent]) -> (r: bool)
    ensures
        r == eventually_settles(state, events@),
{
    let mut cur = state;
    let mut i: usize = 0;
    while i < 4
        invariant
            i <= 4,
            cur == orbit(state, events@, i as nat),
            forall|k: nat| k < i ==> !#[trigger] is_settled(orbit(state, events@, k), events@),
        decreases 4 - i,
    {
        let next = next_state(cur, events);
        if next == cur {
            assert(is_settled(orbit(state, events@, i as nat), events@));
            return true;
        }
        cur = next;
        i = i + 1;
    }
    proof {
        lemma_never_settles(state, events@);
    }
    false
}

proof fn lemma_periodic(s: GameState, events: Seq<WindowEvent>, i: nat, j: nat, t: nat)
    requires
        orbit(s, events, i) == orbit(s, events, j),
    ensures
        orbit(s, events, i + t) == orbit(s, events, j + t),
    decreases t,
{
    if t > 0 {
        lemma_periodic(s, events, i, j, (t - 1) as nat);
        assert(orbit(s, events, i + t) == spec_next_state(orbit(s, events, (i + t - 1) as nat), events));
        assert(orbit(s, events, j + t) == spec_next_state(orbit(s, events, (j + t - 1) as nat), events));
    }
}

proof fn lemma_in_window(s: GameState, events: Seq<WindowEvent>, i: nat, j: nat, n: nat) -> (m: nat)
    requires
        i < j,
        i <= n,
        orbit(s, events, i) == orbit(s, events, j),
    ensures
        i <= m < j,
        orbit(s, events, n) == orbit(s, events, m),
    decreases n,
{
    if n < j {
        n
    } else {
        let p = (j - i) as nat;
        let back = (n - p) as nat;
        lemma_periodic(s, events, i, j, (n - j) as nat);
        assert(i + (n - j) == back);
        lemma_in_window(s, events, i, j, back)
    }
}

/// Updates that do not settle within four steps never settle: there are
/// only four states, so by then the states go round a cycle with no settled
/// state on it.
proof fn lemma_never_settles(s: GameState, events: Seq<WindowEvent>)
    requires
        forall|k: nat| k < 4 ==> !#[trigger] is_settled(orbit(s, events, k), events),
    ensures
        forall|n: nat| !#[trigger] is_settled(orbit(s, events, n), events),
{
    let a0 = orbit(s, events, 0);
    let a1 = orbit(s, events, 1);
    let a2 = orbit(s, events, 2);
    let a3 = orbit(s, events, 3);
    let a4 = orbit(s, events, 4);
    let (i, j): (nat, nat) = if a0 == a1 {
        (0, 1)
    } else if a0 == a2 {
        (0, 2)
    } else if a0 == a3 {
        (0, 3)
    } else if a0 == a4 {
        (0, 4)
    } else if a1 == a2 {
        (1, 2)
    } else if a1 == a3 {
        (1, 3)
    } else if a1 == a4 {
        (1, 4)
    } else if a2 == a3 {
        (2, 3)
    } else if a2 == a4 {
        (2, 4)
    } else {
        (3, 4)
    };
    assert(orbit(s, events, i) == orbit(s, events, j)) by {
        if !(a0 == a1 || a0 == a2 || a0 == a3 || a0 == a4 || a1 == a2 || a1 == a3 || a1 == a4
            || a2 == a3 || a2 == a4) {
            assert(a0 is MainMenu || a0 is SetupPlaying || a0 is Playing || a0 is Creating);
            assert(a1 is MainMenu || a1 is SetupPlaying || a1 is Playing || a1 is Creating);
            assert(a2 is MainMenu || a2 is SetupPlaying || a2 is Playing || a2 is Creating);
            assert(a3 is MainMenu || a3 is SetupPlaying || a3 is Playing || a3 is Creating);
            assert(a4 is MainMenu || a4 is SetupPlaying || a4 is Playing || a4 is Creating);
            assert(a3 == a4);
        }
    }
    assert forall|n: nat| !#[trigger] is_settled(orbit(s, events, n), events) by {
        if n >= i {
            let m = lemma_in_window(s, events, i, j, n);
            assert(!is_settled(orbit(s, events, m), events));
        } else {
            assert(!is_settled(orbit(s, events, n), events));
        }
    }
}

/// An edit the map editor makes for an event.
#[derive(Clone, Copy, PartialEq, Eq, Structural, Debug)]
pub enum EditCommand {
    /// Scroll the map one tile forward (D).
    ScrollForward,
    /// Scroll the map one tile back (A).
    ScrollBack,
    /// Put ground under the cursor (left click).
    PlaceGround,
}

/// The edit an event asks for, if any.
pub open spec fn spec_edit_command(e: WindowEvent) -> Option<EditCommand> {
    if is_key_press(e, Key::D) {
        Some(EditCommand::ScrollForward)
    } else if is_key_press(e, Key::A) {
        Some(EditCommand::ScrollBack)
    } else if e == (WindowEvent::MouseInput { button: MouseButton::Left, state: InputState::Pressed }) {
        Some(EditCommand::PlaceGround)
    } else {
        None
    }
}

/// The edits asked for by the first `n` events, in order.
pub open spec fn edit_commands_of(events: Seq<WindowEvent>, n: int) -> Seq<EditCommand>
    decreases n,
{
    if n <= 0 {
        Seq::empty()
    } else {
        match spec_edit_command(events[n - 1]) {
            Some(c) => edit_commands_of(events, n - 1).push(c),
            None => edit_commands_of(events, n - 1),
        }
    }
}

/// The edits the editor makes for the frame's events, in order.
pub fn edit_commands(events: &[WindowEvent]) -> (cmds: Vec<EditCommand>)
    ensures
        cmds@ == edit_commands_of(events@, events@.len() as int),
{
    let mut cmds: Vec<EditCommand> = Vec::new();
    let mut i: usize = 0;
    while i < events.len()
        invariant
            i <= events@.len(),
            cmds@ == edit_commands_of(events@, i as int),
        decreases events@.len() - i,
    {
        match events[i] {
            WindowEvent::KeyInput { key: Key::D, state: InputState::Pressed } => {
                cmds.push(EditCommand::ScrollForward);
            },
            WindowEvent::KeyInput { key: Key::A, state: InputState::Pressed } => {
                cmds.push(EditCommand::ScrollBack);
            },
            WindowEvent::MouseInput { button: MouseButton::Left, state: InputState::Pressed } => {
                cmds.push(EditCommand::PlaceGround);
            },
            _ => {},
        }
        i = i + 1;
    }
    cmds
}

proof fn lemma_edit_commands_prefix(events: Seq<WindowEvent>, e: WindowEvent, n: int)
    requires
        0 <= n <= events.len(),
    ensures
        edit_commands_of(events.push(e), n) == edit_commands_of(events, n),
    decreases n,
{
    if n > 0 {
        lemma_edit_commands_prefix(events, e, n - 1);
        assert(events.push(e)[n - 1] == events[n - 1]);
    }
}

/// What the editor does with an event: a press of D scrolls forward, a press
/// of A scrolls back, a press of the left mouse button places ground; no
/// release, no other key and no other event edits anything. So a release
/// added to a frame's events adds no edit, and a tap of A (a press and a
/// release) scrolls back exactly once.
pub proof fn lemma_edits(events: Seq<WindowEvent>, key: Key, button: MouseButton)
    ensures
        spec_edit_command(WindowEvent::KeyInput { key, state: InputState::Released }) is None,
        spec_edit_command(WindowEvent::MouseInput { button, state: InputState::Released }) is None,
        spec_edit_command(WindowEvent::KeyInput { key: Key::D, state: InputState::Pressed })
            == Some(EditCommand::ScrollForward),
        spec_edit_command(WindowEvent::KeyInput { key: Key::A, state: InputState::Pressed })
            == Some(EditCommand::ScrollBack),
        spec_edit_command(WindowEvent::MouseInput { button: MouseButton::Left, state: InputState::Pressed })
            == Some(EditCommand::PlaceGround),
        key != Key::A && key != Key::D ==> spec_edit_command(
            WindowEvent::KeyInput { key, state: InputState::Pressed },
        ) is None,
        button != MouseButton::Left ==> spec_edit_command(
            WindowEvent::MouseInput { button, state: InputState::Pressed },
        ) is None,
        edit_commands_of(
            events.push(WindowEvent::KeyInput { key, state: InputState::Released }),
            events.len() + 1int,
        ) == edit_commands_of(events, events.len() as int),
        edit_commands_of(
            seq![
                WindowEvent::KeyInput { key: Key::A, state: InputState::Pressed },
                WindowEvent::KeyInput { key: Key::A, state: InputState::Released },
            ],
            2,
        ) == seq![EditCommand::ScrollBack],
{
    lemma_edit_commands_prefix(events, WindowEvent::KeyInput { key, state: InputState::Released }, events.len() as int);
    let tap = seq![
        WindowEvent::KeyInput { key: Key::A, state: InputState::Pressed },
        WindowEvent::KeyInput { key: Key::A, state: InputState::Released },
    ];
    assert(tap[0] == WindowEvent::KeyInput { key: Key::A, state: InputState::Pressed });
    assert(tap[1] == WindowEvent::KeyInput { key: Key::A, state: InputState::Released });
    assert(spec_edit_command(tap[0]) == Some(EditCommand::ScrollBack));
    assert(edit_commands_of(tap, 0) == Seq::<EditCommand>::empty());
    assert(edit_commands_of(tap, 1) =~= Seq::<EditCommand>::empty().push(EditCommand::ScrollBack));
    assert(edit_commands_of(tap, 2) == edit_commands_of(tap, 1));
}

proof fn lemma_menu_choice_range(events: Seq<WindowEvent>, n: int)
    ensures
        menu_choice(events, n, GameState::MainMenu) == GameState::MainMenu
            || menu_choice(events, n, GameState::MainMenu) == GameState::SetupPlaying
            || menu_choice(events, n, GameState::MainMenu) == GameState::Creating,
    decreases n,
{
    if n > 0 {
        lemma_menu_choice_range(events, n - 1);
    }
}

proof fn lemma_editor_choice_without_escape(events: Seq<WindowEvent>, n: int)
    requires
        !has_escape(events),
        n <= events.len(),
    ensures
        editor_choice(events, n, GameState::Creating) == GameState::Creating
            || editor_choice(events, n, GameState::Creating) == GameState::SetupPlaying,
    decreases n,
{
    if n > 0 {
        lemma_editor_choice_without_escape(events, n - 1);
        if is_key_press(events[n - 1], Key::Escape) {
            assert(is_escape(events[n - 1]));
        }
    }
}

/// The game settles: as long as the events of a frame hold no Escape key,
/// repeating the update from any state reaches a state that no further
/// update changes within three updates.
pub proof fn lemma_settles_without_escape(events: Seq<WindowEvent>, s: GameState)
    requires
        !has_escape(events),
    ensures
        ({
            let s3 = spec_next_state(spec_next_state(spec_next_state(s, events), events), events);
            spec_next_state(s3, events) == s3
        }),
{
    lemma_menu_choice_range(events, events.len() as int);
    lemma_editor_choice_without_escape(events, events.len() as int);
}

/// A game being set up always starts playing, and a game in play keeps
/// playing unless an Escape key event comes.
pub proof fn lemma_playing(events: Seq<WindowEvent>)
    ensures
        spec_next_state(GameState::SetupPlaying, events) == GameState::Playing,
        !has_escape(events) ==> spec_next_state(GameState::Playing, events) == GameState::Playing,
        has_escape(events) ==> spec_next_state(GameState::Playing, events) == GameState::MainMenu,
{
}

/// In the main menu the last press of Space or C in a frame decides: a
/// frame ending in a press of Space sets a game up, one ending in a press of
/// C opens the editor. In the editor a frame ending in a press of Escape
/// goes back to the menu, one ending in a press of Space sets a game up.
/// Events that are no such press change no decision.
pub proof fn lemma_last_key_decides(events: Seq<WindowEvent>, e: WindowEvent)
    ensures
        spec_next_state(
            GameState::MainMenu,
            events.push(WindowEvent::KeyInput { key: Key::Space, state: InputState::Pressed }),
        ) == GameState::SetupPlaying,
        spec_next_state(
            GameState::MainMenu,
            events.push(WindowEvent::KeyInput { key: Key::C, state: InputState::Pressed }),
        ) == GameState::Creating,
        spec_next_state(
            GameState::Creating,
            events.push(WindowEvent::KeyInput { key: Key::Escape, state: InputState::Pressed }),
        ) == GameState::MainMenu,
        spec_next_state(
            GameState::Creating,
            events.push(WindowEvent::KeyInput { key: Key::Space, state: InputState::Pressed }),
        ) == GameState::SetupPlaying,
        !(e is KeyInput) ==> spec_next_state(GameState::MainMenu, events.push(e)) == spec_next_state(
            GameState::MainMenu,
            events,
        ),
        !(e is KeyInput) ==> spec_next_state(GameState::Creating, events.push(e)) == spec_next_state(
            GameState::Creating,
            events,
        ),
        spec_next_state(GameState::MainMenu, Seq::<WindowEvent>::empty()) == GameState::MainMenu,
        spec_next_state(GameState::Creating, Seq::<WindowEvent>::empty()) == GameState::Creating,
{
    lemma_choices_prefix(events, e, events.len() as int);
    lemma_choices_prefix(events, WindowEvent::KeyInput { key: Key::Space, state: InputState::Pressed }, events.len() as int);
    lemma_choices_prefix(events, WindowEvent::KeyInput { key: Key::C, state: InputState::Pressed }, events.len() as int);
    lemma_choices_prefix(events, WindowEvent::KeyInput { key: Key::Escape, state: InputState::Pressed }, events.len() as int);
}

proof fn lemma_choices_prefix(events: Seq<WindowEvent>, e: WindowEvent, n: int)
    requires
        0 <= n <= events.len(),
    ensures
        menu_choice(events.push(e), n, GameState::MainMenu) == menu_choice(events, n, GameState::MainMenu),
        editor_choice(events.push(e), n, GameState::Creating) == editor_choice(events, n, GameState::Creating),
    decreases n,
{
    if n > 0 {
        lemma_choices_prefix(events, e, n - 1);
        assert(events.push(e)[n - 1] == events[n - 1]);
    }
}

} // verus!
