//! The game's buttons: which are shown in which screen, and what the pointer
//! does to them. Hit tests and the scale animation work on floats and are
//! made by the caller, which hands in, for each button, whether the pointer
//! is over it.
use vstd::prelude::*;
use crate::window::{InputState, MouseButton, WindowEvent};

verus! {

/// What pressing a button asks for.
#[derive(Clone, Copy, PartialEq, Eq, Structural, Debug)]
pub enum UIAction {
    Play,
    Create,
    Exit,
    Pause,
    Resume,
}

/// The animation state of a button. Idle and hovered buttons grow towards
/// their idle and hovered size over a timer of their own; a pressed button
/// stays as it is.
#[derive(Clone, Copy, PartialEq, Eq, Structural, Debug)]
pub enum UIElementState {
    Idle,
    Pressed,
    Hovered,
}

/// The size a button's scale moves towards.
#[derive(Clone, Copy, PartialEq, Eq, Structural, Debug)]
pub enum ScaleTarget {
    /// Its idle size.
    Idle,
    /// Its idle size times its hover factor.
    Hovered,
    /// No change.
    Keep,
}

/// One button.
#[derive(Clone, Copy, PartialEq, Eq, Structural, Debug)]
pub struct UIElement {
    pub on_press: UIAction,
    pub visible: bool,
    pub state: UIElementState,
    /// Whether its instance data must be sent to the GPU again.
    pub should_update: bool,
    /// Whether the timer of its state went back to zero since the caller
    /// last cleared this flag.
    pub timer_restarted: bool,
}

/// Where a button sits, in pixels, with `y` growing upwards.
#[derive(Clone, Copy, PartialEq, Eq, Structural, Debug)]
pub enum ButtonPlacement {
    /// At the centre of the screen, `down` pixels lower.
    Centered { down: u32 },
    /// `x` pixels from the left edge and `below_top` pixels below the top.
    FromTopLeft { x: u32, below_top: u32 },
}

/// How a button is made: what it does, its picture, its idle size and where
/// it sits.
pub struct ButtonSpec {
    pub on_press: UIAction,
    pub texture: &'static str,
    pub idle_width: u32,
    pub idle_height: u32,
    pub placement: ButtonPlacement,
}

/// The action of the button at position `i` of the interface.
pub open spec fn action_at(i: int) -> UIAction {
    if i == 0 {
        UIAction::Play
    } else if i == 1 {
        UIAction::Create
    } else if i == 2 {
        UIAction::Pause
    } else if i == 3 {
        UIAction::Exit
    } else {
        UIAction::Resume
    }
}

/// The number of buttons of the interface.
pub const BUTTON_COUNT: usize = 5usize;

/// The buttons of the interface, in order: play, edit, pause, exit to the
/// menu, resume.
pub fn button_specs() -> (specs: Vec<ButtonSpec>)
    ensures
        specs@.len() == BUTTON_COUNT,
        forall|i: int| 0 <= i < BUTTON_COUNT ==> #[trigger] specs@[i].on_press == action_at(i),
        specs@[0].texture@ == "play_btn.png"@,
        specs@[0].idle_width == 222 && specs@[0].idle_height == 220,
        specs@[0].placement == (ButtonPlacement::Centered { down: 0 }),
        specs@[1].texture@ == "edit_button.png"@,
        specs@[1].idle_width == 81 && specs@[1].idle_height == 83,
        specs@[1].placement == (ButtonPlacement::Centered { down: 222 }),
        specs@[2].texture@ == "pause_btn.png"@,
        specs@[2].idle_width == 39 && specs@[2].idle_height == 40,
        specs@[2].placement == (ButtonPlacement::FromTopLeft { x: 39, below_top: 40 }),
        specs@[3].texture@ == "menu_btn.png"@,
        specs@[3].idle_width == 63 && specs@[3].idle_height == 64,
        specs@[3].placement == (ButtonPlacement::FromTopLeft { x: 64, below_top: 64 }),
        specs@[4].texture@ == "playepaused_btn.png"@,
        specs@[4].idle_width == 81 && specs@[4].idle_height == 81,
        specs@[4].placement == (ButtonPlacement::Centered { down: 0 }),
{
    let mut specs: Vec<ButtonSpec> = Vec::new();
    specs.push(ButtonSpec {
        on_press: UIAction::Play,
        texture: "play_btn.png",
        idle_width: 222,
        idle_height: 220,
        placement: ButtonPlacement::Centered { down: 0 },
    });
    specs.push(ButtonSpec {
        on_press: UIAction::Create,
        texture: "edit_button.png",
        idle_width: 81,
        idle_height: 83,
        placement: ButtonPlacement::Centered { down: 222 },
    });
    specs.push(ButtonSpec {
        on_press: UIAction::Pause,
        texture: "pause_btn.png",
        idle_width: 39,
        idle_height: 40,
        placement: ButtonPlacement::FromTopLeft { x: 39, below_top: 40 },
    });
    specs.push(ButtonSpec {
        on_press: UIAction::Exit,
        texture: "menu_btn.png",
        idle_width: 63,
        idle_height: 64,
        placement: ButtonPlacement::FromTopLeft { x: 64, below_top: 64 },
    });
    specs.push(ButtonSpec {
        on_press: UIAction::Resume,
        texture: "playepaused_btn.png",
        idle_width: 81,
        idle_height: 81,
        placement: ButtonPlacement::Centered { down: 0 },
    });
    specs
}

/// A button after `show`.
pub open spec fn spec_show(e: UIElement) -> UIElement {
    UIElement {
        visible: true,
        state: UIElementState::Idle,
        should_update: true,
        timer_restarted: true,
        ..e
    }
}

/// A button after `hide_button`; the caller puts its scale back to its idle size.
pub open spec fn hidden(e: UIElement) -> UIElement {
    UIElement { visible: false, should_update: true, ..e }
}

/// A button after the pointer moved, `hit` telling whether the pointer is
/// over it. A hidden button does not change. A button under the pointer
/// turns hovered, its timer restarting only if it was not hovered yet; any
/// other button turns idle with its timer restarted.
pub open spec fn spec_hover(e: UIElement, hit: bool) -> UIElement {
    if !e.visible {
        e
    } else if hit {
        UIElement {
            state: UIElementState::Hovered,
            should_update: true,
            timer_restarted: e.timer_restarted || e.state != UIElementState::Hovered,
            ..e
        }
    } else {
        UIElement { state: UIElementState::Idle, timer_restarted: true, ..e }
    }
}

/// A button after it was clicked.
pub open spec fn spec_press(e: UIElement) -> UIElement {
    UIElement { state: UIElementState::Pressed, ..e }
}

/// Whether the pointer is over button `i`, by the hit list (a missing entry
/// counts as a miss).
pub open spec fn hit_at(hits: Seq<bool>, i: int) -> bool {
    0 <= i < hits.len() && hits[i]
}

/// Whether a click lands on button `i`: it is shown and under the pointer.
pub open spec fn clickable(els: Seq<UIElement>, hits: Seq<bool>, i: int) -> bool {
    0 <= i < els.len() && els[i].visible && hit_at(hits, i)
}

/// The first button from `i` on that a click lands on.
pub open spec fn first_clicked(els: Seq<UIElement>, hits: Seq<bool>, i: int) -> Option<int>
    decreases els.len() - i,
{
    if i < 0 || i >= els.len() {
        None
    } else if clickable(els, hits, i) {
        Some(i)
    } else {
        first_clicked(els, hits, i + 1)
    }
}

/// The buttons after the pointer moved.
pub open spec fn hover_all(els: Seq<UIElement>, hits: Seq<bool>) -> Seq<UIElement> {
    Seq::new(els.len(), |i: int| spec_hover(els[i], hit_at(hits, i)))
}

/// The buttons and the action after the first `n` events: a cursor move
/// hovers, a press of the left button clicks the first shown button under
/// the pointer, which turns pressed and gives its action; a later click
/// replaces an earlier action.
pub open spec fn spec_pointer(
    els: Seq<UIElement>,
    events: Seq<WindowEvent>,
    hits: Seq<bool>,
    n: int,
) -> (Seq<UIElement>, Option<UIAction>)
    decreases n,
{
    if n <= 0 {
        (els, None)
    } else {
        let (s, a) = spec_pointer(els, events, hits, n - 1);
        match events[n - 1] {
            WindowEvent::MouseMotion(_, _) => (hover_all(s, hits), a),
            WindowEvent::MouseInput { button: MouseButton::Left, state: InputState::Pressed } => {
                match first_clicked(s, hits, 0) {
                    Some(i) => (s.update(i, spec_press(s[i])), Some(s[i].on_press)),
                    None => (s, a),
                }
            },
            _ => (s, a),
        }
    }
}

impl UIElement {
    /// A hidden, idle button.
    pub fn new(on_press: UIAction) -> (e: UIElement)
        ensures
            e == (UIElement {
                on_press,
                visible: false,
                state: UIElementState::Idle,
                should_update: false,
                timer_restarted: false,
            }),
    {
        UIElement {
            on_press,
            visible: false,
            state: UIElementState::Idle,
            should_update: false,
            timer_restarted: false,
        }
    }

    /// Shows the button, idle, with its timer restarted.
    pub fn show(&mut self)
        ensures
            *final(self) == spec_show(*old(self)),
    {
        self.visible = true;
        self.state = UIElementState::Idle;
        self.timer_restarted = true;
        self.should_update = true;
    }

    /// Hides the button.
    pub fn hide_button(&mut self)
        ensures
            *final(self) == hidden(*old(self)),
    {
        self.visible = false;
        self.should_update = true;
    }

    /// The size the button's scale moves towards in its state.
    pub fn scale_target(&self) -> (t: ScaleTarget)
        ensures
            t == (match self.state {
                UIElementState::Idle => ScaleTarget::Idle,
                UIElementState::Hovered => ScaleTarget::Hovered,
                UIElementState::Pressed => ScaleTarget::Keep,
            }),
    {
        match self.state {
            UIElementState::Idle => ScaleTarget::Idle,
            UIElementState::Hovered => ScaleTarget::Hovered,
            UIElementState::Pressed => ScaleTarget::Keep,
        }
    }

    fn hover(&mut self, hit: bool)
        ensures
            *final(self) == spec_hover(*old(self), hit),
    {
        if self.visible {
            if hit {
                self.should_update = true;
                if self.state != UIElementState::Hovered {
                    self.state = UIElementState::Hovered;
                    self.timer_restarted = true;
                }
            } else {
                self.state = UIElementState::Idle;
                self.timer_restarted = true;
            }
        }
    }
}

/// The buttons of the game, in the order of `button_specs`.
pub struct UserInterface {
    pub elements: Vec<UIElement>,
}

/// The buttons that are shown: the visible flags, in order.
pub open spec fn shown(els: Seq<UIElement>) -> Seq<bool> {
    Seq::new(els.len(), |i: int| els[i].visible)
}

/// The buttons as `hide_buttons` leaves them.
pub open spec fn all_hidden(els: Seq<UIElement>) -> Seq<UIElement> {
    Seq::new(els.len(), |i: int| hidden(els[i]))
}

/// The buttons as hidden and then showing exactly the ones at `which`.
pub open spec fn show_only(els: Seq<UIElement>, which: Set<int>) -> Seq<UIElement> {
    Seq::new(
        els.len(),
        |i: int|
            if which.contains(i) {
                spec_show(hidden(els[i]))
            } else {
                hidden(els[i])
            },
    )
}

fn is_left_press(e: &WindowEvent) -> (r: bool)
    ensures
        r == (*e == WindowEvent::MouseInput {
            button: MouseButton::Left,
            state: InputState::Pressed,
        }),
{
    match e {
        WindowEvent::MouseInput { button: MouseButton::Left, state: InputState::Pressed } => true,
        _ => false,
    }
}

impl UserInterface {
    /// The buttons of `button_specs`, all hidden and idle.
    pub fn new() -> (ui: UserInterface)
        ensures
            ui.elements@.len() == BUTTON_COUNT,
            forall|i: int|
                0 <= i < BUTTON_COUNT ==> #[trigger] ui.elements@[i] == UIElement::new_spec(
                    action_at(i),
                ),
    {
        let specs = button_specs();
        let mut elements: Vec<UIElement> = Vec::new();
        let mut i: usize = 0;
        while i < specs.len()
            invariant
                specs@.len() == BUTTON_COUNT,
                forall|j: int| 0 <= j < BUTTON_COUNT ==> #[trigger] specs@[j].on_press == action_at(j),
                i <= specs@.len(),
                elements@.len() == i,
                forall|j: int| 0 <= j < i ==> #[trigger] elements@[j] == UIElement::new_spec(action_at(j)),
            decreases specs@.len() - i,
        {
            elements.push(UIElement::new(specs[i].on_press));
            i = i + 1;
        }
        UserInterface { elements }
    }

    /// Hides every button.
    pub fn hide_buttons(&mut self)
        ensures
            final(self).elements@ == all_hidden(old(self).elements@),
    {
        let ghost start = self.elements@;
        let mut i: usize = 0;
        while i < self.elements.len()
            invariant
                self.elements@.len() == start.len(),
                i <= start.len(),
                forall|j: int| 0 <= j < i ==> #[trigger] self.elements@[j] == hidden(start[j]),
                forall|j: int| i <= j < start.len() ==> #[trigger] self.elements@[j] == start[j],
            decreases start.len() - i,
        {
            let mut e = self.elements[i];
            e.hide_button();
            self.elements.set(i, e);
            i = i + 1;
        }
        assert(self.elements@ =~= all_hidden(start));
    }

    /// The main menu: the play and edit buttons.
    pub fn show_mainmenu(&mut self)
        requires
            old(self).elements@.len() >= 2,
        ensures
            final(self).elements@ == show_only(old(self).elements@, set![0int, 1int]),
    {
        let ghost start = self.elements@;
        self.hide_buttons();
        let mut e = self.elements[0];
        e.show();
        self.elements.set(0, e);
        let mut e = self.elements[1];
        e.show();
        self.elements.set(1, e);
        assert(self.elements@ =~= show_only(start, set![0int, 1int]));
    }

    /// A game in play: the pause button.
    pub fn show_playing(&mut self)
        requires
            old(self).elements@.len() >= 3,
        ensures
            final(self).elements@ == show_only(old(self).elements@, set![2int]),
    {
        let ghost start = self.elements@;
        self.hide_buttons();
        let mut e = self.elements[2];
        e.show();
        self.elements.set(2, e);
        assert(self.elements@ =~= show_only(start, set![2int]));
    }

    /// A paused game: the exit and resume buttons.
    pub fn show_paused(&mut self)
        requires
            old(self).elements@.len() >= 5,
        ensures
            final(self).elements@ == show_only(old(self).elements@, set![3int, 4int]),
    {
        let ghost start = self.elements@;
        self.hide_buttons();
        let mut e = self.elements[3];
        e.show();
        self.elements.set(3, e);
        let mut e = self.elements[4];
        e.show();
        self.elements.set(4, e);
        assert(self.elements@ =~= show_only(start, set![3int, 4int]));
    }

    /// The editor: the exit button.
    pub fn show_creating(&mut self)
        requires
            old(self).elements@.len() >= 4,
        ensures
            final(self).elements@ == show_only(old(self).elements@, set![3int]),
    {
        let ghost start = self.elements@;
        self.hide_buttons();
        let mut e = self.elements[3];
        e.show();
        self.elements.set(3, e);
        assert(self.elements@ =~= show_only(start, set![3int]));
    }

    fn handle_hover(&mut self, hits: &[bool])
        ensures
            final(self).elements@ == hover_all(old(self).elements@, hits@),
    {
        let ghost start = self.elements@;
        let mut i: usize = 0;
        while i < self.elements.len()
            invariant
                self.elements@.len() == start.len(),
                i <= start.len(),
                forall|j: int|
                    0 <= j < i ==> #[trigger] self.elements@[j] == spec_hover(start[j], hit_at(hits@, j)),
                forall|j: int| i <= j < start.len() ==> #[trigger] self.elements@[j] == start[j],
            decreases start.len() - i,
        {
            let hit = i < hits.len() && hits[i];
            let mut e = self.elements[i];
            e.hover(hit);
            self.elements.set(i, e);
            i = i + 1;
        }
        assert(self.elements@ =~= hover_all(start, hits@));
    }

    fn handle_mouse_click(&mut self, hits: &[bool]) -> (action: Option<UIAction>)
        ensures
            match first_clicked(old(self).elements@, hits@, 0) {
                Some(i) => {
                    &&& action == Some(old(self).elements@[i].on_press)
                    &&& final(self).elements@ == old(self).elements@.update(
                        i,
                        spec_press(old(self).elements@[i]),
                    )
                },
                None => action is None && final(self).elements@ == old(self).elements@,
            },
    {
        let ghost start = self.elements@;
        let mut i: usize = 0;
        while i < self.elements.len()
            invariant
                self.elements@ == start,
                start == old(self).elements@,
                i <= start.len(),
                first_clicked(start, hits@, 0) == first_clicked(start, hits@, i as int),
            decreases start.len() - i,
        {
            if self.elements[i].visible && i < hits.len() && hits[i] {
                assert(first_clicked(start, hits@, i as int) == Some(i as int));
                let mut e = self.elements[i];
                e.state = UIElementState::Pressed;
                self.elements.set(i, e);
                return Some(e.on_press);
            }
            i = i + 1;
        }
        None
    }

    /// Runs the pointer events of a frame over the buttons. `hits` tells, for
    /// each button, whether the pointer is over it; without a pointer
    /// position nothing happens. Gives the action of the last click that
    /// landed on a shown button.
    pub fn update(&mut self, events: &[WindowEvent], hits: Option<&[bool]>) -> (action: Option<
        UIAction,
    >)
        ensures
            match hits {
                Some(h) => {
                    let (els, a) = spec_pointer(old(self).elements@, events@, h@, events@.len() as int);
                    final(self).elements@ == els && action == a
                },
                None => final(self).elements@ == old(self).elements@ && action is None,
            },
    {
        match hits {
            None => None,
            Some(h) => {
                let ghost start = self.elements@;
                let mut action: Option<UIAction> = None;
                let mut i: usize = 0;
                while i < events.len()
                    invariant
                        i <= events@.len(),
                        (self.elements@, action) == spec_pointer(start, events@, h@, i as int),
                    decreases events@.len() - i,
                {
                    match &events[i] {
                        WindowEvent::MouseMotion(_, _) => {
                            self.handle_hover(h);
                        },
                        e => {
                            if is_left_press(e) {
                                let clicked = self.handle_mouse_click(h);
                                if clicked.is_some() {
                                    action = clicked;
                                }
                            }
                        },
                    }
                    i = i + 1;
                }
                action
            },
        }
    }
}

impl UIElement {
    /// The button `new` makes.
    pub open spec fn new_spec(on_press: UIAction) -> UIElement {
        UIElement {
            on_press,
            visible: false,
            state: UIElementState::Idle,
            should_update: false,
            timer_restarted: false,
        }
    }
}

/// A click only ever answers with the action of a button that is shown and
/// under the pointer, and no button is clicked while an earlier shown button
/// is under the pointer.
pub proof fn lemma_click_lands_on_shown(els: Seq<UIElement>, hits: Seq<bool>, i: int)
    requires
        0 <= i,
    ensures
        first_clicked(els, hits, i) matches Some(k) ==> {
            &&& clickable(els, hits, k)
            &&& i <= k
            &&& forall|j: int| i <= j < k ==> !#[trigger] clickable(els, hits, j)
        },
        first_clicked(els, hits, i) is None ==> forall|j: int|
            i <= j < els.len() ==> !#[trigger] clickable(els, hits, j),
    decreases els.len() - i,
{
    if i < els.len() {
        lemma_click_lands_on_shown(els, hits, i + 1);
    }
}

/// After a screen is shown, exactly its buttons are visible: the main menu
/// shows play and edit, a game in play the pause button, a paused game exit
/// and resume, the editor the exit button.
pub proof fn lemma_screens(els: Seq<UIElement>)
    requires
        els.len() == BUTTON_COUNT,
    ensures
        shown(show_only(els, set![0int, 1int])) == seq![true, true, false, false, false],
        shown(show_only(els, set![2int])) == seq![false, false, true, false, false],
        shown(show_only(els, set![3int, 4int])) == seq![false, false, false, true, true],
        shown(show_only(els, set![3int])) == seq![false, false, false, true, false],
        shown(all_hidden(els)) == seq![false, false, false, false, false],
{
    assert(shown(show_only(els, set![0int, 1int])) =~= seq![true, true, false, false, false]);
    assert(shown(show_only(els, set![2int])) =~= seq![false, false, true, false, false]);
    assert(shown(show_only(els, set![3int, 4int])) =~= seq![false, false, false, true, true]);
    assert(shown(show_only(els, set![3int])) =~= seq![false, false, false, true, false]);
    assert(shown(all_hidden(els)) =~= seq![false, false, false, false, false]);
}

/// What the pointer does to one button: a hidden button never changes; a
/// shown button under the pointer turns hovered and must be sent to the GPU
/// again, its timer restarting only if it was not hovered already; a shown
/// button not under the pointer turns idle with its timer restarted. No
/// button changes its action or visibility by hovering.
pub proof fn lemma_hover(e: UIElement, hit: bool)
    ensures
        !e.visible ==> spec_hover(e, hit) == e,
        spec_hover(e, hit).on_press == e.on_press,
        spec_hover(e, hit).visible == e.visible,
        e.visible && hit ==> spec_hover(e, hit).state == UIElementState::Hovered && spec_hover(e, hit).should_update,
        e.visible && hit && e.state == UIElementState::Hovered ==> spec_hover(e, hit).timer_restarted
            == e.timer_restarted,
        e.visible && hit && e.state != UIElementState::Hovered ==> spec_hover(e, hit).timer_restarted,
        e.visible && !hit ==> spec_hover(e, hit).state == UIElementState::Idle && spec_hover(e, hit).timer_restarted,
{
}

/// Showing a button makes it visible and idle, with its timer restarted;
/// hiding it makes it invisible and leaves its state; both keep its action
/// and ask for it to be sent to the GPU again. A click leaves a button as
/// it was but pressed.
pub proof fn lemma_show_hide_press(e: UIElement)
    ensures
        spec_show(e).visible && spec_show(e).state == UIElementState::Idle && spec_show(e).timer_restarted,
        !hidden(e).visible && hidden(e).state == e.state,
        spec_show(e).on_press == e.on_press && hidden(e).on_press == e.on_press,
        spec_show(e).should_update && hidden(e).should_update,
        spec_press(e).state == UIElementState::Pressed && spec_press(e).visible == e.visible
            && spec_press(e).on_press == e.on_press,
{
}

/// The five buttons have five different actions, in the order play, edit,
/// pause, exit, resume.
pub proof fn lemma_button_actions()
    ensures
        action_at(0) == UIAction::Play,
        action_at(1) == UIAction::Create,
        action_at(2) == UIAction::Pause,
        action_at(3) == UIAction::Exit,
        action_at(4) == UIAction::Resume,
        forall|i: int, j: int| 0 <= i < j < BUTTON_COUNT ==> #[trigger] action_at(i) != #[trigger] action_at(j),
{
}

/// A frame's pointer events: with no event the buttons stay as they are and
/// nothing is asked for; a cursor motion adds no action; a left press adds
/// the action of the first shown button under the pointer, if there is
/// one, and otherwise keeps the action asked for before.
pub proof fn lemma_pointer_events(els: Seq<UIElement>, events: Seq<WindowEvent>, hits: Seq<bool>, x: u32, y: u32)
    ensures
        spec_pointer(els, Seq::<WindowEvent>::empty(), hits, 0) == (els, None::<UIAction>),
        spec_pointer(els, events.push(WindowEvent::MouseMotion(x, y)), hits, events.len() + 1int).1
            == spec_pointer(els, events, hits, events.len() as int).1,
        ({
            let (s, a) = spec_pointer(els, events, hits, events.len() as int);
            let after = spec_pointer(
                els,
                events.push(WindowEvent::MouseInput { button: MouseButton::Left, state: InputState::Pressed }),
                hits,
                events.len() + 1int,
            );
            &&& first_clicked(s, hits, 0) matches Some(i) ==> after.1 == Some(s[i].on_press)
            &&& first_clicked(s, hits, 0) is None ==> after.1 == a
        }),
{
    lemma_pointer_prefix(els, events, WindowEvent::MouseMotion(x, y), hits, events.len() as int);
    lemma_pointer_prefix(
        els,
        events,
        WindowEvent::MouseInput { button: MouseButton::Left, state: InputState::Pressed },
        hits,
        events.len() as int,
    );
}

proof fn lemma_pointer_prefix(els: Seq<UIElement>, events: Seq<WindowEvent>, e: WindowEvent, hits: Seq<bool>, n: int)
    requires
        0 <= n <= events.len(),
    ensures
        spec_pointer(els, events.push(e), hits, n) == spec_pointer(els, events, hits, n),
    decreases n,
{
    if n > 0 {
        lemma_pointer_prefix(els, events, e, hits, n - 1);
        assert(events.push(e)[n - 1] == events[n - 1]);
    }
}

} // verus!
