//! The pause menu: its state machine and the timing of its animations.
use vstd::prelude::*;

verus! {

/// How long one menu button takes to slide and fade, in milliseconds.
pub const BUTTON_MILLIS: u64 = 400;

/// How much later each button starts than the one above it, in milliseconds.
pub const BUTTON_STAGGER_MILLIS: u64 = 100;

/// The number of buttons in the menu.
pub const MENU_BUTTON_COUNT: usize = 5;

/// The number of buttons whose animations the menu waits for: Resume,
/// Settings and Quit, the first three.
pub const TIMED_BUTTON_COUNT: usize = 3;

/// How long the menu takes to open or close, in milliseconds: until the last
/// of the first three buttons has finished its animation.
pub const MENU_DURATION_MILLIS: u64 = 600;

/// Where the pause menu stands.
#[derive(Clone, Copy, Debug, PartialEq, Eq, Structural)]
pub enum PauseState {
    /// The game runs and the menu can be opened.
    Ready,
    /// The menu is opening or closing; input to it is ignored.
    Transition,
    /// The menu is open and can be closed.
    Paused,
}

/// Whether the game itself runs or is paused.
#[derive(Clone, Copy, Debug, PartialEq, Eq, Structural)]
pub enum GameState {
    Running,
    Paused,
}

impl Default for PauseState {
    fn default() -> (r: PauseState)
        ensures
            r == PauseState::Ready,
    {
        PauseState::Ready
    }
}

impl Default for GameState {
    fn default() -> (r: GameState)
        ensures
            r == GameState::Running,
    {
        GameState::Running
    }
}

/// The event that the escape key raises.
#[derive(Clone, Copy, Debug, PartialEq, Eq, Structural)]
pub enum MenuEvent {
    Pause,
    Resume,
}

/// The pause menu and the game state it controls.
#[derive(Clone, Copy, Debug, PartialEq, Eq, Structural)]
pub struct MenuState {
    pub pause: PauseState,
    pub client: GameState,
}

/// A transition that was started: after `after_millis` the menu settles in
/// `settle_to`.
#[derive(Clone, Copy, Debug, PartialEq, Eq, Structural)]
pub struct MenuTransition {
    pub after_millis: u64,
    pub settle_to: PauseState,
}

/// What the escape key raises in a given menu state.
pub open spec fn escape_event(pause: PauseState) -> Option<MenuEvent> {
    match pause {
        PauseState::Ready => Some(MenuEvent::Pause),
        PauseState::Paused => Some(MenuEvent::Resume),
        PauseState::Transition => None,
    }
}

/// The escape key: opens a ready menu, closes an open one, and does nothing
/// while the menu moves.
pub fn on_escape(pause: PauseState) -> (r: Option<MenuEvent>)
    ensures
        r == escape_event(pause),
{
    match pause {
        PauseState::Ready => Some(MenuEvent::Pause),
        PauseState::Paused => Some(MenuEvent::Resume),
        PauseState::Transition => None,
    }
}

impl MenuState {
    /// The menu at start-up: ready, with the game running.
    pub fn new() -> (r: MenuState)
        ensures
            r.pause == PauseState::Ready,
            r.client == GameState::Running,
    {
        MenuState { pause: PauseState::Ready, client: GameState::Running }
    }

    /// The game is paused exactly while the menu is open, and runs while it
    /// is ready.
    pub open spec fn wf(self) -> bool {
        &&& self.pause == PauseState::Ready ==> self.client == GameState::Running
        &&& self.pause == PauseState::Paused ==> self.client == GameState::Paused
    }

    /// Opens the menu. Only a ready menu opens: it starts moving, the game
    /// pauses, and the menu settles open after the menu duration. Otherwise
    /// nothing changes and `None` is returned.
    pub fn open(&mut self) -> (r: Option<MenuTransition>)
        ensures
            *final(self) == after_open(*old(self)),
            r == open_transition(*old(self)),
    {
        if self.pause != PauseState::Ready {
            return None;
        }
        self.pause = PauseState::Transition;
        self.client = GameState::Paused;
        Some(MenuTransition { after_millis: MENU_DURATION_MILLIS, settle_to: PauseState::Paused })
    }

    /// Closes the menu. Only an open menu closes: it starts moving, the game
    /// runs again, and the menu settles ready after the menu duration.
    /// Otherwise nothing changes and `None` is returned.
    pub fn close(&mut self) -> (r: Option<MenuTransition>)
        ensures
            *final(self) == after_close(*old(self)),
            r == close_transition(*old(self)),
    {
        if self.pause != PauseState::Paused {
            return None;
        }
        self.pause = PauseState::Transition;
        self.client = GameState::Running;
        Some(MenuTransition { after_millis: MENU_DURATION_MILLIS, settle_to: PauseState::Ready })
    }

    /// A transition has run its time: the menu settles where it was sent.
    pub fn settle(&mut self, transition: MenuTransition)
        ensures
            *final(self) == settled(*old(self), transition),
    {
        self.pause = transition.settle_to;
    }
}

/// The menu right after an open request: a ready menu starts moving and the
/// game pauses; any other menu is left alone.
pub open spec fn after_open(m: MenuState) -> MenuState {
    if m.pause == PauseState::Ready {
        MenuState { pause: PauseState::Transition, client: GameState::Paused }
    } else {
        m
    }
}

/// The transition an open request starts, if any.
pub open spec fn open_transition(m: MenuState) -> Option<MenuTransition> {
    if m.pause == PauseState::Ready {
        Some(MenuTransition { after_millis: MENU_DURATION_MILLIS, settle_to: PauseState::Paused })
    } else {
        None
    }
}

/// The menu right after a close request: an open menu starts moving and the
/// game runs; any other menu is left alone.
pub open spec fn after_close(m: MenuState) -> MenuState {
    if m.pause == PauseState::Paused {
        MenuState { pause: PauseState::Transition, client: GameState::Running }
    } else {
        m
    }
}

/// The transition a close request starts, if any.
pub open spec fn close_transition(m: MenuState) -> Option<MenuTransition> {
    if m.pause == PauseState::Paused {
        Some(MenuTransition { after_millis: MENU_DURATION_MILLIS, settle_to: PauseState::Ready })
    } else {
        None
    }
}

/// The menu once a transition has run its time.
pub open spec fn settled(m: MenuState, t: MenuTransition) -> MenuState {
    MenuState { pause: t.settle_to, client: m.client }
}

/// Opening a ready menu and letting it settle leaves the menu open with the
/// game paused; closing it again and letting it settle brings back the ready
/// menu with the game running. Both steps keep the menu and the game in step,
/// and each transition lasts the menu duration.
pub proof fn open_then_close_round_trip(m: MenuState)
    requires
        m.wf(),
        m.pause == PauseState::Ready,
    ensures
        open_transition(m) is Some,
        open_transition(m)->0.after_millis == MENU_DURATION_MILLIS,
        ({
            let opened = settled(after_open(m), open_transition(m)->0);
            &&& opened == (MenuState { pause: PauseState::Paused, client: GameState::Paused })
            &&& opened.wf()
            &&& close_transition(opened) is Some
            &&& close_transition(opened)->0.after_millis == MENU_DURATION_MILLIS
            &&& settled(after_close(opened), close_transition(opened)->0) == m
        }),
{
}

/// A request that does not fit the menu's state changes nothing: an open
/// menu or a moving menu ignores an open request, and a ready or moving menu
/// ignores a close request.
pub proof fn mismatched_requests_are_ignored(m: MenuState)
    ensures
        m.pause != PauseState::Ready ==> after_open(m) == m && open_transition(m) is None,
        m.pause != PauseState::Paused ==> after_close(m) == m && close_transition(m) is None,
{
}

/// Opening or closing never settles at once: a ready menu that opens, and an
/// open menu that closes, both stand moving, where the escape key raises
/// nothing, until their transition settles. Closing runs the game again and
/// opening pauses it.
pub proof fn requests_leave_the_menu_moving(m: MenuState)
    ensures
        m.pause == PauseState::Ready ==> {
            &&& after_open(m).pause == PauseState::Transition
            &&& after_open(m).client == GameState::Paused
            &&& escape_event(after_open(m).pause) is None
        },
        m.pause == PauseState::Paused ==> {
            &&& after_close(m).pause == PauseState::Transition
            &&& after_close(m).client == GameState::Running
            &&& escape_event(after_close(m).pause) is None
        },
{
}

/// While the menu moves, the escape key raises nothing.
pub proof fn escape_ignored_while_moving()
    ensures
        escape_event(PauseState::Transition) is None,
{
}

/// When a button starts its animation, in milliseconds after the menu
/// starts to open or close: each waits the stagger for each button above it.
pub fn button_delay_millis(index: usize) -> (r: u64)
    requires
        BUTTON_STAGGER_MILLIS * index <= usize::MAX,
    ensures
        r == BUTTON_STAGGER_MILLIS * index,
{
    (100 * index) as u64
}

/// When the button at `index` ends its animation, in milliseconds after the
/// menu starts to open or close.
pub open spec fn button_end_millis(index: int) -> int {
    BUTTON_STAGGER_MILLIS * index + BUTTON_MILLIS
}

/// The menu takes exactly as long as the third button's animation: the
/// stagger of that button plus one button animation. The first three buttons
/// finish by then; the Host and Connect buttons below them finish later.
pub proof fn menu_lasts_until_third_button_ends()
    ensures
        MENU_DURATION_MILLIS == BUTTON_STAGGER_MILLIS * (TIMED_BUTTON_COUNT - 1) + BUTTON_MILLIS,
        forall|i: int| 0 <= i < TIMED_BUTTON_COUNT ==> #[trigger] button_end_millis(i) <= MENU_DURATION_MILLIS,
        button_end_millis(TIMED_BUTTON_COUNT - 1) == MENU_DURATION_MILLIS,
        forall|i: int| TIMED_BUTTON_COUNT <= i < MENU_BUTTON_COUNT ==> #[trigger] button_end_millis(i) > MENU_DURATION_MILLIS,
{
}

/// What a menu button does.
#[derive(Clone, Copy, Debug, PartialEq, Eq, Structural)]
pub enum MenuAction {
    /// Close the menu and play on.
    Resume,
    Settings,
    Quit,
    /// Host a game on this machine.
    Host,
    /// Connect to the configured server.
    Connect,
}

/// The button at a position in the menu, from the top.
pub open spec fn menu_action_spec(index: int) -> Option<MenuAction> {
    if index == 0 {
        Some(MenuAction::Resume)
    } else if index == 1 {
        Some(MenuAction::Settings)
    } else if index == 2 {
        Some(MenuAction::Quit)
    } else if index == 3 {
        Some(MenuAction::Host)
    } else if index == 4 {
        Some(MenuAction::Connect)
    } else {
        None
    }
}

/// The button at a position in the menu, from the top.
pub fn menu_action(index: usize) -> (r: Option<MenuAction>)
    ensures
        r == menu_action_spec(index as int),
{
    if index == 0 {
        Some(MenuAction::Resume)
    } else if index == 1 {
        Some(MenuAction::Settings)
    } else if index == 2 {
        Some(MenuAction::Quit)
    } else if index == 3 {
        Some(MenuAction::Host)
    } else if index == 4 {
        Some(MenuAction::Connect)
    } else {
        None
    }
}

/// Every position of the menu holds a button, and no other position does.
pub proof fn every_position_holds_a_button(index: int)
    ensures
        (menu_action_spec(index) is Some) <==> (0 <= index < MENU_BUTTON_COUNT),
{
}

impl MenuAction {
    /// The text on the button.
    pub fn label(&self) -> (r: &'static str)
        ensures
            *self == MenuAction::Resume ==> r@ == "Resume"@,
            *self == MenuAction::Host ==> r@ == "Host"@,
            *self == MenuAction::Connect ==> r@ == "Connect"@,
            *self == MenuAction::Settings ==> r@ == "Settings"@,
            *self == MenuAction::Quit ==> r@ == "Quit"@,
    {
        match self {
            MenuAction::Resume => "Resume",
            MenuAction::Host => "Host",
            MenuAction::Connect => "Connect",
            MenuAction::Settings => "Settings",
            MenuAction::Quit => "Quit",
        }
    }
}

} // verus!
