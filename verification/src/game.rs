//! The game as a state machine over the window's events.

use crate::controls::Controls;
use crate::direction::Direction;
use crate::event::{Action, Button, Event, KEY_DOWN, KEY_ESCAPE, KEY_LEFT, KEY_RIGHT, KEY_UP};
use vstd::prelude::*;

verus! {

/// Whether the game still processes events.
#[derive(Clone, Copy, Debug, PartialEq, Eq, Structural)]
pub enum Phase {
    Running,
    Terminated,
}

/// The state that the events act on: the held controls and the phase.
#[derive(Clone, Copy, Debug, PartialEq, Eq, Structural)]
pub struct Game {
    pub controls: Controls,
    pub phase: Phase,
}

impl Game {
    /// The state in which every game begins: running, with nothing held.
    pub open spec fn start() -> Game {
        Game { controls: Controls::idle(), phase: Phase::Running }
    }

    /// The state and the action that follow a press of `button`.
    pub open spec fn on_press(self, button: Button) -> (Game, Action) {
        match (self.phase, button) {
            (Phase::Terminated, _) => (self, Action::Nothing),
            (Phase::Running, Button::Escape) => (
                Game { controls: self.controls, phase: Phase::Terminated },
                Action::Exit,
            ),
            (Phase::Running, Button::Arrow(d)) => (
                Game { controls: self.controls.pressing(d), phase: Phase::Running },
                Action::Nothing,
            ),
            (Phase::Running, Button::Other) => (self, Action::Nothing),
        }
    }

    /// The state that follows a release of `button`.
    pub open spec fn on_release(self, button: Button) -> Game {
        match (self.phase, button) {
            (Phase::Running, Button::Arrow(d)) => Game {
                controls: self.controls.releasing(d),
                phase: Phase::Running,
            },
            _ => self,
        }
    }

    /// The state and the action that follow `event`.
    pub open spec fn step(self, event: Event) -> (Game, Action) {
        match (self.phase, event) {
            (Phase::Terminated, _) => (self, Action::Nothing),
            (Phase::Running, Event::Render) => (self, Action::Draw),
            (Phase::Running, Event::Update) => (self, Action::Step),
            (Phase::Running, Event::Press(button)) => self.on_press(button),
            (Phase::Running, Event::Release(button)) => (self.on_release(button), Action::Nothing),
            (Phase::Running, Event::Other) => (self, Action::Nothing),
        }
    }

    /// The state after a whole sequence of events, handled in order.
    pub open spec fn after(self, events: Seq<Event>) -> Game
        decreases events.len(),
    {
        if events.len() == 0 {
            self
        } else {
            self.after(events.drop_last()).step(events.last()).0
        }
    }

    /// A running game with nothing held.
    pub fn new() -> (game: Game)
        ensures
            game == Game::start(),
    {
        Game { controls: Controls::new(), phase: Phase::Running }
    }

    /// Whether the game still processes events.
    pub fn is_running(&self) -> (running: bool)
        ensures
            running == (self.phase == Phase::Running),
    {
        match self.phase {
            Phase::Running => true,
            Phase::Terminated => false,
        }
    }

    /// Handles a button going down. The escape key ends the game and asks the
    /// caller to exit; an arrow key is recorded as held; any other button is
    /// ignored. A terminated game ignores every button.
    pub fn pressed(&mut self, button: &Button) -> (action: Action)
        ensures
            (*final(self), action) == old(self).on_press(*button),
    {
        if !self.is_running() {
            return Action::Nothing;
        }
        match button {
            Button::Arrow(d) => {
                self.controls.press(*d);
                Action::Nothing
            },
            Button::Escape => {
                self.phase = Phase::Terminated;
                Action::Exit
            },
            Button::Other => Action::Nothing,
        }
    }

    /// Handles a button going up. An arrow key is recorded as no longer held;
    /// any other button, the escape key included, is ignored. A terminated
    /// game ignores every button.
    pub fn released(&mut self, button: &Button)
        ensures
            *final(self) == old(self).on_release(*button),
    {
        if !self.is_running() {
            return ;
        }
        match button {
            Button::Arrow(d) => {
                self.controls.release(*d);
            },
            _ => {},
        }
    }

    /// Handles one event of the window's stream and says what the caller has
    /// to do for it.
    pub fn handle(&mut self, event: &Event) -> (action: Action)
        ensures
            (*final(self), action) == old(self).step(*event),
    {
        if !self.is_running() {
            return Action::Nothing;
        }
        match event {
            Event::Render => Action::Draw,
            Event::Update => Action::Step,
            Event::Press(button) => self.pressed(button),
            Event::Release(button) => {
                self.released(button);
                Action::Nothing
            },
            Event::Other => Action::Nothing,
        }
    }
}

/// A terminated game is never changed again and asks for nothing, whatever
/// events follow.
pub proof fn lemma_terminated_is_absorbing(game: Game, events: Seq<Event>)
    requires
        game.phase == Phase::Terminated,
    ensures
        game.after(events) == game,
        forall|event: Event| #[trigger] game.step(event) == (game, Action::Nothing),
    decreases events.len(),
{
    if events.len() > 0 {
        lemma_terminated_is_absorbing(game, events.drop_last());
    }
}

/// A running game ends on a press of the escape key and on no other event,
/// and it asks the caller to exit on that event alone.
pub proof fn lemma_only_escape_ends_the_game(game: Game, event: Event)
    requires
        game.phase == Phase::Running,
    ensures
        game.step(event).0.phase == Phase::Terminated <==> event == Event::Press(Button::Escape),
        game.step(event).1 == Action::Exit <==> event == Event::Press(Button::Escape),
{
}

/// A running game asks for a frame on every render tick and for a physics
/// step on every update tick, and on no other event; a tick changes nothing
/// in the state.
pub proof fn lemma_ticks_are_passed_on(game: Game, event: Event)
    requires
        game.phase == Phase::Running,
    ensures
        game.step(event).1 == Action::Draw <==> event == Event::Render,
        game.step(event).1 == Action::Step <==> event == Event::Update,
        event == Event::Render || event == Event::Update ==> game.step(event).0 == game,
{
}

/// The set of held controls follows the arrow keys while the game runs: a
/// press adds the key's control, a release removes it, and no other event
/// touches the set.
pub proof fn lemma_controls_follow_the_arrow_keys(game: Game, event: Event)
    ensures
        game.step(event).0.controls@ == match (game.phase, event) {
            (Phase::Running, Event::Press(Button::Arrow(d))) => game.controls@.insert(d),
            (Phase::Running, Event::Release(Button::Arrow(d))) => game.controls@.remove(d),
            _ => game.controls@,
        },
{
    match (game.phase, event) {
        (Phase::Running, Event::Press(Button::Arrow(d))) => {
            assert(game.controls.pressing(d)@ =~= game.controls@.insert(d));
        },
        (Phase::Running, Event::Release(Button::Arrow(d))) => {
            assert(game.controls.releasing(d)@ =~= game.controls@.remove(d));
        },
        _ => {},
    }
}

/// A control that is not held stays so for as long as its key is not pressed.
pub proof fn lemma_unpressed_control_stays_unheld(game: Game, events: Seq<Event>, d: Direction)
    requires
        !game.controls@.contains(d),
        forall|i: int| 0 <= i < events.len() ==> events[i] != Event::Press(Button::Arrow(d)),
    ensures
        !game.after(events).controls@.contains(d),
    decreases events.len(),
{
    if events.len() > 0 {
        let earlier = events.drop_last();
        lemma_unpressed_control_stays_unheld(game, earlier, d);
        lemma_controls_follow_the_arrow_keys(game.after(earlier), events.last());
    }
}

/// Releasing a key that was never pressed since the game began changes
/// nothing and asks for nothing.
pub proof fn lemma_release_of_never_pressed_changes_nothing(events: Seq<Event>, d: Direction)
    requires
        forall|i: int| 0 <= i < events.len() ==> events[i] != Event::Press(Button::Arrow(d)),
    ensures
        Game::start().after(events).step(Event::Release(Button::Arrow(d))) == (
            Game::start().after(events),
            Action::Nothing,
        ),
{
    lemma_unpressed_control_stays_unheld(Game::start(), events, d);
}

/// A key that is bound to nothing is ignored, pressed or released.
pub proof fn lemma_unbound_keys_are_ignored(game: Game, code: i32)
    requires
        code != KEY_UP,
        code != KEY_DOWN,
        code != KEY_LEFT,
        code != KEY_RIGHT,
        code != KEY_ESCAPE,
    ensures
        game.step(Event::Press(Button::of_key_code(code))) == (game, Action::Nothing),
        game.step(Event::Release(Button::of_key_code(code))) == (game, Action::Nothing),
{
}

} // verus!
