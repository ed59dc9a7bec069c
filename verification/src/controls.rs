//! Which of the four directional controls are held down.

use crate::direction::{Axis, Direction};
use vstd::prelude::*;

verus! {

/// The state of the four directional controls. A control is held from the
/// moment it is pressed until it is released; every combination can occur.
#[derive(Clone, Copy, Debug, PartialEq, Eq, Structural)]
pub struct Controls {
    pub up: bool,
    pub down: bool,
    pub left: bool,
    pub right: bool,
}

impl View for Controls {
    type V = Set<Direction>;

    /// The set of controls that are held.
    open spec fn view(&self) -> Set<Direction> {
        Set::new(|d: Direction| self.holds(d))
    }
}

impl Controls {
    /// Whether `d` is held.
    pub open spec fn holds(self, d: Direction) -> bool {
        match d {
            Direction::Up => self.up,
            Direction::Down => self.down,
            Direction::Left => self.left,
            Direction::Right => self.right,
        }
    }

    /// The state in which no control is held.
    pub open spec fn idle() -> Controls {
        Controls { up: false, down: false, left: false, right: false }
    }

    /// The state after `d` is pressed: `d` is held, the other three controls
    /// are as before.
    pub open spec fn pressing(self, d: Direction) -> Controls {
        Controls {
            up: self.up || d == Direction::Up,
            down: self.down || d == Direction::Down,
            left: self.left || d == Direction::Left,
            right: self.right || d == Direction::Right,
        }
    }

    /// The state after `d` is released: `d` is not held, the other three
    /// controls are as before.
    pub open spec fn releasing(self, d: Direction) -> Controls {
        Controls {
            up: self.up && d != Direction::Up,
            down: self.down && d != Direction::Down,
            left: self.left && d != Direction::Left,
            right: self.right && d != Direction::Right,
        }
    }

    /// `[d]` if `d` is held and the empty sequence if not.
    pub open spec fn slot(self, d: Direction) -> Seq<Direction> {
        if self.holds(d) {
            seq![d]
        } else {
            Seq::empty()
        }
    }

    /// The held controls in polling order. A frame's physics step applies one
    /// unit push for each entry, in this order.
    pub open spec fn held_spec(self) -> Seq<Direction> {
        Direction::polling_order().filter(|d: Direction| self.holds(d))
    }

    /// The part of `held_spec()` that pushes along `axis`: the unit pushes
    /// that a frame applies to that coordinate of the acceleration.
    pub open spec fn pushes_along(self, axis: Axis) -> Seq<Direction> {
        self.held_spec().filter(|d: Direction| d.axis_spec() == axis)
    }

    /// Controls with nothing held.
    pub fn new() -> (controls: Controls)
        ensures
            controls == Controls::idle(),
            controls@ == Set::<Direction>::empty(),
    {
        let controls = Controls { up: false, down: false, left: false, right: false };
        assert(controls@ =~= Set::<Direction>::empty());
        controls
    }

    /// Whether `d` is held.
    pub fn is_held(&self, d: Direction) -> (held: bool)
        ensures
            held == self@.contains(d),
    {
        match d {
            Direction::Up => self.up,
            Direction::Down => self.down,
            Direction::Left => self.left,
            Direction::Right => self.right,
        }
    }

    /// Records that `d` went down. Pressing a control that is already held
    /// changes nothing.
    pub fn press(&mut self, d: Direction)
        ensures
            *final(self) == old(self).pressing(d),
            final(self)@ == old(self)@.insert(d),
    {
        match d {
            Direction::Up => self.up = true,
            Direction::Down => self.down = true,
            Direction::Left => self.left = true,
            Direction::Right => self.right = true,
        }
        assert(self@ =~= old(self)@.insert(d));
    }

    /// Records that `d` went up. Releasing a control that is not held changes
    /// nothing.
    pub fn release(&mut self, d: Direction)
        ensures
            *final(self) == old(self).releasing(d),
            final(self)@ == old(self)@.remove(d),
    {
        match d {
            Direction::Up => self.up = false,
            Direction::Down => self.down = false,
            Direction::Left => self.left = false,
            Direction::Right => self.right = false,
        }
        assert(self@ =~= old(self)@.remove(d));
    }

    /// The held controls in polling order: up, down, left, right.
    pub fn held(&self) -> (list: Vec<Direction>)
        ensures
            list@ == self.held_spec(),
    {
        let mut list: Vec<Direction> = Vec::new();
        if self.up {
            list.push(Direction::Up);
        }
        if self.down {
            list.push(Direction::Down);
        }
        if self.left {
            list.push(Direction::Left);
        }
        if self.right {
            list.push(Direction::Right);
        }
        proof {
            lemma_held_unrolled(*self);
            assert(list@ =~= self.held_spec());
        }
        list
    }
}

/// Filtering a sequence of at most one element keeps all of it or nothing.
proof fn lemma_filter_short(s: Seq<Direction>, keep: spec_fn(Direction) -> bool)
    requires
        s.len() <= 1,
    ensures
        s.filter(keep) == if s.len() == 1 && keep(s[0]) {
            s
        } else {
            Seq::empty()
        },
{
    reveal_with_fuel(Seq::filter, 2);
    if s.len() == 1 {
        assert(s.drop_last() =~= Seq::<Direction>::empty());
        assert(Seq::<Direction>::empty().push(s[0]) =~= s);
    }
}

/// The list of held controls is the concatenation of the four controls'
/// slots.
pub proof fn lemma_held_unrolled(controls: Controls)
    ensures
        controls.held_spec() == controls.slot(Direction::Up) + controls.slot(Direction::Down)
            + controls.slot(Direction::Left) + controls.slot(Direction::Right),
{
    let keep = |e: Direction| controls.holds(e);
    let up = seq![Direction::Up];
    let down = seq![Direction::Down];
    let left = seq![Direction::Left];
    let right = seq![Direction::Right];
    assert(Direction::polling_order() =~= up + down + left + right);
    Seq::filter_distributes_over_add(up + down + left, right, keep);
    Seq::filter_distributes_over_add(up + down, left, keep);
    Seq::filter_distributes_over_add(up, down, keep);
    lemma_filter_short(up, keep);
    lemma_filter_short(down, keep);
    lemma_filter_short(left, keep);
    lemma_filter_short(right, keep);
}

/// The pushes along the vertical axis are those of `Up` and `Down`, the
/// pushes along the horizontal axis those of `Left` and `Right`, and nothing
/// else: a frame changes the acceleration only along the axes of the controls
/// that are held.
pub proof fn lemma_pushes_along_axis(controls: Controls)
    ensures
        controls.pushes_along(Axis::Y) == controls.slot(Direction::Up) + controls.slot(
            Direction::Down,
        ),
        controls.pushes_along(Axis::X) == controls.slot(Direction::Left) + controls.slot(
            Direction::Right,
        ),
{
    let up = controls.slot(Direction::Up);
    let down = controls.slot(Direction::Down);
    let left = controls.slot(Direction::Left);
    let right = controls.slot(Direction::Right);
    let on_x = |d: Direction| d.axis_spec() == Axis::X;
    let on_y = |d: Direction| d.axis_spec() == Axis::Y;
    lemma_held_unrolled(controls);
    Seq::filter_distributes_over_add(up + down + left, right, on_x);
    Seq::filter_distributes_over_add(up + down, left, on_x);
    Seq::filter_distributes_over_add(up, down, on_x);
    Seq::filter_distributes_over_add(up + down + left, right, on_y);
    Seq::filter_distributes_over_add(up + down, left, on_y);
    Seq::filter_distributes_over_add(up, down, on_y);
    lemma_filter_short(up, on_x);
    lemma_filter_short(down, on_x);
    lemma_filter_short(left, on_x);
    lemma_filter_short(right, on_x);
    lemma_filter_short(up, on_y);
    lemma_filter_short(down, on_y);
    lemma_filter_short(left, on_y);
    lemma_filter_short(right, on_y);
    assert(controls.pushes_along(Axis::Y) =~= up + down);
    assert(controls.pushes_along(Axis::X) =~= left + right);
}

/// An axis receives no push exactly when neither of its controls is held.
pub proof fn lemma_idle_axis_gets_no_push(controls: Controls, axis: Axis)
    ensures
        controls.pushes_along(axis).len() == 0 <==> forall|d: Direction| #[trigger]
            d.axis_spec() == axis ==> !controls@.contains(d),
{
    lemma_pushes_along_axis(controls);
    match axis {
        Axis::X => {
            assert(Direction::Left.axis_spec() == Axis::X);
            assert(Direction::Right.axis_spec() == Axis::X);
            assert(controls@.contains(Direction::Left) == controls.left);
            assert(controls@.contains(Direction::Right) == controls.right);
        },
        Axis::Y => {
            assert(Direction::Up.axis_spec() == Axis::Y);
            assert(Direction::Down.axis_spec() == Axis::Y);
            assert(controls@.contains(Direction::Up) == controls.up);
            assert(controls@.contains(Direction::Down) == controls.down);
        },
    }
}

/// The pushes along one axis do not depend on the controls of the other:
/// two states that agree on the controls of `axis` push alike along it.
pub proof fn lemma_axes_are_independent(a: Controls, b: Controls, axis: Axis)
    requires
        forall|d: Direction| #[trigger]
            d.axis_spec() == axis ==> a@.contains(d) == b@.contains(d),
    ensures
        a.pushes_along(axis) == b.pushes_along(axis),
{
    lemma_pushes_along_axis(a);
    lemma_pushes_along_axis(b);
    match axis {
        Axis::X => {
            assert(Direction::Left.axis_spec() == axis && Direction::Right.axis_spec() == axis);
            assert(a.holds(Direction::Left) == b.holds(Direction::Left));
            assert(a.holds(Direction::Right) == b.holds(Direction::Right));
        },
        Axis::Y => {
            assert(Direction::Up.axis_spec() == axis && Direction::Down.axis_spec() == axis);
            assert(a.holds(Direction::Up) == b.holds(Direction::Up));
            assert(a.holds(Direction::Down) == b.holds(Direction::Down));
        },
    }
}

/// Every held control is listed once in `held_spec()`, and nothing else is.
pub proof fn lemma_held_lists_each_held_control_once(controls: Controls)
    ensures
        forall|d: Direction| controls.held_spec().contains(d) <==> controls@.contains(d),
        controls.held_spec().no_duplicates(),
{
    lemma_held_unrolled(controls);
    let list = controls.held_spec();
    assert forall|d: Direction| controls@.contains(d) implies list.contains(d) by {
        let up = controls.slot(Direction::Up);
        let down = controls.slot(Direction::Down);
        let left = controls.slot(Direction::Left);
        let before: int = match d {
            Direction::Up => 0,
            Direction::Down => up.len() as int,
            Direction::Left => (up + down).len() as int,
            Direction::Right => (up + down + left).len() as int,
        };
        assert(list[before] == d);
    }
}

/// The set of held controls determines the state.
pub proof fn lemma_view_determines_controls(a: Controls, b: Controls)
    requires
        a@ == b@,
    ensures
        a == b,
{
    assert(a.up == a@.contains(Direction::Up) && b.up == b@.contains(Direction::Up));
    assert(a.down == a@.contains(Direction::Down) && b.down == b@.contains(Direction::Down));
    assert(a.left == a@.contains(Direction::Left) && b.left == b@.contains(Direction::Left));
    assert(a.right == a@.contains(Direction::Right) && b.right == b@.contains(Direction::Right));
}

/// Releasing a control that is not held leaves the state as it is.
pub proof fn lemma_release_of_unheld_changes_nothing(controls: Controls, d: Direction)
    requires
        !controls@.contains(d),
    ensures
        controls.releasing(d) == controls,
{
}

/// Pressing a control that is held leaves the state as it is.
pub proof fn lemma_press_of_held_changes_nothing(controls: Controls, d: Direction)
    requires
        controls@.contains(d),
    ensures
        controls.pressing(d) == controls,
{
}

/// A second press, or a second release, of the same control changes nothing,
/// and of a press and a release of the same control the later one decides.
pub proof fn lemma_press_and_release_are_idempotent(controls: Controls, d: Direction)
    ensures
        controls.pressing(d).pressing(d) == controls.pressing(d),
        controls.releasing(d).releasing(d) == controls.releasing(d),
        controls.pressing(d).releasing(d) == controls.releasing(d),
        controls.releasing(d).pressing(d) == controls.pressing(d),
{
}

} // verus!
