//! Keyboard input with per-direction spawn gating.
use vstd::prelude::*;

use crate::map::intersection::LaneId;

verus! {

/// The side of the map a vehicle enters from.
#[derive(Clone, Copy, PartialEq, Eq, Debug, Structural)]
pub enum Direction {
    North,
    South,
    East,
    West,
}

/// The direction with the given position in the order North, South, East, West.
pub open spec fn direction_at(n: int) -> Direction {
    if n == 0 {
        Direction::North
    } else if n == 1 {
        Direction::South
    } else if n == 2 {
        Direction::East
    } else {
        Direction::West
    }
}

pub open spec fn lane_direction(lane: LaneId) -> Direction {
    match lane {
        LaneId::NorthIn => Direction::North,
        LaneId::SouthIn => Direction::South,
        LaneId::EastIn => Direction::East,
        LaneId::WestIn => Direction::West,
    }
}

impl Direction {
    /// Position of the direction in the order North, South, East, West.
    pub open spec fn idx(self) -> int {
        match self {
            Direction::North => 0,
            Direction::South => 1,
            Direction::East => 2,
            Direction::West => 3,
        }
    }

    pub open spec fn lane(self) -> LaneId {
        match self {
            Direction::North => LaneId::NorthIn,
            Direction::South => LaneId::SouthIn,
            Direction::East => LaneId::EastIn,
            Direction::West => LaneId::WestIn,
        }
    }

    pub fn index(self) -> (i: usize)
        ensures
            i as int == self.idx(),
            i < 4,
    {
        match self {
            Direction::North => 0,
            Direction::South => 1,
            Direction::East => 2,
            Direction::West => 3,
        }
    }

    pub fn from_lane(lane: LaneId) -> (d: Self)
        ensures
            d == lane_direction(lane),
            d.lane() == lane,
    {
        match lane {
            LaneId::NorthIn => Direction::North,
            LaneId::SouthIn => Direction::South,
            LaneId::EastIn => Direction::East,
            LaneId::WestIn => Direction::West,
        }
    }

    pub fn to_lane(self) -> (l: LaneId)
        ensures
            l == self.lane(),
            lane_direction(l) == self,
    {
        match self {
            Direction::North => LaneId::NorthIn,
            Direction::South => LaneId::SouthIn,
            Direction::East => LaneId::EastIn,
            Direction::West => LaneId::WestIn,
        }
    }

    /// Round-robin pick: the direction at `counter % 4`; the counter then
    /// advances by one, wrapping at 256.
    pub fn random(counter: &mut u8) -> (d: Self)
        ensures
            d == direction_at(*old(counter) as int % 4),
            *final(counter) == (*old(counter) as int + 1) % 256,
    {
        let n = *counter % 4;
        *counter = counter.wrapping_add(1);
        match n {
            0 => Direction::North,
            1 => Direction::South,
            2 => Direction::East,
            _ => Direction::West,
        }
    }
}

} // verus!

verus! {

#[derive(Clone, Copy, PartialEq, Eq, Debug, Structural)]
pub enum GameEvent {
    SpawnVehicle(Direction),
    Quit,
}

/// The keys the simulation tells apart.
#[derive(Clone, Copy, PartialEq, Eq, Debug, Structural)]
pub enum Key {
    Up,
    Down,
    Left,
    Right,
    R,
    Escape,
    Other,
}

/// A window event, as far as the input handler reads it.
#[derive(Clone, Copy, PartialEq, Eq, Debug, Structural)]
pub enum InputEvent {
    /// The window was closed.
    Quit,
    /// A key was pressed; `repeat` marks the keyboard's auto-repeat.
    KeyDown { key: Key, repeat: bool },
    Other,
}

/// Keyboard input with per-direction spawn gating: once a direction has
/// spawned a vehicle it stays blocked until `clear_spawn` is called for it
/// (when that vehicle has left the spawn point).
pub struct InputHandler {
    spawn_blocked: [bool; 4],
    /// Round-robin counter behind the `r` key.
    direction_counter: u8,
}

pub struct InputView {
    /// Whether each direction, North, South, East, West, is blocked.
    pub blocked: Seq<bool>,
    pub counter: u8,
}

impl View for InputHandler {
    type V = InputView;

    closed spec fn view(&self) -> InputView {
        InputView { blocked: self.spawn_blocked@, counter: self.direction_counter }
    }
}

/// The direction a key spawns from, and the round-robin counter after the key.
pub open spec fn key_direction(key: Key, counter: u8) -> (Option<Direction>, u8) {
    match key {
        Key::Up => (Some(Direction::South), counter),
        Key::Down => (Some(Direction::North), counter),
        Key::Right => (Some(Direction::West), counter),
        Key::Left => (Some(Direction::East), counter),
        Key::R => (Some(direction_at(counter as int % 4)), ((counter as int + 1) % 256) as u8),
        _ => (None, counter),
    }
}

/// What one event does to the handler and which game events it yields.
pub open spec fn handle_spec(s: InputView, e: InputEvent) -> (InputView, Seq<GameEvent>) {
    match e {
        InputEvent::Quit => (s, seq![GameEvent::Quit]),
        InputEvent::KeyDown { key: Key::Escape, .. } => (s, seq![GameEvent::Quit]),
        InputEvent::KeyDown { key, repeat: false } => {
            let (d, counter) = key_direction(key, s.counter);
            match d {
                Some(d) => if !s.blocked[d.idx()] {
                    (
                        InputView { blocked: s.blocked.update(d.idx(), true), counter },
                        seq![GameEvent::SpawnVehicle(d)],
                    )
                } else {
                    (InputView { blocked: s.blocked, counter }, Seq::empty())
                },
                None => (InputView { blocked: s.blocked, counter }, Seq::empty()),
            }
        },
        _ => (s, Seq::empty()),
    }
}

/// The handler and the game events after a sequence of events, in order.
pub open spec fn poll_spec(s: InputView, events: Seq<InputEvent>) -> (InputView, Seq<GameEvent>)
    decreases events.len(),
{
    if events.len() == 0 {
        (s, Seq::empty())
    } else {
        let (s1, out1) = poll_spec(s, events.drop_last());
        let (s2, out2) = handle_spec(s1, events.last());
        (s2, out1 + out2)
    }
}

/// How many times `out` spawns a vehicle from `d`.
pub open spec fn spawn_count(out: Seq<GameEvent>, d: Direction) -> nat
    decreases out.len(),
{
    if out.len() == 0 {
        0
    } else {
        spawn_count(out.drop_last(), d) + if out.last() == GameEvent::SpawnVehicle(d) {
            1nat
        } else {
            0nat
        }
    }
}

impl InputHandler {
    pub fn new() -> (r: Self)
        ensures
            r@.blocked == seq![false, false, false, false],
            r@.counter == 0,
    {
        InputHandler { spawn_blocked: [false; 4], direction_counter: 0 }
    }

    fn handle_event(&mut self, e: InputEvent, out: &mut Vec<GameEvent>)
        requires
            old(self)@.blocked.len() == 4,
        ensures
            final(self)@ == handle_spec(old(self)@, e).0,
            final(out)@ == old(out)@ + handle_spec(old(self)@, e).1,
            final(self)@.blocked.len() == 4,
    {
        match e {
            InputEvent::Quit | InputEvent::KeyDown { key: Key::Escape, .. } => {
                out.push(GameEvent::Quit);
            },
            InputEvent::KeyDown { key, repeat: false } => {
                let dir = match key {
                    Key::Up => Some(Direction::South),
                    Key::Down => Some(Direction::North),
                    Key::Right => Some(Direction::West),
                    Key::Left => Some(Direction::East),
                    Key::R => Some(Direction::random(&mut self.direction_counter)),
                    _ => None,
                };
                if let Some(d) = dir {
                    if !self.spawn_blocked[d.index()] {
                        self.spawn_blocked[d.index()] = true;
                        out.push(GameEvent::SpawnVehicle(d));
                    }
                }
            },
            _ => {},
        }
        proof {
            assert(final(out)@ =~= old(out)@ + handle_spec(old(self)@, e).1);
        }
    }

    /// Turns window events into game events, in order. A direction that is
    /// blocked yields no vehicle; one that yields a vehicle becomes blocked.
    pub fn poll(&mut self, events: &Vec<InputEvent>) -> (out: Vec<GameEvent>)
        ensures
            old(self)@.blocked.len() == 4,
            final(self)@ == poll_spec(old(self)@, events@).0,
            out@ == poll_spec(old(self)@, events@).1,
            final(self)@.blocked.len() == 4,
    {
        assert(self@.blocked.len() == 4);
        let mut out: Vec<GameEvent> = Vec::new();
        let mut i: usize = 0;
        while i < events.len()
            invariant
                0 <= i <= events@.len(),
                self@ == poll_spec(old(self)@, events@.take(i as int)).0,
                out@ == poll_spec(old(self)@, events@.take(i as int)).1,
                self@.blocked.len() == 4,
            decreases events@.len() - i,
        {
            proof {
                assert(events@.take(i as int + 1).drop_last() =~= events@.take(i as int));
            }
            self.handle_event(events[i], &mut out);
            i += 1;
        }
        proof {
            assert(events@.take(events@.len() as int) =~= events@);
        }
        out
    }

    /// Unblocks spawning from `dir`.
    pub fn clear_spawn(&mut self, dir: Direction)
        ensures
            old(self)@.blocked.len() == 4,
            final(self)@.blocked.len() == 4,
            final(self)@.blocked == old(self)@.blocked.update(dir.idx(), false),
            final(self)@.counter == old(self)@.counter,
    {
        self.spawn_blocked[dir.index()] = false;
    }
}

/// A handler keeps one spawn flag per direction, North, South, East, West.
pub proof fn lemma_four_flags(h: &InputHandler)
    ensures
        h@.blocked.len() == 4,
{
}

proof fn lemma_spawn_count_concat(a: Seq<GameEvent>, b: Seq<GameEvent>, d: Direction)
    ensures
        spawn_count(a + b, d) == spawn_count(a, d) + spawn_count(b, d),
    decreases b.len(),
{
    if b.len() > 0 {
        lemma_spawn_count_concat(a, b.drop_last(), d);
        assert((a + b).drop_last() =~= a + b.drop_last());
    } else {
        assert(a + b =~= a);
    }
}

/// Spawning cannot be spammed: however many events arrive, a direction that
/// was blocked spawns nothing, one that was free spawns at most one vehicle,
/// and afterwards a direction is blocked exactly when it was blocked before
/// or has just spawned.
pub proof fn law_no_spawn_spam(s: InputView, events: Seq<InputEvent>, d: Direction)
    requires
        s.blocked.len() == 4,
    ensures
        poll_spec(s, events).0.blocked.len() == 4,
        spawn_count(poll_spec(s, events).1, d) <= (if s.blocked[d.idx()] {
            0nat
        } else {
            1nat
        }),
        poll_spec(s, events).0.blocked[d.idx()] == (s.blocked[d.idx()] || spawn_count(
            poll_spec(s, events).1,
            d,
        ) == 1),
    decreases events.len(),
{
    if events.len() > 0 {
        law_no_spawn_spam(s, events.drop_last(), d);
        let (s1, out1) = poll_spec(s, events.drop_last());
        let (s2, out2) = handle_spec(s1, events.last());
        lemma_spawn_count_concat(out1, out2, d);
        assert(spawn_count(out2, d) <= 1) by {
            reveal_with_fuel(spawn_count, 2);
        }
        assert(out2.len() == 1 && out2[0] == GameEvent::SpawnVehicle(d) ==> !s1.blocked[d.idx()]
            && s2.blocked[d.idx()]);
        assert(spawn_count(out2, d) == 1 ==> out2.len() == 1 && out2[0] == GameEvent::SpawnVehicle(
            d,
        )) by {
            reveal_with_fuel(spawn_count, 2);
        }
    }
}

/// The direction of the `k`-th press of `r` after the counter stood at `c`.
pub open spec fn nth_random_direction(c: u8, k: int) -> Direction {
    direction_at((c as int + k) % 256 % 4)
}

/// The `r` key cycles through the directions: four successive picks are
/// four different directions, whatever the counter.
pub proof fn law_random_direction_round_robin(c: u8)
    ensures
        forall|i: int, j: int|
            0 <= i < j < 4 ==> #[trigger] nth_random_direction(c, i) != #[trigger] nth_random_direction(
                c,
                j,
            ),
{
    assert forall|i: int, j: int| 0 <= i < j < 4 implies #[trigger] nth_random_direction(c, i)
        != #[trigger] nth_random_direction(c, j) by {
        assert((c as int + i) % 256 % 4 != (c as int + j) % 256 % 4) by (nonlinear_arith)
            requires
                0 <= i < j < 4,
                0 <= c < 256,
        ;
    }
}

} // verus!
