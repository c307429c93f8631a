//! The snake game: a toroidal grid of slots, each packing the snake's
//! body direction links and an optional banana into one byte.

use vstd::prelude::*;

use rand::Rng;

use crate::math::pos::Pos;
use crate::math::size::Size;

pub mod snaeksheet;

verus! {

/// Declares `rand`'s thread-local generator type so values of it can be
/// carried through verified code; it stays opaque.
#[verifier::external_type_specification]
#[verifier::external_body]
pub struct ExThreadRng(rand::rngs::ThreadRng);

/// Relies on `rand::thread_rng`: obtains the thread-local generator.
/// Nothing is promised of it.
#[verifier::external_body]
fn fresh_rng() -> rand::rngs::ThreadRng {
    rand::thread_rng()
}

/// Relies on `rand::Rng::gen_range`: the sample lies in the half-open
/// range `0..bound`, which must not be empty (the call panics on an empty
/// range). Which value comes back is promised by nothing.
#[verifier::external_body]
fn rand_below(rng: &mut rand::rngs::ThreadRng, bound: u16) -> (r: u16)
    requires
        bound > 0,
    ensures
        r < bound,
{
    rng.gen_range(0..bound)
}

/// A uniformly drawn position on a `size.w` by `size.h` grid.
fn rand_pos(rng: &mut rand::rngs::ThreadRng, size: Size) -> (p: Pos)
    requires
        0 < size.w <= 0x7fff,
        0 < size.h <= 0x7fff,
    ensures
        0 <= p.x < size.w,
        0 <= p.y < size.h,
{
    let x = rand_below(rng, size.w);
    let y = rand_below(rng, size.h);
    Pos { x: x as i16, y: y as i16 }
}

/// A movement direction on the grid.
#[derive(Debug, Clone, Copy, PartialEq, Eq, Structural)]
pub enum Direction {
    Up,
    Right,
    Down,
    Left,
}

/// What [`Direction::pos_offset`] returns: one step along the direction,
/// with y growing downward.
pub open spec fn spec_pos_offset(d: Direction) -> Pos {
    match d {
        Direction::Up => Pos { x: 0i16, y: -1i16 },
        Direction::Right => Pos { x: 1i16, y: 0i16 },
        Direction::Down => Pos { x: 0i16, y: 1i16 },
        Direction::Left => Pos { x: -1i16, y: 0i16 },
    }
}

/// What [`Direction::opposite`] returns.
pub open spec fn spec_opposite(d: Direction) -> Direction {
    match d {
        Direction::Up => Direction::Down,
        Direction::Right => Direction::Left,
        Direction::Down => Direction::Up,
        Direction::Left => Direction::Right,
    }
}

impl Direction {
    /// One grid step along this direction.
    pub fn pos_offset(&self) -> (p: Pos)
        ensures
            p == spec_pos_offset(*self),
    {
        match self {
            Direction::Up => Pos { x: 0, y: -1 },
            Direction::Right => Pos { x: 1, y: 0 },
            Direction::Down => Pos { x: 0, y: 1 },
            Direction::Left => Pos { x: -1, y: 0 },
        }
    }

    /// The reverse direction.
    pub fn opposite(&self) -> (d: Direction)
        ensures
            d == spec_opposite(*self),
    {
        match self {
            Direction::Up => Direction::Down,
            Direction::Right => Direction::Left,
            Direction::Down => Direction::Up,
            Direction::Left => Direction::Right,
        }
    }
}

/// The kind of banana on a slot; rarer colours are worth more to look at.
#[derive(Debug, Clone, Copy, PartialEq, Eq, Structural)]
pub enum Banana {
    Yellow,
    Red,
    Cyan,
}

/// A slot of the playfield, packed into one byte:
/// bits 0-1 the direction toward the previous body part, bits 2-3 the
/// direction toward the next one, bit 4 the head marker, bit 5 the tail
/// marker, bits 6-7 the banana kind (0 for none).
#[derive(Debug, Clone, Copy, PartialEq, Eq, Hash, Structural)]
pub struct Slot(u8);

/// The two-bit encoding of a direction.
pub open spec fn spec_dir_bits(d: Direction) -> u8 {
    match d {
        Direction::Up => 0u8,
        Direction::Right => 1u8,
        Direction::Down => 2u8,
        Direction::Left => 3u8,
    }
}

/// The direction encoded by two bits.
pub open spec fn spec_bits_dir(b: u8) -> Direction {
    if b == 0 {
        Direction::Up
    } else if b == 1 {
        Direction::Right
    } else if b == 2 {
        Direction::Down
    } else {
        Direction::Left
    }
}

impl Slot {
    pub closed spec fn bits(self) -> u8 {
        self.0
    }

    /// An empty slot: no snake, no banana.
    pub fn empty() -> (s: Slot)
        ensures
            s.bits() == 0,
    {
        Slot(0)
    }

    /// The direction toward the previous body part.
    pub fn direction_prev(&self) -> (d: Direction)
        ensures
            d == spec_bits_dir((self.bits() & 0x03) as u8),
    {
        let b = self.0 & 0x03;
        if b == 0 {
            Direction::Up
        } else if b == 1 {
            Direction::Right
        } else if b == 2 {
            Direction::Down
        } else {
            Direction::Left
        }
    }

    /// Sets the direction toward the previous body part, leaving every
    /// other bit alone.
    pub fn set_direction_prev(&mut self, direction: Direction)
        ensures
            final(self).bits() == (old(self).bits() & 0xfc) | spec_dir_bits(direction),
    {
        self.0 = self.0 & 0xfc;
        self.0 = self.0 | (match direction {
            Direction::Up => 0u8,
            Direction::Right => 1u8,
            Direction::Down => 2u8,
            Direction::Left => 3u8,
        });
    }

    /// The direction toward the next body part.
    pub fn direction_next(&self) -> (d: Direction)
        ensures
            d == spec_bits_dir(((self.bits() >> 2) & 0x03) as u8),
    {
        let b = (self.0 >> 2) & 0x03;
        if b == 0 {
            Direction::Up
        } else if b == 1 {
            Direction::Right
        } else if b == 2 {
            Direction::Down
        } else {
            Direction::Left
        }
    }

    /// Sets the direction toward the next body part, leaving every other
    /// bit alone.
    pub fn set_direction_next(&mut self, direction: Direction)
        ensures
            final(self).bits() == (old(self).bits() & 0xf3) | ((spec_dir_bits(direction) << 2) as u8),
    {
        self.0 = self.0 & 0xf3;
        self.0 = self.0 | ((match direction {
            Direction::Up => 0u8,
            Direction::Right => 1u8,
            Direction::Down => 2u8,
            Direction::Left => 3u8,
        }) << 2);
    }

    /// Whether the snake's head is here.
    pub fn has_snake_head(&self) -> (r: bool)
        ensures
            r == (self.bits() & 0x10 != 0),
    {
        self.0 & 0x10 != 0
    }

    pub fn set_snake_head(&mut self)
        ensures
            final(self).bits() == old(self).bits() | 0x10,
    {
        self.0 = self.0 | 0x10;
    }

    /// Whether the snake's tail is here.
    pub fn has_snake_tail(&self) -> (r: bool)
        ensures
            r == (self.bits() & 0x20 != 0),
    {
        self.0 & 0x20 != 0
    }

    pub fn set_snake_tail(&mut self)
        ensures
            final(self).bits() == old(self).bits() | 0x20,
    {
        self.0 = self.0 | 0x20;
    }

    /// Whether any part of the snake is here.
    pub fn has_snake(&self) -> (r: bool)
        ensures
            r == (self.bits() & 0x30 != 0),
    {
        self.0 & 0x30 != 0
    }

    /// Clears both snake markers.
    pub fn remove_snake(&mut self)
        ensures
            final(self).bits() == old(self).bits() & 0xcf,
    {
        self.0 = self.0 & 0xcf;
    }

    /// The banana on this slot, if any.
    pub fn banana(&self) -> (b: Option<Banana>)
        ensures
            b == spec_banana(self.bits()),
    {
        let bits = self.0 & 0xc0;
        if bits == 0x40 {
            Some(Banana::Yellow)
        } else if bits == 0x80 {
            Some(Banana::Red)
        } else if bits == 0xc0 {
            Some(Banana::Cyan)
        } else {
            None
        }
    }

    /// Puts a banana on this slot, or clears it.
    pub fn set_banana(&mut self, banana: Option<Banana>)
        ensures
            final(self).bits() == (old(self).bits() & 0x3f) | spec_banana_bits(banana),
    {
        self.0 = self.0 & 0x3f;
        self.0 = self.0 | (match banana {
            None => 0u8,
            Some(Banana::Yellow) => 0x40u8,
            Some(Banana::Red) => 0x80u8,
            Some(Banana::Cyan) => 0xc0u8,
        });
    }
}

/// The banana encoded in bits 6-7 of a slot.
pub open spec fn spec_banana(bits: u8) -> Option<Banana> {
    let b = bits & 0xc0;
    if b == 0x40 {
        Some(Banana::Yellow)
    } else if b == 0x80 {
        Some(Banana::Red)
    } else if b == 0xc0 {
        Some(Banana::Cyan)
    } else {
        None
    }
}

pub open spec fn spec_banana_bits(banana: Option<Banana>) -> u8 {
    match banana {
        None => 0u8,
        Some(Banana::Yellow) => 0x40u8,
        Some(Banana::Red) => 0x80u8,
        Some(Banana::Cyan) => 0xc0u8,
    }
}

impl Default for Slot {
    /// An empty slot.
    fn default() -> (s: Self)
        ensures
            s.bits() == 0,
    {
        Slot(0)
    }
}

/// The snake game state: the playfield, the snake's end positions, the
/// score and pacing counters. Time is kept in milliseconds fed in by the
/// host; speed in tenths of a cell per second.
pub struct SnakeGame {
    rng: rand::rngs::ThreadRng,
    size: Size,
    playfield: Vec<Slot>,
    snake_head: Pos,
    snake_tail: Pos,
    bananas_eaten: u32,
    speed_tenths: u32,
    direction: Direction,
    ate_banana: bool,
    is_dead: bool,
    duration_ms: u64,
}

impl SnakeGame {
    pub closed spec fn spec_size(&self) -> Size {
        self.size
    }

    pub closed spec fn spec_playfield(&self) -> Seq<Slot> {
        self.playfield@
    }

    pub closed spec fn spec_snake_head(&self) -> Pos {
        self.snake_head
    }

    pub closed spec fn spec_bananas_eaten(&self) -> u32 {
        self.bananas_eaten
    }

    pub closed spec fn spec_speed_tenths(&self) -> u32 {
        self.speed_tenths
    }

    pub closed spec fn spec_direction(&self) -> Direction {
        self.direction
    }

    pub closed spec fn spec_ate_banana(&self) -> bool {
        self.ate_banana
    }

    pub closed spec fn spec_is_dead(&self) -> bool {
        self.is_dead
    }

    pub closed spec fn spec_duration_ms(&self) -> u64 {
        self.duration_ms
    }

    /// The playfield has one slot per grid cell, the grid is at least
    /// 2 by 2, and the snake's ends are on it.
    pub open spec fn wf(&self) -> bool {
        &&& self.spec_playfield().len() == self.spec_size().w as int * self.spec_size().h as int
        &&& 2 <= self.spec_size().w <= 0x7fff
        &&& 2 <= self.spec_size().h <= 0x7fff
        &&& 0 <= self.spec_snake_head().x < self.spec_size().w
        &&& 0 <= self.spec_snake_head().y < self.spec_size().h
    }

    /// A fresh game on a `playfield_size` grid, already started: snake in
    /// the middle heading right, one banana placed.
    pub fn new(playfield_size: Size) -> (g: SnakeGame)
        requires
            2 <= playfield_size.w <= 0x7fff,
            2 <= playfield_size.h <= 0x7fff,
        ensures
            g.wf(),
            g.spec_size() == playfield_size,
            !g.spec_is_dead(),
            g.spec_bananas_eaten() == 0,
            g.spec_direction() == Direction::Right,
            g.spec_speed_tenths() == 30,
            g.spec_duration_ms() == 0,
    {
        proof {
            assert((playfield_size.w as int) * (playfield_size.h as int) <= 0xffff * 0xffff)
                by (nonlinear_arith)
                requires
                    0 <= (playfield_size.w as int) <= 0xffff,
                    0 <= (playfield_size.h as int) <= 0xffff,
            ;
        }
        let n: usize = playfield_size.w as usize * playfield_size.h as usize;
        let mut playfield: Vec<Slot> = Vec::new();
        while playfield.len() < n
            invariant
                playfield@.len() <= n,
            decreases n - playfield@.len(),
        {
            playfield.push(Slot::empty());
        }
        let mut game = SnakeGame {
            rng: fresh_rng(),
            size: playfield_size,
            playfield,
            snake_head: Pos { x: (playfield_size.w / 2) as i16, y: (playfield_size.h / 2) as i16 },
            snake_tail: Pos {
                x: (playfield_size.w / 2) as i16 - 1,
                y: (playfield_size.h / 2) as i16,
            },
            bananas_eaten: 0,
            speed_tenths: 30,
            direction: Direction::Right,
            ate_banana: false,
            is_dead: false,
            duration_ms: 0,
        };
        game.restart();
        game
    }

    /// Resets the game in place: empty field, snake of length two in the
    /// middle heading right, score and clock cleared, one banana placed.
    pub fn restart(&mut self)
        requires
            old(self).wf(),
        ensures
            final(self).wf(),
            final(self).spec_size() == old(self).spec_size(),
            !final(self).spec_is_dead(),
            final(self).spec_bananas_eaten() == 0,
            final(self).spec_direction() == Direction::Right,
            final(self).spec_speed_tenths() == 30,
            final(self).spec_duration_ms() == 0,
    {
        let n = self.playfield.len();
        let mut i: usize = 0;
        while i < n
            invariant
                i <= n,
                n == self.playfield@.len(),
                self.size == old(self).spec_size(),
                self.playfield@.len() == old(self).spec_playfield().len(),
                self.snake_head == old(self).spec_snake_head(),
                self.rng == old(self).rng,
            decreases n - i,
        {
            self.playfield.set(i, Slot::empty());
            i += 1;
        }
        let head = Pos { x: (self.size.w / 2) as i16, y: (self.size.h / 2) as i16 };
        let tail = Pos { x: head.x - 1, y: head.y };
        self.snake_head = head;
        self.snake_tail = tail;
        let hi = self.slot_index(head);
        let mut hs = self.playfield[hi];
        hs.set_direction_prev(Direction::Left);
        hs.set_direction_next(Direction::Right);
        hs.set_snake_head();
        self.playfield.set(hi, hs);
        let ti = self.slot_index(tail);
        let mut ts = self.playfield[ti];
        ts.set_direction_next(Direction::Right);
        ts.set_snake_tail();
        self.playfield.set(ti, ts);
        self.bananas_eaten = 0;
        self.speed_tenths = 30;
        self.direction = Direction::Right;
        self.is_dead = false;
        self.ate_banana = false;
        self.duration_ms = 0;
        self.place_banana();
    }

    /// Turns the snake, unless the new direction is directly backwards.
    pub fn change_direction(&mut self, direction: Direction)
        ensures
            final(self).spec_direction() == (if direction == spec_opposite(
                old(self).spec_direction()) {
                old(self).spec_direction()
            } else {
                direction
            }),
            final(self).spec_size() == old(self).spec_size(),
            final(self).spec_playfield() == old(self).spec_playfield(),
            final(self).spec_is_dead() == old(self).spec_is_dead(),
            final(self).wf() == old(self).wf(),
    {
        let opposite = self.direction.opposite();
        if !direction_eq(direction, opposite) {
            self.direction = direction;
        }
    }

    /// Records the wall-clock time the host has measured for this run; a
    /// dead snake's clock is frozen.
    pub fn update_duration(&mut self, elapsed_ms: u64)
        ensures
            final(self).spec_duration_ms() == (if old(self).spec_is_dead() {
                old(self).spec_duration_ms()
            } else {
                elapsed_ms
            }),
            final(self).spec_size() == old(self).spec_size(),
            final(self).spec_playfield() == old(self).spec_playfield(),
            final(self).spec_is_dead() == old(self).spec_is_dead(),
            final(self).wf() == old(self).wf(),
    {
        if self.is_dead {
            return ;
        }
        self.duration_ms = elapsed_ms;
    }

    /// One simulation step: the snake advances one cell (the tail
    /// following unless a banana was eaten, which grows the snake and
    /// places a new banana), dies on self-collision, and does nothing at
    /// all once dead.
    pub fn update(&mut self)
        requires
            old(self).wf(),
            old(self).spec_bananas_eaten() < u32::MAX,
            old(self).spec_speed_tenths() < u32::MAX,
        ensures
            final(self).wf(),
            final(self).spec_size() == old(self).spec_size(),
            final(self).spec_duration_ms() == old(self).spec_duration_ms(),
            old(self).spec_is_dead() ==> *final(self) == *old(self),
            !old(self).spec_is_dead() && !final(self).spec_is_dead() ==> {
                &&& (final(self).spec_ate_banana()
                    ==> final(self).spec_bananas_eaten() == old(self).spec_bananas_eaten() + 1
                    && final(self).spec_speed_tenths() == old(self).spec_speed_tenths() + 1)
                &&& (!final(self).spec_ate_banana()
                    ==> final(self).spec_bananas_eaten() == old(self).spec_bananas_eaten()
                    && final(self).spec_speed_tenths() == old(self).spec_speed_tenths())
            },
    {
        if self.is_dead {
            return ;
        }
        self.ate_banana = false;
        let head = self.snake_head;
        let dir = self.direction;
        let hi = self.slot_index(head);
        let mut hs = self.playfield[hi];
        hs.set_direction_next(dir);
        self.playfield.set(hi, hs);
        let next_head = self.next_at(head);
        let ni = self.slot_index(next_head);
        let next_slot = self.playfield[ni];
        if next_slot.banana().is_some() {
            self.ate_banana = true;
            if next_slot.has_snake() {
                self.is_dead = true;
                return ;
            }
            let mut cs = self.playfield[hi];
            cs.set_direction_next(dir);
            cs.set_snake_tail();
            self.playfield.set(hi, cs);
            self.snake_head = self.wrap_pos(next_head);
            let mut ns = self.playfield[ni];
            ns.set_direction_prev(dir.opposite());
            ns.set_snake_head();
            ns.set_banana(None);
            self.playfield.set(ni, ns);
            self.bananas_eaten = self.bananas_eaten + 1;
            self.speed_tenths = self.speed_tenths + 1;
            self.place_banana();
        } else {
            if next_slot.has_snake_head() {
                self.is_dead = true;
                return ;
            }
            let tail = self.snake_tail;
            let next_tail = self.next_at(tail);
            let ti = self.slot_index(tail);
            let mut ts = self.playfield[ti];
            ts.remove_snake();
            self.playfield.set(ti, ts);
            self.snake_tail = self.wrap_pos(next_tail);
            let nti = self.slot_index(next_tail);
            let mut nts = self.playfield[nti];
            nts.remove_snake();
            nts.set_snake_tail();
            self.playfield.set(nti, nts);
            let mut cs = self.playfield[hi];
            cs.set_direction_next(dir);
            cs.set_snake_tail();
            self.playfield.set(hi, cs);
            self.snake_head = self.wrap_pos(next_head);
            let nhi = self.slot_index(next_head);
            let mut nhs = self.playfield[nhi];
            nhs.set_direction_prev(dir.opposite());
            nhs.set_snake_head();
            self.playfield.set(nhi, nhs);
        }
    }

    /// Draws random positions until a snake-free slot takes a banana:
    /// mostly yellow, sometimes red, rarely cyan. Every outcome leaves
    /// exactly one previously free slot with a banana, or, if the tries
    /// run out on a crowded field, the field unchanged.
    fn place_banana(&mut self)
        requires
            old(self).wf(),
        ensures
            final(self).wf(),
            final(self).spec_size() == old(self).spec_size(),
            final(self).spec_snake_head() == old(self).spec_snake_head(),
            final(self).spec_bananas_eaten() == old(self).spec_bananas_eaten(),
            final(self).spec_speed_tenths() == old(self).spec_speed_tenths(),
            final(self).spec_direction() == old(self).spec_direction(),
            final(self).spec_ate_banana() == old(self).spec_ate_banana(),
            final(self).spec_is_dead() == old(self).spec_is_dead(),
            final(self).spec_duration_ms() == old(self).spec_duration_ms(),
            final(self).spec_playfield() == old(self).spec_playfield() || exists|i: int|
                {
                    &&& 0 <= i < old(self).spec_playfield().len()
                    &&& #[trigger] old(self).spec_playfield()[i].bits() & 0x30 == 0
                    &&& final(self).spec_playfield().len() == old(self).spec_playfield().len()
                    &&& (forall|j: int|
                        0 <= j < old(self).spec_playfield().len() && j != i
                            ==> final(self).spec_playfield()[j] == old(self).spec_playfield()[j])
                    &&& final(self).spec_playfield()[i].bits() & 0x3f
                        == old(self).spec_playfield()[i].bits() & 0x3f
                    &&& final(self).spec_playfield()[i].bits() & 0xc0 != 0
                },
    {
        let mut tries: u64 = 0;
        while tries < 10000
            invariant
                self.wf(),
                self.size == old(self).spec_size(),
                self.snake_head == old(self).spec_snake_head(),
                self.bananas_eaten == old(self).spec_bananas_eaten(),
                self.speed_tenths == old(self).spec_speed_tenths(),
                self.direction == old(self).spec_direction(),
                self.ate_banana == old(self).spec_ate_banana(),
                self.is_dead == old(self).spec_is_dead(),
                self.duration_ms == old(self).spec_duration_ms(),
                self.snake_tail == old(self).snake_tail,
                self.playfield@ == old(self).spec_playfield(),
            decreases 10000 - tries,
        {
            let p = rand_pos(&mut self.rng, self.size);
            let i = self.slot_index(p);
            let slot = self.playfield[i];
            if !slot.has_snake() {
                let roll = rand_below(&mut self.rng, 100);
                let banana = if roll == 0 {
                    Banana::Cyan
                } else if roll <= 9 {
                    Banana::Red
                } else {
                    Banana::Yellow
                };
                let mut s = slot;
                s.set_banana(Some(banana));
                self.playfield.set(i, s);
                proof {
                    let ob = old(self).spec_playfield()[i as int].bits();
                    let nb = self.playfield@[i as int].bits();
                    let bb = spec_banana_bits(Some(banana));
                    assert(bb == 0x40 || bb == 0x80 || bb == 0xc0);
                    assert(nb & 0x3f == ob & 0x3f && nb & 0xc0 != 0) by (bit_vector)
                        requires
                            nb == (ob & 0x3f) | bb,
                            bb == 0x40 || bb == 0x80 || bb == 0xc0,
                    ;
                }
                return ;
            }
            tries = tries + 1;
        }
    }

    pub fn size(&self) -> (s: Size)
        ensures
            s == self.spec_size(),
    {
        self.size
    }

    /// The slot at a grid position, wrapping around the edges.
    pub fn slot_at(&self, pos: Pos) -> (s: Slot)
        requires
            self.wf(),
        ensures
            s == self.spec_playfield()[self.spec_slot_index(pos)],
    {
        let i = self.slot_index(pos);
        self.playfield[i]
    }

    pub fn snake_head(&self) -> (p: Pos)
        ensures
            p == self.spec_snake_head(),
    {
        self.snake_head
    }

    pub fn ate_banana(&self) -> (r: bool)
        ensures
            r == self.spec_ate_banana(),
    {
        self.ate_banana
    }

    pub fn is_dead(&self) -> (r: bool)
        ensures
            r == self.spec_is_dead(),
    {
        self.is_dead
    }

    pub fn bananas_eaten(&self) -> (r: u32)
        ensures
            r == self.spec_bananas_eaten(),
    {
        self.bananas_eaten
    }

    /// The snake's pace, in tenths of a cell per second: starts at 30 and
    /// gains one tenth per banana.
    pub fn speed(&self) -> (r: u32)
        ensures
            r == self.spec_speed_tenths(),
    {
        self.speed_tenths
    }

    pub fn direction(&self) -> (d: Direction)
        ensures
            d == self.spec_direction(),
    {
        self.direction
    }

    /// The run's clock, in milliseconds, as last fed by the host.
    pub fn duration(&self) -> (r: u64)
        ensures
            r == self.spec_duration_ms(),
    {
        self.duration_ms
    }

    /// A position wrapped onto the torus.
    pub open spec fn spec_wrap(&self, p: Pos) -> Pos {
        Pos {
            x: (p.x as int % self.spec_size().w as int) as i16,
            y: (p.y as int % self.spec_size().h as int) as i16,
        }
    }

    /// The playfield index of a position, after wrapping.
    pub open spec fn spec_slot_index(&self, p: Pos) -> int {
        self.spec_wrap(p).y as int * self.spec_size().w as int + self.spec_wrap(p).x as int
    }

    /// Wraps a position onto the torus.
    fn wrap_pos(&self, p: Pos) -> (r: Pos)
        requires
            self.wf(),
        ensures
            r == self.spec_wrap(p),
            0 <= r.x < self.spec_size().w,
            0 <= r.y < self.spec_size().h,
    {
        let w = self.size.w as i32;
        let h = self.size.h as i32;
        let sx = p.x as i32 + 0x8000 * w;
        let sy = p.y as i32 + 0x8000 * h;
        proof {
            vstd::arithmetic::div_mod::lemma_mod_multiples_vanish(
                0x8000,
                p.x as int,
                w as int,
            );
            vstd::arithmetic::div_mod::lemma_mod_multiples_vanish(
                0x8000,
                p.y as int,
                h as int,
            );
            assert(0x8000 * (w as int) == (w as int) * 0x8000) by (nonlinear_arith);
            assert(0x8000 * (h as int) == (h as int) * 0x8000) by (nonlinear_arith);
            assert(0 <= (sx as int) % (w as int) < w as int) by (nonlinear_arith)
                requires
                    w as int > 0,
            ;
            assert(0 <= (sy as int) % (h as int) < h as int) by (nonlinear_arith)
                requires
                    h as int > 0,
            ;
        }
        let x = sx % w;
        let y = sy % h;
        Pos { x: x as i16, y: y as i16 }
    }

    /// The playfield index of a position, after wrapping.
    fn slot_index(&self, pos: Pos) -> (i: usize)
        requires
            self.wf(),
        ensures
            i == self.spec_slot_index(pos),
            i < self.spec_playfield().len(),
    {
        let p = self.wrap_pos(pos);
        proof {
            assert((p.y as int) * (self.spec_size().w as int) + (p.x as int) < (
            self.spec_size().w as int) * (self.spec_size().h as int)) by (nonlinear_arith)
                requires
                    0 <= (p.x as int) < self.spec_size().w as int,
                    0 <= (p.y as int) < self.spec_size().h as int,
            ;
        }
        let blen = self.playfield.len();
        proof {
            assert((p.y as int) * (self.spec_size().w as int) + (p.x as int) < blen as int);
        }
        p.y as usize * self.size.w as usize + p.x as usize
    }

    /// The position one step onward from `pos`, following the stored
    /// next-direction of its slot.
    fn next_at(&self, pos: Pos) -> (r: Pos)
        requires
            self.wf(),
        ensures
            -1 <= r.x <= self.spec_size().w as int,
            -1 <= r.y <= self.spec_size().h as int,
    {
        let p = self.wrap_pos(pos);
        let i = self.slot_index(pos);
        let off = self.playfield[i].direction_next().pos_offset();
        Pos { x: p.x + off.x, y: p.y + off.y }
    }
}

/// Whether two directions are the same.
fn direction_eq(a: Direction, b: Direction) -> (r: bool)
    ensures
        r == (a == b),
{
    match (a, b) {
        (Direction::Up, Direction::Up) => true,
        (Direction::Right, Direction::Right) => true,
        (Direction::Down, Direction::Down) => true,
        (Direction::Left, Direction::Left) => true,
        _ => false,
    }
}

} // verus!
