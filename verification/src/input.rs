use vstd::prelude::*;
use crate::world::Shift;

verus! {

/// The keys that the demo tells apart; every other key is `Other`.
#[derive(Debug, Clone, Copy, PartialEq, Eq, Structural)]
pub enum Key {
    Left,
    Right,
    Up,
    Down,
    Q,
    Other,
}

/// How far one stroke of `key` moves along X.
pub open spec fn key_dx(key: Key) -> int {
    match key {
        Key::Left => -1,
        Key::Right => 1,
        _ => 0,
    }
}

/// How far one stroke of `key` moves along Y.
pub open spec fn key_dy(key: Key) -> int {
    match key {
        Key::Up => -1,
        Key::Down => 1,
        _ => 0,
    }
}

/// The strokes of `keys` along X, added up.
pub open spec fn sum_dx(keys: Seq<Key>) -> int
    decreases keys.len(),
{
    if keys.len() == 0 {
        0
    } else {
        sum_dx(keys.drop_last()) + key_dx(keys.last())
    }
}

/// The strokes of `keys` along Y, added up.
pub open spec fn sum_dy(keys: Seq<Key>) -> int
    decreases keys.len(),
{
    if keys.len() == 0 {
        0
    } else {
        sum_dy(keys.drop_last()) + key_dy(keys.last())
    }
}

/// A key pressed in this frame moves by one unit.
pub const PRESSED_STEP: i128 = 1;

/// A key held down moves by three units a frame.
pub const HELD_STEP: i128 = 3;

/// The keys of one frame: those that went down in it, and those held down.
#[derive(Debug, Clone, PartialEq, Eq)]
pub struct MultiInput {
    pub pressed: Vec<Key>,
    pub held: Vec<Key>,
}

/// The sums of a list of keys lie within its length.
pub proof fn lemma_sums_bounded(keys: Seq<Key>)
    ensures
        -keys.len() <= sum_dx(keys) <= keys.len(),
        -keys.len() <= sum_dy(keys) <= keys.len(),
    decreases keys.len(),
{
    if keys.len() > 0 {
        lemma_sums_bounded(keys.drop_last());
    }
}

/// The strokes of `keys` along both axes, added up.
pub fn totals(keys: &Vec<Key>) -> (sums: Shift)
    ensures
        sums.dx == sum_dx(keys@),
        sums.dy == sum_dy(keys@),
{
    let mut dx: i128 = 0;
    let mut dy: i128 = 0;
    let mut i: usize = 0;
    while i < keys.len()
        invariant
            i <= keys.len(),
            dx == sum_dx(keys@.take(i as int)),
            dy == sum_dy(keys@.take(i as int)),
        decreases keys.len() - i,
    {
        proof {
            lemma_sums_bounded(keys@.take(i as int));
            assert(keys@.take(i + 1).drop_last() =~= keys@.take(i as int));
        }
        match keys[i] {
            Key::Left => {
                dx = dx - 1;
            },
            Key::Right => {
                dx = dx + 1;
            },
            Key::Up => {
                dy = dy - 1;
            },
            Key::Down => {
                dy = dy + 1;
            },
            _ => {},
        }
        i += 1;
    }
    proof {
        assert(keys@.take(keys.len() as int) =~= keys@);
    }
    Shift { dx, dy }
}

impl MultiInput {
    pub fn new(pressed: Vec<Key>, held: Vec<Key>) -> (input: MultiInput)
        ensures
            input.pressed@ == pressed@,
            input.held@ == held@,
    {
        MultiInput { pressed, held }
    }

    /// The keys that went down in this frame.
    pub fn get_pressed_keys(&self) -> (keys: &Vec<Key>)
        ensures
            keys@ == self.pressed@,
    {
        &self.pressed
    }

    /// The keys that are held down.
    pub fn get_held_keys(&self) -> (keys: &Vec<Key>)
        ensures
            keys@ == self.held@,
    {
        &self.held
    }

    /// How far this frame's keys move the camera along X: one unit for each
    /// stroke pressed, three for each held.
    pub open spec fn shift_x(&self) -> int {
        PRESSED_STEP * sum_dx(self.pressed@) + HELD_STEP * sum_dx(self.held@)
    }

    /// How far this frame's keys move the camera along Y.
    pub open spec fn shift_y(&self) -> int {
        PRESSED_STEP * sum_dy(self.pressed@) + HELD_STEP * sum_dy(self.held@)
    }

    /// Whether the key that ends the scene is held.
    pub open spec fn quit_held(&self) -> bool {
        self.held@.contains(Key::Q)
    }

    /// How far this frame's keys move the camera.
    pub fn shift(&self) -> (by: Shift)
        ensures
            by.dx == self.shift_x(),
            by.dy == self.shift_y(),
    {
        let pressed = totals(&self.pressed);
        let held = totals(&self.held);
        proof {
            lemma_sums_bounded(self.pressed@);
            lemma_sums_bounded(self.held@);
            assert(self.pressed@.len() == self.pressed.len());
            assert(self.held@.len() == self.held.len());
        }
        Shift {
            dx: PRESSED_STEP * pressed.dx + HELD_STEP * held.dx,
            dy: PRESSED_STEP * pressed.dy + HELD_STEP * held.dy,
        }
    }

    /// Whether the key that ends the scene is held.
    pub fn quit_requested(&self) -> (quit: bool)
        ensures
            quit == self.quit_held(),
    {
        let mut i: usize = 0;
        while i < self.held.len()
            invariant
                i <= self.held.len(),
                !self.held@.take(i as int).contains(Key::Q),
            decreases self.held.len() - i,
        {
            match self.held[i] {
                Key::Q => {
                    return true;
                },
                _ => {},
            }
            proof {
                let before = self.held@.take(i as int);
                let now = self.held@.take(i + 1);
                assert(now =~= before.push(self.held@[i as int]));
                assert forall|j: int| 0 <= j < now.len() implies now[j] != Key::Q by {
                    if j < i {
                        assert(before[j] == now[j]);
                        assert(before.contains(before[j]));
                    }
                }
            }
            i += 1;
        }
        proof {
            assert(self.held@.take(self.held.len() as int) =~= self.held@);
        }
        false
    }
}

} // verus!
