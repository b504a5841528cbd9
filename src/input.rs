use vstd::prelude::*;

verus! {

/// The keys that the game reads.
#[derive(Clone, Copy, Debug, PartialEq, Eq, Structural)]
pub enum Key {
    W,
    S,
    Up,
    Down,
    Enter,
}

/// The key that serves the ball.
pub const SERVE_KEY: Key = Key::Enter;

/// What the keyboard showed in one frame.
pub struct Input {
    /// Keys held down.
    pub held: Vec<Key>,
    /// Keys that went down in this frame.
    pub just_pressed: Vec<Key>,
}

fn contains_key(keys: &Vec<Key>, k: Key) -> (r: bool)
    ensures
        r == keys@.contains(k),
{
    let mut i: usize = 0;
    while i < keys.len()
        invariant
            0 <= i <= keys.len(),
            forall|j: int| 0 <= j < i ==> keys@[j] != k,
        decreases keys.len() - i,
    {
        if keys[i] == k {
            assert(keys@[i as int] == k);
            return true;
        }
        i += 1;
    }
    false
}

impl Input {
    pub open spec fn holds(&self, k: Key) -> bool {
        self.held@.contains(k)
    }

    pub open spec fn went_down(&self, k: Key) -> bool {
        self.just_pressed@.contains(k)
    }

    /// A frame with no key held and none pressed.
    pub fn idle() -> (r: Input)
        ensures
            r.held@.len() == 0,
            r.just_pressed@.len() == 0,
    {
        Input { held: Vec::new(), just_pressed: Vec::new() }
    }

    pub fn is_held(&self, k: Key) -> (r: bool)
        ensures
            r == self.holds(k),
    {
        contains_key(&self.held, k)
    }

    pub fn just_pressed(&self, k: Key) -> (r: bool)
        ensures
            r == self.went_down(k),
    {
        contains_key(&self.just_pressed, k)
    }
}

} // verus!
