use vstd::prelude::*;
use std::collections::HashSet;
use crate::math::vector2::Vector2;

verus! {

broadcast use vstd::std_specs::hash::group_hash_axioms;

/// A key on the keyboard that the application listens to.
#[derive(Copy, Clone, Debug, PartialEq, Eq, Structural, Hash)]
pub enum Key {
    Spacebar,
    ArrowUp,
    ArrowDown,
    ArrowLeft,
    ArrowRight,
    W,
    A,
    S,
    D,
    LShift,
}

impl Key {
    /// The number under which the keyboard state records this key; each key
    /// has its own.
    pub open spec fn spec_code(self) -> u8 {
        match self {
            Key::Spacebar => 0,
            Key::ArrowUp => 1,
            Key::ArrowDown => 2,
            Key::ArrowLeft => 3,
            Key::ArrowRight => 4,
            Key::W => 5,
            Key::A => 6,
            Key::S => 7,
            Key::D => 8,
            Key::LShift => 9,
        }
    }

    /// The number under which the keyboard state records this key.
    pub fn code(self) -> (c: u8)
        ensures
            c == self.spec_code(),
    {
        match self {
            Key::Spacebar => 0,
            Key::ArrowUp => 1,
            Key::ArrowDown => 2,
            Key::ArrowLeft => 3,
            Key::ArrowRight => 4,
            Key::W => 5,
            Key::A => 6,
            Key::S => 7,
            Key::D => 8,
            Key::LShift => 9,
        }
    }
}

/// Two different keys are recorded under different numbers.
pub proof fn lemma_key_codes_distinct(a: Key, b: Key)
    ensures
        a.spec_code() == b.spec_code() <==> a == b,
{
}

/// Which keys of the keyboard are held down.
#[derive(Debug)]
pub struct Keyboard {
    codes: HashSet<u8>,
}

impl View for Keyboard {
    type V = Set<Key>;

    /// The set of keys that are held down.
    closed spec fn view(&self) -> Set<Key> {
        Set::new(|k: Key| self.codes@.contains(k.spec_code()))
    }
}

impl Keyboard {
    /// A keyboard on which no key is held down.
    pub fn new() -> (s: Keyboard)
        ensures
            s@ == Set::<Key>::empty(),
    {
        let s = Keyboard { codes: HashSet::new() };
        assert(s@ =~= Set::<Key>::empty());
        s
    }

    /// Record that `key` was pressed: it is now held down, and every other key
    /// is as it was.
    pub fn press(&mut self, key: Key)
        ensures
            final(self)@ == old(self)@.insert(key),
    {
        self.codes.insert(key.code());
        proof {
            assert forall|k: Key| #[trigger] self@.contains(k) == old(self)@.insert(key).contains(k) by {
                lemma_key_codes_distinct(k, key);
            }
            assert(self@ =~= old(self)@.insert(key));
        }
    }

    /// Record that `key` was released: it is no longer held down, and every
    /// other key is as it was.
    pub fn release(&mut self, key: Key)
        ensures
            final(self)@ == old(self)@.remove(key),
    {
        self.codes.remove(&key.code());
        proof {
            assert forall|k: Key| #[trigger] self@.contains(k) == old(self)@.remove(key).contains(k) by {
                lemma_key_codes_distinct(k, key);
            }
            assert(self@ =~= old(self)@.remove(key));
        }
    }

    /// Whether `key` is held down.
    pub fn is_down(&self, key: Key) -> (r: bool)
        ensures
            r == self@.contains(key),
    {
        self.codes.contains(&key.code())
    }
}

impl Default for Keyboard {
    /// A keyboard on which no key is held down.
    fn default() -> (s: Keyboard)
        ensures
            s@ == Set::<Key>::empty(),
    {
        Keyboard::new()
    }
}

/// Where the mouse is and which keys of the keyboard are held down. The
/// application updates it as the browser reports mouse moves, key presses and
/// key releases. `T` is the type of the mouse coordinates, such as `f32`.
#[derive(Debug)]
pub struct InputState<T> {
    /// The last position the mouse was reported at.
    pub mouse: Vector2<T>,
    /// The keys that are held down.
    pub keyboard: Keyboard,
}

impl<T> View for InputState<T> {
    type V = Set<Key>;

    /// The set of keys that are held down.
    open spec fn view(&self) -> Set<Key> {
        self.keyboard@
    }
}

impl<T> InputState<T> {
    /// A keyboard on which no key is held down, with the mouse at `mouse`.
    pub fn new(mouse: Vector2<T>) -> (s: InputState<T>)
        ensures
            s@ == Set::<Key>::empty(),
            s.mouse == mouse,
    {
        InputState { mouse, keyboard: Keyboard::new() }
    }

    /// Record that the mouse moved to `(mouse_x, mouse_y)`; the keys are as
    /// they were.
    pub fn on_mouse_move(&mut self, mouse_x: T, mouse_y: T)
        ensures
            final(self).mouse == (Vector2 { x: mouse_x, y: mouse_y }),
            final(self)@ == old(self)@,
    {
        self.mouse = Vector2::new(mouse_x, mouse_y);
    }

    /// Record that `key` was pressed: it is now held down, every other key is
    /// as it was, and so is the mouse.
    pub fn on_key_down(&mut self, key: Key)
        ensures
            final(self)@ == old(self)@.insert(key),
            final(self).mouse == old(self).mouse,
    {
        self.keyboard.press(key);
    }

    /// Record that `key` was released: it is no longer held down, every other
    /// key is as it was, and so is the mouse.
    pub fn on_key_up(&mut self, key: Key)
        ensures
            final(self)@ == old(self)@.remove(key),
            final(self).mouse == old(self).mouse,
    {
        self.keyboard.release(key);
    }

    /// Whether `key` is held down.
    pub fn is_down(&self, key: Key) -> (r: bool)
        ensures
            r == self@.contains(key),
    {
        self.keyboard.is_down(key)
    }
}

impl<T: Default> Default for InputState<T> {
    /// A keyboard on which no key is held down, with the mouse at the default
    /// position, which for the number types is the origin.
    fn default() -> (s: InputState<T>)
        ensures
            s@ == Set::<Key>::empty(),
            call_ensures(Vector2::<T>::default, (), s.mouse),
    {
        InputState::new(Vector2::default())
    }
}

/// A key that was pressed is held down until it is released: `before` is the
/// state before [InputState::on_key_down] of `key` and `after` the state after
/// it; [InputState::is_down] then reports `key`, whatever was held before.
pub proof fn lemma_pressed_key_is_down<T>(before: InputState<T>, after: InputState<T>, key: Key)
    requires
        after@ == before@.insert(key),
    ensures
        after@.contains(key),
{
}

/// A key that was released is not held down: after [InputState::on_key_up]
/// of `key`, [InputState::is_down] does not report it, whatever was held
/// before.
pub proof fn lemma_released_key_is_up<T>(before: InputState<T>, after: InputState<T>, key: Key)
    requires
        after@ == before@.remove(key),
    ensures
        !after@.contains(key),
{
}

/// Pressing or releasing one key leaves every other key as it was.
pub proof fn lemma_other_keys_unchanged<T>(
    before: InputState<T>,
    pressed: InputState<T>,
    released: InputState<T>,
    key: Key,
    other: Key,
)
    requires
        pressed@ == before@.insert(key),
        released@ == before@.remove(key),
        other != key,
    ensures
        pressed@.contains(other) == before@.contains(other),
        released@.contains(other) == before@.contains(other),
{
}

/// Pressing a key that was not held down and then releasing it leaves the
/// keyboard as it was before the press.
pub proof fn lemma_press_release_restores<T>(
    before: InputState<T>,
    pressed: InputState<T>,
    released: InputState<T>,
    key: Key,
)
    requires
        !before@.contains(key),
        pressed@ == before@.insert(key),
        released@ == pressed@.remove(key),
    ensures
        released@ == before@,
{
    assert(released@ =~= before@);
}

} // verus!
