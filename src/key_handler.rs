use vstd::prelude::*;

use crate::key::{Key, KEY_COUNT};

verus! {

/// Whether held keys are reported again after the initial delay.
#[derive(Clone, Copy, Debug, PartialEq, Eq, Structural)]
pub enum KeyRepeat {
    Yes,
    No,
}

/// Initial delay before a held key repeats, in microseconds.
pub const DEFAULT_REPEAT_DELAY: u64 = 250000;

/// Spacing of repeats of a held key, in microseconds.
pub const DEFAULT_REPEAT_RATE: u64 = 50000;

/// The state of one key.
#[derive(Clone, Copy, Debug, PartialEq, Eq, Structural)]
pub struct KeyState {
    /// Last state reported by the platform, not yet latched by a frame.
    pub down: bool,
    /// State as of the latest frame.
    pub seen: bool,
    /// The key went down in the latest frame.
    pub pressed: bool,
    /// The key went up in the latest frame.
    pub released: bool,
    /// Time of the frame in which the key went down, in microseconds.
    pub since: u64,
}

/// Which keys a listing selects.
#[derive(Clone, Copy, Debug, PartialEq, Eq, Structural)]
pub enum KeyQuery {
    Down,
    Pressed(KeyRepeat),
    Released,
}

/// A state at the start of the next frame, given the platform's report.
pub open spec fn latch(s: KeyState, now: u64) -> KeyState {
    KeyState {
        down: s.down,
        seen: s.down,
        pressed: s.down && !s.seen,
        released: !s.down && s.seen,
        since: if s.down && !s.seen { now } else { s.since },
    }
}

/// A key held since `since` is reported again in the frame that ends at `now`
/// and began at `prev`: the elapsed time reached the delay, or another
/// multiple of the rate past it, during that frame.
pub open spec fn repeat_fires(since: int, prev: int, now: int, delay: int, rate: int) -> bool {
    now - since >= delay && (prev - since < delay || rate == 0 || (now - since - delay) / rate > (
    prev - since - delay) / rate)
}

/// Indices below `n` that satisfy `p`, in increasing order.
pub open spec fn indices_where(p: spec_fn(int) -> bool, n: int) -> Seq<int>
    decreases n,
{
    if n <= 0 {
        Seq::empty()
    } else if p(n - 1) {
        indices_where(p, n - 1).push(n - 1)
    } else {
        indices_where(p, n - 1)
    }
}

/// The indices of a sequence of keys.
pub open spec fn key_indices(ks: Seq<Key>) -> Seq<int> {
    ks.map_values(|k: Key| k.index() as int)
}

/// Per-key down state, edges of the latest frame and repeat timing.
pub struct KeyHandler {
    pub states: Vec<KeyState>,
    /// Time of the latest frame, in microseconds.
    pub now: u64,
    /// Time of the frame before it, in microseconds.
    pub prev: u64,
    pub repeat_delay: u64,
    pub repeat_rate: u64,
}

impl KeyHandler {
    pub open spec fn wf(&self) -> bool {
        &&& self.states@.len() == KEY_COUNT
        &&& self.prev <= self.now
        &&& forall|i: int|
            0 <= i < KEY_COUNT ==> {
                let s = #[trigger] self.states@[i];
                &&& (s.seen ==> s.since <= self.now)
                &&& (s.seen && !s.pressed ==> s.since <= self.prev)
                &&& (s.pressed ==> s.seen && s.since == self.now)
            }
    }

    /// `after` is this handler after a frame at `now`.
    pub open spec fn next_frame(&self, after: KeyHandler, now: u64) -> bool {
        &&& after.now == now
        &&& after.prev == self.now
        &&& after.repeat_delay == self.repeat_delay
        &&& after.repeat_rate == self.repeat_rate
        &&& after.states@.len() == self.states@.len()
        &&& forall|i: int|
            0 <= i < self.states@.len() ==> #[trigger] after.states@[i] == latch(
                self.states@[i],
                now,
            )
    }

    pub open spec fn state(&self, k: Key) -> KeyState {
        self.states@[k.index() as int]
    }

    pub open spec fn down_at(&self, i: int) -> bool {
        self.states@[i].seen
    }

    pub open spec fn released_at(&self, i: int) -> bool {
        self.states@[i].released
    }

    pub open spec fn pressed_at(&self, i: int, repeat: KeyRepeat) -> bool {
        let s = self.states@[i];
        s.pressed || (repeat == KeyRepeat::Yes && s.seen && repeat_fires(
            s.since as int,
            self.prev as int,
            self.now as int,
            self.repeat_delay as int,
            self.repeat_rate as int,
        ))
    }

    pub open spec fn query_at(&self, i: int, q: KeyQuery) -> bool {
        match q {
            KeyQuery::Down => self.down_at(i),
            KeyQuery::Pressed(r) => self.pressed_at(i, r),
            KeyQuery::Released => self.released_at(i),
        }
    }

    /// A handler with every key up, the clock at zero and the default repeat timing.
    pub fn new() -> (r: KeyHandler)
        ensures
            r.wf(),
            r.now == 0,
            r.repeat_delay == DEFAULT_REPEAT_DELAY,
            r.repeat_rate == DEFAULT_REPEAT_RATE,
            forall|i: int|
                0 <= i < KEY_COUNT ==> #[trigger] r.states@[i] == (KeyState {
                    down: false,
                    seen: false,
                    pressed: false,
                    released: false,
                    since: 0,
                }),
    {
        let mut states: Vec<KeyState> = Vec::new();
        let mut i: usize = 0;
        while i < KEY_COUNT
            invariant
                i <= KEY_COUNT,
                states@.len() == i,
                forall|j: int|
                    0 <= j < i ==> #[trigger] states@[j] == (KeyState {
                        down: false,
                        seen: false,
                        pressed: false,
                        released: false,
                        since: 0,
                    }),
            decreases KEY_COUNT - i,
        {
            states.push(KeyState { down: false, seen: false, pressed: false, released: false, since: 0 });
            i = i + 1;
        }
        KeyHandler {
            states,
            now: 0,
            prev: 0,
            repeat_delay: DEFAULT_REPEAT_DELAY,
            repeat_rate: DEFAULT_REPEAT_RATE,
        }
    }

    /// Records the platform's report that `key` is down or up; the next frame
    /// latches it.
    pub fn set_key_state(&mut self, key: Key, down: bool)
        requires
            old(self).wf(),
        ensures
            final(self).wf(),
            final(self).now == old(self).now,
            final(self).prev == old(self).prev,
            final(self).repeat_delay == old(self).repeat_delay,
            final(self).repeat_rate == old(self).repeat_rate,
            final(self).states@ == old(self).states@.update(
                key.index() as int,
                KeyState { down, ..old(self).state(key) },
            ),
    {
        let i = key.to_index();
        let mut s = self.states[i];
        s.down = down;
        self.states.set(i, s);
        assert forall|j: int| 0 <= j < KEY_COUNT implies {
            let s = #[trigger] self.states@[j];
            &&& (s.seen ==> s.since <= self.now)
            &&& (s.seen && !s.pressed ==> s.since <= self.prev)
            &&& (s.pressed ==> s.seen && s.since == self.now)
        } by {
            if j == key.index() {
            } else {
                assert(self.states@[j] == old(self).states@[j]);
            }
        }
    }

    /// Starts a frame at time `now` (microseconds, monotonic): latches every
    /// key's reported state and records which keys went down or up.
    pub fn update(&mut self, now: u64)
        requires
            old(self).wf(),
            old(self).now <= now,
        ensures
            final(self).wf(),
            old(self).next_frame(*final(self), now),
            final(self).now == now,
            final(self).prev == old(self).now,
            final(self).repeat_delay == old(self).repeat_delay,
            final(self).repeat_rate == old(self).repeat_rate,
            forall|i: int|
                0 <= i < KEY_COUNT ==> #[trigger] final(self).states@[i] == latch(
                    old(self).states@[i],
                    now,
                ),
    {
        let ghost before = self.states@;
        let mut i: usize = 0;
        while i < KEY_COUNT
            invariant
                i <= KEY_COUNT,
                self.states@.len() == KEY_COUNT,
                before == old(self).states@,
                self.now == old(self).now,
                self.prev == old(self).prev,
                self.repeat_delay == old(self).repeat_delay,
                self.repeat_rate == old(self).repeat_rate,
                forall|j: int| 0 <= j < i ==> #[trigger] self.states@[j] == latch(before[j], now),
                forall|j: int| i <= j < KEY_COUNT ==> #[trigger] self.states@[j] == before[j],
            decreases KEY_COUNT - i,
        {
            let s = self.states[i];
            let pressed = s.down && !s.seen;
            let n = KeyState {
                down: s.down,
                seen: s.down,
                pressed,
                released: !s.down && s.seen,
                since: if pressed {
                    now
                } else {
                    s.since
                },
            };
            self.states.set(i, n);
            i = i + 1;
        }
        self.prev = self.now;
        self.now = now;
        assert forall|j: int| 0 <= j < KEY_COUNT implies {
            let s = #[trigger] self.states@[j];
            &&& (s.seen ==> s.since <= self.now)
            &&& (s.seen && !s.pressed ==> s.since <= self.prev)
            &&& (s.pressed ==> s.seen && s.since == self.now)
        } by {
            let o = old(self).states@[j];
            assert(self.states@[j] == latch(before[j], now));
            assert(before[j] == o);
            assert(o.seen ==> o.since <= old(self).now);
        }
    }

    /// Whether `key` was down in the latest frame.
    pub fn is_key_down(&self, key: Key) -> (r: bool)
        requires
            self.wf(),
        ensures
            r == self.down_at(key.index() as int),
    {
        self.states[key.to_index()].seen
    }

    /// Whether `key` went up in the latest frame.
    pub fn is_key_released(&self, key: Key) -> (r: bool)
        requires
            self.wf(),
        ensures
            r == self.released_at(key.index() as int),
    {
        self.states[key.to_index()].released
    }

    /// Whether `key` went down in the latest frame or, with `KeyRepeat::Yes`,
    /// is held and repeats in it.
    pub fn is_key_pressed(&self, key: Key, repeat: KeyRepeat) -> (r: bool)
        requires
            self.wf(),
        ensures
            r == self.pressed_at(key.index() as int, repeat),
    {
        self.pressed_index(key.to_index(), repeat)
    }

    fn pressed_index(&self, i: usize, repeat: KeyRepeat) -> (r: bool)
        requires
            self.wf(),
            i < KEY_COUNT,
        ensures
            r == self.pressed_at(i as int, repeat),
    {
        let s = self.states[i];
        if s.pressed {
            return true;
        }
        if repeat == KeyRepeat::No || !s.seen {
            return false;
        }
        let held = self.now - s.since;
        let held_before = self.prev - s.since;
        if held < self.repeat_delay {
            false
        } else if held_before < self.repeat_delay {
            true
        } else if self.repeat_rate == 0 {
            true
        } else {
            (held - self.repeat_delay) / self.repeat_rate > (held_before - self.repeat_delay)
                / self.repeat_rate
        }
    }

    fn query_index(&self, i: usize, q: KeyQuery) -> (r: bool)
        requires
            self.wf(),
            i < KEY_COUNT,
        ensures
            r == self.query_at(i as int, q),
    {
        match q {
            KeyQuery::Down => self.states[i].seen,
            KeyQuery::Pressed(repeat) => self.pressed_index(i, repeat),
            KeyQuery::Released => self.states[i].released,
        }
    }

    /// The keys that the query selects, in the order of the key table.
    pub fn keys_where(&self, q: KeyQuery) -> (r: Vec<Key>)
        requires
            self.wf(),
        ensures
            key_indices(r@) == indices_where(|i: int| self.query_at(i, q), KEY_COUNT as int),
    {
        let ghost p = |i: int| self.query_at(i, q);
        let mut out: Vec<Key> = Vec::new();
        let mut i: usize = 0;
        while i < KEY_COUNT
            invariant
                self.wf(),
                i <= KEY_COUNT,
                p == (|i: int| self.query_at(i, q)),
                key_indices(out@) == indices_where(p, i as int),
            decreases KEY_COUNT - i,
        {
            if self.query_index(i, q) {
                let k = Key::from_index(i);
                let ghost prior = out@;
                out.push(k);
                assert(key_indices(out@) =~= key_indices(prior).push(i as int));
            }
            i = i + 1;
        }
        out
    }

    /// Keys down in the latest frame.
    pub fn get_keys(&self) -> (r: Vec<Key>)
        requires
            self.wf(),
        ensures
            key_indices(r@) == indices_where(|i: int| self.down_at(i), KEY_COUNT as int),
    {
        let r = self.keys_where(KeyQuery::Down);
        assert((|i: int| self.query_at(i, KeyQuery::Down)) =~= (|i: int| self.down_at(i)));
        r
    }

    /// Keys pressed in the latest frame, repeats included with `KeyRepeat::Yes`.
    pub fn get_keys_pressed(&self, repeat: KeyRepeat) -> (r: Vec<Key>)
        requires
            self.wf(),
        ensures
            key_indices(r@) == indices_where(
                |i: int| self.pressed_at(i, repeat),
                KEY_COUNT as int,
            ),
    {
        let r = self.keys_where(KeyQuery::Pressed(repeat));
        assert((|i: int| self.query_at(i, KeyQuery::Pressed(repeat))) =~= (|i: int|
            self.pressed_at(i, repeat)));
        r
    }

    /// Keys released in the latest frame.
    pub fn get_keys_released(&self) -> (r: Vec<Key>)
        requires
            self.wf(),
        ensures
            key_indices(r@) == indices_where(|i: int| self.released_at(i), KEY_COUNT as int),
    {
        let r = self.keys_where(KeyQuery::Released);
        assert((|i: int| self.query_at(i, KeyQuery::Released)) =~= (|i: int| self.released_at(i)));
        r
    }

    /// Sets the delay before a held key repeats, in microseconds.
    pub fn set_key_repeat_delay(&mut self, delay: u64)
        requires
            old(self).wf(),
        ensures
            *final(self) == (KeyHandler { repeat_delay: delay, ..*old(self) }),
    {
        self.repeat_delay = delay;
    }

    /// Sets the spacing of repeats of a held key, in microseconds.
    pub fn set_key_repeat_rate(&mut self, rate: u64)
        requires
            old(self).wf(),
        ensures
            *final(self) == (KeyHandler { repeat_rate: rate, ..*old(self) }),
    {
        self.repeat_rate = rate;
    }
}

/// A key goes from up to down in a frame exactly when it is pressed in that
/// frame, a press is reported with repeats too, and a key that stays down
/// into the following frame is not pressed again there.
pub proof fn law_press_edge(
    h0: KeyHandler,
    h1: KeyHandler,
    now1: u64,
    h2: KeyHandler,
    now2: u64,
    i: int,
)
    requires
        h0.wf(),
        h0.next_frame(h1, now1),
        h1.next_frame(h2, now2),
        0 <= i < KEY_COUNT,
    ensures
        (!h0.down_at(i) && h1.down_at(i)) <==> h1.pressed_at(i, KeyRepeat::No),
        h1.pressed_at(i, KeyRepeat::No) ==> h1.pressed_at(i, KeyRepeat::Yes),
        h1.down_at(i) && h2.down_at(i) ==> !h2.pressed_at(i, KeyRepeat::No),
{
    assert(h1.states@[i] == latch(h0.states@[i], now1));
    assert(h2.states@[i] == latch(h1.states@[i], now2));
}

} // verus!
