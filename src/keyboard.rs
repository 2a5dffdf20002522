use vstd::prelude::*;

verus! {

broadcast use vstd::seq_lib::lemma_seq_contains_after_push;

/// A keyboard key as the simulation sees it. Keys the game never asks about
/// are kept apart by their platform code.
#[derive(PartialEq, Eq, Structural, Clone, Copy, Debug, Hash)]
pub enum Key {
    A,
    D,
    S,
    W,
    Space,
    Escape,
    Other(u32),
}

/// One call made on a `KeyboardState`.
pub enum KeyInput {
    Down(Key),
    Up(Key),
    FrameStart,
}

/// What a `KeyboardState` holds, as sets: the keys held down, the keys that went
/// down this frame and the keys that went up this frame.
pub struct KeyModel {
    pub held: Set<Key>,
    pub pressed: Set<Key>,
    pub released: Set<Key>,
}

/// The effect of one call on the model.
pub open spec fn key_step(m: KeyModel, op: KeyInput) -> KeyModel {
    match op {
        KeyInput::Down(k) => if m.held.contains(k) {
            m
        } else {
            KeyModel { held: m.held.insert(k), pressed: m.pressed.insert(k), released: m.released }
        },
        KeyInput::Up(k) => KeyModel {
            held: m.held.remove(k),
            pressed: m.pressed,
            released: m.released.insert(k),
        },
        KeyInput::FrameStart => KeyModel {
            held: m.held,
            pressed: Set::empty(),
            released: Set::empty(),
        },
    }
}

/// The model after a sequence of calls.
pub open spec fn key_run(m: KeyModel, ops: Seq<KeyInput>) -> KeyModel
    decreases ops.len(),
{
    if ops.len() == 0 {
        m
    } else {
        key_step(key_run(m, ops.drop_last()), ops.last())
    }
}

/// Whether a call is a frame start.
pub open spec fn is_frame_start(op: KeyInput) -> bool {
    op is FrameStart
}

/// The keys that went down, from a held state, at a call of `ops` from
/// index `from` on.
pub open spec fn downs_after(m: KeyModel, ops: Seq<KeyInput>, from: int) -> Set<Key> {
    Set::new(
        |k: Key|
            exists|j: int|
                from < j < ops.len() && ops[j] == KeyInput::Down(k) && !key_run(
                    m,
                    ops.take(j),
                ).held.contains(k),
    )
}

/// The keys released at a call of `ops` from index `from` on.
pub open spec fn ups_after(ops: Seq<KeyInput>, from: int) -> Set<Key> {
    Set::new(|k: Key| exists|j: int| from < j < ops.len() && ops[j] == KeyInput::Up(k))
}

proof fn lemma_run_push(m: KeyModel, ops: Seq<KeyInput>, op: KeyInput)
    ensures
        key_run(m, ops.push(op)) == key_step(key_run(m, ops), op),
{
    assert(ops.push(op).drop_last() =~= ops);
}

/// The held keys depend only on the downs and ups in a call sequence: removing
/// every frame start leaves them as they are.
pub proof fn lemma_held_ignores_frame_start(m: KeyModel, ops: Seq<KeyInput>)
    ensures
        key_run(m, ops).held == key_run(m, ops.filter(|op: KeyInput| !is_frame_start(op))).held,
    decreases ops.len(),
{
    let p = |op: KeyInput| !is_frame_start(op);
    if ops.len() > 0 {
        let pre = ops.drop_last();
        let op = ops.last();
        lemma_held_ignores_frame_start(m, pre);
        assert(pre.push(op) =~= ops);
        pre.lemma_filter_push(op, p);
        if p(op) {
            lemma_run_push(m, pre.filter(p), op);
        }
    } else {
        assert(ops.filter(p) =~= ops);
    }
}

/// Index `i` is where the current frame began: a frame start in `ops`, or
/// `-1` when `ops` holds none and the model starts with no edges (as a new
/// tracker does).
pub open spec fn starts_frame(m: KeyModel, ops: Seq<KeyInput>, i: int) -> bool {
    ||| 0 <= i < ops.len() && is_frame_start(ops[i])
    ||| i == -1 && m.pressed == Set::<Key>::empty() && m.released == Set::<Key>::empty()
}

proof fn lemma_edges_prefix(m: KeyModel, ops: Seq<KeyInput>, i: int, n: int)
    requires
        -1 <= i < n <= ops.len(),
        starts_frame(m, ops, i),
        forall|j: int| i < j < ops.len() ==> !is_frame_start(#[trigger] ops[j]),
    ensures
        key_run(m, ops.take(n)).pressed == downs_after(m, ops.take(n), i),
        key_run(m, ops.take(n)).released == ups_after(ops.take(n), i),
    decreases n,
{
    let t = ops.take(n);
    if n > 0 {
        assert(t.take(n - 1) =~= ops.take(n - 1));
        assert(t.drop_last() =~= ops.take(n - 1));
    }
    if n == i + 1 {
        assert(downs_after(m, t, i) =~= Set::<Key>::empty());
        assert(ups_after(t, i) =~= Set::<Key>::empty());
    } else {
        lemma_edges_prefix(m, ops, i, n - 1);
        let prev = ops.take(n - 1);
        assert forall|j: int| 0 <= j < n - 1 implies #[trigger] t.take(j) == prev.take(j) by {
            assert(t.take(j) =~= prev.take(j));
        }
        let target_d = match ops[n - 1] {
            KeyInput::Down(k) => if key_run(m, prev).held.contains(k) {
                downs_after(m, prev, i)
            } else {
                downs_after(m, prev, i).insert(k)
            },
            _ => downs_after(m, prev, i),
        };
        assert forall|k2: Key| downs_after(m, t, i).contains(k2) <==> target_d.contains(k2) by {
            if downs_after(m, t, i).contains(k2) {
                let j = choose|j: int|
                    i < j < t.len() && t[j] == KeyInput::Down(k2) && !key_run(
                        m,
                        t.take(j),
                    ).held.contains(k2);
                if j < n - 1 {
                    assert(prev[j] == t[j]);
                    assert(t.take(j) == prev.take(j));
                } else {
                    assert(t.take(j) =~= prev);
                }
            }
            if downs_after(m, prev, i).contains(k2) {
                let j = choose|j: int|
                    i < j < prev.len() && prev[j] == KeyInput::Down(k2) && !key_run(
                        m,
                        prev.take(j),
                    ).held.contains(k2);
                assert(t[j] == prev[j]);
                assert(t.take(j) == prev.take(j));
            }
            if target_d.contains(k2) && !downs_after(m, prev, i).contains(k2) {
                assert(t.take(n - 1) =~= prev);
                assert(t[n - 1] == KeyInput::Down(k2));
            }
        }
        assert(downs_after(m, t, i) =~= target_d);
        let target_u = match ops[n - 1] {
            KeyInput::Up(k) => ups_after(prev, i).insert(k),
            _ => ups_after(prev, i),
        };
        assert forall|k2: Key| ups_after(t, i).contains(k2) <==> target_u.contains(k2) by {
            if ups_after(t, i).contains(k2) {
                let j = choose|j: int| i < j < t.len() && t[j] == KeyInput::Up(k2);
                if j < n - 1 {
                    assert(prev[j] == t[j]);
                }
            }
            if ups_after(prev, i).contains(k2) {
                let j = choose|j: int| i < j < prev.len() && prev[j] == KeyInput::Up(k2);
                assert(t[j] == prev[j]);
            }
            if target_u.contains(k2) && !ups_after(prev, i).contains(k2) {
                assert(t[n - 1] == KeyInput::Up(k2));
            }
        }
        assert(ups_after(t, i) =~= target_u);
    }
}

/// Edges are exactly those since the last frame start: after a sequence of
/// calls whose last frame start stands at index `i` (or, from a tracker with
/// no edges and with no frame start among the calls, `i == -1`), the keys
/// pressed this frame are those that went down, not already held, after `i`,
/// and the keys released this frame are all those released after `i`, held or
/// not.
pub proof fn lemma_edges_since_frame_start(m: KeyModel, ops: Seq<KeyInput>, i: int)
    requires
        -1 <= i < ops.len(),
        starts_frame(m, ops, i),
        forall|j: int| i < j < ops.len() ==> !is_frame_start(#[trigger] ops[j]),
    ensures
        key_run(m, ops).pressed == downs_after(m, ops, i),
        key_run(m, ops).released == ups_after(ops, i),
{
    lemma_edges_prefix(m, ops, i, ops.len() as int);
    assert(ops.take(ops.len() as int) =~= ops);
}

/// Edge-triggered keyboard tracker.
pub struct KeyboardState {
    pressed_keys: Vec<Key>,
    pressed_keys_this_frame: Vec<Key>,
    released_keys_this_frame: Vec<Key>,
}

impl View for KeyboardState {
    type V = KeyModel;

    closed spec fn view(&self) -> KeyModel {
        KeyModel {
            held: self.pressed_keys@.to_set(),
            pressed: self.pressed_keys_this_frame@.to_set(),
            released: self.released_keys_this_frame@.to_set(),
        }
    }
}

fn contains_key(keys: &Vec<Key>, key: Key) -> (r: bool)
    ensures
        r == keys@.contains(key),
{
    let mut i: usize = 0;
    while i < keys.len()
        invariant
            0 <= i <= keys.len(),
            forall|j: int| 0 <= j < i ==> keys@[j] != key,
        decreases keys.len() - i,
    {
        if keys[i] == key {
            return true;
        }
        i = i + 1;
    }
    false
}

impl KeyboardState {
    /// A tracker with no key held and no edges.
    pub fn new() -> (r: KeyboardState)
        ensures
            r@.held == Set::<Key>::empty(),
            r@.pressed == Set::<Key>::empty(),
            r@.released == Set::<Key>::empty(),
    {
        let r = KeyboardState {
            pressed_keys: Vec::new(),
            pressed_keys_this_frame: Vec::new(),
            released_keys_this_frame: Vec::new(),
        };
        proof {
            assert(r@.held =~= Set::<Key>::empty());
            assert(r@.pressed =~= Set::<Key>::empty());
            assert(r@.released =~= Set::<Key>::empty());
        }
        r
    }

    /// Forgets this frame's edges; the held keys stay.
    pub fn frame_start(&mut self)
        ensures
            final(self)@ == key_step(old(self)@, KeyInput::FrameStart),
    {
        self.pressed_keys_this_frame.clear();
        self.released_keys_this_frame.clear();
        proof {
            assert(self@.pressed =~= Set::<Key>::empty());
            assert(self@.released =~= Set::<Key>::empty());
        }
    }

    /// Records a key going down; a key already held records nothing.
    pub fn set_keydown(&mut self, key: Key)
        ensures
            final(self)@ == key_step(old(self)@, KeyInput::Down(key)),
    {
        if !self.is_keydown(key) {
            self.pressed_keys.push(key);
            self.pressed_keys_this_frame.push(key);
            proof {
                assert(self@.held =~= old(self)@.held.insert(key));
                assert(self@.pressed =~= old(self)@.pressed.insert(key));
            }
        }
    }

    /// Records a key going up: it is no longer held, and the release is
    /// recorded even when the key was not held.
    pub fn clear_keydown(&mut self, key: Key)
        ensures
            final(self)@ == key_step(old(self)@, KeyInput::Up(key)),
    {
        let mut kept: Vec<Key> = Vec::new();
        let mut i: usize = 0;
        while i < self.pressed_keys.len()
            invariant
                0 <= i <= self.pressed_keys.len(),
                self.pressed_keys@ == old(self).pressed_keys@,
                forall|k: Key|
                    #![trigger kept@.contains(k)]
                    #![trigger self.pressed_keys@.take(i as int).contains(k)]
                    kept@.contains(k) <==> (k != key && self.pressed_keys@.take(i as int).contains(k)),
            decreases self.pressed_keys.len() - i,
        {
            let k = self.pressed_keys[i];
            let ghost kept_before = kept@;
            if k != key {
                kept.push(k);
            }
            proof {
                assert(self.pressed_keys@.take(i + 1) =~= self.pressed_keys@.take(i as int).push(k));
                assert forall|k2: Key| kept@.contains(k2) <==> (k2 != key
                    && self.pressed_keys@.take(i + 1).contains(k2)) by {
                    assert(kept_before.contains(k2) <==> (k2 != key && self.pressed_keys@.take(
                        i as int,
                    ).contains(k2)));
                }
            }
            i = i + 1;
        }
        proof {
            assert(self.pressed_keys@.take(i as int) =~= self.pressed_keys@);
        }
        self.pressed_keys = kept;
        self.released_keys_this_frame.push(key);
        proof {
            assert(self@.held =~= old(self)@.held.remove(key));
            assert(self@.released =~= old(self)@.released.insert(key));
        }
    }

    /// Whether the key is held down.
    pub fn is_keydown(&self, key: Key) -> (r: bool)
        ensures
            r == self@.held.contains(key),
    {
        contains_key(&self.pressed_keys, key)
    }

    /// Whether the key went down this frame.
    pub fn is_pressed_this_frame(&self, key: Key) -> (r: bool)
        ensures
            r == self@.pressed.contains(key),
    {
        contains_key(&self.pressed_keys_this_frame, key)
    }

    /// Whether the key went up this frame.
    pub fn is_released_this_frame(&self, key: Key) -> (r: bool)
        ensures
            r == self@.released.contains(key),
    {
        contains_key(&self.released_keys_this_frame, key)
    }
}

} // verus!
