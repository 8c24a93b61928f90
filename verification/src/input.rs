//! Combined frontend input state for keyboard, controller and pointer input.

use vstd::prelude::*;
use crate::keyboard::{HostKey, host_key_id, key_id_for_host_key, lemma_host_key_id_in_matrix};
use crate::machine::MachineModel;

verus! {

broadcast use vstd::seq_lib::group_seq_properties;

/// Whether `key` is held by one of the sources and resolves to matrix key `id`.
pub open spec fn held_key_selects(keys: Set<HostKey>, model: MachineModel, id: int) -> bool {
    exists|k: HostKey| keys.contains(k) && host_key_id(model, k) == Some(id as u8)
}

/// The abstract state: the keys held on the keyboard and on the controller,
/// the key under the pointer, and the keypad matrix last applied to the machine.
pub struct FrontendInputView {
    pub keyboard: Set<HostKey>,
    pub controller: Set<HostKey>,
    pub pointer: Option<u8>,
    pub applied: Seq<bool>,
}

/// The keypad matrix that the held inputs ask for: a matrix key is down when a
/// keyboard or controller key resolves to it, or when the pointer is on it.
pub open spec fn desired_matrix(v: FrontendInputView, model: MachineModel) -> Seq<bool> {
    Seq::new(
        64,
        |i: int|
            held_key_selects(v.keyboard, model, i) || held_key_selects(v.controller, model, i)
                || v.pointer == Some(i as u8),
    )
}

/// The matrix changes from `current` to `next` among the first `n` key IDs,
/// in increasing key ID order: each changed ID with its new state.
pub open spec fn matrix_changes(current: Seq<bool>, next: Seq<bool>, n: nat) -> Seq<(u8, bool)>
    decreases n,
{
    if n == 0 {
        Seq::empty()
    } else {
        let i = (n - 1) as nat;
        let earlier = matrix_changes(current, next, i);
        if current[i as int] != next[i as int] {
            earlier.push((i as u8, next[i as int]))
        } else {
            earlier
        }
    }
}

/// The matrix after applying `events` to `m` in order.
pub open spec fn apply_events(m: Seq<bool>, events: Seq<(u8, bool)>) -> Seq<bool>
    decreases events.len(),
{
    if events.len() == 0 {
        m
    } else {
        apply_events(m, events.drop_last()).update(events.last().0 as int, events.last().1)
    }
}

proof fn lemma_changes_prefix(current: Seq<bool>, next: Seq<bool>, n: nat)
    requires
        current.len() == 64,
        next.len() == 64,
        n <= 64,
    ensures
        apply_events(current, matrix_changes(current, next, n)) == current.take(0) + next.take(n as int)
            + current.skip(n as int),
        forall|e: int| 0 <= e < matrix_changes(current, next, n).len() ==> {
            let (id, state) = #[trigger] matrix_changes(current, next, n)[e];
            id < n && current[id as int] != state && next[id as int] == state
        },
    decreases n,
{
    if n > 0 {
        let i = (n - 1) as nat;
        lemma_changes_prefix(current, next, i);
        let earlier = matrix_changes(current, next, i);
        let before = apply_events(current, earlier);
        assert(before =~= next.take(i as int) + current.skip(i as int));
        if current[i as int] != next[i as int] {
            let events = earlier.push((i as u8, next[i as int]));
            assert(events.drop_last() =~= earlier);
            assert(apply_events(current, events) =~= current.take(0) + next.take(n as int) + current.skip(n as int));
        } else {
            assert(before =~= current.take(0) + next.take(n as int) + current.skip(n as int));
        }
    } else {
        assert(current =~= current.take(0) + next.take(0) + current.skip(0));
    }
}

/// Law: the events that `sync` emits turn the matrix the machine had into
/// the merged matrix when applied in order, and each event changes one key
/// to a state it did not have: only changes are emitted.
pub proof fn lemma_sync_events_are_exact(current: Seq<bool>, next: Seq<bool>)
    requires
        current.len() == 64,
        next.len() == 64,
    ensures
        apply_events(current, matrix_changes(current, next, 64)) == next,
        forall|e: int| 0 <= e < matrix_changes(current, next, 64).len() ==> {
            let (id, state) = #[trigger] matrix_changes(current, next, 64)[e];
            current[id as int] != state && next[id as int] == state
        },
{
    lemma_changes_prefix(current, next, 64);
    assert(current.take(0) + next.take(64) + current.skip(64) =~= next);
}

proof fn lemma_no_changes(m: Seq<bool>, n: nat)
    ensures
        matrix_changes(m, m, n) == Seq::<(u8, bool)>::empty(),
    decreases n,
{
    if n > 0 {
        lemma_no_changes(m, (n - 1) as nat);
    }
}

/// Law: once synced, a second `sync` with no input change emits nothing,
/// since the merged matrix depends on the held inputs alone.
pub proof fn lemma_sync_settles(v: FrontendInputView, model: MachineModel)
    ensures
        matrix_changes(
            desired_matrix(v, model),
            desired_matrix(FrontendInputView { applied: desired_matrix(v, model), ..v }, model),
            64,
        ) == Seq::<(u8, bool)>::empty(),
{
    let w = FrontendInputView { applied: desired_matrix(v, model), ..v };
    assert(desired_matrix(w, model) =~= desired_matrix(v, model));
    lemma_no_changes(desired_matrix(v, model), 64);
}

/// Law: a matrix key stays down while any held keyboard or controller key
/// still resolves to it, whichever source or alias the released key came from.
pub proof fn lemma_released_alias_keeps_key_down(
    v: FrontendInputView,
    model: MachineModel,
    released: HostKey,
    held: HostKey,
    id: u8,
)
    requires
        v.keyboard.contains(held) || v.controller.contains(held),
        held != released,
        host_key_id(model, held) == Some(id),
        id < 64,
    ensures
        desired_matrix(FrontendInputView { keyboard: v.keyboard.remove(released), ..v }, model)[id as int],
        desired_matrix(FrontendInputView { controller: v.controller.remove(released), ..v }, model)[id as int],
{
    let a = FrontendInputView { keyboard: v.keyboard.remove(released), ..v };
    let b = FrontendInputView { controller: v.controller.remove(released), ..v };
    if v.keyboard.contains(held) {
        assert(a.keyboard.contains(held));
        assert(held_key_selects(a.keyboard, model, id as int));
        assert(held_key_selects(b.keyboard, model, id as int));
    } else {
        assert(b.controller.contains(held));
        assert(held_key_selects(a.controller, model, id as int));
        assert(held_key_selects(b.controller, model, id as int));
    }
}

/// A release event for every matrix key, in increasing key ID order.
pub open spec fn release_events() -> Seq<(u8, bool)> {
    Seq::new(64, |i: int| (i as u8, false))
}

/// The all-released matrix.
pub open spec fn released_matrix() -> Seq<bool> {
    Seq::new(64, |i: int| false)
}

/// Combined frontend input state for keyboard, controller, and pointer input.
#[derive(Debug)]
pub struct FrontendInputState {
    keyboard: Vec<HostKey>,
    controller: Vec<HostKey>,
    pointer: Option<u8>,
    applied: [bool; 64],
}

impl View for FrontendInputState {
    type V = FrontendInputView;

    closed spec fn view(&self) -> FrontendInputView {
        FrontendInputView {
            keyboard: self.keyboard@.to_set(),
            controller: self.controller@.to_set(),
            pointer: self.pointer,
            applied: self.applied@,
        }
    }
}

fn contains_key(keys: &Vec<HostKey>, key: HostKey) -> (r: Option<usize>)
    ensures
        match r {
            Some(i) => i < keys@.len() && keys@[i as int] == key,
            None => !keys@.contains(key),
        },
{
    let mut i: usize = 0;
    while i < keys.len()
        invariant
            i <= keys@.len(),
            forall|j: int| 0 <= j < i ==> keys@[j] != key,
        decreases keys@.len() - i,
    {
        if keys[i] == key {
            return Some(i);
        }
        i = i + 1;
    }
    None
}

/// Adds or removes `key` in a duplicate-free key list.
fn set_key_in(keys: &mut Vec<HostKey>, key: HostKey, pressed: bool)
    requires
        old(keys)@.no_duplicates(),
    ensures
        final(keys)@.no_duplicates(),
        final(keys)@.to_set() == if pressed {
            old(keys)@.to_set().insert(key)
        } else {
            old(keys)@.to_set().remove(key)
        },
{
    let ghost before = keys@;
    match contains_key(keys, key) {
        Some(i) => {
            if !pressed {
                keys.remove(i);
                proof {
                    assert forall|a: int, b: int| 0 <= a < b < keys@.len() implies keys@[a] != keys@[b] by {
                        let aa = if a < i { a } else { a + 1 };
                        let bb = if b < i { b } else { b + 1 };
                        assert(keys@[a] == before[aa]);
                        assert(keys@[b] == before[bb]);
                    }
                    assert forall|x: HostKey| keys@.contains(x) <==> before.contains(x) && x != key by {
                        if keys@.contains(x) {
                            let j = choose|j: int| 0 <= j < keys@.len() && keys@[j] == x;
                            let jj = if j < i { j } else { j + 1 };
                            assert(before[jj] == x);
                            assert(jj != i);
                        }
                        if before.contains(x) && x != key {
                            let j = choose|j: int| 0 <= j < before.len() && before[j] == x;
                            assert(j != i);
                            let jj = if j < i { j } else { j - 1 };
                            assert(keys@[jj] == x);
                        }
                    }
                    assert(keys@.to_set() =~= before.to_set().remove(key));
                }
            } else {
                proof {
                    assert(keys@.to_set() =~= before.to_set().insert(key));
                }
            }
        },
        None => {
            if pressed {
                keys.push(key);
                proof {
                    assert forall|a: int, b: int| 0 <= a < b < keys@.len() implies keys@[a] != keys@[b] by {
                        if b == before.len() {
                            assert(before.contains(keys@[a]));
                        }
                    }
                    assert forall|x: HostKey| keys@.contains(x) <==> before.contains(x) || x == key by {
                        if keys@.contains(x) && x != key {
                            let j = choose|j: int| 0 <= j < keys@.len() && keys@[j] == x;
                            assert(before[j] == x);
                        }
                        if before.contains(x) {
                            let j = choose|j: int| 0 <= j < before.len() && before[j] == x;
                            assert(keys@[j] == x);
                        }
                        if x == key {
                            assert(keys@[before.len() as int] == x);
                        }
                    }
                    assert(keys@.to_set() =~= before.to_set().insert(key));
                }
            } else {
                proof {
                    assert(keys@.to_set() =~= before.to_set().remove(key));
                }
            }
        },
    }
}

impl Clone for FrontendInputState {
    fn clone(&self) -> (r: Self)
        ensures
            r@ == self@,
    {
        proof {
            use_type_invariant(self);
        }
        FrontendInputState {
            keyboard: self.keyboard.clone(),
            controller: self.controller.clone(),
            pointer: self.pointer,
            applied: self.applied,
        }
    }
}

impl Default for FrontendInputState {
    fn default() -> (r: Self)
        ensures
            r@.keyboard == Set::<HostKey>::empty(),
            r@.controller == Set::<HostKey>::empty(),
            r@.pointer is None,
            r@.applied == released_matrix(),
    {
        let r = FrontendInputState {
            keyboard: Vec::new(),
            controller: Vec::new(),
            pointer: None,
            applied: [false; 64],
        };
        proof {
            assert(r.keyboard@.to_set() =~= Set::<HostKey>::empty());
            assert(r.controller@.to_set() =~= Set::<HostKey>::empty());
            assert(r.applied@ =~= released_matrix());
        }
        r
    }
}

impl FrontendInputState {
    #[verifier::type_invariant]
    closed spec fn well_formed(&self) -> bool {
        &&& self.keyboard@.no_duplicates()
        &&& self.controller@.no_duplicates()
        &&& self.pointer matches Some(id) ==> id < 64
    }

    /// Press or release a physical keyboard key.
    pub fn set_keyboard_key(&mut self, key: HostKey, pressed: bool)
        ensures
            final(self)@.keyboard == if pressed {
                old(self)@.keyboard.insert(key)
            } else {
                old(self)@.keyboard.remove(key)
            },
            final(self)@.controller == old(self)@.controller,
            final(self)@.pointer == old(self)@.pointer,
            final(self)@.applied == old(self)@.applied,
    {
        proof {
            use_type_invariant(&*self);
        }
        let mut keys: Vec<HostKey> = Vec::new();
        std::mem::swap(&mut keys, &mut self.keyboard);
        set_key_in(&mut keys, key, pressed);
        self.keyboard = keys;
    }

    /// Press or release a controller button, given as the key it stands for.
    pub fn set_controller_key(&mut self, key: HostKey, pressed: bool)
        ensures
            final(self)@.controller == if pressed {
                old(self)@.controller.insert(key)
            } else {
                old(self)@.controller.remove(key)
            },
            final(self)@.keyboard == old(self)@.keyboard,
            final(self)@.pointer == old(self)@.pointer,
            final(self)@.applied == old(self)@.applied,
    {
        proof {
            use_type_invariant(&*self);
        }
        let mut keys: Vec<HostKey> = Vec::new();
        std::mem::swap(&mut keys, &mut self.controller);
        set_key_in(&mut keys, key, pressed);
        self.controller = keys;
    }

    /// Put the pointer on a matrix key, or take it off; IDs outside the
    /// matrix count as no key.
    pub fn set_pointer_key(&mut self, key_id: Option<u8>)
        ensures
            final(self)@.pointer == match key_id {
                Some(id) => if id < 64 {
                    Some(id)
                } else {
                    None
                },
                None => None,
            },
            final(self)@.keyboard == old(self)@.keyboard,
            final(self)@.controller == old(self)@.controller,
            final(self)@.applied == old(self)@.applied,
    {
        proof {
            use_type_invariant(&*self);
        }
        self.pointer = match key_id {
            Some(id) => if (id as usize) < 64 {
                Some(id)
            } else {
                None
            },
            None => None,
        };
    }

    /// Forget the previously applied matrix after the emulated machine resets.
    pub fn reset_applied(&mut self)
        ensures
            final(self)@.applied == released_matrix(),
            final(self)@.keyboard == old(self)@.keyboard,
            final(self)@.controller == old(self)@.controller,
            final(self)@.pointer == old(self)@.pointer,
    {
        proof {
            use_type_invariant(&*self);
        }
        self.applied = [false; 64];
        assert(self.applied@ =~= released_matrix());
    }

    /// Release every emulated key after loading state that may contain input:
    /// returns a release event for every matrix key, to be applied in order.
    pub fn release_all(&mut self) -> (events: Vec<(u8, bool)>)
        ensures
            events@ == release_events(),
            final(self)@.applied == released_matrix(),
            final(self)@.keyboard == old(self)@.keyboard,
            final(self)@.controller == old(self)@.controller,
            final(self)@.pointer == old(self)@.pointer,
    {
        let mut events: Vec<(u8, bool)> = Vec::new();
        let mut key_id: usize = 0;
        while key_id < 64
            invariant
                key_id <= 64,
                events@ == release_events().take(key_id as int),
            decreases 64 - key_id,
        {
            events.push((key_id as u8, false));
            proof {
                assert(release_events().take(key_id + 1) =~= release_events().take(key_id as int).push(
                    (key_id as u8, false),
                ));
            }
            key_id = key_id + 1;
        }
        assert(release_events().take(64) =~= release_events());
        self.reset_applied();
        events
    }

    /// Release all frontend inputs and forget the applied matrix.
    pub fn clear(&mut self)
        ensures
            final(self)@.keyboard == Set::<HostKey>::empty(),
            final(self)@.controller == Set::<HostKey>::empty(),
            final(self)@.pointer is None,
            final(self)@.applied == released_matrix(),
    {
        proof {
            use_type_invariant(&*self);
        }
        self.keyboard = Vec::new();
        self.controller = Vec::new();
        self.pointer = None;
        self.reset_applied();
        assert(self.keyboard@.to_set() =~= Set::<HostKey>::empty());
        assert(self.controller@.to_set() =~= Set::<HostKey>::empty());
    }

    /// The keypad matrix last applied to the machine.
    pub fn pressed(&self) -> (r: &[bool; 64])
        ensures
            r@ == self@.applied,
    {
        &self.applied
    }

    /// Merge every input source and emit only keypad matrix changes: returns
    /// the changed key IDs with their new state, in increasing ID order, and
    /// records the merged matrix as applied.
    pub fn sync(&mut self, model: MachineModel) -> (events: Vec<(u8, bool)>)
        ensures
            final(self)@.applied == desired_matrix(old(self)@, model),
            events@ == matrix_changes(old(self)@.applied, desired_matrix(old(self)@, model), 64),
            final(self)@.keyboard == old(self)@.keyboard,
            final(self)@.controller == old(self)@.controller,
            final(self)@.pointer == old(self)@.pointer,
    {
        proof {
            use_type_invariant(&*self);
        }
        let ghost v = self@;
        let mut desired = [false; 64];
        let mut i: usize = 0;
        while i < self.keyboard.len()
            invariant
                i <= self.keyboard@.len(),
                forall|id: int| 0 <= id < 64 ==> #[trigger] desired@[id] == (exists|j: int|
                    0 <= j < i && host_key_id(model, self.keyboard@[j]) == Some(id as u8)),
            decreases self.keyboard@.len() - i,
        {
            let key = self.keyboard[i];
            match key_id_for_host_key(model, key) {
                Some(id) => {
                    proof {
                        lemma_host_key_id_in_matrix(model, key);
                    }
                    desired[id as usize] = true;
                    proof {
                        assert forall|x: int| 0 <= x < 64 implies #[trigger] desired@[x] == (exists|j: int|
                            0 <= j < i + 1 && host_key_id(model, self.keyboard@[j]) == Some(x as u8)) by {
                            if x == id as int {
                                assert(host_key_id(model, self.keyboard@[i as int]) == Some(x as u8));
                            }
                        }
                    }
                },
                None => {
                    proof {
                        assert forall|x: int| 0 <= x < 64 implies #[trigger] desired@[x] == (exists|j: int|
                            0 <= j < i + 1 && host_key_id(model, self.keyboard@[j]) == Some(x as u8)) by {
                        }
                    }
                },
            }
            i = i + 1;
        }
        let mut keyboard_desired = desired;
        let mut desired = [false; 64];
        let mut i: usize = 0;
        while i < self.controller.len()
            invariant
                i <= self.controller@.len(),
                forall|id: int| 0 <= id < 64 ==> #[trigger] desired@[id] == (exists|j: int|
                    0 <= j < i && host_key_id(model, self.controller@[j]) == Some(id as u8)),
            decreases self.controller@.len() - i,
        {
            let key = self.controller[i];
            match key_id_for_host_key(model, key) {
                Some(id) => {
                    proof {
                        lemma_host_key_id_in_matrix(model, key);
                    }
                    desired[id as usize] = true;
                    proof {
                        assert forall|x: int| 0 <= x < 64 implies #[trigger] desired@[x] == (exists|j: int|
                            0 <= j < i + 1 && host_key_id(model, self.controller@[j]) == Some(x as u8)) by {
                            if x == id as int {
                                assert(host_key_id(model, self.controller@[i as int]) == Some(x as u8));
                            }
                        }
                    }
                },
                None => {
                    proof {
                        assert forall|x: int| 0 <= x < 64 implies #[trigger] desired@[x] == (exists|j: int|
                            0 <= j < i + 1 && host_key_id(model, self.controller@[j]) == Some(x as u8)) by {
                        }
                    }
                },
            }
            i = i + 1;
        }
        let ghost wanted = desired_matrix(v, model);
        let mut merged = [false; 64];
        let mut k: usize = 0;
        while k < 64
            invariant
                k <= 64,
                self@ == v,
                v.pointer matches Some(id) ==> id < 64,
                forall|id: int| 0 <= id < 64 ==> #[trigger] keyboard_desired@[id] == (exists|j: int|
                    0 <= j < self.keyboard@.len() && host_key_id(model, self.keyboard@[j]) == Some(id as u8)),
                forall|id: int| 0 <= id < 64 ==> #[trigger] desired@[id] == (exists|j: int|
                    0 <= j < self.controller@.len() && host_key_id(model, self.controller@[j]) == Some(id as u8)),
                wanted == desired_matrix(v, model),
                forall|id: int| 0 <= id < k ==> #[trigger] merged@[id] == wanted[id],
            decreases 64 - k,
        {
            let on_pointer = match self.pointer {
                Some(id) => id as usize == k,
                None => false,
            };
            let value = keyboard_desired[k] || desired[k] || on_pointer;
            proof {
                let id = k as int;
                if keyboard_desired@[id] {
                    let j = choose|j: int| 0 <= j < self.keyboard@.len() && host_key_id(model, self.keyboard@[j]) == Some(id as u8);
                    assert(v.keyboard.contains(self.keyboard@[j]));
                }
                if held_key_selects(v.keyboard, model, id) {
                    let h = choose|h: HostKey| v.keyboard.contains(h) && host_key_id(model, h) == Some(id as u8);
                    assert(self.keyboard@.contains(h));
                }
                if desired@[id] {
                    let j = choose|j: int| 0 <= j < self.controller@.len() && host_key_id(model, self.controller@[j]) == Some(id as u8);
                    assert(v.controller.contains(self.controller@[j]));
                }
                if held_key_selects(v.controller, model, id) {
                    let h = choose|h: HostKey| v.controller.contains(h) && host_key_id(model, h) == Some(id as u8);
                    assert(self.controller@.contains(h));
                }
                assert(value == wanted[id]);
            }
            merged[k] = value;
            k = k + 1;
        }
        assert(merged@ =~= wanted);
        let mut events: Vec<(u8, bool)> = Vec::new();
        let mut k: usize = 0;
        while k < 64
            invariant
                k <= 64,
                merged@ == wanted,
                self@ == v,
                events@ == matrix_changes(v.applied, wanted, k as nat),
            decreases 64 - k,
        {
            if merged[k] != self.applied[k] {
                events.push((k as u8, merged[k]));
            }
            k = k + 1;
        }
        self.applied = merged;
        events
    }
}

/// Law: after `release_all` or `reset_applied`, the next `sync` only presses
/// keys, and pressing them gives exactly the matrix the held inputs ask for.
pub proof fn lemma_sync_after_release_presses_held_keys(next: Seq<bool>)
    requires
        next.len() == 64,
    ensures
        apply_events(released_matrix(), matrix_changes(released_matrix(), next, 64)) == next,
        forall|e: int|
            0 <= e < matrix_changes(released_matrix(), next, 64).len() ==> (#[trigger] matrix_changes(
                released_matrix(),
                next,
                64,
            )[e]).1,
{
    lemma_sync_events_are_exact(released_matrix(), next);
    lemma_changes_prefix(released_matrix(), next, 64);
    assert forall|e: int| 0 <= e < matrix_changes(released_matrix(), next, 64).len() implies (#[trigger] matrix_changes(
        released_matrix(),
        next,
        64,
    )[e]).1 by {
        let (id, state) = matrix_changes(released_matrix(), next, 64)[e];
        assert(id < 64 && released_matrix()[id as int] != state);
    }
}

} // verus!
