//! Modifier-tap finite state machine.
//!
//! Tracks, per modifier key, how many consecutive taps have been observed
//! within the tap window, and the pause between its last two taps. Any
//! non-modifier key press, or a press of a _different_ modifier, resets the
//! counter.
//!
//! Time is given in milliseconds on a monotonic clock chosen by the caller.

use std::collections::HashMap;

use vstd::prelude::*;

use crate::event::{KeyCode, Modifiers};

verus! {

broadcast use vstd::std_specs::hash::group_hash_axioms;

/// Longest pause, in milliseconds, between the releases of two taps that
/// still continues the machine's own count. Tap rules judge the pauses by
/// their own `within_ms` instead.
pub const TAP_WINDOW_MS: u64 = 800;

/// Counter state of one modifier key.
#[derive(Debug, Default, Clone, Copy, PartialEq, Eq, Structural)]
pub struct TapState {
    /// Taps counted so far in the current sequence.
    pub count: u32,
    /// Release time of the last counted tap.
    pub last_tap_at: Option<u64>,
    /// Time from the release of the counted tap before the last one to the
    /// release of the last one; `None` when the key had no counted tap
    /// before it since its counter was last dropped.
    pub gap: Option<u64>,
}

/// Result of feeding an event to the state machine.
#[derive(Debug, Clone, Copy, PartialEq, Eq, Structural)]
pub enum TapResult {
    /// Nothing fired.
    NoTap,
    /// `key` has now been tapped `count` times in a row.
    Tapped { key: KeyCode, count: u32 },
}

/// State machine for modifier-tap triggers.
#[derive(Debug)]
pub struct TapFsm {
    /// Per-modifier counters, keyed by [`KeyCode::ordinal`].
    states: HashMap<u8, TapState>,
    /// The modifier whose press is the current tap candidate.
    active_key: Option<KeyCode>,
    /// When `active_key` went down.
    active_down_at: Option<u64>,
    /// Set once other input made the current press no tap.
    active_tainted: bool,
}

/// Abstract state of a [`TapFsm`].
pub ghost struct TapFsmView {
    pub states: Map<u8, TapState>,
    pub active_key: Option<KeyCode>,
    pub active_down_at: Option<u64>,
    pub active_tainted: bool,
}

/// True if `mods` reports `key` down: its state bit is set (see
/// [`KeyCode::state_bit`]).
pub open spec fn key_is_down(key: KeyCode, mods: Modifiers) -> bool {
    mods@ & key.state_bit()@ == key.state_bit()@
}

/// The counters with only `ord`'s kept: pressing a modifier ends the tap
/// sequences of every other modifier.
pub open spec fn keep_only(states: Map<u8, TapState>, ord: u8) -> Map<u8, TapState> {
    if states.contains_key(ord) {
        Map::<u8, TapState>::empty().insert(ord, states[ord])
    } else {
        Map::<u8, TapState>::empty()
    }
}

/// Milliseconds from `last` to `now`, if there is a `last`. A clock that
/// went backwards counts as no delay.
pub open spec fn elapsed(last: Option<u64>, now: u64) -> Option<u64> {
    match last {
        Some(t) => Some(
            if now >= t {
                (now - t) as u64
            } else {
                0
            },
        ),
        None => None,
    }
}

/// True if a tap released at `now` continues a sequence whose last tap was
/// released at `last`.
pub open spec fn within_window(last: Option<u64>, now: u64) -> bool {
    match elapsed(last, now) {
        Some(g) => g <= TAP_WINDOW_MS,
        None => false,
    }
}

impl TapFsmView {
    /// The state of a fresh machine.
    pub open spec fn initial() -> TapFsmView {
        TapFsmView {
            states: Map::empty(),
            active_key: None,
            active_down_at: None,
            active_tainted: false,
        }
    }

    /// The counter state of `key`, zero if it has none.
    pub open spec fn state_of(self, key: KeyCode) -> TapState {
        if self.states.contains_key(key.ordinal()) {
            self.states[key.ordinal()]
        } else {
            TapState { count: 0, last_tap_at: None, gap: None }
        }
    }

    /// True if one more tap of `key` cannot overflow its counter.
    pub open spec fn can_count(self, key: KeyCode) -> bool {
        self.state_of(key).count < u32::MAX
    }

    /// What a modifier-state change does: the next state and the result.
    pub open spec fn modifier_change(
        self,
        key: KeyCode,
        was_down: bool,
        new_mods: Modifiers,
        now: u64,
    ) -> (TapFsmView, TapResult) {
        let is_down = key_is_down(key, new_mods);
        if !was_down && is_down {
            let others = new_mods@ & !key.modifier_bit()@ & !key.generic_bit()@;
            let kept = keep_only(self.states, key.ordinal());
            if others != 0 {
                (TapFsmView { states: kept.remove(key.ordinal()), active_key: None, ..self }, TapResult::NoTap)
            } else {
                (
                    TapFsmView {
                        states: kept,
                        active_key: Some(key),
                        active_down_at: Some(now),
                        active_tainted: false,
                        ..self
                    },
                    TapResult::NoTap,
                )
            }
        } else if was_down && !is_down {
            if self.active_key == Some(key) && !self.active_tainted {
                let prev = self.state_of(key);
                let count: u32 = if within_window(prev.last_tap_at, now) {
                    (prev.count + 1) as u32
                } else {
                    1
                };
                (
                    TapFsmView {
                        states: self.states.insert(
                            key.ordinal(),
                            TapState { count, last_tap_at: Some(now), gap: elapsed(prev.last_tap_at, now) },
                        ),
                        active_key: None,
                        active_down_at: None,
                        ..self
                    },
                    TapResult::Tapped { key, count },
                )
            } else if self.active_key == Some(key) {
                (
                    TapFsmView {
                        active_key: None,
                        active_down_at: None,
                        active_tainted: false,
                        ..self
                    },
                    TapResult::NoTap,
                )
            } else {
                (self, TapResult::NoTap)
            }
        } else {
            (self, TapResult::NoTap)
        }
    }

    /// What a non-modifier key press does: the current candidate is tainted
    /// and every counter is dropped.
    pub open spec fn other_key(self) -> TapFsmView {
        TapFsmView {
            states: Map::empty(),
            active_tainted: if self.active_key is Some { true } else { self.active_tainted },
            ..self
        }
    }
}

impl View for TapFsm {
    type V = TapFsmView;

    closed spec fn view(&self) -> TapFsmView {
        TapFsmView {
            states: self.states@,
            active_key: self.active_key,
            active_down_at: self.active_down_at,
            active_tainted: self.active_tainted,
        }
    }
}

impl TapFsm {
    /// A machine with no counters and no tap candidate.
    pub fn new() -> (r: TapFsm)
        ensures
            r@ == TapFsmView::initial(),
    {
        TapFsm { states: HashMap::new(), active_key: None, active_down_at: None, active_tainted: false }
    }

    /// Feed a modifier-state change: `key` is the modifier whose state
    /// changed, `was_down` its state before, `new_mods` the aggregate state
    /// after, `now` the event time in milliseconds.
    pub fn on_modifier_change(
        &mut self,
        key: KeyCode,
        was_down: bool,
        new_mods: Modifiers,
        now: u64,
    ) -> (r: TapResult)
        requires
            key.is_modifier(),
            old(self)@.can_count(key),
        ensures
            (final(self)@, r) == old(self)@.modifier_change(key, was_down, new_mods, now),
    {
        let bit = key.state_bit();
        let is_down = (new_mods & bit) == bit;
        if !was_down && is_down {
            let other_mods = new_mods - key.modifier_bit() - key.generic_bit();
            assert(other_mods@ == new_mods@ & !key.modifier_bit()@ & !key.generic_bit()@);
            // A press ends the tap sequences of every other modifier.
            let ord = key.ordinal();
            let mine = match self.states.get(&ord) {
                Some(st) => Some(*st),
                None => None,
            };
            self.states.clear();
            if let Some(st) = mine {
                self.states.insert(ord, st);
            }
            assert(self.states@ =~= keep_only(old(self)@.states, ord));
            if other_mods.any() {
                self.reset(key);
                self.active_key = None;
                return TapResult::NoTap;
            }
            self.active_key = Some(key);
            self.active_down_at = Some(now);
            self.active_tainted = false;
            TapResult::NoTap
        } else if was_down && !is_down {
            let is_active = match self.active_key {
                Some(k) => k == key,
                None => false,
            };
            if is_active && !self.active_tainted {
                self.active_key = None;
                self.active_down_at = None;
                let ord = key.ordinal();
                let prev = match self.states.get(&ord) {
                    Some(s) => *s,
                    None => TapState { count: 0, last_tap_at: None, gap: None },
                };
                let gap = match prev.last_tap_at {
                    Some(t) => Some(now.saturating_sub(t)),
                    None => None,
                };
                let within = match gap {
                    Some(g) => g <= TAP_WINDOW_MS,
                    None => false,
                };
                let count: u32 = if within {
                    prev.count + 1
                } else {
                    1
                };
                self.states.insert(ord, TapState { count, last_tap_at: Some(now), gap });
                return TapResult::Tapped { key, count };
            }
            if is_active {
                self.active_key = None;
                self.active_down_at = None;
                self.active_tainted = false;
            }
            TapResult::NoTap
        } else {
            TapResult::NoTap
        }
    }

    /// Feed a non-modifier key press. The in-progress modifier press is no
    /// longer a tap, and every tap sequence ends.
    pub fn on_other_key(&mut self)
        ensures
            final(self)@ == old(self)@.other_key(),
    {
        if self.active_key.is_some() {
            self.active_tainted = true;
        }
        self.states.clear();
    }

    /// Drop the counter of one modifier key.
    fn reset(&mut self, key: KeyCode)
        ensures
            final(self)@ == (TapFsmView { states: old(self)@.states.remove(key.ordinal()), ..old(self)@ }),
    {
        self.states.remove(&key.ordinal());
    }

    /// Time between the last two counted taps of `key`, if it has two
    /// since its counter was last dropped.
    pub fn last_gap(&self, key: KeyCode) -> (r: Option<u64>)
        ensures
            r == self@.state_of(key).gap,
    {
        match self.states.get(&key.ordinal()) {
            Some(s) => s.gap,
            None => None,
        }
    }

    /// Taps counted so far in `key`'s current sequence (zero if none).
    pub fn tap_count(&self, key: KeyCode) -> (r: u32)
        ensures
            r == self@.state_of(key).count,
    {
        match self.states.get(&key.ordinal()) {
            Some(s) => s.count,
            None => 0,
        }
    }
}

/// A clean tap of a modifier key whose state a bit carries (every modifier
/// but caps lock: pressed with no other modifier held, then released)
/// completes one tap of that key. The count continues the key's running
/// sequence if its last tap was released within the tap window, and starts
/// at one otherwise; the pause since that last tap is recorded either way.
pub proof fn lemma_clean_tap_counts(
    s: TapFsmView,
    key: KeyCode,
    down_mods: Modifiers,
    up_mods: Modifiers,
    t_down: u64,
    t_up: u64,
)
    requires
        key.state_bit()@ != 0,
        down_mods@ == key.state_bit()@ | key.generic_bit()@,
        up_mods@ & key.state_bit()@ == 0,
        s.can_count(key),
    ensures
        s.modifier_change(key, false, down_mods, t_down).1 == TapResult::NoTap,
        s.modifier_change(key, false, down_mods, t_down).0.modifier_change(key, true, up_mods, t_up).1
            == (TapResult::Tapped {
            key,
            count: if within_window(s.state_of(key).last_tap_at, t_up) {
                (s.state_of(key).count + 1) as u32
            } else {
                1
            },
        }),
        s.modifier_change(key, false, down_mods, t_down).0.modifier_change(key, true, up_mods, t_up).0.state_of(
            key,
        ).gap == elapsed(s.state_of(key).last_tap_at, t_up),
{
    let b = key.state_bit()@;
    let mb = key.modifier_bit()@;
    let g = key.generic_bit()@;
    let u = up_mods@;
    assert(b == mb || (mb == 0 && b == g));
    assert((b | g) & b == b) by (bit_vector);
    assert((b | g) & !mb & !g == 0) by (bit_vector)
        requires
            b == mb || (mb == 0 && b == g),
    ;
    assert(b != 0 && u & b == 0 ==> u & b != b) by (bit_vector);
}

/// A press of a modifier while another modifier is held is no tap: neither
/// the press nor the following release reports one, and the key's running
/// sequence is dropped.
pub proof fn lemma_press_under_other_modifier_is_no_tap(
    s: TapFsmView,
    key: KeyCode,
    down_mods: Modifiers,
    up_mods: Modifiers,
    t_down: u64,
    t_up: u64,
)
    requires
        key_is_down(key, down_mods),
        down_mods@ & !key.modifier_bit()@ & !key.generic_bit()@ != 0,
    ensures
        s.modifier_change(key, false, down_mods, t_down).1 == TapResult::NoTap,
        s.modifier_change(key, false, down_mods, t_down).0.state_of(key).count == 0,
        s.modifier_change(key, false, down_mods, t_down).0.modifier_change(key, true, up_mods, t_up).1
            == TapResult::NoTap,
{
}

/// A press of one modifier ends the tap sequence of every other modifier:
/// the other key's counter is dropped, so its next tap counts as its first.
pub proof fn lemma_other_modifier_press_resets(
    s: TapFsmView,
    key: KeyCode,
    pressed: KeyCode,
    mods: Modifiers,
    now: u64,
)
    requires
        pressed != key,
        key_is_down(pressed, mods),
    ensures
        s.modifier_change(pressed, false, mods, now).0.state_of(key) == (TapState {
            count: 0,
            last_tap_at: None,
            gap: None,
        }),
{
    crate::event::lemma_ordinal_injective(pressed, key);
}

/// Any non-modifier key press ends every tap sequence: the next clean tap
/// of a modifier counts as the first.
pub proof fn lemma_other_key_restarts_count(
    s: TapFsmView,
    key: KeyCode,
    down_mods: Modifiers,
    up_mods: Modifiers,
    t_down: u64,
    t_up: u64,
)
    requires
        key.state_bit()@ != 0,
        down_mods@ == key.state_bit()@ | key.generic_bit()@,
        up_mods@ & key.state_bit()@ == 0,
    ensures
        s.other_key().modifier_change(key, false, down_mods, t_down).0.modifier_change(key, true, up_mods, t_up).1
            == (TapResult::Tapped { key, count: 1 }),
{
    lemma_clean_tap_counts(s.other_key(), key, down_mods, up_mods, t_down, t_up);
}

/// Caps lock, whose state no modifier bit carries, never completes a tap:
/// it reads as down whatever the modifier state.
pub proof fn lemma_stateless_key_never_taps(s: TapFsmView, key: KeyCode, was_down: bool, mods: Modifiers, now: u64)
    requires
        key.state_bit()@ == 0,
    ensures
        s.modifier_change(key, was_down, mods, now).1 == TapResult::NoTap,
{
    let m = mods@;
    assert(m & 0 == 0) by (bit_vector);
}

/// One input to the tap machine.
pub ghost enum TapInput {
    /// A modifier-state change, as [`TapFsm::on_modifier_change`] takes it.
    Change { key: KeyCode, was_down: bool, mods: Modifiers, now: u64 },
    /// A non-modifier key press, as [`TapFsm::on_other_key`] takes it.
    OtherKey,
}

/// One step of the machine on `input`.
pub open spec fn tap_step(s: TapFsmView, input: TapInput) -> (TapFsmView, TapResult) {
    match input {
        TapInput::Change { key, was_down, mods, now } => s.modifier_change(key, was_down, mods, now),
        TapInput::OtherKey => (s.other_key(), TapResult::NoTap),
    }
}

/// Feeding `inputs` in order from `s`: the final state and each result.
pub open spec fn tap_run(s: TapFsmView, inputs: Seq<TapInput>) -> (TapFsmView, Seq<TapResult>)
    decreases inputs.len(),
{
    if inputs.len() == 0 {
        (s, Seq::empty())
    } else {
        let (m, rs) = tap_run(s, inputs.drop_last());
        let (n, r) = tap_step(m, inputs.last());
        (n, rs.push(r))
    }
}

proof fn lemma_no_counters_until_a_tap(s: TapFsmView, inputs: Seq<TapInput>)
    requires
        s.states == Map::<u8, TapState>::empty(),
        forall|i: int| 0 <= i < inputs.len() ==> #[trigger] tap_run(s, inputs).1[i] == TapResult::NoTap,
    ensures
        tap_run(s, inputs).1.len() == inputs.len(),
        tap_run(s, inputs).0.states == Map::<u8, TapState>::empty(),
    decreases inputs.len(),
{
    if inputs.len() > 0 {
        let prev = inputs.drop_last();
        let (m, rs) = tap_run(s, prev);
        let (n, r) = tap_step(m, inputs.last());
        assert(tap_run(s, inputs) == (n, rs.push(r)));
        lemma_run_len(s, prev);
        assert forall|i: int| 0 <= i < prev.len() implies #[trigger] tap_run(s, prev).1[i] == TapResult::NoTap by {
            assert(tap_run(s, inputs).1[i] == TapResult::NoTap);
            assert(rs.push(r)[i] == rs[i]);
        }
        lemma_no_counters_until_a_tap(s, prev);
        assert(tap_run(s, inputs).1[inputs.len() - 1] == TapResult::NoTap);
        assert(rs.push(r)[inputs.len() - 1] == r);
        assert(r == TapResult::NoTap);
        if let TapInput::Change { key, .. } = inputs.last() {
            assert(keep_only(m.states, key.ordinal()) =~= Map::<u8, TapState>::empty());
            assert(m.states.remove(key.ordinal()) =~= Map::<u8, TapState>::empty());
        }
    }
}

proof fn lemma_run_len(s: TapFsmView, inputs: Seq<TapInput>)
    ensures
        tap_run(s, inputs).1.len() == inputs.len(),
    decreases inputs.len(),
{
    if inputs.len() > 0 {
        lemma_run_len(s, inputs.drop_last());
    }
}

/// A non-modifier key pressed while a modifier is held makes that press no
/// tap: its release reports none.
pub proof fn lemma_other_key_taints_the_held_press(s: TapFsmView, key: KeyCode, mods: Modifiers, now: u64)
    requires
        s.active_key == Some(key),
    ensures
        s.other_key().modifier_change(key, true, mods, now).1 == TapResult::NoTap,
{
}

/// From a machine holding no counters (a new one, and the one a matcher
/// starts again after a rule swap), the first completed tap of any
/// modifier, whatever came before it, counts as its first.
pub proof fn lemma_first_tap_counts_one(s: TapFsmView, inputs: Seq<TapInput>, next: TapInput)
    requires
        s.states == Map::<u8, TapState>::empty(),
        forall|i: int| 0 <= i < inputs.len() ==> #[trigger] tap_run(s, inputs).1[i] == TapResult::NoTap,
    ensures
        tap_run(s, inputs.push(next)).1.last() matches TapResult::Tapped { count, .. } ==> count == 1,
{
    lemma_no_counters_until_a_tap(s, inputs);
    assert(inputs.push(next).drop_last() =~= inputs);
    let m = tap_run(s, inputs).0;
    if let TapInput::Change { key, .. } = next {
        assert(m.state_of(key) == TapState { count: 0, last_tap_at: None, gap: None });
    }
}

/// A non-modifier key press ends every tap sequence for good: whatever
/// comes after it, the next completed tap of any modifier counts as its
/// first.
pub proof fn lemma_other_key_restarts_every_count(s: TapFsmView, inputs: Seq<TapInput>, next: TapInput)
    requires
        forall|i: int| 0 <= i < inputs.len() ==> #[trigger] tap_run(s.other_key(), inputs).1[i] == TapResult::NoTap,
    ensures
        tap_run(s.other_key(), inputs.push(next)).1.last() matches TapResult::Tapped { count, .. } ==> count == 1,
{
    lemma_first_tap_counts_one(s.other_key(), inputs, next);
}

/// True if `input` presses a modifier: the key goes from up to down.
pub open spec fn is_press(input: TapInput) -> bool {
    input matches TapInput::Change { key, was_down, mods, .. } && !was_down && key_is_down(key, mods)
}

/// True if `input` presses `k` with no other modifier held.
pub open spec fn clean_press_of(input: TapInput, k: KeyCode) -> bool {
    &&& input matches TapInput::Change { key, was_down, mods, .. }
    &&& key == k
    &&& !was_down
    &&& key_is_down(k, mods)
    &&& mods@ & !k.modifier_bit()@ & !k.generic_bit()@ == 0
}

/// True if `input` releases `k`: the key goes from down to up.
pub open spec fn releases(input: TapInput, k: KeyCode) -> bool {
    input matches TapInput::Change { key, was_down, mods, .. } && key == k && was_down && !key_is_down(k, mods)
}

/// True if input `i` pressed `k` cleanly and nothing after it pressed a
/// modifier, pressed a non-modifier key, or released `k`.
pub open spec fn candidate_at(inputs: Seq<TapInput>, k: KeyCode, i: int) -> bool {
    &&& 0 <= i < inputs.len()
    &&& clean_press_of(inputs[i], k)
    &&& forall|j: int|
        i < j < inputs.len() ==> !is_press(#[trigger] inputs[j]) && inputs[j] != TapInput::OtherKey && !releases(
            inputs[j],
            k,
        )
}

/// True if `k`'s current press, after `inputs`, is a tap candidate.
pub open spec fn is_candidate(inputs: Seq<TapInput>, k: KeyCode) -> bool {
    exists|i: int| #[trigger] candidate_at(inputs, k, i)
}

proof fn lemma_candidate_tracks_history(inputs: Seq<TapInput>)
    ensures
        forall|k: KeyCode|
            #![trigger is_candidate(inputs, k)]
            (tap_run(TapFsmView::initial(), inputs).0.active_key == Some(k) && !tap_run(
                TapFsmView::initial(),
                inputs,
            ).0.active_tainted) <==> is_candidate(inputs, k),
    decreases inputs.len(),
{
    if inputs.len() > 0 {
        let prev = inputs.drop_last();
        lemma_candidate_tracks_history(prev);
        let m = tap_run(TapFsmView::initial(), prev).0;
        let x = inputs.last();
        let n = tap_step(m, x).0;
        let last = inputs.len() - 1;
        assert(tap_run(TapFsmView::initial(), inputs).0 == n);
        assert forall|k: KeyCode| #![trigger is_candidate(inputs, k)] (n.active_key == Some(k) && !n.active_tainted)
            <==> is_candidate(inputs, k) by {
            assert(is_candidate(prev, k) == (m.active_key == Some(k) && !m.active_tainted));
            if is_candidate(prev, k) {
                let i = choose|i: int| #[trigger] candidate_at(prev, k, i);
                if !is_press(x) && x != TapInput::OtherKey && !releases(x, k) {
                    assert(prev[i] == inputs[i]);
                    assert forall|j: int| i < j < inputs.len() implies !is_press(#[trigger] inputs[j])
                        && inputs[j] != TapInput::OtherKey && !releases(inputs[j], k) by {
                        if j < last {
                            assert(inputs[j] == prev[j]);
                        }
                    }
                    assert(candidate_at(inputs, k, i));
                }
            }
            if is_candidate(inputs, k) {
                let i = choose|i: int| #[trigger] candidate_at(inputs, k, i);
                if i < last {
                    assert(prev[i] == inputs[i]);
                    assert forall|j: int| i < j < prev.len() implies !is_press(#[trigger] prev[j]) && prev[j]
                        != TapInput::OtherKey && !releases(prev[j], k) by {
                        assert(inputs[j] == prev[j]);
                    }
                    assert(candidate_at(prev, k, i));
                }
            }
            if clean_press_of(x, k) {
                assert(candidate_at(inputs, k, last));
            }
        }
    }
}

/// A machine started new reports a tap exactly when a modifier is
/// released whose latest press was clean (no other modifier held) and was
/// followed by no press of any modifier, no non-modifier key and no
/// release of that key.
pub proof fn lemma_tap_reported_iff_clean_press_released(inputs: Seq<TapInput>, key: KeyCode, was_down: bool, mods: Modifiers, now: u64)
    ensures
        tap_step(tap_run(TapFsmView::initial(), inputs).0, TapInput::Change { key, was_down, mods, now }).1 is Tapped
            <==> (releases(TapInput::Change { key, was_down, mods, now }, key) && is_candidate(inputs, key)),
{
    lemma_candidate_tracks_history(inputs);
    let m = tap_run(TapFsmView::initial(), inputs).0;
    assert(is_candidate(inputs, key) == (m.active_key == Some(key) && !m.active_tainted));
}

/// True if `input` ends `k`'s tap sequence: a non-modifier key press, a
/// press of another modifier, or a press of `k` with another modifier held.
pub open spec fn clears(input: TapInput, k: KeyCode) -> bool {
    match input {
        TapInput::OtherKey => true,
        TapInput::Change { key, mods, .. } => is_press(input) && (key != k || mods@ & !key.modifier_bit()@
            & !key.generic_bit()@ != 0),
    }
}

/// True if `r` reports a tap of `k`.
pub open spec fn taps_key(r: TapResult, k: KeyCode) -> bool {
    r matches TapResult::Tapped { key, .. } && key == k
}

/// The time of an input (zero for a non-modifier key press).
pub open spec fn input_time(input: TapInput) -> u64 {
    match input {
        TapInput::Change { now, .. } => now,
        TapInput::OtherKey => 0,
    }
}

/// True if input `i` completed a tap of `k` and nothing after it ended
/// `k`'s sequence or completed another tap of `k`.
pub open spec fn latest_tap_at(inputs: Seq<TapInput>, results: Seq<TapResult>, k: KeyCode, i: int) -> bool {
    &&& 0 <= i < inputs.len()
    &&& taps_key(results[i], k)
    &&& forall|j: int|
        #![trigger inputs[j]]
        #![trigger results[j]]
        i < j < inputs.len() ==> !clears(inputs[j], k) && !taps_key(results[j], k)
}

/// `k`'s running count and the time of its last counted tap, read off a
/// history: those of its last tap, unless its sequence ended since; zero
/// and none otherwise.
pub open spec fn counter_from_history(inputs: Seq<TapInput>, results: Seq<TapResult>, k: KeyCode) -> (u32, Option<u64>) {
    if exists|i: int| #[trigger] latest_tap_at(inputs, results, k, i) {
        let i = choose|i: int| #[trigger] latest_tap_at(inputs, results, k, i);
        (
            match results[i] {
                TapResult::Tapped { count, .. } => count,
                TapResult::NoTap => 0,
            },
            Some(input_time(inputs[i])),
        )
    } else {
        (0, None)
    }
}

proof fn lemma_last_tap_unique(inputs: Seq<TapInput>, results: Seq<TapResult>, k: KeyCode, i: int, j: int)
    requires
        latest_tap_at(inputs, results, k, i),
        latest_tap_at(inputs, results, k, j),
    ensures
        i == j,
{
    if i < j {
        assert(!clears(inputs[j], k) && !taps_key(results[j], k));
    }
    if j < i {
        assert(!clears(inputs[i], k) && !taps_key(results[i], k));
    }
}

proof fn lemma_counter_tracks_history(inputs: Seq<TapInput>)
    ensures
        forall|k: KeyCode|
            #![trigger counter_from_history(inputs, tap_run(TapFsmView::initial(), inputs).1, k)]
            (
                tap_run(TapFsmView::initial(), inputs).0.state_of(k).count,
                tap_run(TapFsmView::initial(), inputs).0.state_of(k).last_tap_at,
            ) == counter_from_history(inputs, tap_run(TapFsmView::initial(), inputs).1, k),
    decreases inputs.len(),
{
    lemma_run_len(TapFsmView::initial(), inputs);
    if inputs.len() > 0 {
        let prev = inputs.drop_last();
        lemma_counter_tracks_history(prev);
        lemma_run_len(TapFsmView::initial(), prev);
        let (m, rs) = tap_run(TapFsmView::initial(), prev);
        let x = inputs.last();
        let (n, r) = tap_step(m, x);
        let rs2 = rs.push(r);
        let last = inputs.len() - 1;
        assert(tap_run(TapFsmView::initial(), inputs) == (n, rs2));
        assert forall|k: KeyCode| #![trigger counter_from_history(inputs, rs2, k)] (
            n.state_of(k).count,
            n.state_of(k).last_tap_at,
        ) == counter_from_history(inputs, rs2, k) by {
            assert((m.state_of(k).count, m.state_of(k).last_tap_at) == counter_from_history(prev, rs, k));
            if let TapInput::Change { key, .. } = x {
                crate::event::lemma_ordinal_injective(key, k);
            }
            if taps_key(r, k) {
                assert(rs2[last] == r);
                assert(latest_tap_at(inputs, rs2, k, last));
                assert forall|i: int| #[trigger] latest_tap_at(inputs, rs2, k, i) implies i == last by {
                    if i < last {
                        assert(rs2[last] == r);
                    }
                }
            } else if clears(x, k) {
                assert(n.state_of(k) == TapState { count: 0, last_tap_at: None, gap: None });
                assert forall|i: int| !#[trigger] latest_tap_at(inputs, rs2, k, i) by {
                    if 0 <= i < last {
                        assert(inputs[last] == x);
                    }
                    if i == last {
                        assert(rs2[last] == r);
                    }
                }
            } else {
                assert(n.state_of(k).count == m.state_of(k).count);
                assert(n.state_of(k).last_tap_at == m.state_of(k).last_tap_at);
                assert(inputs[last] == x);
                assert(rs2[last] == r);
                assert forall|i: int| #[trigger] latest_tap_at(prev, rs, k, i) implies latest_tap_at(inputs, rs2, k, i) by {
                    assert(prev[i] == inputs[i]);
                    assert(rs2[i] == rs[i]);
                    assert forall|j: int| i < j < inputs.len() implies !clears(#[trigger] inputs[j], k) && !taps_key(
                        rs2[j],
                        k,
                    ) by {
                        if j < last {
                            assert(inputs[j] == prev[j]);
                            assert(rs2[j] == rs[j]);
                            assert(!clears(prev[j], k) && !taps_key(rs[j], k));
                        }
                    }
                }
                assert forall|i: int| #[trigger] latest_tap_at(inputs, rs2, k, i) implies latest_tap_at(prev, rs, k, i) by {
                    if i == last {
                        assert(taps_key(rs2[last], k));
                        assert(false);
                    } else {
                        assert(prev[i] == inputs[i]);
                        assert(rs2[i] == rs[i]);
                        assert(taps_key(rs[i], k));
                        assert forall|j: int| i < j < prev.len() implies !clears(#[trigger] prev[j], k)
                            && !taps_key(rs[j], k) by {
                            assert(inputs[j] == prev[j]);
                            assert(rs2[j] == rs[j]);
                            assert(!clears(inputs[j], k) && !taps_key(rs2[j], k));
                        }
                    }
                }
                if exists|i: int| #[trigger] latest_tap_at(prev, rs, k, i) {
                    let a = choose|i: int| #[trigger] latest_tap_at(prev, rs, k, i);
                    let b = choose|i: int| #[trigger] latest_tap_at(inputs, rs2, k, i);
                    assert(latest_tap_at(inputs, rs2, k, a));
                    lemma_last_tap_unique(inputs, rs2, k, a, b);
                    assert(rs2[a] == rs[a]);
                    assert(inputs[a] == prev[a]);
                } else {
                    assert forall|i: int| !#[trigger] latest_tap_at(inputs, rs2, k, i) by {
                        if latest_tap_at(inputs, rs2, k, i) {
                            assert(latest_tap_at(prev, rs, k, i));
                        }
                    }
                }
                assert(counter_from_history(prev, rs, k) == counter_from_history(inputs, rs2, k));
            }
        }
    }
}

/// The count a reported tap carries, over any history from a new machine:
/// one more than the key's last tap when that tap is still part of the
/// running sequence (no non-modifier key, no press of another modifier and
/// no press of the key under another modifier came since) and was released
/// within the tap window; one otherwise.
pub proof fn lemma_tap_count_from_history(inputs: Seq<TapInput>, key: KeyCode, was_down: bool, mods: Modifiers, now: u64)
    requires
        tap_run(TapFsmView::initial(), inputs).0.can_count(key),
    ensures
        tap_step(tap_run(TapFsmView::initial(), inputs).0, TapInput::Change { key, was_down, mods, now }).1 matches TapResult::Tapped {
            count,
            ..
        } ==> count == if within_window(counter_from_history(inputs, tap_run(TapFsmView::initial(), inputs).1, key).1, now) {
            counter_from_history(inputs, tap_run(TapFsmView::initial(), inputs).1, key).0 + 1
        } else {
            1
        },
{
    lemma_counter_tracks_history(inputs);
    let rs = tap_run(TapFsmView::initial(), inputs).1;
    assert(counter_from_history(inputs, rs, key) == (
        tap_run(TapFsmView::initial(), inputs).0.state_of(key).count,
        tap_run(TapFsmView::initial(), inputs).0.state_of(key).last_tap_at,
    ));
}

} // verus!
