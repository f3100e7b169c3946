//! Rule definitions and the matcher.
//!
//! A [`RuleSet`] is compiled from configuration; a [`Matcher`] consumes
//! [`KeyEvent`]s along with the focused application and emits [`Verdict`]s
//! that tell the platform backend what to do.

use std::collections::{HashMap, HashSet};

use vstd::prelude::*;

use crate::action::Action;
use crate::backend::BackendVerdict;
use crate::event::{EventKind, KeyCode, KeyEvent};
use crate::tap_fsm::{elapsed, key_is_down, lemma_clean_tap_counts, TapFsm, TapFsmView, TapResult};
use crate::text::str_eq;
use crate::trigger::{HotkeyTrigger, TapTrigger, Trigger};

verus! {

broadcast use vstd::std_specs::hash::group_hash_axioms;

/// A compiled rule.
#[derive(Debug)]
pub struct Rule {
    pub trigger: Trigger,
    pub action: Action,
    /// If `Some`, the rule only fires when the focused app id is in the list.
    pub when_app_in: Option<Vec<String>>,
}

/// The scope list of a rule, by the characters of its entries.
pub open spec fn scope_list(r: Rule) -> Option<Seq<String>> {
    match r.when_app_in {
        Some(l) => Some(l@),
        None => None,
    }
}

/// True if two rules have the same trigger, action and scope.
pub open spec fn same_rule(a: Rule, b: Rule) -> bool {
    &&& a.trigger == b.trigger
    &&& a.action == b.action
    &&& scope_list(a) == scope_list(b)
}

/// True if two rule sequences agree rule by rule.
pub open spec fn same_rules(a: Seq<Rule>, b: Seq<Rule>) -> bool {
    &&& a.len() == b.len()
    &&& forall|i: int| 0 <= i < a.len() ==> same_rule(#[trigger] a[i], b[i])
}

impl Clone for Rule {
    fn clone(&self) -> (r: Rule)
        ensures
            same_rule(r, *self),
    {
        let when_app_in = match &self.when_app_in {
            Some(list) => Some(clone_strings(list)),
            None => None,
        };
        Rule { trigger: self.trigger, action: self.action.clone(), when_app_in }
    }
}

/// Result of feeding an event to a [`Matcher`].
#[derive(Debug)]
pub enum Verdict {
    /// Let the event through unmodified.
    Pass,
    /// Drop the event entirely.
    Swallow,
    /// Drop the original and execute this action instead.
    Replace(Action),
}

impl Clone for Verdict {
    fn clone(&self) -> (r: Verdict)
        ensures
            r == *self,
    {
        match self {
            Verdict::Pass => Verdict::Pass,
            Verdict::Swallow => Verdict::Swallow,
            Verdict::Replace(a) => Verdict::Replace(a.clone()),
        }
    }
}

impl Verdict {
    /// What the backend does with the event, and the action to inject:
    /// a replaced event is swallowed and its action injected.
    pub fn into_backend(self) -> (r: (BackendVerdict, Option<Action>))
        ensures
            r == match self {
                Verdict::Pass => (BackendVerdict::Pass, None),
                Verdict::Swallow => (BackendVerdict::Swallow, None),
                Verdict::Replace(a) => (BackendVerdict::Swallow, Some(a)),
            },
    {
        match self {
            Verdict::Pass => (BackendVerdict::Pass, None),
            Verdict::Swallow => (BackendVerdict::Swallow, None),
            Verdict::Replace(a) => (BackendVerdict::Swallow, Some(a)),
        }
    }
}

/// The compiled, immutable set of rules the engine matches against.
#[derive(Debug)]
pub struct RuleSet {
    hotkeys: Vec<Rule>,
    taps: Vec<Rule>,
}

impl Clone for RuleSet {
    fn clone(&self) -> (r: RuleSet)
        ensures
            same_rules(r@.hotkeys, self@.hotkeys),
            same_rules(r@.taps, self@.taps),
    {
        proof {
            use_type_invariant(self);
        }
        let hotkeys = clone_rules(&self.hotkeys);
        let taps = clone_rules(&self.taps);
        proof {
            assert forall|i: int| 0 <= i < hotkeys@.len() implies is_hotkey_rule(#[trigger] hotkeys@[i]) by {
                assert(same_rule(hotkeys@[i], self.hotkeys@[i]));
                assert(is_hotkey_rule(self@.hotkeys[i]));
            }
            assert forall|i: int| 0 <= i < taps@.len() implies is_tap_rule(#[trigger] taps@[i]) by {
                assert(same_rule(taps@[i], self.taps@[i]));
                assert(is_tap_rule(self@.taps[i]));
            }
        }
        RuleSet { hotkeys, taps }
    }
}

pub(crate) fn clone_strings(list: &Vec<String>) -> (r: Vec<String>)
    ensures
        r@ == list@,
{
    let mut out: Vec<String> = Vec::new();
    for i in 0..list.len()
        invariant
            out@ == list@.take(i as int),
    {
        out.push(list[i].clone());
        assert(out@ == list@.take(i + 1));
    }
    assert(list@.take(list@.len() as int) == list@);
    out
}

fn clone_rules(rules: &Vec<Rule>) -> (r: Vec<Rule>)
    ensures
        same_rules(r@, rules@),
{
    let mut out: Vec<Rule> = Vec::new();
    for i in 0..rules.len()
        invariant
            out@.len() == i,
            forall|j: int| 0 <= j < i ==> same_rule(#[trigger] out@[j], rules@[j]),
    {
        out.push(rules[i].clone());
    }
    out
}

/// True if the hotkey part holds only hotkey rules and the tap part only
/// tap rules, as every [`RuleSet`] does.
pub open spec fn kinds_sorted(v: RuleSetView) -> bool {
    &&& forall|i: int| 0 <= i < v.hotkeys.len() ==> is_hotkey_rule(#[trigger] v.hotkeys[i])
    &&& forall|i: int| 0 <= i < v.taps.len() ==> is_tap_rule(#[trigger] v.taps[i])
}

/// Abstract content of a [`RuleSet`]: its hotkey rules and its tap rules,
/// each in configuration order.
pub ghost struct RuleSetView {
    pub hotkeys: Seq<Rule>,
    pub taps: Seq<Rule>,
}

impl View for RuleSet {
    type V = RuleSetView;

    closed spec fn view(&self) -> RuleSetView {
        RuleSetView { hotkeys: self.hotkeys@, taps: self.taps@ }
    }
}

/// True if the rule has a hotkey trigger.
pub open spec fn is_hotkey_rule(r: Rule) -> bool {
    r.trigger is Hotkey
}

/// True if the rule has a tap trigger.
pub open spec fn is_tap_rule(r: Rule) -> bool {
    r.trigger is Tap
}

/// The focused-app argument as a character sequence.
pub open spec fn app_view(app: Option<&str>) -> Option<Seq<char>> {
    match app {
        Some(a) => Some(a@),
        None => None,
    }
}

/// True if `evt` is a key-down of `trig`'s key with at least `trig`'s
/// modifiers held.
pub open spec fn hotkey_fires(trig: HotkeyTrigger, evt: KeyEvent) -> bool {
    &&& evt.kind == EventKind::KeyDown
    &&& evt.code == trig.key
    &&& evt.mods@ & trig.mods@ == trig.mods@
}

/// True if the rule's app scope admits the focused app: unscoped rules
/// admit everything, scoped rules admit a known app that is in their list.
pub open spec fn scope_allows(rule: Rule, app: Option<Seq<char>>) -> bool {
    match rule.when_app_in {
        None => true,
        Some(list) => match app {
            Some(a) => exists|i: int| 0 <= i < list@.len() && (#[trigger] list@[i])@ == a,
            None => false,
        },
    }
}

/// True if `rule` is a hotkey rule that fires on `evt` in `app`.
pub open spec fn hotkey_rule_fires(rule: Rule, evt: KeyEvent, app: Option<Seq<char>>) -> bool {
    match rule.trigger {
        Trigger::Hotkey(t) => hotkey_fires(t, evt) && scope_allows(rule, app),
        Trigger::Tap(_) => false,
    }
}

/// True if `rule` is a tap rule for `key` whose run of taps has just
/// reached its count, and it fires in `app`.
pub open spec fn tap_rule_fires(rule: Rule, key: KeyCode, run: u32, app: Option<Seq<char>>) -> bool {
    match rule.trigger {
        Trigger::Tap(t) => t.tap == key && t.count == run && scope_allows(rule, app),
        Trigger::Hotkey(_) => false,
    }
}

/// The run of the tap rule at `i`: how many taps of its key in a row each
/// came within its window of the previous one. Zero where none is kept.
pub open spec fn run_at(runs: Seq<u32>, i: int) -> u32 {
    if 0 <= i < runs.len() {
        runs[i]
    } else {
        0
    }
}

/// A run after one more tap of its key, `gap` after the previous tap of
/// that key: one longer when the gap is within `within_ms`, a fresh run of
/// one otherwise (also when the key has no previous tap in its sequence).
pub open spec fn next_run(run: u32, gap: Option<u64>, within_ms: u32) -> u32 {
    if gap matches Some(g) && g <= within_ms {
        if run < u32::MAX {
            (run + 1) as u32
        } else {
            run
        }
    } else {
        1
    }
}

/// The runs of `rules` after a tap of `key` released `gap` after the
/// previous one: the rules for `key` step their runs, the others keep them.
pub open spec fn runs_after_tap(rules: Seq<Rule>, runs: Seq<u32>, key: KeyCode, gap: Option<u64>) -> Seq<u32> {
    Seq::new(
        rules.len(),
        |i: int|
            match rules[i].trigger {
                Trigger::Tap(t) => if t.tap == key {
                    next_run(run_at(runs, i), gap, t.within_ms)
                } else {
                    run_at(runs, i)
                },
                Trigger::Hotkey(_) => run_at(runs, i),
            },
    )
}

/// Index of the first rule at or after `from` that fires on `evt`.
pub open spec fn first_hotkey(rules: Seq<Rule>, evt: KeyEvent, app: Option<Seq<char>>, from: int) -> Option<int>
    decreases rules.len() - from,
{
    if from < 0 || from >= rules.len() {
        None
    } else if hotkey_rule_fires(rules[from], evt, app) {
        Some(from)
    } else {
        first_hotkey(rules, evt, app, from + 1)
    }
}

/// Index of the first rule at or after `from` that fires on a tap of
/// `key`, given the rules' runs.
pub open spec fn first_tap(rules: Seq<Rule>, runs: Seq<u32>, key: KeyCode, app: Option<Seq<char>>, from: int) -> Option<
    int,
>
    decreases rules.len() - from,
{
    if from < 0 || from >= rules.len() {
        None
    } else if tap_rule_fires(rules[from], key, run_at(runs, from), app) {
        Some(from)
    } else {
        first_tap(rules, runs, key, app, from + 1)
    }
}

impl RuleSet {
    #[verifier::type_invariant]
    spec fn well_kept(self) -> bool {
        &&& self.hotkeys.len() + self.taps.len() <= usize::MAX
        &&& kinds_sorted(self@)
    }

    /// Build a rule set from validated rules, keeping configuration order
    /// within the hotkey rules and within the tap rules.
    pub fn new(rules: Vec<Rule>) -> (r: RuleSet)
        ensures
            r@.hotkeys == rules@.filter(|x: Rule| is_hotkey_rule(x)),
            r@.taps == rules@.filter(|x: Rule| is_tap_rule(x)),
            kinds_sorted(r@),
    {
        let mut hotkeys: Vec<Rule> = Vec::new();
        let mut taps: Vec<Rule> = Vec::new();
        let ghost all = rules@;
        let n = rules.len();
        for r in it: rules
            invariant
                all == it.seq(),
                hotkeys@ == all.take(it.index() as int).filter(|x: Rule| is_hotkey_rule(x)),
                taps@ == all.take(it.index() as int).filter(|x: Rule| is_tap_rule(x)),
                hotkeys.len() + taps.len() == it.index(),
                it.index() <= all.len(),
                all.len() == n,
                forall|j: int| 0 <= j < hotkeys@.len() ==> is_hotkey_rule(#[trigger] hotkeys@[j]),
                forall|j: int| 0 <= j < taps@.len() ==> is_tap_rule(#[trigger] taps@[j]),
        {
            proof {
                reveal_with_fuel(Seq::<_>::filter, 1);
                assert(all.take(it.index() + 1).drop_last() == all.take(it.index() as int));
            }
            match r.trigger {
                Trigger::Hotkey(_) => hotkeys.push(r),
                Trigger::Tap(_) => taps.push(r),
            }
        }
        proof {
            assert(all.take(all.len() as int) == all);
        }
        RuleSet { hotkeys, taps }
    }

    /// Number of rules in the set.
    pub fn len(&self) -> (r: usize)
        ensures
            r == self@.hotkeys.len() + self@.taps.len(),
    {
        proof {
            use_type_invariant(self);
        }
        self.hotkeys.len() + self.taps.len()
    }

    /// Whether the set is empty.
    pub fn is_empty(&self) -> (r: bool)
        ensures
            r == (self@.hotkeys.len() == 0 && self@.taps.len() == 0),
    {
        self.hotkeys.len() == 0 && self.taps.len() == 0
    }

    /// All rules: the hotkey rules, then the tap rules.
    pub fn iter(&self) -> (r: Vec<&Rule>)
        ensures
            r@.len() == self@.hotkeys.len() + self@.taps.len(),
            forall|i: int| 0 <= i < r@.len() ==> *(#[trigger] r@[i]) == (self@.hotkeys + self@.taps)[i],
    {
        proof {
            use_type_invariant(self);
        }
        let mut out: Vec<&Rule> = Vec::new();
        for i in 0..self.hotkeys.len()
            invariant
                out@.len() == i,
                forall|j: int| 0 <= j < i ==> *(#[trigger] out@[j]) == self.hotkeys@[j],
        {
            out.push(&self.hotkeys[i]);
        }
        let h = self.hotkeys.len();
        for i in 0..self.taps.len()
            invariant
                h == self.hotkeys@.len(),
                out@.len() == h + i,
                forall|j: int| 0 <= j < h ==> *(#[trigger] out@[j]) == self.hotkeys@[j],
                forall|j: int| h <= j < h + i ==> *(#[trigger] out@[j]) == self.taps@[j - h],
        {
            out.push(&self.taps[i]);
        }
        out
    }

    fn hotkey_matches(trig: &HotkeyTrigger, evt: KeyEvent) -> (r: bool)
        ensures
            r == hotkey_fires(*trig, evt),
    {
        evt.kind == EventKind::KeyDown && evt.code == trig.key && evt.mods.matches(trig.mods)
    }

    fn scope_matches(rule: &Rule, focused_app: Option<&str>) -> (r: bool)
        ensures
            r == scope_allows(*rule, app_view(focused_app)),
    {
        match &rule.when_app_in {
            None => true,
            Some(list) => match focused_app {
                None => false,
                Some(app) => {
                    let mut i: usize = 0;
                    while i < list.len()
                        invariant
                            0 <= i <= list@.len(),
                            rule.when_app_in == Some(*list),
                            focused_app == Some(app),
                            forall|j: int| 0 <= j < i ==> (#[trigger] list@[j])@ != app@,
                        decreases list@.len() - i,
                    {
                        if str_eq(list[i].as_str(), app) {
                            assert(rule.when_app_in->0@[i as int]@ == app@);
                            return true;
                        }
                        i = i + 1;
                    }
                    false
                },
            },
        }
    }

    /// [`hotkey_fires`] as a function on a trigger and an event.
    pub fn __hotkey_matches(trig: &HotkeyTrigger, evt: KeyEvent) -> (r: bool)
        ensures
            r == hotkey_fires(*trig, evt),
    {
        Self::hotkey_matches(trig, evt)
    }

    /// [`scope_allows`] as a function on a rule and the focused app.
    pub fn __scope_matches(rule: &Rule, focused_app: Option<&str>) -> (r: bool)
        ensures
            r == scope_allows(*rule, app_view(focused_app)),
    {
        Self::scope_matches(rule, focused_app)
    }
}

/// Index of the first hotkey rule that fires on `evt`.
fn find_hotkey(rules: &Vec<Rule>, evt: KeyEvent, focused_app: Option<&str>) -> (r: Option<usize>)
    ensures
        match r {
            Some(i) => i < rules@.len() && first_hotkey(rules@, evt, app_view(focused_app), 0) == Some(i as int),
            None => first_hotkey(rules@, evt, app_view(focused_app), 0) is None,
        },
{
    let ghost app = app_view(focused_app);
    let mut i: usize = 0;
    while i < rules.len()
        invariant
            0 <= i <= rules@.len(),
            app == app_view(focused_app),
            first_hotkey(rules@, evt, app, 0) == first_hotkey(rules@, evt, app, i as int),
        decreases rules@.len() - i,
    {
        let rule = &rules[i];
        let fires = match rule.trigger {
            Trigger::Hotkey(t) => RuleSet::hotkey_matches(&t, evt) && RuleSet::scope_matches(rule, focused_app),
            Trigger::Tap(_) => false,
        };
        if fires {
            return Some(i);
        }
        i = i + 1;
    }
    None
}

/// Index of the first tap rule that fires on a tap of `key`.
fn find_tap(rules: &Vec<Rule>, runs: &Vec<u32>, key: KeyCode, focused_app: Option<&str>) -> (r: Option<usize>)
    ensures
        match r {
            Some(i) => i < rules@.len() && first_tap(rules@, runs@, key, app_view(focused_app), 0) == Some(i as int),
            None => first_tap(rules@, runs@, key, app_view(focused_app), 0) is None,
        },
{
    let ghost app = app_view(focused_app);
    let mut i: usize = 0;
    while i < rules.len()
        invariant
            0 <= i <= rules@.len(),
            app == app_view(focused_app),
            first_tap(rules@, runs@, key, app, 0) == first_tap(rules@, runs@, key, app, i as int),
        decreases rules@.len() - i,
    {
        let rule = &rules[i];
        let run = if i < runs.len() {
            runs[i]
        } else {
            0
        };
        let fires = match rule.trigger {
            Trigger::Tap(t) => t.tap == key && t.count == run && RuleSet::scope_matches(rule, focused_app),
            Trigger::Hotkey(_) => false,
        };
        if fires {
            return Some(i);
        }
        i = i + 1;
    }
    None
}

/// The runs of `rules` after a tap of `key` released `gap` after the
/// previous one.
fn step_runs(rules: &Vec<Rule>, runs: &Vec<u32>, key: KeyCode, gap: Option<u64>) -> (r: Vec<u32>)
    ensures
        r@ == runs_after_tap(rules@, runs@, key, gap),
{
    let mut out: Vec<u32> = Vec::new();
    for i in 0..rules.len()
        invariant
            out@.len() == i,
            forall|j: int| 0 <= j < i ==> out@[j] == runs_after_tap(rules@, runs@, key, gap)[j],
    {
        let run = if i < runs.len() {
            runs[i]
        } else {
            0
        };
        let next = match rules[i].trigger {
            Trigger::Tap(t) => if t.tap == key {
                let within = match gap {
                    Some(g) => g <= t.within_ms as u64,
                    None => false,
                };
                if within {
                    if run < u32::MAX {
                        run + 1
                    } else {
                        run
                    }
                } else {
                    1
                }
            } else {
                run
            },
            Trigger::Hotkey(_) => run,
        };
        out.push(next);
    }
    assert(out@ =~= runs_after_tap(rules@, runs@, key, gap));
    out
}

/// The stateful matcher: a rule set, the tap state machine, which modifier
/// keys are down, which key codes had their key-down consumed by a rule,
/// and how far each tap rule has come towards its count.
pub struct Matcher {
    rules: RuleSet,
    tap_fsm: TapFsm,
    /// Whether each modifier key is down, keyed by [`KeyCode::ordinal`].
    modifier_state: HashMap<u8, bool>,
    /// Key codes (by ordinal) whose latest key-down a hotkey rule replaced;
    /// their next key-up is swallowed too, so that no application sees a
    /// key-up without its key-down.
    swallowed_downs: HashSet<u8>,
    /// The run of each tap rule, by its position among the tap rules; a
    /// rule past the end has a run of zero.
    tap_runs: Vec<u32>,
}

/// Abstract state of a [`Matcher`].
pub ghost struct MatcherView {
    pub rules: RuleSetView,
    pub fsm: TapFsmView,
    pub modifier_state: Map<u8, bool>,
    pub swallowed: Set<u8>,
    pub runs: Seq<u32>,
}

impl View for Matcher {
    type V = MatcherView;

    closed spec fn view(&self) -> MatcherView {
        MatcherView {
            rules: self.rules@,
            fsm: self.tap_fsm@,
            modifier_state: self.modifier_state@,
            swallowed: self.swallowed_downs@,
            runs: self.tap_runs@,
        }
    }
}

impl MatcherView {
    /// A fresh matcher over `rules`.
    pub open spec fn initial(rules: RuleSetView) -> MatcherView {
        MatcherView {
            rules,
            fsm: TapFsmView::initial(),
            modifier_state: Map::empty(),
            swallowed: Set::empty(),
            runs: Seq::empty(),
        }
    }

    /// Whether the matcher last saw `code` down.
    pub open spec fn was_down(self, code: KeyCode) -> bool {
        self.modifier_state.contains_key(code.ordinal()) && self.modifier_state[code.ordinal()]
    }

    /// True unless `event` would complete a tap whose counter is already at
    /// its maximum.
    pub open spec fn can_dispatch(self, event: KeyEvent) -> bool {
        (event.kind == EventKind::ModifiersChanged && event.code.is_modifier()) ==> self.fsm.can_count(
            event.code,
        )
    }

    /// What dispatching `event` does: the next state and the verdict.
    ///
    /// - A modifier change of a modifier key updates the key's down state
    ///   and feeds the tap machine. A completed tap steps the runs of the
    ///   tap rules for its key (see [`next_run`]), and is replaced by the
    ///   action of the first of them whose run has just reached its count
    ///   and whose scope admits `app`; it passes otherwise.
    /// - A key-down of a non-modifier key ends every tap sequence.
    /// - A key-down is replaced by the action of the first hotkey rule that
    ///   fires; its code is remembered as swallowed.
    /// - A key-up of a remembered code is swallowed, and the code forgotten.
    /// - Everything else passes.
    pub open spec fn dispatch(self, event: KeyEvent, app: Option<Seq<char>>, now: u64) -> (MatcherView, Verdict) {
        let ord = event.code.ordinal();
        if event.kind == EventKind::ModifiersChanged && event.code.is_modifier() {
            let (fsm, tap) = self.fsm.modifier_change(event.code, self.was_down(event.code), event.mods, now);
            let modifier_state = self.modifier_state.insert(ord, key_is_down(event.code, event.mods));
            match tap {
                TapResult::Tapped { key, count: _ } => {
                    let runs = runs_after_tap(self.rules.taps, self.runs, key, fsm.state_of(key).gap);
                    let verdict = match first_tap(self.rules.taps, runs, key, app, 0) {
                        Some(i) => Verdict::Replace(self.rules.taps[i].action),
                        None => Verdict::Pass,
                    };
                    (MatcherView { fsm, modifier_state, runs, ..self }, verdict)
                },
                TapResult::NoTap => (MatcherView { fsm, modifier_state, ..self }, Verdict::Pass),
            }
        } else {
            let fsm = if event.kind == EventKind::KeyDown && !event.code.is_modifier() {
                self.fsm.other_key()
            } else {
                self.fsm
            };
            let s = MatcherView { fsm, ..self };
            let hit = if event.kind == EventKind::KeyDown {
                first_hotkey(self.rules.hotkeys, event, app, 0)
            } else {
                None
            };
            match hit {
                Some(i) => (
                    MatcherView { swallowed: s.swallowed.insert(ord), ..s },
                    Verdict::Replace(self.rules.hotkeys[i].action),
                ),
                None => if event.kind == EventKind::KeyUp && s.swallowed.contains(ord) {
                    (MatcherView { swallowed: s.swallowed.remove(ord), ..s }, Verdict::Swallow)
                } else {
                    (s, Verdict::Pass)
                },
            }
        }
    }
}

impl Matcher {
    /// A matcher over `rules` with no tap, modifier or swallow state.
    pub fn new(rules: RuleSet) -> (r: Matcher)
        ensures
            r@ == MatcherView::initial(rules@),
    {
        Matcher {
            rules,
            tap_fsm: TapFsm::new(),
            modifier_state: HashMap::new(),
            swallowed_downs: HashSet::new(),
            tap_runs: Vec::new(),
        }
    }

    /// Replace the live rule set. Tap state, tap runs and swallow
    /// bookkeeping belong to the old rules and are reset; modifier
    /// down-state is kept.
    pub fn swap_rules(&mut self, new_rules: RuleSet)
        ensures
            final(self)@ == (MatcherView {
                rules: new_rules@,
                fsm: TapFsmView::initial(),
                swallowed: Set::empty(),
                runs: Seq::empty(),
                ..old(self)@
            }),
    {
        self.rules = new_rules;
        self.tap_fsm = TapFsm::new();
        self.swallowed_downs.clear();
        self.tap_runs = Vec::new();
    }

    /// The current rule set.
    pub fn rules(&self) -> (r: &RuleSet)
        ensures
            r@ == self@.rules,
            kinds_sorted(r@),
    {
        proof {
            use_type_invariant(&self.rules);
        }
        &self.rules
    }

    /// Taps of `key` counted so far in its current sequence.
    pub fn tap_count(&self, key: KeyCode) -> (r: u32)
        ensures
            r == self@.fsm.state_of(key).count,
    {
        self.tap_fsm.tap_count(key)
    }

    /// Decide what to do with an incoming event. `focused_app` is the
    /// logical app identifier, or `None` if unknown; `now` is the event time
    /// in milliseconds.
    pub fn dispatch(&mut self, event: KeyEvent, focused_app: Option<&str>, now: u64) -> (r: Verdict)
        requires
            old(self)@.can_dispatch(event),
        ensures
            (final(self)@, r) == old(self)@.dispatch(event, app_view(focused_app), now),
    {
        if event.kind == EventKind::ModifiersChanged && event.code.is_modifier() {
            let ord = event.code.ordinal();
            let was_down = match self.modifier_state.get(&ord) {
                Some(b) => *b,
                None => false,
            };
            let bit = event.code.state_bit();
            let is_down = (event.mods & bit) == bit;
            self.modifier_state.insert(ord, is_down);
            let result = self.tap_fsm.on_modifier_change(event.code, was_down, event.mods, now);
            if let TapResult::Tapped { key, count: _ } = result {
                let gap = self.tap_fsm.last_gap(key);
                self.tap_runs = step_runs(&self.rules.taps, &self.tap_runs, key, gap);
                if let Some(i) = find_tap(&self.rules.taps, &self.tap_runs, key, focused_app) {
                    return Verdict::Replace(self.rules.taps[i].action.clone());
                }
            }
            return Verdict::Pass;
        }
        if event.kind == EventKind::KeyDown && !event.code.is_modifier() {
            self.tap_fsm.on_other_key();
        }
        if event.kind == EventKind::KeyDown {
            if let Some(i) = find_hotkey(&self.rules.hotkeys, event, focused_app) {
                self.swallowed_downs.insert(event.code.ordinal());
                return Verdict::Replace(self.rules.hotkeys[i].action.clone());
            }
        }
        if event.kind == EventKind::KeyUp {
            let ghost before = self.swallowed_downs@;
            if self.swallowed_downs.remove(&event.code.ordinal()) {
                return Verdict::Swallow;
            }
            assert(self.swallowed_downs@ =~= before);
        }
        Verdict::Pass
    }
}

/// The index `first_hotkey` finds holds a rule that fires.
pub proof fn lemma_first_hotkey_fires(rules: Seq<Rule>, evt: KeyEvent, app: Option<Seq<char>>, from: int)
    ensures
        first_hotkey(rules, evt, app, from) matches Some(i) ==> from <= i < rules.len() && hotkey_rule_fires(
            rules[i],
            evt,
            app,
        ),
    decreases rules.len() - from,
{
    if 0 <= from < rules.len() && !hotkey_rule_fires(rules[from], evt, app) {
        lemma_first_hotkey_fires(rules, evt, app, from + 1);
    }
}

/// The index `first_tap` finds holds a rule that fires.
pub proof fn lemma_first_tap_fires(rules: Seq<Rule>, runs: Seq<u32>, key: KeyCode, app: Option<Seq<char>>, from: int)
    ensures
        first_tap(rules, runs, key, app, from) matches Some(i) ==> from <= i < rules.len() && tap_rule_fires(
            rules[i],
            key,
            run_at(runs, i),
            app,
        ),
    decreases rules.len() - from,
{
    if 0 <= from < rules.len() && !tap_rule_fires(rules[from], key, run_at(runs, from), app) {
        lemma_first_tap_fires(rules, runs, key, app, from + 1);
    }
}

/// A clean tap of a modifier whose state a bit carries, pressed with no
/// other modifier held and then released, steps the run of every tap rule for that key:
/// one longer when the release came within the rule's window of the key's
/// previous counted tap, a fresh run of one otherwise. The runs of the
/// other rules stay as they were.
pub proof fn lemma_clean_tap_steps_runs(
    s: MatcherView,
    key: KeyCode,
    down: KeyEvent,
    app: Option<Seq<char>>,
    t_down: u64,
    up: KeyEvent,
    up_app: Option<Seq<char>>,
    t_up: u64,
    i: int,
)
    requires
        key.state_bit()@ != 0,
        !s.was_down(key),
        s.fsm.can_count(key),
        down == (KeyEvent { code: key, kind: EventKind::ModifiersChanged, mods: down.mods }),
        down.mods@ == key.state_bit()@ | key.generic_bit()@,
        up == (KeyEvent { code: key, kind: EventKind::ModifiersChanged, mods: up.mods }),
        up.mods@ & key.state_bit()@ == 0,
        0 <= i < s.rules.taps.len(),
    ensures
        run_at(s.dispatch(down, app, t_down).0.dispatch(up, up_app, t_up).0.runs, i) == match s.rules.taps[i].trigger {
            Trigger::Tap(t) => if t.tap == key {
                next_run(run_at(s.runs, i), elapsed(s.fsm.state_of(key).last_tap_at, t_up), t.within_ms)
            } else {
                run_at(s.runs, i)
            },
            Trigger::Hotkey(_) => run_at(s.runs, i),
        },
{
    lemma_clean_tap_counts(s.fsm, key, down.mods, up.mods, t_down, t_up);
    let b = key.state_bit()@;
    let g = key.generic_bit()@;
    assert((b | g) & b == b) by (bit_vector);
    assert(key.is_modifier());
}

/// A key-down that a rule replaced has its key-up swallowed: the next
/// key-up of the same code is swallowed whatever its modifiers, app and
/// time, and a key-up of that code after it passes again.
pub proof fn lemma_replaced_down_swallows_its_up(
    s: MatcherView,
    down: KeyEvent,
    app: Option<Seq<char>>,
    now: u64,
    up: KeyEvent,
    up_app: Option<Seq<char>>,
    up_now: u64,
    again: KeyEvent,
    again_app: Option<Seq<char>>,
    again_now: u64,
)
    requires
        down.kind == EventKind::KeyDown,
        s.dispatch(down, app, now).1 is Replace,
        up.kind == EventKind::KeyUp,
        up.code == down.code,
        again.kind == EventKind::KeyUp,
        again.code == down.code,
    ensures
        s.dispatch(down, app, now).0.dispatch(up, up_app, up_now).1 is Swallow,
        s.dispatch(down, app, now).0.dispatch(up, up_app, up_now).0.dispatch(again, again_app, again_now).1 is Pass,
{
}

/// A key-down that no rule replaces passes, and so does its key-up, unless
/// an earlier replaced key-down of the same code is still awaiting its
/// key-up.
pub proof fn lemma_unmatched_down_and_up_pass(
    s: MatcherView,
    down: KeyEvent,
    app: Option<Seq<char>>,
    now: u64,
    up: KeyEvent,
    up_app: Option<Seq<char>>,
    up_now: u64,
)
    requires
        down.kind == EventKind::KeyDown,
        first_hotkey(s.rules.hotkeys, down, app, 0) is None,
        !s.swallowed.contains(down.code.ordinal()),
        up.kind == EventKind::KeyUp,
        up.code == down.code,
    ensures
        s.dispatch(down, app, now).1 is Pass,
        s.dispatch(down, app, now).0.dispatch(up, up_app, up_now).1 is Pass,
{
}

/// What each verdict can be: only a key-up is swallowed, and only one
/// whose code is awaiting its key-up; a key-up is never replaced; a
/// replacement is the action of a rule of the set that fires on the event
/// (a hotkey rule for a key-down, a tap rule for a modifier change).
pub proof fn lemma_verdict_shapes(s: MatcherView, event: KeyEvent, app: Option<Seq<char>>, now: u64)
    ensures
        s.dispatch(event, app, now).1 is Swallow ==> event.kind == EventKind::KeyUp && s.swallowed.contains(
            event.code.ordinal(),
        ),
        event.kind == EventKind::KeyUp ==> !(s.dispatch(event, app, now).1 is Replace),
        s.dispatch(event, app, now).1 matches Verdict::Replace(a) ==> {
            ||| (event.kind == EventKind::KeyDown && exists|i: int|
                0 <= i < s.rules.hotkeys.len() && (#[trigger] s.rules.hotkeys[i]).action == a && hotkey_rule_fires(
                    s.rules.hotkeys[i],
                    event,
                    app,
                ))
            ||| (event.kind == EventKind::ModifiersChanged && exists|i: int|
                0 <= i < s.rules.taps.len() && (#[trigger] s.rules.taps[i]).action == a)
        },
{
    lemma_first_hotkey_fires(s.rules.hotkeys, event, app, 0);
    if event.kind == EventKind::ModifiersChanged && event.code.is_modifier() {
        let (fsm, tap) = s.fsm.modifier_change(event.code, s.was_down(event.code), event.mods, now);
        if let TapResult::Tapped { key, count: _ } = tap {
            let runs = runs_after_tap(s.rules.taps, s.runs, key, fsm.state_of(key).gap);
            lemma_first_tap_fires(s.rules.taps, runs, key, app, 0);
            if let Some(i) = first_tap(s.rules.taps, runs, key, app, 0) {
                let witness = s.rules.taps[i];
            }
        }
    } else if event.kind == EventKind::KeyDown {
        if let Some(i) = first_hotkey(s.rules.hotkeys, event, app, 0) {
            let witness = s.rules.hotkeys[i];
        }
    }
}

/// A matcher without rules passes every event and never starts awaiting a
/// key-up; its rules stay as they are.
pub proof fn lemma_no_rules_pass_everything(s: MatcherView, event: KeyEvent, app: Option<Seq<char>>, now: u64)
    requires
        s.rules.hotkeys.len() == 0,
        s.rules.taps.len() == 0,
        s.swallowed.is_empty(),
    ensures
        s.dispatch(event, app, now).1 is Pass,
        s.dispatch(event, app, now).0.swallowed.is_empty(),
        s.dispatch(event, app, now).0.rules == s.rules,
{
    let ord = event.code.ordinal();
    assert(!s.swallowed.contains(ord));
}

/// A key-down of a non-modifier key ends every tap sequence.
pub proof fn lemma_other_key_down_clears_taps(s: MatcherView, event: KeyEvent, app: Option<Seq<char>>, now: u64)
    requires
        event.kind == EventKind::KeyDown,
        !event.code.is_modifier(),
    ensures
        s.dispatch(event, app, now).0.fsm.states == Map::<u8, crate::tap_fsm::TapState>::empty(),
{
}

/// Dispatching never changes the rule set: only a reload replaces it.
pub proof fn lemma_dispatch_keeps_rules(s: MatcherView, event: KeyEvent, app: Option<Seq<char>>, now: u64)
    ensures
        s.dispatch(event, app, now).0.rules == s.rules,
{
}

proof fn lemma_no_hotkey_among_taps(taps: Seq<Rule>, all: Seq<Rule>, offset: int, evt: KeyEvent, app: Option<Seq<char>>, from: int)
    requires
        0 <= offset <= from,
        all.len() == offset + taps.len(),
        forall|i: int| 0 <= i < taps.len() ==> all[offset + i] == taps[i],
        forall|i: int| 0 <= i < taps.len() ==> is_tap_rule(#[trigger] taps[i]),
    ensures
        first_hotkey(all, evt, app, from) is None,
    decreases all.len() - from,
{
    if from < all.len() {
        assert(all[from] == taps[from - offset]);
        assert(is_tap_rule(taps[from - offset]));
        lemma_no_hotkey_among_taps(taps, all, offset, evt, app, from + 1);
    }
}

proof fn lemma_first_hotkey_prefix(v: RuleSetView, evt: KeyEvent, app: Option<Seq<char>>, from: int)
    requires
        kinds_sorted(v),
        0 <= from <= v.hotkeys.len(),
    ensures
        first_hotkey(v.hotkeys + v.taps, evt, app, from) == first_hotkey(v.hotkeys, evt, app, from),
    decreases v.hotkeys.len() - from,
{
    let all = v.hotkeys + v.taps;
    if from < v.hotkeys.len() {
        assert(all[from] == v.hotkeys[from]);
        lemma_first_hotkey_prefix(v, evt, app, from + 1);
    } else {
        assert forall|i: int| 0 <= i < v.taps.len() implies all[v.hotkeys.len() + i] == v.taps[i] by {}
        lemma_no_hotkey_among_taps(v.taps, all, v.hotkeys.len() as int, evt, app, from);
    }
}

/// A key-down is replaced by the action of the first rule, in the order
/// [`RuleSet::iter`] gives all rules, that is a hotkey rule firing on it in
/// `app`, and passes if there is none; the rules stay as they are.
pub proof fn lemma_key_down_takes_first_rule_in_order(s: MatcherView, event: KeyEvent, app: Option<Seq<char>>, now: u64)
    requires
        kinds_sorted(s.rules),
        event.kind == EventKind::KeyDown,
    ensures
        s.dispatch(event, app, now).1 == match first_hotkey(s.rules.hotkeys + s.rules.taps, event, app, 0) {
            Some(i) => Verdict::Replace((s.rules.hotkeys + s.rules.taps)[i].action),
            None => Verdict::Pass,
        },
        s.dispatch(event, app, now).0.rules == s.rules,
{
    lemma_first_hotkey_prefix(s.rules, event, app, 0);
    lemma_first_hotkey_fires(s.rules.hotkeys, event, app, 0);
}

/// One input to a matcher: an event, the focused app, and the time.
pub ghost struct Dispatched {
    pub event: KeyEvent,
    pub app: Option<Seq<char>>,
    pub now: u64,
}

/// Dispatching `inputs` in order from `s`: the final state and the verdict
/// of each input.
pub open spec fn run_from(s: MatcherView, inputs: Seq<Dispatched>) -> (MatcherView, Seq<Verdict>)
    decreases inputs.len(),
{
    if inputs.len() == 0 {
        (s, Seq::empty())
    } else {
        let (m, vs) = run_from(s, inputs.drop_last());
        let d = inputs.last();
        let (n, v) = m.dispatch(d.event, d.app, d.now);
        (n, vs.push(v))
    }
}

/// True if two matcher states differ at most in how they record modifier
/// keys that are up.
pub open spec fn same_but_released(a: MatcherView, b: MatcherView) -> bool {
    &&& a.rules == b.rules
    &&& a.fsm == b.fsm
    &&& a.swallowed == b.swallowed
    &&& a.runs == b.runs
    &&& forall|c: KeyCode| #[trigger] a.was_down(c) == b.was_down(c)
}

proof fn lemma_step_same_but_released(a: MatcherView, b: MatcherView, d: Dispatched)
    requires
        same_but_released(a, b),
    ensures
        a.dispatch(d.event, d.app, d.now).1 == b.dispatch(d.event, d.app, d.now).1,
        same_but_released(a.dispatch(d.event, d.app, d.now).0, b.dispatch(d.event, d.app, d.now).0),
{
    let e = d.event;
    assert(a.was_down(e.code) == b.was_down(e.code));
    let na = a.dispatch(e, d.app, d.now).0;
    let nb = b.dispatch(e, d.app, d.now).0;
    assert forall|c: KeyCode| #[trigger] na.was_down(c) == nb.was_down(c) by {
        assert(a.was_down(c) == b.was_down(c));
    }
}

proof fn lemma_run_same_but_released(a: MatcherView, b: MatcherView, inputs: Seq<Dispatched>)
    requires
        same_but_released(a, b),
    ensures
        run_from(a, inputs).1 == run_from(b, inputs).1,
        same_but_released(run_from(a, inputs).0, run_from(b, inputs).0),
    decreases inputs.len(),
{
    if inputs.len() > 0 {
        lemma_run_same_but_released(a, b, inputs.drop_last());
        lemma_step_same_but_released(run_from(a, inputs.drop_last()).0, run_from(b, inputs.drop_last()).0, inputs.last());
    }
}

/// With no modifier key held, swapping in a rule set leaves the matcher
/// answering every later sequence of events exactly as a fresh matcher over
/// that rule set would.
pub proof fn lemma_swap_acts_as_fresh(s: MatcherView, rules: RuleSetView, inputs: Seq<Dispatched>)
    requires
        forall|c: KeyCode| !#[trigger] s.was_down(c),
    ensures
        run_from(
            MatcherView { rules, fsm: TapFsmView::initial(), swallowed: Set::empty(), runs: Seq::empty(), ..s },
            inputs,
        ).1 == run_from(MatcherView::initial(rules), inputs).1,
{
    let swapped = MatcherView { rules, fsm: TapFsmView::initial(), swallowed: Set::empty(), runs: Seq::empty(), ..s };
    let fresh = MatcherView::initial(rules);
    assert forall|c: KeyCode| #[trigger] swapped.was_down(c) == fresh.was_down(c) by {
        assert(!s.was_down(c));
    }
    lemma_run_same_but_released(swapped, fresh, inputs);
}

/// True if input `i` was a key-down of the code with ordinal `ord` that a
/// rule replaced, and no later input released that code.
pub open spec fn replaced_down_at(inputs: Seq<Dispatched>, verdicts: Seq<Verdict>, ord: u8, i: int) -> bool {
    &&& 0 <= i < inputs.len()
    &&& inputs[i].event.kind == EventKind::KeyDown
    &&& inputs[i].event.code.ordinal() == ord
    &&& verdicts[i] is Replace
    &&& forall|j: int|
        i < j < inputs.len() ==> !(#[trigger] inputs[j].event.kind == EventKind::KeyUp && inputs[j].event.code.ordinal()
            == ord)
}

/// True if some replaced key-down of the code with ordinal `ord` in the
/// history is still waiting for its release.
pub open spec fn awaits_release(inputs: Seq<Dispatched>, verdicts: Seq<Verdict>, ord: u8) -> bool {
    exists|i: int| #[trigger] replaced_down_at(inputs, verdicts, ord, i)
}

proof fn lemma_swallowed_tracks_history(s: MatcherView, inputs: Seq<Dispatched>)
    requires
        s.swallowed.is_empty(),
    ensures
        run_from(s, inputs).1.len() == inputs.len(),
        forall|ord: u8|
            #![trigger run_from(s, inputs).0.swallowed.contains(ord)]
            run_from(s, inputs).0.swallowed.contains(ord) <==> awaits_release(inputs, run_from(s, inputs).1, ord),
    decreases inputs.len(),
{
    if inputs.len() > 0 {
        let prev = inputs.drop_last();
        lemma_swallowed_tracks_history(s, prev);
        let (m, vs) = run_from(s, prev);
        let d = inputs.last();
        let e = d.event;
        let (n, v) = m.dispatch(e, d.app, d.now);
        let vs2 = vs.push(v);
        assert(run_from(s, inputs) == (n, vs2));
        let last = inputs.len() - 1;
        assert forall|ord: u8| #![trigger n.swallowed.contains(ord)] n.swallowed.contains(ord) <==> awaits_release(
            inputs,
            vs2,
            ord,
        ) by {
            // Witnesses in the shorter history stay witnesses unless the new
            // input releases their code.
            if awaits_release(prev, vs, ord) {
                let i = choose|i: int| #[trigger] replaced_down_at(prev, vs, ord, i);
                if !(e.kind == EventKind::KeyUp && e.code.ordinal() == ord) {
                    assert(prev[i] == inputs[i]);
                    assert(vs2[i] == vs[i]);
                    assert forall|j: int| i < j < inputs.len() implies !(#[trigger] inputs[j].event.kind
                        == EventKind::KeyUp && inputs[j].event.code.ordinal() == ord) by {
                        if j < last {
                            assert(inputs[j] == prev[j]);
                        }
                    }
                    assert(replaced_down_at(inputs, vs2, ord, i));
                }
            }
            if awaits_release(inputs, vs2, ord) {
                let i = choose|i: int| #[trigger] replaced_down_at(inputs, vs2, ord, i);
                if i < last {
                    assert(prev[i] == inputs[i]);
                    assert(vs2[i] == vs[i]);
                    assert forall|j: int| i < j < prev.len() implies !(#[trigger] prev[j].event.kind
                        == EventKind::KeyUp && prev[j].event.code.ordinal() == ord) by {
                        assert(inputs[j] == prev[j]);
                    }
                    assert(replaced_down_at(prev, vs, ord, i));
                    assert(!(e.kind == EventKind::KeyUp && e.code.ordinal() == ord));
                }
            }
            if e.kind == EventKind::KeyDown && e.code.ordinal() == ord && v is Replace {
                assert(replaced_down_at(inputs, vs2, ord, last));
            }
        }
    }
}

/// A key-up is swallowed exactly when an earlier key-down of the same code,
/// since the matcher was created or its rules swapped, was replaced by a
/// rule and no key-up of that code came in between; every other key-up
/// passes.
pub proof fn lemma_key_up_swallowed_iff_awaited(s: MatcherView, inputs: Seq<Dispatched>, up: Dispatched)
    requires
        s.swallowed.is_empty(),
        up.event.kind == EventKind::KeyUp,
    ensures
        run_from(s, inputs.push(up)).1.last() == if awaits_release(
            inputs,
            run_from(s, inputs).1,
            up.event.code.ordinal(),
        ) {
            Verdict::Swallow
        } else {
            Verdict::Pass
        },
{
    lemma_swallowed_tracks_history(s, inputs);
    assert(inputs.push(up).drop_last() =~= inputs);
    let m = run_from(s, inputs).0;
    assert(m.swallowed.contains(up.event.code.ordinal()) == awaits_release(
        inputs,
        run_from(s, inputs).1,
        up.event.code.ordinal(),
    ));
}

/// True if a rule scoped to `list`, if any, may fire with `app` focused:
/// unscoped rules always may, scoped ones only with a known app whose
/// identifier is one of the list's entries.
pub open spec fn in_scope(list: Option<Vec<String>>, app: Option<Seq<char>>) -> bool {
    match list {
        None => true,
        Some(l) => app matches Some(a) && exists|k: int| 0 <= k < l@.len() && (#[trigger] l@[k])@ == a,
    }
}

/// How one completed tap of `key`, released `gap` after the key's previous
/// counted tap, moves the run of a tap rule `t` for `key`: it grows by one
/// (staying at the maximum there) when the gap is within the rule's
/// window, and starts again at one when it exceeds it or there was no
/// previous tap.
pub proof fn lemma_run_of_a_rule_for_the_key(
    rules: Seq<Rule>,
    runs: Seq<u32>,
    key: KeyCode,
    gap: Option<u64>,
    i: int,
    t: TapTrigger,
)
    requires
        0 <= i < rules.len(),
        rules[i].trigger == Trigger::Tap(t),
        t.tap == key,
    ensures
        runs_after_tap(rules, runs, key, gap).len() == rules.len(),
        (gap matches Some(g) && g <= t.within_ms && run_at(runs, i) < u32::MAX) ==> runs_after_tap(
            rules,
            runs,
            key,
            gap,
        )[i] == run_at(runs, i) + 1,
        (gap matches Some(g) && g <= t.within_ms && run_at(runs, i) == u32::MAX) ==> runs_after_tap(
            rules,
            runs,
            key,
            gap,
        )[i] == u32::MAX,
        !(gap matches Some(g) && g <= t.within_ms) ==> runs_after_tap(rules, runs, key, gap)[i] == 1,
{
}

/// A completed tap of `key` leaves the run of every rule that is not a tap
/// rule for `key` as it was.
pub proof fn lemma_other_rules_keep_their_runs(rules: Seq<Rule>, runs: Seq<u32>, key: KeyCode, gap: Option<u64>, i: int)
    requires
        0 <= i < rules.len(),
        !(rules[i].trigger matches Trigger::Tap(t) && t.tap == key),
    ensures
        runs_after_tap(rules, runs, key, gap)[i] == run_at(runs, i),
{
}

proof fn lemma_first_hotkey_some(rules: Seq<Rule>, evt: KeyEvent, app: Option<Seq<char>>, from: int, i: int)
    requires
        0 <= from <= i < rules.len(),
        hotkey_rule_fires(rules[i], evt, app),
    ensures
        first_hotkey(rules, evt, app, from) is Some,
    decreases i - from,
{
    if !hotkey_rule_fires(rules[from], evt, app) {
        lemma_first_hotkey_some(rules, evt, app, from + 1, i);
    }
}

proof fn lemma_first_tap_some(rules: Seq<Rule>, runs: Seq<u32>, key: KeyCode, app: Option<Seq<char>>, from: int, i: int)
    requires
        0 <= from <= i < rules.len(),
        tap_rule_fires(rules[i], key, run_at(runs, i), app),
    ensures
        first_tap(rules, runs, key, app, from) is Some,
    decreases i - from,
{
    if !tap_rule_fires(rules[from], key, run_at(runs, from), app) {
        lemma_first_tap_some(rules, runs, key, app, from + 1, i);
    }
}

/// A key-down is replaced only by the action of a hotkey rule on its key
/// whose every required modifier bit, side-specific bits included, is held
/// in the event and whose scope admits the focused app; and a key-down
/// for which some hotkey rule is such a rule is always replaced.
pub proof fn lemma_hotkey_needs_every_required_bit(s: MatcherView, event: KeyEvent, app: Option<Seq<char>>, now: u64)
    requires
        event.kind == EventKind::KeyDown,
    ensures
        s.dispatch(event, app, now).1 matches Verdict::Replace(a) ==> exists|i: int|
            0 <= i < s.rules.hotkeys.len() && (#[trigger] s.rules.hotkeys[i]).action == a && (
            s.rules.hotkeys[i].trigger matches Trigger::Hotkey(h) && h.key == event.code && event.mods@ & h.mods@
                == h.mods@) && in_scope(s.rules.hotkeys[i].when_app_in, app),
        (exists|i: int|
            0 <= i < s.rules.hotkeys.len() && in_scope((#[trigger] s.rules.hotkeys[i]).when_app_in, app) && (
            s.rules.hotkeys[i].trigger matches Trigger::Hotkey(h) && h.key == event.code && event.mods@ & h.mods@
                == h.mods@)) ==> s.dispatch(event, app, now).1 is Replace,
{
    lemma_first_hotkey_fires(s.rules.hotkeys, event, app, 0);
    if let Some(i) = first_hotkey(s.rules.hotkeys, event, app, 0) {
        let witness = s.rules.hotkeys[i];
    }
    if exists|i: int|
        0 <= i < s.rules.hotkeys.len() && in_scope((#[trigger] s.rules.hotkeys[i]).when_app_in, app) && (
        s.rules.hotkeys[i].trigger matches Trigger::Hotkey(h) && h.key == event.code && event.mods@ & h.mods@
            == h.mods@) {
        let i = choose|i: int|
            0 <= i < s.rules.hotkeys.len() && in_scope((#[trigger] s.rules.hotkeys[i]).when_app_in, app) && (
            s.rules.hotkeys[i].trigger matches Trigger::Hotkey(h) && h.key == event.code && event.mods@ & h.mods@
                == h.mods@);
        lemma_first_hotkey_some(s.rules.hotkeys, event, app, 0, i);
    }
}

/// A modifier change is replaced only by the action of a tap rule on that
/// modifier whose run, after this tap, equals its count exactly; and when
/// the change completes a tap, a tap rule on that modifier whose run now
/// equals its count and whose scope admits the focused app gets it
/// replaced. The rule that fires also has a scope admitting the app.
pub proof fn lemma_tap_fires_only_at_its_count(s: MatcherView, event: KeyEvent, app: Option<Seq<char>>, now: u64)
    requires
        event.kind == EventKind::ModifiersChanged,
    ensures
        s.dispatch(event, app, now).1 matches Verdict::Replace(a) ==> exists|i: int|
            0 <= i < s.rules.taps.len() && (#[trigger] s.rules.taps[i]).action == a && (
            s.rules.taps[i].trigger matches Trigger::Tap(t) && t.tap == event.code && t.count == run_at(
                s.dispatch(event, app, now).0.runs,
                i,
            )) && in_scope(s.rules.taps[i].when_app_in, app),
        (event.code.is_modifier() && s.fsm.modifier_change(event.code, s.was_down(event.code), event.mods, now).1 is Tapped
            && exists|i: int|
            0 <= i < s.rules.taps.len() && in_scope((#[trigger] s.rules.taps[i]).when_app_in, app) && (
            s.rules.taps[i].trigger matches Trigger::Tap(t) && t.tap == event.code && t.count == run_at(
                s.dispatch(event, app, now).0.runs,
                i,
            ))) ==> s.dispatch(event, app, now).1 is Replace,
{
    if event.code.is_modifier() {
        let (fsm, tap) = s.fsm.modifier_change(event.code, s.was_down(event.code), event.mods, now);
        if let TapResult::Tapped { key, count: _ } = tap {
            let runs = runs_after_tap(s.rules.taps, s.runs, key, fsm.state_of(key).gap);
            lemma_first_tap_fires(s.rules.taps, runs, key, app, 0);
            if let Some(i) = first_tap(s.rules.taps, runs, key, app, 0) {
                let witness = s.rules.taps[i];
            }
            if exists|i: int|
                0 <= i < s.rules.taps.len() && in_scope((#[trigger] s.rules.taps[i]).when_app_in, app) && (
                s.rules.taps[i].trigger matches Trigger::Tap(t) && t.tap == event.code && t.count == run_at(runs, i)) {
                let i = choose|i: int|
                    0 <= i < s.rules.taps.len() && in_scope((#[trigger] s.rules.taps[i]).when_app_in, app) && (
                    s.rules.taps[i].trigger matches Trigger::Tap(t) && t.tap == event.code && t.count == run_at(
                        runs,
                        i,
                    ));
                lemma_first_tap_some(s.rules.taps, runs, key, app, 0, i);
            }
        }
    }
}

} // verus!
