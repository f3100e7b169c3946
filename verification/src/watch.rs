//! Which file-system notifications ask for a configuration reload, and
//! when: notifications are debounced so that one save reloads once.

use vstd::prelude::*;

use crate::text::str_eq;

verus! {

/// The kind of change a file-system notification reports.
#[derive(Debug, Clone, Copy, PartialEq, Eq, Structural)]
pub enum ChangeKind {
    Create,
    Modify,
    Remove,
    /// Access, pure metadata changes and anything else that does not imply
    /// a rewrite.
    Other,
}

/// True if one of `names` is `target`.
pub open spec fn names_target(names: Seq<Option<String>>, target: Seq<char>) -> bool {
    exists|i: int| 0 <= i < names.len() && (#[trigger] names[i] matches Some(n) && n@ == target)
}

/// True if a notification of `kind` about paths with the file names
/// `file_names` (`None` for a path without one) concerns the file named
/// `target`: it must create, modify or remove, and one of its paths must
/// end in `target`.
pub fn event_matches(kind: ChangeKind, file_names: &Vec<Option<String>>, target: &str) -> (r: bool)
    ensures
        r == (kind != ChangeKind::Other && names_target(file_names@, target@)),
{
    if kind == ChangeKind::Other {
        return false;
    }
    let mut i: usize = 0;
    while i < file_names.len()
        invariant
            0 <= i <= file_names@.len(),
            kind != ChangeKind::Other,
            forall|j: int| 0 <= j < i ==> !(#[trigger] file_names@[j] matches Some(n) && n@ == target@),
        decreases file_names@.len() - i,
    {
        let hit = match &file_names[i] {
            Some(n) => str_eq(n.as_str(), target),
            None => false,
        };
        if hit {
            assert(file_names@[i as int] matches Some(n) && n@ == target@);
            return true;
        }
        i = i + 1;
    }
    false
}

/// Milliseconds a matching notification waits for the rest of a save
/// before the reload.
pub const DEBOUNCE_MS: u64 = 250;

/// What the watcher saw since its last step.
#[derive(Debug, Clone, Copy, PartialEq, Eq, Structural)]
pub enum WatchInput {
    /// A notification arrived at `now_ms`; `matches` tells whether it
    /// concerns the configuration file (see [`event_matches`]).
    Notified { matches: bool, now_ms: u64 },
    /// Nothing arrived; it is now `now_ms`.
    Quiet { now_ms: u64 },
}

/// What the watcher does next.
#[derive(Debug, Clone, Copy, PartialEq, Eq, Structural)]
pub enum WatchStep {
    /// Wait for the next notification.
    Wait,
    /// Wait for notifications until the given time, then step again.
    WaitUntil(u64),
    /// Reload the configuration now.
    Reload,
}

/// The time an input was seen.
pub open spec fn input_time(input: WatchInput) -> u64 {
    match input {
        WatchInput::Notified { now_ms, .. } => now_ms,
        WatchInput::Quiet { now_ms } => now_ms,
    }
}

/// When a reload that a matching notification at `t` starts falls due.
pub open spec fn deadline_after(t: u64) -> u64 {
    if t <= u64::MAX - DEBOUNCE_MS {
        (t + DEBOUNCE_MS) as u64
    } else {
        u64::MAX
    }
}

/// One debounce step from the pending reload deadline, if any:
/// - idle, a matching notification at `t` sets the deadline `t + 250`;
/// - idle, anything else leaves it idle;
/// - pending until `d`, any input before `d` keeps waiting for `d`;
/// - pending until `d`, any input at or after `d` reloads and goes idle.
pub open spec fn debounce_spec(pending: Option<u64>, input: WatchInput) -> (Option<u64>, WatchStep) {
    match pending {
        Some(d) => if input_time(input) < d {
            (Some(d), WatchStep::WaitUntil(d))
        } else {
            (None, WatchStep::Reload)
        },
        None => match input {
            WatchInput::Notified { matches: true, now_ms } => (
                Some(deadline_after(now_ms)),
                WatchStep::WaitUntil(deadline_after(now_ms)),
            ),
            _ => (None, WatchStep::Wait),
        },
    }
}

/// Take one debounce step.
pub fn debounce_step(pending: Option<u64>, input: WatchInput) -> (r: (Option<u64>, WatchStep))
    ensures
        r == debounce_spec(pending, input),
{
    let now = match input {
        WatchInput::Notified { now_ms, .. } => now_ms,
        WatchInput::Quiet { now_ms } => now_ms,
    };
    match pending {
        Some(d) => {
            if now < d {
                (Some(d), WatchStep::WaitUntil(d))
            } else {
                (None, WatchStep::Reload)
            }
        },
        None => match input {
            WatchInput::Notified { matches: true, now_ms } => {
                let due = if now_ms <= u64::MAX - DEBOUNCE_MS {
                    now_ms + DEBOUNCE_MS
                } else {
                    u64::MAX
                };
                (Some(due), WatchStep::WaitUntil(due))
            },
            _ => (None, WatchStep::Wait),
        },
    }
}

/// The steps a run of inputs gives, from a pending deadline, and the
/// deadline after them.
pub open spec fn debounce_run(pending: Option<u64>, inputs: Seq<WatchInput>) -> (Option<u64>, Seq<WatchStep>)
    decreases inputs.len(),
{
    if inputs.len() == 0 {
        (pending, Seq::empty())
    } else {
        let (next, step) = debounce_spec(pending, inputs[0]);
        let (last, rest) = debounce_run(next, inputs.drop_first());
        (last, seq![step] + rest)
    }
}

/// One save reloads once: once a matching notification set the deadline
/// `d`, every input before `d` (matching or not) only keeps waiting for
/// `d`, and the first input at or after `d` reloads and leaves the watcher
/// idle.
pub proof fn lemma_burst_reloads_once(d: u64, burst: Seq<WatchInput>, late: WatchInput)
    requires
        forall|i: int| 0 <= i < burst.len() ==> input_time(#[trigger] burst[i]) < d,
        input_time(late) >= d,
    ensures
        debounce_run(Some(d), burst) == (Some(d), Seq::new(burst.len(), |i: int| WatchStep::WaitUntil(d))),
        debounce_run(Some(d), burst.push(late)) == (
            None::<u64>,
            Seq::new(burst.len(), |i: int| WatchStep::WaitUntil(d)).push(WatchStep::Reload),
        ),
    decreases burst.len(),
{
    if burst.len() == 0 {
        assert(burst.push(late).drop_first() =~= Seq::<WatchInput>::empty());
        assert(burst.push(late)[0] == late);
        assert(debounce_run(None, Seq::<WatchInput>::empty()) == (None::<u64>, Seq::<WatchStep>::empty()));
        assert(Seq::new(0, |i: int| WatchStep::WaitUntil(d)).push(WatchStep::Reload) =~= seq![WatchStep::Reload]);
        assert(Seq::new(burst.len(), |i: int| WatchStep::WaitUntil(d)) =~= Seq::<WatchStep>::empty());
    } else {
        let rest = burst.drop_first();
        assert forall|i: int| 0 <= i < rest.len() implies input_time(#[trigger] rest[i]) < d by {
            assert(rest[i] == burst[i + 1]);
        }
        lemma_burst_reloads_once(d, rest, late);
        assert(burst.push(late).drop_first() =~= rest.push(late));
        assert(burst.push(late)[0] == burst[0]);
        assert(Seq::new(burst.len(), |i: int| WatchStep::WaitUntil(d)) =~= seq![WatchStep::WaitUntil(d)] + Seq::new(
            rest.len(),
            |i: int| WatchStep::WaitUntil(d),
        ));
        assert(Seq::new(burst.len(), |i: int| WatchStep::WaitUntil(d)).push(WatchStep::Reload) =~= seq![
            WatchStep::WaitUntil(d),
        ] + Seq::new(rest.len(), |i: int| WatchStep::WaitUntil(d)).push(WatchStep::Reload));
    }
}

} // verus!
