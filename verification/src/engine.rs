//! The timer lifecycle engine: a state machine that alternates work and
//! break phases forever, counting down minute by minute.
//!
//! The engine never performs a sleep or touches a notification itself.
//! Each call to [`Engine::step`] returns the next [`Action`] for a driver to
//! perform, so the whole unbounded behaviour is captured, step by step, by
//! the spec functions [`emit_kind`], [`emit_value`] and [`emit_is_show`]:
//! the `t`-th action of an engine started with `n` work minutes is fully
//! determined by `n` and `t`.

use vstd::arithmetic::div_mod::lemma_fundamental_div_mod;
use vstd::arithmetic::div_mod::lemma_fundamental_div_mod_converse;
use vstd::arithmetic::div_mod::lemma_mod_add_multiples_vanish;
use vstd::arithmetic::div_mod::lemma_mod_bound;
use vstd::arithmetic::div_mod::lemma_small_mod;
use vstd::prelude::*;

use crate::phase::BREAK_MINUTES;
use crate::phase::Phase;
use crate::phase::PhaseKind;
use crate::phase::duration_of;
use crate::phase::next_kind;
use crate::phase::next_phase_kind;
use crate::phase::title_spec;
use crate::phase::title_str;
use crate::text::body_text;
use crate::text::body_text_spec;

verus! {

/// One notification-sink operation that the driver running an engine must
/// perform next.
pub enum Action {
    /// Create a fresh notification with this title and body and show it.
    /// Opens a phase; performed immediately, with no preceding delay.
    Show { title: String, body: String },
    /// Sleep one minute, then rewrite the body of the currently shown
    /// notification to `body` and push the update.
    SleepUpdate { body: String },
}

/// Number of actions in one full work-plus-break cycle: a phase of duration
/// `d` takes `d + 1` actions (one show, then `d` updates), so a cycle takes
/// `(n + 1) + (BREAK_MINUTES + 1)`.
pub open spec fn cycle_len(n: nat) -> nat {
    n + 4
}

/// The phase kind of the `t`-th action of an engine started with `n` work
/// minutes. Indices `0 ..= n` of each cycle belong to the work phase, the
/// remaining three to the break phase.
pub open spec fn emit_kind(n: nat, t: nat) -> PhaseKind {
    if t % cycle_len(n) <= n {
        PhaseKind::Work
    } else {
        PhaseKind::Break
    }
}

/// The minutes-left value reported by the `t`-th action: it counts down from
/// the phase duration to zero within each phase.
pub open spec fn emit_value(n: nat, t: nat) -> nat {
    let r = t % cycle_len(n);
    if r <= n {
        (n - r) as nat
    } else {
        (n + 3 - r) as nat
    }
}

/// Whether the `t`-th action opens a phase (a fresh show) rather than
/// updating the one already on screen.
pub open spec fn emit_is_show(n: nat, t: nat) -> bool {
    let r = t % cycle_len(n);
    r == 0 || r == n + 1
}

/// What the `t`-th action of an engine started with `n` work minutes must
/// be: a show exactly at phase openings, with the title of the current
/// phase, and always the countdown body for the current minutes-left value.
pub open spec fn action_is(a: Action, n: nat, t: nat) -> bool {
    match a {
        Action::Show { title, body } => {
            &&& emit_is_show(n, t)
            &&& title@ == title_spec(emit_kind(n, t))
            &&& body@ == body_text_spec(emit_value(n, t))
        },
        Action::SleepUpdate { body } => {
            &&& !emit_is_show(n, t)
            &&& body@ == body_text_spec(emit_value(n, t))
        },
    }
}

/// Run-time state of one spawned timer cycle. Each engine instance is
/// exclusively owned by the execution that drives it; instances share
/// nothing.
pub struct Engine {
    /// The caller-supplied work duration; stable across cycles.
    pub work_minutes: u64,
    /// The kind of the phase currently on screen (or about to open).
    pub kind: PhaseKind,
    /// The minutes-left value most recently emitted for the current phase
    /// (or, before the first action, the full duration about to be shown).
    pub remaining: u64,
    /// Whether the current phase's notification has been shown yet; false
    /// only before the very first action.
    pub shown: bool,
    /// Number of actions emitted so far.
    pub steps: Ghost<nat>,
}

impl Engine {
    /// The engine's state is exactly what the closed-form action trace
    /// prescribes after `steps` actions: before the first action it is at
    /// the opening of the work phase, and afterwards it records the phase
    /// kind and the value of the action last emitted.
    pub open spec fn wf(self) -> bool {
        let n = self.work_minutes as nat;
        let t = self.steps@;
        if t == 0 {
            &&& self.kind == PhaseKind::Work
            &&& self.remaining as nat == n
            &&& !self.shown
        } else {
            &&& self.shown
            &&& self.kind == emit_kind(n, (t - 1) as nat)
            &&& self.remaining as nat == emit_value(n, (t - 1) as nat)
        }
    }

    /// Creates a fresh engine for a requested work duration of `minutes`.
    ///
    /// No validation is performed: `minutes == 0` is accepted, and the
    /// zero-duration work phase completes instantly after a single
    /// "0 minutes left" show.
    pub fn new(minutes: u64) -> (e: Engine)
        ensures
            e.wf(),
            e.work_minutes == minutes,
            e.steps@ == 0,
    {
        Engine {
            work_minutes: minutes,
            kind: PhaseKind::Work,
            remaining: minutes,
            shown: false,
            steps: Ghost(0nat),
        }
    }

    /// Advances the engine by one action and returns it. The returned
    /// action is exactly the one the closed-form trace prescribes at the
    /// engine's current step index, so the engine's unbounded behaviour is
    /// pinned down action by action.
    pub fn step(&mut self) -> (a: Action)
        requires
            old(self).wf(),
        ensures
            final(self).wf(),
            final(self).work_minutes == old(self).work_minutes,
            final(self).steps@ == old(self).steps@ + 1,
            action_is(a, old(self).work_minutes as nat, old(self).steps@),
    {
        let ghost n = self.work_minutes as nat;
        let ghost t = self.steps@;
        if !self.shown {
            // Only possible before the first action: open the work phase.
            self.shown = true;
            self.steps = Ghost(t + 1);
            let title = String::from_str(title_str(self.kind));
            let body = body_text(self.remaining);
            proof {
                lemma_small_mod(0, cycle_len(n));
            }
            Action::Show { title, body }
        } else if self.remaining > 0 {
            // The current phase still has minutes left: count one down.
            self.remaining = self.remaining - 1;
            self.steps = Ghost(t + 1);
            let body = body_text(self.remaining);
            proof {
                lemma_step_within_phase(n, (t - 1) as nat);
            }
            Action::SleepUpdate { body }
        } else {
            // The current phase has counted down to zero: open the next one.
            self.kind = next_phase_kind(self.kind);
            self.remaining = match self.kind {
                PhaseKind::Work => self.work_minutes,
                PhaseKind::Break => BREAK_MINUTES,
            };
            self.steps = Ghost(t + 1);
            let title = String::from_str(title_str(self.kind));
            let body = body_text(self.remaining);
            proof {
                lemma_step_phase_boundary(n, (t - 1) as nat);
            }
            Action::Show { title, body }
        }
    }

    /// The description of the phase the engine is currently in (or about to
    /// open): its kind, its duration and its notification title.
    pub fn current_phase(&self) -> (p: Phase)
        requires
            self.wf(),
        ensures
            p.kind == self.kind,
            p.wf(self.work_minutes as nat),
    {
        match self.kind {
            PhaseKind::Work => Phase::work(self.work_minutes),
            PhaseKind::Break => Phase::rest(),
        }
    }
}

/// Law: a work phase of duration `n` consists of exactly the actions at
/// indices `0 ..= n` of the cycle — `n + 1` of them — and they report the
/// countdown values `n, n - 1, ..., 0` in that order. The first opens the
/// phase with a show (no preceding delay); each of the others is an update
/// preceded by exactly one minute of delay.
pub proof fn lemma_work_phase_countdown(n: nat, i: nat)
    requires
        i <= n,
    ensures
        emit_kind(n, i) == PhaseKind::Work,
        emit_value(n, i) == n - i,
        emit_is_show(n, i) <==> i == 0,
{
    lemma_small_mod(i, cycle_len(n));
}

/// Law: after a work phase of duration `n` completes (its last action is at
/// index `n`), the engine proceeds to a break phase of fixed duration
/// `BREAK_MINUTES`, whatever `n` is: the actions at indices `n + 1 ..= n + 3`
/// are the break phase's show of `2` followed by updates to `1` and `0`.
pub proof fn lemma_break_follows_work(n: nat, j: nat)
    requires
        1 <= j <= 3,
    ensures
        emit_kind(n, n + j) == PhaseKind::Break,
        emit_value(n, n + j) == 3 - j,
        emit_is_show(n, n + j) <==> j == 1,
{
    lemma_small_mod(n + j, cycle_len(n));
}

/// Law: the cycle is stable and never drifts. After one full cycle —
/// work(`n`) then break(`BREAK_MINUTES`) — the trace repeats exactly: the
/// action at index `t + cycle_len(n)` equals the action at index `t`, so
/// every later work phase again has the original duration `n`.
pub proof fn lemma_cycle_stable(n: nat, t: nat)
    ensures
        emit_kind(n, t + cycle_len(n)) == emit_kind(n, t),
        emit_value(n, t + cycle_len(n)) == emit_value(n, t),
        emit_is_show(n, t + cycle_len(n)) == emit_is_show(n, t),
{
    lemma_mod_add_multiples_vanish(t as int, cycle_len(n) as int);
}

/// Law: a zero-minute work phase is accepted and its countdown is still
/// well defined — it emits exactly one action, the opening show reporting
/// "0 minutes left" with no delay, and the very next action already opens
/// the break phase.
pub proof fn lemma_zero_duration_work_phase()
    ensures
        emit_kind(0, 0) == PhaseKind::Work,
        emit_value(0, 0) == 0,
        emit_is_show(0, 0),
        emit_kind(0, 1) == PhaseKind::Break,
        emit_value(0, 1) == BREAK_MINUTES as nat,
        emit_is_show(0, 1),
{
    lemma_work_phase_countdown(0, 0);
    lemma_break_follows_work(0, 1);
}

/// How the cycle position advances from one action to the next: it
/// increases by one, wrapping to zero at the end of the cycle.
proof fn lemma_mod_succ(t: nat, c: nat)
    requires
        0 < c,
    ensures
        t % c == c - 1 ==> (t + 1) % c == 0,
        t % c < c - 1 ==> (t + 1) % c == t % c + 1,
{
    let q = t as int / c as int;
    let r = t as int % c as int;
    lemma_mod_bound(t as int, c as int);
    lemma_fundamental_div_mod(t as int, c as int);
    if t % c == c - 1 {
        assert(t as int + 1 == (q + 1) * c as int + 0) by (nonlinear_arith)
            requires
                t as int == c as int * q + r,
                r == c as int - 1,
        ;
        lemma_fundamental_div_mod_converse(t as int + 1, c as int, q + 1, 0);
    } else {
        assert(t as int + 1 == q * c as int + (r + 1)) by (nonlinear_arith)
            requires
                t as int == c as int * q + r,
        ;
        lemma_fundamental_div_mod_converse(t as int + 1, c as int, q, r + 1);
    }
}

/// If the action at index `t` reported a nonzero value, the action at
/// `t + 1` stays in the same phase, reports one minute less, and is an
/// update, not a show.
proof fn lemma_step_within_phase(n: nat, t: nat)
    requires
        emit_value(n, t) > 0,
    ensures
        emit_kind(n, t + 1) == emit_kind(n, t),
        emit_value(n, t + 1) == emit_value(n, t) - 1,
        !emit_is_show(n, t + 1),
{
    let c = cycle_len(n);
    lemma_mod_bound(t as int, c as int);
    lemma_mod_succ(t, c);
}

/// If the action at index `t` reported zero, the action at `t + 1` opens
/// the next phase: it is a show, its kind is the successor kind, and its
/// value is that phase's full duration.
proof fn lemma_step_phase_boundary(n: nat, t: nat)
    requires
        emit_value(n, t) == 0,
    ensures
        emit_kind(n, t + 1) == next_kind(emit_kind(n, t)),
        emit_value(n, t + 1) == duration_of(n, next_kind(emit_kind(n, t))),
        emit_is_show(n, t + 1),
{
    let c = cycle_len(n);
    lemma_mod_bound(t as int, c as int);
    lemma_mod_succ(t, c);
}

} // verus!
