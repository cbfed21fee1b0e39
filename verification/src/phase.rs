//! The two kinds of timer phase and the immutable description of one phase:
//! its kind, its duration in minutes and the title of the notification that
//! accompanies it.

use vstd::prelude::*;

verus! {

/// Number of minutes of every break phase. The work duration is chosen by
/// the caller; the break duration is fixed.
pub const BREAK_MINUTES: u64 = 2;

/// The kind of a phase. The engine alternates the two forever.
#[derive(Clone, Copy, PartialEq, Eq, Structural, Debug)]
pub enum PhaseKind {
    Work,
    Break,
}

/// Transition function of the two-state phase cycle: after a work phase
/// comes a break, after a break comes work.
pub open spec fn next_kind(k: PhaseKind) -> PhaseKind {
    match k {
        PhaseKind::Work => PhaseKind::Break,
        PhaseKind::Break => PhaseKind::Work,
    }
}

/// Computes the kind of the phase that follows `k`.
pub fn next_phase_kind(k: PhaseKind) -> (r: PhaseKind)
    ensures
        r == next_kind(k),
{
    match k {
        PhaseKind::Work => PhaseKind::Break,
        PhaseKind::Break => PhaseKind::Work,
    }
}

/// The notification title used for a phase of kind `k`: during the work
/// phase the notification announces the break that ended, and the other way
/// round.
pub open spec fn title_spec(k: PhaseKind) -> Seq<char> {
    match k {
        PhaseKind::Work => "Break Over"@,
        PhaseKind::Break => "Work Time Over"@,
    }
}

/// The notification title for a phase of kind `k`.
pub fn title_str(k: PhaseKind) -> (s: &'static str)
    ensures
        s@ == title_spec(k),
{
    match k {
        PhaseKind::Work => "Break Over",
        PhaseKind::Break => "Work Time Over",
    }
}

/// The duration in minutes of a phase of kind `k`, when the caller asked for
/// `n` minutes of work.
pub open spec fn duration_of(n: nat, k: PhaseKind) -> nat {
    match k {
        PhaseKind::Work => n,
        PhaseKind::Break => BREAK_MINUTES as nat,
    }
}

/// An immutable description of one phase.
///
/// A zero-minute duration is accepted: the engine treats such a phase as
/// completing instantly, emitting a single "0 minutes left" notification
/// with no delay.
pub struct Phase {
    pub kind: PhaseKind,
    pub duration_minutes: u64,
    pub title: String,
}

impl Phase {
    /// Whether this value describes a phase as the engine runs them: the
    /// duration and the title both follow from the kind (and, for work, from
    /// the requested minutes `n`).
    pub open spec fn wf(self, n: nat) -> bool {
        &&& self.duration_minutes as nat == duration_of(n, self.kind)
        &&& self.title@ == title_spec(self.kind)
    }

    /// Builds the work phase for a requested duration of `minutes`.
    pub fn work(minutes: u64) -> (p: Phase)
        ensures
            p.kind == PhaseKind::Work,
            p.wf(minutes as nat),
    {
        Phase {
            kind: PhaseKind::Work,
            duration_minutes: minutes,
            title: String::from_str(title_str(PhaseKind::Work)),
        }
    }

    /// Builds the break phase; its duration is always `BREAK_MINUTES`.
    pub fn rest() -> (p: Phase)
        ensures
            p.kind == PhaseKind::Break,
            forall|n: nat| p.wf(n),
    {
        Phase {
            kind: PhaseKind::Break,
            duration_minutes: BREAK_MINUTES,
            title: String::from_str(title_str(PhaseKind::Break)),
        }
    }
}

} // verus!
