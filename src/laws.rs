use vstd::prelude::*;

use crate::env::{
    leaves_grid, next_state, reset_state, rewards_for, step_outcome, terminations_for,
    truncations_for, moved, observations_in, EnvView, Outcome, ESCAPE_MAX, ESCAPE_MIN,
};

verus! {

/// A reset puts both agents at `(0, 0)`, the step count at zero and the escape
/// cell inside the drawing range, and leaves every position on the grid.
pub proof fn lemma_reset_starts_episode(v: EnvView, e: (usize, usize))
    requires
        ESCAPE_MIN <= e.0 <= ESCAPE_MAX,
        ESCAPE_MIN <= e.1 <= ESCAPE_MAX,
    ensures
        reset_state(v, e).wf(),
        reset_state(v, e).prisoner == (0usize, 0usize),
        reset_state(v, e).guard == (0usize, 0usize),
        reset_state(v, e).timestep == 0,
        ESCAPE_MIN <= reset_state(v, e).escape.0 <= ESCAPE_MAX,
        ESCAPE_MIN <= reset_state(v, e).escape.1 <= ESCAPE_MAX,
{
}

/// No step, whatever the actions, takes a position off the grid.
pub proof fn lemma_step_stays_on_grid(v: EnvView, prisoner_action: usize, guard_action: usize)
    requires
        v.wf(),
    ensures
        next_state(v, prisoner_action, guard_action).wf(),
{
}

/// On a well-formed state every reported cell index lies in `0..=48`.
pub proof fn lemma_observation_indices_in_range(v: EnvView)
    requires
        v.wf(),
    ensures
        observations_in(v).prisoner.observation.0 <= 48,
        observations_in(v).prisoner.observation.1 <= 48,
        observations_in(v).prisoner.observation.2 <= 48,
        observations_in(v).guard.observation == observations_in(v).prisoner.observation,
{
}

/// An action that would take an agent off the grid leaves that agent where it
/// is, and the step count still grows by one.
pub proof fn lemma_off_grid_action_is_noop(v: EnvView, prisoner_action: usize, guard_action: usize)
    requires
        v.wf(),
        v.timestep < usize::MAX,
    ensures
        leaves_grid(v.prisoner, prisoner_action) ==> next_state(v, prisoner_action, guard_action).prisoner
            == v.prisoner,
        leaves_grid(v.guard, guard_action) ==> next_state(v, prisoner_action, guard_action).guard
            == v.guard,
        next_state(v, prisoner_action, guard_action).timestep == v.timestep + 1,
{
}

/// A step settles on exactly one outcome, checked in the order escape, capture,
/// running out of steps. Escape and capture set both termination flags,
/// running out of steps sets both truncation flags, no outcome sets both kinds,
/// and every ending outcome leaves no agent playing.
pub proof fn lemma_single_outcome(v: EnvView, prisoner_action: usize, guard_action: usize)
    ensures
        ({
            let o = step_outcome(v, prisoner_action, guard_action);
            let p = moved(v.prisoner, prisoner_action);
            let g = moved(v.guard, guard_action);
            let next = next_state(v, prisoner_action, guard_action);
            &&& (o == Outcome::Escaped) == (p == v.escape)
            &&& (o == Outcome::Captured) == (p != v.escape && p == g)
            &&& (o == Outcome::TimedOut) == (p != v.escape && p != g && v.timestep > v.max_cycles)
            &&& terminations_for(o).prisoner == terminations_for(o).guard
            &&& truncations_for(o).prisoner == truncations_for(o).guard
            &&& terminations_for(o).prisoner == (o == Outcome::Escaped || o == Outcome::Captured)
            &&& truncations_for(o).prisoner == (o == Outcome::TimedOut)
            &&& !(terminations_for(o).prisoner && truncations_for(o).prisoner)
            &&& o != Outcome::Ongoing ==> next.agents.len() == 0
            &&& o == Outcome::Ongoing ==> next.agents == v.agents
        }),
{
}

/// Escape and capture reward the two agents with opposite units, the prisoner
/// winning on escape; the other outcomes reward neither.
pub proof fn lemma_reward_symmetry(v: EnvView, prisoner_action: usize, guard_action: usize)
    ensures
        ({
            let o = step_outcome(v, prisoner_action, guard_action);
            let r = rewards_for(o);
            &&& r.prisoner == -r.guard
            &&& o == Outcome::Escaped ==> r.prisoner == 1
            &&& o == Outcome::Captured ==> r.prisoner == -1
            &&& (o == Outcome::TimedOut || o == Outcome::Ongoing) ==> r.prisoner == 0 && r.guard == 0
        }),
{
}

} // verus!
