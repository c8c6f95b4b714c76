use vstd::prelude::*;

use crate::random::{rng_from_entropy, rng_from_seed, sample_inclusive};

verus! {

/// Largest coordinate on either axis of the grid.
pub const GRID_MAX: usize = 6;

/// Number of cells in one row; a cell's index is `x + GRID_WIDTH * y`.
pub const GRID_WIDTH: usize = 7;

/// Smallest coordinate that the escape cell can be drawn at.
pub const ESCAPE_MIN: usize = 2;

/// Largest coordinate that the escape cell can be drawn at.
pub const ESCAPE_MAX: usize = 4;

/// Step budget of a new environment: an episode is cut off once more steps have passed.
pub const DEFAULT_MAX_CYCLES: usize = 100;

/// Index that a reset observation reports in place of the other agent's cell.
pub const UNPLACED_INDEX: usize = 56;

/// The two players of the game.
#[derive(Clone, Copy, Debug, PartialEq, Eq, Hash, Structural)]
pub enum AgentType {
    Prisoner,
    Guard,
}

/// What one agent observes: three cell indices and a mask of the four actions
/// (decrease x, increase x, decrease y, increase y), each flag 0 or 1.
#[derive(Clone, Copy, Debug, PartialEq, Eq)]
pub struct Observations {
    pub observation: (usize, usize, usize),
    pub action_mask: (usize, usize, usize, usize),
}

/// One value for each agent.
#[derive(Clone, Debug)]
pub struct PerAgent<T> {
    pub prisoner: T,
    pub guard: T,
}

/// Everything that one call of `step` reports.
#[derive(Clone, Debug)]
pub struct StepResult {
    pub observations: PerAgent<Observations>,
    pub rewards: PerAgent<isize>,
    pub terminations: PerAgent<bool>,
    pub truncations: PerAgent<bool>,
    pub infos: PerAgent<String>,
}

/// `step` was handed no action for this agent.
#[derive(Clone, Copy, Debug, PartialEq, Eq, Structural)]
pub struct MissingActionError {
    pub agent: AgentType,
}

/// How a step leaves the episode, in order of priority.
#[derive(Clone, Copy, Debug, PartialEq, Eq, Structural)]
pub enum Outcome {
    Escaped,
    Captured,
    TimedOut,
    Ongoing,
}

/// The abstract state of an environment.
pub struct EnvView {
    pub prisoner: (usize, usize),
    pub guard: (usize, usize),
    pub escape: (usize, usize),
    pub timestep: usize,
    pub max_cycles: usize,
    pub possible_agents: Seq<AgentType>,
    pub agents: Seq<AgentType>,
}

pub open spec fn on_grid(p: (usize, usize)) -> bool {
    p.0 <= GRID_MAX && p.1 <= GRID_MAX
}

impl EnvView {
    /// Every position lies on the grid.
    pub open spec fn wf(&self) -> bool {
        on_grid(self.prisoner) && on_grid(self.guard) && on_grid(self.escape)
    }
}

/// The position after taking `action` from `p`; a move that would leave the
/// grid, or an action outside 0..=3, leaves the position as it is.
pub open spec fn moved(p: (usize, usize), action: usize) -> (usize, usize) {
    if action == 0 && p.0 > 0 {
        ((p.0 - 1) as usize, p.1)
    } else if action == 1 && p.0 < GRID_MAX {
        ((p.0 + 1) as usize, p.1)
    } else if action == 2 && p.1 > 0 {
        (p.0, (p.1 - 1) as usize)
    } else if action == 3 && p.1 < GRID_MAX {
        (p.0, (p.1 + 1) as usize)
    } else {
        p
    }
}

/// `action` is one of the four moves and would take `p` off the grid.
pub open spec fn leaves_grid(p: (usize, usize), action: usize) -> bool {
    (action == 0 && p.0 == 0) || (action == 1 && p.0 == GRID_MAX) || (action == 2 && p.1 == 0)
        || (action == 3 && p.1 == GRID_MAX)
}

pub open spec fn cell_index(p: (usize, usize)) -> int {
    p.0 + GRID_WIDTH * p.1
}

pub open spec fn flag(allowed: bool) -> usize {
    if allowed {
        1
    } else {
        0
    }
}

/// The prisoner may take each move that keeps it on the grid.
pub open spec fn prisoner_mask(p: (usize, usize)) -> (usize, usize, usize, usize) {
    (flag(p.0 != 0), flag(p.0 != GRID_MAX), flag(p.1 != 0), flag(p.1 != GRID_MAX))
}

/// The guard is flagged off each move that would put it on the escape cell.
pub open spec fn guard_mask(g: (usize, usize), e: (usize, usize)) -> (usize, usize, usize, usize) {
    (
        flag(!(g.1 == e.1 && g.0 == e.0 + 1)),
        flag(!(g.1 == e.1 && g.0 + 1 == e.0)),
        flag(!(g.0 == e.0 && g.1 == e.1 + 1)),
        flag(!(g.0 == e.0 && g.1 + 1 == e.1)),
    )
}

/// The observation that `Observations::new` builds at reset time.
pub open spec fn reset_observation(agent: AgentType, x: usize, y: usize) -> Observations {
    Observations {
        observation: (0, UNPLACED_INDEX, cell_index((x, y)) as usize),
        action_mask: match agent {
            AgentType::Prisoner => (0, 1, 1, 0),
            AgentType::Guard => (1, 0, 0, 1),
        },
    }
}

/// The first action listed for `agent`, if any.
pub open spec fn action_for(actions: Seq<(AgentType, usize)>, agent: AgentType) -> Option<usize>
    decreases actions.len(),
{
    if actions.len() == 0 {
        None
    } else if actions[0].0 == agent {
        Some(actions[0].1)
    } else {
        action_for(actions.drop_first(), agent)
    }
}

/// How the episode stands with the agents at `p` and `g`, checked in priority order.
pub open spec fn outcome_of(
    p: (usize, usize),
    g: (usize, usize),
    e: (usize, usize),
    timestep: usize,
    max_cycles: usize,
) -> Outcome {
    if p == e {
        Outcome::Escaped
    } else if p == g {
        Outcome::Captured
    } else if timestep > max_cycles {
        Outcome::TimedOut
    } else {
        Outcome::Ongoing
    }
}

/// The outcome of a step from `v` with the two given actions.
pub open spec fn step_outcome(v: EnvView, prisoner_action: usize, guard_action: usize) -> Outcome {
    outcome_of(
        moved(v.prisoner, prisoner_action),
        moved(v.guard, guard_action),
        v.escape,
        v.timestep,
        v.max_cycles,
    )
}

/// The state after a step from `v` with the two given actions.
pub open spec fn next_state(v: EnvView, prisoner_action: usize, guard_action: usize) -> EnvView {
    EnvView {
        prisoner: moved(v.prisoner, prisoner_action),
        guard: moved(v.guard, guard_action),
        escape: v.escape,
        timestep: (v.timestep + 1) as usize,
        max_cycles: v.max_cycles,
        possible_agents: v.possible_agents,
        agents: if step_outcome(v, prisoner_action, guard_action) == Outcome::Ongoing {
            v.agents
        } else {
            Seq::empty()
        },
    }
}

/// The state after a reset that drew the escape cell `e`.
pub open spec fn reset_state(v: EnvView, e: (usize, usize)) -> EnvView {
    EnvView {
        prisoner: (0, 0),
        guard: (0, 0),
        escape: e,
        timestep: 0,
        max_cycles: v.max_cycles,
        possible_agents: v.possible_agents,
        agents: v.possible_agents,
    }
}

pub open spec fn rewards_for(o: Outcome) -> PerAgent<isize> {
    match o {
        Outcome::Escaped => PerAgent { prisoner: 1, guard: -1isize },
        Outcome::Captured => PerAgent { prisoner: -1isize, guard: 1 },
        _ => PerAgent { prisoner: 0, guard: 0 },
    }
}

pub open spec fn terminations_for(o: Outcome) -> PerAgent<bool> {
    let ended = o == Outcome::Escaped || o == Outcome::Captured;
    PerAgent { prisoner: ended, guard: ended }
}

pub open spec fn truncations_for(o: Outcome) -> PerAgent<bool> {
    let cut = o == Outcome::TimedOut;
    PerAgent { prisoner: cut, guard: cut }
}

/// The observations reported in state `v`: both agents see the three cell
/// indices, each with its own mask.
pub open spec fn observations_in(v: EnvView) -> PerAgent<Observations> {
    let cells = (
        cell_index(v.prisoner) as usize,
        cell_index(v.guard) as usize,
        cell_index(v.escape) as usize,
    );
    PerAgent {
        prisoner: Observations { observation: cells, action_mask: prisoner_mask(v.prisoner) },
        guard: Observations { observation: cells, action_mask: guard_mask(v.guard, v.escape) },
    }
}

pub open spec fn empty_infos(infos: PerAgent<String>) -> bool {
    infos.prisoner@ == Seq::<char>::empty() && infos.guard@ == Seq::<char>::empty()
}

/// What `step` reports when it reaches state `after` with outcome `o`.
pub open spec fn step_report(r: StepResult, after: EnvView, o: Outcome) -> bool {
    &&& r.observations == observations_in(after)
    &&& r.rewards == rewards_for(o)
    &&& r.terminations == terminations_for(o)
    &&& r.truncations == truncations_for(o)
    &&& empty_infos(r.infos)
}

/// The position after taking `action` from `(x, y)`.
fn move_agent(x: usize, y: usize, action: usize) -> (r: (usize, usize))
    requires
        on_grid((x, y)),
    ensures
        r == moved((x, y), action),
{
    if action == 0 && x > 0 {
        (x - 1, y)
    } else if action == 1 && x < GRID_MAX {
        (x + 1, y)
    } else if action == 2 && y > 0 {
        (x, y - 1)
    } else if action == 3 && y < GRID_MAX {
        (x, y + 1)
    } else {
        (x, y)
    }
}

impl Observations {
    /// The observation handed out at reset for an escape cell at `(x, y)`:
    /// cells `(0, UNPLACED_INDEX, x + 7 * y)` and a mask fixed per agent.
    pub fn new(agent_type: AgentType, x: usize, y: usize) -> (r: Observations)
        requires
            x + GRID_WIDTH * y <= usize::MAX,
        ensures
            r == reset_observation(agent_type, x, y),
    {
        let observation = (0, UNPLACED_INDEX, x + GRID_WIDTH * y);
        match agent_type {
            AgentType::Prisoner => Observations { observation, action_mask: (0, 1, 1, 0) },
            AgentType::Guard => Observations { observation, action_mask: (1, 0, 0, 1) },
        }
    }
}

/// The first action listed for `agent` in `actions`, if any.
pub fn find_action(actions: &[(AgentType, usize)], agent: AgentType) -> (r: Option<usize>)
    ensures
        r == action_for(actions@, agent),
{
    let mut i: usize = 0;
    assert(actions@.subrange(0, actions@.len() as int) =~= actions@);
    while i < actions.len()
        invariant
            i <= actions@.len(),
            action_for(actions@, agent) == action_for(actions@.subrange(i as int, actions@.len() as int), agent),
        decreases actions@.len() - i,
    {
        assert(actions@.subrange(i as int, actions@.len() as int).drop_first()
            =~= actions@.subrange(i + 1, actions@.len() as int));
        if actions[i].0 == agent {
            return Some(actions[i].1);
        }
        i = i + 1;
    }
    None
}

/// The game's state: the three positions, the step count and the agents still playing.
pub struct Env {
    escape_y: usize,
    escape_x: usize,
    guard_y: usize,
    guard_x: usize,
    prisoner_y: usize,
    prisoner_x: usize,
    timestep: usize,
    max_cycles: usize,
    possible_agents: Vec<AgentType>,
    agents: Vec<AgentType>,
}

impl View for Env {
    type V = EnvView;

    closed spec fn view(&self) -> EnvView {
        EnvView {
            prisoner: (self.prisoner_x, self.prisoner_y),
            guard: (self.guard_x, self.guard_y),
            escape: (self.escape_x, self.escape_y),
            timestep: self.timestep,
            max_cycles: self.max_cycles,
            possible_agents: self.possible_agents@,
            agents: self.agents@,
        }
    }
}

/// A copy of `v`.
fn copy_agents(v: &Vec<AgentType>) -> (r: Vec<AgentType>)
    ensures
        r@ == v@,
{
    let mut r: Vec<AgentType> = Vec::new();
    let mut i: usize = 0;
    while i < v.len()
        invariant
            i <= v@.len(),
            r@ == v@.subrange(0, i as int),
        decreases v@.len() - i,
    {
        r.push(v[i]);
        i = i + 1;
        assert(r@ =~= v@.subrange(0, i as int));
    }
    assert(r@ =~= v@);
    r
}

impl Env {
    pub open spec fn wf(&self) -> bool {
        self@.wf()
    }

    /// A fresh environment: both agents listed and playing, every position at
    /// `(0, 0)`, no step taken yet and the default step budget.
    pub fn new() -> (r: Env)
        ensures
            r.wf(),
            r@.prisoner == (0usize, 0usize),
            r@.guard == (0usize, 0usize),
            r@.escape == (0usize, 0usize),
            r@.timestep == 0,
            r@.max_cycles == DEFAULT_MAX_CYCLES,
            r@.possible_agents == seq![AgentType::Prisoner, AgentType::Guard],
            r@.agents == seq![AgentType::Prisoner, AgentType::Guard],
    {
        let r = Env {
            escape_y: 0,
            escape_x: 0,
            guard_y: 0,
            guard_x: 0,
            prisoner_y: 0,
            prisoner_x: 0,
            timestep: 0,
            max_cycles: DEFAULT_MAX_CYCLES,
            possible_agents: vec![AgentType::Prisoner, AgentType::Guard],
            agents: vec![AgentType::Prisoner, AgentType::Guard],
        };
        assert(r@.possible_agents =~= seq![AgentType::Prisoner, AgentType::Guard]);
        assert(r@.agents =~= seq![AgentType::Prisoner, AgentType::Guard]);
        r
    }

    /// Starts a new episode with the escape cell at `(escape_x, escape_y)`: both
    /// agents back at `(0, 0)`, the step count at zero and every possible agent playing.
    pub fn reset_with_escape(&mut self, escape_x: usize, escape_y: usize) -> (r: (
        PerAgent<Observations>,
        PerAgent<String>,
    ))
        requires
            ESCAPE_MIN <= escape_x <= ESCAPE_MAX,
            ESCAPE_MIN <= escape_y <= ESCAPE_MAX,
        ensures
            final(self).wf(),
            final(self)@ == reset_state(old(self)@, (escape_x, escape_y)),
            r.0.prisoner == reset_observation(AgentType::Prisoner, escape_x, escape_y),
            r.0.guard == reset_observation(AgentType::Guard, escape_x, escape_y),
            empty_infos(r.1),
    {
        self.timestep = 0;
        self.prisoner_x = 0;
        self.prisoner_y = 0;
        self.guard_x = 0;
        self.guard_y = 0;
        self.agents = copy_agents(&self.possible_agents);
        self.escape_x = escape_x;
        self.escape_y = escape_y;
        let observations = PerAgent {
            prisoner: Observations::new(AgentType::Prisoner, escape_x, escape_y),
            guard: Observations::new(AgentType::Guard, escape_x, escape_y),
        };
        let infos = PerAgent { prisoner: String::new(), guard: String::new() };
        (observations, infos)
    }

    /// Starts a new episode with an escape cell drawn uniformly from
    /// `ESCAPE_MIN..=ESCAPE_MAX` on each axis: from a generator seeded with
    /// `seed` where one is given, else from one seeded by the system.
    pub fn reset(&mut self, seed: Option<u64>) -> (r: (PerAgent<Observations>, PerAgent<String>))
        ensures
            final(self).wf(),
            ESCAPE_MIN <= final(self)@.escape.0 <= ESCAPE_MAX,
            ESCAPE_MIN <= final(self)@.escape.1 <= ESCAPE_MAX,
            final(self)@ == reset_state(old(self)@, final(self)@.escape),
            r.0.prisoner == reset_observation(AgentType::Prisoner, final(self)@.escape.0, final(self)@.escape.1),
            r.0.guard == reset_observation(AgentType::Guard, final(self)@.escape.0, final(self)@.escape.1),
            empty_infos(r.1),
    {
        let mut rng = match seed {
            Some(s) => rng_from_seed(s),
            None => rng_from_entropy(),
        };
        let escape_x = sample_inclusive(&mut rng, ESCAPE_MIN, ESCAPE_MAX);
        let escape_y = sample_inclusive(&mut rng, ESCAPE_MIN, ESCAPE_MAX);
        self.reset_with_escape(escape_x, escape_y)
    }

    fn generate_prisoner_mask(&self) -> (r: (usize, usize, usize, usize))
        ensures
            r == prisoner_mask(self@.prisoner),
    {
        let left: usize = if self.prisoner_x == 0 { 0 } else { 1 };
        let right: usize = if self.prisoner_x == GRID_MAX { 0 } else { 1 };
        let down: usize = if self.prisoner_y == 0 { 0 } else { 1 };
        let up: usize = if self.prisoner_y == GRID_MAX { 0 } else { 1 };
        (left, right, down, up)
    }

    fn generate_guard_mask(&self) -> (r: (usize, usize, usize, usize))
        requires
            self.wf(),
        ensures
            r == guard_mask(self@.guard, self@.escape),
    {
        let left: usize = if self.guard_y == self.escape_y && self.guard_x == self.escape_x + 1 {
            0
        } else {
            1
        };
        let right: usize = if self.guard_y == self.escape_y && self.guard_x + 1 == self.escape_x {
            0
        } else {
            1
        };
        let down: usize = if self.guard_x == self.escape_x && self.guard_y == self.escape_y + 1 {
            0
        } else {
            1
        };
        let up: usize = if self.guard_x == self.escape_x && self.guard_y + 1 == self.escape_y {
            0
        } else {
            1
        };
        (left, right, down, up)
    }

    fn prisoner_escaped(&self) -> (r: bool)
        ensures
            r == (self@.prisoner == self@.escape),
    {
        self.prisoner_x == self.escape_x && self.prisoner_y == self.escape_y
    }

    fn prisoner_captured(&self) -> (r: bool)
        ensures
            r == (self@.prisoner == self@.guard),
    {
        self.prisoner_x == self.guard_x && self.prisoner_y == self.guard_y
    }

    /// How the episode stands in the current state.
    fn episode_outcome(&self) -> (r: Outcome)
        ensures
            r == outcome_of(self@.prisoner, self@.guard, self@.escape, self@.timestep, self@.max_cycles),
    {
        if self.prisoner_escaped() {
            Outcome::Escaped
        } else if self.prisoner_captured() {
            Outcome::Captured
        } else if self.timestep > self.max_cycles {
            Outcome::TimedOut
        } else {
            Outcome::Ongoing
        }
    }

    /// Moves both agents by their actions, then settles the episode: escape,
    /// then capture, then running out of steps; on any of them no agent stays
    /// playing. The step count grows by one in every case. Fails, changing
    /// nothing, when `actions` lists no action for the prisoner, else for the guard.
    pub fn step(&mut self, actions: &[(AgentType, usize)]) -> (r: Result<StepResult, MissingActionError>)
        requires
            old(self).wf(),
            old(self)@.timestep < usize::MAX,
        ensures
            final(self).wf(),
            match (action_for(actions@, AgentType::Prisoner), action_for(actions@, AgentType::Guard)) {
                (Some(pa), Some(ga)) => {
                    &&& r is Ok
                    &&& final(self)@ == next_state(old(self)@, pa, ga)
                    &&& step_report(r->Ok_0, final(self)@, step_outcome(old(self)@, pa, ga))
                },
                (None, _) => {
                    &&& r == Err::<StepResult, _>(MissingActionError { agent: AgentType::Prisoner })
                    &&& final(self)@ == old(self)@
                },
                (Some(_), None) => {
                    &&& r == Err::<StepResult, _>(MissingActionError { agent: AgentType::Guard })
                    &&& final(self)@ == old(self)@
                },
            },
    {
        let prisoner_action = match find_action(actions, AgentType::Prisoner) {
            Some(a) => a,
            None => {
                return Err(MissingActionError { agent: AgentType::Prisoner });
            },
        };
        let guard_action = match find_action(actions, AgentType::Guard) {
            Some(a) => a,
            None => {
                return Err(MissingActionError { agent: AgentType::Guard });
            },
        };
        let ghost before = self@;

        let (px, py) = move_agent(self.prisoner_x, self.prisoner_y, prisoner_action);
        self.prisoner_x = px;
        self.prisoner_y = py;
        let (gx, gy) = move_agent(self.guard_x, self.guard_y, guard_action);
        self.guard_x = gx;
        self.guard_y = gy;

        let prisoner_action_mask = self.generate_prisoner_mask();
        let guard_action_mask = self.generate_guard_mask();
        let observation = (
            self.prisoner_x + GRID_WIDTH * self.prisoner_y,
            self.guard_x + GRID_WIDTH * self.guard_y,
            self.escape_x + GRID_WIDTH * self.escape_y,
        );
        let observations = PerAgent {
            prisoner: Observations { observation, action_mask: prisoner_action_mask },
            guard: Observations { observation, action_mask: guard_action_mask },
        };

        let outcome = self.episode_outcome();
        let (rewards, terminations, truncations) = match outcome {
            Outcome::Escaped => (
                PerAgent { prisoner: 1, guard: -1 },
                PerAgent { prisoner: true, guard: true },
                PerAgent { prisoner: false, guard: false },
            ),
            Outcome::Captured => (
                PerAgent { prisoner: -1, guard: 1 },
                PerAgent { prisoner: true, guard: true },
                PerAgent { prisoner: false, guard: false },
            ),
            Outcome::TimedOut => (
                PerAgent { prisoner: 0, guard: 0 },
                PerAgent { prisoner: false, guard: false },
                PerAgent { prisoner: true, guard: true },
            ),
            Outcome::Ongoing => (
                PerAgent { prisoner: 0, guard: 0 },
                PerAgent { prisoner: false, guard: false },
                PerAgent { prisoner: false, guard: false },
            ),
        };
        if outcome != Outcome::Ongoing {
            self.agents = Vec::new();
        }
        self.timestep = self.timestep + 1;
        assert(self@.agents =~= next_state(before, prisoner_action, guard_action).agents);

        let infos = PerAgent { prisoner: String::new(), guard: String::new() };
        Ok(StepResult { observations, rewards, terminations, truncations, infos })
    }
    pub fn escape_x(&self) -> (r: usize)
        ensures
            r == self@.escape.0,
    {
        self.escape_x
    }

    pub fn escape_y(&self) -> (r: usize)
        ensures
            r == self@.escape.1,
    {
        self.escape_y
    }

    pub fn guard_x(&self) -> (r: usize)
        ensures
            r == self@.guard.0,
    {
        self.guard_x
    }

    pub fn guard_y(&self) -> (r: usize)
        ensures
            r == self@.guard.1,
    {
        self.guard_y
    }

    pub fn prisoner_x(&self) -> (r: usize)
        ensures
            r == self@.prisoner.0,
    {
        self.prisoner_x
    }

    pub fn prisoner_y(&self) -> (r: usize)
        ensures
            r == self@.prisoner.1,
    {
        self.prisoner_y
    }

    pub fn timestep(&self) -> (r: usize)
        ensures
            r == self@.timestep,
    {
        self.timestep
    }

    pub fn max_cycles(&self) -> (r: usize)
        ensures
            r == self@.max_cycles,
    {
        self.max_cycles
    }

    /// Sets the step budget; nothing else changes.
    pub fn set_max_cycles(&mut self, max_cycles: usize)
        ensures
            final(self)@ == (EnvView { max_cycles, ..old(self)@ }),
    {
        self.max_cycles = max_cycles;
    }

    pub fn possible_agents(&self) -> (r: Vec<AgentType>)
        ensures
            r@ == self@.possible_agents,
    {
        copy_agents(&self.possible_agents)
    }

    /// Sets the agents that a reset brings into play; nothing else changes.
    pub fn set_possible_agents(&mut self, possible_agents: Vec<AgentType>)
        ensures
            final(self)@ == (EnvView { possible_agents: possible_agents@, ..old(self)@ }),
    {
        self.possible_agents = possible_agents;
    }

    pub fn agents(&self) -> (r: Vec<AgentType>)
        ensures
            r@ == self@.agents,
    {
        copy_agents(&self.agents)
    }

    /// Sets the agents now playing; nothing else changes.
    pub fn set_agents(&mut self, agents: Vec<AgentType>)
        ensures
            final(self)@ == (EnvView { agents: agents@, ..old(self)@ }),
    {
        self.agents = agents;
    }
}

} // verus!
