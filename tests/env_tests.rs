use pattingzoo_rs::env::{
    AgentType, Env, MissingActionError, Observations, ESCAPE_MAX, ESCAPE_MIN,
};

fn both(prisoner: usize, guard: usize) -> Vec<(AgentType, usize)> {
    vec![(AgentType::Prisoner, prisoner), (AgentType::Guard, guard)]
}

#[test]
fn sim_steps() {
    let mut env = Env::new();
    let (_obs, _infos) = env.reset(None);
    for _ in 0..99 {
        let actions = both(0, 0);
        let _result = env.step(&actions);
    }
}

#[test]
fn new_env_starts_at_origin() {
    let env = Env::new();
    assert_eq!((env.prisoner_x(), env.prisoner_y()), (0, 0));
    assert_eq!((env.guard_x(), env.guard_y()), (0, 0));
    assert_eq!(env.timestep(), 0);
    assert_eq!(env.max_cycles(), 100);
    assert_eq!(env.possible_agents(), vec![AgentType::Prisoner, AgentType::Guard]);
    assert_eq!(env.agents(), vec![AgentType::Prisoner, AgentType::Guard]);
}

#[test]
fn reset_draws_escape_in_range() {
    let mut env = Env::new();
    let mut seen = [[false; 3]; 3];
    for seed in 0..400u64 {
        env.reset(Some(seed));
        let (x, y) = (env.escape_x(), env.escape_y());
        assert!(ESCAPE_MIN <= x && x <= ESCAPE_MAX);
        assert!(ESCAPE_MIN <= y && y <= ESCAPE_MAX);
        seen[x - 2][y - 2] = true;
    }
    for _ in 0..50 {
        env.reset(None);
        assert!((2..=4).contains(&env.escape_x()));
        assert!((2..=4).contains(&env.escape_y()));
    }
    assert!(seen.iter().all(|row| row.iter().all(|&s| s)));
}

#[test]
fn reset_with_same_seed_repeats_escape() {
    let mut a = Env::new();
    let mut b = Env::new();
    a.reset(Some(7));
    b.reset(Some(7));
    assert_eq!((a.escape_x(), a.escape_y()), (b.escape_x(), b.escape_y()));
}

#[test]
fn reset_restores_start_state() {
    let mut env = Env::new();
    env.reset_with_escape(3, 3);
    env.step(&both(1, 3)).unwrap();
    env.step(&both(3, 3)).unwrap();
    let (obs, infos) = env.reset(Some(1));
    assert_eq!((env.prisoner_x(), env.prisoner_y()), (0, 0));
    assert_eq!((env.guard_x(), env.guard_y()), (0, 0));
    assert_eq!(env.timestep(), 0);
    assert_eq!(env.agents(), vec![AgentType::Prisoner, AgentType::Guard]);
    let cell = env.escape_x() + 7 * env.escape_y();
    assert_eq!(obs.prisoner.observation, (0, 56, cell));
    assert_eq!(obs.prisoner.action_mask, (0, 1, 1, 0));
    assert_eq!(obs.guard.observation, (0, 56, cell));
    assert_eq!(obs.guard.action_mask, (1, 0, 0, 1));
    assert_eq!(infos.prisoner, "");
    assert_eq!(infos.guard, "");
}

#[test]
fn observations_new_per_agent() {
    let p = Observations::new(AgentType::Prisoner, 3, 4);
    assert_eq!(p.observation, (0, 56, 31));
    assert_eq!(p.action_mask, (0, 1, 1, 0));
    let g = Observations::new(AgentType::Guard, 2, 2);
    assert_eq!(g.observation, (0, 56, 16));
    assert_eq!(g.action_mask, (1, 0, 0, 1));
}

#[test]
fn step_moves_prisoner_and_clamps_guard() {
    let mut env = Env::new();
    env.reset_with_escape(4, 4);
    let r = env.step(&both(1, 0)).unwrap();
    assert_eq!((env.prisoner_x(), env.prisoner_y()), (1, 0));
    assert_eq!((env.guard_x(), env.guard_y()), (0, 0));
    assert_eq!(env.timestep(), 1);
    assert!(!r.terminations.prisoner && !r.terminations.guard);
    assert!(!r.truncations.prisoner && !r.truncations.guard);
    assert_eq!((r.rewards.prisoner, r.rewards.guard), (0, 0));
    assert_eq!(r.observations.prisoner.observation, (1, 0, 32));
    assert_eq!(r.observations.guard.observation, (1, 0, 32));
    assert_eq!(r.observations.prisoner.action_mask, (1, 1, 0, 1));
    assert_eq!(r.observations.guard.action_mask, (1, 1, 1, 1));
    assert_eq!(r.infos.prisoner, "");
    assert_eq!(env.agents().len(), 2);
}

#[test]
fn off_grid_action_is_noop() {
    let mut env = Env::new();
    env.reset_with_escape(2, 2);
    env.step(&both(2, 0)).unwrap();
    assert_eq!((env.prisoner_x(), env.prisoner_y()), (0, 0));
    assert_eq!(env.timestep(), 1);
    env.step(&both(9, 3)).unwrap();
    assert_eq!((env.prisoner_x(), env.prisoner_y()), (0, 0));
    assert_eq!((env.guard_x(), env.guard_y()), (0, 1));
    assert_eq!(env.timestep(), 2);
}

#[test]
fn prisoner_reaching_escape_ends_episode() {
    let mut env = Env::new();
    env.reset_with_escape(2, 2);
    for a in [1, 1, 3] {
        let r = env.step(&both(a, 0)).unwrap();
        assert!(!r.terminations.prisoner);
    }
    let r = env.step(&both(3, 0)).unwrap();
    assert_eq!((env.prisoner_x(), env.prisoner_y()), (2, 2));
    assert_eq!((r.rewards.prisoner, r.rewards.guard), (1, -1));
    assert!(r.terminations.prisoner && r.terminations.guard);
    assert!(!r.truncations.prisoner && !r.truncations.guard);
    assert!(env.agents().is_empty());
    assert_eq!(env.timestep(), 4);
}

#[test]
fn guard_catching_prisoner_ends_episode() {
    let mut env = Env::new();
    env.reset_with_escape(4, 4);
    env.step(&both(1, 3)).unwrap();
    let r = env.step(&both(0, 1)).unwrap();
    assert_eq!((env.prisoner_x(), env.prisoner_y()), (0, 0));
    assert_eq!((env.guard_x(), env.guard_y()), (1, 1));
    assert!(!r.terminations.prisoner);
    let r = env.step(&both(3, 0)).unwrap();
    assert_eq!((env.prisoner_x(), env.prisoner_y()), (0, 1));
    assert_eq!((env.guard_x(), env.guard_y()), (0, 1));
    assert_eq!((r.rewards.prisoner, r.rewards.guard), (-1, 1));
    assert!(r.terminations.prisoner && r.terminations.guard);
    assert!(!r.truncations.prisoner && !r.truncations.guard);
    assert!(env.agents().is_empty());
}

#[test]
fn escape_takes_priority_over_capture() {
    let mut env = Env::new();
    env.reset_with_escape(2, 2);
    for a in [1, 1, 3] {
        env.step(&both(a, a)).unwrap();
    }
    let r = env.step(&both(3, 3)).unwrap();
    assert_eq!((env.guard_x(), env.guard_y()), (2, 2));
    assert_eq!((r.rewards.prisoner, r.rewards.guard), (1, -1));
}

#[test]
fn timeout_after_step_budget() {
    let mut env = Env::new();
    env.reset_with_escape(4, 4);
    env.step(&both(3, 0)).unwrap();
    for t in 1..=100 {
        let r = env.step(&both(9, 9)).unwrap();
        assert!(!r.truncations.prisoner, "step {}", t);
        assert_eq!((r.rewards.prisoner, r.rewards.guard), (0, 0));
    }
    assert_eq!(env.timestep(), 101);
    let r = env.step(&both(9, 9)).unwrap();
    assert!(r.truncations.prisoner && r.truncations.guard);
    assert!(!r.terminations.prisoner && !r.terminations.guard);
    assert_eq!((r.rewards.prisoner, r.rewards.guard), (0, 0));
    assert!(env.agents().is_empty());
    assert_eq!(env.timestep(), 102);
}

#[test]
fn max_cycles_sets_the_budget() {
    let mut env = Env::new();
    env.reset_with_escape(4, 4);
    env.set_max_cycles(1);
    env.step(&both(3, 0)).unwrap();
    let r = env.step(&both(9, 9)).unwrap();
    assert!(!r.truncations.prisoner);
    let r = env.step(&both(9, 9)).unwrap();
    assert!(r.truncations.guard);
}

#[test]
fn missing_guard_action_is_an_error() {
    let mut env = Env::new();
    env.reset_with_escape(3, 3);
    let r = env.step(&[(AgentType::Prisoner, 1)]);
    assert_eq!(r.err(), Some(MissingActionError { agent: AgentType::Guard }));
    assert_eq!((env.prisoner_x(), env.timestep()), (0, 0));
}

#[test]
fn missing_prisoner_action_is_an_error() {
    let mut env = Env::new();
    env.reset_with_escape(3, 3);
    let r = env.step(&[(AgentType::Guard, 1)]);
    assert_eq!(r.err(), Some(MissingActionError { agent: AgentType::Prisoner }));
    let r = env.step(&[]);
    assert_eq!(r.err(), Some(MissingActionError { agent: AgentType::Prisoner }));
}

#[test]
fn first_listed_action_counts() {
    let mut env = Env::new();
    env.reset_with_escape(3, 3);
    let acts = vec![(AgentType::Guard, 3), (AgentType::Prisoner, 1), (AgentType::Prisoner, 3)];
    env.step(&acts).unwrap();
    assert_eq!((env.prisoner_x(), env.prisoner_y()), (1, 0));
    assert_eq!((env.guard_x(), env.guard_y()), (0, 1));
}

#[test]
fn guard_mask_blocks_moves_onto_escape() {
    let mut env = Env::new();
    env.reset_with_escape(2, 2);
    for a in [1, 3] {
        env.step(&both(3, a)).unwrap();
    }
    // guard at (1, 1); one step up to (1, 2) is left of the escape cell
    let r = env.step(&both(9, 3)).unwrap();
    assert_eq!((env.guard_x(), env.guard_y()), (1, 2));
    assert_eq!(r.observations.guard.action_mask, (1, 0, 1, 1));
    let r = env.step(&both(9, 2)).unwrap();
    assert_eq!(r.observations.guard.action_mask, (1, 1, 1, 1));
    let r = env.step(&both(9, 1)).unwrap();
    assert_eq!((env.guard_x(), env.guard_y()), (2, 1));
    assert_eq!(r.observations.guard.action_mask, (1, 1, 1, 0));
}

#[test]
fn prisoner_mask_at_far_corner() {
    let mut env = Env::new();
    env.reset_with_escape(2, 2);
    for _ in 0..6 {
        env.step(&both(3, 9)).unwrap();
    }
    let mut last = None;
    for _ in 0..7 {
        last = Some(env.step(&both(1, 9)).unwrap());
    }
    let r = last.unwrap();
    assert_eq!((env.prisoner_x(), env.prisoner_y()), (6, 6));
    assert_eq!(r.observations.prisoner.action_mask, (1, 0, 1, 0));
    assert_eq!(r.observations.prisoner.observation, (48, 0, 16));
}

#[test]
fn agent_list_setters() {
    let mut env = Env::new();
    env.set_possible_agents(vec![AgentType::Guard]);
    env.set_agents(vec![]);
    assert!(env.agents().is_empty());
    env.reset_with_escape(2, 3);
    assert_eq!(env.agents(), vec![AgentType::Guard]);
    assert_eq!(env.possible_agents(), vec![AgentType::Guard]);
}
