use game_of_life::cell::CellState;
use game_of_life::policy::{
    Rules, Topology, Variant, CLASSIC_SIZE, GENERATION_DELAY_MS, THREE_STATE_SIZE,
};

#[test]
fn each_state_has_its_glyph() {
    assert_eq!(CellState::Dead.character(), "░░░");
    assert_eq!(CellState::Alive.character(), "███");
    assert_eq!(CellState::Infected.character(), "XXX");
}

#[test]
fn glyphs_are_three_characters_wide_and_distinct() {
    let states = [CellState::Dead, CellState::Alive, CellState::Infected];
    for first in states {
        assert_eq!(first.character().chars().count(), 3);
        for second in states {
            if first != second {
                assert_ne!(first.character(), second.character());
            }
        }
    }
}

#[test]
fn percent_draw_picks_state_at_each_boundary() {
    assert_eq!(CellState::from_percent(0), CellState::Alive);
    assert_eq!(CellState::from_percent(51), CellState::Alive);
    assert_eq!(CellState::from_percent(52), CellState::Dead);
    assert_eq!(CellState::from_percent(98), CellState::Dead);
    assert_eq!(CellState::from_percent(99), CellState::Infected);
}

#[test]
fn percent_draw_beyond_the_range_is_infected() {
    assert_eq!(CellState::from_percent(100), CellState::Infected);
    assert_eq!(CellState::from_percent(u32::MAX), CellState::Infected);
}

#[test]
fn hundred_draws_split_52_47_1() {
    let mut alive = 0;
    let mut dead = 0;
    let mut infected = 0;
    for draw in 0..100u32 {
        match CellState::from_percent(draw) {
            CellState::Alive => alive += 1,
            CellState::Dead => dead += 1,
            CellState::Infected => infected += 1,
        }
    }
    assert_eq!((alive, dead, infected), (52, 47, 1));
}

#[test]
fn coin_picks_alive_or_dead() {
    assert_eq!(CellState::from_coin(true), CellState::Alive);
    assert_eq!(CellState::from_coin(false), CellState::Dead);
}

#[test]
fn three_state_rules_on_an_alive_cell() {
    let rules = Rules::ThreeState;
    assert_eq!(rules.next_state(CellState::Alive, 0, 0), CellState::Dead);
    assert_eq!(rules.next_state(CellState::Alive, 1, 0), CellState::Dead);
    assert_eq!(rules.next_state(CellState::Alive, 2, 0), CellState::Alive);
    assert_eq!(rules.next_state(CellState::Alive, 3, 0), CellState::Alive);
    assert_eq!(rules.next_state(CellState::Alive, 4, 0), CellState::Dead);
    assert_eq!(rules.next_state(CellState::Alive, 8, 0), CellState::Dead);
    assert_eq!(rules.next_state(CellState::Alive, 2, 1), CellState::Alive);
    assert_eq!(rules.next_state(CellState::Alive, 1, 1), CellState::Dead);
}

#[test]
fn infection_takes_precedence_over_death_and_survival() {
    let rules = Rules::ThreeState;
    assert_eq!(rules.next_state(CellState::Alive, 2, 2), CellState::Infected);
    assert_eq!(rules.next_state(CellState::Alive, 0, 2), CellState::Infected);
    assert_eq!(rules.next_state(CellState::Alive, 5, 3), CellState::Infected);
    assert_eq!(rules.next_state(CellState::Alive, 0, 8), CellState::Infected);
}

#[test]
fn three_state_rules_on_a_dead_cell() {
    let rules = Rules::ThreeState;
    assert_eq!(rules.next_state(CellState::Dead, 3, 0), CellState::Alive);
    assert_eq!(rules.next_state(CellState::Dead, 2, 0), CellState::Dead);
    assert_eq!(rules.next_state(CellState::Dead, 4, 0), CellState::Dead);
    assert_eq!(rules.next_state(CellState::Dead, 0, 0), CellState::Dead);
}

#[test]
fn infection_does_not_reach_dead_cells() {
    let rules = Rules::ThreeState;
    assert_eq!(rules.next_state(CellState::Dead, 0, 8), CellState::Dead);
    assert_eq!(rules.next_state(CellState::Dead, 2, 5), CellState::Dead);
    assert_eq!(rules.next_state(CellState::Dead, 3, 5), CellState::Alive);
}

#[test]
fn infected_cell_stays_infected_whatever_surrounds_it() {
    let rules = Rules::ThreeState;
    for alive in 0..=8 {
        for infected in 0..=(8 - alive) {
            assert_eq!(
                rules.next_state(CellState::Infected, alive, infected),
                CellState::Infected
            );
        }
    }
}

#[test]
fn classic_rules_table() {
    let rules = Rules::Classic;
    assert_eq!(rules.next_state(CellState::Alive, 0, 0), CellState::Dead);
    assert_eq!(rules.next_state(CellState::Alive, 1, 0), CellState::Dead);
    assert_eq!(rules.next_state(CellState::Alive, 2, 0), CellState::Alive);
    assert_eq!(rules.next_state(CellState::Alive, 3, 0), CellState::Alive);
    assert_eq!(rules.next_state(CellState::Alive, 4, 0), CellState::Dead);
    assert_eq!(rules.next_state(CellState::Dead, 3, 0), CellState::Alive);
    assert_eq!(rules.next_state(CellState::Dead, 2, 0), CellState::Dead);
    assert_eq!(rules.next_state(CellState::Dead, 4, 0), CellState::Dead);
}

#[test]
fn classic_rules_ignore_infected_neighbors() {
    let rules = Rules::Classic;
    assert_eq!(rules.next_state(CellState::Alive, 2, 6), CellState::Alive);
    assert_eq!(rules.next_state(CellState::Alive, 1, 7), CellState::Dead);
    assert_eq!(rules.next_state(CellState::Dead, 3, 5), CellState::Alive);
}

#[test]
fn classic_rules_never_give_infected() {
    let rules = Rules::Classic;
    let states = [CellState::Dead, CellState::Alive, CellState::Infected];
    for current in states {
        for alive in 0..=8 {
            for infected in 0..=8 {
                assert_ne!(rules.next_state(current, alive, infected), CellState::Infected);
            }
        }
    }
}

#[test]
fn rules_say_which_states_they_allow() {
    assert!(Rules::ThreeState.allows(CellState::Dead));
    assert!(Rules::ThreeState.allows(CellState::Alive));
    assert!(Rules::ThreeState.allows(CellState::Infected));
    assert!(Rules::Classic.allows(CellState::Dead));
    assert!(Rules::Classic.allows(CellState::Alive));
    assert!(!Rules::Classic.allows(CellState::Infected));
}

#[test]
fn presets_have_their_size_topology_and_rules() {
    assert_eq!(Variant::ThreeState.size(), 30);
    assert_eq!(Variant::ThreeState.topology(), Topology::Bounded);
    assert_eq!(Variant::ThreeState.rules(), Rules::ThreeState);
    assert_eq!(Variant::Classic.size(), 130);
    assert_eq!(Variant::Classic.topology(), Topology::Toroidal);
    assert_eq!(Variant::Classic.rules(), Rules::Classic);
}

#[test]
fn configuration_constants() {
    assert_eq!(THREE_STATE_SIZE, 30);
    assert_eq!(CLASSIC_SIZE, 130);
    assert_eq!(GENERATION_DELAY_MS, 60);
}
