use grapple_climb::state::GameState;

#[test]
fn the_game_starts_in_its_menu() {
    assert_eq!(GameState::default(), GameState::Menu);
}

#[test]
fn starting_sets_the_world_up_once() {
    let mut state = GameState::default();
    assert!(state.start());
    assert_eq!(state, GameState::Playing);
    assert!(!state.start());
    assert_eq!(state, GameState::Playing);
}
