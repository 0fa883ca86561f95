use mediad::select::{
    counted, players_with_status, position_of_name, select, unasked, Candidate, PlaybackStatus,
    SelectionError, SelectorState,
};

fn player(name: &str, status: PlaybackStatus) -> Candidate {
    Candidate { name: name.to_string(), status: Some(status) }
}

fn silent(name: &str) -> Candidate {
    Candidate { name: name.to_string(), status: None }
}

fn remembering(name: &str) -> SelectorState {
    SelectorState { last_active_player: Some(name.to_string()) }
}

#[test]
fn new_selector_remembers_nothing() {
    assert_eq!(SelectorState::new().last_active_player, None);
    assert_eq!(SelectorState::default(), SelectorState::new());
}

#[test]
fn unknown_status_counts_as_stopped() {
    assert_eq!(counted(None), PlaybackStatus::Stopped);
    assert_eq!(counted(Some(PlaybackStatus::Playing)), PlaybackStatus::Playing);
    assert_eq!(counted(Some(PlaybackStatus::Paused)), PlaybackStatus::Paused);
    assert_eq!(counted(Some(PlaybackStatus::Stopped)), PlaybackStatus::Stopped);
}

#[test]
fn players_are_grouped_by_status_in_order() {
    let players = vec![
        player(":1.1", PlaybackStatus::Paused),
        player(":1.2", PlaybackStatus::Playing),
        silent(":1.3"),
        player(":1.4", PlaybackStatus::Paused),
        player(":1.5", PlaybackStatus::Stopped),
    ];
    assert_eq!(players_with_status(&players, PlaybackStatus::Playing), vec![1]);
    assert_eq!(players_with_status(&players, PlaybackStatus::Paused), vec![0, 3]);
    assert_eq!(players_with_status(&players, PlaybackStatus::Stopped), vec![2, 4]);
    assert_eq!(players_with_status(&Vec::new(), PlaybackStatus::Stopped), Vec::<usize>::new());
}

#[test]
fn a_name_is_found_at_its_first_place() {
    let players = vec![silent(":1.7"), silent(":1.9"), silent(":1.7"), silent(":1.8")];
    assert_eq!(position_of_name(&players, &":1.7".to_string()), Some(0));
    assert_eq!(position_of_name(&players, &":1.9".to_string()), Some(1));
    assert_eq!(position_of_name(&players, &":1.8".to_string()), Some(3));
    assert_eq!(position_of_name(&players, &":1.6".to_string()), None);
    assert_eq!(position_of_name(&players, &"".to_string()), None);
    assert_eq!(position_of_name(&Vec::new(), &":1.7".to_string()), None);
}

#[test]
fn unasked_players_keep_their_names_and_order() {
    let names = vec![":1.3".to_string(), ":1.1".to_string()];
    assert_eq!(unasked(&names), vec![silent(":1.3"), silent(":1.1")]);
    assert_eq!(unasked(&Vec::new()), Vec::<Candidate>::new());
}

#[test]
fn no_player_is_an_error() {
    let mut selector = remembering(":1.5");
    assert_eq!(select(&Vec::new(), &mut selector), Err(SelectionError::NoPlayerFound));
    assert_eq!(selector, remembering(":1.5"));
}

#[test]
fn single_player_is_chosen_without_a_status() {
    let mut selector = SelectorState::new();
    assert_eq!(select(&vec![silent(":1.5")], &mut selector), Ok(0));
    assert_eq!(selector, SelectorState::new());
}

#[test]
fn single_player_is_chosen_whatever_its_status() {
    for status in [PlaybackStatus::Playing, PlaybackStatus::Paused, PlaybackStatus::Stopped] {
        let mut selector = remembering(":1.9");
        assert_eq!(select(&vec![player(":1.5", status)], &mut selector), Ok(0));
        assert_eq!(selector, remembering(":1.9"));
    }
}

#[test]
fn playing_player_is_preferred() {
    let players = vec![
        player(":1.1", PlaybackStatus::Stopped),
        player(":1.2", PlaybackStatus::Playing),
        player(":1.3", PlaybackStatus::Paused),
    ];
    let mut selector = SelectorState::new();
    assert_eq!(select(&players, &mut selector), Ok(1));
    assert_eq!(selector, remembering(":1.2"));
}

#[test]
fn playing_player_wins_over_the_remembered_one() {
    let players = vec![
        player(":1.1", PlaybackStatus::Stopped),
        player(":1.2", PlaybackStatus::Playing),
        player(":1.3", PlaybackStatus::Paused),
    ];
    let mut selector = remembering(":1.3");
    assert_eq!(select(&players, &mut selector), Ok(1));
    assert_eq!(selector, remembering(":1.2"));
}

#[test]
fn first_of_several_playing_players_is_chosen() {
    let players = vec![
        player(":1.1", PlaybackStatus::Paused),
        player(":1.2", PlaybackStatus::Playing),
        player(":1.3", PlaybackStatus::Playing),
    ];
    let mut selector = remembering(":1.3");
    assert_eq!(select(&players, &mut selector), Ok(1));
    assert_eq!(selector, remembering(":1.2"));
}

#[test]
fn only_paused_player_is_chosen() {
    let players = vec![
        player(":1.1", PlaybackStatus::Stopped),
        player(":1.2", PlaybackStatus::Stopped),
        player(":1.3", PlaybackStatus::Paused),
    ];
    let mut selector = remembering(":1.1");
    assert_eq!(select(&players, &mut selector), Ok(2));
    assert_eq!(selector, remembering(":1.3"));
}

#[test]
fn several_paused_players_fall_back_to_the_first() {
    let players = vec![
        player(":1.1", PlaybackStatus::Stopped),
        player(":1.2", PlaybackStatus::Paused),
        player(":1.3", PlaybackStatus::Paused),
    ];
    let mut selector = SelectorState::new();
    assert_eq!(select(&players, &mut selector), Ok(0));
    assert_eq!(selector, remembering(":1.1"));
}

#[test]
fn several_paused_players_fall_back_to_the_remembered_one() {
    let players = vec![
        player(":1.1", PlaybackStatus::Stopped),
        player(":1.2", PlaybackStatus::Paused),
        player(":1.3", PlaybackStatus::Paused),
    ];
    let mut selector = remembering(":1.3");
    assert_eq!(select(&players, &mut selector), Ok(2));
    assert_eq!(selector, remembering(":1.3"));
}

#[test]
fn stopped_players_fall_back_to_the_first() {
    let players =
        vec![player(":1.1", PlaybackStatus::Stopped), player(":1.2", PlaybackStatus::Stopped)];
    let mut selector = SelectorState::new();
    assert_eq!(select(&players, &mut selector), Ok(0));
    assert_eq!(selector, remembering(":1.1"));
}

#[test]
fn stopped_players_fall_back_to_the_remembered_one() {
    let players =
        vec![player(":1.1", PlaybackStatus::Stopped), player(":1.2", PlaybackStatus::Stopped)];
    let mut selector = remembering(":1.2");
    assert_eq!(select(&players, &mut selector), Ok(1));
    assert_eq!(selector, remembering(":1.2"));
}

#[test]
fn a_remembered_player_that_is_gone_gives_way_to_the_first() {
    let players =
        vec![player(":1.1", PlaybackStatus::Stopped), player(":1.2", PlaybackStatus::Stopped)];
    let mut selector = remembering(":1.9");
    assert_eq!(select(&players, &mut selector), Ok(0));
    assert_eq!(selector, remembering(":1.1"));
}

#[test]
fn a_player_that_did_not_answer_counts_as_stopped() {
    let players = vec![silent(":1.1"), player(":1.2", PlaybackStatus::Paused), silent(":1.3")];
    let mut selector = remembering(":1.3");
    assert_eq!(select(&players, &mut selector), Ok(1));
    assert_eq!(selector, remembering(":1.2"));

    let players = vec![silent(":1.1"), silent(":1.2"), silent(":1.3")];
    let mut selector = remembering(":1.3");
    assert_eq!(select(&players, &mut selector), Ok(2));
    let mut selector = SelectorState::new();
    assert_eq!(select(&players, &mut selector), Ok(0));
}

#[test]
fn selecting_again_keeps_the_player() {
    let players = vec![
        player(":1.1", PlaybackStatus::Paused),
        player(":1.2", PlaybackStatus::Paused),
        player(":1.3", PlaybackStatus::Stopped),
    ];
    let mut selector = remembering(":1.2");
    let first = select(&players, &mut selector);
    let memory = selector.clone();
    let second = select(&players, &mut selector);
    assert_eq!(first, Ok(1));
    assert_eq!(second, first);
    assert_eq!(selector, memory);
}

#[test]
fn the_choice_follows_the_player_through_a_new_order() {
    let mut selector = SelectorState::new();
    let players =
        vec![player(":1.1", PlaybackStatus::Stopped), player(":1.2", PlaybackStatus::Stopped)];
    assert_eq!(select(&players, &mut selector), Ok(0));
    let players = vec![
        player(":1.2", PlaybackStatus::Stopped),
        player(":1.4", PlaybackStatus::Stopped),
        player(":1.1", PlaybackStatus::Stopped),
    ];
    assert_eq!(select(&players, &mut selector), Ok(2));
    assert_eq!(selector, remembering(":1.1"));
}

#[test]
fn a_remembered_name_held_twice_means_its_first_holder() {
    let players = vec![
        player(":1.1", PlaybackStatus::Stopped),
        player(":1.2", PlaybackStatus::Stopped),
        player(":1.2", PlaybackStatus::Stopped),
    ];
    let mut selector = remembering(":1.2");
    assert_eq!(select(&players, &mut selector), Ok(1));
}
