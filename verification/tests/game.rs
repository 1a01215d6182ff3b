use rand::Rng;

use guessing_game::contract::{
    execute, instantiate, query, query_current_game, query_current_participants,
    submit_guess_with_secret, try_submit_guess,
};
use guessing_game::error::ContractError;
use guessing_game::msg::{
    Direction, ExecuteMsg, InstantiateMsg, QueryAnswer, QueryMsg,
};
use guessing_game::state::GameState;

#[test]
fn proper_initialization() {
    let mut rng = rand::thread_rng();
    let msg = InstantiateMsg { originalHiddenNumber: rng.gen_range(1..11) };

    let (store, res) = instantiate(msg, "creator".to_owned());
    assert_eq!(4, res.attributes.len());
    assert_eq!("games_played_so_far", res.attributes[3].key);
    assert_eq!("0", res.attributes[3].value);

    // it worked, let's query the state
    let res = query(&store, QueryMsg::GetCurrentGame {}).unwrap();
    match res {
        QueryAnswer::CurrentGame(value) => assert_eq!(0, value.current_game_number),
        _ => panic!("expected the current-game answer"),
    }
}

#[test]
fn first_guess_too_high_hints_lower() {
    let (mut store, _) = instantiate(
        InstantiateMsg { originalHiddenNumber: 2 },
        "creator".to_owned(),
    );
    let res = try_submit_guess(&mut store, "user1".to_owned(), 3).unwrap();
    assert_eq!(1, res.attributes.len());
    assert_eq!("direction", res.attributes[0].key);
    assert_eq!("go lower", res.attributes[0].value);

    let round = store.load_round(0).unwrap();
    assert_eq!(vec!["user1".to_owned()], round.participants);
    assert_eq!(3, round.last_attempt);
    assert_eq!(2, round.secret_number);
}

#[test]
fn two_first_time_guessers_are_both_recorded() {
    let (mut store, _) = instantiate(
        InstantiateMsg { originalHiddenNumber: 2 },
        "creator".to_owned(),
    );
    try_submit_guess(&mut store, "user1".to_owned(), 3).unwrap();
    try_submit_guess(&mut store, "user2".to_owned(), 5).unwrap();

    let resp = query_current_participants(&store).unwrap();
    assert_eq!(
        vec!["user1".to_owned(), "user2".to_owned()],
        resp.participants
    );
}

#[test]
fn correct_guess_closes_round_and_opens_next() {
    let (mut store, _) = instantiate(
        InstantiateMsg { originalHiddenNumber: 2 },
        "creator".to_owned(),
    );
    let res = try_submit_guess(&mut store, "user1".to_owned(), 2).unwrap();
    assert_eq!("correct", res.attributes[0].value);

    let game = query_current_game(&store).unwrap();
    assert_eq!(1, game.current_game_number);
    assert_eq!(0, game.last_guess);
    assert_eq!(Direction::Higher, game.direction);

    // the freshly opened round: empty, untouched, secret within [1,10]
    let next = store.load_round(1).unwrap();
    assert_eq!(1, next.current_game_number);
    assert_eq!(0, next.last_attempt);
    assert!(next.participants.is_empty());
    assert!(1 <= next.secret_number && next.secret_number <= 10);

    // the closed round keeps its record
    let closed = store.load_round(0).unwrap();
    assert_eq!(vec!["user1".to_owned()], closed.participants);
    assert_eq!(2, closed.secret_number);
}

#[test]
fn repeat_guesser_is_not_recorded_but_still_hinted() {
    let (mut store, _) = instantiate(
        InstantiateMsg { originalHiddenNumber: 2 },
        "creator".to_owned(),
    );
    try_submit_guess(&mut store, "user1".to_owned(), 3).unwrap();
    let res = try_submit_guess(&mut store, "user1".to_owned(), 1).unwrap();

    // the hint reflects the just-submitted guess (1 < 2)
    assert_eq!("go higher", res.attributes[0].value);

    // ... while the round record is untouched by the repeat guess
    let round = store.load_round(0).unwrap();
    assert_eq!(vec!["user1".to_owned()], round.participants);
    assert_eq!(3, round.last_attempt);

    // the stale record also drives the query-side hint (3 > 2 means Lower)
    let game = query_current_game(&store).unwrap();
    assert_eq!(3, game.last_guess);
    assert_eq!(Direction::Lower, game.direction);
}

#[test]
fn injected_secret_seeds_the_next_round() {
    let (mut store, _) = instantiate(
        InstantiateMsg { originalHiddenNumber: 9 },
        "creator".to_owned(),
    );
    let res = submit_guess_with_secret(&mut store, "user1".to_owned(), 9, 7).unwrap();
    assert_eq!("correct", res.attributes[0].value);
    assert_eq!(1, store.get_current_round_id());
    assert_eq!(7, store.load_round(1).unwrap().secret_number);
}

#[test]
fn execute_dispatches_a_guess() {
    let (mut store, _) = instantiate(
        InstantiateMsg { originalHiddenNumber: 4 },
        "creator".to_owned(),
    );
    let res = execute(
        &mut store,
        "user1".to_owned(),
        ExecuteMsg::SendGuess { guess: 10 },
    )
    .unwrap();
    assert_eq!("go lower", res.attributes[0].value);
    assert_eq!(10, store.load_round(0).unwrap().last_attempt);
}

#[test]
fn query_dispatches_both_requests() {
    let (mut store, _) = instantiate(
        InstantiateMsg { originalHiddenNumber: 2 },
        "creator".to_owned(),
    );
    try_submit_guess(&mut store, "user1".to_owned(), 6).unwrap();

    match query(&store, QueryMsg::GetParticipants {}).unwrap() {
        QueryAnswer::Participants(resp) => {
            assert_eq!(vec!["user1".to_owned()], resp.participants)
        }
        _ => panic!("expected the participants answer"),
    }
    match query(&store, QueryMsg::GetCurrentGame {}).unwrap() {
        QueryAnswer::CurrentGame(resp) => {
            assert_eq!(0, resp.current_game_number);
            assert_eq!(6, resp.last_guess);
            assert_eq!(Direction::Lower, resp.direction);
        }
        _ => panic!("expected the current-game answer"),
    }
}

#[test]
fn missing_round_is_reported_as_game_not_found() {
    let (mut store, _) = instantiate(
        InstantiateMsg { originalHiddenNumber: 2 },
        "creator".to_owned(),
    );
    assert_eq!(
        Err(ContractError::GameNotFound { gamen: 5 }),
        store.load_round(5).map(|g| g.clone())
    );

    // a dangling current-round pointer surfaces the same error on queries
    store.set_current_round_id(9);
    assert_eq!(
        Err(ContractError::GameNotFound { gamen: 9 }),
        query_current_game(&store)
    );
    assert_eq!(
        Err(ContractError::GameNotFound { gamen: 9 }),
        query_current_participants(&store)
    );
    match query(&store, QueryMsg::GetCurrentGame {}) {
        Err(ContractError::GameNotFound { gamen }) => assert_eq!(9, gamen),
        _ => panic!("expected the round-not-found error"),
    }
}

#[test]
fn save_round_overwrites_and_appends() {
    let (mut store, _) = instantiate(
        InstantiateMsg { originalHiddenNumber: 2 },
        "creator".to_owned(),
    );
    let replacement = GameState {
        current_game_number: 0,
        secret_number: 8,
        last_attempt: 4,
        participants: vec!["user9".to_owned()],
    };
    store.save_round(0, replacement);
    let round = store.load_round(0).unwrap();
    assert_eq!(8, round.secret_number);
    assert_eq!(4, round.last_attempt);
    assert_eq!(vec!["user9".to_owned()], round.participants);

    let appended = GameState {
        current_game_number: 1,
        secret_number: 3,
        last_attempt: 0,
        participants: Vec::new(),
    };
    store.save_round(1, appended);
    assert_eq!(3, store.load_round(1).unwrap().secret_number);
    assert_eq!(0, store.get_current_round_id());
}

#[test]
fn wins_chain_through_consecutive_rounds() {
    let (mut store, _) = instantiate(
        InstantiateMsg { originalHiddenNumber: 5 },
        "creator".to_owned(),
    );
    let res = submit_guess_with_secret(&mut store, "user1".to_owned(), 5, 6).unwrap();
    assert_eq!("correct", res.attributes[0].value);
    let res = submit_guess_with_secret(&mut store, "user2".to_owned(), 6, 1).unwrap();
    assert_eq!("correct", res.attributes[0].value);

    // round ids went 0 -> 1 -> 2, one per win, and every round is kept
    assert_eq!(2, store.get_current_round_id());
    assert_eq!(5, store.load_round(0).unwrap().secret_number);
    assert_eq!(6, store.load_round(1).unwrap().secret_number);
    assert_eq!(1, store.load_round(2).unwrap().secret_number);
    assert_eq!(vec!["user1".to_owned()], store.load_round(0).unwrap().participants);
    assert_eq!(vec!["user2".to_owned()], store.load_round(1).unwrap().participants);
    assert!(store.load_round(2).unwrap().participants.is_empty());
}
