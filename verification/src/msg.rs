//! Message and response shapes exchanged with the host boundary.

use vstd::prelude::*;

verus! {

/// Request that creates round 0 with the given hidden number.
#[allow(non_snake_case)]
#[derive(Clone, Debug, PartialEq, Eq, Structural)]
pub struct InstantiateMsg {
    pub originalHiddenNumber: u8,
}

/// The single state-changing request: submit a guess for the current round.
#[derive(Clone, Debug, PartialEq, Eq, Structural)]
pub enum ExecuteMsg {
    SendGuess { guess: u8 },
}

/// Read-only requests against the current round.
#[derive(Clone, Debug, PartialEq, Eq, Structural)]
pub enum QueryMsg {
    GetParticipants {},
    GetCurrentGame {},
}

/// Hint telling a guesser which way to adjust the next guess.
#[derive(Clone, Debug, PartialEq, Eq, Structural)]
pub enum Direction {
    Higher,
    Lower,
}

/// One key/value pair of a response payload.
#[derive(Clone, Debug, PartialEq)]
pub struct Attribute {
    pub key: String,
    pub value: String,
}

/// What an engine operation hands back to the host to relay.
#[derive(Clone, Debug, PartialEq)]
pub struct Response {
    pub attributes: Vec<Attribute>,
}

/// Answer to `QueryMsg::GetParticipants`.
#[derive(Clone, Debug, PartialEq)]
pub struct CurrentParticipantsResponse {
    pub participants: Vec<String>,
}

/// Answer to `QueryMsg::GetCurrentGame`.
#[derive(Clone, Debug, PartialEq, Eq, Structural)]
pub struct CurrentGameResponse {
    pub current_game_number: u8,
    pub last_guess: u8,
    pub direction: Direction,
}

/// Answer to a `QueryMsg`, tagged by the request it answers.
#[derive(Clone, Debug, PartialEq)]
pub enum QueryAnswer {
    CurrentGame(CurrentGameResponse),
    Participants(CurrentParticipantsResponse),
}

} // verus!
