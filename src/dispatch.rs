//! The dispatcher: from one envelope to at most one typed domain event.
use vstd::prelude::*;
use crate::action::S2CActionTypes;
use crate::codec::{GenericIncomingRequest, sentinel};
use crate::payload::{
    GotCrackerResponseData, LeaderboardUpdateData, MoveResponseData, NewJoinerData, QuackResponseData,
    UserDisconnectedData, got_cracker_of, is_leaderboard_update_or_placeholder, is_move_response_or_placeholder,
    is_new_joiner_or_placeholder, is_quack_response_or_placeholder, is_user_disconnected_or_placeholder,
};

verus! {

/// The local player joined the game.
pub struct YouJoinedWsReceived {
    pub data: NewJoinerData,
}

/// Another player joined the game.
pub struct OtherPlayerJoinedWsReceived {
    pub data: NewJoinerData,
}

/// Another player quacked.
pub struct OtherPlayerQuackedWsReceived {
    pub data: QuackResponseData,
}

/// Another player moved.
pub struct OtherPlayerMovedWsReceived {
    pub data: MoveResponseData,
}

/// The crackers moved to a new place with a new point value.
pub struct MoveCrackersBevyEvent {
    /// JSON number text.
    pub x_position: String,
    /// JSON number text.
    pub y_position: String,
    pub points: u64,
    /// Whether the local player collected them.
    pub you_got_crackers: bool,
}

/// The local player's score changed.
pub struct UpdateYourScoreBevyEvent {
    pub new_score: u64,
}

/// A player left the game.
pub struct UserDisconnectedBevyEvent {
    pub data: UserDisconnectedData,
}

/// New standings.
pub struct UpdateLeaderboardBevyEvent {
    pub data: LeaderboardUpdateData,
}

/// What the rest of the game hears of one inbound envelope.
pub enum DomainEvent {
    YouJoined(YouJoinedWsReceived),
    OtherPlayerJoined(OtherPlayerJoinedWsReceived),
    OtherPlayerQuacked(OtherPlayerQuackedWsReceived),
    OtherPlayerMoved(OtherPlayerMovedWsReceived),
    /// The local player collected the crackers: they move, the score changes,
    /// and the game plays its cracker sound.
    YouGotCrackers(MoveCrackersBevyEvent, UpdateYourScoreBevyEvent),
    /// Another player collected the crackers: they move.
    OtherPlayerGotCrackers(MoveCrackersBevyEvent),
    UserDisconnected(UserDisconnectedBevyEvent),
    LeaderboardUpdate(UpdateLeaderboardBevyEvent),
}

/// The cracker move that a cracker payload announces.
pub open spec fn moves_crackers(p: GotCrackerResponseData, m: MoveCrackersBevyEvent, you: bool) -> bool {
    m.x_position == p.new_cracker_x_position && m.y_position == p.new_cracker_y_position
        && m.points == p.new_cracker_point_value && m.you_got_crackers == you
}

/// The cracker move that a cracker payload document announces, or the one
/// that its placeholder announces.
pub open spec fn moves_crackers_for(doc: crate::json::Json, m: MoveCrackersBevyEvent, you: bool) -> bool {
    match got_cracker_of(doc) {
        Some(p) => moves_crackers(p, m, you),
        None => m.x_position@ == "0.0"@ && m.y_position@ == "0.0"@ && m.points == 0 && m.you_got_crackers == you,
    }
}

/// The score that a cracker payload document announces: zero for its
/// placeholder.
pub open spec fn score_for(doc: crate::json::Json) -> u64 {
    match got_cracker_of(doc) {
        Some(p) => p.new_player_score,
        None => 0,
    }
}

/// Whether the dispatcher publishes `r` for envelope `env`. The acknowledgements
/// of the local player's own moves and quacks, deaths, and the sentinel publish
/// nothing; every other action publishes its event with its typed payload, or
/// the placeholder where the payload cannot be read.
pub open spec fn publishes(env: GenericIncomingRequest, r: Option<DomainEvent>) -> bool {
    match env.action_type {
        S2CActionTypes::YouJoined => match r {
            Some(DomainEvent::YouJoined(e)) => is_new_joiner_or_placeholder(env.data, e.data),
            _ => false,
        },
        S2CActionTypes::OtherPlayerJoined => match r {
            Some(DomainEvent::OtherPlayerJoined(e)) => is_new_joiner_or_placeholder(env.data, e.data),
            _ => false,
        },
        S2CActionTypes::OtherPlayerQuacked => match r {
            Some(DomainEvent::OtherPlayerQuacked(e)) => is_quack_response_or_placeholder(env.data, e.data),
            _ => false,
        },
        S2CActionTypes::OtherPlayerMoved => match r {
            Some(DomainEvent::OtherPlayerMoved(e)) => is_move_response_or_placeholder(env.data, e.data),
            _ => false,
        },
        S2CActionTypes::YouGotCrackers => match r {
            Some(DomainEvent::YouGotCrackers(m, s)) => moves_crackers_for(env.data, m, true)
                && s.new_score == score_for(env.data),
            _ => false,
        },
        S2CActionTypes::OtherPlayerGotCrackers => match r {
            Some(DomainEvent::OtherPlayerGotCrackers(m)) => moves_crackers_for(env.data, m, false),
            _ => false,
        },
        S2CActionTypes::UserDisconnected => match r {
            Some(DomainEvent::UserDisconnected(e)) => is_user_disconnected_or_placeholder(env.data, e.data),
            _ => false,
        },
        S2CActionTypes::LeaderboardUpdate => match r {
            Some(DomainEvent::LeaderboardUpdate(e)) => is_leaderboard_update_or_placeholder(env.data, e.data),
            _ => false,
        },
        S2CActionTypes::YouQuacked | S2CActionTypes::YouMoved | S2CActionTypes::YouDied
        | S2CActionTypes::OtherPlayerGotDied | S2CActionTypes::Empty => r is None,
    }
}

/// The cracker move that a cracker payload announces.
fn crackers_moved(p: &GotCrackerResponseData, you: bool) -> (m: MoveCrackersBevyEvent)
    ensures
        moves_crackers(*p, m, you),
{
    MoveCrackersBevyEvent {
        x_position: p.new_cracker_x_position.clone(),
        y_position: p.new_cracker_y_position.clone(),
        points: p.new_cracker_point_value,
        you_got_crackers: you,
    }
}

/// Maps one envelope to the event it publishes, if any. Total: no envelope
/// makes it fail.
pub fn dispatch(env: &GenericIncomingRequest) -> (r: Option<DomainEvent>)
    ensures
        publishes(*env, r),
{
    match env.action_type {
        S2CActionTypes::YouJoined => Some(DomainEvent::YouJoined(
            YouJoinedWsReceived { data: NewJoinerData::from_document_or_placeholder(&env.data) },
        )),
        S2CActionTypes::OtherPlayerJoined => Some(DomainEvent::OtherPlayerJoined(
            OtherPlayerJoinedWsReceived { data: NewJoinerData::from_document_or_placeholder(&env.data) },
        )),
        S2CActionTypes::OtherPlayerQuacked => Some(DomainEvent::OtherPlayerQuacked(
            OtherPlayerQuackedWsReceived { data: QuackResponseData::from_document_or_placeholder(&env.data) },
        )),
        S2CActionTypes::OtherPlayerMoved => Some(DomainEvent::OtherPlayerMoved(
            OtherPlayerMovedWsReceived { data: MoveResponseData::from_document_or_placeholder(&env.data) },
        )),
        S2CActionTypes::YouGotCrackers => {
            let p = GotCrackerResponseData::from_document_or_placeholder(&env.data);
            let m = crackers_moved(&p, true);
            let s = UpdateYourScoreBevyEvent { new_score: p.new_player_score };
            Some(DomainEvent::YouGotCrackers(m, s))
        },
        S2CActionTypes::OtherPlayerGotCrackers => {
            let p = GotCrackerResponseData::from_document_or_placeholder(&env.data);
            Some(DomainEvent::OtherPlayerGotCrackers(crackers_moved(&p, false)))
        },
        S2CActionTypes::UserDisconnected => Some(DomainEvent::UserDisconnected(
            UserDisconnectedBevyEvent { data: UserDisconnectedData::from_document_or_placeholder(&env.data) },
        )),
        S2CActionTypes::LeaderboardUpdate => Some(DomainEvent::LeaderboardUpdate(
            UpdateLeaderboardBevyEvent { data: LeaderboardUpdateData::from_document_or_placeholder(&env.data) },
        )),
        S2CActionTypes::YouQuacked | S2CActionTypes::YouMoved | S2CActionTypes::YouDied
        | S2CActionTypes::OtherPlayerGotDied | S2CActionTypes::Empty => None,
    }
}

/// The sentinel publishes nothing.
pub proof fn lemma_sentinel_publishes_nothing(r: Option<DomainEvent>)
    requires
        publishes(sentinel(), r),
    ensures
        r is None,
{
}

/// A cracker payload of the local player that lacks `new_player_score` still
/// publishes the cracker event, with the placeholder's score of zero.
pub proof fn lemma_missing_score_is_zero(env: GenericIncomingRequest, r: Option<DomainEvent>)
    requires
        env.action_type == S2CActionTypes::YouGotCrackers,
        crate::json::member_of(env.data, "new_player_score"@) is None,
        publishes(env, r),
    ensures
        r matches Some(DomainEvent::YouGotCrackers(m, s)) && s.new_score == 0 && m.points == 0,
{
}

} // verus!
