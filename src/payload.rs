//! The typed payloads of the protocol's actions, each read from the `data`
//! document of an envelope. A payload that lacks a field, or holds one of the
//! wrong kind, is refused; the dispatcher then puts a placeholder in its place.
//! Positions, directions and pitches are numbers that the library does not
//! compute with: they are kept as their JSON text.
use vstd::prelude::*;
use crate::json::{Json, string_member, number_member, count_member};

verus! {

/// A player who joined: the local one or another.
pub struct NewJoinerData {
    pub player_uuid: String,
    pub player_friendly_name: String,
    pub color: String,
    pub x_position: String,
    pub y_position: String,
}

/// The `NewJoinerData` that a document holds: every field present, of its kind.
pub open spec fn new_joiner_of(doc: Json) -> Option<NewJoinerData> {
    if string_member(doc, "player_uuid"@) is Some
        && string_member(doc, "player_friendly_name"@) is Some
        && string_member(doc, "color"@) is Some
        && number_member(doc, "x_position"@) is Some
        && number_member(doc, "y_position"@) is Some
    {
        Some(NewJoinerData {
            player_uuid: string_member(doc, "player_uuid"@)->0,
            player_friendly_name: string_member(doc, "player_friendly_name"@)->0,
            color: string_member(doc, "color"@)->0,
            x_position: number_member(doc, "x_position"@)->0,
            y_position: number_member(doc, "y_position"@)->0,
        })
    } else {
        None
    }
}

/// The placeholder that stands for an unreadable `NewJoinerData`.
pub open spec fn is_new_joiner_placeholder(p: NewJoinerData) -> bool {
    p.player_uuid@ == "error"@
        && p.player_friendly_name@ == "error"@
        && p.color@ == "error"@
        && p.x_position@ == "0.0"@
        && p.y_position@ == "0.0"@
}

/// What an event carries for a payload document: what it holds, or the
/// placeholder.
pub open spec fn is_new_joiner_or_placeholder(doc: Json, p: NewJoinerData) -> bool {
    match new_joiner_of(doc) {
        Some(v) => p == v,
        None => is_new_joiner_placeholder(p),
    }
}

impl NewJoinerData {
    /// Reads the payload from a document; `None` where a field is missing or
    /// of another kind.
    pub fn from_document(doc: &Json) -> (r: Option<NewJoinerData>)
        ensures
            r == new_joiner_of(*doc),
    {
        let player_uuid = match doc.string_member("player_uuid") {
            Some(v) => v,
            None => return None,
        };
        let player_friendly_name = match doc.string_member("player_friendly_name") {
            Some(v) => v,
            None => return None,
        };
        let color = match doc.string_member("color") {
            Some(v) => v,
            None => return None,
        };
        let x_position = match doc.number_member("x_position") {
            Some(v) => v,
            None => return None,
        };
        let y_position = match doc.number_member("y_position") {
            Some(v) => v,
            None => return None,
        };
        Some(NewJoinerData { player_uuid, player_friendly_name, color, x_position, y_position })
    }

    /// The placeholder.
    pub fn placeholder() -> (r: NewJoinerData)
        ensures
            is_new_joiner_placeholder(r),
    {
        let player_uuid = String::from_str("error");
        let player_friendly_name = String::from_str("error");
        let color = String::from_str("error");
        let x_position = String::from_str("0.0");
        let y_position = String::from_str("0.0");
        NewJoinerData { player_uuid, player_friendly_name, color, x_position, y_position }
    }

    /// Reads the payload from a document, or gives the placeholder where it
    /// cannot.
    pub fn from_document_or_placeholder(doc: &Json) -> (r: NewJoinerData)
        ensures
            is_new_joiner_or_placeholder(*doc, r),
    {
        match NewJoinerData::from_document(doc) {
            Some(v) => v,
            None => NewJoinerData::placeholder(),
        }
    }
}

/// The payload of a move request.
pub struct MoveRequestData {
    pub x_direction: String,
    pub y_direction: String,
}

/// The `MoveRequestData` that a document holds: every field present, of its kind.
pub open spec fn move_request_of(doc: Json) -> Option<MoveRequestData> {
    if number_member(doc, "x_direction"@) is Some
        && number_member(doc, "y_direction"@) is Some
    {
        Some(MoveRequestData {
            x_direction: number_member(doc, "x_direction"@)->0,
            y_direction: number_member(doc, "y_direction"@)->0,
        })
    } else {
        None
    }
}

impl MoveRequestData {
    /// Reads the payload from a document; `None` where a field is missing or
    /// of another kind.
    pub fn from_document(doc: &Json) -> (r: Option<MoveRequestData>)
        ensures
            r == move_request_of(*doc),
    {
        let x_direction = match doc.number_member("x_direction") {
            Some(v) => v,
            None => return None,
        };
        let y_direction = match doc.number_member("y_direction") {
            Some(v) => v,
            None => return None,
        };
        Some(MoveRequestData { x_direction, y_direction })
    }

}

/// Another player moved.
pub struct MoveResponseData {
    pub player_uuid: String,
    pub player_friendly_name: String,
    pub color: String,
    pub old_x_position: String,
    pub old_y_position: String,
    pub new_x_position: String,
    pub new_y_position: String,
}

/// The `MoveResponseData` that a document holds: every field present, of its kind.
pub open spec fn move_response_of(doc: Json) -> Option<MoveResponseData> {
    if string_member(doc, "player_uuid"@) is Some
        && string_member(doc, "player_friendly_name"@) is Some
        && string_member(doc, "color"@) is Some
        && number_member(doc, "old_x_position"@) is Some
        && number_member(doc, "old_y_position"@) is Some
        && number_member(doc, "new_x_position"@) is Some
        && number_member(doc, "new_y_position"@) is Some
    {
        Some(MoveResponseData {
            player_uuid: string_member(doc, "player_uuid"@)->0,
            player_friendly_name: string_member(doc, "player_friendly_name"@)->0,
            color: string_member(doc, "color"@)->0,
            old_x_position: number_member(doc, "old_x_position"@)->0,
            old_y_position: number_member(doc, "old_y_position"@)->0,
            new_x_position: number_member(doc, "new_x_position"@)->0,
            new_y_position: number_member(doc, "new_y_position"@)->0,
        })
    } else {
        None
    }
}

/// The placeholder that stands for an unreadable `MoveResponseData`.
pub open spec fn is_move_response_placeholder(p: MoveResponseData) -> bool {
    p.player_uuid@ == "error"@
        && p.player_friendly_name@ == "error"@
        && p.color@ == "error"@
        && p.old_x_position@ == "0.0"@
        && p.old_y_position@ == "0.0"@
        && p.new_x_position@ == "0.0"@
        && p.new_y_position@ == "0.0"@
}

/// What an event carries for a payload document: what it holds, or the
/// placeholder.
pub open spec fn is_move_response_or_placeholder(doc: Json, p: MoveResponseData) -> bool {
    match move_response_of(doc) {
        Some(v) => p == v,
        None => is_move_response_placeholder(p),
    }
}

impl MoveResponseData {
    /// Reads the payload from a document; `None` where a field is missing or
    /// of another kind.
    pub fn from_document(doc: &Json) -> (r: Option<MoveResponseData>)
        ensures
            r == move_response_of(*doc),
    {
        let player_uuid = match doc.string_member("player_uuid") {
            Some(v) => v,
            None => return None,
        };
        let player_friendly_name = match doc.string_member("player_friendly_name") {
            Some(v) => v,
            None => return None,
        };
        let color = match doc.string_member("color") {
            Some(v) => v,
            None => return None,
        };
        let old_x_position = match doc.number_member("old_x_position") {
            Some(v) => v,
            None => return None,
        };
        let old_y_position = match doc.number_member("old_y_position") {
            Some(v) => v,
            None => return None,
        };
        let new_x_position = match doc.number_member("new_x_position") {
            Some(v) => v,
            None => return None,
        };
        let new_y_position = match doc.number_member("new_y_position") {
            Some(v) => v,
            None => return None,
        };
        Some(MoveResponseData {
            player_uuid,
            player_friendly_name,
            color,
            old_x_position,
            old_y_position,
            new_x_position,
            new_y_position,
        })
    }

    /// The placeholder.
    pub fn placeholder() -> (r: MoveResponseData)
        ensures
            is_move_response_placeholder(r),
    {
        let player_uuid = String::from_str("error");
        let player_friendly_name = String::from_str("error");
        let color = String::from_str("error");
        let old_x_position = String::from_str("0.0");
        let old_y_position = String::from_str("0.0");
        let new_x_position = String::from_str("0.0");
        let new_y_position = String::from_str("0.0");
        MoveResponseData {
            player_uuid,
            player_friendly_name,
            color,
            old_x_position,
            old_y_position,
            new_x_position,
            new_y_position,
        }
    }

    /// Reads the payload from a document, or gives the placeholder where it
    /// cannot.
    pub fn from_document_or_placeholder(doc: &Json) -> (r: MoveResponseData)
        ensures
            is_move_response_or_placeholder(*doc, r),
    {
        match MoveResponseData::from_document(doc) {
            Some(v) => v,
            None => MoveResponseData::placeholder(),
        }
    }
}

/// A player left the game.
pub struct UserDisconnectedData {
    pub disconnected_player_uuid: String,
}

/// The `UserDisconnectedData` that a document holds: every field present, of its kind.
pub open spec fn user_disconnected_of(doc: Json) -> Option<UserDisconnectedData> {
    if string_member(doc, "disconnected_player_uuid"@) is Some
    {
        Some(UserDisconnectedData {
            disconnected_player_uuid: string_member(doc, "disconnected_player_uuid"@)->0,
        })
    } else {
        None
    }
}

/// The placeholder that stands for an unreadable `UserDisconnectedData`.
pub open spec fn is_user_disconnected_placeholder(p: UserDisconnectedData) -> bool {
    p.disconnected_player_uuid@ == "error"@
}

/// What an event carries for a payload document: what it holds, or the
/// placeholder.
pub open spec fn is_user_disconnected_or_placeholder(doc: Json, p: UserDisconnectedData) -> bool {
    match user_disconnected_of(doc) {
        Some(v) => p == v,
        None => is_user_disconnected_placeholder(p),
    }
}

impl UserDisconnectedData {
    /// Reads the payload from a document; `None` where a field is missing or
    /// of another kind.
    pub fn from_document(doc: &Json) -> (r: Option<UserDisconnectedData>)
        ensures
            r == user_disconnected_of(*doc),
    {
        let disconnected_player_uuid = match doc.string_member("disconnected_player_uuid") {
            Some(v) => v,
            None => return None,
        };
        Some(UserDisconnectedData { disconnected_player_uuid })
    }

    /// The placeholder.
    pub fn placeholder() -> (r: UserDisconnectedData)
        ensures
            is_user_disconnected_placeholder(r),
    {
        let disconnected_player_uuid = String::from_str("error");
        UserDisconnectedData { disconnected_player_uuid }
    }

    /// Reads the payload from a document, or gives the placeholder where it
    /// cannot.
    pub fn from_document_or_placeholder(doc: &Json) -> (r: UserDisconnectedData)
        ensures
            is_user_disconnected_or_placeholder(*doc, r),
    {
        match UserDisconnectedData::from_document(doc) {
            Some(v) => v,
            None => UserDisconnectedData::placeholder(),
        }
    }
}

/// Another player quacked.
pub struct QuackResponseData {
    pub player_uuid: String,
    pub player_friendly_name: String,
    pub player_x_position: String,
    pub player_y_position: String,
    pub quack_pitch: String,
}

/// The `QuackResponseData` that a document holds: every field present, of its kind.
pub open spec fn quack_response_of(doc: Json) -> Option<QuackResponseData> {
    if string_member(doc, "player_uuid"@) is Some
        && string_member(doc, "player_friendly_name"@) is Some
        && number_member(doc, "player_x_position"@) is Some
        && number_member(doc, "player_y_position"@) is Some
        && number_member(doc, "quack_pitch"@) is Some
    {
        Some(QuackResponseData {
            player_uuid: string_member(doc, "player_uuid"@)->0,
            player_friendly_name: string_member(doc, "player_friendly_name"@)->0,
            player_x_position: number_member(doc, "player_x_position"@)->0,
            player_y_position: number_member(doc, "player_y_position"@)->0,
            quack_pitch: number_member(doc, "quack_pitch"@)->0,
        })
    } else {
        None
    }
}

/// The placeholder that stands for an unreadable `QuackResponseData`.
pub open spec fn is_quack_response_placeholder(p: QuackResponseData) -> bool {
    p.player_uuid@ == "error"@
        && p.player_friendly_name@ == "error"@
        && p.player_x_position@ == "0.0"@
        && p.player_y_position@ == "0.0"@
        && p.quack_pitch@ == "0.0"@
}

/// What an event carries for a payload document: what it holds, or the
/// placeholder.
pub open spec fn is_quack_response_or_placeholder(doc: Json, p: QuackResponseData) -> bool {
    match quack_response_of(doc) {
        Some(v) => p == v,
        None => is_quack_response_placeholder(p),
    }
}

impl QuackResponseData {
    /// Reads the payload from a document; `None` where a field is missing or
    /// of another kind.
    pub fn from_document(doc: &Json) -> (r: Option<QuackResponseData>)
        ensures
            r == quack_response_of(*doc),
    {
        let player_uuid = match doc.string_member("player_uuid") {
            Some(v) => v,
            None => return None,
        };
        let player_friendly_name = match doc.string_member("player_friendly_name") {
            Some(v) => v,
            None => return None,
        };
        let player_x_position = match doc.number_member("player_x_position") {
            Some(v) => v,
            None => return None,
        };
        let player_y_position = match doc.number_member("player_y_position") {
            Some(v) => v,
            None => return None,
        };
        let quack_pitch = match doc.number_member("quack_pitch") {
            Some(v) => v,
            None => return None,
        };
        Some(QuackResponseData {
            player_uuid,
            player_friendly_name,
            player_x_position,
            player_y_position,
            quack_pitch,
        })
    }

    /// The placeholder.
    pub fn placeholder() -> (r: QuackResponseData)
        ensures
            is_quack_response_placeholder(r),
    {
        let player_uuid = String::from_str("error");
        let player_friendly_name = String::from_str("error");
        let player_x_position = String::from_str("0.0");
        let player_y_position = String::from_str("0.0");
        let quack_pitch = String::from_str("0.0");
        QuackResponseData {
            player_uuid,
            player_friendly_name,
            player_x_position,
            player_y_position,
            quack_pitch,
        }
    }

    /// Reads the payload from a document, or gives the placeholder where it
    /// cannot.
    pub fn from_document_or_placeholder(doc: &Json) -> (r: QuackResponseData)
        ensures
            is_quack_response_or_placeholder(*doc, r),
    {
        match QuackResponseData::from_document(doc) {
            Some(v) => v,
            None => QuackResponseData::placeholder(),
        }
    }
}

/// A player collected the crackers, which moved elsewhere.
pub struct GotCrackerResponseData {
    pub player_uuid: String,
    pub player_friendly_name: String,
    pub old_cracker_x_position: String,
    pub old_cracker_y_position: String,
    pub new_cracker_x_position: String,
    pub new_cracker_y_position: String,
    pub old_cracker_point_value: u64,
    pub new_cracker_point_value: u64,
    pub new_player_score: u64,
}

/// The `GotCrackerResponseData` that a document holds: every field present, of its kind.
pub open spec fn got_cracker_of(doc: Json) -> Option<GotCrackerResponseData> {
    if string_member(doc, "player_uuid"@) is Some
        && string_member(doc, "player_friendly_name"@) is Some
        && number_member(doc, "old_cracker_x_position"@) is Some
        && number_member(doc, "old_cracker_y_position"@) is Some
        && number_member(doc, "new_cracker_x_position"@) is Some
        && number_member(doc, "new_cracker_y_position"@) is Some
        && count_member(doc, "old_cracker_point_value"@) is Some
        && count_member(doc, "new_cracker_point_value"@) is Some
        && count_member(doc, "new_player_score"@) is Some
    {
        Some(GotCrackerResponseData {
            player_uuid: string_member(doc, "player_uuid"@)->0,
            player_friendly_name: string_member(doc, "player_friendly_name"@)->0,
            old_cracker_x_position: number_member(doc, "old_cracker_x_position"@)->0,
            old_cracker_y_position: number_member(doc, "old_cracker_y_position"@)->0,
            new_cracker_x_position: number_member(doc, "new_cracker_x_position"@)->0,
            new_cracker_y_position: number_member(doc, "new_cracker_y_position"@)->0,
            old_cracker_point_value: count_member(doc, "old_cracker_point_value"@)->0,
            new_cracker_point_value: count_member(doc, "new_cracker_point_value"@)->0,
            new_player_score: count_member(doc, "new_player_score"@)->0,
        })
    } else {
        None
    }
}

/// The placeholder that stands for an unreadable `GotCrackerResponseData`.
pub open spec fn is_got_cracker_placeholder(p: GotCrackerResponseData) -> bool {
    p.player_uuid@ == "error"@
        && p.player_friendly_name@ == "error"@
        && p.old_cracker_x_position@ == "0.0"@
        && p.old_cracker_y_position@ == "0.0"@
        && p.new_cracker_x_position@ == "0.0"@
        && p.new_cracker_y_position@ == "0.0"@
        && p.old_cracker_point_value == 0
        && p.new_cracker_point_value == 0
        && p.new_player_score == 0
}

/// What an event carries for a payload document: what it holds, or the
/// placeholder.
pub open spec fn is_got_cracker_or_placeholder(doc: Json, p: GotCrackerResponseData) -> bool {
    match got_cracker_of(doc) {
        Some(v) => p == v,
        None => is_got_cracker_placeholder(p),
    }
}

impl GotCrackerResponseData {
    /// Reads the payload from a document; `None` where a field is missing or
    /// of another kind.
    pub fn from_document(doc: &Json) -> (r: Option<GotCrackerResponseData>)
        ensures
            r == got_cracker_of(*doc),
    {
        let player_uuid = match doc.string_member("player_uuid") {
            Some(v) => v,
            None => return None,
        };
        let player_friendly_name = match doc.string_member("player_friendly_name") {
            Some(v) => v,
            None => return None,
        };
        let old_cracker_x_position = match doc.number_member("old_cracker_x_position") {
            Some(v) => v,
            None => return None,
        };
        let old_cracker_y_position = match doc.number_member("old_cracker_y_position") {
            Some(v) => v,
            None => return None,
        };
        let new_cracker_x_position = match doc.number_member("new_cracker_x_position") {
            Some(v) => v,
            None => return None,
        };
        let new_cracker_y_position = match doc.number_member("new_cracker_y_position") {
            Some(v) => v,
            None => return None,
        };
        let old_cracker_point_value = match doc.count_member("old_cracker_point_value") {
            Some(v) => v,
            None => return None,
        };
        let new_cracker_point_value = match doc.count_member("new_cracker_point_value") {
            Some(v) => v,
            None => return None,
        };
        let new_player_score = match doc.count_member("new_player_score") {
            Some(v) => v,
            None => return None,
        };
        Some(GotCrackerResponseData {
            player_uuid,
            player_friendly_name,
            old_cracker_x_position,
            old_cracker_y_position,
            new_cracker_x_position,
            new_cracker_y_position,
            old_cracker_point_value,
            new_cracker_point_value,
            new_player_score,
        })
    }

    /// The placeholder.
    pub fn placeholder() -> (r: GotCrackerResponseData)
        ensures
            is_got_cracker_placeholder(r),
    {
        let player_uuid = String::from_str("error");
        let player_friendly_name = String::from_str("error");
        let old_cracker_x_position = String::from_str("0.0");
        let old_cracker_y_position = String::from_str("0.0");
        let new_cracker_x_position = String::from_str("0.0");
        let new_cracker_y_position = String::from_str("0.0");
        GotCrackerResponseData {
            player_uuid,
            player_friendly_name,
            old_cracker_x_position,
            old_cracker_y_position,
            new_cracker_x_position,
            new_cracker_y_position,
            old_cracker_point_value: 0,
            new_cracker_point_value: 0,
            new_player_score: 0,
        }
    }

    /// Reads the payload from a document, or gives the placeholder where it
    /// cannot.
    pub fn from_document_or_placeholder(doc: &Json) -> (r: GotCrackerResponseData)
        ensures
            is_got_cracker_or_placeholder(*doc, r),
    {
        match GotCrackerResponseData::from_document(doc) {
            Some(v) => v,
            None => GotCrackerResponseData::placeholder(),
        }
    }
}

/// The standings: the local player's points and place, and the first five.
pub struct LeaderboardUpdateData {
    pub your_points: u64,
    pub your_leaderboard_place: u64,
    pub leaderboard_name_1st_place: String,
    pub leaderboard_name_2nd_place: String,
    pub leaderboard_name_3rd_place: String,
    pub leaderboard_name_4th_place: String,
    pub leaderboard_name_5th_place: String,
    pub leaderboard_score_1st_place: u64,
    pub leaderboard_score_2nd_place: u64,
    pub leaderboard_score_3rd_place: u64,
    pub leaderboard_score_4th_place: u64,
    pub leaderboard_score_5th_place: u64,
}

/// The `LeaderboardUpdateData` that a document holds: every field present, of its kind.
pub open spec fn leaderboard_update_of(doc: Json) -> Option<LeaderboardUpdateData> {
    if count_member(doc, "your_points"@) is Some
        && count_member(doc, "your_leaderboard_place"@) is Some
        && string_member(doc, "leaderboard_name_1st_place"@) is Some
        && string_member(doc, "leaderboard_name_2nd_place"@) is Some
        && string_member(doc, "leaderboard_name_3rd_place"@) is Some
        && string_member(doc, "leaderboard_name_4th_place"@) is Some
        && string_member(doc, "leaderboard_name_5th_place"@) is Some
        && count_member(doc, "leaderboard_score_1st_place"@) is Some
        && count_member(doc, "leaderboard_score_2nd_place"@) is Some
        && count_member(doc, "leaderboard_score_3rd_place"@) is Some
        && count_member(doc, "leaderboard_score_4th_place"@) is Some
        && count_member(doc, "leaderboard_score_5th_place"@) is Some
    {
        Some(LeaderboardUpdateData {
            your_points: count_member(doc, "your_points"@)->0,
            your_leaderboard_place: count_member(doc, "your_leaderboard_place"@)->0,
            leaderboard_name_1st_place: string_member(doc, "leaderboard_name_1st_place"@)->0,
            leaderboard_name_2nd_place: string_member(doc, "leaderboard_name_2nd_place"@)->0,
            leaderboard_name_3rd_place: string_member(doc, "leaderboard_name_3rd_place"@)->0,
            leaderboard_name_4th_place: string_member(doc, "leaderboard_name_4th_place"@)->0,
            leaderboard_name_5th_place: string_member(doc, "leaderboard_name_5th_place"@)->0,
            leaderboard_score_1st_place: count_member(doc, "leaderboard_score_1st_place"@)->0,
            leaderboard_score_2nd_place: count_member(doc, "leaderboard_score_2nd_place"@)->0,
            leaderboard_score_3rd_place: count_member(doc, "leaderboard_score_3rd_place"@)->0,
            leaderboard_score_4th_place: count_member(doc, "leaderboard_score_4th_place"@)->0,
            leaderboard_score_5th_place: count_member(doc, "leaderboard_score_5th_place"@)->0,
        })
    } else {
        None
    }
}

/// The placeholder that stands for an unreadable `LeaderboardUpdateData`.
pub open spec fn is_leaderboard_update_placeholder(p: LeaderboardUpdateData) -> bool {
    p.your_points == 0
        && p.your_leaderboard_place == 0
        && p.leaderboard_name_1st_place@ == "--"@
        && p.leaderboard_name_2nd_place@ == "--"@
        && p.leaderboard_name_3rd_place@ == "--"@
        && p.leaderboard_name_4th_place@ == "--"@
        && p.leaderboard_name_5th_place@ == "--"@
        && p.leaderboard_score_1st_place == 0
        && p.leaderboard_score_2nd_place == 0
        && p.leaderboard_score_3rd_place == 0
        && p.leaderboard_score_4th_place == 0
        && p.leaderboard_score_5th_place == 0
}

/// What an event carries for a payload document: what it holds, or the
/// placeholder.
pub open spec fn is_leaderboard_update_or_placeholder(doc: Json, p: LeaderboardUpdateData) -> bool {
    match leaderboard_update_of(doc) {
        Some(v) => p == v,
        None => is_leaderboard_update_placeholder(p),
    }
}

impl LeaderboardUpdateData {
    /// Reads the payload from a document; `None` where a field is missing or
    /// of another kind.
    pub fn from_document(doc: &Json) -> (r: Option<LeaderboardUpdateData>)
        ensures
            r == leaderboard_update_of(*doc),
    {
        let your_points = match doc.count_member("your_points") {
            Some(v) => v,
            None => return None,
        };
        let your_leaderboard_place = match doc.count_member("your_leaderboard_place") {
            Some(v) => v,
            None => return None,
        };
        let leaderboard_name_1st_place = match doc.string_member("leaderboard_name_1st_place") {
            Some(v) => v,
            None => return None,
        };
        let leaderboard_name_2nd_place = match doc.string_member("leaderboard_name_2nd_place") {
            Some(v) => v,
            None => return None,
        };
        let leaderboard_name_3rd_place = match doc.string_member("leaderboard_name_3rd_place") {
            Some(v) => v,
            None => return None,
        };
        let leaderboard_name_4th_place = match doc.string_member("leaderboard_name_4th_place") {
            Some(v) => v,
            None => return None,
        };
        let leaderboard_name_5th_place = match doc.string_member("leaderboard_name_5th_place") {
            Some(v) => v,
            None => return None,
        };
        let leaderboard_score_1st_place = match doc.count_member("leaderboard_score_1st_place") {
            Some(v) => v,
            None => return None,
        };
        let leaderboard_score_2nd_place = match doc.count_member("leaderboard_score_2nd_place") {
            Some(v) => v,
            None => return None,
        };
        let leaderboard_score_3rd_place = match doc.count_member("leaderboard_score_3rd_place") {
            Some(v) => v,
            None => return None,
        };
        let leaderboard_score_4th_place = match doc.count_member("leaderboard_score_4th_place") {
            Some(v) => v,
            None => return None,
        };
        let leaderboard_score_5th_place = match doc.count_member("leaderboard_score_5th_place") {
            Some(v) => v,
            None => return None,
        };
        Some(LeaderboardUpdateData {
            your_points,
            your_leaderboard_place,
            leaderboard_name_1st_place,
            leaderboard_name_2nd_place,
            leaderboard_name_3rd_place,
            leaderboard_name_4th_place,
            leaderboard_name_5th_place,
            leaderboard_score_1st_place,
            leaderboard_score_2nd_place,
            leaderboard_score_3rd_place,
            leaderboard_score_4th_place,
            leaderboard_score_5th_place,
        })
    }

    /// The placeholder.
    pub fn placeholder() -> (r: LeaderboardUpdateData)
        ensures
            is_leaderboard_update_placeholder(r),
    {
        let leaderboard_name_1st_place = String::from_str("--");
        let leaderboard_name_2nd_place = String::from_str("--");
        let leaderboard_name_3rd_place = String::from_str("--");
        let leaderboard_name_4th_place = String::from_str("--");
        let leaderboard_name_5th_place = String::from_str("--");
        LeaderboardUpdateData {
            your_points: 0,
            your_leaderboard_place: 0,
            leaderboard_name_1st_place,
            leaderboard_name_2nd_place,
            leaderboard_name_3rd_place,
            leaderboard_name_4th_place,
            leaderboard_name_5th_place,
            leaderboard_score_1st_place: 0,
            leaderboard_score_2nd_place: 0,
            leaderboard_score_3rd_place: 0,
            leaderboard_score_4th_place: 0,
            leaderboard_score_5th_place: 0,
        }
    }

    /// Reads the payload from a document, or gives the placeholder where it
    /// cannot.
    pub fn from_document_or_placeholder(doc: &Json) -> (r: LeaderboardUpdateData)
        ensures
            is_leaderboard_update_or_placeholder(*doc, r),
    {
        match LeaderboardUpdateData::from_document(doc) {
            Some(v) => v,
            None => LeaderboardUpdateData::placeholder(),
        }
    }
}

} // verus!
