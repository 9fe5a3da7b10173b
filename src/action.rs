//! The closed vocabularies of action tags that the two directions of the
//! wire protocol use. Every tag has a long and a short wire form.
use vstd::prelude::*;
use crate::text::same_text;

verus! {

/// Actions that a client sends to the server. `Empty` stands for an input
/// that names no other action.
#[derive(Clone, Copy, Debug, PartialEq, Eq, Structural)]
pub enum C2SActionTypes {
    Join,
    Quack,
    Move,
    Interact,
    Empty,
}

/// The long wire form of a client action's tag.
pub open spec fn c2s_long_tag(a: C2SActionTypes) -> Seq<char> {
    match a {
        C2SActionTypes::Join => "join"@,
        C2SActionTypes::Quack => "quack"@,
        C2SActionTypes::Move => "move"@,
        C2SActionTypes::Interact => "interact"@,
        C2SActionTypes::Empty => "empty"@,
    }
}

/// The short wire form of a client action's tag.
pub open spec fn c2s_short_tag(a: C2SActionTypes) -> Seq<char> {
    match a {
        C2SActionTypes::Join => "j"@,
        C2SActionTypes::Quack => "q"@,
        C2SActionTypes::Move => "m"@,
        C2SActionTypes::Interact => "i"@,
        C2SActionTypes::Empty => "e"@,
    }
}

/// The client action that a wire tag names, in its long or its short form.
pub open spec fn c2s_of_tag(s: Seq<char>) -> Option<C2SActionTypes> {
    if s == c2s_long_tag(C2SActionTypes::Join) || s == c2s_short_tag(C2SActionTypes::Join) {
        Some(C2SActionTypes::Join)
    } else if s == c2s_long_tag(C2SActionTypes::Quack) || s == c2s_short_tag(C2SActionTypes::Quack) {
        Some(C2SActionTypes::Quack)
    } else if s == c2s_long_tag(C2SActionTypes::Move) || s == c2s_short_tag(C2SActionTypes::Move) {
        Some(C2SActionTypes::Move)
    } else if s == c2s_long_tag(C2SActionTypes::Interact) || s == c2s_short_tag(C2SActionTypes::Interact) {
        Some(C2SActionTypes::Interact)
    } else if s == c2s_long_tag(C2SActionTypes::Empty) || s == c2s_short_tag(C2SActionTypes::Empty) {
        Some(C2SActionTypes::Empty)
    } else {
        None
    }
}

/// The length of each tag, and the characters that tell apart tags of one
/// length.
proof fn reveal_c2s_tags()
    ensures
        "join"@.len() == 4,
        "join"@[0] == 'j',
        "j"@.len() == 1,
        "j"@[0] == 'j',
        "quack"@.len() == 5,
        "quack"@[0] == 'q',
        "q"@.len() == 1,
        "q"@[0] == 'q',
        "move"@.len() == 4,
        "move"@[0] == 'm',
        "m"@.len() == 1,
        "m"@[0] == 'm',
        "interact"@.len() == 8,
        "i"@.len() == 1,
        "i"@[0] == 'i',
        "empty"@.len() == 5,
        "empty"@[0] == 'e',
        "e"@.len() == 1,
        "e"@[0] == 'e',
{
    reveal_strlit("join");
    reveal_strlit("j");
    reveal_strlit("quack");
    reveal_strlit("q");
    reveal_strlit("move");
    reveal_strlit("m");
    reveal_strlit("interact");
    reveal_strlit("i");
    reveal_strlit("empty");
    reveal_strlit("e");
}

impl C2SActionTypes {
    /// Reads a wire tag, long or short form; `None` when it names no action.
    pub fn from_tag(s: &str) -> (r: Option<C2SActionTypes>)
        ensures
            r == c2s_of_tag(s@),
    {
        if same_text(s, "join") || same_text(s, "j") {
            return Some(C2SActionTypes::Join);
        }
        if same_text(s, "quack") || same_text(s, "q") {
            return Some(C2SActionTypes::Quack);
        }
        if same_text(s, "move") || same_text(s, "m") {
            return Some(C2SActionTypes::Move);
        }
        if same_text(s, "interact") || same_text(s, "i") {
            return Some(C2SActionTypes::Interact);
        }
        if same_text(s, "empty") || same_text(s, "e") {
            return Some(C2SActionTypes::Empty);
        }
        None
    }

    /// The long wire tag.
    pub fn tag(&self) -> (r: &'static str)
        ensures
            r@ == c2s_long_tag(*self),
    {
        match self {
            C2SActionTypes::Join => "join",
            C2SActionTypes::Quack => "quack",
            C2SActionTypes::Move => "move",
            C2SActionTypes::Interact => "interact",
            C2SActionTypes::Empty => "empty",
        }
    }

    /// The short wire tag.
    pub fn short_tag(&self) -> (r: &'static str)
        ensures
            r@ == c2s_short_tag(*self),
    {
        match self {
            C2SActionTypes::Join => "j",
            C2SActionTypes::Quack => "q",
            C2SActionTypes::Move => "m",
            C2SActionTypes::Interact => "i",
            C2SActionTypes::Empty => "e",
        }
    }
}

/// Both wire forms of an action's tag read back as that action, and a
/// string that is neither form of any tag reads as no action.
pub proof fn lemma_c2s_tags_read_back(a: C2SActionTypes, s: Seq<char>)
    ensures
        c2s_of_tag(c2s_long_tag(a)) == Some(a),
        c2s_of_tag(c2s_short_tag(a)) == Some(a),
        c2s_of_tag(s) is None <==> forall|b: C2SActionTypes| s != #[trigger] c2s_long_tag(b) && s != c2s_short_tag(b),
{
    reveal_c2s_tags();
    match a {
        C2SActionTypes::Join => {
            assert(c2s_of_tag(c2s_long_tag(a)) == Some(a));
            assert(c2s_of_tag(c2s_short_tag(a)) == Some(a));
        },
        C2SActionTypes::Quack => {
            assert(c2s_of_tag(c2s_long_tag(a)) == Some(a));
            assert(c2s_of_tag(c2s_short_tag(a)) == Some(a));
        },
        C2SActionTypes::Move => {
            assert(c2s_of_tag(c2s_long_tag(a)) == Some(a));
            assert(c2s_of_tag(c2s_short_tag(a)) == Some(a));
        },
        C2SActionTypes::Interact => {
            assert(c2s_of_tag(c2s_long_tag(a)) == Some(a));
            assert(c2s_of_tag(c2s_short_tag(a)) == Some(a));
        },
        C2SActionTypes::Empty => {
            assert(c2s_of_tag(c2s_long_tag(a)) == Some(a));
            assert(c2s_of_tag(c2s_short_tag(a)) == Some(a));
        },
    }
}

/// Actions that the server sends to a client. `Empty` is the sentinel for a
/// frame that names no other action.
#[derive(Clone, Copy, Debug, PartialEq, Eq, Structural)]
pub enum S2CActionTypes {
    YouJoined,
    OtherPlayerJoined,
    YouQuacked,
    OtherPlayerQuacked,
    YouMoved,
    OtherPlayerMoved,
    YouGotCrackers,
    OtherPlayerGotCrackers,
    YouDied,
    OtherPlayerGotDied,
    Empty,
    UserDisconnected,
    LeaderboardUpdate,
}

/// The long wire form of a server action's tag.
pub open spec fn s2c_long_tag(a: S2CActionTypes) -> Seq<char> {
    match a {
        S2CActionTypes::YouJoined => "you_joined"@,
        S2CActionTypes::OtherPlayerJoined => "other_player_joined"@,
        S2CActionTypes::YouQuacked => "you_quacked"@,
        S2CActionTypes::OtherPlayerQuacked => "other_player_quacked"@,
        S2CActionTypes::YouMoved => "you_moved"@,
        S2CActionTypes::OtherPlayerMoved => "other_player_moved"@,
        S2CActionTypes::YouGotCrackers => "you_got_crackers"@,
        S2CActionTypes::OtherPlayerGotCrackers => "other_player_got_crackers"@,
        S2CActionTypes::YouDied => "you_died"@,
        S2CActionTypes::OtherPlayerGotDied => "other_player_died"@,
        S2CActionTypes::Empty => "empty"@,
        S2CActionTypes::UserDisconnected => "user_disconnected"@,
        S2CActionTypes::LeaderboardUpdate => "leaderboard_update"@,
    }
}

/// The short wire form of a server action's tag.
pub open spec fn s2c_short_tag(a: S2CActionTypes) -> Seq<char> {
    match a {
        S2CActionTypes::YouJoined => "yj"@,
        S2CActionTypes::OtherPlayerJoined => "opj"@,
        S2CActionTypes::YouQuacked => "yq"@,
        S2CActionTypes::OtherPlayerQuacked => "opq"@,
        S2CActionTypes::YouMoved => "ym"@,
        S2CActionTypes::OtherPlayerMoved => "opm"@,
        S2CActionTypes::YouGotCrackers => "ygc"@,
        S2CActionTypes::OtherPlayerGotCrackers => "opgc"@,
        S2CActionTypes::YouDied => "yd"@,
        S2CActionTypes::OtherPlayerGotDied => "opd"@,
        S2CActionTypes::Empty => "e"@,
        S2CActionTypes::UserDisconnected => "ud"@,
        S2CActionTypes::LeaderboardUpdate => "lu"@,
    }
}

/// The server action that a wire tag names, in its long or its short form.
pub open spec fn s2c_of_tag(s: Seq<char>) -> Option<S2CActionTypes> {
    if s == s2c_long_tag(S2CActionTypes::YouJoined) || s == s2c_short_tag(S2CActionTypes::YouJoined) {
        Some(S2CActionTypes::YouJoined)
    } else if s == s2c_long_tag(S2CActionTypes::OtherPlayerJoined) || s == s2c_short_tag(S2CActionTypes::OtherPlayerJoined) {
        Some(S2CActionTypes::OtherPlayerJoined)
    } else if s == s2c_long_tag(S2CActionTypes::YouQuacked) || s == s2c_short_tag(S2CActionTypes::YouQuacked) {
        Some(S2CActionTypes::YouQuacked)
    } else if s == s2c_long_tag(S2CActionTypes::OtherPlayerQuacked) || s == s2c_short_tag(S2CActionTypes::OtherPlayerQuacked) {
        Some(S2CActionTypes::OtherPlayerQuacked)
    } else if s == s2c_long_tag(S2CActionTypes::YouMoved) || s == s2c_short_tag(S2CActionTypes::YouMoved) {
        Some(S2CActionTypes::YouMoved)
    } else if s == s2c_long_tag(S2CActionTypes::OtherPlayerMoved) || s == s2c_short_tag(S2CActionTypes::OtherPlayerMoved) {
        Some(S2CActionTypes::OtherPlayerMoved)
    } else if s == s2c_long_tag(S2CActionTypes::YouGotCrackers) || s == s2c_short_tag(S2CActionTypes::YouGotCrackers) {
        Some(S2CActionTypes::YouGotCrackers)
    } else if s == s2c_long_tag(S2CActionTypes::OtherPlayerGotCrackers) || s == s2c_short_tag(S2CActionTypes::OtherPlayerGotCrackers) {
        Some(S2CActionTypes::OtherPlayerGotCrackers)
    } else if s == s2c_long_tag(S2CActionTypes::YouDied) || s == s2c_short_tag(S2CActionTypes::YouDied) {
        Some(S2CActionTypes::YouDied)
    } else if s == s2c_long_tag(S2CActionTypes::OtherPlayerGotDied) || s == s2c_short_tag(S2CActionTypes::OtherPlayerGotDied) {
        Some(S2CActionTypes::OtherPlayerGotDied)
    } else if s == s2c_long_tag(S2CActionTypes::Empty) || s == s2c_short_tag(S2CActionTypes::Empty) {
        Some(S2CActionTypes::Empty)
    } else if s == s2c_long_tag(S2CActionTypes::UserDisconnected) || s == s2c_short_tag(S2CActionTypes::UserDisconnected) {
        Some(S2CActionTypes::UserDisconnected)
    } else if s == s2c_long_tag(S2CActionTypes::LeaderboardUpdate) || s == s2c_short_tag(S2CActionTypes::LeaderboardUpdate) {
        Some(S2CActionTypes::LeaderboardUpdate)
    } else {
        None
    }
}

/// The length of each tag, and the characters that tell apart tags of one
/// length.
proof fn reveal_s2c_tags()
    ensures
        "you_joined"@.len() == 10,
        "yj"@.len() == 2,
        "yj"@[0] == 'y',
        "yj"@[1] == 'j',
        "other_player_joined"@.len() == 19,
        "opj"@.len() == 3,
        "opj"@[0] == 'o',
        "opj"@[2] == 'j',
        "you_quacked"@.len() == 11,
        "yq"@.len() == 2,
        "yq"@[0] == 'y',
        "yq"@[1] == 'q',
        "other_player_quacked"@.len() == 20,
        "opq"@.len() == 3,
        "opq"@[0] == 'o',
        "opq"@[2] == 'q',
        "you_moved"@.len() == 9,
        "ym"@.len() == 2,
        "ym"@[0] == 'y',
        "ym"@[1] == 'm',
        "other_player_moved"@.len() == 18,
        "other_player_moved"@[0] == 'o',
        "opm"@.len() == 3,
        "opm"@[0] == 'o',
        "opm"@[2] == 'm',
        "you_got_crackers"@.len() == 16,
        "ygc"@.len() == 3,
        "ygc"@[0] == 'y',
        "other_player_got_crackers"@.len() == 25,
        "opgc"@.len() == 4,
        "you_died"@.len() == 8,
        "yd"@.len() == 2,
        "yd"@[0] == 'y',
        "yd"@[1] == 'd',
        "other_player_died"@.len() == 17,
        "other_player_died"@[0] == 'o',
        "opd"@.len() == 3,
        "opd"@[0] == 'o',
        "opd"@[2] == 'd',
        "empty"@.len() == 5,
        "e"@.len() == 1,
        "user_disconnected"@.len() == 17,
        "user_disconnected"@[0] == 'u',
        "ud"@.len() == 2,
        "ud"@[0] == 'u',
        "leaderboard_update"@.len() == 18,
        "leaderboard_update"@[0] == 'l',
        "lu"@.len() == 2,
        "lu"@[0] == 'l',
{
    reveal_strlit("you_joined");
    reveal_strlit("yj");
    reveal_strlit("other_player_joined");
    reveal_strlit("opj");
    reveal_strlit("you_quacked");
    reveal_strlit("yq");
    reveal_strlit("other_player_quacked");
    reveal_strlit("opq");
    reveal_strlit("you_moved");
    reveal_strlit("ym");
    reveal_strlit("other_player_moved");
    reveal_strlit("opm");
    reveal_strlit("you_got_crackers");
    reveal_strlit("ygc");
    reveal_strlit("other_player_got_crackers");
    reveal_strlit("opgc");
    reveal_strlit("you_died");
    reveal_strlit("yd");
    reveal_strlit("other_player_died");
    reveal_strlit("opd");
    reveal_strlit("empty");
    reveal_strlit("e");
    reveal_strlit("user_disconnected");
    reveal_strlit("ud");
    reveal_strlit("leaderboard_update");
    reveal_strlit("lu");
}

impl S2CActionTypes {
    /// Reads a wire tag, long or short form; `None` when it names no action.
    pub fn from_tag(s: &str) -> (r: Option<S2CActionTypes>)
        ensures
            r == s2c_of_tag(s@),
    {
        if same_text(s, "you_joined") || same_text(s, "yj") {
            return Some(S2CActionTypes::YouJoined);
        }
        if same_text(s, "other_player_joined") || same_text(s, "opj") {
            return Some(S2CActionTypes::OtherPlayerJoined);
        }
        if same_text(s, "you_quacked") || same_text(s, "yq") {
            return Some(S2CActionTypes::YouQuacked);
        }
        if same_text(s, "other_player_quacked") || same_text(s, "opq") {
            return Some(S2CActionTypes::OtherPlayerQuacked);
        }
        if same_text(s, "you_moved") || same_text(s, "ym") {
            return Some(S2CActionTypes::YouMoved);
        }
        if same_text(s, "other_player_moved") || same_text(s, "opm") {
            return Some(S2CActionTypes::OtherPlayerMoved);
        }
        if same_text(s, "you_got_crackers") || same_text(s, "ygc") {
            return Some(S2CActionTypes::YouGotCrackers);
        }
        if same_text(s, "other_player_got_crackers") || same_text(s, "opgc") {
            return Some(S2CActionTypes::OtherPlayerGotCrackers);
        }
        if same_text(s, "you_died") || same_text(s, "yd") {
            return Some(S2CActionTypes::YouDied);
        }
        if same_text(s, "other_player_died") || same_text(s, "opd") {
            return Some(S2CActionTypes::OtherPlayerGotDied);
        }
        if same_text(s, "empty") || same_text(s, "e") {
            return Some(S2CActionTypes::Empty);
        }
        if same_text(s, "user_disconnected") || same_text(s, "ud") {
            return Some(S2CActionTypes::UserDisconnected);
        }
        if same_text(s, "leaderboard_update") || same_text(s, "lu") {
            return Some(S2CActionTypes::LeaderboardUpdate);
        }
        None
    }

    /// The long wire tag.
    pub fn tag(&self) -> (r: &'static str)
        ensures
            r@ == s2c_long_tag(*self),
    {
        match self {
            S2CActionTypes::YouJoined => "you_joined",
            S2CActionTypes::OtherPlayerJoined => "other_player_joined",
            S2CActionTypes::YouQuacked => "you_quacked",
            S2CActionTypes::OtherPlayerQuacked => "other_player_quacked",
            S2CActionTypes::YouMoved => "you_moved",
            S2CActionTypes::OtherPlayerMoved => "other_player_moved",
            S2CActionTypes::YouGotCrackers => "you_got_crackers",
            S2CActionTypes::OtherPlayerGotCrackers => "other_player_got_crackers",
            S2CActionTypes::YouDied => "you_died",
            S2CActionTypes::OtherPlayerGotDied => "other_player_died",
            S2CActionTypes::Empty => "empty",
            S2CActionTypes::UserDisconnected => "user_disconnected",
            S2CActionTypes::LeaderboardUpdate => "leaderboard_update",
        }
    }

    /// The short wire tag.
    pub fn short_tag(&self) -> (r: &'static str)
        ensures
            r@ == s2c_short_tag(*self),
    {
        match self {
            S2CActionTypes::YouJoined => "yj",
            S2CActionTypes::OtherPlayerJoined => "opj",
            S2CActionTypes::YouQuacked => "yq",
            S2CActionTypes::OtherPlayerQuacked => "opq",
            S2CActionTypes::YouMoved => "ym",
            S2CActionTypes::OtherPlayerMoved => "opm",
            S2CActionTypes::YouGotCrackers => "ygc",
            S2CActionTypes::OtherPlayerGotCrackers => "opgc",
            S2CActionTypes::YouDied => "yd",
            S2CActionTypes::OtherPlayerGotDied => "opd",
            S2CActionTypes::Empty => "e",
            S2CActionTypes::UserDisconnected => "ud",
            S2CActionTypes::LeaderboardUpdate => "lu",
        }
    }
}

/// Both wire forms of an action's tag read back as that action, and a
/// string that is neither form of any tag reads as no action.
pub proof fn lemma_s2c_tags_read_back(a: S2CActionTypes, s: Seq<char>)
    ensures
        s2c_of_tag(s2c_long_tag(a)) == Some(a),
        s2c_of_tag(s2c_short_tag(a)) == Some(a),
        s2c_of_tag(s) is None <==> forall|b: S2CActionTypes| s != #[trigger] s2c_long_tag(b) && s != s2c_short_tag(b),
{
    reveal_s2c_tags();
    match a {
        S2CActionTypes::YouJoined => {
            assert(s2c_of_tag(s2c_long_tag(a)) == Some(a));
            assert(s2c_of_tag(s2c_short_tag(a)) == Some(a));
        },
        S2CActionTypes::OtherPlayerJoined => {
            assert(s2c_of_tag(s2c_long_tag(a)) == Some(a));
            assert(s2c_of_tag(s2c_short_tag(a)) == Some(a));
        },
        S2CActionTypes::YouQuacked => {
            assert(s2c_of_tag(s2c_long_tag(a)) == Some(a));
            assert(s2c_of_tag(s2c_short_tag(a)) == Some(a));
        },
        S2CActionTypes::OtherPlayerQuacked => {
            assert(s2c_of_tag(s2c_long_tag(a)) == Some(a));
            assert(s2c_of_tag(s2c_short_tag(a)) == Some(a));
        },
        S2CActionTypes::YouMoved => {
            assert(s2c_of_tag(s2c_long_tag(a)) == Some(a));
            assert(s2c_of_tag(s2c_short_tag(a)) == Some(a));
        },
        S2CActionTypes::OtherPlayerMoved => {
            assert(s2c_of_tag(s2c_long_tag(a)) == Some(a));
            assert(s2c_of_tag(s2c_short_tag(a)) == Some(a));
        },
        S2CActionTypes::YouGotCrackers => {
            assert(s2c_of_tag(s2c_long_tag(a)) == Some(a));
            assert(s2c_of_tag(s2c_short_tag(a)) == Some(a));
        },
        S2CActionTypes::OtherPlayerGotCrackers => {
            assert(s2c_of_tag(s2c_long_tag(a)) == Some(a));
            assert(s2c_of_tag(s2c_short_tag(a)) == Some(a));
        },
        S2CActionTypes::YouDied => {
            assert(s2c_of_tag(s2c_long_tag(a)) == Some(a));
            assert(s2c_of_tag(s2c_short_tag(a)) == Some(a));
        },
        S2CActionTypes::OtherPlayerGotDied => {
            assert(s2c_of_tag(s2c_long_tag(a)) == Some(a));
            assert(s2c_of_tag(s2c_short_tag(a)) == Some(a));
        },
        S2CActionTypes::Empty => {
            assert(s2c_of_tag(s2c_long_tag(a)) == Some(a));
            assert(s2c_of_tag(s2c_short_tag(a)) == Some(a));
        },
        S2CActionTypes::UserDisconnected => {
            assert(s2c_of_tag(s2c_long_tag(a)) == Some(a));
            assert(s2c_of_tag(s2c_short_tag(a)) == Some(a));
        },
        S2CActionTypes::LeaderboardUpdate => {
            assert(s2c_of_tag(s2c_long_tag(a)) == Some(a));
            assert(s2c_of_tag(s2c_short_tag(a)) == Some(a));
        },
    }
}

} // verus!
