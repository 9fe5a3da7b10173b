//! The texts that the score board shows.
use vstd::prelude::*;
use crate::json::{decimal_value, digit_value, is_decimal, is_digit};
use crate::payload::LeaderboardUpdateData;

verus! {

/// `s` is the decimal text of `n`: digits alone, with no leading zero.
pub open spec fn is_decimal_text_of(s: Seq<char>, n: nat) -> bool {
    is_decimal(s) && decimal_value(s) == n && (s[0] == '0' ==> s.len() == 1)
}

/// The text of one decimal digit.
fn digit_text(d: u64) -> (r: &'static str)
    requires
        d < 10,
    ensures
        is_decimal_text_of(r@, d as nat),
        r@.len() == 1,
{
    let r = match d {
        0 => {
            proof {
                reveal_strlit("0");
            }
            assert("0"@.len() == 1 && "0"@[0] == '0');
            "0"
        },
        1 => {
            proof {
                reveal_strlit("1");
            }
            assert("1"@.len() == 1 && "1"@[0] == '1');
            "1"
        },
        2 => {
            proof {
                reveal_strlit("2");
            }
            assert("2"@.len() == 1 && "2"@[0] == '2');
            "2"
        },
        3 => {
            proof {
                reveal_strlit("3");
            }
            assert("3"@.len() == 1 && "3"@[0] == '3');
            "3"
        },
        4 => {
            proof {
                reveal_strlit("4");
            }
            assert("4"@.len() == 1 && "4"@[0] == '4');
            "4"
        },
        5 => {
            proof {
                reveal_strlit("5");
            }
            assert("5"@.len() == 1 && "5"@[0] == '5');
            "5"
        },
        6 => {
            proof {
                reveal_strlit("6");
            }
            assert("6"@.len() == 1 && "6"@[0] == '6');
            "6"
        },
        7 => {
            proof {
                reveal_strlit("7");
            }
            assert("7"@.len() == 1 && "7"@[0] == '7');
            "7"
        },
        8 => {
            proof {
                reveal_strlit("8");
            }
            assert("8"@.len() == 1 && "8"@[0] == '8');
            "8"
        },
        _ => {
            proof {
                reveal_strlit("9");
            }
            assert("9"@.len() == 1 && "9"@[0] == '9');
            "9"
        },
    };
    assert(decimal_value(r@.drop_last()) == 0);
    assert(r@.last() == r@[0]);
    r
}

/// The decimal text of a number.
pub fn decimal_text(n: u64) -> (r: String)
    ensures
        is_decimal_text_of(r@, n as nat),
    decreases n,
{
    if n < 10 {
        String::from_str(digit_text(n))
    } else {
        let mut r = decimal_text(n / 10);
        let d = digit_text(n % 10);
        let ghost head = r@;
        r.append(d);
        assert(r@ == head + d@);
        assert(r@.drop_last() == head);
        assert(r@.last() == d@[0]);
        assert(head[0] != '0') by {
            if head[0] == '0' {
                assert(head.len() == 1);
                assert(decimal_value(head.drop_last()) == 0);
                assert(head.last() == head[0]);
                assert(decimal_value(head) == 0);
            }
        }
        assert(forall|i: int| 0 <= i < r@.len() ==> is_digit(#[trigger] r@[i])) by {
            assert forall|i: int| 0 <= i < r@.len() implies is_digit(#[trigger] r@[i]) by {
                if i < head.len() {
                    assert(r@[i] == head[i]);
                }
            }
        }
        r
    }
}

/// The label of the local player's score.
pub fn score_text(score: u64) -> (r: String)
    ensures
        exists|d: Seq<char>| is_decimal_text_of(d, score as nat) && r@ == "Score: "@ + d,
{
    let digits = decimal_text(score);
    let mut out = String::from_str("Score: ");
    out.append(digits.as_str());
    out
}

/// The labels of the board: the local player's place, and the names and the
/// scores of the first five, first place first.
pub struct LeaderboardTexts {
    pub your_place: String,
    pub names: Vec<String>,
    pub scores: Vec<String>,
}

/// The labels that show a leaderboard update.
pub fn leaderboard_texts(d: &LeaderboardUpdateData) -> (r: LeaderboardTexts)
    ensures
        is_decimal_text_of(r.your_place@, d.your_leaderboard_place as nat),
        r.names@ == seq![
            d.leaderboard_name_1st_place,
            d.leaderboard_name_2nd_place,
            d.leaderboard_name_3rd_place,
            d.leaderboard_name_4th_place,
            d.leaderboard_name_5th_place,
        ],
        r.scores@.len() == 5,
        is_decimal_text_of(r.scores@[0]@, d.leaderboard_score_1st_place as nat),
        is_decimal_text_of(r.scores@[1]@, d.leaderboard_score_2nd_place as nat),
        is_decimal_text_of(r.scores@[2]@, d.leaderboard_score_3rd_place as nat),
        is_decimal_text_of(r.scores@[3]@, d.leaderboard_score_4th_place as nat),
        is_decimal_text_of(r.scores@[4]@, d.leaderboard_score_5th_place as nat),
{
    let names = vec![
        d.leaderboard_name_1st_place.clone(),
        d.leaderboard_name_2nd_place.clone(),
        d.leaderboard_name_3rd_place.clone(),
        d.leaderboard_name_4th_place.clone(),
        d.leaderboard_name_5th_place.clone(),
    ];
    let scores = vec![
        decimal_text(d.leaderboard_score_1st_place),
        decimal_text(d.leaderboard_score_2nd_place),
        decimal_text(d.leaderboard_score_3rd_place),
        decimal_text(d.leaderboard_score_4th_place),
        decimal_text(d.leaderboard_score_5th_place),
    ];
    LeaderboardTexts { your_place: decimal_text(d.your_leaderboard_place), names, scores }
}

} // verus!
