use duck_net::action::{C2SActionTypes, S2CActionTypes};
use duck_net::board::{decimal_text, leaderboard_texts, score_text};
use duck_net::codec::{decode_envelope, encode_join, encode_move, ClientRequest, GenericIncomingRequest};
use duck_net::dispatch::{dispatch, DomainEvent};
use duck_net::json::{is_number, read_decimal, Json};
use duck_net::payload::MoveRequestData;

const S2C_ALL: [(S2CActionTypes, &str, &str); 13] = [
    (S2CActionTypes::YouJoined, "you_joined", "yj"),
    (S2CActionTypes::OtherPlayerJoined, "other_player_joined", "opj"),
    (S2CActionTypes::YouQuacked, "you_quacked", "yq"),
    (S2CActionTypes::OtherPlayerQuacked, "other_player_quacked", "opq"),
    (S2CActionTypes::YouMoved, "you_moved", "ym"),
    (S2CActionTypes::OtherPlayerMoved, "other_player_moved", "opm"),
    (S2CActionTypes::YouGotCrackers, "you_got_crackers", "ygc"),
    (S2CActionTypes::OtherPlayerGotCrackers, "other_player_got_crackers", "opgc"),
    (S2CActionTypes::YouDied, "you_died", "yd"),
    (S2CActionTypes::OtherPlayerGotDied, "other_player_died", "opd"),
    (S2CActionTypes::Empty, "empty", "e"),
    (S2CActionTypes::UserDisconnected, "user_disconnected", "ud"),
    (S2CActionTypes::LeaderboardUpdate, "leaderboard_update", "lu"),
];

fn leaderboard_frame(tag: &str) -> String {
    format!(
        "{{\"action_type\":\"{}\",\"data\":{{\"your_points\":42,\"your_leaderboard_place\":3,\
         \"leaderboard_name_1st_place\":\"ann\",\"leaderboard_name_2nd_place\":\"bo\",\
         \"leaderboard_name_3rd_place\":\"cy\",\"leaderboard_name_4th_place\":\"di\",\
         \"leaderboard_name_5th_place\":\"ed\",\"leaderboard_score_1st_place\":90,\
         \"leaderboard_score_2nd_place\":70,\"leaderboard_score_3rd_place\":50,\
         \"leaderboard_score_4th_place\":42,\"leaderboard_score_5th_place\":10}}}}",
        tag
    )
}

fn is_sentinel(env: &GenericIncomingRequest) -> bool {
    env.action_type == S2CActionTypes::Empty && matches!(env.data, Json::Null)
}

#[test]
fn s2c_tags_read_in_both_forms() {
    for (a, long, short) in S2C_ALL {
        assert_eq!(S2CActionTypes::from_tag(long), Some(a));
        assert_eq!(S2CActionTypes::from_tag(short), Some(a));
        assert_eq!(a.tag(), long);
        assert_eq!(a.short_tag(), short);
    }
}

#[test]
fn c2s_tags_read_in_both_forms() {
    let all = [
        (C2SActionTypes::Join, "join", "j"),
        (C2SActionTypes::Quack, "quack", "q"),
        (C2SActionTypes::Move, "move", "m"),
        (C2SActionTypes::Interact, "interact", "i"),
        (C2SActionTypes::Empty, "empty", "e"),
    ];
    for (a, long, short) in all {
        assert_eq!(C2SActionTypes::from_tag(long), Some(a));
        assert_eq!(C2SActionTypes::from_tag(short), Some(a));
        assert_eq!(a.tag(), long);
        assert_eq!(a.short_tag(), short);
    }
}

#[test]
fn unknown_tags_read_as_nothing() {
    for s in ["", "JOIN", "Join", "you joined", "lu ", "x", "YouJoined", "leaderboard"] {
        assert_eq!(S2CActionTypes::from_tag(s), None);
        assert_eq!(C2SActionTypes::from_tag(s), None);
    }
}

#[test]
fn unknown_tag_decodes_to_sentinel() {
    let env = decode_envelope("{\"action_type\":\"dance\",\"data\":{\"x\":1}}");
    assert!(is_sentinel(&env));
    assert!(dispatch(&env).is_none());
}

#[test]
fn malformed_frames_decode_to_sentinel() {
    for text in [
        "",
        "not json",
        "{\"action_type\":\"lu\"",
        "[1,2,3]",
        "{\"action_type\":7,\"data\":{}}",
        "{\"action_type\":\"lu\"}",
        "{\"data\":{}}",
    ] {
        let env = decode_envelope(text);
        assert!(is_sentinel(&env), "{}", text);
        assert!(dispatch(&env).is_none());
    }
}

#[test]
fn empty_tag_keeps_its_payload_and_publishes_nothing() {
    let env = decode_envelope("{\"action_type\":\"e\",\"data\":{\"k\":1}}");
    assert_eq!(env.action_type, S2CActionTypes::Empty);
    assert!(matches!(env.data, Json::Object(_)));
    assert!(dispatch(&env).is_none());
}

#[test]
fn leaderboard_frame_publishes_one_update() {
    let env = decode_envelope(&leaderboard_frame("lu"));
    assert_eq!(env.action_type, S2CActionTypes::LeaderboardUpdate);
    match dispatch(&env) {
        Some(DomainEvent::LeaderboardUpdate(e)) => {
            assert_eq!(e.data.your_points, 42);
            assert_eq!(e.data.your_leaderboard_place, 3);
            assert_eq!(e.data.leaderboard_name_1st_place, "ann");
            assert_eq!(e.data.leaderboard_name_5th_place, "ed");
            assert_eq!(e.data.leaderboard_score_1st_place, 90);
            assert_eq!(e.data.leaderboard_score_4th_place, 42);
        }
        _ => panic!("expected one leaderboard update"),
    }
}

#[test]
fn long_and_short_tags_decode_alike() {
    let a = decode_envelope(&leaderboard_frame("lu"));
    let b = decode_envelope(&leaderboard_frame("leaderboard_update"));
    assert_eq!(a.action_type, b.action_type);
}

#[test]
fn leaderboard_with_missing_field_gets_placeholder() {
    let env = decode_envelope("{\"action_type\":\"lu\",\"data\":{\"your_points\":42}}");
    match dispatch(&env) {
        Some(DomainEvent::LeaderboardUpdate(e)) => {
            assert_eq!(e.data.your_points, 0);
            assert_eq!(e.data.your_leaderboard_place, 0);
            assert_eq!(e.data.leaderboard_name_3rd_place, "--");
            assert_eq!(e.data.leaderboard_score_3rd_place, 0);
        }
        _ => panic!("expected a leaderboard update"),
    }
}

const CRACKERS_WITHOUT_SCORE: &str = "{\"action_type\":\"you_got_crackers\",\"data\":{\
    \"player_uuid\":\"u1\",\"player_friendly_name\":\"ann\",\
    \"old_cracker_x_position\":1.5,\"old_cracker_y_position\":2.0,\
    \"new_cracker_x_position\":-3.25,\"new_cracker_y_position\":4,\
    \"old_cracker_point_value\":10,\"new_cracker_point_value\":20}}";

#[test]
fn crackers_payload_missing_score_gets_placeholder() {
    let env = decode_envelope(CRACKERS_WITHOUT_SCORE);
    assert_eq!(env.action_type, S2CActionTypes::YouGotCrackers);
    match dispatch(&env) {
        Some(DomainEvent::YouGotCrackers(m, s)) => {
            assert_eq!(s.new_score, 0);
            assert_eq!(m.points, 0);
            assert_eq!(m.x_position, "0.0");
            assert_eq!(m.y_position, "0.0");
            assert!(m.you_got_crackers);
        }
        _ => panic!("expected the cracker event"),
    }
}

#[test]
fn crackers_payload_read_in_full() {
    let text = CRACKERS_WITHOUT_SCORE.replace("\"new_cracker_point_value\":20", "\"new_cracker_point_value\":20,\"new_player_score\":130");
    let env = decode_envelope(&text);
    match dispatch(&env) {
        Some(DomainEvent::YouGotCrackers(m, s)) => {
            assert_eq!(s.new_score, 130);
            assert_eq!(m.points, 20);
            assert_eq!(m.x_position, "-3.25");
            assert_eq!(m.y_position, "4");
            assert!(m.you_got_crackers);
        }
        _ => panic!("expected the cracker event"),
    }
    let other = text.replace("you_got_crackers", "opgc");
    match dispatch(&decode_envelope(&other)) {
        Some(DomainEvent::OtherPlayerGotCrackers(m)) => {
            assert_eq!(m.points, 20);
            assert!(!m.you_got_crackers);
        }
        _ => panic!("expected the cracker event"),
    }
}

#[test]
fn own_acknowledgements_publish_nothing() {
    for tag in ["yq", "you_moved", "yd", "opd", "empty"] {
        let env = decode_envelope(&format!("{{\"action_type\":\"{}\",\"data\":{{}}}}", tag));
        assert_eq!(env.action_type, S2CActionTypes::from_tag(tag).unwrap());
        assert!(dispatch(&env).is_none(), "{}", tag);
    }
}

#[test]
fn other_player_events_carry_typed_payloads() {
    let joined = decode_envelope(
        "{\"action_type\":\"opj\",\"data\":{\"player_uuid\":\"u2\",\"player_friendly_name\":\"bo\",\
         \"color\":\"red\",\"x_position\":10.0,\"y_position\":-5.5,\"extra\":[1,2]}}",
    );
    match dispatch(&joined) {
        Some(DomainEvent::OtherPlayerJoined(e)) => {
            assert_eq!(e.data.player_uuid, "u2");
            assert_eq!(e.data.color, "red");
            assert_eq!(e.data.x_position, "10.0");
            assert_eq!(e.data.y_position, "-5.5");
        }
        _ => panic!("expected a join"),
    }
    let left = decode_envelope("{\"action_type\":\"ud\",\"data\":{\"disconnected_player_uuid\":\"u2\"}}");
    match dispatch(&left) {
        Some(DomainEvent::UserDisconnected(e)) => assert_eq!(e.data.disconnected_player_uuid, "u2"),
        _ => panic!("expected a disconnect"),
    }
    let bad = decode_envelope("{\"action_type\":\"opm\",\"data\":{\"player_uuid\":5}}");
    match dispatch(&bad) {
        Some(DomainEvent::OtherPlayerMoved(e)) => {
            assert_eq!(e.data.player_uuid, "error");
            assert_eq!(e.data.color, "error");
            assert_eq!(e.data.new_x_position, "0.0");
        }
        _ => panic!("expected a move"),
    }
    let quack = decode_envelope(
        "{\"action_type\":\"other_player_quacked\",\"data\":{\"player_uuid\":\"u3\",\
         \"player_friendly_name\":\"cy\",\"player_x_position\":1,\"player_y_position\":2,\"quack_pitch\":0.5}}",
    );
    match dispatch(&quack) {
        Some(DomainEvent::OtherPlayerQuacked(e)) => assert_eq!(e.data.quack_pitch, "0.5"),
        _ => panic!("expected a quack"),
    }
    let you = decode_envelope("{\"action_type\":\"yj\",\"data\":null}");
    match dispatch(&you) {
        Some(DomainEvent::YouJoined(e)) => assert_eq!(e.data.player_friendly_name, "error"),
        _ => panic!("expected a join"),
    }
}

#[test]
fn move_is_written_byte_for_byte() {
    assert_eq!(
        encode_move("1.0", "0.0"),
        Some("{\"action_type\":\"move\",\"data\":{\"x_direction\":1.0,\"y_direction\":0.0}}".to_string())
    );
    assert_eq!(
        encode_move("null", "0.0"),
        Some("{\"action_type\":\"move\",\"data\":{\"x_direction\":null,\"y_direction\":0.0}}".to_string())
    );
    assert_eq!(
        encode_move("-2.5e-3", "null"),
        Some("{\"action_type\":\"move\",\"data\":{\"x_direction\":-2.5e-3,\"y_direction\":null}}".to_string())
    );
    assert_eq!(encode_move("", "0.0"), None);
    assert_eq!(encode_move("1.0", "NaN"), None);
    assert_eq!(encode_move("nul", "0.0"), None);
}

#[test]
fn number_texts_follow_the_json_grammar() {
    for ok in ["0", "-0", "1.0", "0.0", "42", "1e5", "1E+5", "-0.25e-3", "3.4028235e38", "10.5"] {
        assert!(is_number(ok), "{}", ok);
    }
    for bad in ["", "-", "01", "1.", ".5", "1e", "1e+", "+1", "null", "1.0x", "NaN", "inf", "--1", "1..0", " 1"] {
        assert!(!is_number(bad), "{}", bad);
    }
}

#[test]
fn join_is_written_byte_for_byte() {
    assert_eq!(
        encode_join("Ducky"),
        "{\"action_type\":\"join\",\"data\":{\"friendly_name\":\"Ducky\"}}"
    );
    assert_eq!(
        encode_join("a\"b\\c\n"),
        "{\"action_type\":\"join\",\"data\":{\"friendly_name\":\"a\\\"b\\\\c\\n\"}}"
    );
    assert_eq!(
        encode_join("\t\u{8}\u{c}\r\u{1f}\u{7f}/é"),
        "{\"action_type\":\"join\",\"data\":{\"friendly_name\":\"\\t\\b\\f\\r\\u001f\u{7f}/é\"}}"
    );
    assert_eq!(
        encode_join("\u{1}"),
        "{\"action_type\":\"join\",\"data\":{\"friendly_name\":\"\\u0001\"}}"
    );
}

#[test]
fn requests_round_trip_through_the_server_reading() {
    for name in ["Ducky", "", "a\"b\\c\n", "ünïcödé 🦆"] {
        let text = encode_join(name);
        match ClientRequest::decode(&text) {
            Some(ClientRequest::Join { friendly_name }) => assert_eq!(friendly_name, name),
            _ => panic!("join did not read back: {}", text),
        }
    }
    for (x, y) in [("1.0", "0.0"), ("-0.5", "0.25"), ("3", "-7")] {
        let req = ClientRequest::Move(MoveRequestData { x_direction: x.to_string(), y_direction: y.to_string() });
        match ClientRequest::decode(&req.encode().unwrap()) {
            Some(ClientRequest::Move(m)) => {
                assert_eq!(m.x_direction.parse::<f64>().unwrap(), x.parse::<f64>().unwrap());
                assert_eq!(m.y_direction.parse::<f64>().unwrap(), y.parse::<f64>().unwrap());
            }
            _ => panic!("move did not read back"),
        }
    }
}

#[test]
fn short_request_tags_read_alike() {
    let long = ClientRequest::decode("{\"action_type\":\"join\",\"data\":{\"friendly_name\":\"ann\"}}");
    let short = ClientRequest::decode("{\"action_type\":\"j\",\"data\":{\"friendly_name\":\"ann\"}}");
    assert!(matches!(long, Some(ClientRequest::Join { ref friendly_name }) if friendly_name == "ann"));
    assert!(matches!(short, Some(ClientRequest::Join { ref friendly_name }) if friendly_name == "ann"));
    let mv = ClientRequest::decode("{\"action_type\":\"m\",\"data\":{\"x_direction\":1.0,\"y_direction\":0.0}}");
    assert!(matches!(mv, Some(ClientRequest::Move(ref m)) if m.x_direction == "1.0" && m.y_direction == "0.0"));
    assert!(ClientRequest::decode("{\"action_type\":\"q\",\"data\":{}}").is_none());
    assert!(ClientRequest::decode("{\"action_type\":\"j\",\"data\":{\"friendly_name\":3}}").is_none());
}

#[test]
fn documents_keep_their_structure() {
    let env = decode_envelope("{\"action_type\":\"e\",\"data\":{\"a\":[1,true,null,\"s\"],\"b\":{\"c\":2.5}}}");
    match env.data {
        Json::Object(members) => {
            assert_eq!(members.len(), 2);
            assert_eq!(members[0].0, "a");
            match &members[0].1 {
                Json::Array(items) => {
                    assert_eq!(items.len(), 4);
                    assert!(matches!(&items[0], Json::Number(t) if t == "1"));
                    assert!(matches!(items[1], Json::Bool(true)));
                    assert!(matches!(items[2], Json::Null));
                    assert!(matches!(&items[3], Json::Str(s) if s == "s"));
                }
                _ => panic!("expected an array"),
            }
            let b = &members[1].1;
            assert!(matches!(b.member("c"), Some(Json::Number(t)) if t == "2.5"));
            assert!(b.member("d").is_none());
        }
        _ => panic!("expected an object"),
    }
}

#[test]
fn counts_are_unsigned_integers_only() {
    let doc = decode_envelope(
        "{\"action_type\":\"e\",\"data\":{\"a\":42,\"b\":42.5,\"c\":-1,\"d\":18446744073709551615,\
         \"e\":18446744073709551616,\"f\":\"7\",\"g\":0}}",
    )
    .data;
    assert_eq!(doc.count_member("a"), Some(42));
    assert_eq!(doc.count_member("b"), None);
    assert_eq!(doc.count_member("c"), None);
    assert_eq!(doc.count_member("d"), Some(u64::MAX));
    assert_eq!(doc.count_member("e"), None);
    assert_eq!(doc.count_member("f"), None);
    assert_eq!(doc.count_member("g"), Some(0));
    assert_eq!(doc.count_member("h"), None);
}

#[test]
fn decimals_read_exactly() {
    assert_eq!(read_decimal("0"), Some(0));
    assert_eq!(read_decimal("907"), Some(907));
    assert_eq!(read_decimal("18446744073709551615"), Some(u64::MAX));
    assert_eq!(read_decimal("18446744073709551616"), None);
    assert_eq!(read_decimal("99999999999999999999"), None);
    assert_eq!(read_decimal(""), None);
    assert_eq!(read_decimal("12a"), None);
    assert_eq!(read_decimal("-1"), None);
}

#[test]
fn score_and_board_labels() {
    assert_eq!(decimal_text(0), "0");
    assert_eq!(decimal_text(7), "7");
    assert_eq!(decimal_text(10), "10");
    assert_eq!(decimal_text(1000000007), "1000000007");
    assert_eq!(decimal_text(u64::MAX), "18446744073709551615");
    assert_eq!(score_text(0), "Score: 0");
    assert_eq!(score_text(1234), "Score: 1234");
    assert_eq!(score_text(u64::MAX), "Score: 18446744073709551615");
    match dispatch(&decode_envelope(&leaderboard_frame("leaderboard_update"))) {
        Some(DomainEvent::LeaderboardUpdate(e)) => {
            let t = leaderboard_texts(&e.data);
            assert_eq!(t.your_place, "3");
            assert_eq!(t.names, vec!["ann", "bo", "cy", "di", "ed"]);
            assert_eq!(t.scores, vec!["90", "70", "50", "42", "10"]);
        }
        _ => panic!("expected a leaderboard update"),
    }
}
