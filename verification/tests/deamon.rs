use biliver::deamon::{
    advance, heartbeat_pause, is_complete_notice, parse_notice, react, read_notice, room_from_init,
    room_from_init_text, Notice, NoticeError, Reaction, Stage,
};
use biliver::utils::json::Json;
use biliver::LoopCounter;

fn obj(members: Vec<(&str, Json)>) -> Json {
    Json::Object(members.into_iter().map(|(k, v)| (k.to_string(), v)).collect())
}

fn s(text: &str) -> Json {
    Json::Str(text.to_string())
}

#[test]
fn react_popularity_logged_when_counter_reaches_bound() {
    let mut c = LoopCounter::new(1);
    match react(&mut c, 3, &[0, 0, 0x21, 0x26]) {
        Reaction::Popularity(p) => assert_eq!(p, 8486),
        _ => panic!("expected a popularity reading"),
    }
    assert!(matches!(react(&mut c, 3, &[0, 0, 0, 1]), Reaction::Skip));
    assert!(matches!(react(&mut c, 3, &[0, 0, 1, 0]), Reaction::Popularity(256)));
}

#[test]
fn react_other_actions() {
    let mut c = LoopCounter::new(1);
    assert!(matches!(react(&mut c, 8, &[]), Reaction::Entered));
    assert!(matches!(react(&mut c, 2, &[]), Reaction::Unknown));
    match react(&mut c, 5, "{\"cmd\":\"X\"}".as_bytes()) {
        Reaction::Notice(text) => assert_eq!(text, "{\"cmd\":\"X\"}"),
        _ => panic!("expected a notice"),
    }
    match react(&mut c, 5, &[0xc3]) {
        Reaction::Notice(text) => assert_eq!(text, "error decoding utf8"),
        _ => panic!("expected a notice"),
    }
    // other actions leave the counter alone: it still fires on the next reading
    assert!(c.fires_next());
}

#[test]
fn parse_gift_notice() {
    let json = obj(vec![
        ("cmd", s("SEND_GIFT")),
        (
            "data",
            obj(vec![
                ("uid", Json::PosInt(378088413)),
                ("uname", s("一个B站用户")),
                ("giftName", s("摩天大楼")),
                ("num", Json::PosInt(1)),
                ("coin_type", s("gold")),
                ("total_coin", Json::PosInt(360000)),
            ]),
        ),
    ]);
    assert!(is_complete_notice(&json));
    match parse_notice(&json) {
        Ok(Notice::Gift { uid, uname, gift_name, num, coin_type, total_coin }) => {
            assert_eq!(uid, 378088413);
            assert_eq!(uname, "一个B站用户");
            assert_eq!(gift_name, "摩天大楼");
            assert_eq!(num, 1);
            assert_eq!(coin_type, "gold");
            assert_eq!(total_coin, 360000);
        }
        _ => panic!("expected a gift"),
    }
}

#[test]
fn parse_danmu_notice() {
    let json = obj(vec![
        ("cmd", s("DANMU_MSG")),
        (
            "info",
            Json::Array(vec![
                Json::Array(vec![]),
                s("hello"),
                Json::Array(vec![Json::PosInt(10269709), s("viewer")]),
                Json::Null,
            ]),
        ),
    ]);
    assert!(is_complete_notice(&json));
    match parse_notice(&json) {
        Ok(Notice::Barrage { uid, uname, msg }) => {
            assert_eq!(uid, 10269709);
            assert_eq!(uname, "viewer");
            assert_eq!(msg, "hello");
        }
        _ => panic!("expected a barrage"),
    }
}

#[test]
fn parse_danmu_unknown_name() {
    let json = obj(vec![
        ("cmd", s("DANMU_MSG")),
        (
            "info",
            Json::Array(vec![
                Json::Null,
                s("m"),
                Json::Array(vec![Json::PosInt(5), Json::PosInt(6)]),
                Json::Null,
            ]),
        ),
    ]);
    match parse_notice(&json) {
        Ok(Notice::Barrage { uname, .. }) => assert_eq!(uname, "unknown"),
        _ => panic!("expected a barrage"),
    }
}

#[test]
fn parse_notice_errors() {
    assert_eq!(parse_notice(&obj(vec![])).err(), Some(NoticeError::UnknownCommand));
    assert_eq!(parse_notice(&Json::Null).err(), Some(NoticeError::UnknownCommand));
    assert_eq!(
        parse_notice(&obj(vec![("cmd", s("SEND_GIFT"))])).err(),
        Some(NoticeError::Data)
    );
    assert_eq!(
        parse_notice(&obj(vec![("cmd", s("DANMU_MSG"))])).err(),
        Some(NoticeError::Info)
    );
    let short = obj(vec![
        ("cmd", s("DANMU_MSG")),
        ("info", Json::Array(vec![Json::Null, s("m"), Json::Null])),
    ]);
    assert_eq!(parse_notice(&short).err(), Some(NoticeError::Danmu));
    let no_msg = obj(vec![
        ("cmd", s("DANMU_MSG")),
        ("info", Json::Array(vec![Json::Null, Json::PosInt(1), Json::Null, Json::Null])),
    ]);
    assert_eq!(parse_notice(&no_msg).err(), Some(NoticeError::Danmu));
    let not_list = obj(vec![("cmd", s("DANMU_MSG")), ("info", s("x"))]);
    assert_eq!(parse_notice(&not_list).err(), Some(NoticeError::Danmu));
}

#[test]
fn parse_other_commands() {
    assert!(matches!(parse_notice(&obj(vec![("cmd", s("LIVE"))])), Ok(Notice::Other)));
    assert!(matches!(parse_notice(&obj(vec![("cmd", Json::PosInt(3))])), Ok(Notice::Other)));
}

#[test]
fn incomplete_notices_are_detected() {
    let gift = obj(vec![("cmd", s("SEND_GIFT")), ("data", obj(vec![("uid", Json::PosInt(1))]))]);
    assert!(!is_complete_notice(&gift));
    let neg = obj(vec![
        ("cmd", s("DANMU_MSG")),
        (
            "info",
            Json::Array(vec![
                Json::Null,
                s("m"),
                Json::Array(vec![Json::NegInt(-1), s("n")]),
                Json::Null,
            ]),
        ),
    ]);
    assert!(!is_complete_notice(&neg));
    let one_item = obj(vec![
        ("cmd", s("DANMU_MSG")),
        (
            "info",
            Json::Array(vec![Json::Null, s("m"), Json::Array(vec![Json::PosInt(1)]), Json::Null]),
        ),
    ]);
    assert!(!is_complete_notice(&one_item));
    assert!(is_complete_notice(&obj(vec![("cmd", s("SEND_GIFT"))])));
}

#[test]
fn error_messages() {
    assert_eq!(NoticeError::Body.message(), "error parsing body");
    assert_eq!(NoticeError::UnknownCommand.message(), "unknown command");
    assert_eq!(NoticeError::Data.message(), "error parsing data");
    assert_eq!(NoticeError::Info.message(), "error parsing info");
    assert_eq!(NoticeError::Danmu.message(), "error parsing danmu data");
}

#[test]
fn room_from_init_answer() {
    let answer = obj(vec![("code", Json::PosInt(0)), ("data", obj(vec![("room_id", Json::PosInt(21452505))]))]);
    assert_eq!(room_from_init(&answer), Some(21452505));
    assert_eq!(room_from_init(&obj(vec![("data", Json::Null)])), None);
    let big = obj(vec![("data", obj(vec![("room_id", Json::PosInt((1u64 << 32) + 7))]))]);
    assert_eq!(room_from_init(&big), Some(7));
}

#[test]
fn session_stages() {
    assert_eq!(advance(Stage::Connecting, true), (Stage::Joining, 0));
    assert_eq!(advance(Stage::Connecting, false), (Stage::Connecting, 3));
    assert_eq!(advance(Stage::Joining, true), (Stage::Cloning, 0));
    assert_eq!(advance(Stage::Joining, false), (Stage::Connecting, 0));
    assert_eq!(advance(Stage::Cloning, true), (Stage::Listening, 0));
    assert_eq!(advance(Stage::Cloning, false), (Stage::Connecting, 3));
    assert_eq!(advance(Stage::Listening, true), (Stage::Connecting, 0));
    assert_eq!(heartbeat_pause(true), 30);
    assert_eq!(heartbeat_pause(false), 10);
}

#[test]
fn read_notice_from_text() {
    let text = "{\"cmd\":\"DANMU_MSG\",\"info\":[[0,1],\"hi\",[10269709,\"viewer\",0],[]]}";
    match read_notice(text) {
        Some(Ok(Notice::Barrage { uid, uname, msg })) => {
            assert_eq!(uid, 10269709);
            assert_eq!(uname, "viewer");
            assert_eq!(msg, "hi");
        }
        _ => panic!("expected a barrage"),
    }
    let gift = "{\"cmd\":\"SEND_GIFT\",\"data\":{\"uid\":1,\"uname\":\"u\",\"giftName\":\"g\",\"num\":2,\"coin_type\":\"gold\",\"total_coin\":30}}";
    assert!(matches!(read_notice(gift), Some(Ok(Notice::Gift { num: 2, total_coin: 30, .. }))));
    assert!(matches!(read_notice("not json"), Some(Err(NoticeError::Body))));
    assert!(matches!(read_notice("{\"msg\":1}"), Some(Err(NoticeError::UnknownCommand))));
    assert!(matches!(read_notice("{\"cmd\":\"SEND_GIFT\",\"data\":{}}"), None));
    assert!(matches!(read_notice("{\"cmd\":\"LIVE\"}"), Some(Ok(Notice::Other))));
    // a negative or fractional user id is no user id
    let neg = "{\"cmd\":\"DANMU_MSG\",\"info\":[0,\"hi\",[-1,\"v\"],0]}";
    assert!(read_notice(neg).is_none());
    let frac = "{\"cmd\":\"DANMU_MSG\",\"info\":[0,\"hi\",[1.5,\"v\"],0]}";
    assert!(read_notice(frac).is_none());
}

#[test]
fn room_from_init_text_answers() {
    let answer = "{\"code\":0,\"data\":{\"room_id\":21452505,\"short_id\":0}}";
    assert_eq!(room_from_init_text(answer), Some(21452505));
    assert_eq!(room_from_init_text("{\"code\":60004,\"data\":null}"), None);
    assert_eq!(room_from_init_text("<html>"), None);
}
