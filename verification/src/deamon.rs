//! The decisions of the listening daemon: what to do with each package the
//! server sends, how to read a notification, and how a session moves from
//! connecting to listening and back.
use crate::impls::counter::{step, LoopCounter};
use crate::impls::package::received_text;
use crate::utils::bytes::{be_u32_bytes, be_u32_value, read_be_u32, utf8_str};
use crate::utils::json::{parse_json, parsed_json, spec_as_array, spec_as_str, spec_as_u64, spec_get, Json};
use vstd::prelude::*;
use vstd::string::StringExecFns;

verus! {

broadcast use vstd::utf8::group_utf8_lib;

/// What the daemon does with a package it received.
pub enum Reaction {
    /// Log this popularity reading.
    Popularity(u32),
    /// A popularity reading between two logged ones: nothing to do.
    Skip,
    /// The server confirmed the join: the room is being listened to.
    Entered,
    /// A notification with this text, to be read as JSON.
    Notice(String),
    /// A package of an unknown action.
    Unknown,
}

/// Reacts to a package of action `action` whose body bytes are `body`.
/// A popularity package (action 3) ticks `counter`, and its reading is
/// logged when the counter reaches its bound; reading it takes the first
/// four bytes of the body, so a shorter body there is left out.
pub fn react(counter: &mut LoopCounter, action: u32, body: &[u8]) -> (r: Reaction)
    requires
        action == 3 && step(old(counter).count(), old(counter).bound()) == old(counter).bound()
            ==> body@.len() >= 4,
    ensures
        action == 3 ==> final(counter).count() == step(old(counter).count(), old(counter).bound()),
        action != 3 ==> final(counter).count() == old(counter).count(),
        final(counter).bound() == old(counter).bound(),
        action == 3 && final(counter).count() == final(counter).bound() ==> r
            == Reaction::Popularity(be_u32_value(body@) as u32),
        action == 3 && final(counter).count() != final(counter).bound() ==> r == Reaction::Skip,
        action == 8 ==> r == Reaction::Entered,
        action == 5 ==> (r matches Reaction::Notice(text) && text@ == received_text(body@)),
        action != 3 && action != 5 && action != 8 ==> r == Reaction::Unknown,
{
    if action == 3 {
        let value = counter.next();
        if value == counter.bound_halves() {
            Reaction::Popularity(read_be_u32(body))
        } else {
            Reaction::Skip
        }
    } else if action == 8 {
        Reaction::Entered
    } else if action == 5 {
        let text = match utf8_str(body) {
            Some(s) => s.to_owned(),
            None => "error decoding utf8".to_owned(),
        };
        Reaction::Notice(text)
    } else {
        Reaction::Unknown
    }
}

/// A popularity package whose body starts with the reading `v` written
/// big-endian is logged as `v`, whatever follows it.
pub proof fn lemma_popularity_roundtrip(v: u32, rest: Seq<u8>)
    ensures
        be_u32_value(be_u32_bytes(v) + rest) == v,
{
    crate::utils::bytes::lemma_be_u32_roundtrip(v);
    let b = be_u32_bytes(v) + rest;
    assert(b[0] == be_u32_bytes(v)[0] && b[1] == be_u32_bytes(v)[1] && b[2] == be_u32_bytes(v)[2]
        && b[3] == be_u32_bytes(v)[3]);
}

/// A notification, as the daemon reads it.
pub enum Notice {
    /// `num` gifts named `gift_name`, worth `total_coin` coins of kind
    /// `coin_type`, sent by user `uid` named `uname`.
    Gift {
        uid: u64,
        uname: String,
        gift_name: String,
        num: u64,
        coin_type: String,
        total_coin: u64,
    },
    /// A barrage `msg` sent by user `uid` named `uname`.
    Barrage { uid: u64, uname: String, msg: String },
    /// Any other command: nothing to log.
    Other,
}

/// A notice with its texts as characters.
pub enum NoticeView {
    Gift {
        uid: u64,
        uname: Seq<char>,
        gift_name: Seq<char>,
        num: u64,
        coin_type: Seq<char>,
        total_coin: u64,
    },
    Barrage { uid: u64, uname: Seq<char>, msg: Seq<char> },
    Other,
}

impl View for Notice {
    type V = NoticeView;

    open spec fn view(&self) -> NoticeView {
        match *self {
            Notice::Gift { uid, uname, gift_name, num, coin_type, total_coin } => NoticeView::Gift {
                uid,
                uname: uname@,
                gift_name: gift_name@,
                num,
                coin_type: coin_type@,
                total_coin,
            },
            Notice::Barrage { uid, uname, msg } => NoticeView::Barrage {
                uid,
                uname: uname@,
                msg: msg@,
            },
            Notice::Other => NoticeView::Other,
        }
    }
}

/// Why a notification could not be read.
#[derive(Debug, PartialEq, Eq, Structural)]
pub enum NoticeError {
    /// The text is not JSON.
    Body,
    /// There is no command.
    UnknownCommand,
    /// A gift without data.
    Data,
    /// A barrage without information.
    Info,
    /// A barrage whose information is not a list of at least four items
    /// with the message second.
    Danmu,
}

impl NoticeError {
    /// The message shown for this error.
    pub fn message(&self) -> (r: &'static str)
        ensures
            r@ == match self {
                NoticeError::Body => "error parsing body"@,
                NoticeError::UnknownCommand => "unknown command"@,
                NoticeError::Data => "error parsing data"@,
                NoticeError::Info => "error parsing info"@,
                NoticeError::Danmu => "error parsing danmu data"@,
            },
    {
        match self {
            NoticeError::Body => "error parsing body",
            NoticeError::UnknownCommand => "unknown command",
            NoticeError::Data => "error parsing data",
            NoticeError::Info => "error parsing info",
            NoticeError::Danmu => "error parsing danmu data",
        }
    }
}

/// Whether member `key` of `j` is present and a non-negative integer.
pub open spec fn has_u64(j: Json, key: Seq<char>) -> bool {
    spec_get(j, key) matches Some(v) && spec_as_u64(v) is Some
}

/// Whether member `key` of `j` is present and a string.
pub open spec fn has_str(j: Json, key: Seq<char>) -> bool {
    spec_get(j, key) matches Some(v) && spec_as_str(v) is Some
}

/// Whether `j` names command `name`.
pub open spec fn is_command(j: Json, name: Seq<char>) -> bool {
    spec_get(j, "cmd"@) matches Some(c) && spec_as_str(c) == Some(name)
}

/// The barrage information of `j`, when it is a list of more than three
/// items whose second is a string.
pub open spec fn danmu_info(j: Json) -> Option<Seq<Json>> {
    match spec_get(j, "info"@) {
        Some(info) => match spec_as_array(info) {
            Some(items) => if items.len() > 3 && spec_as_str(items[1]) is Some {
                Some(items)
            } else {
                None
            },
            None => None,
        },
        None => None,
    }
}

/// Whether a notification can be read without a missing field: a gift's
/// data has its six fields with the right types, and a barrage's sender is
/// a list whose first item is the user id and which has a second item.
pub open spec fn notice_complete(j: Json) -> bool {
    &&& is_command(j, "SEND_GIFT"@) ==> (spec_get(j, "data"@) matches Some(d) ==> {
        &&& has_u64(d, "uid"@)
        &&& has_str(d, "uname"@)
        &&& has_str(d, "giftName"@)
        &&& has_u64(d, "num"@)
        &&& has_str(d, "coin_type"@)
        &&& has_u64(d, "total_coin"@)
    })
    &&& is_command(j, "DANMU_MSG"@) ==> (danmu_info(j) matches Some(items) ==> {
        &&& spec_as_array(items[2]) matches Some(user)
        &&& user.len() >= 2
        &&& spec_as_u64(user[0]) is Some
    })
}

/// The value of member `key` of `j`, taken as a non-negative integer.
pub open spec fn u64_of(j: Json, key: Seq<char>) -> u64 {
    spec_as_u64(spec_get(j, key).unwrap()).unwrap()
}

/// The text of member `key` of `j`, taken as a string.
pub open spec fn str_of(j: Json, key: Seq<char>) -> Seq<char> {
    spec_as_str(spec_get(j, key).unwrap()).unwrap()
}

/// What a complete notification `j` reads as.
pub open spec fn notice_of(j: Json) -> Result<NoticeView, NoticeError> {
    if spec_get(j, "cmd"@) is None {
        Err(NoticeError::UnknownCommand)
    } else if is_command(j, "SEND_GIFT"@) {
        match spec_get(j, "data"@) {
            Some(d) => Ok(
                NoticeView::Gift {
                    uid: u64_of(d, "uid"@),
                    uname: str_of(d, "uname"@),
                    gift_name: str_of(d, "giftName"@),
                    num: u64_of(d, "num"@),
                    coin_type: str_of(d, "coin_type"@),
                    total_coin: u64_of(d, "total_coin"@),
                },
            ),
            None => Err(NoticeError::Data),
        }
    } else if is_command(j, "DANMU_MSG"@) {
        if spec_get(j, "info"@) is None {
            Err(NoticeError::Info)
        } else {
            match danmu_info(j) {
                Some(items) => {
                    let user = spec_as_array(items[2]).unwrap();
                    Ok(
                        NoticeView::Barrage {
                            uid: spec_as_u64(user[0]).unwrap(),
                            uname: match spec_as_str(user[1]) {
                                Some(name) => name,
                                None => "unknown"@,
                            },
                            msg: spec_as_str(items[1]).unwrap(),
                        },
                    )
                },
                None => Err(NoticeError::Danmu),
            }
        }
    } else {
        Ok(NoticeView::Other)
    }
}

/// What a complete notification reads as, field by field from its JSON: a
/// gift carries the members `uid`, `uname`, `giftName`, `num`, `coin_type`
/// and `total_coin` of its `data` as they are; a barrage carries as user id
/// the whole first item of the third item of its `info`, as name the second
/// item of that (or "unknown" when it is no string), and as message the
/// second item of `info`.
pub proof fn lemma_notice_fields(j: Json)
    requires
        notice_complete(j),
    ensures
        match notice_of(j) {
            Ok(NoticeView::Gift { uid, uname, gift_name, num, coin_type, total_coin }) => {
                let data = spec_get(j, "data"@).unwrap();
                &&& is_command(j, "SEND_GIFT"@)
                &&& spec_get(data, "uid"@) == Some(Json::PosInt(uid))
                &&& spec_get(data, "num"@) == Some(Json::PosInt(num))
                &&& spec_get(data, "total_coin"@) == Some(Json::PosInt(total_coin))
                &&& spec_as_str(spec_get(data, "uname"@).unwrap()) == Some(uname)
                &&& spec_as_str(spec_get(data, "giftName"@).unwrap()) == Some(gift_name)
                &&& spec_as_str(spec_get(data, "coin_type"@).unwrap()) == Some(coin_type)
            },
            Ok(NoticeView::Barrage { uid, uname, msg }) => {
                let items = spec_as_array(spec_get(j, "info"@).unwrap()).unwrap();
                let user = spec_as_array(items[2]).unwrap();
                &&& is_command(j, "DANMU_MSG"@)
                &&& items.len() > 3
                &&& user[0] == Json::PosInt(uid)
                &&& spec_as_str(items[1]) == Some(msg)
                &&& uname == match spec_as_str(user[1]) {
                    Some(name) => name,
                    None => "unknown"@,
                }
            },
            Ok(NoticeView::Other) => !is_command(j, "SEND_GIFT"@) && !is_command(j, "DANMU_MSG"@)
                && spec_get(j, "cmd"@) is Some,
            Err(e) => e != NoticeError::Body,
        },
{
    if spec_get(j, "cmd"@) is Some && is_command(j, "SEND_GIFT"@) && spec_get(j, "data"@) is Some {
        let data = spec_get(j, "data"@).unwrap();
        assert(spec_as_u64(spec_get(data, "uid"@).unwrap()) is Some);
    }
}

fn get_u64(j: &Json, key: &str) -> (r: u64)
    requires
        has_u64(*j, key@),
    ensures
        r == u64_of(*j, key@),
{
    j.get(key).unwrap().as_u64().unwrap()
}

fn get_string(j: &Json, key: &str) -> (r: String)
    requires
        has_str(*j, key@),
    ensures
        r@ == str_of(*j, key@),
{
    j.get(key).unwrap().as_str().unwrap().clone()
}

fn command_is(json: &Json, name: &str) -> (r: bool)
    ensures
        r == is_command(*json, name@),
{
    match json.get("cmd") {
        Some(cmd) => match cmd.as_str() {
            Some(c) => crate::utils::json::str_eq(c.as_str(), name),
            None => false,
        },
        None => false,
    }
}

fn read_danmu_info(json: &Json) -> (r: Option<&Vec<Json>>)
    ensures
        r matches Some(items) ==> danmu_info(*json) == Some(items@),
        r is None ==> danmu_info(*json) is None,
{
    match json.get("info") {
        Some(info) => match info.as_array() {
            Some(items) => {
                if items.len() > 3 && items[1].as_str().is_some() {
                    Some(items)
                } else {
                    None
                }
            },
            None => None,
        },
        None => None,
    }
}

/// Whether the notification `json` is complete (see `notice_complete`).
pub fn is_complete_notice(json: &Json) -> (r: bool)
    ensures
        r == notice_complete(*json),
{
    if command_is(json, "SEND_GIFT") {
        if let Some(d) = json.get("data") {
            let fields_ok = has_u64_member(d, "uid") && has_str_member(d, "uname") && has_str_member(
                d,
                "giftName",
            ) && has_u64_member(d, "num") && has_str_member(d, "coin_type") && has_u64_member(
                d,
                "total_coin",
            );
            if !fields_ok {
                return false;
            }
        }
    }
    if command_is(json, "DANMU_MSG") {
        if let Some(items) = read_danmu_info(json) {
            match items[2].as_array() {
                Some(user) => {
                    if user.len() < 2 || user[0].as_u64().is_none() {
                        return false;
                    }
                },
                None => {
                    return false;
                },
            }
        }
    }
    true
}

fn has_u64_member(j: &Json, key: &str) -> (r: bool)
    ensures
        r == has_u64(*j, key@),
{
    match j.get(key) {
        Some(v) => v.as_u64().is_some(),
        None => false,
    }
}

fn has_str_member(j: &Json, key: &str) -> (r: bool)
    ensures
        r == has_str(*j, key@),
{
    match j.get(key) {
        Some(v) => v.as_str().is_some(),
        None => false,
    }
}

/// Reads a notification. A gift or barrage notification whose fields are
/// missing is left out by `requires` (see `is_complete_notice`).
pub fn parse_notice(json: &Json) -> (r: Result<Notice, NoticeError>)
    requires
        notice_complete(*json),
    ensures
        match r {
            Ok(n) => notice_of(*json) == Ok::<NoticeView, NoticeError>(n@),
            Err(e) => notice_of(*json) == Err::<NoticeView, NoticeError>(e),
        },
{
    if json.get("cmd").is_none() {
        return Err(NoticeError::UnknownCommand);
    }
    if command_is(json, "SEND_GIFT") {
        match json.get("data") {
            Some(d) => {
                let uid = get_u64(d, "uid");
                let uname = get_string(d, "uname");
                let gift_name = get_string(d, "giftName");
                let num = get_u64(d, "num");
                let coin_type = get_string(d, "coin_type");
                let total_coin = get_u64(d, "total_coin");
                Ok(Notice::Gift { uid, uname, gift_name, num, coin_type, total_coin })
            },
            None => Err(NoticeError::Data),
        }
    } else if command_is(json, "DANMU_MSG") {
        if json.get("info").is_none() {
            return Err(NoticeError::Info);
        }
        match read_danmu_info(json) {
            Some(items) => {
                let msg = items[1].as_str().unwrap().clone();
                let user = items[2].as_array().unwrap();
                let uid = user[0].as_u64().unwrap();
                let uname = match user[1].as_str() {
                    Some(name) => name.clone(),
                    None => String::from_str("unknown"),
                };
                Ok(Notice::Barrage { uid, uname, msg })
            },
            None => Err(NoticeError::Danmu),
        }
    } else {
        Ok(Notice::Other)
    }
}

/// Reads the text of a notification: `Some(Err(Body))` when it is not JSON,
/// `None` when it is JSON but a gift or barrage in it lacks a field (see
/// `notice_complete`), and otherwise what the JSON reads as.
pub fn read_notice(data: &str) -> (r: Option<Result<Notice, NoticeError>>)
    ensures
        parsed_json(data@) is None ==> r == Some(Err::<Notice, NoticeError>(NoticeError::Body)),
        parsed_json(data@) matches Some(j) ==> (r is None <==> !notice_complete(j)),
        parsed_json(data@) matches Some(j) ==> (notice_complete(j) ==> match r.unwrap() {
            Ok(n) => notice_of(j) == Ok::<NoticeView, NoticeError>(n@),
            Err(e) => notice_of(j) == Err::<NoticeView, NoticeError>(e),
        }),
{
    match parse_json(data) {
        None => Some(Err(NoticeError::Body)),
        Some(json) => {
            if is_complete_notice(&json) {
                Some(parse_notice(&json))
            } else {
                None
            }
        },
    }
}

/// The room that the room-initialisation answer `answer` names: member
/// `room_id` of member `data`, when it is a non-negative integer, cut to 32
/// bits.
pub open spec fn init_room(answer: Json) -> Option<u32> {
    match spec_get(answer, "data"@) {
        Some(data) => match spec_get(data, "room_id"@) {
            Some(id) => match spec_as_u64(id) {
                Some(n) => Some(n as u32),
                None => None,
            },
            None => None,
        },
        None => None,
    }
}

/// Reads the room id out of the answer of the room-initialisation service.
pub fn room_from_init(answer: &Json) -> (r: Option<u32>)
    ensures
        r == init_room(*answer),
        r is Some <==> (spec_get(*answer, "data"@) matches Some(data) && spec_get(data, "room_id"@)
            matches Some(id) && spec_as_u64(id) is Some),
        r is Some ==> r == Some(
            spec_as_u64(spec_get(spec_get(*answer, "data"@).unwrap(), "room_id"@).unwrap()).unwrap()
                as u32,
        ),
{
    match answer.get("data") {
        Some(data) => match data.get("room_id") {
            Some(id) => match id.as_u64() {
                Some(n) => Some(n as u32),
                None => None,
            },
            None => None,
        },
        None => None,
    }
}

/// The room read from the answer is member `room_id` of member `data` cut
/// to 32 bits, whatever else `data` holds: any two answers whose `data`
/// members have the same `room_id` give the same room, and an answer whose
/// `data.room_id` is the non-negative integer `n` gives `n` cut to 32 bits.
pub proof fn lemma_init_room_reads_room_id(a: Json, b: Json, n: u64)
    ensures
        (spec_get(a, "data"@) matches Some(da) && spec_get(da, "room_id"@) == Some(Json::PosInt(n)))
            ==> init_room(a) == Some(n as u32),
        (spec_get(a, "data"@) matches Some(da) && spec_get(b, "data"@) matches Some(db) && spec_get(
            da,
            "room_id"@,
        ) == spec_get(db, "room_id"@)) ==> init_room(a) == init_room(b),
        spec_get(a, "data"@) is None ==> init_room(a) is None,
{
}

/// Reads the room id out of the text of the room-initialisation service's
/// answer: `None` when the text is not JSON or names no room.
pub fn room_from_init_text(text: &str) -> (r: Option<u32>)
    ensures
        r == match parsed_json(text@) {
            Some(j) => init_room(j),
            None => None,
        },
{
    match parse_json(text) {
        Some(answer) => room_from_init(&answer),
        None => None,
    }
}

/// Where a session with the server stands, and so what work comes next.
#[derive(Debug, PartialEq, Eq, Structural)]
pub enum Stage {
    /// Resolve the server and open a connection.
    Connecting,
    /// Send the package that joins the room.
    Joining,
    /// Make the second handle of the connection that carries heartbeats.
    Cloning,
    /// Heartbeats run; read packages until the connection fails.
    Listening,
}

/// The stage after the work of `stage` succeeded (`ok`) or failed, and the
/// seconds to wait before starting its work: a failed connection is retried
/// after 3 seconds, a failed join at once, a failed second handle after 3
/// seconds, and a lost connection (which ends listening) at once.
pub open spec fn next_stage(stage: Stage, ok: bool) -> (Stage, u64) {
    match stage {
        Stage::Connecting => if ok {
            (Stage::Joining, 0)
        } else {
            (Stage::Connecting, 3)
        },
        Stage::Joining => if ok {
            (Stage::Cloning, 0)
        } else {
            (Stage::Connecting, 0)
        },
        Stage::Cloning => if ok {
            (Stage::Listening, 0)
        } else {
            (Stage::Connecting, 3)
        },
        Stage::Listening => (Stage::Connecting, 0),
    }
}

/// The next stage of a session and the pause before it.
pub fn advance(stage: Stage, ok: bool) -> (r: (Stage, u64))
    ensures
        r == next_stage(stage, ok),
{
    match stage {
        Stage::Connecting => if ok {
            (Stage::Joining, 0)
        } else {
            (Stage::Connecting, 3)
        },
        Stage::Joining => if ok {
            (Stage::Cloning, 0)
        } else {
            (Stage::Connecting, 0)
        },
        Stage::Cloning => if ok {
            (Stage::Listening, 0)
        } else {
            (Stage::Connecting, 3)
        },
        Stage::Listening => (Stage::Connecting, 0),
    }
}

/// A session goes back to connecting after any failure, and reaches
/// listening from connecting after exactly three successes, with no pause
/// between them.
pub proof fn lemma_session_cycle(stage: Stage)
    ensures
        next_stage(stage, false).0 == Stage::Connecting,
        next_stage(Stage::Connecting, true) == (Stage::Joining, 0u64),
        next_stage(Stage::Joining, true) == (Stage::Cloning, 0u64),
        next_stage(Stage::Cloning, true) == (Stage::Listening, 0u64),
{
}

/// Seconds to wait before the next heartbeat: 30 after one was sent, 10
/// after sending failed.
pub fn heartbeat_pause(sent: bool) -> (r: u64)
    ensures
        r == if sent {
            30u64
        } else {
            10u64
        },
{
    if sent {
        30
    } else {
        10
    }
}

} // verus!
