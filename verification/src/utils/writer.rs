//! The records written to the room's log, one line per event, and the line
//! printed to the console for a barrage.
use crate::utils::text::{decimal, push_decimal};
use crate::utils::bytes::{encode_gb18030, gb18030_bytes};
use crate::utils::time::{clock_stamp, date_shaped, get_date_time, time_shaped};
use std::collections::HashSet;
use vstd::prelude::*;
use vstd::string::StringExecFns;
use vstd::utf8::{encode_utf8, is_ascii_chars, is_ascii_chars_encode_utf8};

verus! {

broadcast use vstd::std_specs::hash::group_hash_axioms;

/// The log line for a popularity reading.
pub open spec fn popularity_line(date: Seq<char>, time: Seq<char>, popularity: u32) -> Seq<char> {
    "Popularity,"@ + date + ","@ + time + ","@ + decimal(popularity as nat) + "\r\n"@
}

/// The log line for a barrage `msg` sent by user `uid` named `uname`.
pub open spec fn barrage_line(
    date: Seq<char>,
    time: Seq<char>,
    uid: u64,
    uname: Seq<char>,
    msg: Seq<char>,
) -> Seq<char> {
    "Barrage,"@ + date + ","@ + time + ","@ + decimal(uid as nat) + ",\""@ + uname + "\",\""@ + msg
        + "\"\r\n"@
}

/// The log line for `num` gifts named `gift_name`, worth `total_coin` coins
/// of kind `coin_type`, sent by user `uid` named `uname`.
pub open spec fn gift_line(
    date: Seq<char>,
    time: Seq<char>,
    uid: u64,
    uname: Seq<char>,
    gift_name: Seq<char>,
    num: u64,
    coin_type: Seq<char>,
    total_coin: u64,
) -> Seq<char> {
    "Gift,"@ + date + ","@ + time + ","@ + decimal(uid as nat) + ",\""@ + uname + "\",\""@ + gift_name
        + "\","@ + decimal(num as nat) + ","@ + decimal(total_coin as nat) + ","@ + coin_type + "\r\n"@
}

/// Whether a gift paid in coins of kind `coin_type` is logged: every gift,
/// or with `no_silver` only those not paid in silver coins.
pub open spec fn gift_logged(coin_type: Seq<char>, no_silver: bool) -> bool {
    !no_silver || coin_type != "silver"@
}

/// The fields `fields` joined by commas.
pub open spec fn comma_joined(fields: Seq<Seq<char>>) -> Seq<char>
    decreases fields.len(),
{
    if fields.len() == 0 {
        Seq::empty()
    } else if fields.len() == 1 {
        fields[0]
    } else {
        comma_joined(fields.drop_last()) + seq![','] + fields.last()
    }
}

/// `text` between double quotes.
pub open spec fn quoted(text: Seq<char>) -> Seq<char> {
    seq!['"'] + text + seq!['"']
}

/// The tag that starts each kind of record.
proof fn lemma_tags()
    ensures
        "Popularity,"@ == seq!['P', 'o', 'p', 'u', 'l', 'a', 'r', 'i', 't', 'y'] + seq![','],
        "Barrage,"@ == seq!['B', 'a', 'r', 'r', 'a', 'g', 'e'] + seq![','],
        "Gift,"@ == seq!['G', 'i', 'f', 't'] + seq![','],
        ","@ == seq![','],
        ",\""@ == seq![','] + seq!['"'],
        "\",\""@ == seq!['"'] + seq![','] + seq!['"'],
        "\","@ == seq!['"'] + seq![','],
        "\"\r\n"@ == seq!['"'] + seq!['\r', '\n'],
        "\r\n"@ == seq!['\r', '\n'],
{
    reveal_strlit("Popularity,");
    reveal_strlit("Barrage,");
    reveal_strlit("Gift,");
    reveal_strlit(",");
    reveal_strlit(",\"");
    reveal_strlit("\",\"");
    reveal_strlit("\",");
    reveal_strlit("\"\r\n");
    reveal_strlit("\r\n");
    assert("Popularity,"@ =~= seq!['P', 'o', 'p', 'u', 'l', 'a', 'r', 'i', 't', 'y'] + seq![',']);
    assert("Barrage,"@ =~= seq!['B', 'a', 'r', 'r', 'a', 'g', 'e'] + seq![',']);
    assert("Gift,"@ =~= seq!['G', 'i', 'f', 't'] + seq![',']);
    assert(",\""@ =~= seq![','] + seq!['"']);
    assert("\",\""@ =~= seq!['"'] + seq![','] + seq!['"']);
    assert("\","@ =~= seq!['"'] + seq![',']);
    assert("\"\r\n"@ =~= seq!['"'] + seq!['\r', '\n']);
}

/// Each log line is one CSV record ended by CRLF, with its fields in the
/// documented order: `Popularity,date,time,value`;
/// `Barrage,date,time,uid,"uname","msg"`; and
/// `Gift,date,time,uid,"uname","gift",num,total_coin,coin_type`, numbers in
/// decimal.
pub proof fn lemma_record_fields(
    date: Seq<char>,
    time: Seq<char>,
    uid: u64,
    uname: Seq<char>,
    text: Seq<char>,
    num: u64,
    coin_type: Seq<char>,
    total_coin: u64,
    popularity: u32,
)
    ensures
        popularity_line(date, time, popularity) == comma_joined(
            seq![
                seq!['P', 'o', 'p', 'u', 'l', 'a', 'r', 'i', 't', 'y'],
                date,
                time,
                decimal(popularity as nat),
            ],
        ) + seq!['\r', '\n'],
        barrage_line(date, time, uid, uname, text) == comma_joined(
            seq![
                seq!['B', 'a', 'r', 'r', 'a', 'g', 'e'],
                date,
                time,
                decimal(uid as nat),
                quoted(uname),
                quoted(text),
            ],
        ) + seq!['\r', '\n'],
        gift_line(date, time, uid, uname, text, num, coin_type, total_coin) == comma_joined(
            seq![
                seq!['G', 'i', 'f', 't'],
                date,
                time,
                decimal(uid as nat),
                quoted(uname),
                quoted(text),
                decimal(num as nat),
                decimal(total_coin as nat),
                coin_type,
            ],
        ) + seq!['\r', '\n'],
{
    lemma_tags();
    reveal_with_fuel(comma_joined, 10);
    let p = seq![
        seq!['P', 'o', 'p', 'u', 'l', 'a', 'r', 'i', 't', 'y'],
        date,
        time,
        decimal(popularity as nat),
    ];
    assert(p.drop_last().drop_last().drop_last().drop_last() =~= Seq::<Seq<char>>::empty());
    assert(popularity_line(date, time, popularity) =~= comma_joined(p) + seq!['\r', '\n']);
    let b = seq![
        seq!['B', 'a', 'r', 'r', 'a', 'g', 'e'],
        date,
        time,
        decimal(uid as nat),
        quoted(uname),
        quoted(text),
    ];
    assert(barrage_line(date, time, uid, uname, text) =~= comma_joined(b) + seq!['\r', '\n']);
    let g = seq![
        seq!['G', 'i', 'f', 't'],
        date,
        time,
        decimal(uid as nat),
        quoted(uname),
        quoted(text),
        decimal(num as nat),
        decimal(total_coin as nat),
        coin_type,
    ];
    assert(gift_line(date, time, uid, uname, text, num, coin_type, total_coin) =~= comma_joined(g)
        + seq!['\r', '\n']);
}

/// Every gift is logged when `no_silver` is off; with it on, exactly the
/// gifts not paid in silver coins are.
pub proof fn lemma_gift_filter(coin_type: Seq<char>)
    ensures
        gift_logged(coin_type, false),
        gift_logged(coin_type, true) <==> coin_type != "silver"@,
        gift_logged("silver"@, false),
        !gift_logged("silver"@, true),
{
}

/// The width of a character on the console: one column for ASCII, two for
/// any other character.
pub open spec fn char_width(c: char) -> int {
    if (c as u32) < 128 {
        1
    } else {
        2
    }
}

/// The width of `s` on the console.
pub open spec fn visual_width(s: Seq<char>) -> int
    decreases s.len(),
{
    if s.len() == 0 {
        0
    } else {
        visual_width(s.drop_last()) + char_width(s.last())
    }
}

/// `num` raised by whole multiples of `inc` until it is positive: `num`
/// itself when positive, otherwise the value in `1..=inc` that leaves the
/// same remainder as `num` on division by `inc`.
pub open spec fn raised(num: int, inc: int) -> int {
    if num > 0 {
        num
    } else if num % inc == 0 {
        inc
    } else {
        num % inc
    }
}

/// The console line for a barrage: the time, the sender padded to 30
/// columns (at least one or two spaces), then the message.
pub open spec fn console_line(time: Seq<char>, uname: Seq<char>, msg: Seq<char>) -> Seq<char> {
    "["@ + time + "]      "@ + uname + Seq::new(raised(30 - visual_width(uname), 2) as nat, |i: int| ' ')
        + msg
}

/// The log line for a popularity reading above `threshold`; none for one at
/// or below it.
pub fn popularity_record(popularity: u32, threshold: u32, date: &str, time: &str) -> (r: Option<
    String,
>)
    ensures
        r is Some <==> popularity > threshold,
        r matches Some(line) ==> line@ == popularity_line(date@, time@, popularity),
{
    if popularity > threshold {
        let mut line = String::from_str("Popularity,");
        line.append(date);
        line.append(",");
        line.append(time);
        line.append(",");
        push_decimal(&mut line, popularity as u64);
        line.append("\r\n");
        Some(line)
    } else {
        None
    }
}

/// The log line for a barrage, unless its sender (taken as a 32-bit id) is
/// among `excludes`.
pub fn barrage_record(
    uid: u64,
    uname: &str,
    msg: &str,
    excludes: &HashSet<u32>,
    date: &str,
    time: &str,
) -> (r: Option<String>)
    ensures
        r is Some <==> !excludes@.contains(uid as u32),
        r matches Some(line) ==> line@ == barrage_line(date@, time@, uid, uname@, msg@),
{
    if !excludes.contains(&(uid as u32)) {
        let mut line = String::from_str("Barrage,");
        line.append(date);
        line.append(",");
        line.append(time);
        line.append(",");
        push_decimal(&mut line, uid);
        line.append(",\"");
        line.append(uname);
        line.append("\",\"");
        line.append(msg);
        line.append("\"\r\n");
        Some(line)
    } else {
        None
    }
}

/// The log line for a gift, unless `no_silver` is set and the gift is paid
/// in silver coins.
pub fn gift_record(
    uid: u64,
    uname: &str,
    gift_name: &str,
    num: u64,
    coin_type: &str,
    total_coin: u64,
    no_silver: bool,
    date: &str,
    time: &str,
) -> (r: Option<String>)
    ensures
        r is Some <==> gift_logged(coin_type@, no_silver),
        !no_silver ==> r is Some,
        no_silver ==> (r is Some <==> coin_type@ != "silver"@),
        r matches Some(line) ==> line@ == gift_line(
            date@,
            time@,
            uid,
            uname@,
            gift_name@,
            num,
            coin_type@,
            total_coin,
        ),
{
    if !no_silver || !crate::utils::json::str_eq(coin_type, "silver") {
        let mut line = String::from_str("Gift,");
        line.append(date);
        line.append(",");
        line.append(time);
        line.append(",");
        push_decimal(&mut line, uid);
        line.append(",\"");
        line.append(uname);
        line.append("\",\"");
        line.append(gift_name);
        line.append("\",");
        push_decimal(&mut line, num);
        line.append(",");
        push_decimal(&mut line, total_coin);
        line.append(",");
        line.append(coin_type);
        line.append("\r\n");
        Some(line)
    } else {
        None
    }
}

/// Each character takes at most as many columns as its UTF-8 encoding takes
/// bytes.
proof fn lemma_width_within_bytes(s: Seq<char>)
    ensures
        0 <= visual_width(s) <= encode_utf8(s).len(),
        visual_width(s) <= 2 * s.len(),
    decreases s.len(),
{
    if s.len() > 0 {
        lemma_width_within_bytes(s.drop_last());
        lemma_encode_split(s.drop_last(), s.last());
        assert(s.drop_last().push(s.last()) =~= s);
    }
}

/// The encoding of text with one more character ends with the encoding of
/// that character, which takes one byte for ASCII and at least two otherwise.
proof fn lemma_encode_split(s: Seq<char>, c: char)
    ensures
        encode_utf8(s.push(c)).len() == encode_utf8(s).len() + vstd::utf8::encode_scalar(
            c as u32,
        ).len(),
        vstd::utf8::encode_scalar(c as u32).len() >= char_width(c),
    decreases s.len(),
{
    let t = s.push(c);
    assert(encode_utf8(t) == vstd::utf8::encode_scalar(t[0] as u32) + encode_utf8(t.drop_first()));
    if s.len() > 0 {
        lemma_encode_split(s.drop_first(), c);
        assert(t.drop_first() =~= s.drop_first().push(c));
        assert(encode_utf8(s) == vstd::utf8::encode_scalar(s[0] as u32) + encode_utf8(
            s.drop_first(),
        ));
    } else {
        assert(t.drop_first() =~= Seq::<char>::empty());
        assert(encode_utf8(t.drop_first()) =~= Seq::<u8>::empty());
    }
}

/// The width of `s` on the console.
pub fn get_visual_width(s: &str) -> (r: isize)
    requires
        encode_utf8(s@).len() <= isize::MAX,
    ensures
        r == visual_width(s@),
{
    proof {
        lemma_width_within_bytes(s@);
    }
    let mut width: isize = 0;
    for c in it: s.chars()
        invariant
            it.seq() == s@,
            width == visual_width(s@.take(it.index() as int)),
            visual_width(s@) <= isize::MAX,
    {
        proof {
            let i = it.index() as int;
            assert(s@.take(i + 1).drop_last() =~= s@.take(i));
            lemma_width_prefix(s@, i + 1);
        }
        if (c as u32) < 128 {
            width = width + 1;
        } else {
            width = width + 2;
        }
    }
    assert(s@.take(s@.len() as int) =~= s@);
    width
}

/// A prefix is no wider than the whole.
proof fn lemma_width_prefix(s: Seq<char>, k: int)
    requires
        0 <= k <= s.len(),
    ensures
        0 <= visual_width(s.take(k)) <= visual_width(s),
    decreases s.len(),
{
    if k < s.len() {
        assert(s.drop_last().take(k) =~= s.take(k));
        lemma_width_prefix(s.drop_last(), k);
    } else {
        assert(s.take(k) =~= s);
    }
    lemma_width_within_bytes(s.take(k));
}

/// The width of two texts one after the other is the sum of their widths;
/// the empty text has no width.
pub proof fn lemma_visual_width_concat(a: Seq<char>, b: Seq<char>)
    ensures
        visual_width(a + b) == visual_width(a) + visual_width(b),
        visual_width(Seq::<char>::empty()) == 0,
    decreases b.len(),
{
    if b.len() == 0 {
        assert(a + b =~= a);
    } else {
        lemma_visual_width_concat(a, b.drop_last());
        assert((a + b).drop_last() =~= a + b.drop_last());
        assert((a + b).last() == b.last());
    }
}

/// The raised value is positive and differs from `num` by a multiple of
/// `inc`; a positive `num` stays as it is, and any other lands in `1..=inc`.
pub proof fn lemma_raised(num: int, inc: int)
    requires
        num > 0 || inc > 0,
    ensures
        raised(num, inc) > 0,
        num > 0 ==> raised(num, inc) == num,
        num <= 0 ==> raised(num, inc) <= inc,
        num <= 0 ==> (raised(num, inc) - num) % inc == 0,
{
    if num <= 0 {
        let q = num / inc;
        let r = num % inc;
        assert(num == q * inc + r && 0 <= r < inc) by (nonlinear_arith)
            requires
                inc > 0,
                q == num / inc,
                r == num % inc,
        ;
        if r == 0 {
            assert(inc - num == (1 - q) * inc) by (nonlinear_arith)
                requires
                    num == q * inc,
            ;
            vstd::arithmetic::div_mod::lemma_mod_multiples_basic(1 - q, inc);
        } else {
            assert(r - num == (0 - q) * inc) by (nonlinear_arith)
                requires
                    num == q * inc + r,
            ;
            vstd::arithmetic::div_mod::lemma_mod_multiples_basic(0 - q, inc);
        }
    }
}

/// ASCII text is as wide as it is long, and no text is narrower than its
/// length or wider than twice it.
pub proof fn lemma_width_bounds(s: Seq<char>)
    ensures
        s.len() <= visual_width(s) <= 2 * s.len(),
        is_ascii_chars(s) ==> visual_width(s) == s.len(),
    decreases s.len(),
{
    if s.len() > 0 {
        lemma_width_bounds(s.drop_last());
        if is_ascii_chars(s) {
            assert(is_ascii_chars(s.drop_last()));
            assert((s.last() as u32) < 128);
        }
    }
}

/// Raises `num` by steps of `inc` until it is positive.
pub fn inc_if_neg(num: isize, inc: usize) -> (r: usize)
    requires
        num > 0 || 0 < inc <= isize::MAX,
    ensures
        r == raised(num as int, inc as int),
{
    if num > 0 {
        return num as usize;
    }
    let ghost start = num as int;
    let ghost m = inc as int;
    let mut num = num;
    while num <= 0
        invariant
            m == inc,
            0 < m <= isize::MAX,
            (num as int) % m == start % m,
            num == start || num <= m,
            start <= 0,
            start <= num,
        decreases m - num,
    {
        proof {
            vstd::arithmetic::div_mod::lemma_mod_add_multiples_vanish(num as int, m);
        }
        num += inc as isize;
    }
    proof {
        if num != start {
            let v = num as int;
            if v < m {
                assert(v % m == v) by (nonlinear_arith)
                    requires
                        0 < v < m,
                ;
            } else {
                assert(v % m == 0) by (nonlinear_arith)
                    requires
                        v == m,
                        m > 0,
                ;
            }
        }
    }
    num as usize
}

/// `n` spaces.
fn spaces(n: usize) -> (r: String)
    ensures
        r@ == Seq::new(n as nat, |i: int| ' '),
{
    let mut s = String::new();
    let mut i: usize = 0;
    while i < n
        invariant
            i <= n,
            s@ == Seq::new(i as nat, |k: int| ' '),
        decreases n - i,
    {
        proof {
            reveal_strlit(" ");
        }
        s.append(" ");
        i = i + 1;
        assert(s@ =~= Seq::new(i as nat, |k: int| ' '));
    }
    s
}

/// The console line for a barrage.
pub fn barrage_console_line(time: &str, uname: &str, msg: &str) -> (r: String)
    requires
        encode_utf8(uname@).len() <= isize::MAX,
    ensures
        r@ == console_line(time@, uname@, msg@),
{
    proof {
        lemma_width_within_bytes(uname@);
    }
    let pad = inc_if_neg(30 - get_visual_width(uname), 2);
    let mut line = String::from_str("[");
    line.append(time);
    line.append("]      ");
    line.append(uname);
    let padding = spaces(pad);
    line.append(padding.as_str());
    line.append(msg);
    line
}

/// The characters of an optional text.
pub open spec fn opt_text(t: Option<String>) -> Option<Seq<char>> {
    match t {
        Some(s) => Some(s@),
        None => None,
    }
}

/// Two ASCII texts one after the other are ASCII.
proof fn lemma_ascii_concat(a: Seq<char>, b: Seq<char>)
    requires
        is_ascii_chars(a),
        is_ascii_chars(b),
    ensures
        is_ascii_chars(a + b),
{
    assert forall|i: int| 0 <= i < (a + b).len() implies '\0' <= #[trigger] (a + b)[i] <= '\u{7f}' by {
        if i < a.len() {
            assert((a + b)[i] == a[i]);
        } else {
            assert((a + b)[i] == b[i - a.len()]);
        }
    }
}

/// A date or time as `get_date_time` gives it is ASCII.
proof fn lemma_stamp_ascii(date: Seq<char>, time: Seq<char>)
    requires
        date_shaped(date),
        time_shaped(time),
    ensures
        is_ascii_chars(date),
        is_ascii_chars(time),
{
    assert forall|i: int| 0 <= i < time.len() implies '\0' <= #[trigger] time[i] <= '\u{7f}' by {
        assert(i == 0 || i == 1 || i == 2 || i == 3 || i == 4 || i == 5 || i == 6 || i == 7);
    }
}

/// A popularity line is ASCII and short.
proof fn lemma_popularity_line_ascii(date: Seq<char>, time: Seq<char>, popularity: u32)
    requires
        date_shaped(date),
        time_shaped(time),
    ensures
        is_ascii_chars(popularity_line(date, time, popularity)),
        popularity_line(date, time, popularity).len() <= 50,
{
    reveal_strlit("Popularity,");
    reveal_strlit(",");
    reveal_strlit("\r\n");
    lemma_stamp_ascii(date, time);
    crate::utils::text::lemma_decimal_ascii(popularity as nat);
    crate::utils::text::lemma_decimal_len_u32(popularity);
    let d = decimal(popularity as nat);
    lemma_ascii_concat("Popularity,"@, date);
    lemma_ascii_concat("Popularity,"@ + date, ","@);
    lemma_ascii_concat("Popularity,"@ + date + ","@, time);
    lemma_ascii_concat("Popularity,"@ + date + ","@ + time, ","@);
    lemma_ascii_concat("Popularity,"@ + date + ","@ + time + ","@, d);
    lemma_ascii_concat("Popularity,"@ + date + ","@ + time + ","@ + d, "\r\n"@);
}

/// The log line for a popularity reading above `threshold`, stamped with the
/// current date and time and encoded in GB18030 (the line is ASCII, so its
/// bytes are its characters); none for one at or below it.
pub fn popularity_entry(popularity: u32, threshold: u32) -> (r: Option<Vec<u8>>)
    ensures
        r is Some <==> popularity > threshold,
        r matches Some(bytes) ==> exists|date: Seq<char>, time: Seq<char>|
            clock_stamp(date, time) && date_shaped(date) && time_shaped(time) && #[trigger] gb18030_bytes(
                popularity_line(date, time, popularity),
            ) == bytes@ && encode_utf8(popularity_line(date, time, popularity)) == bytes@,
{
    if popularity > threshold {
        let (date, time) = get_date_time();
        let line = popularity_record(popularity, threshold, date.as_str(), time.as_str()).unwrap();
        proof {
            lemma_popularity_line_ascii(date@, time@, popularity);
            is_ascii_chars_encode_utf8(line@);
        }
        Some(encode_gb18030(line.as_str()))
    } else {
        None
    }
}

/// Lengths of the fixed parts of the barrage and gift lines.
proof fn lemma_line_parts()
    ensures
        "Barrage,"@.len() == 8,
        "Gift,"@.len() == 5,
        ","@.len() == 1,
        ",\""@.len() == 2,
        "\",\""@.len() == 3,
        "\","@.len() == 2,
        "\"\r\n"@.len() == 3,
        "\r\n"@.len() == 2,
{
    reveal_strlit("Barrage,");
    reveal_strlit("Gift,");
    reveal_strlit(",");
    reveal_strlit(",\"");
    reveal_strlit("\",\"");
    reveal_strlit("\",");
    reveal_strlit("\"\r\n");
    reveal_strlit("\r\n");
}

/// The log line for a barrage stamped with the current date and time and
/// encoded in GB18030, and unless `no_print` the console line for it with the
/// same time; none when the sender (taken as a 32-bit id) is among
/// `excludes`. The texts must leave the encoder's buffer arithmetic in range.
pub fn barrage_entry(uid: u64, uname: &str, msg: &str, excludes: &HashSet<u32>, no_print: bool) -> (r:
    Option<(Vec<u8>, Option<String>)>)
    requires
        4 * (uname@.len() + msg@.len()) + 400 <= usize::MAX / 8,
    ensures
        r is Some <==> !excludes@.contains(uid as u32),
        r matches Some((bytes, console)) ==> exists|date: Seq<char>, time: Seq<char>|
            clock_stamp(date, time) && date_shaped(date) && time_shaped(time) && #[trigger] gb18030_bytes(
                barrage_line(date, time, uid, uname@, msg@),
            ) == bytes@ && opt_text(console) == if no_print {
                None::<Seq<char>>
            } else {
                Some(console_line(time, uname@, msg@))
            },
{
    if excludes.contains(&(uid as u32)) {
        return None;
    }
    let (date, time) = get_date_time();
    let line = barrage_record(uid, uname, msg, excludes, date.as_str(), time.as_str()).unwrap();
    proof {
        lemma_line_parts();
        crate::utils::text::lemma_decimal_len_u64(uid);
        crate::utils::bytes::lemma_utf8_len_bound(uname@);
        crate::utils::bytes::lemma_utf8_len_bound(line@);
    }
    let console = if no_print {
        None
    } else {
        Some(barrage_console_line(time.as_str(), uname, msg))
    };
    Some((encode_gb18030(line.as_str()), console))
}

/// The log line for a gift stamped with the current date and time and
/// encoded in GB18030; none when `no_silver` is set and the gift is paid in
/// silver coins. The texts must leave the encoder's buffer arithmetic in
/// range.
pub fn gift_entry(
    uid: u64,
    uname: &str,
    gift_name: &str,
    num: u64,
    coin_type: &str,
    total_coin: u64,
    no_silver: bool,
) -> (r: Option<Vec<u8>>)
    requires
        4 * (uname@.len() + gift_name@.len() + coin_type@.len()) + 800 <= usize::MAX / 8,
    ensures
        r is Some <==> gift_logged(coin_type@, no_silver),
        !no_silver ==> r is Some,
        no_silver ==> (r is Some <==> coin_type@ != "silver"@),
        r matches Some(bytes) ==> exists|date: Seq<char>, time: Seq<char>|
            clock_stamp(date, time) && date_shaped(date) && time_shaped(time) && #[trigger] gb18030_bytes(
                gift_line(date, time, uid, uname@, gift_name@, num, coin_type@, total_coin),
            ) == bytes@,
{
    if !no_silver || !crate::utils::json::str_eq(coin_type, "silver") {
        let (date, time) = get_date_time();
        let line = gift_record(
            uid,
            uname,
            gift_name,
            num,
            coin_type,
            total_coin,
            no_silver,
            date.as_str(),
            time.as_str(),
        ).unwrap();
        proof {
            lemma_line_parts();
            crate::utils::text::lemma_decimal_len_u64(uid);
            crate::utils::text::lemma_decimal_len_u64(num);
            crate::utils::text::lemma_decimal_len_u64(total_coin);
            crate::utils::bytes::lemma_utf8_len_bound(line@);
        }
        Some(encode_gb18030(line.as_str()))
    } else {
        None
    }
}

} // verus!
