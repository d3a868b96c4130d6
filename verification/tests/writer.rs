use biliver::utils::writer::{
    barrage_entry, gift_entry, popularity_entry,
    barrage_console_line, barrage_record, get_visual_width, gift_record, inc_if_neg,
    popularity_record,
};
use biliver::utils::text::push_decimal;
use std::collections::HashSet;

#[test]
fn popularity_record_above_threshold() {
    let line = popularity_record(8486, 10, "2020-03-19", "14:08:04");
    assert_eq!(line.as_deref(), Some("Popularity,2020-03-19,14:08:04,8486\r\n"));
}

#[test]
fn popularity_record_at_or_below_threshold() {
    assert!(popularity_record(10, 10, "2020-03-19", "14:08:04").is_none());
    assert!(popularity_record(0, 10, "d", "t").is_none());
}

#[test]
fn barrage_record_format() {
    let excludes = HashSet::new();
    let line = barrage_record(
        10269709,
        "一个B站用户",
        "妈妈问我为什么跪着看直播",
        &excludes,
        "2020-03-19",
        "14:08:44",
    );
    assert_eq!(
        line.as_deref(),
        Some("Barrage,2020-03-19,14:08:44,10269709,\"一个B站用户\",\"妈妈问我为什么跪着看直播\"\r\n")
    );
}

#[test]
fn barrage_record_excluded_user() {
    let mut excludes = HashSet::new();
    excludes.insert(42u32);
    assert!(barrage_record(42, "a", "b", &excludes, "d", "t").is_none());
    // ids are compared on their lower 32 bits
    assert!(barrage_record(42 + (1u64 << 32), "a", "b", &excludes, "d", "t").is_none());
    assert!(barrage_record(43, "a", "b", &excludes, "d", "t").is_some());
}

#[test]
fn gift_record_format() {
    let line = gift_record(
        378088413, "一个B站用户", "摩天大楼", 1, "gold", 360000, true, "2020-03-19", "14:49:25",
    );
    assert_eq!(
        line.as_deref(),
        Some("Gift,2020-03-19,14:49:25,378088413,\"一个B站用户\",\"摩天大楼\",1,360000,gold\r\n")
    );
}

#[test]
fn gift_record_silver_filter() {
    assert!(gift_record(1, "u", "辣条", 3, "silver", 300, true, "d", "t").is_none());
    let line = gift_record(1, "u", "辣条", 3, "silver", 300, false, "d", "t");
    assert_eq!(line.as_deref(), Some("Gift,d,t,1,\"u\",\"辣条\",3,300,silver\r\n"));
}

#[test]
fn visual_width_counts_wide_chars_twice() {
    assert_eq!(get_visual_width(""), 0);
    assert_eq!(get_visual_width("abc"), 3);
    assert_eq!(get_visual_width("一个B站"), 7);
}

#[test]
fn inc_if_neg_values() {
    assert_eq!(inc_if_neg(7, 2), 7);
    assert_eq!(inc_if_neg(0, 2), 2);
    assert_eq!(inc_if_neg(-5, 2), 1);
    assert_eq!(inc_if_neg(-4, 2), 2);
    assert_eq!(inc_if_neg(-10, 3), 2);
}

#[test]
fn console_line_pads_name_to_thirty_columns() {
    let line = barrage_console_line("14:08:44", "abc", "hi");
    assert_eq!(line, format!("[14:08:44]      abc{}hi", " ".repeat(27)));
    let wide = barrage_console_line("t", "一个B站", "m");
    assert_eq!(wide, format!("[t]      一个B站{}m", " ".repeat(23)));
}

#[test]
fn console_line_long_name_gets_minimal_padding() {
    let name = "x".repeat(30);
    assert_eq!(barrage_console_line("t", &name, "m"), format!("[t]      {}  m", name));
    let name = "x".repeat(31);
    assert_eq!(barrage_console_line("t", &name, "m"), format!("[t]      {} m", name));
}

#[test]
fn decimal_of_extremes() {
    let mut s = String::from("n=");
    push_decimal(&mut s, 0);
    assert_eq!(s, "n=0");
    let mut s = String::new();
    push_decimal(&mut s, u64::MAX);
    assert_eq!(s, "18446744073709551615");
}

#[test]
fn stamped_entries_follow_the_filters() {
    assert!(popularity_entry(5, 10).is_none());
    let line = String::from_utf8(popularity_entry(11, 10).unwrap()).unwrap();
    assert!(line.starts_with("Popularity,"));
    assert!(line.ends_with(",11\r\n"));
    assert_eq!(line.len(), "Popularity,2020-03-19,14:08:04,11\r\n".len());

    let mut excludes = HashSet::new();
    excludes.insert(7u32);
    assert!(barrage_entry(7, "u", "m", &excludes, false).is_none());
    let (bytes, console) = barrage_entry(8, "u", "m", &excludes, false).unwrap();
    let line = String::from_utf8(bytes).unwrap();
    assert!(line.starts_with("Barrage,"));
    assert!(line.ends_with(",8,\"u\",\"m\"\r\n"));
    let console = console.unwrap();
    assert!(console.starts_with('['));
    assert!(console.ends_with(&format!("]      u{}m", " ".repeat(29))));
    let (_, console) = barrage_entry(8, "u", "m", &excludes, true).unwrap();
    assert!(console.is_none());

    assert!(gift_entry(1, "u", "g", 2, "silver", 3, true).is_none());
    let line = String::from_utf8(gift_entry(1, "u", "g", 2, "gold", 3, true).unwrap()).unwrap();
    assert!(line.starts_with("Gift,"));
    assert!(line.ends_with(",1,\"u\",\"g\",2,3,gold\r\n"));
}

#[test]
fn log_lines_are_encoded_in_gb18030() {
    let excludes = HashSet::new();
    let (bytes, _) = barrage_entry(1, "弹幕", "m", &excludes, true).unwrap();
    // 弹 is B5 AF and 幕 is C4 BB in GB18030, where UTF-8 would take six bytes.
    let tail: &[u8] = &[b',', b'1', b',', b'"', 0xB5, 0xAF, 0xC4, 0xBB, b'"', b',', b'"', b'm', b'"', b'\r', b'\n'];
    assert!(bytes.ends_with(tail));
}

#[test]
fn visual_width_adds_up() {
    let a = "一个";
    let b = "B站user";
    let joined = format!("{}{}", a, b);
    assert_eq!(get_visual_width(&joined), get_visual_width(a) + get_visual_width(b));
}

#[test]
fn inc_if_neg_positive_number_any_step() {
    assert_eq!(inc_if_neg(5, 0), 5);
    assert_eq!(inc_if_neg(5, usize::MAX), 5);
}

#[test]
fn date_and_time_shapes() {
    let (date, time) = biliver::utils::time::get_date_time();
    assert_eq!(date.len(), 10);
    assert_eq!(&date[4..5], "-");
    assert_eq!(time.len(), 8);
    assert_eq!(&time[2..3], ":");
}
