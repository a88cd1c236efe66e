use serialize_with_bson::convert::{
    is_canonical, is_resolvable, joined, patterns_for, resolve,
};
use serialize_with_bson::layout::{
    Kitchen, RFC1123Z, RFC3339Nano, StampMilli, CANONICAL, CANONICAL_TIME, CANONICAL_ZONE, DEFAULT,
    RFC1123, RFC3339, RFC822Z, RFC850,
};
use serialize_with_bson::{convert_time_zone, ZoneNotFound};

/// Converts by name and asks the engine for the text, stopping where the
/// engine does not know the zone.
fn convert(timestamp: i64, tz_name: &str, layout: &str) -> String {
    assert!(is_resolvable(tz_name));
    let zone = resolve(tz_name).expect("the zone is not found");
    let rendering = convert_time_zone(timestamp, &zone, layout);
    joined(rendering.time.Format(rendering.pattern), &rendering.time.Format(rendering.rest))
}

#[test]
fn tokyo_default_layout() {
    assert_eq!(
        convert(1571893634109, "Asia/Tokyo", DEFAULT),
        "2019-10-24 14:07:14.109 +0900 JST"
    );
    assert_eq!(convert(1690439186944, "Asia/Tokyo", ""), "2023-07-27 15:26:26.944 +0900 JST");
}

#[test]
fn default_layout_has_date_time_offset_and_abbreviation() {
    for millis in [1571893634109, 1571893634100, 1571893634000, 0, -1, 253402300799999] {
        let out = convert(millis, "Asia/Tokyo", DEFAULT);
        let parts: Vec<&str> = out.split(' ').collect();
        assert_eq!(parts.len(), 4);
        let date: Vec<&str> = parts[0].split('-').collect();
        assert_eq!(date.len(), 3);
        assert_eq!((date[1].len(), date[2].len()), (2, 2));
        assert!(date[0].len() >= 4);
        assert!(date.iter().all(|p| p.bytes().all(|b| b.is_ascii_digit())));
        assert_eq!(parts[1].len(), "15:04:05.000".len());
        assert_eq!(&parts[1][8..9], ".");
        assert_eq!(parts[2], "+0900");
        assert_eq!(parts[3], "JST");
    }
}

#[test]
fn default_layout_keeps_three_digits_of_the_fraction() {
    assert_eq!(
        convert(1571893634100, "Asia/Tokyo", DEFAULT),
        "2019-10-24 14:07:14.100 +0900 JST"
    );
    assert_eq!(
        convert(1571893634000, "Asia/Tokyo", DEFAULT),
        "2019-10-24 14:07:14.000 +0900 JST"
    );
}

#[test]
fn the_empty_layout_stands_for_the_canonical_pattern() {
    assert_eq!(CANONICAL, "2006-01-02 15:04:05.000 -0700 MST");
    assert_eq!(format!("{}{}", CANONICAL_TIME, CANONICAL_ZONE), CANONICAL);
    assert_eq!(patterns_for(DEFAULT), ("2006-01-02 15:04:05.000", " -0700 MST"));
    assert_eq!(patterns_for(CANONICAL), patterns_for(""));
    assert!(is_canonical("") && is_canonical(CANONICAL));
    assert!(!is_canonical(CANONICAL_TIME) && !is_canonical(" ") && !is_canonical(RFC3339));
    for millis in [1571893634109, 1571893634000, -1] {
        assert_eq!(
            convert(millis, "Europe/Berlin", DEFAULT),
            convert(millis, "Europe/Berlin", CANONICAL)
        );
    }
}

#[test]
fn every_other_layout_is_taken_as_it_is() {
    for layout in [Kitchen, RFC3339, "at noon", " ", "2006\u{5e74}01\u{6708}02\u{65e5}", "\u{e9}"] {
        assert_eq!(patterns_for(layout), (layout, ""));
    }
    let zone = resolve("Asia/Tokyo").unwrap();
    assert_eq!(convert_time_zone(0, &zone, Kitchen).pattern, "3:04PM");
    assert_eq!(convert_time_zone(0, &zone, Kitchen).rest, "");
    assert_eq!(convert_time_zone(0, &zone, DEFAULT).pattern, CANONICAL_TIME);
    assert_eq!(convert_time_zone(0, &zone, DEFAULT).rest, CANONICAL_ZONE);
}

#[test]
fn unknown_zone_is_reported_and_never_replaced() {
    assert_eq!(
        resolve("Nowhere/Fake").err(),
        Some(ZoneNotFound { tz_name: "Nowhere/Fake".to_string() })
    );
    assert_eq!(
        resolve("Atlantis/Deep").err(),
        Some(ZoneNotFound { tz_name: "Atlantis/Deep".to_string() })
    );
}

#[test]
fn malformed_zone_names_are_never_looked_up() {
    let names = [
        "../zoneinfo/Asia/Tokyo",
        "Asia/../Asia/Tokyo",
        "/usr/share/zoneinfo/Asia/Tokyo",
        "\\Asia",
        "a..",
        "..",
    ];
    for name in names {
        assert_eq!(resolve(name).err(), Some(ZoneNotFound { tz_name: name.to_string() }));
    }
}

#[test]
fn a_zone_answers_to_the_name_it_was_asked_for() {
    assert_eq!(resolve("Asia/Tokyo").unwrap().name(), "Asia/Tokyo");
    assert_eq!(
        resolve("America/Argentina/Buenos_Aires").unwrap().name(),
        "America/Argentina/Buenos_Aires"
    );
    assert_eq!(resolve("Etc/GMT+8").unwrap().name(), "Etc/GMT+8");
    assert_eq!(resolve("UTC").unwrap().name(), "UTC");
    assert_eq!(resolve("").unwrap().name(), "UTC");
}

#[test]
fn empty_zone_name_is_utc() {
    assert_eq!(convert(1571893634109, "", DEFAULT), "2019-10-24 05:07:14.109 +0000 UTC");
    assert_eq!(convert(1571893634109, "UTC", DEFAULT), "2019-10-24 05:07:14.109 +0000 UTC");
}

#[test]
fn named_layouts() {
    assert_eq!(
        convert(1571893634109, "America/New_York", RFC1123Z),
        "Thu, 24 Oct 2019 01:07:14 -0400"
    );
    assert_eq!(convert(1571893634109, "UTC", RFC3339), "2019-10-24T05:07:14Z");
    assert_eq!(
        convert(1571893634109, "Europe/Berlin", RFC850),
        "Thursday, 24-Oct-19 07:07:14 CEST"
    );
    assert_eq!(convert(1571893634109, "Asia/Kolkata", RFC822Z), "24 Oct 19 10:37 +0530");
    assert_eq!(
        convert(1257863412013, "Asia/Shanghai", RFC1123),
        "Tue, 10 Nov 2009 22:30:12 CST"
    );
    assert_eq!(convert(1257863412013, "Asia/Shanghai", Kitchen), "10:30PM");
    assert_eq!(
        convert(1257863412013, "Asia/Shanghai", RFC3339Nano),
        "2009-11-10T22:30:12.013+08:00"
    );
    assert_eq!(convert(1257863412013, "Asia/Shanghai", StampMilli), "Nov 10 22:30:12.013");
}

#[test]
fn layouts_beyond_ascii() {
    assert_eq!(
        convert(1571893634109, "Asia/Tokyo", "2006\u{5e74}01\u{6708}02\u{65e5}"),
        "2019\u{5e74}10\u{6708}24\u{65e5}"
    );
    assert_eq!(convert(1571893634109, "Asia/Tokyo", "\u{e9}t\u{e9}"), "\u{e9}t\u{e9}");
}

#[test]
fn a_layout_without_placeholders_is_copied() {
    assert_eq!(convert(1571893634109, "Asia/Tokyo", "at noon"), "at noon");
}

#[test]
fn instants_before_the_epoch() {
    assert_eq!(convert(-1, "UTC", DEFAULT), "1969-12-31 23:59:59.999 +0000 UTC");
    assert_eq!(convert(-1, "Asia/Tokyo", RFC1123), "Thu, 01 Jan 1970 08:59:59 JST");
}

#[test]
fn the_first_and_the_last_instant() {
    assert_eq!(
        convert(i64::MIN, "UTC", DEFAULT),
        "-292275055-05-16 16:47:04.192 +0000 UTC"
    );
    assert_eq!(
        convert(i64::MAX, "UTC", DEFAULT),
        "292278994-08-17 07:12:55.807 +0000 UTC"
    );
}

#[test]
fn conversion_is_repeatable() {
    let first = convert(1571984742668, "Asia/Tokyo", RFC3339Nano);
    let second = convert(1571984742668, "Asia/Tokyo", RFC3339Nano);
    assert_eq!(first, second);
    assert_eq!(first, "2019-10-25T15:25:42.668+09:00");
    let zone = resolve("Asia/Tokyo").unwrap();
    let one = convert_time_zone(1571984742668, &zone, DEFAULT);
    let other = convert_time_zone(1571984742668, &zone, DEFAULT);
    assert_eq!((one.pattern, one.rest), (other.pattern, other.rest));
    assert!(one.time.Equal(&other.time));
    assert_eq!(one.time.UnixMilli(), 1571984742668);
    assert_eq!(one.time.Location().String(), "Asia/Tokyo");
}

#[test]
fn one_zone_renders_many_instants() {
    let zone = resolve("Asia/Tokyo").unwrap();
    let first = convert_time_zone(1571893634109, &zone, DEFAULT);
    let second = convert_time_zone(1571985978429, &zone, Kitchen);
    assert_eq!(first.time.Format(first.pattern), "2019-10-24 14:07:14.109");
    assert_eq!(first.time.Format(first.rest), " +0900 JST");
    assert_eq!(second.time.Format(second.pattern), "3:46PM");
    assert_eq!(second.time.Format(second.rest), "");
}

#[test]
fn what_can_be_looked_up() {
    assert!(is_resolvable("Asia/Tokyo"));
    assert!(is_resolvable("Nowhere/Fake"));
    assert!(is_resolvable(""));
    assert!(!is_resolvable("Local"));
    assert!(is_resolvable("local"));
    assert!(is_resolvable("Locale"));
    assert!(is_resolvable("Loca"));
    assert!(!is_resolvable("Europe/Z\u{fc}rich"));
}

#[test]
fn two_texts_are_put_together() {
    assert_eq!(
        joined("2019-10-24 14:07:14.109".to_string(), " +0900 JST"),
        "2019-10-24 14:07:14.109 +0900 JST"
    );
    assert_eq!(joined("3:46PM".to_string(), ""), "3:46PM");
    assert_eq!(joined(String::new(), ""), "");
}
