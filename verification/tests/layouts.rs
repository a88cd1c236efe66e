use serialize_with_bson::layout;

#[test]
fn default_is_the_empty_pattern() {
    assert_eq!(layout::DEFAULT, "");
}

#[test]
fn named_patterns_are_those_of_the_engine() {
    assert_eq!(layout::Layout, "01/02 03:04:05PM '06 -0700");
    assert_eq!(layout::ANSIC, "Mon Jan _2 15:04:05 2006");
    assert_eq!(layout::UnixDate, "Mon Jan _2 15:04:05 MST 2006");
    assert_eq!(layout::RubyDate, "Mon Jan 02 15:04:05 -0700 2006");
    assert_eq!(layout::RFC822, "02 Jan 06 15:04 MST");
    assert_eq!(layout::RFC822Z, "02 Jan 06 15:04 -0700");
    assert_eq!(layout::RFC850, "Monday, 02-Jan-06 15:04:05 MST");
    assert_eq!(layout::RFC1123, "Mon, 02 Jan 2006 15:04:05 MST");
    assert_eq!(layout::RFC1123Z, "Mon, 02 Jan 2006 15:04:05 -0700");
    assert_eq!(layout::RFC3339, "2006-01-02T15:04:05Z07:00");
    assert_eq!(layout::RFC3339Nano, "2006-01-02T15:04:05.999999999Z07:00");
    assert_eq!(layout::Kitchen, "3:04PM");
    assert_eq!(layout::Stamp, "Jan _2 15:04:05");
    assert_eq!(layout::StampMilli, "Jan _2 15:04:05.000");
    assert_eq!(layout::StampMicro, "Jan _2 15:04:05.000000");
    assert_eq!(layout::StampNano, "Jan _2 15:04:05.000000000");
    assert_eq!(layout::RFC1123, gostd_time::RFC1123);
}
