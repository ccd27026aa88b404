use elk_led_controller::{parse_days, Days};

#[test]
fn day_masks() {
    let d = Days::standard();
    assert_eq!(d.monday, 0x01);
    assert_eq!(d.sunday, 0x40);
    assert_eq!(d.all, 0x7f);
    assert_eq!(d.week_days, 0x1f);
    assert_eq!(d.weekend_days, 0x60);
    assert_eq!(d.none, 0);
}

#[test]
fn parse_single_names() {
    assert_eq!(parse_days("mon"), 0x01);
    assert_eq!(parse_days("Tuesday"), 0x02);
    assert_eq!(parse_days("WED"), 0x04);
    assert_eq!(parse_days("thursday"), 0x08);
    assert_eq!(parse_days("fri"), 0x10);
    assert_eq!(parse_days("sat"), 0x20);
    assert_eq!(parse_days("sunday"), 0x40);
    assert_eq!(parse_days("all"), 0x7f);
    assert_eq!(parse_days("weekdays"), 0x1f);
    assert_eq!(parse_days("Weekend"), 0x60);
}

#[test]
fn parse_lists() {
    assert_eq!(parse_days("mon,wed,fri"), 0x15);
    assert_eq!(parse_days("SAT,sun"), 0x60);
    assert_eq!(parse_days("weekend,mon"), 0x61);
    assert_eq!(parse_days("mon,mon"), 0x01);
}

#[test]
fn parse_unknown_words_count_as_no_day() {
    assert_eq!(parse_days("xyz"), 0);
    assert_eq!(parse_days(""), 0);
    assert_eq!(parse_days("mon,xyz"), 0x01);
    assert_eq!(parse_days(",,"), 0);
}
