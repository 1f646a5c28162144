use sanup::input::boolfield::BoolField;
use sanup::input::floatfield::FloatField;
use sanup::input::inputfieldtype::InputType;
use sanup::input::integerfield::IntegerField;
use sanup::input::stringfield::StringField;
use sanup::key::Key;

#[test]
fn bool_toggle_flips() {
    let mut b = BoolField::from_value(false);
    b.toggle();
    assert_eq!(b.value(), true);
    b.toggle();
    assert_eq!(b.value(), false);
}

#[test]
fn bool_display_text() {
    let b = BoolField::from_value(true);
    assert_eq!(b.to_string(), "true");
    let b = BoolField::from_value(false);
    assert_eq!(b.to_string(), "false");
}

#[test]
fn integer_digit_append_scenario() {
    // An integer cell starting at 0: appending '4' then '2' yields 42,
    // a minus sign yields -42, and dropping the last digit yields -4.
    let mut i = IntegerField::from_value(0);
    i.parse_input('4');
    i.parse_input('2');
    assert_eq!(i.value(), 42);
    i.parse_input('-');
    assert_eq!(i.value(), -42);
    i.remove_last();
    assert_eq!(i.value(), -4);
}

#[test]
fn integer_append_saturates_at_max() {
    let mut i = IntegerField::from_value(0);
    for _ in 0..30 {
        i.parse_input('9');
    }
    assert_eq!(i.value(), i64::MAX);
    i.parse_input('7');
    assert_eq!(i.value(), i64::MAX);
}

#[test]
fn integer_append_saturates_at_min() {
    // Appending digits to a negative value saturates the tens shift at the
    // lower bound before the digit is added back, so the value settles just
    // above the minimum and never underflows.
    let mut i = IntegerField::from_value(0);
    i.parse_input('5');
    i.parse_input('-');
    for _ in 0..30 {
        i.parse_input('9');
        assert!(i.value() >= i64::MIN);
    }
    assert_eq!(i.value(), i64::MIN + 9);
}

#[test]
fn integer_negate_of_min_saturates() {
    let mut i = IntegerField::from_value(i64::MIN);
    i.parse_input('-');
    assert_eq!(i.value(), i64::MAX);
}

#[test]
fn integer_increment_decrement() {
    let mut i = IntegerField::from_value(-1);
    i.on_key(Key::Char('k'));
    assert_eq!(i.value(), 0);
    i.on_key(Key::Char('j'));
    i.on_key(Key::Char('j'));
    assert_eq!(i.value(), -2);
    let mut m = IntegerField::from_value(i64::MAX);
    m.increment();
    assert_eq!(m.value(), i64::MAX);
    let mut n = IntegerField::from_value(i64::MIN);
    n.decrement();
    assert_eq!(n.value(), i64::MIN);
}

#[test]
fn integer_display_text() {
    assert_eq!(IntegerField::from_value(0).to_string(), "0");
    assert_eq!(IntegerField::from_value(-42).to_string(), "-42");
    assert_eq!(IntegerField::from_value(1024).to_string(), "1024");
    assert_eq!(
        IntegerField::from_value(i64::MIN).to_string(),
        "-9223372036854775808"
    );
    assert_eq!(
        IntegerField::from_value(i64::MAX).to_string(),
        "9223372036854775807"
    );
}

#[test]
fn integer_remove_last_truncates_toward_zero() {
    let mut i = IntegerField::from_value(-47);
    i.remove_last();
    assert_eq!(i.value(), -4);
    let mut j = IntegerField::from_value(7);
    j.remove_last();
    assert_eq!(j.value(), 0);
}

#[test]
fn string_accepts_printable_ascii_only() {
    let mut s = <StringField as InputType>::default();
    s.parse_input('h');
    s.parse_input('i');
    s.parse_input('\n');
    s.parse_input('\u{7f}');
    s.parse_input('é');
    s.parse_input(' ');
    assert_eq!(s.value(), "hi ");
}

#[test]
fn string_remove_last() {
    let mut s = StringField::from_text("ab");
    s.remove_last();
    assert_eq!(s.value(), "a");
    s.remove_last();
    assert_eq!(s.value(), "");
    s.remove_last();
    assert_eq!(s.value(), "");
}

#[test]
fn string_routes_keys() {
    let mut s = <StringField as InputType>::default();
    s.on_key(Key::Char('o'));
    s.on_key(Key::Char('k'));
    s.on_key(Key::Backspace);
    assert_eq!(s.value(), "o");
    s.on_key(Key::Esc);
    assert_eq!(s.value(), "o");
}

#[test]
fn float_builds_buffer_and_value() {
    let mut f = <FloatField as InputType>::default();
    f.parse_input('4');
    f.parse_input('.');
    f.parse_input('2');
    assert_eq!(f.to_string(), "4.2");
    assert_eq!(f.value(), "4.2");
}

#[test]
fn float_second_decimal_point_ignored() {
    let mut f = <FloatField as InputType>::default();
    f.parse_input('1');
    f.parse_input('.');
    f.parse_input('5');
    f.parse_input('.');
    f.parse_input('2');
    assert_eq!(f.to_string(), "1.52");
}

#[test]
fn float_minus_toggles_at_front() {
    let mut f = <FloatField as InputType>::default();
    f.parse_input('7');
    f.parse_input('-');
    assert_eq!(f.to_string(), "-7");
    f.parse_input('-');
    assert_eq!(f.to_string(), "7");
}

#[test]
fn float_parse_failure_keeps_last_good_value() {
    // A lone minus sign does not parse; the value text keeps the last
    // parsed buffer while the display shows what was typed.
    let mut f = <FloatField as InputType>::default();
    f.parse_input('3');
    f.parse_input('-');
    f.remove_last();
    // Buffer is now "-": not a number, so the prior value is retained.
    assert_eq!(f.to_string(), "-");
    assert_eq!(f.value(), "-3");
    // The retained value survives further failed parses.
    f.remove_last();
    assert_eq!(f.to_string(), "");
    assert_eq!(f.value(), "-3");
}

#[test]
fn float_remove_last_reopens_decimal_point() {
    let mut f = <FloatField as InputType>::default();
    f.parse_input('1');
    f.parse_input('.');
    f.on_key(Key::Backspace);
    f.parse_input('.');
    assert_eq!(f.to_string(), "1.");
}

#[test]
fn float_from_text_takes_shaped_text() {
    let f = FloatField::from_text("-12.5");
    assert_eq!(f.to_string(), "-12.5");
    assert_eq!(f.value(), "-12.5");
}

#[test]
fn float_from_text_rejects_other_text() {
    let f = FloatField::from_text("not a number");
    assert_eq!(f.to_string(), "");
    assert_eq!(f.value(), "0");
}

#[test]
fn float_step_keys_leave_buffer_unchanged() {
    let mut f = FloatField::from_text("2.5");
    f.on_key(Key::Char('k'));
    f.on_key(Key::Char('j'));
    assert_eq!(f.to_string(), "2.5");
}
