use lumactl::brightness::{calculate_new_brightness, BrightnessSpec, Mode, ParseError, Unit};

#[test]
fn relative_percentage_increase() {
    let spec = BrightnessSpec::parse("+10%").unwrap();
    assert_eq!(spec.mode, Mode::RelativeIncrease(10));
    assert_eq!(spec.unit, Unit::Percentage);
    assert_eq!(spec.apply(50, 200), 70);
}

#[test]
fn relative_decrease_floors_at_zero() {
    let spec = BrightnessSpec::parse("-5").unwrap();
    assert_eq!(spec.apply(3, 100), 0);
}

#[test]
fn absolute_value_clamped_to_max() {
    let spec = BrightnessSpec::parse("150").unwrap();
    assert_eq!(spec.mode, Mode::Absolute(150));
    assert_eq!(spec.apply(30, 100), 100);
}

#[test]
fn empty_and_sign_only_are_refused() {
    assert_eq!(BrightnessSpec::parse(""), Err(ParseError::Empty));
    assert_eq!(BrightnessSpec::parse("+"), Err(ParseError::MissingValue));
    assert_eq!(BrightnessSpec::parse("-"), Err(ParseError::MissingValue));
    assert_eq!(BrightnessSpec::parse("   "), Err(ParseError::Empty));
}

#[test]
fn non_numeric_is_refused() {
    assert_eq!(BrightnessSpec::parse("abc"), Err(ParseError::InvalidValue));
    assert_eq!(BrightnessSpec::parse("256"), Err(ParseError::InvalidValue));
    assert_eq!(BrightnessSpec::parse("%"), Err(ParseError::InvalidValue));
    assert_eq!(BrightnessSpec::parse("+-5"), Err(ParseError::InvalidValue));
    assert_eq!(BrightnessSpec::parse("1 0"), Err(ParseError::InvalidValue));
}

#[test]
fn absolute_change_twice_gives_same_value() {
    let spec = BrightnessSpec::parse("42").unwrap();
    let first = spec.apply(200, 255);
    let second = spec.apply(first, 255);
    assert_eq!(first, 42);
    assert_eq!(second, first);
}

#[test]
fn surrounding_white_space_is_removed() {
    let spec = BrightnessSpec::parse("  +10% \n").unwrap();
    assert_eq!(spec.mode, Mode::RelativeIncrease(10));
    assert_eq!(spec.unit, Unit::Percentage);
    assert_eq!(BrightnessSpec::parse_trimmed(" 5"), Err(ParseError::InvalidValue));
}

#[test]
fn second_sign_is_refused() {
    assert_eq!(BrightnessSpec::parse("++5"), Err(ParseError::InvalidValue));
    assert_eq!(BrightnessSpec::parse("-+5"), Err(ParseError::InvalidValue));
    assert_eq!(BrightnessSpec::parse("+-5"), Err(ParseError::InvalidValue));
}

#[test]
fn unicode_white_space_is_removed() {
    let spec = BrightnessSpec::parse("\u{3000}42\u{a0}\u{2009}").unwrap();
    assert_eq!(spec.mode, Mode::Absolute(42));
    assert_eq!(spec.unit, Unit::Raw);
}

#[test]
fn percentage_rounds_down() {
    // 33% of 255 is 84.15
    let spec = BrightnessSpec::parse("33%").unwrap();
    assert_eq!(spec.apply(0, 255), 84);
    // 200% of 200 is 400, held at the maximum
    let spec = BrightnessSpec::parse("200%").unwrap();
    assert_eq!(spec.apply(10, 200), 200);
}

#[test]
fn increase_saturates_at_max() {
    let spec = BrightnessSpec::parse("+255").unwrap();
    assert_eq!(spec.apply(250, 255), 255);
    assert_eq!(spec.apply(10, 100), 100);
}

#[test]
fn decrease_by_percentage() {
    let spec = BrightnessSpec::parse("-50%").unwrap();
    assert_eq!(spec.apply(80, 100), 30);
    assert_eq!(spec.apply(20, 100), 0);
}

#[test]
fn calculate_from_reading() {
    assert_eq!(calculate_new_brightness((50, 200), "+10%"), Ok(70));
    assert_eq!(calculate_new_brightness((3, 100), "-5"), Ok(0));
    assert_eq!(calculate_new_brightness((3, 100), "150"), Ok(100));
    assert_eq!(calculate_new_brightness((3, 100), " 007 "), Ok(7));
    assert_eq!(calculate_new_brightness((3, 100), ""), Err(ParseError::Empty));
    assert_eq!(calculate_new_brightness((3, 100), "x%"), Err(ParseError::InvalidValue));
}

#[test]
fn parse_error_messages() {
    assert_eq!(ParseError::Empty.message(), "brightness cannot be empty");
    assert_eq!(ParseError::InvalidValue.message(), "invalid brightness value");
    assert_eq!(ParseError::MissingValue.message(), "invalid brightness value");
}
