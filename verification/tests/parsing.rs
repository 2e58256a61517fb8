use pixel_mapper::{MapperParseError, NamedPixelMapperType};

#[test]
fn mirror_h_parses_horizontal() {
    assert_eq!(
        NamedPixelMapperType::from_str("Mirror:H"),
        Ok(NamedPixelMapperType::Mirror(true))
    );
    assert_eq!(
        NamedPixelMapperType::from_str("Mirror:h"),
        Ok(NamedPixelMapperType::Mirror(true))
    );
}

#[test]
fn mirror_v_parses_vertical() {
    assert_eq!(
        NamedPixelMapperType::from_str("Mirror:V"),
        Ok(NamedPixelMapperType::Mirror(false))
    );
    assert_eq!(
        NamedPixelMapperType::from_str("Mirror:v"),
        Ok(NamedPixelMapperType::Mirror(false))
    );
}

#[test]
fn mirror_other_param_is_error() {
    assert_eq!(
        NamedPixelMapperType::from_str("Mirror:x"),
        Err(MapperParseError::InvalidMirrorParam(String::from("x")))
    );
    assert_eq!(
        NamedPixelMapperType::from_str("Mirror:"),
        Err(MapperParseError::InvalidMirrorParam(String::from("")))
    );
    assert_eq!(
        NamedPixelMapperType::from_str("Mirror:HH"),
        Err(MapperParseError::InvalidMirrorParam(String::from("HH")))
    );
}

#[test]
fn rotate_90_parses() {
    assert_eq!(
        NamedPixelMapperType::from_str("Rotate:90"),
        Ok(NamedPixelMapperType::Rotate(90))
    );
}

#[test]
fn rotate_0_parses() {
    assert_eq!(
        NamedPixelMapperType::from_str("Rotate:0"),
        Ok(NamedPixelMapperType::Rotate(0))
    );
}

#[test]
fn rotate_450_wraps_to_90() {
    // 450 is a multiple of 90, so the angle is accepted and normalized by
    // (450 + 360) % 360 == 90.
    assert_eq!(
        NamedPixelMapperType::from_str("Rotate:450"),
        Ok(NamedPixelMapperType::Rotate(90))
    );
}

#[test]
fn rotate_not_multiple_of_90_is_error() {
    assert_eq!(
        NamedPixelMapperType::from_str("Rotate:45"),
        Err(MapperParseError::NotMultipleOf90(45))
    );
    assert_eq!(
        NamedPixelMapperType::from_str("Rotate:91"),
        Err(MapperParseError::NotMultipleOf90(91))
    );
}

#[test]
fn rotate_non_numeric_is_error() {
    assert_eq!(
        NamedPixelMapperType::from_str("Rotate:abc"),
        Err(MapperParseError::InvalidAngle)
    );
    assert_eq!(
        NamedPixelMapperType::from_str("Rotate:"),
        Err(MapperParseError::InvalidAngle)
    );
    assert_eq!(
        NamedPixelMapperType::from_str("Rotate:-90"),
        Err(MapperParseError::InvalidAngle)
    );
    // An overlong run of digits does not fit a usize.
    assert_eq!(
        NamedPixelMapperType::from_str("Rotate:99999999999999999999999999"),
        Err(MapperParseError::InvalidAngle)
    );
}

#[test]
fn rotate_accepts_leading_plus() {
    // Integer parsing accepts one leading plus sign.
    assert_eq!(
        NamedPixelMapperType::from_str("Rotate:+90"),
        Ok(NamedPixelMapperType::Rotate(90))
    );
    assert_eq!(
        NamedPixelMapperType::from_str("Rotate:++90"),
        Err(MapperParseError::InvalidAngle)
    );
    assert_eq!(
        NamedPixelMapperType::from_str("Rotate:+"),
        Err(MapperParseError::InvalidAngle)
    );
}

#[test]
fn u_mapper_parses() {
    assert_eq!(
        NamedPixelMapperType::from_str("U-mapper"),
        Ok(NamedPixelMapperType::UMapper)
    );
}

#[test]
fn u_mapper_spelled_differently_is_error() {
    assert_eq!(
        NamedPixelMapperType::from_str("u-mapper"),
        Err(MapperParseError::InvalidMapping(String::from("u-mapper")))
    );
    assert_eq!(
        NamedPixelMapperType::from_str("U-Mapper"),
        Err(MapperParseError::InvalidMapping(String::from("U-Mapper")))
    );
}

#[test]
fn bogus_token_is_error() {
    assert_eq!(
        NamedPixelMapperType::from_str("bogus"),
        Err(MapperParseError::InvalidMapping(String::from("bogus")))
    );
    assert_eq!(
        NamedPixelMapperType::from_str(""),
        Err(MapperParseError::InvalidMapping(String::from("")))
    );
}

#[test]
fn unknown_command_error_names_the_command() {
    assert_eq!(
        NamedPixelMapperType::from_str("Spin:90"),
        Err(MapperParseError::InvalidMapping(String::from("Spin")))
    );
}

#[test]
fn mirror_param_is_everything_after_first_colon() {
    assert_eq!(
        NamedPixelMapperType::from_str("Mirror:H:x"),
        Err(MapperParseError::InvalidMirrorParam(String::from("H:x")))
    );
}

#[test]
fn messages_describe_the_offending_token() {
    let e = NamedPixelMapperType::from_str("Mirror:x").unwrap_err();
    assert_eq!(
        e.message().as_str(),
        "'x' is not valid. Mirror parameter should be either 'V' or 'H'"
    );
    let e = NamedPixelMapperType::from_str("Rotate:abc").unwrap_err();
    assert_eq!(e.message().as_str(), "Rotation angle is missing or invalid");
    let e = NamedPixelMapperType::from_str("Rotate:45").unwrap_err();
    assert_eq!(
        e.message().as_str(),
        "'45' is not valid. Rotation needs to be a multiple of 90 degrees"
    );
    let e = NamedPixelMapperType::from_str("bogus").unwrap_err();
    assert_eq!(e.message().as_str(), "'bogus' is not a valid Pixel mapping.");
}
