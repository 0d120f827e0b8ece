use light_arrangements_python::coordinate::Coordinate;
use light_arrangements_python::errors::BridgeError;
use light_arrangements_python::init::{ColorOrder, Dimension};
use light_arrangements_python::text::{append_decimal, two_number_text};
use light_arrangements_python::types::Color;
use light_arrangements_python::util::{checked_color, vec_to_array, vec_to_color};

fn domain(reason: &str) -> BridgeError {
    BridgeError::DomainError(String::from(reason))
}

#[test]
fn decimal_of_small_and_large_numbers() {
    for (number, expected) in [
        (0usize, "0"),
        (7, "7"),
        (9, "9"),
        (10, "10"),
        (99, "99"),
        (100, "100"),
        (1234567890, "1234567890"),
    ] {
        let mut text = String::new();
        append_decimal(&mut text, number);
        assert_eq!(text, expected);
    }
    let mut text = String::from("max ");
    append_decimal(&mut text, usize::MAX);
    assert_eq!(text, format!("max {}", usize::MAX));
}

#[test]
fn two_numbers_between_three_texts() {
    assert_eq!(two_number_text("a", 12, "b", 0, "c"), "a12b0c");
    assert_eq!(two_number_text("", 5, "", 6, ""), "56");
}

#[test]
fn vec_to_array_keeps_the_components_in_order() {
    let array: [f64; 3] = vec_to_array(vec![1.5, -2.0, 3.25]).unwrap();
    assert_eq!(array, [1.5, -2.0, 3.25]);
    let single: [f64; 1] = vec_to_array(vec![4.0]).unwrap();
    assert_eq!(single, [4.0]);
    let none: [u8; 0] = vec_to_array(Vec::new()).unwrap();
    assert_eq!(none, []);
}

#[test]
fn vec_to_array_refuses_another_length() {
    let longer: Result<[f64; 2], BridgeError> = vec_to_array(vec![1.0, 2.0, 3.0]);
    assert_eq!(longer, Err(domain("Expected input of dimension 2 but was 3")));
    let shorter: Result<[f64; 4], BridgeError> = vec_to_array(vec![1.0]);
    assert_eq!(shorter, Err(domain("Expected input of dimension 4 but was 1")));
    let empty: Result<[f64; 1], BridgeError> = vec_to_array(Vec::new());
    assert_eq!(empty, Err(domain("Expected input of dimension 1 but was 0")));
}

#[test]
fn cartesian_checks_the_dimension() {
    let point = Coordinate::<f64, 2>::cartesian(vec![0.5, 1.5]).unwrap();
    assert_eq!(point.coords, [0.5, 1.5]);
    assert_eq!(point.dimension(), 2);
    assert_eq!(
        Coordinate::<f64, 2>::cartesian(vec![0.5]),
        Err(domain("Expected input of dimension 2 but was 1"))
    );
    assert_eq!(
        Coordinate::<f64, 3>::cartesian(vec![0.0; 12]),
        Err(domain("Expected input of dimension 3 but was 12"))
    );
}

#[test]
fn vec_to_color_takes_the_first_three_channels() {
    assert_eq!(vec_to_color(&vec![10, 20, 30]), Color { red: 10, green: 20, blue: 30 });
    assert_eq!(vec_to_color(&vec![1, 2, 3, 4, 5]), Color { red: 1, green: 2, blue: 3 });
    assert_eq!(Color { red: 255, green: 0, blue: 7 }.to_tuple(), (255, 0, 7));
}

#[test]
fn checked_color_refuses_a_short_list() {
    assert_eq!(checked_color(&vec![9, 8, 7]), Ok(Color { red: 9, green: 8, blue: 7 }));
    assert_eq!(checked_color(&vec![9, 8, 7, 6]), Ok(Color { red: 9, green: 8, blue: 7 }));
    assert_eq!(checked_color(&vec![9, 8]), Err(domain("Expected a color of 3 channels but was 2")));
    assert_eq!(checked_color(&Vec::new()), Err(domain("Expected a color of 3 channels but was 0")));
}

#[test]
fn dimensions_one_to_four() {
    assert_eq!(Dimension::from_number(1), Ok(Dimension::One));
    assert_eq!(Dimension::from_number(2), Ok(Dimension::Two));
    assert_eq!(Dimension::from_number(3), Ok(Dimension::Three));
    assert_eq!(Dimension::from_number(4), Ok(Dimension::Four));
    for dimension in [Dimension::One, Dimension::Two, Dimension::Three, Dimension::Four] {
        assert_eq!(Dimension::from_number(dimension.number()), Ok(dimension));
    }
    assert_eq!(
        Dimension::from_number(0),
        Err(domain("Dimension number could not be matched; no branch to handle dimension 0"))
    );
    assert_eq!(
        Dimension::from_number(5),
        Err(domain("Dimension number could not be matched; no branch to handle dimension 5"))
    );
}

#[test]
fn color_orders_by_name() {
    assert_eq!(ColorOrder::parse("rgb"), Ok(ColorOrder::Rgb));
    assert_eq!(ColorOrder::parse("rbg"), Ok(ColorOrder::Rbg));
    assert_eq!(ColorOrder::parse("grb"), Ok(ColorOrder::Grb));
    assert_eq!(ColorOrder::parse("gbr"), Ok(ColorOrder::Gbr));
    assert_eq!(ColorOrder::parse("brg"), Ok(ColorOrder::Brg));
    assert_eq!(ColorOrder::parse("bgr"), Ok(ColorOrder::Bgr));
}

#[test]
fn color_order_refuses_other_names() {
    assert_eq!(
        ColorOrder::parse("RGB"),
        Err(domain(
            "Format string \"RGB\" doesn't correspond to a color order; should be\na 3 character string, like \"rgb\" or \"brg\""
        ))
    );
    assert!(matches!(ColorOrder::parse(""), Err(BridgeError::DomainError(_))));
    assert!(matches!(ColorOrder::parse("rgbw"), Err(BridgeError::DomainError(_))));
    assert!(matches!(ColorOrder::parse("rrr"), Err(BridgeError::DomainError(_))));
}

#[test]
fn reasons_of_errors() {
    assert_eq!(BridgeError::ChannelUnreachable.reason(), "Unable to send request");
    assert_eq!(BridgeError::ChannelSilence(String::from("silent")).reason(), "silent");
    assert_eq!(domain("bad index").reason(), "bad index");
    assert_eq!(BridgeError::InitializationFailure(String::from("no file")).reason(), "no file");
}
