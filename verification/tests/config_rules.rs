use ray_tracing::arithmetic::Arithmetic;
use ray_tracing::config::default_width;
use ray_tracing::config::height_of_alias;
use ray_tracing::config::parse_height;
use ray_tracing::config::parse_number;
use ray_tracing::config::parse_positive;
use ray_tracing::config::positive_int;
use ray_tracing::config::positive_int_or_alias;
use ray_tracing::config::same_text;
use ray_tracing::config::Config;
use ray_tracing::config::NumberError;
use ray_tracing::config::NINE_BITS;
use ray_tracing::config::SIXTEEN_BITS;
use ray_tracing::scalar::Scalar;
use ray_tracing::vec3::Accepted;
use ray_tracing::vec3::Vec3;
use std::cell::RefCell;

fn s(x: f64) -> Scalar {
    Scalar::from_bits(x.to_bits())
}

fn f(x: Scalar) -> f64 {
    f64::from_bits(x.to_bits())
}

fn v(x: f64, y: f64, z: f64) -> Vec3 {
    Vec3::new(s(x), s(y), s(z))
}

fn a(p: &Vec3) -> [f64; 3] {
    [f(p.x()), f(p.y()), f(p.z())]
}

/// Binary64 arithmetic as the processor does it. Its random numbers are
/// taken in turn from a list, and are one half when the list is used up.
struct Machine {
    draws: RefCell<Vec<f64>>,
}

impl Machine {
    fn new() -> Machine {
        Machine { draws: RefCell::new(Vec::new()) }
    }

    fn drawing(draws: &[f64]) -> Machine {
        let mut list = draws.to_vec();
        list.reverse();
        Machine { draws: RefCell::new(list) }
    }
}

impl Arithmetic for Machine {
    fn sum(&self, a: Scalar, b: Scalar) -> Scalar {
        s(f(a) + f(b))
    }

    fn difference(&self, a: Scalar, b: Scalar) -> Scalar {
        s(f(a) - f(b))
    }

    fn product(&self, a: Scalar, b: Scalar) -> Scalar {
        s(f(a) * f(b))
    }

    fn quotient(&self, a: Scalar, b: Scalar) -> Scalar {
        s(f(a) / f(b))
    }

    fn square(&self, a: Scalar) -> Scalar {
        s(f(a).powi(2))
    }

    fn square_root(&self, a: Scalar) -> Scalar {
        s(f(a).sqrt())
    }

    fn cosine(&self, a: Scalar) -> Scalar {
        s(f(a).cos())
    }

    fn sine(&self, a: Scalar) -> Scalar {
        s(f(a).sin())
    }

    fn number(&self, n: usize) -> Scalar {
        s(n as f64)
    }

    fn random(&self) -> Scalar {
        s(self.draws.borrow_mut().pop().unwrap_or(0.5))
    }

    fn random_in_unit_sphere(&self) -> Accepted<Self> {
        loop {
            if let Some(p) = Vec3::accepted_attempt(self) {
                return p;
            }
        }
    }
}

fn std_message(text: &str) -> String {
    text.parse::<usize>().unwrap_err().to_string()
}

#[test]
fn positive_int_accepts_positive_numbers() {
    assert_eq!(positive_int(String::from("1")), Ok(()));
    assert_eq!(positive_int(String::from("100")), Ok(()));
    assert_eq!(positive_int(String::from("+7")), Ok(()));
    assert_eq!(positive_int(String::from("007")), Ok(()));
    assert_eq!(positive_int(usize::MAX.to_string()), Ok(()));
}

#[test]
fn positive_int_refuses_zero() {
    assert_eq!(positive_int(String::from("0")), Err(String::from("Expected non zero value")));
    assert_eq!(positive_int(String::from("000")), Err(String::from("Expected non zero value")));
    assert_eq!(positive_int(String::from("+0")), Err(String::from("Expected non zero value")));
}

#[test]
fn positive_int_refuses_what_is_no_number() {
    for text in ["", "abc", "-5", "1.5", " 1", "1 ", "1_000", "+", "-", "++1", "0x10", "１２"] {
        assert_eq!(positive_int(String::from(text)), Err(std_message(text)), "{:?}", text);
    }
}

#[test]
fn positive_int_refuses_what_does_not_fit() {
    let text = "99999999999999999999999999999999";
    assert_eq!(positive_int(String::from(text)), Err(std_message(text)));
    let text = "18446744073709551616";
    assert_eq!(text.parse::<usize>().is_ok(), positive_int(String::from(text)).is_ok());
    let text = "99999999999999999999999999999999x";
    assert_eq!(positive_int(String::from(text)), Err(std_message(text)));
    let text = "x99999999999999999999999999999999";
    assert_eq!(positive_int(String::from(text)), Err(std_message(text)));
}

#[test]
fn parse_number_agrees_with_the_standard_parser() {
    let max = usize::MAX.to_string();
    let over = format!("{}0", usize::MAX);
    for text in [
        "0", "1", "9", "10", "720", "+42", "0000000000000000000000000000001", max.as_str(),
        over.as_str(), "", "+", "-", "-1", "+-1", "a", "12a", "1 2", "٣",
    ] {
        assert_eq!(parse_number(text).ok(), text.parse::<usize>().ok(), "{:?}", text);
    }
}

#[test]
fn parse_number_names_the_fault() {
    assert_eq!(parse_number(""), Err(NumberError::Empty));
    assert_eq!(parse_number("+"), Err(NumberError::InvalidDigit));
    assert_eq!(parse_number("12x"), Err(NumberError::InvalidDigit));
    assert_eq!(parse_number("340282366920938463463374607431768211456"), Err(NumberError::TooLarge));
    assert_eq!(parse_number("42"), Ok(42));
}

#[test]
fn number_errors_speak_as_the_standard_parser_does() {
    assert_eq!(NumberError::Empty.message(), std_message(""));
    assert_eq!(NumberError::InvalidDigit.message(), std_message("x"));
    assert_eq!(NumberError::TooLarge.message(), std_message("340282366920938463463374607431768211456"));
    assert_eq!(NumberError::Empty.message(), "cannot parse integer from empty string");
    assert_eq!(NumberError::InvalidDigit.message(), "invalid digit found in string");
    assert_eq!(NumberError::TooLarge.message(), "number too large to fit in target type");
}

#[test]
fn aliases_are_accepted_in_any_case() {
    for text in ["HD", "hd", "Hd", "FULLHD", "fullhd", "FullHd", "FULL_HD", "full_hd", "4K", "4k"] {
        assert_eq!(positive_int_or_alias(String::from(text)), Ok(()), "{:?}", text);
    }
}

#[test]
fn positive_int_or_alias_accepts_numbers_too() {
    assert_eq!(positive_int_or_alias(String::from("480")), Ok(()));
    assert_eq!(positive_int_or_alias(String::from("0")), Err(String::from("Expected non zero value")));
    assert_eq!(positive_int_or_alias(String::from("8K")), Err(std_message("8K")));
    assert_eq!(positive_int_or_alias(String::from("")), Err(std_message("")));
    assert_eq!(positive_int_or_alias(String::from("H D")), Err(std_message("H D")));
}

#[test]
fn aliases_stand_for_heights() {
    assert_eq!(height_of_alias("HD"), Some(720));
    assert_eq!(height_of_alias("FULLHD"), Some(1080));
    assert_eq!(height_of_alias("FULL_HD"), Some(1080));
    assert_eq!(height_of_alias("4K"), Some(2160));
    assert_eq!(height_of_alias("hd"), None);
    assert_eq!(height_of_alias("720"), None);
    assert_eq!(height_of_alias(""), None);
}

#[test]
fn heights_are_read_from_names_and_numbers() {
    assert_eq!(parse_height("hd"), Some(720));
    assert_eq!(parse_height("FullHD"), Some(1080));
    assert_eq!(parse_height("full_hd"), Some(1080));
    assert_eq!(parse_height("4k"), Some(2160));
    assert_eq!(parse_height("333"), Some(333));
    assert_eq!(parse_height("0"), None);
    assert_eq!(parse_height("tall"), None);
}

#[test]
fn positive_numbers_are_read() {
    assert_eq!(parse_positive("50"), Some(50));
    assert_eq!(parse_positive("0"), None);
    assert_eq!(parse_positive("-50"), None);
    assert_eq!(parse_positive(""), None);
}

#[test]
fn same_text_compares_characters() {
    assert!(same_text("HD", "HD"));
    assert!(!same_text("HD", "Hd"));
    assert!(!same_text("HD", "HDR"));
    assert!(same_text("", ""));
    assert!(same_text("größe", "größe"));
}

#[test]
fn default_width_is_sixteen_to_nine() {
    let m = Machine::new();
    assert_eq!(default_width(720, &m), 1280);
    assert_eq!(default_width(1080, &m), 1920);
    assert_eq!(default_width(2160, &m), 3840);
    assert_eq!(default_width(9, &m), 16);
    assert_eq!(default_width(1, &m), 1);
    assert_eq!(default_width(0, &m), 0);
    assert_eq!(default_width(100, &m), 177);
    assert_eq!(SIXTEEN_BITS, 16.0f64.to_bits());
    assert_eq!(NINE_BITS, 9.0f64.to_bits());
}

#[test]
fn default_width_is_the_quotient_of_machine_numbers() {
    let m = Machine::new();
    let mut heights = vec![1usize, 2, 3, 7, 100, 479, 480, 719, 1000, 4321, 65_535, 1_000_003, 123_456_789];
    heights.extend([4_294_967_295usize, usize::MAX / 16 * 9 + 9, usize::MAX / 2, usize::MAX - 1, usize::MAX]);
    for height in heights {
        assert_eq!(default_width(height, &m), (height as f64 * 16.0 / 9.0) as usize, "{}", height);
    }
}

#[test]
fn default_width_of_a_height_that_is_no_machine_number() {
    if usize::MAX as u128 > 9007199254740993 {
        let height = 9007199254740993u64 as usize;
        assert_eq!(default_width(height, &Machine::new()) as u64, 16012798675095096);
    }
}

#[test]
fn default_width_saturates() {
    assert_eq!(default_width(usize::MAX, &Machine::new()), usize::MAX);
}

#[test]
fn settings_default_where_nothing_is_asked() {
    let config = Config::from_values(None, None, None, None, None, &Machine::new()).unwrap();
    assert_eq!(
        config,
        Config {
            img_width: 1280,
            img_height: 720,
            samples_per_pixel: 100,
            max_ray_depth: 50,
            output_file: String::from("img.png"),
        }
    );
}

#[test]
fn settings_follow_the_texts() {
    let config =
        Config::from_values(Some("4k"), Some("100"), Some("8"), Some("3"), Some("out.png"), &Machine::new()).unwrap();
    assert_eq!(config.img_width, 100);
    assert_eq!(config.img_height, 2160);
    assert_eq!(config.samples_per_pixel, 8);
    assert_eq!(config.max_ray_depth, 3);
    assert_eq!(config.output_file, "out.png");
}

#[test]
fn width_follows_the_height_where_none_is_asked() {
    let config = Config::from_values(Some("FullHD"), None, Some("1"), Some("1"), None, &Machine::new()).unwrap();
    assert_eq!(config.img_height, 1080);
    assert_eq!(config.img_width, 1920);
    let config = Config::from_values(Some("90"), None, None, None, None, &Machine::new()).unwrap();
    assert_eq!(config.img_height, 90);
    assert_eq!(config.img_width, 160);
}

#[test]
fn settings_are_refused_where_a_text_is_no_positive_number() {
    assert_eq!(Config::from_values(Some("0"), None, None, None, None, &Machine::new()), None);
    assert_eq!(Config::from_values(Some("tall"), None, None, None, None, &Machine::new()), None);
    assert_eq!(Config::from_values(None, Some("HD"), None, None, None, &Machine::new()), None);
    assert_eq!(Config::from_values(None, Some("0"), None, None, None, &Machine::new()), None);
    assert_eq!(Config::from_values(None, None, Some("0"), None, None, &Machine::new()), None);
    assert_eq!(Config::from_values(None, None, Some("many"), None, None, &Machine::new()), None);
    assert_eq!(Config::from_values(None, None, None, Some("0"), None, &Machine::new()), None);
    assert_eq!(Config::from_values(None, None, None, Some("-1"), None, &Machine::new()), None);
}
