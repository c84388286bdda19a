//! Render settings and the rules by which their textual form is accepted.

use crate::arithmetic::is_number;
use crate::arithmetic::is_product;
use crate::arithmetic::is_quotient;
use crate::arithmetic::Arithmetic;
use crate::scalar::Scalar;
use vstd::prelude::*;
use vstd::string::*;

verus! {

/// The settings of one render.
#[derive(Debug, Clone, PartialEq)]
pub struct Config {
    pub img_width: usize,
    pub img_height: usize,
    pub samples_per_pixel: usize,
    pub max_ray_depth: usize,
    pub output_file: String,
}

/// Why a text is no unsigned decimal number.
#[derive(Debug, Clone, Copy, PartialEq, Eq, Structural)]
pub enum NumberError {
    /// The text is empty.
    Empty,
    /// A character that is no decimal digit, or a sign with nothing behind it.
    InvalidDigit,
    /// The digits denote a number above `usize::MAX`.
    TooLarge,
}

/// Whether a character is a decimal digit.
pub open spec fn is_digit(c: char) -> bool {
    '0' <= c <= '9'
}

/// The number that a decimal digit denotes.
pub open spec fn digit_value(c: char) -> nat {
    (c as u32 - '0' as u32) as nat
}

/// The number that a string of decimal digits denotes.
pub open spec fn decimal_value(s: Seq<char>) -> nat
    decreases s.len(),
{
    if s.len() == 0 {
        0
    } else {
        10 * decimal_value(s.drop_last()) + digit_value(s.last())
    }
}

/// How many decimal digits the text starts with.
pub open spec fn leading_digits(s: Seq<char>) -> nat
    decreases s.len(),
{
    if s.len() == 0 || !is_digit(s[0]) {
        0
    } else {
        1 + leading_digits(s.drop_first())
    }
}

/// The text behind one optional plus sign.
pub open spec fn unsigned_part(s: Seq<char>) -> Seq<char> {
    if s.len() > 0 && s[0] == '+' {
        s.drop_first()
    } else {
        s
    }
}

/// What a text denotes as an unsigned decimal number: an optional `+`, then
/// one or more digits and nothing else. Of two faults the one further left
/// is reported.
pub open spec fn parsed_number(s: Seq<char>) -> Result<nat, NumberError> {
    let digits = unsigned_part(s);
    let run = digits.take(leading_digits(digits) as int);
    if s.len() == 0 {
        Err(NumberError::Empty)
    } else if digits.len() == 0 {
        Err(NumberError::InvalidDigit)
    } else if decimal_value(run) > usize::MAX {
        Err(NumberError::TooLarge)
    } else if run.len() < digits.len() {
        Err(NumberError::InvalidDigit)
    } else {
        Ok(decimal_value(run))
    }
}

/// The run of leading digits is as long as it can be.
pub proof fn lemma_leading_digits(s: Seq<char>)
    ensures
        leading_digits(s) <= s.len(),
        forall|j: int| 0 <= j < leading_digits(s) ==> is_digit(#[trigger] s[j]),
        leading_digits(s) < s.len() ==> !is_digit(s[leading_digits(s) as int]),
    decreases s.len(),
{
    if s.len() == 0 || !is_digit(s[0]) {
    } else {
        let t = s.drop_first();
        lemma_leading_digits(t);
        assert forall|j: int| 0 <= j < leading_digits(s) implies is_digit(#[trigger] s[j]) by {
            if j > 0 {
                assert(s[j] == t[j - 1]);
            }
        }
        if leading_digits(s) < s.len() {
            assert(s[leading_digits(s) as int] == t[leading_digits(t) as int]);
        }
    }
}

/// A longer prefix denotes no smaller number.
pub proof fn lemma_decimal_value_grows(s: Seq<char>, i: int, j: int)
    requires
        0 <= i <= j <= s.len(),
    ensures
        decimal_value(s.take(i)) <= decimal_value(s.take(j)),
    decreases j - i,
{
    if i < j {
        lemma_decimal_value_grows(s, i, j - 1);
        assert(s.take(j).drop_last() == s.take(j - 1));
    }
}

/// Reads an unsigned decimal number: an optional `+`, then digits only.
pub fn parse_number(s: &str) -> (r: Result<usize, NumberError>)
    ensures
        r matches Ok(v) ==> parsed_number(s@) == Ok::<nat, NumberError>(v as nat),
        r matches Err(e) ==> parsed_number(s@) == Err::<nat, NumberError>(e),
{
    let n: usize = s.unicode_len();
    if n == 0 {
        return Err(NumberError::Empty);
    }
    let start: usize = if s.get_char(0) == '+' { 1 } else { 0 };
    let ghost digits = unsigned_part(s@);
    if start == n {
        return Err(NumberError::InvalidDigit);
    }
    let mut value: usize = 0;
    let mut i: usize = start;
    proof {
        lemma_leading_digits(digits);
        assert(digits.take(0) == Seq::<char>::empty());
    }
    while i < n
        invariant
            n == s@.len(),
            start <= i <= n,
            start <= 1,
            digits == unsigned_part(s@),
            digits.len() == n - start,
            forall|j: int| 0 <= j < digits.len() ==> digits[j] == s@[j + start],
            forall|j: int| 0 <= j < i - start ==> is_digit(#[trigger] digits[j]),
            value == decimal_value(digits.take(i - start)),
        decreases n - i,
    {
        let c: char = s.get_char(i);
        let ghost k = i - start;
        proof {
            lemma_leading_digits(digits);
            assert(digits[k] == c);
        }
        if !(c >= '0' && c <= '9') {
            proof {
                assert(leading_digits(digits) == k);
            }
            return Err(NumberError::InvalidDigit);
        }
        let d: usize = (c as u32 - '0' as u32) as usize;
        proof {
            assert(digits.take(k + 1).drop_last() == digits.take(k));
            assert(decimal_value(digits.take(k + 1)) == 10 * value + d);
        }
        if value > (usize::MAX - d) / 10 {
            proof {
                assert(leading_digits(digits) >= k + 1);
                lemma_decimal_value_grows(digits, k + 1, leading_digits(digits) as int);
            }
            return Err(NumberError::TooLarge);
        }
        value = value * 10 + d;
        i = i + 1;
    }
    proof {
        lemma_leading_digits(digits);
        assert(leading_digits(digits) == digits.len());
        assert(digits.take(digits.len() as int) == digits);
    }
    Ok(value)
}

/// The sentence that tells a user why a text is no number.
pub open spec fn failure_text(e: NumberError) -> Seq<char> {
    match e {
        NumberError::Empty => "cannot parse integer from empty string"@,
        NumberError::InvalidDigit => "invalid digit found in string"@,
        NumberError::TooLarge => "number too large to fit in target type"@,
    }
}

impl NumberError {
    /// The sentence that tells a user why a text is no number.
    pub fn message(&self) -> (r: String)
        ensures
            r@ == failure_text(*self),
    {
        match self {
            NumberError::Empty => String::from_str("cannot parse integer from empty string"),
            NumberError::InvalidDigit => String::from_str("invalid digit found in string"),
            NumberError::TooLarge => String::from_str("number too large to fit in target type"),
        }
    }
}

/// The positive number that a text denotes, if it denotes one.
pub open spec fn positive_of(s: Seq<char>) -> Option<usize> {
    match parsed_number(s) {
        Ok(v) => if v != 0 {
            Some(v as usize)
        } else {
            None
        },
        Err(_) => None,
    }
}

/// The verdict on a text that should be a positive number: nothing to
/// object, or the objection in words.
pub open spec fn positive_verdict(s: Seq<char>) -> Result<(), Seq<char>> {
    match parsed_number(s) {
        Ok(v) => if v != 0 {
            Ok(())
        } else {
            Err("Expected non zero value"@)
        },
        Err(e) => Err(failure_text(e)),
    }
}

/// Accepts the texts that denote a positive number.
pub fn positive_int(s: String) -> (r: Result<(), String>)
    ensures
        r is Ok <==> positive_of(s@) is Some,
        r is Ok ==> positive_verdict(s@) is Ok,
        r matches Err(m) ==> positive_verdict(s@) == Err::<(), Seq<char>>(m@),
{
    match parse_number(s.as_str()) {
        Ok(v) => {
            if v != 0 {
                Ok(())
            } else {
                Err(String::from_str("Expected non zero value"))
            }
        },
        Err(e) => Err(e.message()),
    }
}

/// The text in upper case, as `str::to_uppercase` gives it.
pub uninterp spec fn uppercase_of(s: Seq<char>) -> Seq<char>;

/// `str::to_uppercase` of std: the result is a function of the text alone,
/// and is known here only by its name.
#[verifier::external_body]
fn to_uppercase(s: &str) -> (r: String)
    ensures
        r@ == uppercase_of(s@),
{
    s.to_uppercase()
}

/// Whether two texts hold the same characters.
pub fn same_text(a: &str, b: &str) -> (r: bool)
    ensures
        r == (a@ == b@),
{
    let n: usize = a.unicode_len();
    if n != b.unicode_len() {
        return false;
    }
    let mut i: usize = 0;
    while i < n
        invariant
            n == a@.len(),
            n == b@.len(),
            i <= n,
            forall|j: int| 0 <= j < i ==> a@[j] == b@[j],
        decreases n - i,
    {
        if a.get_char(i) != b.get_char(i) {
            return false;
        }
        i = i + 1;
    }
    assert(a@ =~= b@);
    true
}

/// The image height that a name in upper case stands for.
pub open spec fn alias_height(upper: Seq<char>) -> Option<usize> {
    if upper == "HD"@ {
        Some(720usize)
    } else if upper == "FULLHD"@ || upper == "FULL_HD"@ {
        Some(1080usize)
    } else if upper == "4K"@ {
        Some(2160usize)
    } else {
        None
    }
}

/// The image height that a name stands for, the name given in upper case:
/// 720 for `HD`, 1080 for `FULLHD` and `FULL_HD`, 2160 for `4K`.
pub fn height_of_alias(upper: &str) -> (r: Option<usize>)
    ensures
        r == alias_height(upper@),
{
    if same_text(upper, "HD") {
        Some(720)
    } else if same_text(upper, "FULLHD") || same_text(upper, "FULL_HD") {
        Some(1080)
    } else if same_text(upper, "4K") {
        Some(2160)
    } else {
        None
    }
}

/// The image height that a text asks for: a name, in any case of letters, or
/// a positive number.
pub open spec fn height_of(s: Seq<char>) -> Option<usize> {
    match alias_height(uppercase_of(s)) {
        Some(h) => Some(h),
        None => positive_of(s),
    }
}

/// Accepts the names of image heights, in any case of letters, and the texts
/// that denote a positive number.
pub fn positive_int_or_alias(s: String) -> (r: Result<(), String>)
    ensures
        r is Ok <==> height_of(s@) is Some,
        r matches Err(m) ==> positive_verdict(s@) == Err::<(), Seq<char>>(m@),
{
    let upper = to_uppercase(s.as_str());
    match height_of_alias(upper.as_str()) {
        Some(_) => Ok(()),
        None => positive_int(s),
    }
}

/// Reads an image height: a name, in any case of letters, or a positive
/// number.
pub fn parse_height(s: &str) -> (r: Option<usize>)
    ensures
        r == height_of(s@),
{
    let upper = to_uppercase(s);
    match height_of_alias(upper.as_str()) {
        Some(h) => Some(h),
        None => parse_positive(s),
    }
}

/// Reads a positive number.
pub fn parse_positive(s: &str) -> (r: Option<usize>)
    ensures
        r == positive_of(s@),
{
    match parse_number(s) {
        Ok(v) => if v != 0 {
            Some(v)
        } else {
            None
        },
        Err(_) => None,
    }
}

/// The pattern of the number sixteen.
pub const SIXTEEN_BITS: u64 = 0x4030_0000_0000_0000;

/// The pattern of the number nine.
pub const NINE_BITS: u64 = 0x4022_0000_0000_0000;

/// Whether `r` may be the width of a picture of the given height in the
/// proportion 16 to 9: the height as a number, times sixteen, over nine,
/// cut down to a count.
pub open spec fn is_wide_screen_width<A: Arithmetic>(arith: &A, height: usize, r: usize) -> bool {
    exists|tall: Scalar, wide: Scalar, width: Scalar|
        #![trigger is_product(arith, tall, Scalar { bits: SIXTEEN_BITS }, wide), is_quotient(arith, wide, Scalar { bits: NINE_BITS }, width)]
        is_number(arith, height, tall) && is_product(
            arith,
            tall,
            Scalar { bits: SIXTEEN_BITS },
            wide,
        ) && is_quotient(arith, wide, Scalar { bits: NINE_BITS }, width) && r == width.truncated()
}

/// The width that a picture gets when none is asked for: sixteen ninths of
/// its height, what is behind the point dropped.
pub fn default_width<A: Arithmetic>(height: usize, arith: &A) -> (r: usize)
    ensures
        is_wide_screen_width(arith, height, r),
{
    let tall = arith.number(height);
    let wide = arith.product(tall, Scalar::from_bits(SIXTEEN_BITS));
    let width = arith.quotient(wide, Scalar::from_bits(NINE_BITS));
    proof {
        assert(is_product(arith, tall, Scalar { bits: SIXTEEN_BITS }, wide));
        assert(is_quotient(arith, wide, Scalar { bits: NINE_BITS }, width));
    }
    width.to_usize()
}

/// The settings that the given texts ask for, each text optional: the width
/// where one is asked for, the height, the samples for each pixel and the
/// collisions allowed to a ray.
pub open spec fn settings_of(
    height: Option<Seq<char>>,
    width: Option<Seq<char>>,
    samples: Option<Seq<char>>,
    depth: Option<Seq<char>>,
) -> Option<(Option<usize>, usize, usize, usize)> {
    let h = match height {
        Some(t) => height_of(t),
        None => Some(720usize),
    };
    let w = match width {
        Some(t) => match positive_of(t) {
            Some(w) => Some(Some(w)),
            None => None,
        },
        None => Some(None::<usize>),
    };
    let s = match samples {
        Some(t) => positive_of(t),
        None => Some(100usize),
    };
    let d = match depth {
        Some(t) => positive_of(t),
        None => Some(50usize),
    };
    if h is Some && w is Some && s is Some && d is Some {
        Some((w->0, h->0, s->0, d->0))
    } else {
        None
    }
}

/// The view of an optional text.
pub open spec fn text_view(t: Option<&str>) -> Option<Seq<char>> {
    match t {
        Some(t) => Some(t@),
        None => None,
    }
}

impl Config {
    /// Whether `r` may be the proportion of the picture: its width over its
    /// height.
    pub open spec fn is_aspect_ratio<A: Arithmetic>(arith: &A, config: Config, r: Scalar) -> bool {
        exists|width: Scalar, height: Scalar| #[trigger]
            is_number(arith, config.img_width, width) && #[trigger] is_number(
                arith,
                config.img_height,
                height,
            ) && is_quotient(arith, width, height, r)
    }

    /// The proportion of the picture: its width over its height.
    pub fn aspect_ratio<A: Arithmetic>(&self, arith: &A) -> (r: Scalar)
        ensures
            Config::is_aspect_ratio(arith, *self, r),
    {
        let width = arith.number(self.img_width);
        let height = arith.number(self.img_height);
        proof {
            assert(is_number(arith, self.img_width, width));
            assert(is_number(arith, self.img_height, height));
        }
        arith.quotient(width, height)
    }

    /// The settings that the given texts ask for. A missing height is `HD`,
    /// a missing width follows from the height in the proportion 16 to 9,
    /// missing samples are 100, a missing depth is 50, and a missing file
    /// name is `img.png`. There are none where a text is neither a positive
    /// number nor, for the height, a name.
    pub fn from_values<A: Arithmetic>(
        height: Option<&str>,
        width: Option<&str>,
        samples: Option<&str>,
        depth: Option<&str>,
        output: Option<&str>,
        arith: &A,
    ) -> (r: Option<Config>)
        ensures
            match settings_of(
                text_view(height),
                text_view(width),
                text_view(samples),
                text_view(depth),
            ) {
                Some((asked, h, s, d)) => (r matches Some(c) && c.img_height == h
                    && c.samples_per_pixel == s && c.max_ray_depth == d && (match asked {
                    Some(w) => c.img_width == w,
                    None => is_wide_screen_width(arith, h, c.img_width),
                }) && c.output_file@ == (match output {
                    Some(o) => o@,
                    None => "img.png"@,
                })),
                None => r is None,
            },
    {
        let img_height: usize = match height {
            Some(t) => match parse_height(t) {
                Some(h) => h,
                None => {
                    return None;
                },
            },
            None => 720,
        };
        let img_width: usize = match width {
            Some(t) => match parse_positive(t) {
                Some(w) => w,
                None => {
                    return None;
                },
            },
            None => default_width(img_height, arith),
        };
        let samples_per_pixel: usize = match samples {
            Some(t) => match parse_positive(t) {
                Some(s) => s,
                None => {
                    return None;
                },
            },
            None => 100,
        };
        let max_ray_depth: usize = match depth {
            Some(t) => match parse_positive(t) {
                Some(d) => d,
                None => {
                    return None;
                },
            },
            None => 50,
        };
        let output_file = match output {
            Some(o) => String::from_str(o),
            None => String::from_str("img.png"),
        };
        Some(Config { img_width, img_height, samples_per_pixel, max_ray_depth, output_file })
    }
}

} // verus!
