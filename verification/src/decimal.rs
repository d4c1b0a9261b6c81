//! Decimal numbers of 96 bits with a scale, written on the wire as text.

use vstd::prelude::*;

verus! {

/// The largest magnitude of a mantissa: 96 bits.
pub const MAX_MANTISSA: i128 = 0x0000_0000_FFFF_FFFF_FFFF_FFFF_FFFF_FFFF;

/// The largest scale.
pub const MAX_SCALE: u32 = 28;

/// The mantissa and scale of the decimal number that a text writes; `None`
/// for a text that writes none.
pub uninterp spec fn decimal_parts(text: Seq<char>) -> Option<(i128, u32)>;

/// The text of the decimal number with the given mantissa and scale.
pub uninterp spec fn text_of_parts(mantissa: i128, scale: u32) -> Seq<char>;

/// A decimal number: `mantissa` divided by ten to the power `scale`.
#[derive(Clone, Copy, Debug, PartialEq, Eq)]
pub struct Decimal {
    mantissa: i128,
    scale: u32,
}

/// `rust_decimal::Decimal`'s `from_str`, then `mantissa` and `scale`: the
/// parts of the number it reads from `text`, or `None` where it fails, are
/// what [`decimal_parts`] names.
#[verifier::external_body]
fn parse_decimal(text: &str) -> (parts: Option<(i128, u32)>)
    ensures
        parts == decimal_parts(text@),
{
    match text.parse::<rust_decimal::Decimal>() {
        Ok(number) => Some((number.mantissa(), number.scale())),
        Err(_) => None,
    }
}

/// `rust_decimal::Decimal`'s `from_i128_with_scale`, then `array_string`:
/// the text it writes for the number made of the parts is what
/// [`text_of_parts`] names. The parts are within the limits outside of which
/// the constructor panics.
#[verifier::external_body]
fn format_decimal(mantissa: i128, scale: u32) -> (text: String)
    requires
        -MAX_MANTISSA <= mantissa <= MAX_MANTISSA,
        scale <= MAX_SCALE,
    ensures
        text@ == text_of_parts(mantissa, scale),
{
    rust_decimal::Decimal::from_i128_with_scale(mantissa, scale).array_string().as_ref().to_owned()
}

/// Whether the parts are those of a decimal number.
pub open spec fn in_range(mantissa: i128, scale: u32) -> bool {
    -MAX_MANTISSA <= mantissa <= MAX_MANTISSA && scale <= MAX_SCALE
}

impl Decimal {
    #[verifier::type_invariant]
    spec fn well_formed(self) -> bool {
        in_range(self.mantissa, self.scale)
    }

    /// The mantissa.
    pub closed spec fn spec_mantissa(&self) -> i128 {
        self.mantissa
    }

    /// The scale.
    pub closed spec fn spec_scale(&self) -> u32 {
        self.scale
    }

    /// The number with the given parts.
    pub closed spec fn of_parts(mantissa: i128, scale: u32) -> Decimal {
        Decimal { mantissa, scale }
    }

    /// The number made of parts has those parts.
    pub proof fn lemma_of_parts(mantissa: i128, scale: u32)
        ensures
            Decimal::of_parts(mantissa, scale).spec_mantissa() == mantissa,
            Decimal::of_parts(mantissa, scale).spec_scale() == scale,
    {
    }

    /// The number that a text writes, where it writes one whose parts are
    /// within the limits.
    pub closed spec fn of_text(text: Seq<char>) -> Option<Decimal> {
        match decimal_parts(text) {
            Some(parts) if in_range(parts.0, parts.1) => Some(
                Decimal::of_parts(parts.0, parts.1),
            ),
            _ => None,
        }
    }

    /// What [`Decimal::of_text`] is, by the parts of the number.
    pub proof fn lemma_of_text(text: Seq<char>)
        ensures
            Decimal::of_text(text) == (match decimal_parts(text) {
                Some(parts) if in_range(parts.0, parts.1) => Some(
                    Decimal::of_parts(parts.0, parts.1),
                ),
                _ => None,
            }),
    {
    }

    /// Two numbers with the same parts are the same number.
    pub proof fn lemma_same_parts(self, other: Decimal)
        requires
            self.spec_mantissa() == other.spec_mantissa(),
            self.spec_scale() == other.spec_scale(),
        ensures
            self == other,
    {
    }

    /// The text of this number.
    pub open spec fn text(self) -> Seq<char> {
        text_of_parts(self.spec_mantissa(), self.spec_scale())
    }

    /// The number with the given parts; `None` where the mantissa needs more
    /// than 96 bits or the scale is over 28.
    pub fn new(mantissa: i128, scale: u32) -> (number: Option<Decimal>)
        ensures
            number == (if in_range(mantissa, scale) {
                Some(Decimal::of_parts(mantissa, scale))
            } else {
                None
            }),
    {
        if -MAX_MANTISSA <= mantissa && mantissa <= MAX_MANTISSA && scale <= MAX_SCALE {
            Some(Decimal { mantissa, scale })
        } else {
            None
        }
    }

    /// The whole number `n`, with scale 0.
    pub fn from_u64(n: u64) -> (number: Decimal)
        ensures
            number == Decimal::of_parts(n as i128, 0),
    {
        Decimal { mantissa: n as i128, scale: 0 }
    }

    /// The whole number `n`, with scale 0.
    pub fn from_i64(n: i64) -> (number: Decimal)
        ensures
            number == Decimal::of_parts(n as i128, 0),
    {
        Decimal { mantissa: n as i128, scale: 0 }
    }

    /// The mantissa.
    #[verifier::when_used_as_spec(spec_mantissa)]
    pub fn mantissa(&self) -> (m: i128)
        ensures
            m == self.spec_mantissa(),
            in_range(m, self.spec_scale()),
    {
        proof {
            use_type_invariant(self);
        }
        self.mantissa
    }

    /// The scale.
    #[verifier::when_used_as_spec(spec_scale)]
    pub fn scale(&self) -> (s: u32)
        ensures
            s == self.spec_scale(),
            in_range(self.spec_mantissa(), s),
    {
        proof {
            use_type_invariant(self);
        }
        self.scale
    }

    /// The text of the number.
    pub fn to_string(&self) -> (text: String)
        ensures
            text@ == self.text(),
    {
        proof {
            use_type_invariant(self);
        }
        format_decimal(self.mantissa, self.scale)
    }

    /// Reads a number from its text; `None` for a text that writes none.
    pub fn from_str(text: &str) -> (number: Option<Decimal>)
        ensures
            number == Decimal::of_text(text@),
    {
        match parse_decimal(text) {
            Some((mantissa, scale)) => Decimal::new(mantissa, scale),
            None => None,
        }
    }

    /// Whether the number is read back from its own text.
    pub fn round_trips(&self) -> (ok: bool)
        ensures
            ok == (Decimal::of_text(self.text()) == Some(*self)),
    {
        let text = self.to_string();
        match Decimal::from_str(text.as_str()) {
            Some(back) => back.mantissa == self.mantissa && back.scale == self.scale,
            None => false,
        }
    }
}

} // verus!
