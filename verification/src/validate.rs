//! Request validation: the enumerated format set, the quality bound, and
//! the non-blank font identifier, checked in that fixed order.

use vstd::prelude::*;
use vstd::string::StringExecFns;
use crate::text::{is_blank, spec_blank, str_eq};

verus! {

/// The enumerated set of supported font formats.
#[derive(Clone, Copy, Debug, PartialEq, Eq, Structural)]
pub enum FontFormat {
    Woff2,
    Woff,
    Otf,
    Ttf,
}

impl FontFormat {
    /// The canonical lowercase name of the format.
    pub open spec fn spec_name(self) -> Seq<char> {
        match self {
            FontFormat::Woff2 => "woff2"@,
            FontFormat::Woff => "woff"@,
            FontFormat::Otf => "otf"@,
            FontFormat::Ttf => "ttf"@,
        }
    }

    /// Returns the canonical name of the format.
    pub fn name(self) -> (r: &'static str)
        ensures
            r@ == self.spec_name(),
    {
        match self {
            FontFormat::Woff2 => "woff2",
            FontFormat::Woff => "woff",
            FontFormat::Otf => "otf",
            FontFormat::Ttf => "ttf",
        }
    }
}

/// The format that a piece of text names, if any. Matching is exact:
/// case-sensitive, no normalization.
pub open spec fn spec_parse_format(s: Seq<char>) -> Option<FontFormat> {
    if s == "woff2"@ {
        Some(FontFormat::Woff2)
    } else if s == "woff"@ {
        Some(FontFormat::Woff)
    } else if s == "otf"@ {
        Some(FontFormat::Otf)
    } else if s == "ttf"@ {
        Some(FontFormat::Ttf)
    } else {
        None
    }
}

/// Parses a format name from the enumerated set.
pub fn parse_format(s: &str) -> (r: Option<FontFormat>)
    ensures
        r == spec_parse_format(s@),
{
    if str_eq(s, "woff2") {
        Some(FontFormat::Woff2)
    } else if str_eq(s, "woff") {
        Some(FontFormat::Woff)
    } else if str_eq(s, "otf") {
        Some(FontFormat::Otf)
    } else if str_eq(s, "ttf") {
        Some(FontFormat::Ttf)
    } else {
        None
    }
}

/// A rejected request, with enough to rebuild the exact reason text.
#[derive(Debug, Clone)]
pub enum ValidationError {
    /// The format is not in the enumerated set; carries the offending value.
    UnsupportedFormat { given: String },
    /// The quality parameter exceeds 100.
    QualityOutOfRange,
    /// The font identifier is blank after trimming.
    MissingFontName,
}

impl ValidationError {
    /// The reason text reported to the client, verbatim.
    pub open spec fn spec_message(&self) -> Seq<char> {
        match self {
            ValidationError::UnsupportedFormat { given } => "unsupported format '"@ + given@
                + "'; valid: woff2, woff, otf, ttf"@,
            ValidationError::QualityOutOfRange => "quality must be 0-100"@,
            ValidationError::MissingFontName => "font_name is required"@,
        }
    }

    /// Builds the reason text.
    pub fn message(&self) -> (r: String)
        ensures
            r@ == self.spec_message(),
    {
        match self {
            ValidationError::UnsupportedFormat { given } => {
                let mut m = String::from_str("unsupported format '");
                m.append(given.as_str());
                m.append("'; valid: woff2, woff, otf, ttf");
                m
            },
            ValidationError::QualityOutOfRange => String::from_str("quality must be 0-100"),
            ValidationError::MissingFontName => String::from_str("font_name is required"),
        }
    }
}

/// Validates a compression request: the format must be in the enumerated
/// set, then quality at most 100, then the identifier non-blank; the first
/// failure wins.
pub fn validate_compress(font_name: &str, format: &str, quality: u8) -> (r: Result<
    FontFormat,
    ValidationError,
>)
    ensures
        match r {
            Ok(f) => {
                &&& spec_parse_format(format@) == Some(f)
                &&& quality <= 100
                &&& !spec_blank(font_name@)
            },
            Err(e) => match e {
                ValidationError::UnsupportedFormat { given } => {
                    &&& spec_parse_format(format@) is None
                    &&& given@ == format@
                },
                ValidationError::QualityOutOfRange => {
                    &&& spec_parse_format(format@) is Some
                    &&& quality > 100
                },
                ValidationError::MissingFontName => {
                    &&& spec_parse_format(format@) is Some
                    &&& quality <= 100
                    &&& spec_blank(font_name@)
                },
            },
        },
{
    match parse_format(format) {
        None => Err(
            ValidationError::UnsupportedFormat { given: String::from_str(format) },
        ),
        Some(f) => {
            if quality > 100 {
                Err(ValidationError::QualityOutOfRange)
            } else if is_blank(font_name) {
                Err(ValidationError::MissingFontName)
            } else {
                Ok(f)
            }
        },
    }
}

/// Validates a subset request: format first, then the identifier; subset
/// requests carry no quality parameter.
pub fn validate_subset(font_name: &str, format: &str) -> (r: Result<FontFormat, ValidationError>)
    ensures
        match r {
            Ok(f) => {
                &&& spec_parse_format(format@) == Some(f)
                &&& !spec_blank(font_name@)
            },
            Err(e) => match e {
                ValidationError::UnsupportedFormat { given } => {
                    &&& spec_parse_format(format@) is None
                    &&& given@ == format@
                },
                ValidationError::QualityOutOfRange => false,
                ValidationError::MissingFontName => {
                    &&& spec_parse_format(format@) is Some
                    &&& spec_blank(font_name@)
                },
            },
        },
{
    match parse_format(format) {
        None => Err(
            ValidationError::UnsupportedFormat { given: String::from_str(format) },
        ),
        Some(f) => {
            if is_blank(font_name) {
                Err(ValidationError::MissingFontName)
            } else {
                Ok(f)
            }
        },
    }
}

/// Validates an analyze request: only the identifier is checked.
pub fn validate_font_name(font_name: &str) -> (r: Result<(), ValidationError>)
    ensures
        match r {
            Ok(_) => !spec_blank(font_name@),
            Err(e) => e is MissingFontName && spec_blank(font_name@),
        },
{
    if is_blank(font_name) {
        Err(ValidationError::MissingFontName)
    } else {
        Ok(())
    }
}

} // verus!
