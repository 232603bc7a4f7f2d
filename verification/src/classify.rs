//! The analyze classifier: a fixed, priority-ordered, case-insensitive
//! substring match on the font name, yielding one of four canned
//! descriptors.

use vstd::prelude::*;
use vstd::string::StringExecFns;
use crate::text::{contains_chars, lower_of, spec_blank, spec_contains, to_folded};
use crate::validate::{validate_font_name, FontFormat, ValidationError};

verus! {

/// A classifier outcome, at the specification level.
#[verifier::ext_equal]
pub ghost struct DescriptorModel {
    pub glyph_count: int,
    pub format: FontFormat,
    pub size_kb: int,
    pub has_variable_axes: bool,
    pub color_palettes: int,
    pub opentype_features: Seq<Seq<char>>,
}

/// The descriptor chosen for a lowercased font name: "noto" first, then
/// "fira", then "inter", else the default; first match wins.
pub open spec fn spec_descriptor(folded: Seq<char>) -> DescriptorModel {
    if spec_contains(folded, "noto"@) {
        DescriptorModel {
            glyph_count: 22080,
            format: FontFormat::Otf,
            size_kb: 4200,
            has_variable_axes: false,
            color_palettes: 0,
            opentype_features: seq!["kern"@, "liga"@, "calt"@],
        }
    } else if spec_contains(folded, "fira"@) {
        DescriptorModel {
            glyph_count: 1617,
            format: FontFormat::Ttf,
            size_kb: 132,
            has_variable_axes: false,
            color_palettes: 0,
            opentype_features: seq!["kern"@, "liga"@, "dlig"@, "calt"@],
        }
    } else if spec_contains(folded, "inter"@) {
        DescriptorModel {
            glyph_count: 3990,
            format: FontFormat::Otf,
            size_kb: 94,
            has_variable_axes: true,
            color_palettes: 0,
            opentype_features: seq!["kern"@, "ss01"@, "cv01"@],
        }
    } else {
        DescriptorModel {
            glyph_count: 1200,
            format: FontFormat::Ttf,
            size_kb: 80,
            has_variable_axes: false,
            color_palettes: 0,
            opentype_features: seq!["kern"@],
        }
    }
}

/// A classifier outcome as runtime data.
#[derive(Debug, Clone)]
pub struct Descriptor {
    pub glyph_count: usize,
    pub format: FontFormat,
    pub size_kb: u64,
    pub has_variable_axes: bool,
    pub color_palettes: usize,
    pub opentype_features: Vec<String>,
}

impl Descriptor {
    /// The specification-level value this descriptor denotes.
    pub open spec fn model(self) -> DescriptorModel {
        DescriptorModel {
            glyph_count: self.glyph_count as int,
            format: self.format,
            size_kb: self.size_kb as int,
            has_variable_axes: self.has_variable_axes,
            color_palettes: self.color_palettes as int,
            opentype_features: self.opentype_features.deep_view(),
        }
    }
}

/// Classifies an already lowercased font name.
pub fn classify_folded(folded: &str) -> (r: Descriptor)
    ensures
        r.model() == spec_descriptor(folded@),
{
    if contains_chars(folded, "noto") {
        let mut feats: Vec<String> = Vec::new();
        feats.push(String::from_str("kern"));
        feats.push(String::from_str("liga"));
        feats.push(String::from_str("calt"));
        let d = Descriptor {
            glyph_count: 22080,
            format: FontFormat::Otf,
            size_kb: 4200,
            has_variable_axes: false,
            color_palettes: 0,
            opentype_features: feats,
        };
        proof {
            assert(d.model() =~~= spec_descriptor(folded@));
        }
        d
    } else if contains_chars(folded, "fira") {
        let mut feats: Vec<String> = Vec::new();
        feats.push(String::from_str("kern"));
        feats.push(String::from_str("liga"));
        feats.push(String::from_str("dlig"));
        feats.push(String::from_str("calt"));
        let d = Descriptor {
            glyph_count: 1617,
            format: FontFormat::Ttf,
            size_kb: 132,
            has_variable_axes: false,
            color_palettes: 0,
            opentype_features: feats,
        };
        proof {
            assert(d.model() =~~= spec_descriptor(folded@));
        }
        d
    } else if contains_chars(folded, "inter") {
        let mut feats: Vec<String> = Vec::new();
        feats.push(String::from_str("kern"));
        feats.push(String::from_str("ss01"));
        feats.push(String::from_str("cv01"));
        let d = Descriptor {
            glyph_count: 3990,
            format: FontFormat::Otf,
            size_kb: 94,
            has_variable_axes: true,
            color_palettes: 0,
            opentype_features: feats,
        };
        proof {
            assert(d.model() =~~= spec_descriptor(folded@));
        }
        d
    } else {
        let mut feats: Vec<String> = Vec::new();
        feats.push(String::from_str("kern"));
        let d = Descriptor {
            glyph_count: 1200,
            format: FontFormat::Ttf,
            size_kb: 80,
            has_variable_axes: false,
            color_palettes: 0,
            opentype_features: feats,
        };
        proof {
            assert(d.model() =~~= spec_descriptor(folded@));
        }
        d
    }
}

/// An analyze request as the client sends it, before validation.
#[derive(Debug, Clone)]
pub struct AnalyzeRequest {
    pub font_name: String,
}

/// The analysis returned for a valid request.
#[derive(Debug, Clone)]
pub struct AnalyzeResponse {
    pub font_name: String,
    pub glyph_count: usize,
    pub format: String,
    pub size_kb: u64,
    pub unicode_ranges: Vec<String>,
    pub has_variable_axes: bool,
    pub color_palettes: usize,
    pub opentype_features: Vec<String>,
}

/// The fixed Unicode range pair reported for every analysis.
pub open spec fn spec_analysis_ranges() -> Seq<Seq<char>> {
    seq!["U+0000-00FF"@, "U+0100-024F"@]
}

/// Analyzes a font by name: rejects a blank name, otherwise classifies
/// the lowercased name against the fixed descriptor table.
pub fn analyze(req: &AnalyzeRequest) -> (r: Result<AnalyzeResponse, ValidationError>)
    ensures
        match r {
            Ok(resp) => {
                &&& !spec_blank(req.font_name@)
                &&& resp.font_name@ == req.font_name@
                &&& resp.glyph_count == spec_descriptor(lower_of(req.font_name@)).glyph_count
                &&& resp.format@ == spec_descriptor(lower_of(req.font_name@)).format.spec_name()
                &&& resp.size_kb == spec_descriptor(lower_of(req.font_name@)).size_kb
                &&& resp.unicode_ranges.deep_view() == spec_analysis_ranges()
                &&& resp.has_variable_axes == spec_descriptor(
                    lower_of(req.font_name@),
                ).has_variable_axes
                &&& resp.color_palettes == spec_descriptor(lower_of(req.font_name@)).color_palettes
                &&& resp.opentype_features.deep_view() == spec_descriptor(
                    lower_of(req.font_name@),
                ).opentype_features
            },
            Err(e) => e is MissingFontName && spec_blank(req.font_name@),
        },
{
    match validate_font_name(req.font_name.as_str()) {
        Err(e) => {
            return Err(e);
        },
        Ok(_) => {},
    }
    let folded = to_folded(req.font_name.as_str());
    let d = classify_folded(folded.as_str());
    let mut ranges: Vec<String> = Vec::new();
    ranges.push(String::from_str("U+0000-00FF"));
    ranges.push(String::from_str("U+0100-024F"));
    proof {
        assert(ranges.deep_view() =~~= spec_analysis_ranges());
    }
    Ok(
        AnalyzeResponse {
            font_name: req.font_name.clone(),
            glyph_count: d.glyph_count,
            format: String::from_str(d.format.name()),
            size_kb: d.size_kb,
            unicode_ranges: ranges,
            has_variable_axes: d.has_variable_axes,
            color_palettes: d.color_palettes,
            opentype_features: d.opentype_features,
        },
    )
}

} // verus!
