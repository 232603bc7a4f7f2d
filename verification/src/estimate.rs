//! The deterministic size-estimation model: closed-form compression and
//! subset estimates over a fixed 280 KB baseline, with exact rational
//! results and canonical download URLs.

use vstd::prelude::*;
use vstd::string::{StringExecFns, StrSliceExecFns};
use crate::fraction::Fraction;
use crate::text::{lower_of, slugify, spec_blank, spec_slug, to_folded};
use crate::validate::{
    spec_parse_format, validate_compress, validate_subset, FontFormat, ValidationError,
};

verus! {

/// The fixed baseline size, in KB, assumed for every font.
pub const ORIGINAL_SIZE_KB: u64 = 280;

/// The fixed glyph inventory assumed for every font.
pub const ORIGINAL_GLYPH_COUNT: usize = 8500;

/// The per-format compression coefficient, in hundredths.
pub open spec fn spec_ratio_base_pct(f: FontFormat) -> int {
    match f {
        FontFormat::Woff2 => 35,
        FontFormat::Woff => 55,
        FontFormat::Otf => 90,
        FontFormat::Ttf => 90,
    }
}

/// Returns the per-format compression coefficient, in hundredths.
pub fn ratio_base_pct(f: FontFormat) -> (r: u64)
    ensures
        r == spec_ratio_base_pct(f),
{
    match f {
        FontFormat::Woff2 => 35,
        FontFormat::Woff => 55,
        FontFormat::Otf => 90,
        FontFormat::Ttf => 90,
    }
}

/// The per-format subset coefficient, in hundredths: woff2 compresses
/// further; every other valid format shares one coefficient.
pub open spec fn spec_format_ratio_pct(f: FontFormat) -> int {
    if f == FontFormat::Woff2 {
        35
    } else {
        55
    }
}

/// Returns the per-format subset coefficient, in hundredths.
pub fn format_ratio_pct(f: FontFormat) -> (r: u64)
    ensures
        r == spec_format_ratio_pct(f),
{
    if f == FontFormat::Woff2 {
        35
    } else {
        55
    }
}

/// Numerator of the compressed size in KB over denominator 1000:
/// 280 · (pct/100) · (1/2 + q/200) == 14 · pct · (100 + q) / 1000.
pub open spec fn spec_compressed_num(f: FontFormat, quality: u8) -> int {
    14 * spec_ratio_base_pct(f) * (100 + quality)
}

/// Denominator of the compression ratio over numerator 20000:
/// 280 / compressed == 20000 / (pct · (100 + q)).
pub open spec fn spec_ratio_den(f: FontFormat, quality: u8) -> int {
    spec_ratio_base_pct(f) * (100 + quality)
}

/// The character count billed for a subset: the raw number of Unicode
/// scalar values given, with a floor of one.
pub open spec fn spec_char_count(chars: Seq<char>) -> int {
    if chars.len() == 0 {
        1
    } else {
        chars.len() as int
    }
}

/// Glyphs kept by a subset: the billed character count, capped at the
/// fixed glyph inventory.
pub open spec fn spec_subset_glyphs(chars: Seq<char>) -> int {
    if spec_char_count(chars) < ORIGINAL_GLYPH_COUNT {
        spec_char_count(chars)
    } else {
        ORIGINAL_GLYPH_COUNT as int
    }
}

/// Numerator of the subset size in KB over denominator 850000:
/// 280 · (glyphs/8500) · (pct/100).
pub open spec fn spec_subset_num(f: FontFormat, chars: Seq<char>) -> int {
    280 * spec_format_ratio_pct(f) * spec_subset_glyphs(chars)
}

/// The canonical download URL of a compressed font.
pub open spec fn spec_compress_url(name: Seq<char>, f: FontFormat) -> Seq<char> {
    "/cdn/fonts/"@ + spec_slug(lower_of(name)) + "/"@ + spec_slug(lower_of(name)) + "."@
        + f.spec_name()
}

/// The canonical download URL of a font subset.
pub open spec fn spec_subset_url(name: Seq<char>, f: FontFormat) -> Seq<char> {
    "/cdn/fonts/"@ + spec_slug(lower_of(name)) + "/subset."@ + f.spec_name()
}

/// A compression request as the client sends it, before validation.
#[derive(Debug, Clone)]
pub struct CompressRequest {
    pub font_name: String,
    pub format: String,
    pub quality: u8,
}

/// The estimate returned for a valid compression request. Sizes and the
/// ratio are exact rationals in KB.
#[derive(Debug, Clone)]
pub struct CompressResponse {
    pub font_name: String,
    pub format: String,
    pub quality: u8,
    pub original_size_kb: u64,
    pub compressed_size_kb: Fraction,
    pub ratio: Fraction,
    pub download_url: String,
}

/// A subset request as the client sends it, before validation.
#[derive(Debug, Clone)]
pub struct SubsetRequest {
    pub font_name: String,
    pub characters: String,
    pub format: String,
}

/// The estimate returned for a valid subset request.
#[derive(Debug, Clone)]
pub struct SubsetResponse {
    pub font_name: String,
    pub format: String,
    pub character_count: usize,
    pub original_glyph_count: usize,
    pub subset_glyph_count: usize,
    pub original_size_kb: u64,
    pub subset_size_kb: Fraction,
    pub download_url: String,
}

/// Builds `/cdn/fonts/<slug>/<slug>.<format>` for the given font name,
/// where the slug is the lowercased name with spaces turned into hyphens.
fn build_compress_url(font_name: &str, f: FontFormat) -> (r: String)
    ensures
        r@ == spec_compress_url(font_name@, f),
{
    let folded = to_folded(font_name);
    let slug = slugify(folded.as_str());
    let mut url = String::from_str("/cdn/fonts/");
    url.append(slug.as_str());
    url.append("/");
    url.append(slug.as_str());
    url.append(".");
    url.append(f.name());
    url
}

/// Builds `/cdn/fonts/<slug>/subset.<format>` for the given font name.
fn build_subset_url(font_name: &str, f: FontFormat) -> (r: String)
    ensures
        r@ == spec_subset_url(font_name@, f),
{
    let folded = to_folded(font_name);
    let slug = slugify(folded.as_str());
    let mut url = String::from_str("/cdn/fonts/");
    url.append(slug.as_str());
    url.append("/subset.");
    url.append(f.name());
    url
}

/// Estimates compression for a request: validates it, then derives the
/// size, ratio and download URL from the fixed model.
pub fn compress(req: &CompressRequest) -> (r: Result<CompressResponse, ValidationError>)
    ensures
        match r {
            Ok(resp) => {
                &&& spec_parse_format(req.format@) is Some
                &&& req.quality <= 100
                &&& !spec_blank(req.font_name@)
                &&& resp.font_name@ == req.font_name@
                &&& resp.format@ == req.format@
                &&& resp.quality == req.quality
                &&& resp.original_size_kb == ORIGINAL_SIZE_KB
                &&& resp.compressed_size_kb.num == spec_compressed_num(
                    spec_parse_format(req.format@).unwrap(),
                    req.quality,
                )
                &&& resp.compressed_size_kb.den == 1000
                &&& resp.ratio.num == 20000
                &&& resp.ratio.den == spec_ratio_den(
                    spec_parse_format(req.format@).unwrap(),
                    req.quality,
                )
                &&& resp.download_url@ == spec_compress_url(
                    req.font_name@,
                    spec_parse_format(req.format@).unwrap(),
                )
            },
            Err(e) => match e {
                ValidationError::UnsupportedFormat { given } => {
                    &&& spec_parse_format(req.format@) is None
                    &&& given@ == req.format@
                },
                ValidationError::QualityOutOfRange => {
                    &&& spec_parse_format(req.format@) is Some
                    &&& req.quality > 100
                },
                ValidationError::MissingFontName => {
                    &&& spec_parse_format(req.format@) is Some
                    &&& req.quality <= 100
                    &&& spec_blank(req.font_name@)
                },
            },
        },
{
    let fmt = match validate_compress(
        req.font_name.as_str(),
        req.format.as_str(),
        req.quality,
    ) {
        Ok(f) => f,
        Err(e) => {
            return Err(e);
        },
    };
    let pct = ratio_base_pct(fmt);
    let q: u64 = req.quality as u64;
    proof {
        assert(pct <= 90);
        assert(14 * pct * (100 + q) <= 252000) by (nonlinear_arith)
            requires
                0 <= pct <= 90,
                0 <= q <= 100,
        ;
    }
    let compressed_num = 14 * pct * (100 + q);
    let ratio_den = pct * (100 + q);
    let url = build_compress_url(req.font_name.as_str(), fmt);

    Ok(
        CompressResponse {
            font_name: req.font_name.clone(),
            format: req.format.clone(),
            quality: req.quality,
            original_size_kb: ORIGINAL_SIZE_KB,
            compressed_size_kb: Fraction::new(compressed_num, 1000),
            ratio: Fraction::new(20000, ratio_den),
            download_url: url,
        },
    )
}

/// Estimates a Unicode subset for a request: validates it, then derives
/// the glyph counts, size and download URL from the fixed model.
pub fn subset(req: &SubsetRequest) -> (r: Result<SubsetResponse, ValidationError>)
    ensures
        match r {
            Ok(resp) => {
                &&& spec_parse_format(req.format@) is Some
                &&& !spec_blank(req.font_name@)
                &&& resp.font_name@ == req.font_name@
                &&& resp.format@ == req.format@
                &&& resp.character_count == spec_char_count(req.characters@)
                &&& resp.original_glyph_count == ORIGINAL_GLYPH_COUNT
                &&& resp.subset_glyph_count == spec_subset_glyphs(req.characters@)
                &&& resp.original_size_kb == ORIGINAL_SIZE_KB
                &&& resp.subset_size_kb.num == spec_subset_num(
                    spec_parse_format(req.format@).unwrap(),
                    req.characters@,
                )
                &&& resp.subset_size_kb.den == 850000
                &&& resp.download_url@ == spec_subset_url(
                    req.font_name@,
                    spec_parse_format(req.format@).unwrap(),
                )
            },
            Err(e) => match e {
                ValidationError::UnsupportedFormat { given } => {
                    &&& spec_parse_format(req.format@) is None
                    &&& given@ == req.format@
                },
                ValidationError::QualityOutOfRange => false,
                ValidationError::MissingFontName => {
                    &&& spec_parse_format(req.format@) is Some
                    &&& spec_blank(req.font_name@)
                },
            },
        },
{
    let fmt = match validate_subset(req.font_name.as_str(), req.format.as_str()) {
        Ok(f) => f,
        Err(e) => {
            return Err(e);
        },
    };
    let raw_len = req.characters.as_str().unicode_len();
    let character_count: usize = if raw_len == 0 {
        1
    } else {
        raw_len
    };
    let subset_glyph_count: usize = if character_count < ORIGINAL_GLYPH_COUNT {
        character_count
    } else {
        ORIGINAL_GLYPH_COUNT
    };
    let pct = format_ratio_pct(fmt);
    proof {
        assert(pct <= 55);
        assert(280 * pct * (subset_glyph_count as u64) <= 130900000) by (nonlinear_arith)
            requires
                0 <= pct <= 55,
                0 <= subset_glyph_count <= 8500,
        ;
    }
    let subset_num = 280 * pct * (subset_glyph_count as u64);
    let url = build_subset_url(req.font_name.as_str(), fmt);

    Ok(
        SubsetResponse {
            font_name: req.font_name.clone(),
            format: req.format.clone(),
            character_count,
            original_glyph_count: ORIGINAL_GLYPH_COUNT,
            subset_glyph_count,
            original_size_kb: ORIGINAL_SIZE_KB,
            subset_size_kb: Fraction::new(subset_num, 850000),
            download_url: url,
        },
    )
}

/// Law: for every format and quality at most 100, the compressed size is
/// exactly 280 · ratio_base · (1/2 + quality/200) — as rationals,
/// compressed_num/1000 equals (280 · pct · (100+q)) / 20000 — the ratio is
/// exactly the original size over the compressed size, and the compressed
/// size is strictly below the 280 KB original, so the ratio exceeds one.
pub proof fn lemma_compression_formula(f: FontFormat, quality: u8)
    requires
        quality <= 100,
    ensures
        spec_compressed_num(f, quality) * 20000 == (280 * spec_ratio_base_pct(f) * (100
            + quality)) * 1000,
        20000 * spec_compressed_num(f, quality) == (280 * spec_ratio_den(f, quality)) * 1000,
        spec_compressed_num(f, quality) < 280 * 1000,
        20000 > spec_ratio_den(f, quality),
{
    let pct = spec_ratio_base_pct(f);
    let q = 100 + quality as int;
    assert(spec_compressed_num(f, quality) == 14 * pct * q);
    assert(14 * pct * q * 20000 == (280 * pct * q) * 1000) by (nonlinear_arith);
    assert(20000 * (14 * pct * q) == (280 * (pct * q)) * 1000) by (nonlinear_arith);
    assert(pct <= 90);
    assert(q <= 200);
    assert(14 * pct * q <= 14 * 90 * 200) by (nonlinear_arith)
        requires
            0 <= pct <= 90,
            0 <= q <= 200,
    ;
}

/// Law: at the quality extremes the model halves or keeps the base
/// estimate — quality 0 gives 280 · ratio_base · 1/2 and quality 100 gives
/// 280 · ratio_base, exactly.
pub proof fn lemma_compression_quality_extremes(f: FontFormat)
    ensures
        spec_compressed_num(f, 0) * 200 == (280 * spec_ratio_base_pct(f)) * 1000,
        spec_compressed_num(f, 100) * 100 == (280 * spec_ratio_base_pct(f)) * 1000,
{
    let pct = spec_ratio_base_pct(f);
    assert(spec_compressed_num(f, 0) == 14 * pct * 100);
    assert(spec_compressed_num(f, 100) == 14 * pct * 200);
}

/// Law: a subset never keeps more glyphs than the fixed inventory, and
/// always bills at least one character.
pub proof fn lemma_subset_bounds(chars: Seq<char>)
    ensures
        1 <= spec_char_count(chars),
        1 <= spec_subset_glyphs(chars) <= ORIGINAL_GLYPH_COUNT,
{
}

} // verus!
