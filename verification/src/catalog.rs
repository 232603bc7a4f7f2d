//! The immutable font catalog: four statically defined entries, returned
//! verbatim, always in the same order.

use vstd::prelude::*;
use vstd::string::StringExecFns;

verus! {

/// A catalog entry, at the specification level.
#[verifier::ext_equal]
pub ghost struct CatalogEntryModel {
    pub id: Seq<char>,
    pub family: Seq<char>,
    pub variant: Seq<char>,
    pub formats: Seq<Seq<char>>,
    pub size_kb: int,
    pub glyph_count: int,
    pub unicode_ranges: Seq<Seq<char>>,
    pub license: Seq<char>,
}

/// A catalog entry as runtime data.
#[derive(Debug, Clone)]
pub struct FontCatalogEntry {
    pub id: String,
    pub family: String,
    pub variant: String,
    pub formats: Vec<String>,
    pub size_kb: u64,
    pub glyph_count: usize,
    pub unicode_ranges: Vec<String>,
    pub license: String,
}

impl FontCatalogEntry {
    /// The specification-level value this entry denotes.
    pub open spec fn model(self) -> CatalogEntryModel {
        CatalogEntryModel {
            id: self.id@,
            family: self.family@,
            variant: self.variant@,
            formats: self.formats.deep_view(),
            size_kb: self.size_kb as int,
            glyph_count: self.glyph_count as int,
            unicode_ranges: self.unicode_ranges.deep_view(),
            license: self.license@,
        }
    }
}

/// The full fixed catalog, in its one and only order:
/// Inter, Noto Sans JP, Roboto, Fira Code.
pub open spec fn spec_catalog() -> Seq<CatalogEntryModel> {
    seq![
        CatalogEntryModel {
            id: "inter"@,
            family: "Inter"@,
            variant: "Regular"@,
            formats: seq!["woff2"@, "woff"@, "ttf"@],
            size_kb: 94,
            glyph_count: 3990,
            unicode_ranges: seq!["U+0000-00FF"@, "U+0100-024F"@],
            license: "OFL-1.1"@,
        },
        CatalogEntryModel {
            id: "noto-sans-jp"@,
            family: "Noto Sans JP"@,
            variant: "Regular"@,
            formats: seq!["woff2"@, "otf"@],
            size_kb: 4200,
            glyph_count: 22080,
            unicode_ranges: seq!["U+0020-007E"@, "U+3000-9FFF"@],
            license: "OFL-1.1"@,
        },
        CatalogEntryModel {
            id: "roboto"@,
            family: "Roboto"@,
            variant: "Bold"@,
            formats: seq!["woff2"@, "woff"@, "ttf"@],
            size_kb: 68,
            glyph_count: 1294,
            unicode_ranges: seq!["U+0000-00FF"@],
            license: "Apache-2.0"@,
        },
        CatalogEntryModel {
            id: "fira-code"@,
            family: "Fira Code"@,
            variant: "Regular"@,
            formats: seq!["woff2"@, "ttf"@],
            size_kb: 132,
            glyph_count: 1617,
            unicode_ranges: seq!["U+0020-007E"@, "U+FB00-FB06"@],
            license: "OFL-1.1"@,
        },
    ]
}

/// Returns the full fixed catalog: exactly four entries, in the fixed
/// order, with every field pinned by `spec_catalog`.
pub fn catalog() -> (r: Vec<FontCatalogEntry>)
    ensures
        r@.len() == 4,
        forall|i: int| 0 <= i < 4 ==> (#[trigger] r@[i].model()) == spec_catalog()[i],
{
    let mut entries: Vec<FontCatalogEntry> = Vec::new();

    let mut formats0: Vec<String> = Vec::new();
    formats0.push(String::from_str("woff2"));
    formats0.push(String::from_str("woff"));
    formats0.push(String::from_str("ttf"));
    let mut ranges0: Vec<String> = Vec::new();
    ranges0.push(String::from_str("U+0000-00FF"));
    ranges0.push(String::from_str("U+0100-024F"));
    let e0 = FontCatalogEntry {
        id: String::from_str("inter"),
        family: String::from_str("Inter"),
        variant: String::from_str("Regular"),
        formats: formats0,
        size_kb: 94,
        glyph_count: 3990,
        unicode_ranges: ranges0,
        license: String::from_str("OFL-1.1"),
    };
    proof {
        assert(e0.model() =~~= spec_catalog()[0]);
    }
    entries.push(e0);

    let mut formats1: Vec<String> = Vec::new();
    formats1.push(String::from_str("woff2"));
    formats1.push(String::from_str("otf"));
    let mut ranges1: Vec<String> = Vec::new();
    ranges1.push(String::from_str("U+0020-007E"));
    ranges1.push(String::from_str("U+3000-9FFF"));
    let e1 = FontCatalogEntry {
        id: String::from_str("noto-sans-jp"),
        family: String::from_str("Noto Sans JP"),
        variant: String::from_str("Regular"),
        formats: formats1,
        size_kb: 4200,
        glyph_count: 22080,
        unicode_ranges: ranges1,
        license: String::from_str("OFL-1.1"),
    };
    proof {
        assert(e1.model() =~~= spec_catalog()[1]);
    }
    entries.push(e1);

    let mut formats2: Vec<String> = Vec::new();
    formats2.push(String::from_str("woff2"));
    formats2.push(String::from_str("woff"));
    formats2.push(String::from_str("ttf"));
    let mut ranges2: Vec<String> = Vec::new();
    ranges2.push(String::from_str("U+0000-00FF"));
    let e2 = FontCatalogEntry {
        id: String::from_str("roboto"),
        family: String::from_str("Roboto"),
        variant: String::from_str("Bold"),
        formats: formats2,
        size_kb: 68,
        glyph_count: 1294,
        unicode_ranges: ranges2,
        license: String::from_str("Apache-2.0"),
    };
    proof {
        assert(e2.model() =~~= spec_catalog()[2]);
    }
    entries.push(e2);

    let mut formats3: Vec<String> = Vec::new();
    formats3.push(String::from_str("woff2"));
    formats3.push(String::from_str("ttf"));
    let mut ranges3: Vec<String> = Vec::new();
    ranges3.push(String::from_str("U+0020-007E"));
    ranges3.push(String::from_str("U+FB00-FB06"));
    let e3 = FontCatalogEntry {
        id: String::from_str("fira-code"),
        family: String::from_str("Fira Code"),
        variant: String::from_str("Regular"),
        formats: formats3,
        size_kb: 132,
        glyph_count: 1617,
        unicode_ranges: ranges3,
        license: String::from_str("OFL-1.1"),
    };
    proof {
        assert(e3.model() =~~= spec_catalog()[3]);
    }
    entries.push(e3);

    entries
}

} // verus!
