//! The catalogue of known formats: names, interpreters, byte signatures and
//! filename extensions.
use vstd::prelude::*;

verus! {

/// A game format, or `Unknown` where none could be recognised.
#[derive(Clone, Copy, Debug, PartialEq, Eq, Structural)]
pub enum GameFormat {
    Unknown,
    ZCode,
    Glulx,
    Tads,
    Hugo,
    Agt,
    Jacl,
    Level9,
    Magnetic,
    Alan2,
    Alan3,
    Adrift,
    Adrift5,
    Scott,
    Plus,
    Taylor,
    Advsys,
}

/// The display name of each format.
pub open spec fn format_name(f: GameFormat) -> Seq<char> {
    match f {
        GameFormat::Unknown => "Unknown"@,
        GameFormat::ZCode => "Z-code"@,
        GameFormat::Glulx => "Glulx"@,
        GameFormat::Tads => "TADS"@,
        GameFormat::Hugo => "Hugo"@,
        GameFormat::Agt => "AGT"@,
        GameFormat::Jacl => "JACL"@,
        GameFormat::Level9 => "Level 9"@,
        GameFormat::Magnetic => "Magnetic Scrolls"@,
        GameFormat::Alan2 => "Alan 2"@,
        GameFormat::Alan3 => "Alan 3"@,
        GameFormat::Adrift => "Adrift"@,
        GameFormat::Adrift5 => "Adrift 5"@,
        GameFormat::Scott => "Scott Adams"@,
        GameFormat::Plus => "Plus"@,
        GameFormat::Taylor => "TaylorMade"@,
        GameFormat::Advsys => "AdvSys"@,
    }
}

/// The program that runs each format; `Unknown` has none.
pub open spec fn format_interpreter(f: GameFormat) -> Option<Seq<char>> {
    match f {
        GameFormat::Unknown => None,
        GameFormat::ZCode => Some("bocfel"@),
        GameFormat::Glulx => Some("git"@),
        GameFormat::Tads => Some("tadsr"@),
        GameFormat::Hugo => Some("hugo"@),
        GameFormat::Agt => Some("agility"@),
        GameFormat::Jacl => Some("jacl"@),
        GameFormat::Level9 => Some("level9"@),
        GameFormat::Magnetic => Some("magnetic"@),
        GameFormat::Alan2 => Some("alan2"@),
        GameFormat::Alan3 => Some("alan3"@),
        GameFormat::Adrift => Some("scare"@),
        GameFormat::Adrift5 => Some("scare"@),
        GameFormat::Scott => Some("scott"@),
        GameFormat::Plus => Some("plus"@),
        GameFormat::Taylor => Some("taylor"@),
        GameFormat::Advsys => Some("advsys"@),
    }
}

/// The extra interpreter arguments of each format; none needs any at present.
pub open spec fn format_flags(f: GameFormat) -> Seq<Seq<char>> {
    Seq::empty()
}

impl GameFormat {
    pub fn name(&self) -> (r: &'static str)
        ensures
            r@ == format_name(*self),
    {
        match self {
            GameFormat::Unknown => "Unknown",
            GameFormat::ZCode => "Z-code",
            GameFormat::Glulx => "Glulx",
            GameFormat::Tads => "TADS",
            GameFormat::Hugo => "Hugo",
            GameFormat::Agt => "AGT",
            GameFormat::Jacl => "JACL",
            GameFormat::Level9 => "Level 9",
            GameFormat::Magnetic => "Magnetic Scrolls",
            GameFormat::Alan2 => "Alan 2",
            GameFormat::Alan3 => "Alan 3",
            GameFormat::Adrift => "Adrift",
            GameFormat::Adrift5 => "Adrift 5",
            GameFormat::Scott => "Scott Adams",
            GameFormat::Plus => "Plus",
            GameFormat::Taylor => "TaylorMade",
            GameFormat::Advsys => "AdvSys",
        }
    }

    /// The interpreter program for this format; `None` only for `Unknown`.
    pub fn interpreter(&self) -> (r: Option<&'static str>)
        ensures
            r is None <==> *self == GameFormat::Unknown,
            r matches Some(p) ==> format_interpreter(*self) == Some(p@),
            r is None ==> format_interpreter(*self) is None,
    {
        match self {
            GameFormat::Unknown => None,
            GameFormat::ZCode => Some("bocfel"),
            GameFormat::Glulx => Some("git"),
            GameFormat::Tads => Some("tadsr"),
            GameFormat::Hugo => Some("hugo"),
            GameFormat::Agt => Some("agility"),
            GameFormat::Jacl => Some("jacl"),
            GameFormat::Level9 => Some("level9"),
            GameFormat::Magnetic => Some("magnetic"),
            GameFormat::Alan2 => Some("alan2"),
            GameFormat::Alan3 => Some("alan3"),
            GameFormat::Adrift => Some("scare"),
            GameFormat::Adrift5 => Some("scare"),
            GameFormat::Scott => Some("scott"),
            GameFormat::Plus => Some("plus"),
            GameFormat::Taylor => Some("taylor"),
            GameFormat::Advsys => Some("advsys"),
        }
    }

    /// Extra arguments passed to the interpreter before the game file.
    pub fn flags(&self) -> (r: Vec<&'static str>)
        ensures
            r@.map_values(|a: &'static str| a@) == format_flags(*self),
    {
        let r: Vec<&'static str> = Vec::new();
        assert(r@.map_values(|a: &'static str| a@) =~= format_flags(*self));
        r
    }
}

/// A byte signature found at the start of a file of the given format.
pub struct MagicPattern {
    pub pattern: Vec<u8>,
    pub format: GameFormat,
}

impl View for MagicPattern {
    type V = (Seq<u8>, GameFormat);

    open spec fn view(&self) -> (Seq<u8>, GameFormat) {
        (self.pattern@, self.format)
    }
}

/// The signature table, in the order in which it is consulted.
pub open spec fn magic_table() -> Seq<(Seq<u8>, GameFormat)> {
    seq![
        (seq![0x47u8, 0x6cu8, 0x75u8, 0x6cu8], GameFormat::Glulx),  // "Glul"
        (seq![0x54u8, 0x41u8, 0x44u8, 0x53u8, 0x32u8, 0x20u8, 0x62u8, 0x69u8, 0x6eu8, 0x0au8, 0x0du8, 0x1au8], GameFormat::Tads),  // "TADS2 bin\x0A\x0D\x1A"
        (seq![0x54u8, 0x41u8, 0x44u8, 0x53u8, 0x33u8, 0x20u8, 0x72u8], GameFormat::Tads),  // "TADS3 r"
    ]
}

/// Builds the signature table. Z-code has no fixed signature: its version
/// byte is recognised by a separate rule.
pub fn magic_patterns() -> (r: Vec<MagicPattern>)
    ensures
        r@.map_values(|m: MagicPattern| m@) == magic_table(),
{
    let mut v: Vec<MagicPattern> = Vec::new();
    v.push(MagicPattern { pattern: vec![0x47u8, 0x6cu8, 0x75u8, 0x6cu8], format: GameFormat::Glulx });
    v.push(MagicPattern {
        pattern: vec![0x54u8, 0x41u8, 0x44u8, 0x53u8, 0x32u8, 0x20u8, 0x62u8, 0x69u8, 0x6eu8, 0x0au8, 0x0du8, 0x1au8],
        format: GameFormat::Tads,
    });
    v.push(MagicPattern { pattern: vec![0x54u8, 0x41u8, 0x44u8, 0x53u8, 0x33u8, 0x20u8, 0x72u8], format: GameFormat::Tads });
    assert(v@.map_values(|m: MagicPattern| m@) =~= magic_table());
    v
}

/// A lower-case filename extension, without its dot, and the format it names.
pub struct ExtensionMapping {
    pub extension: Vec<u8>,
    pub format: GameFormat,
}

impl View for ExtensionMapping {
    type V = (Seq<u8>, GameFormat);

    open spec fn view(&self) -> (Seq<u8>, GameFormat) {
        (self.extension@, self.format)
    }
}

/// The extension table, in the order in which it is consulted.
pub open spec fn extension_table() -> Seq<(Seq<u8>, GameFormat)> {
    seq![
        (seq![0x7au8, 0x31u8], GameFormat::ZCode),  // "z1"
        (seq![0x7au8, 0x32u8], GameFormat::ZCode),  // "z2"
        (seq![0x7au8, 0x33u8], GameFormat::ZCode),  // "z3"
        (seq![0x7au8, 0x34u8], GameFormat::ZCode),  // "z4"
        (seq![0x7au8, 0x35u8], GameFormat::ZCode),  // "z5"
        (seq![0x7au8, 0x36u8], GameFormat::ZCode),  // "z6"
        (seq![0x7au8, 0x37u8], GameFormat::ZCode),  // "z7"
        (seq![0x7au8, 0x38u8], GameFormat::ZCode),  // "z8"
        (seq![0x64u8, 0x61u8, 0x74u8], GameFormat::ZCode),  // "dat"
        (seq![0x75u8, 0x6cu8, 0x78u8], GameFormat::Glulx),  // "ulx"
        (seq![0x67u8, 0x61u8, 0x6du8], GameFormat::Tads),  // "gam"
        (seq![0x74u8, 0x33u8], GameFormat::Tads),  // "t3"
        (seq![0x68u8, 0x65u8, 0x78u8], GameFormat::Hugo),  // "hex"
        (seq![0x61u8, 0x67u8, 0x78u8], GameFormat::Agt),  // "agx"
        (seq![0x64u8, 0x24u8, 0x24u8], GameFormat::Agt),  // "d$$"
        (seq![0x6au8, 0x61u8, 0x63u8, 0x6cu8], GameFormat::Jacl),  // "jacl"
        (seq![0x6au8, 0x32u8], GameFormat::Jacl),  // "j2"
        (seq![0x6cu8, 0x39u8], GameFormat::Level9),  // "l9"
        (seq![0x73u8, 0x6eu8, 0x61u8], GameFormat::Level9),  // "sna"
        (seq![0x6du8, 0x61u8, 0x67u8], GameFormat::Magnetic),  // "mag"
        (seq![0x61u8, 0x63u8, 0x64u8], GameFormat::Alan2),  // "acd"
        (seq![0x61u8, 0x33u8, 0x63u8], GameFormat::Alan3),  // "a3c"
        (seq![0x74u8, 0x61u8, 0x66u8], GameFormat::Adrift),  // "taf"
        (seq![0x62u8, 0x61u8, 0x66u8], GameFormat::Adrift5),  // "baf"
        (seq![0x73u8, 0x61u8, 0x67u8, 0x61u8], GameFormat::Scott),  // "saga"
        (seq![0x70u8, 0x6cu8, 0x75u8, 0x73u8], GameFormat::Plus),  // "plus"
        (seq![0x74u8, 0x61u8, 0x79u8], GameFormat::Taylor),  // "tay"
        (seq![0x61u8, 0x64u8, 0x76u8, 0x73u8], GameFormat::Advsys),  // "advs"
    ]
}

/// Builds the extension table.
pub fn extension_mappings() -> (r: Vec<ExtensionMapping>)
    ensures
        r@.map_values(|m: ExtensionMapping| m@) == extension_table(),
{
    let mut v: Vec<ExtensionMapping> = Vec::new();
    v.push(ExtensionMapping { extension: vec![0x7au8, 0x31u8], format: GameFormat::ZCode });
    v.push(ExtensionMapping { extension: vec![0x7au8, 0x32u8], format: GameFormat::ZCode });
    v.push(ExtensionMapping { extension: vec![0x7au8, 0x33u8], format: GameFormat::ZCode });
    v.push(ExtensionMapping { extension: vec![0x7au8, 0x34u8], format: GameFormat::ZCode });
    v.push(ExtensionMapping { extension: vec![0x7au8, 0x35u8], format: GameFormat::ZCode });
    v.push(ExtensionMapping { extension: vec![0x7au8, 0x36u8], format: GameFormat::ZCode });
    v.push(ExtensionMapping { extension: vec![0x7au8, 0x37u8], format: GameFormat::ZCode });
    v.push(ExtensionMapping { extension: vec![0x7au8, 0x38u8], format: GameFormat::ZCode });
    v.push(ExtensionMapping { extension: vec![0x64u8, 0x61u8, 0x74u8], format: GameFormat::ZCode });
    v.push(ExtensionMapping { extension: vec![0x75u8, 0x6cu8, 0x78u8], format: GameFormat::Glulx });
    v.push(ExtensionMapping { extension: vec![0x67u8, 0x61u8, 0x6du8], format: GameFormat::Tads });
    v.push(ExtensionMapping { extension: vec![0x74u8, 0x33u8], format: GameFormat::Tads });
    v.push(ExtensionMapping { extension: vec![0x68u8, 0x65u8, 0x78u8], format: GameFormat::Hugo });
    v.push(ExtensionMapping { extension: vec![0x61u8, 0x67u8, 0x78u8], format: GameFormat::Agt });
    v.push(ExtensionMapping { extension: vec![0x64u8, 0x24u8, 0x24u8], format: GameFormat::Agt });
    v.push(ExtensionMapping { extension: vec![0x6au8, 0x61u8, 0x63u8, 0x6cu8], format: GameFormat::Jacl });
    v.push(ExtensionMapping { extension: vec![0x6au8, 0x32u8], format: GameFormat::Jacl });
    v.push(ExtensionMapping { extension: vec![0x6cu8, 0x39u8], format: GameFormat::Level9 });
    v.push(ExtensionMapping { extension: vec![0x73u8, 0x6eu8, 0x61u8], format: GameFormat::Level9 });
    v.push(ExtensionMapping { extension: vec![0x6du8, 0x61u8, 0x67u8], format: GameFormat::Magnetic });
    v.push(ExtensionMapping { extension: vec![0x61u8, 0x63u8, 0x64u8], format: GameFormat::Alan2 });
    v.push(ExtensionMapping { extension: vec![0x61u8, 0x33u8, 0x63u8], format: GameFormat::Alan3 });
    v.push(ExtensionMapping { extension: vec![0x74u8, 0x61u8, 0x66u8], format: GameFormat::Adrift });
    v.push(ExtensionMapping { extension: vec![0x62u8, 0x61u8, 0x66u8], format: GameFormat::Adrift5 });
    v.push(ExtensionMapping { extension: vec![0x73u8, 0x61u8, 0x67u8, 0x61u8], format: GameFormat::Scott });
    v.push(ExtensionMapping { extension: vec![0x70u8, 0x6cu8, 0x75u8, 0x73u8], format: GameFormat::Plus });
    v.push(ExtensionMapping { extension: vec![0x74u8, 0x61u8, 0x79u8], format: GameFormat::Taylor });
    v.push(ExtensionMapping { extension: vec![0x61u8, 0x64u8, 0x76u8, 0x73u8], format: GameFormat::Advsys });
    assert(v@.map_values(|m: ExtensionMapping| m@) =~= extension_table());
    v
}

} // verus!
