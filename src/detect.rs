//! Format detection: byte signatures, positional heuristics, the Blorb
//! container and filename extensions.
use vstd::prelude::*;
use vstd::slice::slice_subrange;
use vstd::string::*;

use crate::config::{
    extension_mappings, extension_table, magic_patterns, magic_table, ExtensionMapping,
    GameFormat, MagicPattern,
};

verus! {

/// Capacity of the header buffer read from the start of a file.
pub const HEADER_SIZE: usize = 32;

/// `pat` occurs in `data` at `start`, entirely within `data`.
pub open spec fn occurs_at(data: Seq<u8>, start: int, pat: Seq<u8>) -> bool {
    0 <= start && start + pat.len() <= data.len() && data.subrange(start, start + pat.len()) == pat
}

/// "FORM", the tag that opens an IFF container.
pub open spec fn form_tag() -> Seq<u8> {
    seq![0x46u8, 0x4fu8, 0x52u8, 0x4du8]
}

/// "IFRS", the form type of a Blorb container.
pub open spec fn ifrs_tag() -> Seq<u8> {
    seq![0x49u8, 0x46u8, 0x52u8, 0x53u8]
}

/// "RIdx", the tag of the resource index chunk.
pub open spec fn ridx_tag() -> Seq<u8> {
    seq![0x52u8, 0x49u8, 0x64u8, 0x78u8]
}

/// "Exec", the usage tag of executable content.
pub open spec fn exec_tag() -> Seq<u8> {
    seq![0x45u8, 0x78u8, 0x65u8, 0x63u8]
}

/// "Glul", the signature of Glulx code.
pub open spec fn glul_tag() -> Seq<u8> {
    seq![0x47u8, 0x6cu8, 0x75u8, 0x6cu8]
}

/// "GLUL", the upper-case form that also marks Glulx code inside a container.
pub open spec fn glul_upper_tag() -> Seq<u8> {
    seq![0x47u8, 0x4cu8, 0x55u8, 0x4cu8]
}

/// The header buffer: the first bytes of the file, at most `HEADER_SIZE`.
pub open spec fn header_of(file: Seq<u8>) -> Seq<u8> {
    if file.len() > HEADER_SIZE {
        file.take(HEADER_SIZE as int)
    } else {
        file
    }
}

/// The header announces a Blorb container: "FORM" at 0 and "IFRS" at 8.
pub open spec fn is_container(h: Seq<u8>) -> bool {
    h.len() >= 12 && occurs_at(h, 0, form_tag()) && occurs_at(h, 8, ifrs_tag())
}

/// The format of the first entry of `t`, from index `i` on, whose pattern
/// starts `h`.
pub open spec fn first_signature(h: Seq<u8>, t: Seq<(Seq<u8>, GameFormat)>, i: int) -> Option<
    GameFormat,
>
    decreases t.len() - i,
{
    if i < 0 || i >= t.len() {
        None
    } else if occurs_at(h, 0, t[i].0) {
        Some(t[i].1)
    } else {
        first_signature(h, t, i + 1)
    }
}

/// What the signature table and the two positional rules make of a header.
pub open spec fn signature_format(h: Seq<u8>) -> GameFormat {
    if h.len() < 4 {
        GameFormat::Unknown
    } else if let Some(f) = first_signature(h, magic_table(), 0) {
        f
    } else if 1 <= h[0] <= 8 && h.len() >= 26 {
        GameFormat::ZCode
    } else if h.len() >= 7 && h[3] == 0x2du8 && h[6] == 0x2du8 {
        GameFormat::Hugo
    } else {
        GameFormat::Unknown
    }
}

/// The big-endian 32-bit integer at `at`.
pub open spec fn be_u32_at(data: Seq<u8>, at: int) -> int {
    data[at] * 0x100_0000 + data[at + 1] * 0x1_0000 + data[at + 2] * 0x100 + data[at + 3]
}

/// The offset that the first resource entry of the index points to.
pub open spec fn exec_offset(file: Seq<u8>) -> int {
    be_u32_at(file, 32)
}

/// The format inside a Blorb container. Without a resource index it is
/// unknown; otherwise it is Glulx exactly when the first resource is
/// executable and its data starts with "Glul" or "GLUL", and Z-code in every
/// other case (a version byte, any other tag, a short file, an offset past
/// the end).
pub open spec fn container_format(file: Seq<u8>) -> GameFormat {
    if !occurs_at(file, 12, ridx_tag()) {
        GameFormat::Unknown
    } else if file.len() >= 36 && occurs_at(file, 24, exec_tag()) && (occurs_at(
        file,
        exec_offset(file),
        glul_tag(),
    ) || occurs_at(file, exec_offset(file), glul_upper_tag())) {
        GameFormat::Glulx
    } else {
        GameFormat::ZCode
    }
}

/// What a file's bytes say of its format, before its name is consulted.
pub open spec fn header_format(file: Seq<u8>) -> GameFormat {
    if is_container(header_of(file)) {
        container_format(file)
    } else {
        signature_format(header_of(file))
    }
}

/// Whether `pat` occurs in `data` at `start`.
pub fn occurs_in(data: &[u8], start: usize, pat: &[u8]) -> (r: bool)
    ensures
        r == occurs_at(data@, start as int, pat@),
{
    if pat.len() > data.len() || start > data.len() - pat.len() {
        return false;
    }
    let mut i: usize = 0;
    while i < pat.len()
        invariant
            start + pat.len() <= data.len(),
            0 <= i <= pat.len(),
            forall|j: int| 0 <= j < i ==> data@[start + j] == pat@[j],
        decreases pat.len() - i,
    {
        if data[start + i] != pat[i] {
            assert(data@.subrange(start as int, start + pat.len())[i as int] != pat@[i as int]);
            return false;
        }
        i = i + 1;
    }
    assert(data@.subrange(start as int, start + pat.len()) =~= pat@);
    true
}

/// Classifies a header buffer by the signature table, then the Z-code
/// version-byte rule, then the Hugo dash rule. A container header is not
/// treated specially here.
pub fn classify_signature(h: &[u8]) -> (r: GameFormat)
    ensures
        r == signature_format(h@),
{
    if h.len() < 4 {
        return GameFormat::Unknown;
    }
    let table = magic_patterns();
    let ghost t = table@.map_values(|m: MagicPattern| m@);
    let mut i: usize = 0;
    while i < table.len()
        invariant
            t == magic_table(),
            t.len() == table@.len(),
            forall|k: int| 0 <= k < table@.len() ==> #[trigger] t[k] == table@[k]@,
            0 <= i <= table.len(),
            first_signature(h@, t, 0) == first_signature(h@, t, i as int),
        decreases table.len() - i,
    {
        let entry: &MagicPattern = &table[i];
        assert(t[i as int] == entry@);
        if occurs_in(h, 0, entry.pattern.as_slice()) {
            return entry.format;
        }
        i = i + 1;
    }
    if 1 <= h[0] && h[0] <= 8 && h.len() >= 26 {
        GameFormat::ZCode
    } else if h.len() >= 7 && h[3] == 0x2du8 && h[6] == 0x2du8 {
        GameFormat::Hugo
    } else {
        GameFormat::Unknown
    }
}

/// Classifies the content of a Blorb container from the whole file: the
/// resource index at offset 12, the first resource's usage tag, and the
/// first bytes of the data that resource points to.
pub fn detect_format_by_blorb(contents: &[u8]) -> (r: GameFormat)
    ensures
        r == container_format(contents@),
{
    let ridx: Vec<u8> = vec![0x52u8, 0x49u8, 0x64u8, 0x78u8];
    if !occurs_in(contents, 12, ridx.as_slice()) {
        return GameFormat::Unknown;
    }
    // The chunk size and the resource count are not needed: only the first
    // entry is consulted.
    let exec: Vec<u8> = vec![0x45u8, 0x78u8, 0x65u8, 0x63u8];
    if contents.len() < 36 || !occurs_in(contents, 24, exec.as_slice()) {
        return GameFormat::ZCode;
    }
    let offset: u64 = (contents[32] as u64) * 0x100_0000 + (contents[33] as u64) * 0x1_0000
        + (contents[34] as u64) * 0x100 + (contents[35] as u64);
    assert(offset == exec_offset(contents@));
    if offset > contents.len() as u64 {
        return GameFormat::ZCode;
    }
    let at = offset as usize;
    let glul: Vec<u8> = vec![0x47u8, 0x6cu8, 0x75u8, 0x6cu8];
    let glul_upper: Vec<u8> = vec![0x47u8, 0x4cu8, 0x55u8, 0x4cu8];
    if occurs_in(contents, at, glul.as_slice()) || occurs_in(contents, at, glul_upper.as_slice()) {
        GameFormat::Glulx
    } else {
        // A version byte from 1 to 8 marks Z-code; anything else falls back
        // to Z-code too, the format most often packaged this way.
        GameFormat::ZCode
    }
}

/// Classifies a file by its bytes: a Blorb container is resolved through its
/// resource index, anything else through `classify_signature` on the first
/// `HEADER_SIZE` bytes.
pub fn detect_format_by_header(contents: &[u8]) -> (r: GameFormat)
    ensures
        r == header_format(contents@),
{
    let header: &[u8] = if contents.len() > HEADER_SIZE {
        slice_subrange(contents, 0, HEADER_SIZE)
    } else {
        contents
    };
    assert(header@ =~= header_of(contents@));
    let form: Vec<u8> = vec![0x46u8, 0x4fu8, 0x52u8, 0x4du8];
    let ifrs: Vec<u8> = vec![0x49u8, 0x46u8, 0x52u8, 0x53u8];
    if header.len() >= 12 && occurs_in(header, 0, form.as_slice()) && occurs_in(
        header,
        8,
        ifrs.as_slice(),
    ) {
        return detect_format_by_blorb(contents);
    }
    classify_signature(header)
}

/// Index of the last occurrence of `b` in `s`, or -1.
pub open spec fn last_pos(s: Seq<u8>, b: u8) -> int
    decreases s.len(),
{
    if s.len() == 0 {
        -1
    } else if s.last() == b {
        s.len() - 1
    } else {
        last_pos(s.drop_last(), b)
    }
}

/// `last_pos` is -1 or an index of `s` that holds `b`.
pub(crate) proof fn lemma_last_pos_bounds(s: Seq<u8>, b: u8)
    ensures
        -1 <= last_pos(s, b) < s.len(),
        last_pos(s, b) >= 0 ==> s[last_pos(s, b)] == b,
    decreases s.len(),
{
    if s.len() > 0 && s.last() != b {
        lemma_last_pos_bounds(s.drop_last(), b);
    }
}

/// A path without the '/' characters that end it.
pub open spec fn trim_trailing_slashes(path: Seq<u8>) -> Seq<u8>
    decreases path.len(),
{
    if path.len() > 0 && path.last() == 0x2fu8 {
        trim_trailing_slashes(path.drop_last())
    } else {
        path
    }
}

/// The final component of a path: what follows its last '/', once the
/// slashes that end the path are dropped.
pub open spec fn file_name_of(path: Seq<u8>) -> Seq<u8> {
    let trimmed = trim_trailing_slashes(path);
    trimmed.skip(last_pos(trimmed, 0x2fu8) + 1)
}

/// A path's extension: what follows the last '.' of its final component.
/// There is none where that component holds no '.'.
pub open spec fn extension_of(path: Seq<u8>) -> Option<Seq<u8>> {
    let name = file_name_of(path);
    let dot = last_pos(name, 0x2eu8);
    if dot < 0 {
        None
    } else {
        Some(name.skip(dot + 1))
    }
}

/// ASCII lower case of one byte; other bytes are kept.
pub open spec fn lower_byte(b: u8) -> u8 {
    if 0x41 <= b <= 0x5a {
        (b + 0x20) as u8
    } else {
        b
    }
}

/// ASCII lower case of a byte string.
pub open spec fn lower_bytes(s: Seq<u8>) -> Seq<u8> {
    s.map_values(|b: u8| lower_byte(b))
}

/// The format of the first entry of `t`, from index `i` on, whose extension
/// is `e`.
pub open spec fn first_extension(e: Seq<u8>, t: Seq<(Seq<u8>, GameFormat)>, i: int) -> GameFormat
    decreases t.len() - i,
{
    if i < 0 || i >= t.len() {
        GameFormat::Unknown
    } else if t[i].0 == e {
        t[i].1
    } else {
        first_extension(e, t, i + 1)
    }
}

/// The format that an extension names, in any case.
pub open spec fn extension_table_format(e: Seq<u8>) -> GameFormat {
    first_extension(lower_bytes(e), extension_table(), 0)
}

/// The format that a path's extension names; `Unknown` without one.
pub open spec fn extension_format(path: Seq<u8>) -> GameFormat {
    match extension_of(path) {
        Some(e) => extension_table_format(e),
        None => GameFormat::Unknown,
    }
}

/// One past the index of the last `b` in `s`; 0 where there is none.
fn after_last(s: &[u8], b: u8) -> (r: usize)
    ensures
        r == last_pos(s@, b) + 1,
        r <= s@.len(),
{
    proof {
        lemma_last_pos_bounds(s@, b);
    }
    let mut found: usize = 0;
    let mut i: usize = 0;
    while i < s.len()
        invariant
            0 <= i <= s.len(),
            found == last_pos(s@.take(i as int), b) + 1,
        decreases s.len() - i,
    {
        assert(s@.take(i + 1).drop_last() =~= s@.take(i as int));
        if s[i] == b {
            found = i + 1;
        }
        i = i + 1;
    }
    assert(s@.take(s.len() as int) =~= s@);
    found
}

/// Whether two byte strings are equal.
fn same_bytes(a: &[u8], b: &[u8]) -> (r: bool)
    ensures
        r == (a@ == b@),
{
    if a.len() != b.len() {
        return false;
    }
    let r = occurs_in(a, 0, b);
    assert(a@.subrange(0, b@.len() as int) =~= a@);
    r
}

/// Looks an extension up in the extension table, ignoring ASCII case.
pub fn format_for_extension(ext: &[u8]) -> (r: GameFormat)
    ensures
        r == extension_table_format(ext@),
{
    let mut lower: Vec<u8> = Vec::new();
    let mut i: usize = 0;
    while i < ext.len()
        invariant
            0 <= i <= ext.len(),
            lower@ == lower_bytes(ext@.take(i as int)),
        decreases ext.len() - i,
    {
        let c = ext[i];
        let l = if 0x41u8 <= c && c <= 0x5au8 {
            c + 0x20u8
        } else {
            c
        };
        lower.push(l);
        assert(lower_bytes(ext@.take(i + 1)) =~= lower_bytes(ext@.take(i as int)).push(l));
        i = i + 1;
    }
    assert(ext@.take(ext.len() as int) =~= ext@);
    let table = extension_mappings();
    let ghost t = table@.map_values(|m: ExtensionMapping| m@);
    let mut k: usize = 0;
    while k < table.len()
        invariant
            t == extension_table(),
            t.len() == table@.len(),
            forall|j: int| 0 <= j < table@.len() ==> #[trigger] t[j] == table@[j]@,
            0 <= k <= table.len(),
            lower@ == lower_bytes(ext@),
            first_extension(lower@, t, 0) == first_extension(lower@, t, k as int),
        decreases table.len() - k,
    {
        let entry: &ExtensionMapping = &table[k];
        assert(t[k as int] == entry@);
        if same_bytes(entry.extension.as_slice(), lower.as_slice()) {
            return entry.format;
        }
        k = k + 1;
    }
    GameFormat::Unknown
}

/// Classifies a file by the extension of its path, ignoring ASCII case.
pub fn detect_format_by_extension(path: &str) -> (r: GameFormat)
    ensures
        r == extension_format(path.spec_bytes()),
{
    let bytes: &[u8] = path.as_bytes();
    let mut end: usize = bytes.len();
    assert(bytes@.take(end as int) =~= bytes@);
    while end > 0 && bytes[end - 1] == 0x2fu8
        invariant
            end <= bytes.len(),
            trim_trailing_slashes(bytes@) == trim_trailing_slashes(bytes@.take(end as int)),
        decreases end,
    {
        assert(bytes@.take(end as int).drop_last() =~= bytes@.take(end - 1));
        end = end - 1;
    }
    let trimmed: &[u8] = slice_subrange(bytes, 0, end);
    assert(trimmed@ =~= bytes@.take(end as int));
    assert(trimmed@ == trim_trailing_slashes(bytes@));
    let start = after_last(trimmed, 0x2fu8);
    let name: &[u8] = slice_subrange(trimmed, start, trimmed.len());
    assert(name@ =~= file_name_of(bytes@));
    let dot = after_last(name, 0x2eu8);
    if dot == 0 {
        return GameFormat::Unknown;
    }
    let ext: &[u8] = slice_subrange(name, dot, name.len());
    assert(ext@ =~= name@.skip(dot as int));
    format_for_extension(ext)
}

} // verus!
