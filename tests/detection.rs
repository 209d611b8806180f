use glkcli::config::{extension_mappings, magic_patterns, GameFormat};
use glkcli::detect::{
    classify_signature, detect_format_by_blorb, detect_format_by_extension,
    detect_format_by_header, format_for_extension, occurs_in,
};
use glkcli::launcher::Launcher;

fn blorb(resource_tag: &[u8], offset: u32, extra: &[u8]) -> Vec<u8> {
    let mut v = Vec::new();
    v.extend_from_slice(b"FORM");
    v.extend_from_slice(&[0, 0, 0, 0]);
    v.extend_from_slice(b"IFRS");
    v.extend_from_slice(b"RIdx");
    v.extend_from_slice(&[0, 0, 0, 16]);
    v.extend_from_slice(&[0, 0, 0, 1]);
    v.extend_from_slice(resource_tag);
    v.extend_from_slice(&[0, 0, 0, 0]);
    v.extend_from_slice(&offset.to_be_bytes());
    v.extend_from_slice(extra);
    v
}

fn detect(contents: &[u8], path: &str) -> GameFormat {
    Launcher::new().detect_format(contents, path)
}

#[test]
fn short_files_are_unknown_by_header() {
    assert_eq!(detect_format_by_header(b""), GameFormat::Unknown);
    assert_eq!(detect_format_by_header(b"Glu"), GameFormat::Unknown);
    assert_eq!(detect_format_by_header(&[3, 3, 3]), GameFormat::Unknown);
    assert_eq!(detect(b"Glu", "story.ulx"), GameFormat::Glulx);
    assert_eq!(detect(b"ab", "story.bin"), GameFormat::Unknown);
}

#[test]
fn signatures_match_as_prefixes() {
    assert_eq!(detect_format_by_header(b"Glul"), GameFormat::Glulx);
    assert_eq!(detect_format_by_header(b"Glul\xff\xfe anything at all"), GameFormat::Glulx);
    assert_eq!(detect_format_by_header(b"TADS2 bin\x0A\x0D\x1A"), GameFormat::Tads);
    assert_eq!(detect_format_by_header(b"TADS2 bin\x0A\x0D\x1Atrailing"), GameFormat::Tads);
    assert_eq!(detect_format_by_header(b"TADS3 r"), GameFormat::Tads);
    assert_eq!(detect_format_by_header(b"TADS3 rxyz"), GameFormat::Tads);
    // A signature longer than the bytes at hand never matches.
    assert_eq!(detect_format_by_header(b"TADS2 bin\x0A\x0D"), GameFormat::Unknown);
    assert_eq!(detect_format_by_header(b"Glux"), GameFormat::Unknown);
}

#[test]
fn zcode_version_byte_boundaries() {
    let mut f = vec![0u8; 26];
    assert_eq!(detect_format_by_header(&f), GameFormat::Unknown);
    f[0] = 9;
    assert_eq!(detect_format_by_header(&f), GameFormat::Unknown);
    f[0] = 1;
    assert_eq!(detect_format_by_header(&f), GameFormat::ZCode);
    f[0] = 8;
    assert_eq!(detect_format_by_header(&f), GameFormat::ZCode);
    let short = vec![1u8; 25];
    assert_eq!(detect_format_by_header(&short), GameFormat::Unknown);
    let long = vec![5u8; 4000];
    assert_eq!(detect_format_by_header(&long), GameFormat::ZCode);
}

#[test]
fn hugo_dashes() {
    assert_eq!(detect_format_by_header(b"abc-de-"), GameFormat::Hugo);
    assert_eq!(detect_format_by_header(b"abc-def"), GameFormat::Unknown);
    assert_eq!(detect_format_by_header(b"abcde-f"), GameFormat::Unknown);
    assert_eq!(detect_format_by_header(b"abc-de"), GameFormat::Unknown);
    // The version-byte rule comes first.
    let mut f = vec![0u8; 26];
    f[0] = 2;
    f[3] = b'-';
    f[6] = b'-';
    assert_eq!(detect_format_by_header(&f), GameFormat::ZCode);
    f[0] = b'x';
    assert_eq!(detect_format_by_header(&f), GameFormat::Hugo);
}

#[test]
fn empty_file_falls_back_to_extension() {
    assert_eq!(detect(b"", "game.z5"), GameFormat::ZCode);
    assert_eq!(detect(b"", "game.xyz"), GameFormat::Unknown);
    assert_eq!(detect(b"", "story.t3"), GameFormat::Tads);
}

#[test]
fn extension_case_is_ignored() {
    assert_eq!(detect_format_by_extension("GAME.ULX"), GameFormat::Glulx);
    assert_eq!(detect_format_by_extension("game.ulx"), GameFormat::Glulx);
    assert_eq!(detect_format_by_extension("Game.Ulx"), GameFormat::Glulx);
    assert_eq!(format_for_extension(b"SAGA"), GameFormat::Scott);
    assert_eq!(detect_format_by_extension("Some/Dir/GAME.ULX"), GameFormat::Glulx);
    assert_eq!(detect_format_by_extension("other/dir/game.ulx"), GameFormat::Glulx);
}

#[test]
fn extension_table_entries() {
    let cases: [(&str, GameFormat); 28] = [
        ("z1", GameFormat::ZCode),
        ("z2", GameFormat::ZCode),
        ("z3", GameFormat::ZCode),
        ("z4", GameFormat::ZCode),
        ("z5", GameFormat::ZCode),
        ("z6", GameFormat::ZCode),
        ("z7", GameFormat::ZCode),
        ("z8", GameFormat::ZCode),
        ("dat", GameFormat::ZCode),
        ("ulx", GameFormat::Glulx),
        ("gam", GameFormat::Tads),
        ("t3", GameFormat::Tads),
        ("hex", GameFormat::Hugo),
        ("agx", GameFormat::Agt),
        ("d$$", GameFormat::Agt),
        ("jacl", GameFormat::Jacl),
        ("j2", GameFormat::Jacl),
        ("l9", GameFormat::Level9),
        ("sna", GameFormat::Level9),
        ("mag", GameFormat::Magnetic),
        ("acd", GameFormat::Alan2),
        ("a3c", GameFormat::Alan3),
        ("taf", GameFormat::Adrift),
        ("baf", GameFormat::Adrift5),
        ("saga", GameFormat::Scott),
        ("plus", GameFormat::Plus),
        ("tay", GameFormat::Taylor),
        ("advs", GameFormat::Advsys),
    ];
    for (ext, format) in cases {
        let path = format!("dir/story.{}", ext);
        assert_eq!(detect_format_by_extension(&path), format, "{}", path);
    }
    assert_eq!(extension_mappings().len(), 28);
}

#[test]
fn extension_edge_cases() {
    assert_eq!(detect_format_by_extension("story"), GameFormat::Unknown);
    assert_eq!(detect_format_by_extension(""), GameFormat::Unknown);
    assert_eq!(detect_format_by_extension(".z5"), GameFormat::ZCode);
    assert_eq!(detect_format_by_extension("games/.Z5"), GameFormat::ZCode);
    assert_eq!(detect_format_by_extension("dir/game.ulx/"), GameFormat::Glulx);
    assert_eq!(detect_format_by_extension("dir/game.ulx//"), GameFormat::Glulx);
    assert_eq!(detect_format_by_extension("/"), GameFormat::Unknown);
    assert_eq!(detect_format_by_extension("."), GameFormat::Unknown);
    assert_eq!(detect_format_by_extension("story."), GameFormat::Unknown);
    assert_eq!(detect_format_by_extension("games.z5/story"), GameFormat::Unknown);
    assert_eq!(detect_format_by_extension("a/b.c/story.tar.z5"), GameFormat::ZCode);
    assert_eq!(detect_format_by_extension("/home/user/.hidden.hex"), GameFormat::Hugo);
    assert_eq!(detect_format_by_extension("story.z9"), GameFormat::Unknown);
    assert_eq!(detect_format_by_extension("story.z55"), GameFormat::Unknown);
}

#[test]
fn blorb_with_glulx_resource() {
    let f = blorb(b"Exec", 36, b"Glul rest of the story");
    assert_eq!(detect_format_by_header(&f), GameFormat::Glulx);
    assert_eq!(detect_format_by_blorb(&f), GameFormat::Glulx);
}

#[test]
fn blorb_with_upper_case_glulx_resource() {
    let f = blorb(b"Exec", 40, b"padsGLUL");
    assert_eq!(detect(&f, "story.gblorb"), GameFormat::Glulx);
}

#[test]
fn blorb_with_zcode_resource() {
    let f = blorb(b"Exec", 36, &[3, 0, 0, 0, 0, 0]);
    assert_eq!(detect_format_by_header(&f), GameFormat::ZCode);
}

#[test]
fn blorb_with_unrecognised_resource() {
    let f = blorb(b"Exec", 36, b"\x00abc");
    assert_eq!(detect_format_by_header(&f), GameFormat::ZCode);
}

#[test]
fn blorb_with_offset_past_the_end() {
    let f = blorb(b"Exec", 1000, b"Glul");
    assert_eq!(detect_format_by_header(&f), GameFormat::ZCode);
    let g = blorb(b"Exec", 38, b"Glu");
    assert_eq!(detect_format_by_header(&g), GameFormat::ZCode);
    let h = blorb(b"Exec", u32::MAX, b"Glul");
    assert_eq!(detect_format_by_header(&h), GameFormat::ZCode);
}

#[test]
fn blorb_without_exec_resource() {
    let f = blorb(b"Pict", 36, b"Glul");
    assert_eq!(detect_format_by_header(&f), GameFormat::ZCode);
    assert_eq!(detect(&f, "story.xyz"), GameFormat::ZCode);
}

#[test]
fn blorb_truncated_after_index() {
    let f = blorb(b"Exec", 36, b"");
    assert_eq!(detect_format_by_header(&f[..20]), GameFormat::ZCode);
    assert_eq!(detect_format_by_header(&f[..30]), GameFormat::ZCode);
    assert_eq!(detect_format_by_header(&f[..35]), GameFormat::ZCode);
}

#[test]
fn blorb_without_index_is_unknown() {
    let mut f = blorb(b"Exec", 36, b"Glul");
    f[12] = b'X';
    assert_eq!(detect_format_by_header(&f), GameFormat::Unknown);
    assert_eq!(detect(&f, "story.ulx"), GameFormat::Glulx);
    assert_eq!(detect_format_by_header(&f[..14]), GameFormat::Unknown);
    assert_eq!(detect_format_by_header(b"FORM\0\0\0\0IFRS"), GameFormat::Unknown);
}

#[test]
fn header_wins_over_extension() {
    let mut f = b"Glul".to_vec();
    f.extend(std::iter::repeat(0xAAu8).take(60));
    assert_eq!(detect(&f, "game.z5"), GameFormat::Glulx);
    assert_eq!(detect(&f, "story.bin"), GameFormat::Glulx);
}

#[test]
fn zcode_by_version_byte_with_dat_name() {
    let mut f = vec![0x55u8; 26];
    f[0] = 0x03;
    assert_eq!(detect(&f, "story.dat"), GameFormat::ZCode);
}

#[test]
fn unrecognised_bytes_and_name() {
    let f = b"\x7fELF\x02\x01\x01\x00\x00\x00";
    assert_eq!(detect(f, "story.xyz"), GameFormat::Unknown);
}

#[test]
fn signature_only_on_first_bytes() {
    assert_eq!(classify_signature(b"xGlul"), GameFormat::Unknown);
    assert!(occurs_in(b"xGlul", 1, b"Glul"));
    assert!(!occurs_in(b"xGlul", 2, b"Glul"));
    assert!(!occurs_in(b"Glu", 0, b"Glul"));
    assert!(occurs_in(b"abc", 3, b""));
    assert!(!occurs_in(b"abc", 4, b""));
    assert_eq!(magic_patterns().len(), 3);
    assert_eq!(magic_patterns()[1].pattern, b"TADS2 bin\x0A\x0D\x1A".to_vec());
}

#[test]
fn names_and_interpreters() {
    assert_eq!(GameFormat::Unknown.name(), "Unknown");
    assert_eq!(GameFormat::ZCode.name(), "Z-code");
    assert_eq!(GameFormat::Level9.name(), "Level 9");
    assert_eq!(GameFormat::Magnetic.name(), "Magnetic Scrolls");
    assert_eq!(GameFormat::Taylor.name(), "TaylorMade");
    assert_eq!(GameFormat::Unknown.interpreter(), None);
    assert_eq!(GameFormat::ZCode.interpreter(), Some("bocfel"));
    assert_eq!(GameFormat::Glulx.interpreter(), Some("git"));
    assert_eq!(GameFormat::Adrift.interpreter(), Some("scare"));
    assert_eq!(GameFormat::Adrift5.interpreter(), Some("scare"));
    assert_eq!(GameFormat::Agt.interpreter(), Some("agility"));
    assert!(GameFormat::Tads.flags().is_empty());
    assert!(GameFormat::Unknown.flags().is_empty());
}

#[test]
fn command_for_known_and_unknown() {
    let l = Launcher::new();
    assert_eq!(l.command_for(GameFormat::Unknown, "story.z5"), None);
    let (program, args) = l.command_for(GameFormat::Hugo, "games/story.hex").unwrap();
    assert_eq!(program, "hugo");
    assert_eq!(args, vec!["games/story.hex"]);
}
