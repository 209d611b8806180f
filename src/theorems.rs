//! Facts about detection as a whole, proved from the definitions that the
//! detectors' contracts use.
use vstd::prelude::*;

use crate::config::{magic_table, GameFormat};
use crate::detect::{
    container_format, exec_offset, exec_tag, extension_format, extension_of,
    extension_table_format, file_name_of, first_signature, form_tag, glul_tag, glul_upper_tag,
    header_format, header_of, ifrs_tag, is_container, last_pos, lemma_last_pos_bounds, trim_trailing_slashes,
    lower_byte, lower_bytes, occurs_at, ridx_tag,
};
use crate::launcher::detected_format;

verus! {

/// A file shorter than four bytes says nothing by its bytes: it is
/// classified by its extension alone.
pub proof fn short_file_goes_by_extension(file: Seq<u8>, path: Seq<u8>)
    requires
        file.len() < 4,
    ensures
        header_format(file) == GameFormat::Unknown,
        detected_format(file, path) == extension_format(path),
{
    assert(header_of(file) == file);
}

/// Once the bytes give a format, the extension is never consulted.
pub proof fn header_takes_precedence(file: Seq<u8>, path: Seq<u8>)
    requires
        header_format(file) != GameFormat::Unknown,
    ensures
        detected_format(file, path) == header_format(file),
{
}

/// Where the bytes give no format, the extension alone decides.
pub proof fn unknown_header_goes_by_extension(file: Seq<u8>, path: Seq<u8>)
    requires
        header_format(file) == GameFormat::Unknown,
    ensures
        detected_format(file, path) == extension_format(path),
{
}

proof fn header_is_prefix(file: Seq<u8>, n: int)
    requires
        0 <= n <= header_of(file).len(),
    ensures
        header_of(file).len() == if file.len() > 32 { 32 } else { file.len() },
        header_of(file).subrange(0, n) == file.subrange(0, n),
        forall|k: int| 0 <= k < header_of(file).len() ==> header_of(file)[k] == file[k],
{
    assert(header_of(file).subrange(0, n) =~= file.subrange(0, n));
}

/// A file that starts with a pattern of the signature table is of that
/// pattern's format, whatever follows.
pub proof fn signature_decides(file: Seq<u8>, i: int)
    requires
        0 <= i < magic_table().len(),
        occurs_at(file, 0, magic_table()[i].0),
    ensures
        header_format(file) == magic_table()[i].1,
{
    let t = magic_table();
    let h = header_of(file);
    let pat = t[i].0;
    header_is_prefix(file, 0);
    header_is_prefix(file, pat.len() as int);
    assert(occurs_at(h, 0, pat));
    assert(file[0] == file.subrange(0, pat.len() as int)[0]);
    assert(file[0] == pat[0]);
    assert(h[0] != 0x46u8);
    assert(!occurs_at(h, 0, form_tag())) by {
        if occurs_at(h, 0, form_tag()) {
            assert(h.subrange(0, 4)[0] == h[0]);
        }
    }
    reveal_with_fuel(first_signature, 4);
    if i == 2 {
        assert(file[4] == file.subrange(0, pat.len() as int)[4]);
        assert(file[4] == 0x33u8);
        assert(!occurs_at(h, 0, t[1].0)) by {
            if occurs_at(h, 0, t[1].0) {
                assert(h.subrange(0, 12)[4] == h[4]);
            }
        }
    }
    if i > 0 {
        assert(!occurs_at(h, 0, t[0].0)) by {
            if occurs_at(h, 0, t[0].0) {
                assert(h.subrange(0, 4)[0] == h[0]);
            }
        }
    }
}

/// With a version byte from 1 to 8 at its start, a file is Z-code by its
/// bytes exactly when it has at least 26 of them.
pub proof fn version_byte_needs_full_header(file: Seq<u8>)
    requires
        file.len() >= 1,
        1 <= file[0] <= 8,
    ensures
        header_format(file) == GameFormat::ZCode <==> file.len() >= 26,
{
    let h = header_of(file);
    header_is_prefix(file, 0);
    reveal_with_fuel(first_signature, 4);
    let t = magic_table();
    assert(!occurs_at(h, 0, form_tag())) by {
        if occurs_at(h, 0, form_tag()) {
            assert(h.subrange(0, 4)[0] == h[0]);
        }
    }
    assert forall|k: int| 0 <= k < 3 implies !occurs_at(h, 0, #[trigger] t[k].0) by {
        if occurs_at(h, 0, t[k].0) {
            assert(h.subrange(0, t[k].0.len() as int)[0] == h[0]);
        }
    }
}

/// A first byte of 0 or 9 never makes a file Z-code.
pub proof fn out_of_range_version_byte_is_not_zcode(file: Seq<u8>)
    requires
        file.len() >= 1,
        file[0] == 0 || file[0] == 9,
    ensures
        header_format(file) != GameFormat::ZCode,
{
    let h = header_of(file);
    header_is_prefix(file, 0);
    reveal_with_fuel(first_signature, 4);
    let t = magic_table();
    assert(!occurs_at(h, 0, form_tag())) by {
        if occurs_at(h, 0, form_tag()) {
            assert(h.subrange(0, 4)[0] == h[0]);
        }
    }
    assert forall|k: int| 0 <= k < 3 implies !occurs_at(h, 0, #[trigger] t[k].0) by {
        if occurs_at(h, 0, t[k].0) {
            assert(h.subrange(0, t[k].0.len() as int)[0] == h[0]);
        }
    }
}

/// A file of 7 to 25 bytes with a dash at index 3 is Hugo exactly when it
/// has a dash at index 6 too.
pub proof fn dashes_mark_hugo(file: Seq<u8>)
    requires
        7 <= file.len() < 26,
        file[3] == 0x2du8,
    ensures
        header_format(file) == GameFormat::Hugo <==> file[6] == 0x2du8,
{
    let h = header_of(file);
    header_is_prefix(file, 0);
    reveal_with_fuel(first_signature, 4);
    let t = magic_table();
    assert(!occurs_at(h, 0, form_tag())) by {
        if occurs_at(h, 0, form_tag()) {
            assert(h.subrange(0, 4)[3] == h[3]);
        }
    }
    assert forall|k: int| 0 <= k < 3 implies !occurs_at(h, 0, #[trigger] t[k].0) by {
        if occurs_at(h, 0, t[k].0) {
            assert(h.subrange(0, t[k].0.len() as int)[3] == h[3]);
        }
    }
}

proof fn container_header(file: Seq<u8>)
    requires
        occurs_at(file, 0, form_tag()),
        occurs_at(file, 8, ifrs_tag()),
    ensures
        is_container(header_of(file)),
        header_format(file) == container_format(file),
{
    let h = header_of(file);
    header_is_prefix(file, 12);
    assert(h.subrange(0, 4) =~= file.subrange(0, 4));
    assert(h.subrange(8, 12) =~= file.subrange(8, 12));
}

/// In a Blorb container whose first resource is executable, the data that
/// resource points to decides: "Glul" or "GLUL" make it Glulx; a version
/// byte, or an offset whose four bytes lie past the end, make it Z-code.
pub proof fn blorb_follows_exec_resource(file: Seq<u8>)
    requires
        file.len() >= 36,
        occurs_at(file, 0, form_tag()),
        occurs_at(file, 8, ifrs_tag()),
        occurs_at(file, 12, ridx_tag()),
        occurs_at(file, 24, exec_tag()),
    ensures
        occurs_at(file, exec_offset(file), glul_tag()) ==> header_format(file)
            == GameFormat::Glulx,
        occurs_at(file, exec_offset(file), glul_upper_tag()) ==> header_format(file)
            == GameFormat::Glulx,
        exec_offset(file) + 4 <= file.len() && 1 <= file[exec_offset(file)] <= 8
            ==> header_format(file) == GameFormat::ZCode,
        exec_offset(file) + 4 > file.len() ==> header_format(file) == GameFormat::ZCode,
{
    container_header(file);
    let off = exec_offset(file);
    if off + 4 <= file.len() && 1 <= file[off] <= 8 {
        if occurs_at(file, off, glul_tag()) {
            assert(file.subrange(off, off + 4)[0] == file[off]);
        }
        if occurs_at(file, off, glul_upper_tag()) {
            assert(file.subrange(off, off + 4)[0] == file[off]);
        }
    }
}

/// A Blorb container whose first resource is not executable is Z-code.
pub proof fn blorb_without_exec_is_zcode(file: Seq<u8>)
    requires
        occurs_at(file, 0, form_tag()),
        occurs_at(file, 8, ifrs_tag()),
        occurs_at(file, 12, ridx_tag()),
        !occurs_at(file, 24, exec_tag()),
    ensures
        header_format(file) == GameFormat::ZCode,
{
    container_header(file);
}

/// A Blorb container with a resource index is never `Unknown`.
pub proof fn indexed_blorb_is_known(file: Seq<u8>)
    requires
        occurs_at(file, 0, form_tag()),
        occurs_at(file, 8, ifrs_tag()),
        occurs_at(file, 12, ridx_tag()),
    ensures
        header_format(file) != GameFormat::Unknown,
{
    container_header(file);
}

proof fn last_pos_ignores_case(p: Seq<u8>, q: Seq<u8>, b: u8)
    requires
        lower_bytes(p) == lower_bytes(q),
        !(0x41 <= b <= 0x5a),
        !(0x61 <= b <= 0x7a),
    ensures
        p.len() == q.len(),
        last_pos(p, b) == last_pos(q, b),
    decreases p.len(),
{
    assert(p.len() == lower_bytes(p).len());
    assert(q.len() == lower_bytes(q).len());
    if p.len() > 0 {
        let n = p.len() - 1;
        assert(lower_bytes(p)[n] == lower_byte(p[n]));
        assert(lower_bytes(q)[n] == lower_byte(q[n]));
        assert(lower_bytes(p.drop_last()) =~= lower_bytes(p).drop_last());
        assert(lower_bytes(q.drop_last()) =~= lower_bytes(q).drop_last());
        last_pos_ignores_case(p.drop_last(), q.drop_last(), b);
    }
}

proof fn skip_ignores_case(p: Seq<u8>, q: Seq<u8>, k: int)
    requires
        lower_bytes(p) == lower_bytes(q),
        0 <= k <= p.len(),
    ensures
        lower_bytes(p.skip(k)) == lower_bytes(q.skip(k)),
{
    assert(p.len() == lower_bytes(p).len());
    assert(q.len() == lower_bytes(q).len());
    assert(lower_bytes(p.skip(k)) =~= lower_bytes(p).skip(k));
    assert(lower_bytes(q.skip(k)) =~= lower_bytes(q).skip(k));
}

/// The extension format depends on the final path component alone, and on
/// it only up to ASCII case: two paths whose final components differ at
/// most in the case of their letters, whatever their directories, have the
/// same extension format.
pub proof fn extension_follows_file_name(p: Seq<u8>, q: Seq<u8>)
    requires
        lower_bytes(file_name_of(p)) == lower_bytes(file_name_of(q)),
    ensures
        extension_format(p) == extension_format(q),
{
    let np = file_name_of(p);
    let nq = file_name_of(q);
    last_pos_ignores_case(np, nq, 0x2eu8);
    lemma_last_pos_bounds(np, 0x2eu8);
    let d = last_pos(np, 0x2eu8);
    if d >= 0 {
        skip_ignores_case(np, nq, d + 1);
        let ep = np.skip(d + 1);
        let eq = nq.skip(d + 1);
        assert(extension_of(p) == Some(ep));
        assert(extension_of(q) == Some(eq));
        assert(extension_table_format(ep) == extension_table_format(eq));
    }
}

proof fn trim_ignores_case(p: Seq<u8>, q: Seq<u8>)
    requires
        lower_bytes(p) == lower_bytes(q),
    ensures
        lower_bytes(trim_trailing_slashes(p)) == lower_bytes(trim_trailing_slashes(q)),
    decreases p.len(),
{
    assert(p.len() == lower_bytes(p).len());
    assert(q.len() == lower_bytes(q).len());
    if p.len() > 0 {
        let n = p.len() - 1;
        assert(lower_bytes(p)[n] == lower_byte(p[n]));
        assert(lower_bytes(q)[n] == lower_byte(q[n]));
        assert(lower_bytes(p.drop_last()) =~= lower_bytes(p).drop_last());
        assert(lower_bytes(q.drop_last()) =~= lower_bytes(q).drop_last());
        trim_ignores_case(p.drop_last(), q.drop_last());
    }
}

/// Two paths that differ only in the ASCII case of their letters have the
/// same extension format.
pub proof fn extension_ignores_case(p: Seq<u8>, q: Seq<u8>)
    requires
        lower_bytes(p) == lower_bytes(q),
    ensures
        extension_format(p) == extension_format(q),
{
    trim_ignores_case(p, q);
    let tp = trim_trailing_slashes(p);
    let tq = trim_trailing_slashes(q);
    last_pos_ignores_case(tp, tq, 0x2fu8);
    lemma_last_pos_bounds(tp, 0x2fu8);
    skip_ignores_case(tp, tq, last_pos(tp, 0x2fu8) + 1);
    extension_follows_file_name(p, q);
}

} // verus!
