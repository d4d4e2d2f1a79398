//! Files that belong to just-in-time compiled code.

use crate::object_file::{
    header_view, object_header, object_segments, object_symbols, parse_header, parse_section,
    parse_segments, parse_symbols, section_named, segments_view, symbols_view, ObjectHeader,
    ObjectHeaderView, Section, Segment, SegmentView, Symbol, SymbolView,
};
use crate::text::{
    concat, contains, decode, ends_with, file_name, file_name_of, occurs_in, starts_with,
};
use vstd::prelude::*;
use vstd::string::*;
use vstd::utf8::*;

verus! {

/// Whether a path names a JITDUMP file: its file name is `jit-*.dump`.
pub open spec fn is_jitdump_path(path: Seq<char>) -> bool {
    match file_name_of(path) {
        Some(name) => "jit-"@.is_prefix_of(name) && ".dump"@.is_suffix_of(name),
        None => false,
    }
}

/// The JITDUMP path that a byte string holds.
pub open spec fn jitdump_path(path: Seq<u8>) -> Option<Seq<char>> {
    if valid_utf8(path) && is_jitdump_path(decode_utf8(path)) {
        Some(decode_utf8(path))
    } else {
        None
    }
}

/// The path as a string, if it is the path of a JITDUMP file.
pub fn get_path_if_jitdump<'a>(path: &'a [u8]) -> (r: Option<&'a str>)
    ensures
        r is Some == jitdump_path(path@) is Some,
        r is Some ==> r->0@ == jitdump_path(path@)->0,
{
    let path = match decode(path) {
        Some(path) => path,
        None => return None,
    };
    let name = match file_name(path) {
        Some(name) => name,
        None => return None,
    };
    if starts_with(name, "jit-") && ends_with(name, ".dump") {
        Some(path)
    } else {
        None
    }
}

/// The name of the first code symbol, where there is one and its name can be read.
pub open spec fn first_code_symbol(symbols: Seq<SymbolView>) -> Option<Seq<char>>
    decreases symbols.len(),
{
    if symbols.len() == 0 {
        None
    } else if symbols[0].is_text {
        symbols[0].name
    } else {
        first_code_symbol(symbols.skip(1))
    }
}

/// Finds the name of the first code symbol.
pub fn first_text_symbol_name(symbols: &Vec<Symbol>) -> (r: Option<String>)
    ensures
        r is Some == first_code_symbol(symbols_view(symbols@)) is Some,
        r is Some ==> r->0@ == first_code_symbol(symbols_view(symbols@))->0,
{
    let ghost all = symbols_view(symbols@);
    let mut i: usize = 0;
    assert(all.skip(0) =~= all);
    while i < symbols.len()
        invariant
            i <= symbols.len(),
            all == symbols_view(symbols@),
            first_code_symbol(all.skip(i as int)) == first_code_symbol(all),
        decreases symbols.len() - i,
    {
        assert(all.skip(i as int)[0] == symbols@[i as int]@);
        assert(all.skip(i as int).skip(1) =~= all.skip(i + 1));
        if symbols[i].is_text {
            return match &symbols[i].name {
                Some(name) => Some(name.clone()),
                None => None,
            };
        }
        i += 1;
    }
    None
}

/// The function name of a JIT object file: that of its first code symbol.
pub fn jit_function_name(data: &[u8]) -> (r: Option<String>)
    ensures
        r is Some == first_code_symbol(object_symbols(data@)) is Some,
        r is Some ==> r->0@ == first_code_symbol(object_symbols(data@))->0,
{
    let symbols = parse_symbols(data);
    first_text_symbol_name(&symbols)
}

/// Whether a file name is one that `perf inject --jit` writes.
pub open spec fn is_injected_name(name: Seq<char>) -> bool {
    "jitted-"@.is_prefix_of(name) && ".so"@.is_suffix_of(name)
}

/// Whether a file name is one that `perf inject --jit` writes.
pub fn is_injected_jit_name(name: &str) -> (r: bool)
    ensures
        r == is_injected_name(name@),
{
    starts_with(name, "jitted-") && ends_with(name, ".so")
}

/// Whether a path may lead to a file that `perf inject --jit` wrote.
pub open spec fn is_injected_path(path: Seq<char>) -> bool {
    occurs_in("/jitted-"@, path) && ".so"@.is_suffix_of(path)
}

/// Whether an object file is one whose program header is off: an ELF file
/// whose first segment starts at file offset and address zero and whose
/// `.text` section has a file offset that differs from its address.
pub open spec fn has_bad_program_header(
    header: Option<ObjectHeaderView>,
    segments: Seq<SegmentView>,
    text: Option<Section>,
) -> bool {
    &&& header is Some
    &&& header->0.is_elf
    &&& segments.len() > 0
    &&& segments[0].address == 0
    &&& segments[0].file_range.start == 0
    &&& text is Some
    &&& text->0.file_range is Some
    &&& text->0.file_range->0.start != text->0.address
}

/// How to correct a file with a bad program header.
#[derive(Debug)]
pub struct JitFileFix {
    /// Whether the file is a 64 bit file.
    pub is_64: bool,
    /// Where the corrected file goes.
    pub fixed_path: String,
}

/// The path for the corrected version of a file.
pub open spec fn fixed_path(path: Seq<char>) -> Seq<char> {
    path.take(path.len() - 3) + "-fixed.so"@
}

/// Decides from the parts of an object file whether it has the bad program
/// header of certain perf versions, and how to correct it.
pub fn bad_perf_jit_fix(
    header: &Option<ObjectHeader>,
    segments: &Vec<Segment>,
    text: Option<Section>,
    path: &str,
) -> (r: Option<JitFileFix>)
    ensures
        r is Some == (is_injected_path(path@) && has_bad_program_header(
            header_view(*header),
            segments_view(segments@),
            text,
        )),
        r is Some ==> r->0.is_64 == header->0.is_64 && r->0.fixed_path@ == fixed_path(path@),
{
    if !contains(path, "/jitted-") || !ends_with(path, ".so") {
        return None;
    }
    let header = match header {
        Some(header) => header,
        None => return None,
    };
    if !header.is_elf {
        return None;
    }
    // The bad files have exactly one segment, with offset and address zero.
    if segments.len() == 0 {
        return None;
    }
    assert(segments_view(segments@)[0] == segments@[0]@);
    if segments[0].address != 0 || segments[0].file_range.start != 0 {
        return None;
    }
    // The bad files have a .text section whose offset and address differ.
    let text = match text {
        Some(text) => text,
        None => return None,
    };
    match text.file_range {
        Some(range) => {
            if range.start == text.address {
                return None;
            }
        },
        None => return None,
    }
    let n: usize = path.unicode_len();
    proof {
        reveal_strlit(".so");
    }
    let stem = path.substring_char(0, n - 3);
    assert(stem@ =~= path@.take(path@.len() - 3));
    Some(JitFileFix { is_64: header.is_64, fixed_path: concat(stem, "-fixed.so") })
}

/// Whether a file with the given path and contents is to be corrected.
pub open spec fn is_bad_perf_jit_file(data: Seq<u8>, path: Seq<char>) -> bool {
    is_injected_path(path) && has_bad_program_header(
        object_header(data),
        object_segments(data),
        section_named(data, ".text"@),
    )
}

/// Finds out whether an object file is an unusable `.so` file from certain
/// versions of perf, which create ELF program headers but fail to adjust
/// addresses by the program header size.
///
/// Such a file is to be replaced by one without the program header, so that
/// the mapping refers to the location of its `.text` section. The result says
/// how; the files of other origin need no correction.
pub fn correct_bad_perf_jit_so_file(data: &[u8], path: &str) -> (r: Option<JitFileFix>)
    ensures
        r is Some == is_bad_perf_jit_file(data@, path@),
        r is Some ==> r->0.is_64 == object_header(data@)->0.is_64 && r->0.fixed_path@
            == fixed_path(path@),
{
    if !contains(path, "/jitted-") || !ends_with(path, ".so") {
        return None;
    }
    let header = parse_header(data);
    let segments = parse_segments(data);
    let text = parse_section(data, ".text");
    bad_perf_jit_fix(&header, &segments, text, path)
}

/// A file without segments is not corrected, whatever its path. A corrected
/// file has no program header, and so it is not corrected again.
pub proof fn law_file_without_segments_is_not_corrected(data: Seq<u8>, path: Seq<char>)
    requires
        object_segments(data).len() == 0,
    ensures
        !is_bad_perf_jit_file(data, path),
{
}

} // verus!
