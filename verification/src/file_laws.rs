//! What is read out of object files, in terms of what the files hold.

use crate::converter::ConverterView;
use crate::jit::{
    first_code_symbol, fixed_path, is_bad_perf_jit_file, is_injected_name,
};
use crate::mappings::UserModuleView;
use crate::modules::{
    are_module_facts, module_facts, module_layout, text_place, text_segment, text_source_of,
    unwinding_too_large, unwinding_unbounded, ModuleFactsView, TextPlace,
};
use crate::object_file::{
    object_header, object_segments, object_symbols, section_bytes, section_named, section_packed,
    section_packing, section_unpacked, segment_bytes, too_large_to_unpack, unbounded_to_unpack,
    unpacks_to, SectionPacking, SegmentView, SymbolView, Unpacked,
};
use crate::text_laws::law_parts_occur;
use crate::user_modules::{FileInfo, ModuleOutcomeView};
use crate::zstd::{
    block_at, block_contents, frame_header_len, literals_header_len, literals_len,
    stated_sequences, zstd_blocks_fit,
};
use vstd::prelude::*;

verus! {

/// The names that `perf inject --jit` gives to files start with `jitted-` and
/// end with `.so`, and no others do.
pub proof fn law_injected_files_are_told_by_their_names(name: Seq<char>, middle: Seq<char>)
    ensures
        name == seq!['j', 'i', 't', 't', 'e', 'd', '-'] + middle + seq!['.', 's', 'o']
            ==> is_injected_name(name),
        is_injected_name(name) ==> name.len() >= 7 && name.take(7) == seq![
            'j',
            'i',
            't',
            't',
            'e',
            'd',
            '-',
        ] && name.skip(name.len() - 3) == seq!['.', 's', 'o'],
{
    reveal_strlit("jitted-");
    reveal_strlit(".so");
    assert("jitted-"@ =~= seq!['j', 'i', 't', 't', 'e', 'd', '-']);
    assert(".so"@ =~= seq!['.', 's', 'o']);
    if name == seq!['j', 'i', 't', 't', 'e', 'd', '-'] + middle + seq!['.', 's', 'o'] {
        assert(name.take(7) =~= "jitted-"@);
        assert(name.skip(name.len() - 3) =~= ".so"@);
        assert("jitted-"@.is_prefix_of(name));
        assert(".so"@.is_suffix_of(name));
    }
    if is_injected_name(name) {
        assert(name.take(7) =~= "jitted-"@);
        assert(name.skip(name.len() - 3) =~= ".so"@);
    }
}

/// The function of a JIT file is named by the first symbol that is code,
/// whatever other symbols come before it; without one it has no name.
pub proof fn law_first_code_symbol_names_the_function(symbols: Seq<SymbolView>, at: int)
    ensures
        0 <= at < symbols.len() && symbols[at].is_text && (forall|i: int|
            0 <= i < at ==> !(#[trigger] symbols[i]).is_text) ==> first_code_symbol(symbols)
            == symbols[at].name,
        (forall|i: int| 0 <= i < symbols.len() ==> !(#[trigger] symbols[i]).is_text)
            ==> first_code_symbol(symbols) is None,
    decreases symbols.len(),
{
    if symbols.len() > 0 && !symbols[0].is_text {
        let rest = symbols.skip(1);
        law_first_code_symbol_names_the_function(rest, at - 1);
        assert forall|i: int| 0 <= i < rest.len() implies #[trigger] rest[i] == symbols[i + 1] by {}
    }
}

/// A file is corrected if it lies where `perf inject --jit` puts its files, is
/// an ELF file with a first segment at file offset and address zero, and its
/// code stands elsewhere in the file than its address says. All of this is
/// needed.
pub proof fn law_bad_jit_files_are_corrected(
    data: Seq<u8>,
    dir: Seq<char>,
    name: Seq<char>,
)
    ensures
        ({
            let path = dir + "/jitted-"@ + name + ".so"@;
            let text = section_named(data, ".text"@);
            is_bad_perf_jit_file(data, path) <==> {
                &&& object_header(data) is Some
                &&& object_header(data)->0.is_elf
                &&& object_segments(data).len() > 0
                &&& object_segments(data)[0].address == 0
                &&& object_segments(data)[0].file_range.start == 0
                &&& text is Some
                &&& text->0.file_range is Some
                &&& text->0.file_range->0.start != text->0.address
            }
        }),
{
    let path = dir + "/jitted-"@ + name + ".so"@;
    law_parts_occur(dir, "/jitted-"@, name + ".so"@, path);
    assert(path =~= dir + "/jitted-"@ + (name + ".so"@));
    assert(path.skip(path.len() - ".so"@.len()) =~= ".so"@);
    assert(".so"@.is_suffix_of(path));
}

/// A file anywhere else, or of another kind, is never corrected.
pub proof fn law_other_files_are_not_corrected(data: Seq<u8>, path: Seq<char>)
    requires
        is_bad_perf_jit_file(data, path),
    ensures
        path.len() >= 3,
        path.skip(path.len() - 3) == seq!['.', 's', 'o'],
        exists|i: int|
            0 <= i <= path.len() - 8 && #[trigger] path.subrange(i, i + 8) == seq![
                '/',
                'j',
                'i',
                't',
                't',
                'e',
                'd',
                '-',
            ],
        object_header(data) is Some && object_header(data)->0.is_elf,
{
    reveal_strlit("/jitted-");
    reveal_strlit(".so");
    let part = seq!['/', 'j', 'i', 't', 't', 'e', 'd', '-'];
    assert("/jitted-"@ =~= part);
    assert(".so"@ =~= seq!['.', 's', 'o']);
    assert(path.skip(path.len() - 3) =~= ".so"@);
    law_parts_occur(Seq::empty(), "/jitted-"@, Seq::empty(), path);
    let i = choose|i: int|
        0 <= i <= path.len() - part.len() && #[trigger] path.subrange(i, i + part.len()) == part;
    assert(path.subrange(i, i + 8) == part);
}

/// The corrected version of a file stands next to it, under a name of its own.
pub proof fn law_corrected_file_stands_next_to_the_file(stem: Seq<char>)
    ensures
        fixed_path(stem + seq!['.', 's', 'o']) == stem + "-fixed.so"@,
        fixed_path(stem + seq!['.', 's', 'o']) != stem + seq!['.', 's', 'o'],
{
    let path = stem + seq!['.', 's', 'o'];
    assert(path.take(path.len() - 3) =~= stem);
    reveal_strlit("-fixed.so");
    assert(fixed_path(path).len() != path.len());
}

/// The six letters of the name of a Mach-O file's code segment.
pub open spec fn is_text_name(name: Option<Seq<u8>>) -> bool {
    name is Some && name->0 == seq![0x5fu8, 0x5f, 0x54, 0x45, 0x58, 0x54]
}

proof fn lemma_text_segment(segments: Seq<SegmentView>, at: int)
    ensures
        0 <= at < segments.len() && is_text_name(segments[at].name) && (forall|i: int|
            0 <= i < at ==> !is_text_name((#[trigger] segments[i]).name)) ==> text_segment(segments)
            == at,
        (forall|i: int| 0 <= i < segments.len() ==> !is_text_name((#[trigger] segments[i]).name))
            ==> text_segment(segments) == segments.len(),
    decreases segments.len(),
{
    if segments.len() > 0 && !is_text_name(segments[0].name) {
        let rest = segments.skip(1);
        lemma_text_segment(rest, at - 1);
        assert forall|i: int| 0 <= i < rest.len() implies #[trigger] rest[i] == segments[i
            + 1] by {}
    }
}

/// The code of a file is its first `__TEXT` segment, with the place and the
/// bytes of that very segment.
pub proof fn law_code_is_the_first_text_segment(data: Seq<u8>, at: int)
    requires
        0 <= at < object_segments(data).len(),
        at <= usize::MAX,
        is_text_name(object_segments(data)[at].name),
        forall|i: int| 0 <= i < at ==> !is_text_name((#[trigger] object_segments(data)[i]).name),
    ensures
        text_source_of(data) is Some,
        text_source_of(data)->0.range == object_segments(data)[at].file_range,
        text_source_of(data)->0.data == segment_bytes(data, at as nat),
        text_place(object_segments(data), section_named(data, ".text"@)) == Some(
            TextPlace::Segment {
                index: at as usize,
                range: object_segments(data)[at].file_range,
            },
        ),
{
    lemma_text_segment(object_segments(data), at);
}

/// The code of a file without a `__TEXT` segment is its `.text` section, if
/// that is part of the file.
pub proof fn law_code_is_the_text_section_otherwise(data: Seq<u8>)
    requires
        forall|i: int|
            0 <= i < object_segments(data).len() ==> !is_text_name(
                (#[trigger] object_segments(data)[i]).name,
            ),
    ensures
        ({
            let text = section_named(data, ".text"@);
            match text_source_of(data) {
                Some(source) => {
                    &&& text is Some
                    &&& text->0.file_range == Some(source.range)
                    &&& source.data == section_bytes(data, ".text"@)
                },
                None => text is None || text->0.file_range is None,
            }
        }),
{
    lemma_text_segment(object_segments(data), 0);
}

/// What is known of an object file are the sections of the respective names and
/// the unwinding information that the respective sections unpack to.
pub proof fn law_facts_are_those_of_the_named_sections(data: Seq<u8>, facts: ModuleFactsView)
    requires
        are_module_facts(data, facts),
    ensures
        object_header(data) is Some,
        facts.build_id == object_header(data)->0.build_id,
        facts.text == section_named(data, ".text"@),
        facts.text_env == section_named(data, "text_env"@),
        facts.eh_frame == section_named(data, ".eh_frame"@),
        facts.eh_frame_hdr == section_named(data, ".eh_frame_hdr"@),
        facts.got == section_named(data, ".got"@),
        facts.text_source == text_source_of(data),
        unpacks_to(data, ".eh_frame"@, facts.eh_frame_data),
        unpacks_to(data, ".eh_frame_hdr"@, facts.eh_frame_hdr_data),
{
}

/// Unwinding information that was unpacked elsewhere is taken as it is.
pub proof fn law_given_unwinding_information_is_taken(
    data: Seq<u8>,
    eh_frame_data: Option<Seq<u8>>,
    eh_frame_hdr_data: Option<Seq<u8>>,
    facts: ModuleFactsView,
)
    ensures
        module_facts(data, eh_frame_data, eh_frame_hdr_data) is Some <==> object_header(data)
            is Some,
        object_header(data) is Some ==> {
            let given = module_facts(data, eh_frame_data, eh_frame_hdr_data)->0;
            &&& given.eh_frame_data == eh_frame_data
            &&& given.eh_frame_hdr_data == eh_frame_hdr_data
            &&& are_module_facts(data, facts) ==> given == (ModuleFactsView {
                eh_frame_data,
                eh_frame_hdr_data,
                ..facts
            })
        },
{
    if are_module_facts(data, facts) && object_header(data) is Some {
        let given = module_facts(data, eh_frame_data, eh_frame_hdr_data)->0;
        assert(given =~= ModuleFactsView { eh_frame_data, eh_frame_hdr_data, ..facts });
    }
}

/// Whether a file with the given contents is the mapped one and can be placed.
pub open spec fn belongs(
    state: ConverterView,
    module: UserModuleView,
    info: FileInfo,
    data: Seq<u8>,
) -> bool {
    &&& object_header(data) is Some
    &&& module.build_id is None || module.build_id == object_header(data)->0.build_id
    &&& state.base_avma(module, info) is Some
}

/// A file is added by what its contents say of it, and its first code symbol
/// is the name of its function. One whose unwinding information cannot be
/// unpacked is not added, which is said; one that does not belong is left
/// alone.
pub proof fn law_file_is_added_by_its_contents(
    state: ConverterView,
    module: UserModuleView,
    info: FileInfo,
    data: Seq<u8>,
    facts: ModuleFactsView,
    outcome: ModuleOutcomeView,
)
    requires
        state.recording.processes.dom().contains(module.pid),
        state.is_file_outcome(module, info, data, outcome),
    ensures
        !belongs(state, module, info, data) ==> outcome is Done && state.with_file(
            module,
            info,
            data,
        ) == state,
        belongs(state, module, info, data) ==> {
            let is_large = too_large_to_unpack(data, ".eh_frame"@) || too_large_to_unpack(
                data,
                ".eh_frame_hdr"@,
            );
            let is_unbounded = unbounded_to_unpack(data, ".eh_frame"@) || unbounded_to_unpack(
                data,
                ".eh_frame_hdr"@,
            );
            &&& outcome is TooLarge <==> is_large
            &&& outcome is Unpack <==> !is_large && is_unbounded
            &&& is_large || is_unbounded ==> state.with_file(module, info, data) == state
            &&& !is_large && !is_unbounded && are_module_facts(data, facts) ==> state.with_file(
                module,
                info,
                data,
            ) == state.with_module(
                module,
                info,
                Some(facts),
                first_code_symbol(object_symbols(data)),
            )
            &&& !is_large && !is_unbounded ==> exists|told: ModuleFactsView| #[trigger]
                are_module_facts(data, told) && outcome == state.module_outcome(
                    module,
                    info,
                    Some(told),
                )
        },
{
    assert(state.is_placed(module, info, module_layout(data)) <==> belongs(
        state,
        module,
        info,
        data,
    ));
    let symbol = first_code_symbol(object_symbols(data));
    if !belongs(state, module, info, data) || unwinding_too_large(data) || unwinding_unbounded(
        data,
    ) {
        assert(state.with_file(module, info, data) =~= state);
    }
}

/// Contents that are not compressed, and those of Zstandard streams, count in
/// full; those of a zlib stream up to the stated size.
pub proof fn law_contents_count_up_to_the_stated_size(packing: SectionPacking, bytes: Seq<u8>)
    ensures
        !(packing.format is Zlib) ==> packing.kept(bytes) == bytes,
        packing.format is Zlib && bytes.len() <= packing.unpacked_size ==> packing.kept(bytes)
            == bytes,
        packing.format is Zlib && bytes.len() > packing.unpacked_size ==> packing.kept(bytes)
            == bytes.take(packing.unpacked_size as int),
{
}

/// A section is unpacked if it is there and its stated size can be counted.
/// The sizes for which no buffer can be made are those between the largest
/// buffer and the largest count.
pub proof fn law_sections_are_unpacked_within_the_limits(
    data: Seq<u8>,
    name: Seq<char>,
    r: Option<Seq<u8>>,
)
    ensures
        section_packing(data, name) is None ==> !too_large_to_unpack(data, name)
            && !unbounded_to_unpack(data, name) && (unpacks_to(data, name, r) <==> r is None),
        section_packing(data, name) is Some ==> {
            let packing = section_packing(data, name)->0;
            let is_packed = packing.format is Zlib || packing.format is Zstandard;
            &&& too_large_to_unpack(data, name) <==> is_packed && isize::MAX < packing.unpacked_size
                <= usize::MAX
            &&& is_packed && packing.unpacked_size > usize::MAX ==> (unpacks_to(data, name, r)
                <==> r is None)
            &&& unbounded_to_unpack(data, name) <==> {
                &&& packing.format is Zstandard
                &&& packing.unpacked_size <= isize::MAX
                &&& section_packed(data, name) is Some
                &&& !zstd_blocks_fit(section_packed(data, name)->0)
            }
            &&& !is_packed || (packing.format is Zlib && packing.unpacked_size <= isize::MAX) ==> {
                unpacks_to(data, name, r) <==> match section_unpacked(data, name) {
                    Unpacked::Fails => r is None,
                    Unpacked::Bytes(bytes) => r == Some(bytes),
                    Unpacked::BytesOrFails(bytes) => r is None || r == Some(bytes),
                }
            }
            &&& packing.format is Zstandard && packing.unpacked_size <= isize::MAX
                && section_packed(data, name) is Some ==> {
                unpacks_to(data, name, r) <==> match section_unpacked(data, name) {
                    Unpacked::Fails => r is None,
                    Unpacked::Bytes(bytes) => r == Some(bytes),
                    Unpacked::BytesOrFails(bytes) => r is None || r == Some(bytes),
                }
            }
        },
{
}

/// What does not start like a Zstandard stream is not too much to unpack, since
/// nothing of it is unpacked.
pub proof fn law_other_streams_give_nothing(packed: Seq<u8>)
    requires
        packed.len() < 5 || packed.take(4) != seq![0x28u8, 0xb5, 0x2f, 0xfd],
    ensures
        zstd_blocks_fit(packed),
{
    if packed.len() >= 5 {
        let a = packed[0] as int;
        let b = packed[1] as int;
        let c = packed[2] as int;
        let d = packed[3] as int;
        if a + 0x100 * b + 0x1_0000 * c + 0x100_0000 * d == 0xfd2f_b528 {
            assert(d == 0xfd && c == 0x2f && b == 0xb5 && a == 0x28);
            assert(packed.take(4) =~= seq![0x28u8, 0xb5, 0x2f, 0xfd]);
        }
    }
}

/// The bytes of a number, the lowest one first.
pub open spec fn low_byte(n: int, index: nat) -> u8
    decreases index,
{
    if index == 0 {
        (n % 256) as u8
    } else {
        low_byte(n / 256, (index - 1) as nat)
    }
}

/// Whether a block states the number of sequences that three bytes in front of
/// its rest give, in one, two or all three of them.
pub open spec fn states_sequences(
    block: Seq<u8>,
    first: u8,
    second: u8,
    third: u8,
    rest: Seq<u8>,
) -> bool {
    &&& first < 128 ==> stated_sequences(block) == first
    &&& 128 <= first < 255 ==> stated_sequences(block) == (first - 128) * 256 + second
    &&& first == 255 && rest.len() > 0 ==> stated_sequences(block) == second + 256 * third + 0x7f00
}

/// The first bytes of a number, the lowest one first.
pub open spec fn low_bytes(n: int, len: nat) -> Seq<u8> {
    Seq::new(len, |i: int| low_byte(n, i as nat))
}

proof fn lemma_states_sequences(
    header: Seq<u8>,
    literals: Seq<u8>,
    first: u8,
    second: u8,
    third: u8,
    rest: Seq<u8>,
)
    requires
        ({
            let block = header + literals + seq![first, second, third] + rest;
            &&& header.len() > 0
            &&& literals_header_len(header[0] as int) == header.len()
            &&& literals_len(block) == literals.len()
        }),
    ensures
        states_sequences(
            header + literals + seq![first, second, third] + rest,
            first,
            second,
            third,
            rest,
        ),
{
    let block = header + literals + seq![first, second, third] + rest;
    let at = (header.len() + literals.len()) as int;
    assert(block[0] == header[0]);
    assert(block[at] == first);
    assert(block[at + 1] == second);
    assert(block[at + 2] == third);
}

/// The number of sequences of a block stands behind its literals, in one, two
/// or three bytes. Literals that are stored as they are have their length in
/// front, in five, twelve or twenty bits.
pub proof fn law_sequences_are_stated_behind_stored_literals(
    literals: Seq<u8>,
    first: u8,
    second: u8,
    third: u8,
    rest: Seq<u8>,
)
    ensures
        ({
            let n = literals.len() as int;
            let tail = seq![first, second, third];
            &&& n < 32 ==> states_sequences(
                low_bytes(8 * n, 1) + literals + tail + rest,
                first,
                second,
                third,
                rest,
            )
            &&& n < 4096 ==> states_sequences(
                low_bytes(16 * n + 4, 2) + literals + tail + rest,
                first,
                second,
                third,
                rest,
            )
            &&& n < 0x10_0000 ==> states_sequences(
                low_bytes(16 * n + 12, 3) + literals + tail + rest,
                first,
                second,
                third,
                rest,
            )
        }),
{
    reveal_with_fuel(low_byte, 4);
    let n = literals.len() as int;
    if n < 32 {
        let header = low_bytes(8 * n, 1);
        assert(header[0] == 8 * n);
        assert((8 * n) % 4 == 0 && (8 * n) / 8 == n);
        assert(((8 * n) / 4) % 4 == 0 || ((8 * n) / 4) % 4 == 2);
        let block = header + literals + seq![first, second, third] + rest;
        assert(block[0] == header[0]);
        lemma_states_sequences(header, literals, first, second, third, rest);
    }
    if n < 4096 {
        let h = 16 * n + 4;
        let header = low_bytes(h, 2);
        assert(header[0] == h % 256 && header[1] == (h / 256) % 256);
        assert((h % 256) % 4 == 0 && ((h % 256) / 4) % 4 == 1);
        assert((h % 256) / 16 + 16 * (h / 256) == n);
        let block = header + literals + seq![first, second, third] + rest;
        assert(block[0] == header[0] && block[1] == header[1]);
        lemma_states_sequences(header, literals, first, second, third, rest);
    }
    if n < 0x10_0000 {
        let h = 16 * n + 12;
        let header = low_bytes(h, 3);
        assert(header[0] == h % 256 && header[1] == (h / 256) % 256 && header[2] == (h / 256 / 256)
            % 256);
        assert((h % 256) % 4 == 0 && ((h % 256) / 4) % 4 == 3);
        assert((h % 256) / 16 + 16 * ((h / 256) % 256) + 4096 * (h / 256 / 256) == n);
        let block = header + literals + seq![first, second, third] + rest;
        assert(block[0] == header[0] && block[1] == header[1] && block[2] == header[2]);
        lemma_states_sequences(header, literals, first, second, third, rest);
    }
}

/// Literals that repeat one byte take up that byte, whatever their number.
pub proof fn law_sequences_are_stated_behind_repeated_literals(
    number: int,
    literal: u8,
    first: u8,
    second: u8,
    third: u8,
    rest: Seq<u8>,
)
    ensures
        ({
            let tail = seq![first, second, third];
            &&& 0 <= number < 32 ==> states_sequences(
                low_bytes(8 * number + 1, 1) + seq![literal] + tail + rest,
                first,
                second,
                third,
                rest,
            )
            &&& 0 <= number < 4096 ==> states_sequences(
                low_bytes(16 * number + 5, 2) + seq![literal] + tail + rest,
                first,
                second,
                third,
                rest,
            )
            &&& 0 <= number < 0x10_0000 ==> states_sequences(
                low_bytes(16 * number + 13, 3) + seq![literal] + tail + rest,
                first,
                second,
                third,
                rest,
            )
        }),
{
    reveal_with_fuel(low_byte, 4);
    if 0 <= number < 32 {
        let h = 8 * number + 1;
        let header = low_bytes(h, 1);
        assert(header[0] == h);
        assert(h % 4 == 1 && ((h / 4) % 4 == 0 || (h / 4) % 4 == 2));
        let block = header + seq![literal] + seq![first, second, third] + rest;
        assert(block[0] == header[0]);
        lemma_states_sequences(header, seq![literal], first, second, third, rest);
    }
    if 0 <= number < 4096 {
        let h = 16 * number + 5;
        let header = low_bytes(h, 2);
        assert(header[0] == h % 256);
        assert((h % 256) % 4 == 1 && ((h % 256) / 4) % 4 == 1);
        let block = header + seq![literal] + seq![first, second, third] + rest;
        assert(block[0] == header[0]);
        lemma_states_sequences(header, seq![literal], first, second, third, rest);
    }
    if 0 <= number < 0x10_0000 {
        let h = 16 * number + 13;
        let header = low_bytes(h, 3);
        assert(header[0] == h % 256);
        assert((h % 256) % 4 == 1 && ((h % 256) / 4) % 4 == 3);
        let block = header + seq![literal] + seq![first, second, third] + rest;
        assert(block[0] == header[0]);
        lemma_states_sequences(header, seq![literal], first, second, third, rest);
    }
}

proof fn lemma_packed_length_of_ten_bits(h: int, n: int, low: int, kind: int, format: int)
    requires
        h == 0x4000 * n + 16 * low + 4 * format + kind,
        0 <= n < 1024,
        0 <= low < 1024,
        0 <= format < 4,
        0 <= kind < 4,
    ensures
        (h % 256) % 4 == kind,
        ((h % 256) / 4) % 4 == format,
        ((h / 256) % 256) / 64 + 4 * ((h / 256 / 256) % 256) == n,
{
    let x = h / 256;
    assert(x / 64 == n);
    assert((x % 256) / 64 + 4 * (x / 256) == x / 64);
}

proof fn lemma_packed_length_of_fourteen_bits(h: int, n: int, low: int, kind: int)
    requires
        h == 0x4_0000 * n + 16 * low + 8 + kind,
        0 <= n < 0x4000,
        0 <= low < 0x4000,
        0 <= kind < 4,
    ensures
        (h % 256) % 4 == kind,
        ((h % 256) / 4) % 4 == 2,
        ((h / 256 / 256) % 256) / 4 + 64 * ((h / 256 / 256 / 256) % 256) == n,
{
    let x = h / 256 / 256;
    assert(x / 4 == n);
    assert((x % 256) / 4 + 64 * (x / 256) == x / 4);
}

proof fn lemma_packed_length_of_eighteen_bits(h: int, n: int, low: int, kind: int)
    requires
        h == 0x40_0000 * n + 16 * low + 12 + kind,
        0 <= n < 0x4_0000,
        0 <= low < 0x4_0000,
        0 <= kind < 4,
    ensures
        (h % 256) % 4 == kind,
        ((h % 256) / 4) % 4 == 3,
        ((h / 256 / 256) % 256) / 64 + 4 * ((h / 256 / 256 / 256) % 256) + 1024 * ((h / 256 / 256
            / 256 / 256) % 256) == n,
{
    let x = h / 256 / 256;
    assert(x / 64 == n);
    let y = x / 256;
    let z = y / 256;
    assert(0 <= z < 256);
    assert(y == 256 * z + y % 256);
    assert(x == 256 * y + x % 256);
    assert(x / 64 == 4 * y + (x % 256) / 64);
}

/// Compressed literals have their unpacked and their packed length in front, in
/// ten, fourteen or eighteen bits each, and take up the packed one.
pub proof fn law_sequences_are_stated_behind_compressed_literals(
    kind: int,
    format: int,
    unpacked: int,
    literals: Seq<u8>,
    first: u8,
    second: u8,
    third: u8,
    rest: Seq<u8>,
)
    requires
        kind == 2 || kind == 3,
        format == 0 || format == 1,
        unpacked >= 0,
    ensures
        ({
            let n = literals.len() as int;
            let tail = seq![first, second, third];
            &&& n < 1024 && unpacked < 1024 ==> states_sequences(
                low_bytes(0x4000 * n + 16 * unpacked + 4 * format + kind, 3) + literals + tail
                    + rest,
                first,
                second,
                third,
                rest,
            )
            &&& n < 0x4000 && unpacked < 0x4000 ==> states_sequences(
                low_bytes(0x4_0000 * n + 16 * unpacked + 8 + kind, 4) + literals + tail + rest,
                first,
                second,
                third,
                rest,
            )
            &&& n < 0x4_0000 && unpacked < 0x4_0000 ==> states_sequences(
                low_bytes(0x40_0000 * n + 16 * unpacked + 12 + kind, 5) + literals + tail + rest,
                first,
                second,
                third,
                rest,
            )
        }),
{
    reveal_with_fuel(low_byte, 6);
    let n = literals.len() as int;
    let tail = seq![first, second, third];
    if n < 1024 && unpacked < 1024 {
        let h = 0x4000 * n + 16 * unpacked + 4 * format + kind;
        lemma_packed_length_of_ten_bits(h, n, unpacked, kind, format);
        let header = low_bytes(h, 3);
        let block = header + literals + tail + rest;
        assert(block[0] == header[0] && block[1] == header[1] && block[2] == header[2]);
        lemma_states_sequences(header, literals, first, second, third, rest);
    }
    if n < 0x4000 && unpacked < 0x4000 {
        let h = 0x4_0000 * n + 16 * unpacked + 8 + kind;
        lemma_packed_length_of_fourteen_bits(h, n, unpacked, kind);
        let header = low_bytes(h, 4);
        let block = header + literals + tail + rest;
        assert(block[0] == header[0] && block[2] == header[2] && block[3] == header[3]);
        lemma_states_sequences(header, literals, first, second, third, rest);
    }
    if n < 0x4_0000 && unpacked < 0x4_0000 {
        let h = 0x40_0000 * n + 16 * unpacked + 12 + kind;
        lemma_packed_length_of_eighteen_bits(h, n, unpacked, kind);
        let header = low_bytes(h, 5);
        let block = header + literals + tail + rest;
        assert(block[0] == header[0] && block[2] == header[2] && block[3] == header[3] && block[4]
            == header[4]);
        lemma_states_sequences(header, literals, first, second, third, rest);
    }
}

/// A stream of one compressed block fits unless the block is long and has many
/// sequences, or could unpack to more than a quarter of the largest buffer.
pub proof fn law_long_blocks_of_many_sequences_do_not_fit(window: u8, contents: Seq<u8>)
    requires
        contents.len() <= 131_072,
    ensures
        ({
            let header = 8 * contents.len() as int + 4 + 1;
            let packed = seq![0x28u8, 0xb5, 0x2f, 0xfd, 0, window] + seq![
                low_byte(header, 0),
                low_byte(header, 1),
                low_byte(header, 2),
            ] + contents;
            zstd_blocks_fit(packed) <==> {
                &&& contents.len() < 65_400 || stated_sequences(contents) <= 32_700
                &&& stated_sequences(contents) * 131_074 + 1_048_575 <= isize::MAX / 4
            }
        }),
{
    reveal_with_fuel(low_byte, 3);
    let n = contents.len() as int;
    let header = 8 * n + 5;
    let packed = seq![0x28u8, 0xb5, 0x2f, 0xfd, 0, window] + seq![
        low_byte(header, 0),
        low_byte(header, 1),
        low_byte(header, 2),
    ] + contents;
    assert(packed[0] == 0x28 && packed[1] == 0xb5 && packed[2] == 0x2f && packed[3] == 0xfd
        && packed[4] == 0);
    assert(frame_header_len(packed) == Some(6int));
    assert(packed[6] + 0x100 * packed[7] + 0x1_0000 * packed[8] == header);
    assert((header / 2) % 4 == 2 && header / 8 == n && header % 2 == 1);
    let block = block_at(packed, 6);
    assert(block is Some);
    assert(packed.subrange(9, 9 + n) =~= contents);
    assert(block_contents(packed, 6, block->0) == contents);
}

} // verus!
