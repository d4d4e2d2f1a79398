//! Files that are mapped into processes.
//!
//! The unwinder needs to know about a mapped file in case of DWARF stack
//! unwinding: it gets the unwinding information from the file. The profile
//! needs to know about it so that it can assign addresses in the stack to the
//! right library.

use crate::object_file::{
    object_header, object_segments, parse_header, parse_section, parse_section_data,
    parse_segment_data, parse_segments, section_bytes, section_named, segment_bytes, segments_view,
    too_large_to_unpack, unbounded_to_unpack, unpack_section, unpacks_to, FileRange, Section,
    Segment, SegmentView, UnpackError,
};
use crate::profile::opt_bytes;
use crate::text::same_bytes;
use vstd::prelude::*;

verus! {

/// Bytes of code, and where they stand in the file.
#[derive(Debug)]
pub struct TextSource {
    pub range: FileRange,
    /// The bytes, where they can be read.
    pub data: Option<Vec<u8>>,
}

/// The contents of a [`TextSource`].
#[verifier::ext_equal]
pub struct TextSourceView {
    pub range: FileRange,
    pub data: Option<Seq<u8>>,
}

impl View for TextSource {
    type V = TextSourceView;

    open spec fn view(&self) -> TextSourceView {
        TextSourceView { range: self.range, data: opt_bytes(self.data) }
    }
}

/// What an object file says of itself.
#[derive(Debug)]
pub struct ModuleFacts {
    pub build_id: Option<Vec<u8>>,
    pub text: Option<Section>,
    pub text_env: Option<Section>,
    pub eh_frame: Option<Section>,
    pub eh_frame_hdr: Option<Section>,
    pub got: Option<Section>,
    /// The uncompressed contents of the `.eh_frame` section.
    pub eh_frame_data: Option<Vec<u8>>,
    /// The uncompressed contents of the `.eh_frame_hdr` section.
    pub eh_frame_hdr_data: Option<Vec<u8>>,
    /// The code.
    pub text_source: Option<TextSource>,
}

/// The contents of a [`ModuleFacts`].
#[verifier::ext_equal]
pub struct ModuleFactsView {
    pub build_id: Option<Seq<u8>>,
    pub text: Option<Section>,
    pub text_env: Option<Section>,
    pub eh_frame: Option<Section>,
    pub eh_frame_hdr: Option<Section>,
    pub got: Option<Section>,
    pub eh_frame_data: Option<Seq<u8>>,
    pub eh_frame_hdr_data: Option<Seq<u8>>,
    pub text_source: Option<TextSourceView>,
}

impl View for ModuleFacts {
    type V = ModuleFactsView;

    open spec fn view(&self) -> ModuleFactsView {
        ModuleFactsView {
            build_id: opt_bytes(self.build_id),
            text: self.text,
            text_env: self.text_env,
            eh_frame: self.eh_frame,
            eh_frame_hdr: self.eh_frame_hdr,
            got: self.got,
            eh_frame_data: opt_bytes(self.eh_frame_data),
            eh_frame_hdr_data: opt_bytes(self.eh_frame_hdr_data),
            text_source: match self.text_source {
                Some(source) => Some(source@),
                None => None,
            },
        }
    }
}

/// The name of the segment that holds the code of a Mach-O file, `__TEXT`.
pub open spec fn text_segment_name() -> Seq<u8> {
    seq![0x5fu8, 0x5f, 0x54, 0x45, 0x58, 0x54]
}

/// The index of the first segment that is named `__TEXT`; the number of all
/// segments when there is none.
pub open spec fn text_segment(segments: Seq<SegmentView>) -> nat
    decreases segments.len(),
{
    if segments.len() == 0 || segments[0].name == Some(text_segment_name()) {
        0
    } else {
        1 + text_segment(segments.skip(1))
    }
}

/// The index of the first segment that is named `__TEXT`; the number of all
/// segments when there is none.
pub fn find_text_segment(segments: &Vec<Segment>) -> (r: usize)
    ensures
        r == text_segment(segments_view(segments@)),
        r <= segments.len(),
{
    let name: [u8; 6] = [0x5f, 0x5f, 0x54, 0x45, 0x58, 0x54];
    assert(name@ =~= text_segment_name());
    let ghost all = segments_view(segments@);
    let mut i: usize = 0;
    assert(all.skip(0) =~= all);
    while i < segments.len()
        invariant
            name@ == text_segment_name(),
            i <= segments.len(),
            all == segments_view(segments@),
            text_segment(all) == i + text_segment(all.skip(i as int)),
        decreases segments.len() - i,
    {
        assert(all.skip(i as int)[0] == segments@[i as int]@);
        assert(all.skip(i as int).skip(1) =~= all.skip(i + 1));
        if let Some(segment_name) = &segments[i].name {
            if same_bytes(segment_name.as_slice(), name.as_slice()) {
                return i;
            }
        }
        i += 1;
    }
    i
}

/// Where the code of an object file stands.
#[derive(Clone, Copy, Debug, PartialEq, Eq, Structural)]
pub enum TextPlace {
    /// In the segment with the given index.
    Segment { index: usize, range: FileRange },
    /// In the `.text` section.
    Section { range: FileRange },
}

/// Where the code of an object file stands: in its `__TEXT` segment, else in
/// its `.text` section, if that is part of the file.
pub open spec fn text_place(segments: Seq<SegmentView>, text: Option<Section>) -> Option<
    TextPlace,
> {
    let index = text_segment(segments);
    if index < segments.len() {
        Some(
            TextPlace::Segment {
                index: index as usize,
                range: segments[index as int].file_range,
            },
        )
    } else if text is Some && text->0.file_range is Some {
        Some(TextPlace::Section { range: text->0.file_range->0 })
    } else {
        None
    }
}

/// Finds out where the code of an object file stands.
pub fn find_text_place(segments: &Vec<Segment>, text: Option<Section>) -> (r: Option<TextPlace>)
    ensures
        r == text_place(segments_view(segments@), text),
{
    let index: usize = find_text_segment(segments);
    assert(segments_view(segments@).len() == segments.len());
    if index < segments.len() {
        assert(segments_view(segments@)[index as int] == segments@[index as int]@);
        return Some(TextPlace::Segment { index, range: segments[index].file_range });
    }
    match text {
        Some(section) => match section.file_range {
            Some(range) => Some(TextPlace::Section { range }),
            None => None,
        },
        None => None,
    }
}

/// The code of an object file.
pub open spec fn text_source_of(data: Seq<u8>) -> Option<TextSourceView> {
    match text_place(object_segments(data), section_named(data, ".text"@)) {
        Some(TextPlace::Segment { index, range }) => Some(
            TextSourceView { range, data: segment_bytes(data, index as nat) },
        ),
        Some(TextPlace::Section { range }) => Some(
            TextSourceView { range, data: section_bytes(data, ".text"@) },
        ),
        None => None,
    }
}

/// What an object file says of itself, but for its unwinding information;
/// `None` for other files.
pub open spec fn module_layout(data: Seq<u8>) -> Option<ModuleFactsView> {
    match object_header(data) {
        Some(header) => Some(
            ModuleFactsView {
                build_id: header.build_id,
                text: section_named(data, ".text"@),
                text_env: section_named(data, "text_env"@),
                eh_frame: section_named(data, ".eh_frame"@),
                eh_frame_hdr: section_named(data, ".eh_frame_hdr"@),
                got: section_named(data, ".got"@),
                eh_frame_data: None,
                eh_frame_hdr_data: None,
                text_source: text_source_of(data),
            },
        ),
        None => None,
    }
}

/// Whether the unwinding information of an object file is too large to be
/// unpacked.
pub open spec fn unwinding_too_large(data: Seq<u8>) -> bool {
    too_large_to_unpack(data, ".eh_frame"@) || too_large_to_unpack(data, ".eh_frame_hdr"@)
}

/// Whether the unwinding information of an object file may unpack to more than
/// a decoder's counters and buffers hold.
pub open spec fn unwinding_unbounded(data: Seq<u8>) -> bool {
    unbounded_to_unpack(data, ".eh_frame"@) || unbounded_to_unpack(data, ".eh_frame_hdr"@)
}

/// What an object file says of itself, with the given unwinding information;
/// `None` for other files.
pub open spec fn module_facts(
    data: Seq<u8>,
    eh_frame_data: Option<Seq<u8>>,
    eh_frame_hdr_data: Option<Seq<u8>>,
) -> Option<ModuleFactsView> {
    match module_layout(data) {
        Some(layout) => Some(ModuleFactsView { eh_frame_data, eh_frame_hdr_data, ..layout }),
        None => None,
    }
}

/// Whether this is what an object file says of itself.
pub open spec fn are_module_facts(data: Seq<u8>, facts: ModuleFactsView) -> bool {
    &&& module_facts(data, facts.eh_frame_data, facts.eh_frame_hdr_data) == Some(facts)
    &&& unpacks_to(data, ".eh_frame"@, facts.eh_frame_data)
    &&& unpacks_to(data, ".eh_frame_hdr"@, facts.eh_frame_hdr_data)
}

/// Reads the code of an object file.
fn read_text_source(data: &[u8], text: Option<Section>) -> (r: Option<TextSource>)
    requires
        text == section_named(data@, ".text"@),
    ensures
        r is Some == text_source_of(data@) is Some,
        r is Some ==> r->0@ == text_source_of(data@)->0,
{
    let segments = parse_segments(data);
    match find_text_place(&segments, text) {
        Some(TextPlace::Segment { index, range }) => Some(
            TextSource { range, data: parse_segment_data(data, index) },
        ),
        Some(TextPlace::Section { range }) => Some(
            TextSource { range, data: parse_section_data(data, ".text") },
        ),
        None => None,
    }
}

/// Reads what an object file says of itself, where its unwinding information
/// was unpacked already. Gives nothing for a file that is not in a known
/// format.
pub fn read_facts_with(
    data: &[u8],
    eh_frame_data: Option<Vec<u8>>,
    eh_frame_hdr_data: Option<Vec<u8>>,
) -> (r: Option<ModuleFacts>)
    ensures
        r is Some == module_layout(data@) is Some,
        r is Some ==> Some(r->0@) == module_facts(
            data@,
            opt_bytes(eh_frame_data),
            opt_bytes(eh_frame_hdr_data),
        ),
{
    let header = match parse_header(data) {
        Some(header) => header,
        None => return None,
    };
    let text = parse_section(data, ".text");
    Some(
        ModuleFacts {
            build_id: header.build_id,
            text,
            text_env: parse_section(data, "text_env"),
            eh_frame: parse_section(data, ".eh_frame"),
            eh_frame_hdr: parse_section(data, ".eh_frame_hdr"),
            got: parse_section(data, ".got"),
            eh_frame_data,
            eh_frame_hdr_data,
            text_source: read_text_source(data, text),
        },
    )
}

/// Reads what an object file says of itself. Gives nothing for a file that is
/// not in a known format.
pub fn read_module_facts(data: &[u8]) -> (r: Result<Option<ModuleFacts>, UnpackError>)
    ensures
        match r {
            Err(UnpackError::TooLarge) => module_layout(data@) is Some && unwinding_too_large(
                data@,
            ),
            Err(UnpackError::Unbounded) => module_layout(data@) is Some && !unwinding_too_large(
                data@,
            ) && unwinding_unbounded(data@),
            Ok(None) => module_layout(data@) is None,
            Ok(Some(facts)) => are_module_facts(data@, facts@) && !unwinding_too_large(data@)
                && !unwinding_unbounded(data@),
        },
{
    if parse_header(data).is_none() {
        return Ok(None);
    }
    match (unpack_section(data, ".eh_frame"), unpack_section(data, ".eh_frame_hdr")) {
        (Ok(eh_frame_data), Ok(eh_frame_hdr_data)) => Ok(
            read_facts_with(data, eh_frame_data, eh_frame_hdr_data),
        ),
        (Err(UnpackError::TooLarge), _) | (_, Err(UnpackError::TooLarge)) => Err(
            UnpackError::TooLarge,
        ),
        _ => Err(UnpackError::Unbounded),
    }
}

} // verus!
