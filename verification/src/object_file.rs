//! What the converter reads out of an object file, through the `object` crate.
//!
//! An object file is its bytes. Every function here parses them anew and hands
//! out plain values, so each result is a function of the bytes and of the
//! other arguments. The one exception are compressed sections whose contents
//! are longer than they are said to be, see [`Unpacked`].

use crate::profile::opt_bytes;
use crate::zstd::{check_zstd_blocks, zstd_blocks_fit};
use object::pe::{ImageNtHeaders32, ImageNtHeaders64};
use object::read::pe::{ImageNtHeaders, ImageOptionalHeader, PeFile};
use object::{BinaryFormat, CompressionFormat, File, FileKind, SymbolKind};
use object::{Object, ObjectSection, ObjectSegment, ObjectSymbol};
use vstd::prelude::*;

verus! {

/// The file kinds that the converter tells apart.
#[derive(Clone, Copy, Debug, PartialEq, Eq, Structural)]
pub enum ImageKind {
    Pe32,
    Pe64,
    Other,
}

/// The properties of an object file as a whole.
#[derive(Debug)]
pub struct ObjectHeader {
    /// Whether the file is in the ELF format.
    pub is_elf: bool,
    /// Whether the file is for a 64 bit architecture.
    pub is_64: bool,
    /// The build ID, where the file has one that can be read.
    pub build_id: Option<Vec<u8>>,
}

/// The contents of an [`ObjectHeader`].
pub struct ObjectHeaderView {
    pub is_elf: bool,
    pub is_64: bool,
    pub build_id: Option<Seq<u8>>,
}

impl View for ObjectHeader {
    type V = ObjectHeaderView;

    open spec fn view(&self) -> ObjectHeaderView {
        ObjectHeaderView {
            is_elf: self.is_elf,
            is_64: self.is_64,
            build_id: match self.build_id {
                Some(id) => Some(id@),
                None => None,
            },
        }
    }
}

/// The contents of an optional header.
pub open spec fn header_view(header: Option<ObjectHeader>) -> Option<ObjectHeaderView> {
    match header {
        Some(header) => Some(header@),
        None => None,
    }
}

/// The contents of a list of segments.
pub open spec fn segments_view(segments: Seq<Segment>) -> Seq<SegmentView> {
    segments.map_values(|s: Segment| s@)
}

/// The contents of a list of symbols.
pub open spec fn symbols_view(symbols: Seq<Symbol>) -> Seq<SymbolView> {
    symbols.map_values(|s: Symbol| s@)
}

/// A segment of an object file.
#[derive(Debug)]
pub struct Segment {
    /// The name of the segment, where it has one that can be read.
    pub name: Option<Vec<u8>>,
    /// The virtual address of the segment.
    pub address: u64,
    /// Where the segment's data stands in the file.
    pub file_range: FileRange,
}

/// The contents of a [`Segment`].
pub struct SegmentView {
    pub name: Option<Seq<u8>>,
    pub address: u64,
    pub file_range: FileRange,
}

impl View for Segment {
    type V = SegmentView;

    open spec fn view(&self) -> SegmentView {
        SegmentView {
            name: match self.name {
                Some(name) => Some(name@),
                None => None,
            },
            address: self.address,
            file_range: self.file_range,
        }
    }
}

/// A range of bytes of a file.
#[derive(Clone, Copy, Debug, PartialEq, Eq, Structural)]
pub struct FileRange {
    pub start: u64,
    pub size: u64,
}

/// A section of an object file.
#[derive(Clone, Copy, Debug, PartialEq, Eq, Structural)]
pub struct Section {
    /// The virtual address of the section.
    pub address: u64,
    /// The size of the section in memory.
    pub size: u64,
    /// Where the section's data stands in the file, if it has any there.
    pub file_range: Option<FileRange>,
}

/// How the data of a section is compressed.
#[derive(Clone, Copy, Debug, PartialEq, Eq, Structural)]
pub enum PackingFormat {
    /// Not at all.
    Stored,
    Zlib,
    Zstandard,
    /// In a way that cannot be undone.
    Unknown,
}

/// How the data of a section is compressed, and how long it says it is when it
/// is not.
#[derive(Clone, Copy, Debug, PartialEq, Eq, Structural)]
pub struct SectionPacking {
    pub format: PackingFormat,
    pub unpacked_size: u64,
}

/// What comes of undoing the compression of a section.
///
/// The contents of a zlib stream are written to a buffer that has room for the
/// stated size, and maybe for more, as the allocator likes. Contents that are
/// longer than stated are cut off at the end of the buffer. So it is only the
/// bytes up to the stated size that the stream determines, and an error behind
/// them is found or not. A Zstandard stream is unpacked piece by piece, and it
/// depends on the pieces how far back it can refer, but not what it then gives.
pub enum Unpacked {
    /// It fails.
    Fails,
    /// It gives these bytes, where those count that [`SectionPacking::kept`]
    /// says.
    Bytes(Seq<u8>),
    /// It gives these bytes, or it fails, depending on the room in the buffers.
    BytesOrFails(Seq<u8>),
}

/// A symbol of an object file.
#[derive(Debug)]
pub struct Symbol {
    /// Whether the symbol is code.
    pub is_text: bool,
    /// The symbol's name, where it can be read.
    pub name: Option<String>,
}

/// The contents of a [`Symbol`].
pub struct SymbolView {
    pub is_text: bool,
    pub name: Option<Seq<char>>,
}

impl View for Symbol {
    type V = SymbolView;

    open spec fn view(&self) -> SymbolView {
        SymbolView {
            is_text: self.is_text,
            name: match self.name {
                Some(name) => Some(name@),
                None => None,
            },
        }
    }
}

/// The kind that `object::FileKind::parse` finds a file to have.
pub uninterp spec fn file_kind(data: Seq<u8>) -> Option<ImageKind>;

/// The image size that `object::read::pe::PeFile` reads from a 32 bit PE file.
pub uninterp spec fn pe32_image_size(data: Seq<u8>) -> Option<u32>;

/// The image size that `object::read::pe::PeFile` reads from a 64 bit PE file.
pub uninterp spec fn pe64_image_size(data: Seq<u8>) -> Option<u32>;

/// What `object::File::parse` and the file's properties say of a file.
pub uninterp spec fn object_header(data: Seq<u8>) -> Option<ObjectHeaderView>;

/// The segments that `object::File::segments` walks.
pub uninterp spec fn object_segments(data: Seq<u8>) -> Seq<SegmentView>;

/// The bytes that `object::Segment::data` gives for a segment.
pub uninterp spec fn segment_bytes(data: Seq<u8>, index: nat) -> Option<Seq<u8>>;

/// The section that `object::File::section_by_name` finds.
pub uninterp spec fn section_named(data: Seq<u8>, name: Seq<char>) -> Option<Section>;

/// The bytes that `object::Section::data` gives for a section.
pub uninterp spec fn section_bytes(data: Seq<u8>, name: Seq<char>) -> Option<Seq<u8>>;

/// What `object::Section::compressed_data` says of the compression of a section.
pub uninterp spec fn section_packing(data: Seq<u8>, name: Seq<char>) -> Option<SectionPacking>;

/// The bytes that `object::Section::compressed_data` gives for a section.
pub uninterp spec fn section_packed(data: Seq<u8>, name: Seq<char>) -> Option<Seq<u8>>;

/// What comes of `object::Section::uncompressed_data` for a section.
pub uninterp spec fn section_unpacked(data: Seq<u8>, name: Seq<char>) -> Unpacked;

/// The symbols that `object::File::symbols` walks.
pub uninterp spec fn object_symbols(data: Seq<u8>) -> Seq<SymbolView>;

/// The kind of a file, by `object::FileKind::parse`; `None` when it is not known.
#[verifier::external_body]
fn parse_file_kind(data: &[u8]) -> (r: Option<ImageKind>)
    ensures
        r == file_kind(data@),
{
    Some(match FileKind::parse(data).ok()? {
        FileKind::Pe32 => ImageKind::Pe32,
        FileKind::Pe64 => ImageKind::Pe64,
        _ => ImageKind::Other,
    })
}

/// The `SizeOfImage` field of a 32 bit PE file, by `PeFile::parse`; `None`
/// when the file cannot be parsed.
#[verifier::external_body]
fn parse_pe32_image_size(data: &[u8]) -> (r: Option<u32>)
    ensures
        r == pe32_image_size(data@),
{
    let file = PeFile::<ImageNtHeaders32>::parse(data).ok()?;
    Some(file.nt_headers().optional_header().size_of_image())
}

/// The `SizeOfImage` field of a 64 bit PE file, by `PeFile::parse`; `None`
/// when the file cannot be parsed.
#[verifier::external_body]
fn parse_pe64_image_size(data: &[u8]) -> (r: Option<u32>)
    ensures
        r == pe64_image_size(data@),
{
    let file = PeFile::<ImageNtHeaders64>::parse(data).ok()?;
    Some(file.nt_headers().optional_header().size_of_image())
}

/// The properties of an object file, by `object::File::parse` and the
/// `format`, `is_64` and `build_id` of the file; `None` when the file cannot
/// be parsed.
#[verifier::external_body]
pub(crate) fn parse_header(data: &[u8]) -> (r: Option<ObjectHeader>)
    ensures
        header_view(r) == object_header(data@),
{
    let file = File::parse(data).ok()?;
    Some(ObjectHeader {
        is_elf: match file.format() {
            BinaryFormat::Elf => true,
            _ => false,
        },
        is_64: file.is_64(),
        build_id: file.build_id().ok().flatten().map(|id| id.to_vec()),
    })
}

/// The segments of an object file in their order, by `object::File::segments`,
/// each with its name, its address and its range in the file. There are none
/// when the file cannot be parsed.
#[verifier::external_body]
pub(crate) fn parse_segments(data: &[u8]) -> (r: Vec<Segment>)
    ensures
        segments_view(r@) == object_segments(data@),
{
    let Ok(file) = File::parse(data) else { return Vec::new() };
    let segments = file.segments().map(|s| Segment {
        name: s.name_bytes().ok().flatten().map(|name| name.to_vec()),
        address: s.address(),
        file_range: FileRange { start: s.file_range().0, size: s.file_range().1 },
    });
    segments.collect()
}

/// The data of the segment with the given index, by `object::Segment::data`;
/// `None` when there is no such segment or its data cannot be read.
#[verifier::external_body]
pub(crate) fn parse_segment_data(data: &[u8], index: usize) -> (r: Option<Vec<u8>>)
    ensures
        r is Some == segment_bytes(data@, index as nat) is Some,
        r is Some ==> r->0@ == segment_bytes(data@, index as nat)->0,
{
    let file = File::parse(data).ok()?;
    let segment = file.segments().nth(index)?;
    Some(segment.data().ok()?.to_vec())
}

/// The section with the given name, by `object::File::section_by_name`, with
/// its address, its size and its range in the file; `None` when the file has
/// no such section or cannot be parsed.
#[verifier::external_body]
pub(crate) fn parse_section(data: &[u8], name: &str) -> (r: Option<Section>)
    ensures
        r == section_named(data@, name@),
{
    let file = File::parse(data).ok()?;
    let section = file.section_by_name(name)?;
    Some(Section {
        address: section.address(),
        size: section.size(),
        file_range: section.file_range().map(|(start, size)| FileRange { start, size }),
    })
}

/// The data of the section with the given name, by `object::Section::data`;
/// `None` when there is no such section or its data cannot be read.
#[verifier::external_body]
pub(crate) fn parse_section_data(data: &[u8], name: &str) -> (r: Option<Vec<u8>>)
    ensures
        r is Some == section_bytes(data@, name@) is Some,
        r is Some ==> r->0@ == section_bytes(data@, name@)->0,
{
    let file = File::parse(data).ok()?;
    let section = file.section_by_name(name)?;
    Some(section.data().ok()?.to_vec())
}

impl SectionPacking {
    /// Whether the compression is undone with the help of a buffer of the
    /// stated size.
    pub open spec fn needs_buffer(self) -> bool {
        self.format is Zlib || self.format is Zstandard
    }

    /// The bytes of a section that count: the contents of a zlib stream count
    /// up to their stated size.
    pub open spec fn kept(self, bytes: Seq<u8>) -> Seq<u8> {
        if self.format is Zlib && self.unpacked_size < bytes.len() {
            bytes.take(self.unpacked_size as int)
        } else {
            bytes
        }
    }
}

/// The compression of the section with the given name, by
/// `object::Section::compressed_data`: its format and the size that its header
/// states; `None` when there is no such section or its data cannot be read.
#[verifier::external_body]
fn parse_section_packing(data: &[u8], name: &str) -> (r: Option<SectionPacking>)
    ensures
        r == section_packing(data@, name@),
{
    let file = File::parse(data).ok()?;
    let packed = file.section_by_name(name)?.compressed_data().ok()?;
    let format = match packed.format {
        CompressionFormat::None => PackingFormat::Stored,
        CompressionFormat::Zlib => PackingFormat::Zlib,
        CompressionFormat::Zstandard => PackingFormat::Zstandard,
        _ => PackingFormat::Unknown,
    };
    Some(SectionPacking { format, unpacked_size: packed.uncompressed_size })
}

/// The uncompressed data of the section with the given name, by
/// `object::Section::uncompressed_data`; `None` when there is no such section
/// or its data cannot be read or unpacked.
///
/// A buffer of the stated size is made for compressed data, which panics for
/// sizes above `isize::MAX`. The decoder for Zstandard streams counts the bytes
/// of a block in 32 bits and panics where they overflow, and it panics where
/// its own buffer, which may be twice as large as it needs to be, cannot be
/// that large. Both are left out by [`zstd_blocks_fit`].
///
/// What the call gives is determined up to what [`Unpacked`] says: the bytes of
/// a zlib stream behind the stated size, and whether an error among them is
/// found, depend on the room in the buffer, and so does how far back a
/// Zstandard stream can refer.
#[verifier::external_body]
fn parse_section_unpacked(data: &[u8], name: &str) -> (r: Option<Vec<u8>>)
    requires
        section_packing(data@, name@) is Some,
        section_packing(data@, name@)->0.needs_buffer() ==> section_packing(
            data@,
            name@,
        )->0.unpacked_size <= isize::MAX,
        section_packing(data@, name@)->0.format is Zstandard ==> section_packed(
            data@,
            name@,
        ) is Some && zstd_blocks_fit(section_packed(data@, name@)->0),
    ensures
        match section_unpacked(data@, name@) {
            Unpacked::Fails => r is None,
            Unpacked::Bytes(bytes) => r is Some && section_packing(data@, name@)->0.kept(r->0@)
                == bytes,
            Unpacked::BytesOrFails(bytes) => r is Some ==> section_packing(data@, name@)->0.kept(
                r->0@,
            ) == bytes,
        },
{
    let file = File::parse(data).ok()?;
    let section = file.section_by_name(name)?;
    Some(section.uncompressed_data().ok()?.to_vec())
}

/// The compressed data of the section with the given name, by
/// `object::Section::compressed_data`, as it stands in the file; `None` when
/// there is no such section or its data cannot be read.
#[verifier::external_body]
fn parse_section_packed(data: &[u8], name: &str) -> (r: Option<Vec<u8>>)
    ensures
        r is Some == section_packed(data@, name@) is Some,
        r is Some ==> r->0@ == section_packed(data@, name@)->0,
{
    let file = File::parse(data).ok()?;
    let section = file.section_by_name(name)?;
    Some(section.compressed_data().ok()?.data.to_vec())
}

/// Why the contents of a section are not unpacked.
#[derive(Clone, Copy, Debug, PartialEq, Eq, Structural)]
pub enum UnpackError {
    /// There is no buffer as large as the stated size.
    TooLarge,
    /// They are a Zstandard stream that may unpack to more than the counters
    /// and buffers of its decoder hold.
    Unbounded,
}

impl SectionPacking {
    /// Whether no buffer can be made for a size that can be counted.
    pub open spec fn is_too_large(self) -> bool {
        self.needs_buffer() && isize::MAX < self.unpacked_size <= usize::MAX
    }

    /// Whether the stated size cannot be counted.
    pub open spec fn is_uncountable(self) -> bool {
        self.needs_buffer() && self.unpacked_size > usize::MAX
    }

    /// Whether the compression is undone with the help of a buffer.
    fn check_needs_buffer(&self) -> (r: bool)
        ensures
            r == self.needs_buffer(),
    {
        match self.format {
            PackingFormat::Zlib | PackingFormat::Zstandard => true,
            PackingFormat::Stored | PackingFormat::Unknown => false,
        }
    }

    /// Whether no buffer can be made for a size that can be counted.
    pub fn check_too_large(&self) -> (r: bool)
        ensures
            r == self.is_too_large(),
    {
        self.check_needs_buffer() && self.unpacked_size > isize::MAX as u64 && self.unpacked_size
            <= usize::MAX as u64
    }

    /// Whether the stated size cannot be counted.
    pub fn check_uncountable(&self) -> (r: bool)
        ensures
            r == self.is_uncountable(),
    {
        self.check_needs_buffer() && self.unpacked_size > usize::MAX as u64
    }

    /// Cuts unpacked contents to the bytes that count.
    pub fn keep(&self, bytes: Vec<u8>) -> (r: Vec<u8>)
        ensures
            r@ == self.kept(bytes@),
    {
        let mut r = bytes;
        match self.format {
            PackingFormat::Zlib => {
                if self.unpacked_size < r.len() as u64 {
                    r.truncate(self.unpacked_size as usize);
                }
            },
            _ => {},
        }
        assert(r@ =~= self.kept(bytes@));
        r
    }
}

/// Whether the contents of a section are too large to be unpacked.
pub open spec fn too_large_to_unpack(data: Seq<u8>, name: Seq<char>) -> bool {
    section_packing(data, name) is Some && section_packing(data, name)->0.is_too_large()
}

/// Whether the contents of a section may unpack to more than the decoder's
/// counters and buffers hold.
pub open spec fn unbounded_to_unpack(data: Seq<u8>, name: Seq<char>) -> bool {
    let packing = section_packing(data, name);
    &&& packing is Some
    &&& packing->0.format is Zstandard
    &&& !packing->0.is_too_large()
    &&& !packing->0.is_uncountable()
    &&& section_packed(data, name) is Some
    &&& !zstd_blocks_fit(section_packed(data, name)->0)
}

/// Whether bytes, or none, are what a section is unpacked to.
pub open spec fn unpacks_to(data: Seq<u8>, name: Seq<char>, r: Option<Seq<u8>>) -> bool {
    let packing = section_packing(data, name);
    if packing is None || packing->0.is_uncountable() || (packing->0.format is Zstandard
        && section_packed(data, name) is None) {
        r is None
    } else {
        match section_unpacked(data, name) {
            Unpacked::Fails => r is None,
            Unpacked::Bytes(bytes) => r == Some(bytes),
            Unpacked::BytesOrFails(bytes) => r is None || r == Some(bytes),
        }
    }
}

/// Gets the contents of the section with the given name, without compression.
/// There are none if there is no such section, or it cannot be read or
/// unpacked.
pub fn unpack_section(data: &[u8], name: &str) -> (r: Result<Option<Vec<u8>>, UnpackError>)
    ensures
        r == Err::<Option<Vec<u8>>, UnpackError>(UnpackError::TooLarge) <==> too_large_to_unpack(
            data@,
            name@,
        ),
        r == Err::<Option<Vec<u8>>, UnpackError>(UnpackError::Unbounded) <==> unbounded_to_unpack(
            data@,
            name@,
        ),
        r is Ok ==> unpacks_to(data@, name@, opt_bytes(r->Ok_0)),
{
    let packing = match parse_section_packing(data, name) {
        Some(packing) => packing,
        None => return Ok(None),
    };
    if packing.check_too_large() {
        return Err(UnpackError::TooLarge);
    }
    if packing.check_uncountable() {
        return Ok(None);
    }
    if packing.format == PackingFormat::Zstandard {
        match parse_section_packed(data, name) {
            Some(packed) => {
                if !check_zstd_blocks(packed.as_slice()) {
                    return Err(UnpackError::Unbounded);
                }
            },
            None => return Ok(None),
        }
    }
    match parse_section_unpacked(data, name) {
        Some(bytes) => Ok(Some(packing.keep(bytes))),
        None => Ok(None),
    }
}

/// The symbols of an object file in their order, by `object::File::symbols`,
/// each with its name and whether its kind is `Text`. There are none when the
/// file cannot be parsed.
#[verifier::external_body]
pub(crate) fn parse_symbols(data: &[u8]) -> (r: Vec<Symbol>)
    ensures
        symbols_view(r@) == object_symbols(data@),
{
    let Ok(file) = File::parse(data) else { return Vec::new() };
    let symbols = file.symbols().map(|s| Symbol {
        is_text: match s.kind() {
            SymbolKind::Text => true,
            _ => false,
        },
        name: s.name().ok().map(str::to_owned),
    });
    symbols.collect()
}

/// The image size of a PE file of the given kind.
pub open spec fn image_size(
    kind: Option<ImageKind>,
    size32: Option<u32>,
    size64: Option<u32>,
) -> Option<u64> {
    match (kind, size32, size64) {
        (Some(ImageKind::Pe32), Some(size), _) => Some(size as u64),
        (Some(ImageKind::Pe64), _, Some(size)) => Some(size as u64),
        _ => None,
    }
}

/// The size of the image that a PE file maps to.
pub open spec fn pe_mapping_size(data: Seq<u8>) -> Option<u64> {
    image_size(file_kind(data), pe32_image_size(data), pe64_image_size(data))
}

/// Picks the image size that goes with the kind of a file; `None` unless it is
/// a PE file whose headers could be read.
pub fn select_image_size(
    kind: Option<ImageKind>,
    size32: Option<u32>,
    size64: Option<u32>,
) -> (r: Option<u64>)
    ensures
        r == image_size(kind, size32, size64),
{
    match (kind, size32, size64) {
        (Some(ImageKind::Pe32), Some(size), _) => Some(size as u64),
        (Some(ImageKind::Pe64), _, Some(size)) => Some(size as u64),
        _ => None,
    }
}

/// Gets the size of the image that a file maps to; `None` unless it is a PE file.
pub fn get_pe_mapping_size(data: &[u8]) -> (r: Option<u64>)
    ensures
        r == pe_mapping_size(data@),
{
    let kind = parse_file_kind(data);
    match kind {
        Some(ImageKind::Pe32) => select_image_size(kind, parse_pe32_image_size(data), None),
        Some(ImageKind::Pe64) => select_image_size(kind, None, parse_pe64_image_size(data)),
        _ => None,
    }
}

} // verus!
