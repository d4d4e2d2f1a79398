//! Mappings that may be the header of a PE image.
//!
//! Wine copies the sections of a PE file into anonymous memory when their file
//! offsets are not aligned to pages. Only the header of the file is mapped
//! then, and it is mapped first, at the address where the image starts. The
//! headers are remembered here, so that a later mapping which lies inside an
//! image can be matched with the image's file.

use std::collections::BTreeMap;
use vstd::prelude::*;
use vstd::std_specs::iter::IteratorSpec;

verus! {

broadcast use vstd::std_specs::btree::group_btree_axioms;

/// A mapped header of a PE image.
#[derive(Debug)]
pub struct SuspectedPeMapping {
    pub path: String,
    /// The address of the image's first byte.
    pub start: u64,
    /// The size of the whole image.
    pub size: u64,
}

/// The contents of a [`SuspectedPeMapping`].
pub struct PeMappingView {
    pub path: Seq<char>,
    pub start: u64,
    pub size: u64,
}

impl View for SuspectedPeMapping {
    type V = PeMappingView;

    open spec fn view(&self) -> PeMappingView {
        PeMappingView { path: self.path@, start: self.start, size: self.size }
    }
}

/// The suspected PE images, by their start address.
#[derive(Debug)]
pub struct PeMappings {
    pub by_start: BTreeMap<u64, SuspectedPeMapping>,
}

impl View for PeMappings {
    type V = Map<u64, PeMappingView>;

    open spec fn view(&self) -> Map<u64, PeMappingView> {
        self.by_start@.map_values(|m: SuspectedPeMapping| m@)
    }
}

/// Whether a start address is the last one that is not behind an address.
pub open spec fn is_nearest_start(
    mappings: Map<u64, PeMappingView>,
    address: u64,
    start: u64,
) -> bool {
    &&& mappings.dom().contains(start)
    &&& start <= address
    &&& forall|other: u64|
        #[trigger] mappings.dom().contains(other) && other <= address ==> other <= start
}

/// Whether an image holds a range of addresses.
pub open spec fn covers(mapping: PeMappingView, address: u64, size: u64) -> bool {
    mapping.start <= address && address + size <= mapping.start + mapping.size
}

/// The image that a range of addresses belongs to: the last one that does not
/// start behind the range, if it holds all of the range.
pub open spec fn image_for_range(
    mappings: Map<u64, PeMappingView>,
    address: u64,
    size: u64,
) -> Option<PeMappingView> {
    if exists|start: u64| is_nearest_start(mappings, address, start) {
        let start = choose|start: u64| is_nearest_start(mappings, address, start);
        if covers(mappings[start], address, size) {
            Some(mappings[start])
        } else {
            None
        }
    } else {
        None
    }
}

impl PeMappings {
    /// No images.
    pub fn new() -> (r: PeMappings)
        ensures
            r@ == Map::<u64, PeMappingView>::empty(),
    {
        PeMappings { by_start: BTreeMap::new() }
    }

    /// Remembers an image, in place of one that starts at the same address.
    pub fn insert(&mut self, mapping: SuspectedPeMapping)
        ensures
            final(self)@ == old(self)@.insert(mapping.start, mapping@),
    {
        let ghost before = self@;
        self.by_start.insert(mapping.start, mapping);
        assert(self@ =~= before.insert(mapping.start, mapping@));
    }

    /// The image that a range of addresses belongs to.
    pub fn find(&self, address: u64, size: u64) -> (r: Option<&SuspectedPeMapping>)
        ensures
            r is Some == image_for_range(self@, address, size) is Some,
            r is Some ==> r->0@ == image_for_range(self@, address, size)->0,
    {
        let mut nearest: Option<&SuspectedPeMapping> = None;
        let mut nearest_start: u64 = 0;
        let ghost all = self.by_start.iter().remaining();
        for item in it: self.by_start.iter()
            invariant
                it.seq() == all,
                forall|i: int|
                    0 <= i < all.len() ==> self@.dom().contains(*(#[trigger] all[i]).0)
                        && self@[*all[i].0] == all[i].1@,
                nearest is None ==> forall|i: int|
                    0 <= i < it.index() ==> *(#[trigger] all[i]).0 > address,
                nearest is Some ==> {
                    &&& self@.dom().contains(nearest_start)
                    &&& self@[nearest_start] == nearest->0@
                    &&& nearest_start <= address
                    &&& forall|i: int|
                        0 <= i < it.index() && *(#[trigger] all[i]).0 <= address ==> *all[i].0
                            <= nearest_start
                },
        {
            if *item.0 <= address && (nearest.is_none() || *item.0 > nearest_start) {
                nearest = Some(item.1);
                nearest_start = *item.0;
            }
        }
        proof {
            assert forall|start: u64| #[trigger] self@.dom().contains(start) implies exists|i: int|
                0 <= i < all.len() && *(#[trigger] all[i]).0 == start by {
                assert(all.contains((&start, &self.by_start@[start])));
            }
            if nearest is Some {
                assert(is_nearest_start(self@, address, nearest_start));
            }
        }
        match nearest {
            None => None,
            Some(mapping) => {
                if mapping.start <= address && size <= mapping.size && address - mapping.start
                    <= mapping.size - size {
                    Some(mapping)
                } else {
                    None
                }
            },
        }
    }
}

/// Whether each image is filed under its own start address.
pub open spec fn keyed_by_start(mappings: Map<u64, PeMappingView>) -> bool {
    forall|start: u64| #[trigger] mappings.dom().contains(start) ==> mappings[start].start == start
}

/// Every image is filed under its start address, and remembering another one
/// keeps it so.
pub proof fn law_images_are_filed_by_start(
    mappings: Map<u64, PeMappingView>,
    mapping: PeMappingView,
)
    ensures
        keyed_by_start(Map::<u64, PeMappingView>::empty()),
        keyed_by_start(mappings) ==> keyed_by_start(mappings.insert(mapping.start, mapping)),
{
}

/// The image that is found for a range is one of those remembered, and holds
/// all of the range.
pub proof fn law_found_image_holds_the_range(
    mappings: Map<u64, PeMappingView>,
    address: u64,
    size: u64,
)
    requires
        image_for_range(mappings, address, size) is Some,
    ensures
        covers(image_for_range(mappings, address, size)->0, address, size),
        exists|start: u64|
            mappings.dom().contains(start) && mappings[start] == image_for_range(
                mappings,
                address,
                size,
            )->0,
{
}

/// A range inside a remembered image is matched with that image, unless
/// another image starts between the start of the image and the range.
pub proof fn law_remembered_image_is_found(
    mappings: Map<u64, PeMappingView>,
    mapping: PeMappingView,
    address: u64,
    size: u64,
)
    requires
        covers(mapping, address, size),
        forall|start: u64| #[trigger]
            mappings.dom().contains(start) ==> start <= mapping.start || start > address,
    ensures
        image_for_range(mappings.insert(mapping.start, mapping), address, size) == Some(mapping),
{
    let after = mappings.insert(mapping.start, mapping);
    assert(is_nearest_start(after, address, mapping.start));
    let start = choose|start: u64| is_nearest_start(after, address, start);
    assert(after.dom().contains(start) && after.dom().contains(mapping.start));
    assert(start == mapping.start);
}

} // verus!
