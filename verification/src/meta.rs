use vstd::prelude::*;
use crate::time::CivilDateTime;

verus! {

/// A resolved metadata record: one per image path, the unit of work and
/// the cache payload. Immutable after construction.
///
/// The path is held as its raw bytes, which is also what the cache key is
/// computed over.
pub struct ImageMetadata {
    pub path: Vec<u8>,
    pub width: u32,
    pub height: u32,
    pub creation: CivilDateTime,
}

/// The mathematical model of a metadata record.
#[verifier::ext_equal]
pub struct MetaModel {
    pub path: Seq<u8>,
    pub width: u32,
    pub height: u32,
    pub creation: CivilDateTime,
}

impl MetaModel {
    /// A record always carries positive pixel dimensions and a civil
    /// date-time with fields in range.
    pub open spec fn wf(self) -> bool {
        &&& self.width > 0
        &&& self.height > 0
        &&& self.creation.wf()
    }
}

impl View for ImageMetadata {
    type V = MetaModel;

    open spec fn view(&self) -> MetaModel {
        MetaModel {
            path: self.path@,
            width: self.width,
            height: self.height,
            creation: self.creation,
        }
    }
}

impl ImageMetadata {
    pub open spec fn wf(self) -> bool {
        self@.wf()
    }
}

} // verus!
