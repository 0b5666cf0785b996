use vstd::prelude::*;
use crate::exif::ExifTagKind;

verus! {

/// Why one resolution (or the run) failed. The caller that drives a
/// resolution knows which path it is resolving and attaches it when
/// reporting.
#[derive(Clone, Debug)]
pub enum ResolveError {
    /// An EXIF tag was present but yielded no usable value.
    ExifValue,
    /// An EXIF date-like tag's value could not be read as a timestamp;
    /// `raw` is the value's text as the reader rendered it.
    ExifTime { tag: ExifTagKind, raw: Vec<u8> },
    /// No timestamp candidate at all could be produced.
    NoCreationDate,
    /// A filesystem timestamp could not be converted to a local civil time.
    SystemTime,
    /// The platform cache directory cannot be determined or created;
    /// fatal to the whole run.
    CacheDir,
    /// A filesystem read or write failed.
    Io,
    /// The image could not be decoded to its pixel dimensions.
    Decode,
}

/// The mathematical model of a resolution failure.
#[verifier::ext_equal]
pub enum ErrorModel {
    ExifValue,
    ExifTime { tag: ExifTagKind, raw: Seq<u8> },
    NoCreationDate,
    SystemTime,
    CacheDir,
    Io,
    Decode,
}

impl View for ResolveError {
    type V = ErrorModel;

    open spec fn view(&self) -> ErrorModel {
        match self {
            ResolveError::ExifValue => ErrorModel::ExifValue,
            ResolveError::ExifTime { tag, raw } => ErrorModel::ExifTime {
                tag: *tag,
                raw: raw@,
            },
            ResolveError::NoCreationDate => ErrorModel::NoCreationDate,
            ResolveError::SystemTime => ErrorModel::SystemTime,
            ResolveError::CacheDir => ErrorModel::CacheDir,
            ResolveError::Io => ErrorModel::Io,
            ResolveError::Decode => ErrorModel::Decode,
        }
    }
}

} // verus!
