//! The identity of a recognised format: a media type and a preferred extension.

use crate::standard::classify;
use crate::signature::RuleTable;
use vstd::prelude::*;

verus! {

/// What a `FileFormat` stands for, as plain character sequences.
pub struct FormatId {
    pub media_type: Seq<char>,
    pub extension: Seq<char>,
}

/// The format of arbitrary binary data, returned when no rule matches.
pub open spec fn default_format() -> FormatId {
    FormatId { media_type: "application/octet-stream"@, extension: "bin"@ }
}

/// A file format, named by its media type and its preferred extension.
#[derive(Clone, Debug, PartialEq, Eq)]
pub struct FileFormat {
    media_type: String,
    extension: String,
}

impl View for FileFormat {
    type V = FormatId;

    closed spec fn view(&self) -> FormatId {
        FormatId { media_type: self.media_type@, extension: self.extension@ }
    }
}

impl FileFormat {
    /// Largest number of leading bytes of a source that the rules ever look at.
    pub const MAX_BYTES: u64 = 36870;

    /// Creates a `FileFormat` from a media type and an extension.
    pub fn new(media_type: &str, extension: &str) -> (r: FileFormat)
        ensures
            r@ == (FormatId { media_type: media_type@, extension: extension@ }),
    {
        FileFormat { media_type: media_type.to_owned(), extension: extension.to_owned() }
    }

    /// Determines the format of `bytes` from the signatures it carries.
    ///
    /// The standard rules are tried in order and the first that matches
    /// decides; when none does, the default format (arbitrary binary data)
    /// comes back. Any buffer is accepted, the empty one included.
    pub fn from_bytes(bytes: &[u8]) -> (r: FileFormat)
        ensures
            r@ == classify(bytes@),
    {
        RuleTable::standard().classify(bytes)
    }

    /// Returns the media type (formerly known as MIME type) of the format.
    pub fn media_type(&self) -> (r: &str)
        ensures
            r@ == self@.media_type,
    {
        self.media_type.as_str()
    }

    /// Returns the preferred extension of the format.
    pub fn extension(&self) -> (r: &str)
        ensures
            r@ == self@.extension,
    {
        self.extension.as_str()
    }

    /// A copy of this format with the same media type and extension.
    pub fn duplicate(&self) -> (r: FileFormat)
        ensures
            r@ == self@,
    {
        FileFormat { media_type: self.media_type.clone(), extension: self.extension.clone() }
    }
}

impl Default for FileFormat {
    /// The format of arbitrary binary data.
    fn default() -> (r: FileFormat)
        ensures
            r@ == default_format(),
    {
        FileFormat::new("application/octet-stream", "bin")
    }
}

/// Classification depends on the bytes alone: equal buffers are given equal
/// formats, whenever and however often they are classified.
pub proof fn lemma_classification_is_deterministic(a: Seq<u8>, b: Seq<u8>)
    requires
        a == b,
    ensures
        classify(a) == classify(b),
{
}

} // verus!
