use vstd::prelude::*;

verus! {

/// The errors that the cache engine reports.
#[derive(Clone, Debug, PartialEq, Eq)]
pub enum LayerDbError {
    /// A configured percentage lies outside `0..=100`.
    InvalidPercentage,
    /// A key read back from the durable tier does not parse as the table's key type.
    CouldNotConvertToKeyFromString(String),
    /// The durable tier failed; the text describes the failure.
    Durable(String),
    /// The object store failed; the text describes the failure.
    ObjectStore(String),
    /// A value could not be serialized.
    Encode(String),
    /// A stored payload could not be decoded.
    Decode(String),
}

} // verus!
