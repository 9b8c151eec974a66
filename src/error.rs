use vstd::prelude::*;

verus! {

/// Every way a stage of the engine, or a catalog query, can fail.
#[derive(Debug, Clone, Copy, PartialEq, Eq, Structural)]
pub enum Fault {
    UnsupportedFormat,
    ExtractionFailed,
    MetadataServiceUnavailable,
    MalformedMetadataResponse,
    ContentStoreUnavailable,
    ContentStoreRejected,
    FundingTimeout,
    AnchorSubmissionFailed,
    CatalogWriteFailed,
    InvalidFieldQuery,
}

impl Fault {
    /// Transient faults: the service could not be reached, and asking again may help.
    pub open spec fn transient(self) -> bool {
        self is MetadataServiceUnavailable || self is ContentStoreUnavailable
    }

    pub fn is_transient(self) -> (r: bool)
        ensures
            r == self.transient(),
    {
        match self {
            Fault::MetadataServiceUnavailable | Fault::ContentStoreUnavailable => true,
            _ => false,
        }
    }
}

} // verus!
