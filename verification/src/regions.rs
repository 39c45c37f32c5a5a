//! The regions of a workspace window that hold log rows.
use vstd::prelude::*;

verus! {

/// A scrollable region that renders log rows.
#[derive(Clone, Copy, Debug, PartialEq, Eq, Structural)]
pub enum WrappedRegion {
    Log,
    Results,
    GlobalResults,
}

/// The region the user last worked in.
#[derive(Clone, Copy, Debug, PartialEq, Eq, Structural)]
pub enum LogRegion {
    Body,
    CurrentResults,
    GlobalResults,
}

/// Which files a search covers.
#[derive(Clone, Copy, Debug, PartialEq, Eq, Structural)]
pub enum SearchScope {
    CurrentFile,
    AllOpenFiles,
    Directory,
}

/// How far a document has been loaded.
#[derive(Clone, Copy, Debug, PartialEq, Eq, Structural)]
pub enum DocumentLoadState {
    Opening,
    Preview,
    Ready,
}

/// The workspace key of a region: global results share the document id 0.
pub open spec fn spec_region_key(document_id: u64, region: WrappedRegion) -> (u64, WrappedRegion) {
    if region == WrappedRegion::GlobalResults {
        (0, region)
    } else {
        (document_id, region)
    }
}

/// The workspace key of a region: global results share the document id 0.
pub fn region_key(document_id: u64, region: WrappedRegion) -> (key: (u64, WrappedRegion))
    ensures
        key == spec_region_key(document_id, region),
{
    if region == WrappedRegion::GlobalResults {
        (0, region)
    } else {
        (document_id, region)
    }
}

/// Adds one, saturating at the largest value.
pub open spec fn spec_sat_inc(value: u64) -> u64 {
    if value < u64::MAX { (value + 1) as u64 } else { value }
}

/// Adds one, saturating at the largest value.
pub open spec fn spec_sat_inc_usize(value: usize) -> usize {
    if value < usize::MAX { (value + 1) as usize } else { value }
}

} // verus!
