use vstd::prelude::*;

verus! {

/// The query parameters of a feature-list request. A bounding box is kept as
/// its textual components, in request order; when present it has 4 (2-D) or
/// 6 (3-D) components, and only the 4-component form filters spatially.
#[derive(Debug)]
pub struct GetItemsParams {
    pub limit: Option<u64>,
    pub offset: Option<u64>,
    pub bbox: Option<Vec<String>>,
}

impl GetItemsParams {
    /// Whether a 4-component bounding box is present, the one form that adds
    /// a spatial predicate.
    pub open spec fn spec_bbox4(&self) -> bool {
        match self.bbox {
            Some(b) => b@.len() == 4,
            None => false,
        }
    }

    /// The requested page size, 10 when absent.
    pub open spec fn spec_limit(&self) -> int {
        match self.limit {
            Some(l) => l as int,
            None => 10,
        }
    }

    /// The requested starting id bound, 0 when absent.
    pub open spec fn spec_offset(&self) -> int {
        match self.offset {
            Some(o) => o as int,
            None => 0,
        }
    }

    pub fn bbox_is_4(&self) -> (r: bool)
        ensures
            r == self.spec_bbox4(),
    {
        match &self.bbox {
            Some(b) => b.len() == 4,
            None => false,
        }
    }

    pub fn limit_or_default(&self) -> (r: u64)
        ensures
            r as int == self.spec_limit(),
    {
        match self.limit {
            Some(l) => l,
            None => 10,
        }
    }

    pub fn offset_or_default(&self) -> (r: u64)
        ensures
            r as int == self.spec_offset(),
    {
        match self.offset {
            Some(o) => o,
            None => 0,
        }
    }
}

} // verus!
