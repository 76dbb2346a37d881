//! Translation of the engine's status codes.

use crate::constants::TRITET_ERROR_DEGENERATE_INPUT;
use crate::constants::TRITET_ERROR_INITIALIZE_FAILED;
use crate::constants::TRITET_ERROR_INVALID_FACET_INDEX;
use crate::constants::TRITET_ERROR_INVALID_FACET_NUM_POLYGON;
use crate::constants::TRITET_ERROR_INVALID_FACET_POINT_ID;
use crate::constants::TRITET_ERROR_INVALID_FACET_POINT_INDEX;
use crate::constants::TRITET_ERROR_INVALID_HOLE_INDEX;
use crate::constants::TRITET_ERROR_INVALID_POINT_INDEX;
use crate::constants::TRITET_ERROR_INVALID_REGION_INDEX;
use crate::constants::TRITET_ERROR_INVALID_SEGMENT_INDEX;
use crate::constants::TRITET_ERROR_INVALID_SEGMENT_POINT_ID;
use crate::constants::TRITET_ERROR_NULL_DATA;
use crate::constants::TRITET_ERROR_NULL_FACET_LIST;
use crate::constants::TRITET_ERROR_NULL_FACET_POLYGON_LIST;
use crate::constants::TRITET_ERROR_NULL_HOLE_LIST;
use crate::constants::TRITET_ERROR_NULL_POINT_LIST;
use crate::constants::TRITET_ERROR_NULL_REGION_LIST;
use crate::constants::TRITET_ERROR_NULL_SEGMENT_LIST;
use crate::constants::TRITET_ERROR_STRING_CONCAT;
use crate::constants::TRITET_SUCCESS;
use crate::error::Error;
use crate::error::ErrorKind;
use vstd::prelude::*;

verus! {

/// What a status code of the engine means: success, or the error that it
/// stands for. A code outside the known set is an error of its own.
pub open spec fn status_meaning(status: i32) -> Result<(), Error> {
    if status == TRITET_SUCCESS {
        Ok(())
    } else if status == TRITET_ERROR_NULL_DATA {
        Err(Error::NullData)
    } else if status == TRITET_ERROR_STRING_CONCAT {
        Err(Error::StringConcat)
    } else if status == TRITET_ERROR_INITIALIZE_FAILED {
        Err(Error::InitializeFailed)
    } else if status == TRITET_ERROR_DEGENERATE_INPUT {
        Err(Error::DegenerateInput)
    } else if status == TRITET_ERROR_NULL_POINT_LIST {
        Err(Error::NullPointList)
    } else if status == TRITET_ERROR_NULL_SEGMENT_LIST {
        Err(Error::NullSegmentList)
    } else if status == TRITET_ERROR_NULL_FACET_LIST {
        Err(Error::NullFacetList)
    } else if status == TRITET_ERROR_NULL_FACET_POLYGON_LIST {
        Err(Error::NullFacetPolygonList)
    } else if status == TRITET_ERROR_NULL_REGION_LIST {
        Err(Error::NullRegionList)
    } else if status == TRITET_ERROR_NULL_HOLE_LIST {
        Err(Error::NullHoleList)
    } else if status == TRITET_ERROR_INVALID_POINT_INDEX {
        Err(Error::PointIndex)
    } else if status == TRITET_ERROR_INVALID_SEGMENT_INDEX {
        Err(Error::SegmentIndex)
    } else if status == TRITET_ERROR_INVALID_SEGMENT_POINT_ID {
        Err(Error::SegmentPointId)
    } else if status == TRITET_ERROR_INVALID_FACET_INDEX {
        Err(Error::FacetIndex)
    } else if status == TRITET_ERROR_INVALID_FACET_POINT_INDEX {
        Err(Error::FacetPointIndex)
    } else if status == TRITET_ERROR_INVALID_FACET_POINT_ID {
        Err(Error::FacetPointId)
    } else if status == TRITET_ERROR_INVALID_REGION_INDEX {
        Err(Error::RegionIndex)
    } else if status == TRITET_ERROR_INVALID_HOLE_INDEX {
        Err(Error::HoleIndex)
    } else if status == TRITET_ERROR_INVALID_FACET_NUM_POLYGON {
        Err(Error::FacetPolygonCount)
    } else {
        Err(Error::UnknownStatus)
    }
}

/// Translates a status code of the engine.
pub fn handle_status(status: i32) -> (res: Result<(), Error>)
    ensures
        res == status_meaning(status),
        res is Ok <==> status == TRITET_SUCCESS,
{
    if status == TRITET_SUCCESS {
        Ok(())
    } else if status == TRITET_ERROR_NULL_DATA {
        Err(Error::NullData)
    } else if status == TRITET_ERROR_STRING_CONCAT {
        Err(Error::StringConcat)
    } else if status == TRITET_ERROR_INITIALIZE_FAILED {
        Err(Error::InitializeFailed)
    } else if status == TRITET_ERROR_DEGENERATE_INPUT {
        Err(Error::DegenerateInput)
    } else if status == TRITET_ERROR_NULL_POINT_LIST {
        Err(Error::NullPointList)
    } else if status == TRITET_ERROR_NULL_SEGMENT_LIST {
        Err(Error::NullSegmentList)
    } else if status == TRITET_ERROR_NULL_FACET_LIST {
        Err(Error::NullFacetList)
    } else if status == TRITET_ERROR_NULL_FACET_POLYGON_LIST {
        Err(Error::NullFacetPolygonList)
    } else if status == TRITET_ERROR_NULL_REGION_LIST {
        Err(Error::NullRegionList)
    } else if status == TRITET_ERROR_NULL_HOLE_LIST {
        Err(Error::NullHoleList)
    } else if status == TRITET_ERROR_INVALID_POINT_INDEX {
        Err(Error::PointIndex)
    } else if status == TRITET_ERROR_INVALID_SEGMENT_INDEX {
        Err(Error::SegmentIndex)
    } else if status == TRITET_ERROR_INVALID_SEGMENT_POINT_ID {
        Err(Error::SegmentPointId)
    } else if status == TRITET_ERROR_INVALID_FACET_INDEX {
        Err(Error::FacetIndex)
    } else if status == TRITET_ERROR_INVALID_FACET_POINT_INDEX {
        Err(Error::FacetPointIndex)
    } else if status == TRITET_ERROR_INVALID_FACET_POINT_ID {
        Err(Error::FacetPointId)
    } else if status == TRITET_ERROR_INVALID_REGION_INDEX {
        Err(Error::RegionIndex)
    } else if status == TRITET_ERROR_INVALID_HOLE_INDEX {
        Err(Error::HoleIndex)
    } else if status == TRITET_ERROR_INVALID_FACET_NUM_POLYGON {
        Err(Error::FacetPolygonCount)
    } else {
        Err(Error::UnknownStatus)
    }
}

/// A status that the engine's protocol does not know is reported as an
/// internal inconsistency, and no known status is.
pub proof fn lemma_unknown_status_is_inconsistency(status: i32)
    ensures
        status_meaning(status) is Err ==> (status_meaning(status)->Err_0.spec_kind()
            == ErrorKind::InternalInconsistency <==> status_meaning(status)->Err_0
            == Error::UnknownStatus),
{
}

} // verus!
