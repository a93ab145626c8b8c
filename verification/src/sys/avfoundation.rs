use crate::CameraInfo;
use vstd::prelude::*;

verus! {

/// Starts the AVFoundation backend; it needs no setup and always succeeds.
pub fn init() -> (r: crate::Result<()>)
    ensures
        r is Ok,
{
    Ok(())
}

/// The cameras the AVFoundation backend knows of: none yet.
pub open spec fn reported_cameras() -> Seq<CameraInfo> {
    Seq::empty()
}

/// Cameras the AVFoundation backend reports; listing always succeeds.
pub fn list_cameras() -> (r: crate::Result<Vec<CameraInfo>>)
    ensures
        r matches Ok(cameras) && cameras@ == reported_cameras(),
{
    Ok(Vec::new())
}

} // verus!
