//! What this instance learns from the EC2 instance metadata service: its id
//! and the code of its region.
use vstd::prelude::*;

verus! {

/// Base url of the instance metadata service.
pub const INSTANCE_METADATA_URL: &'static str = "http://169.254.169.254/latest/meta-data/";

/// Metadata path whose body is the instance id.
pub const INSTANCE_ID_PATH: &'static str = "instance-id";

/// Metadata path whose body is the availability zone.
pub const AVAILABILITY_ZONE_PATH: &'static str = "placement/availability-zone";

/// Why a metadata value could not be had.
#[derive(Debug, PartialEq, Eq)]
pub enum InstanceMetadataError {
    /// The request to the metadata service failed; the text describes how.
    HttpError(String),
    /// The region code is not one of a known region; the text describes it.
    ParseRegionError(String),
}

/// The url of the metadata path `endpoint`, which is relative to the base url.
pub fn metadata_url(endpoint: &str) -> (r: String)
    ensures
        r@ == INSTANCE_METADATA_URL@ + endpoint@,
{
    crate::text::join_str(INSTANCE_METADATA_URL, endpoint)
}

/// The instance id, given the outcome of fetching [`INSTANCE_ID_PATH`]: the
/// body is the id as it stands, and a failed fetch is passed on.
pub fn instance_id(fetched: Result<String, InstanceMetadataError>) -> (r: Result<String, InstanceMetadataError>)
    ensures
        r == fetched,
{
    fetched
}

/// The region code of an availability zone: the zone without its last
/// character (the zone letter).
pub open spec fn region_code(zone: Seq<char>) -> Seq<char> {
    if zone.len() == 0 {
        zone
    } else {
        zone.drop_last()
    }
}

/// Drops the zone letter from an availability zone, giving its region code.
pub fn region_of_zone(zone: String) -> (r: String)
    ensures
        r@ == region_code(zone@),
{
    let mut code = zone;
    let _ = crate::text::pop_char(&mut code);
    code
}

/// The region code, given the outcome of fetching [`AVAILABILITY_ZONE_PATH`];
/// a failed fetch is passed on.
pub fn region(fetched: Result<String, InstanceMetadataError>) -> (r: Result<String, InstanceMetadataError>)
    ensures
        match fetched {
            Ok(zone) => r matches Ok(code) && code@ == region_code(zone@),
            Err(e) => r == Err::<String, InstanceMetadataError>(e),
        },
{
    match fetched {
        Ok(zone) => Ok(region_of_zone(zone)),
        Err(e) => Err(e),
    }
}

} // verus!
