//! Manifests that triggers declare.

use crate::storage::{Numeral, ResourceId};
use crate::text::numeral;
use crate::types::{OwnedManifestProfile, Trigger};
use vstd::prelude::*;

verus! {

/// Take the manifest of a trigger into storage of its own. A resource identifier that does not
/// fit is refused.
pub fn parse_trigger(trigger: &Trigger<'_>) -> (r: Result<OwnedManifestProfile, ()>)
    ensures
        r is Ok <==> crate::model::trigger_manifest(*trigger) is Some,
        r matches Ok(manifest) ==> crate::model::trigger_manifest(*trigger) == Some(manifest@),
{
    let mut resource_id = ResourceId::new();
    match resource_id.extend_from_slice(trigger.resource.as_bytes()) {
        Ok(()) => {},
        Err(_) => return Err(()),
    }
    assert(resource_id@ =~= vstd::utf8::encode_utf8(trigger.resource@));
    Ok(
        OwnedManifestProfile {
            sequence: trigger.sequence,
            size: trigger.size,
            resource_id,
            fnv1a64: trigger.digest,
        },
    )
}

/// Decimal identifier of an update, which always fits.
pub fn manifest_id(sequence: u64) -> (r: Result<Numeral, ()>)
    ensures
        r matches Ok(id) && id@ == crate::text::decimal(sequence as nat),
{
    numeral(sequence)
}

} // verus!
