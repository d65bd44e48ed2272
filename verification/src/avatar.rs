//! The avatar collaborator's command surface.
//!
//! The avatar service itself is an external collaborator reached by the
//! host; the library owns only the confirmation a forwarded emotion
//! reports. The avatar state query stays with the host, because its payload
//! carries a fractional intensity.

use vstd::prelude::*;
use crate::errors::DispatchError;

verus! {

/// Confirms the emotion forwarded to the avatar service; forwarding itself
/// never fails at this layer.
pub fn set_avatar_emotion(emotion: String) -> (r: Result<String, DispatchError>)
    ensures
        r matches Ok(m) && m@ == "Emotion set to: "@ + emotion@,
{
    Ok(String::from_str("Emotion set to: ").concat(emotion.as_str()))
}

} // verus!
