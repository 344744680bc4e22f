//! One datagram's way from bytes to a notification ready to be shown.
use vstd::prelude::*;

use crate::builder::{build_notification, descriptor_of, shows};
use crate::request::{decode_payload, decoded, lossy_text_of, opt_view, DecodeError};

verus! {

/// Decodes a datagram's payload and sets up `n` as its notification. On
/// success it hands back the link that a `"show"` action on it is to open; on
/// failure, the decoding error, and `n` is left as it was.
pub fn parse_notification(n: &mut notify_rust::Notification, payload: &[u8]) -> (r: Result<
    Option<String>,
    DecodeError,
>)
    ensures
        match r {
            Ok(link) => decoded(lossy_text_of(payload@)) matches Ok(q) && shows(
                *final(n),
                descriptor_of(q),
            ) && opt_view(link) == q.link,
            Err(e) => decoded(lossy_text_of(payload@)) == Err::<crate::request::RequestView, DecodeError>(e)
                && *final(n) == *old(n),
        },
{
    match decode_payload(payload) {
        Ok(req) => Ok(build_notification(n, &req)),
        Err(e) => Err(e),
    }
}

} // verus!
