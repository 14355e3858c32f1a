use vstd::prelude::*;

verus! {

/// `id` reads as a random (version 4) UUID: version nibble 4, variant bits `10`.
pub open spec fn is_v4(id: u128) -> bool {
    (id >> 76u128) & 0xfu128 == 4 && (id >> 62u128) & 0x3u128 == 2
}

/// Relies on `uuid::Uuid::new_v4`, read back as its 128-bit value by
/// `Uuid::as_u128`: a random identifier whose version nibble is 4 and whose
/// variant bits are `10`. The call panics only where the operating system's
/// random source fails.
#[verifier::external_body]
pub(crate) fn new_entry_id() -> (r: u128)
    ensures
        is_v4(r),
{
    uuid::Uuid::new_v4().as_u128()
}

} // verus!
