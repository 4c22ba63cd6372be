//! Fresh identifiers for new tasks.

use vstd::prelude::*;
use crate::task::TaskId;

verus! {

/// Draws a fresh identifier with `uuid::Uuid::new_v4` and hands back its bits
/// as `Uuid::as_u128` gives them.
///
/// Trusted, not proved: the identifier has the layout of a random UUID. The
/// outside function takes 128 bits from the operating system's generator,
/// clears the version and variant bits and sets them to version 4 and the
/// standard variant; nothing is claimed of the other 122 bits. It panics if
/// the operating system cannot deliver random bytes.
#[verifier::external_body]
pub(crate) fn random_task_id() -> (id: TaskId)
    ensures
        id.is_random(),
{
    TaskId { value: uuid::Uuid::new_v4().as_u128() }
}

} // verus!
