//! Identifiers for new tunnels.

use vstd::prelude::*;

verus! {

/// Calls `uuid::Uuid::new_v4` and writes the identifier with `to_string`:
/// a random identifier in hyphenated form, which is 36 characters long with a
/// hyphen after the 8th, 12th, 16th and 20th hexadecimal digit. Nothing is
/// claimed of the digits. The call panics if the operating system gives no
/// random bytes.
#[verifier::external_body]
pub(crate) fn fresh_tunnel_id() -> (id: String)
    ensures
        id@.len() == 36,
        id@[8] == '-',
        id@[13] == '-',
        id@[18] == '-',
        id@[23] == '-',
{
    uuid::Uuid::new_v4().to_string()
}

} // verus!
