//! Player identities: from a 32-bit account id to the 64-bit community id.

use gokz_rs::SteamID;
use vstd::prelude::*;

verus! {

/// What every 32-bit account id is raised by to give its 64-bit community id.
pub const STEAM_ID_OFFSET: u64 = 76561197960265728;

/// The 64-bit community id of the account `id32`.
pub open spec fn spec_steam_id64(id32: int) -> int {
    STEAM_ID_OFFSET + id32
}

/// The 32-bit account id that the community id `id64` was made from.
pub open spec fn spec_steam_id32(id64: int) -> int {
    id64 - STEAM_ID_OFFSET
}

/// Calls `gokz_rs::SteamID::from_id32` and reads the identity back with
/// `SteamID::as_id64`. Trusted: the identity built from `id32` holds
/// `id32` raised by `SteamID::MAGIC_OFFSET`, which is [`STEAM_ID_OFFSET`].
#[verifier::external_body]
pub(crate) fn steam_id64(id32: u32) -> (r: u64)
    ensures
        r == spec_steam_id64(id32 as int),
{
    SteamID::from_id32(id32).as_id64()
}

} // verus!
