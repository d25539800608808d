use vstd::prelude::*;
use crate::toshiba_api::constants::STATUS_URL;
use crate::toshiba_api::request::{authorized_get, get_with_token, Request};

verus! {

/// Builds the request for the current state of one unit.
pub fn status_request(access_token: &str, air_conditioner_id: &str) -> (r: Request)
    ensures
        r@ == authorized_get(STATUS_URL@, access_token@, "ACId"@, air_conditioner_id@),
{
    get_with_token(STATUS_URL, access_token, "ACId", air_conditioner_id)
}

} // verus!
