use vstd::prelude::*;
use vstd::string::*;
use crate::toshiba_api::constants::MAPPING_URL;
use crate::toshiba_api::request::{authorized_get, get_with_token, Request};
use crate::toshiba_api::state::decode_state;
pub use crate::toshiba_api::state::{
    parse_state_data, AirConditionerMode, DecodeError, FanMode, PowerState, StateData,
};

verus! {

/// One unit as the service lists it. `ac_state_data` is the unit's state payload;
/// the other members are carried as they came.
#[derive(Debug, Clone, PartialEq, Eq)]
pub struct AirConditionerMapping {
    pub id: String,
    pub device_unique_id: String,
    pub name: String,
    pub acmodel_id: String,
    pub description: String,
    pub created_date: String,
    pub ac_state_data: String,
    pub firmware_upgrade_status: String,
    pub url: String,
    pub file: String,
    pub merit_feature: String,
    pub adapter_type: String,
    pub firmware_version: String,
    pub firmware_code: String,
}

/// A group of units of one consumer.
#[derive(Debug, Clone, PartialEq, Eq)]
pub struct GroupMap {
    pub group_id: String,
    pub group_name: String,
    pub consumer_id: String,
    pub time_zone: String,
    pub ac_list: Vec<AirConditionerMapping>,
}

/// The envelope in which the service returns the groups.
#[derive(Debug, Clone, PartialEq, Eq)]
pub struct MappingsResponse {
    res_obj: Vec<GroupMap>,
    is_success: bool,
    message: String,
}

/// A unit's name with what its state payload decoded to.
#[derive(Debug, PartialEq, Eq)]
pub struct AcUnitResult {
    pub name: String,
    pub state: Result<StateData, DecodeError>,
}

impl MappingsResponse {
    /// The groups in the envelope, in the order in which the service gave them.
    pub closed spec fn groups(&self) -> Vec<GroupMap> {
        self.res_obj
    }

    /// The envelope's success flag.
    pub closed spec fn succeeded(&self) -> bool {
        self.is_success
    }

    /// The envelope's message.
    pub closed spec fn note(&self) -> String {
        self.message
    }

    /// An envelope with the given members.
    pub fn new(res_obj: Vec<GroupMap>, is_success: bool, message: String) -> (r: MappingsResponse)
        ensures
            r.groups() == res_obj,
            r.succeeded() == is_success,
            r.note() == message,
    {
        MappingsResponse { res_obj, is_success, message }
    }

    /// Whether the service flagged the response as a success.
    pub fn is_success(&self) -> (r: bool)
        ensures
            r == self.succeeded(),
    {
        self.is_success
    }

    /// The message that came with the response.
    pub fn message(&self) -> (r: &String)
        ensures
            *r == self.note(),
    {
        &self.message
    }

    /// Takes the groups out of the envelope, unchanged and in their order.
    pub fn into_groups(self) -> (r: Vec<GroupMap>)
        ensures
            r == self.groups(),
    {
        self.res_obj
    }
}

/// Builds the request for the groups and units of a consumer.
pub fn mappings_request(access_token: &str, consumer_id: &str) -> (r: Request)
    ensures
        r@ == authorized_get(MAPPING_URL@, access_token@, "consumerId"@, consumer_id@),
{
    get_with_token(MAPPING_URL, access_token, "consumerId", consumer_id)
}

/// Whether `results` holds, unit by unit and in order, each unit's name with what its
/// state payload decodes to.
pub open spec fn decoded(units: Seq<AirConditionerMapping>, results: Seq<AcUnitResult>) -> bool {
    &&& results.len() == units.len()
    &&& forall|i: int|
        0 <= i < units.len() ==> {
            &&& (#[trigger] results[i]).name == units[i].name
            &&& results[i].state == decode_state(units[i].ac_state_data@)
        }
}

/// Decodes the state payload of every unit, in order. A payload that is refused
/// stands as an error beside its unit's name and does not touch the others.
pub fn decode_units(units: &Vec<AirConditionerMapping>) -> (r: Vec<AcUnitResult>)
    ensures
        decoded(units@, r@),
{
    let mut results: Vec<AcUnitResult> = Vec::new();
    let mut i: usize = 0;
    while i < units.len()
        invariant
            i <= units@.len(),
            decoded(units@.take(i as int), results@),
        decreases units@.len() - i,
    {
        let unit = &units[i];
        let state = parse_state_data(unit.ac_state_data.as_str());
        results.push(AcUnitResult { name: unit.name.clone(), state });
        i += 1;
    }
    assert(units@.take(i as int) =~= units@);
    results
}

/// Decodes the units of the group that the service lists first. Where it lists no
/// group there is nothing to decode.
pub fn decode_first_group(groups: &Vec<GroupMap>) -> (r: Option<Vec<AcUnitResult>>)
    ensures
        match r {
            Some(results) => groups@.len() > 0 && decoded(groups@[0].ac_list@, results@),
            None => groups@.len() == 0,
        },
{
    if groups.len() == 0 {
        None
    } else {
        Some(decode_units(&groups[0].ac_list))
    }
}

} // verus!
