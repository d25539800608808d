use toshiba_ac::toshiba_api::constants::{
    BASE_ADDRESS, LOGIN_PATH, LOGIN_URL, MAPPING_PATH, MAPPING_URL, SETTINGS_PATH, SETTINGS_URL,
    STATUS_PATH, STATUS_URL,
};
use toshiba_ac::toshiba_api::mapping::{
    decode_first_group, decode_units, mappings_request, AcUnitResult, AirConditionerMapping, DecodeError, GroupMap,
    MappingsResponse, PowerState,
};
use toshiba_ac::toshiba_api::request::{bearer_header, field, get_with_token, Field, Method};
use toshiba_ac::toshiba_api::status::status_request;

fn unit(name: &str, state: &str) -> AirConditionerMapping {
    AirConditionerMapping {
        id: String::from("2ba90997-30f8-4e18-a60f-114438ada0c5"),
        device_unique_id: String::from("fde8e19f-4191-44b4-990c-bb91f5124be1"),
        name: String::from(name),
        acmodel_id: String::from("3"),
        description: String::from("AC_fde8e19f-4191-44b4-990c-bb91f5124be1"),
        created_date: String::from("6/14/2022 3:13:00 PM"),
        ac_state_data: String::from(state),
        firmware_upgrade_status: String::new(),
        url: String::new(),
        file: String::new(),
        merit_feature: String::from("2c02"),
        adapter_type: String::from("0"),
        firmware_version: String::from("2.0.00"),
        firmware_code: String::from("0001"),
    }
}

fn group(name: &str, units: Vec<AirConditionerMapping>) -> GroupMap {
    GroupMap {
        group_id: String::from("g"),
        group_name: String::from(name),
        consumer_id: String::from("steve"),
        time_zone: String::from("UTC"),
        ac_list: units,
    }
}

#[test]
fn groups_come_out_as_they_went_in() {
    let groups = vec![
        group("b", vec![unit("one", "30"), unit("two", "31")]),
        group("a", Vec::new()),
        group("b", vec![unit("one", "30")]),
    ];
    let response = MappingsResponse::new(groups.clone(), true, String::from("Success"));
    assert!(response.is_success());
    assert_eq!(response.message(), "Success");
    assert_eq!(response.into_groups(), groups);
}

#[test]
fn empty_envelope_holds_no_group() {
    let response = MappingsResponse::new(Vec::new(), false, String::new());
    assert!(!response.is_success());
    assert_eq!(response.message(), "");
    assert!(response.into_groups().is_empty());
}

#[test]
fn units_are_decoded_in_order() {
    let units = vec![
        unit("Living room", "31411841316400101710fe0b00001002000000"),
        unit("Bedroom", "30411841316400101710fe0b00001002000000"),
    ];
    let results = decode_units(&units);
    assert_eq!(results.len(), 2);
    assert_eq!(results[0].name, "Living room");
    assert_eq!(results[0].state.unwrap().power_status, PowerState::Off);
    assert_eq!(results[1].name, "Bedroom");
    assert_eq!(results[1].state.unwrap().power_status, PowerState::On);
}

#[test]
fn a_refused_payload_does_not_touch_its_siblings() {
    let units = vec![
        unit("first", "31411841316400101710fe0b00001002000000"),
        unit("broken", "3141zz"),
        unit("short", "3141"),
        unit("last", "30411841316400101710fe0b00001002000000"),
    ];
    let results = decode_units(&units);
    assert_eq!(results.len(), 4);
    assert!(results[0].state.is_ok());
    assert_eq!(
        results[1],
        AcUnitResult {
            name: String::from("broken"),
            state: Err(DecodeError::MalformedInput { position: 4 }),
        }
    );
    assert_eq!(results[2].state, Err(DecodeError::MalformedInput { position: 4 }));
    assert_eq!(results[3].name, "last");
    assert_eq!(results[3].state.unwrap().power_status, PowerState::On);
}

#[test]
fn only_the_first_group_is_decoded() {
    let groups = vec![
        group("home", vec![unit("Living room", "31411841316400101710fe0b00001002000000")]),
        group("office", vec![unit("Desk", "30411841316400101710fe0b00001002000000")]),
    ];
    let results = decode_first_group(&groups).unwrap();
    assert_eq!(results.len(), 1);
    assert_eq!(results[0].name, "Living room");
    assert_eq!(results[0].state.unwrap().power_status, PowerState::Off);
}

#[test]
fn first_group_without_units_gives_no_results() {
    let groups = vec![group("empty", Vec::new()), group("home", vec![unit("a", "30")])];
    assert_eq!(decode_first_group(&groups), Some(Vec::new()));
}

#[test]
fn no_group_means_nothing_to_decode() {
    assert_eq!(decode_first_group(&Vec::new()), None);
}

#[test]
fn no_units_give_no_results() {
    assert!(decode_units(&Vec::new()).is_empty());
}

#[test]
fn bearer_header_presents_the_token() {
    assert_eq!(bearer_header("dave"), "Bearer dave");
    assert_eq!(bearer_header(""), "Bearer ");
}

#[test]
fn field_keeps_name_and_value() {
    assert_eq!(
        field("ACId", "42"),
        Field { name: String::from("ACId"), value: String::from("42") }
    );
}

#[test]
fn get_with_token_carries_one_parameter() {
    let request = get_with_token("https://example.org/x", "tok", "key", "value");
    assert_eq!(request.method, Method::Get);
    assert_eq!(request.url, "https://example.org/x");
    assert_eq!(request.authorization, Some(String::from("Bearer tok")));
    assert_eq!(request.query, vec![field("key", "value")]);
    assert!(request.body.is_empty());
}

#[test]
fn mappings_request_asks_for_the_consumer() {
    let request = mappings_request("dave", "steve");
    assert_eq!(request.method, Method::Get);
    assert_eq!(
        request.url,
        "https://toshibamobileservice.azurewebsites.net/api/AC/GetConsumerACMapping"
    );
    assert_eq!(request.authorization, Some(String::from("Bearer dave")));
    assert_eq!(request.query, vec![field("consumerId", "steve")]);
    assert!(request.body.is_empty());
}

#[test]
fn status_request_asks_for_the_unit() {
    let request = status_request("dave", "2ba90997");
    assert_eq!(request.method, Method::Get);
    assert_eq!(
        request.url,
        "https://toshibamobileservice.azurewebsites.net/api/AC/GetCurrentACState"
    );
    assert_eq!(request.authorization, Some(String::from("Bearer dave")));
    assert_eq!(request.query, vec![field("ACId", "2ba90997")]);
    assert!(request.body.is_empty());
}

#[test]
fn endpoints_lie_under_the_base_address() {
    assert_eq!(LOGIN_URL, format!("{}{}", BASE_ADDRESS, LOGIN_PATH));
    assert_eq!(MAPPING_URL, format!("{}{}", BASE_ADDRESS, MAPPING_PATH));
    assert_eq!(STATUS_URL, format!("{}{}", BASE_ADDRESS, STATUS_PATH));
    assert_eq!(SETTINGS_URL, format!("{}{}", BASE_ADDRESS, SETTINGS_PATH));
    assert_eq!(LOGIN_URL, "https://toshibamobileservice.azurewebsites.net/api/Consumer/Login");
    assert_eq!(
        SETTINGS_URL,
        "https://toshibamobileservice.azurewebsites.net/api/AC/GetConsumerProgramSettings"
    );
}
