use vstd::prelude::*;

verus! {

/// The address of the remote service; every endpoint lies under it.
pub const BASE_ADDRESS: &'static str = "https://toshibamobileservice.azurewebsites.net";

pub const LOGIN_PATH: &'static str = "/api/Consumer/Login";

pub const LOGIN_URL: &'static str = "https://toshibamobileservice.azurewebsites.net/api/Consumer/Login";

pub const MAPPING_PATH: &'static str = "/api/AC/GetConsumerACMapping";

pub const MAPPING_URL: &'static str =
    "https://toshibamobileservice.azurewebsites.net/api/AC/GetConsumerACMapping";

pub const STATUS_PATH: &'static str = "/api/AC/GetCurrentACState";

pub const STATUS_URL: &'static str =
    "https://toshibamobileservice.azurewebsites.net/api/AC/GetCurrentACState";

pub const SETTINGS_PATH: &'static str = "/api/AC/GetConsumerProgramSettings";

pub const SETTINGS_URL: &'static str =
    "https://toshibamobileservice.azurewebsites.net/api/AC/GetConsumerProgramSettings";

/// Each endpoint is the service's address followed by the endpoint's path.
pub proof fn lemma_urls_extend_base()
    ensures
        LOGIN_URL@ == BASE_ADDRESS@ + LOGIN_PATH@,
        MAPPING_URL@ == BASE_ADDRESS@ + MAPPING_PATH@,
        STATUS_URL@ == BASE_ADDRESS@ + STATUS_PATH@,
        SETTINGS_URL@ == BASE_ADDRESS@ + SETTINGS_PATH@,
{
    reveal_strlit("https://toshibamobileservice.azurewebsites.net");
    reveal_strlit("/api/Consumer/Login");
    reveal_strlit("https://toshibamobileservice.azurewebsites.net/api/Consumer/Login");
    reveal_strlit("/api/AC/GetConsumerACMapping");
    reveal_strlit("https://toshibamobileservice.azurewebsites.net/api/AC/GetConsumerACMapping");
    reveal_strlit("/api/AC/GetCurrentACState");
    reveal_strlit("https://toshibamobileservice.azurewebsites.net/api/AC/GetCurrentACState");
    reveal_strlit("/api/AC/GetConsumerProgramSettings");
    reveal_strlit(
        "https://toshibamobileservice.azurewebsites.net/api/AC/GetConsumerProgramSettings",
    );
    assert(LOGIN_URL@ =~= BASE_ADDRESS@ + LOGIN_PATH@);
    assert(MAPPING_URL@ =~= BASE_ADDRESS@ + MAPPING_PATH@);
    assert(STATUS_URL@ =~= BASE_ADDRESS@ + STATUS_PATH@);
    assert(SETTINGS_URL@ =~= BASE_ADDRESS@ + SETTINGS_PATH@);
}

} // verus!
