use vstd::prelude::*;
use vstd::string::*;
use crate::config::Config;
use crate::toshiba_api::constants::LOGIN_URL;
use crate::toshiba_api::request::{Field, Method, Request, RequestView};

verus! {

/// What the service returns with a rejected login.
#[derive(Debug, Clone, PartialEq, Eq)]
pub struct LoginErrorResponse {
    pub error: String,
}

/// The session that a successful login opens.
#[derive(Debug, Clone, PartialEq, Eq)]
pub struct LoginSuccessResponse {
    pub access_token: String,
    pub token_type: String,
    pub expires_in: u64,
    pub consumer_id: String,
    pub country_id: u32,
    pub consumer_master_id: String,
}

/// The outcome of a login, told apart by the status code of the response.
#[derive(Debug, Clone, PartialEq, Eq)]
pub enum LoginMessage {
    InvalidUserNameOrPassword { res_obj: LoginErrorResponse, is_success: bool, message: String },
    Success { res_obj: LoginSuccessResponse, is_success: bool, message: String },
}

/// The status codes of a login response that are understood.
#[derive(Debug, Clone, Copy, PartialEq, Eq, Structural)]
pub enum LoginStatus {
    InvalidUserNameOrPassword,
    Success,
}

/// The members of a login response, as they were found in it. Which of the optional
/// ones belong to the response depends on its status code.
#[derive(Debug, Clone, PartialEq, Eq)]
pub struct LoginBody {
    pub status_code: String,
    pub is_success: bool,
    pub message: String,
    pub error: Option<String>,
    pub access_token: Option<String>,
    pub token_type: Option<String>,
    pub expires_in: Option<u64>,
    pub consumer_id: Option<String>,
    pub country_id: Option<u32>,
    pub consumer_master_id: Option<String>,
}

/// Why a login response was not understood.
#[derive(Debug, Clone, Copy, PartialEq, Eq, Structural)]
pub enum BodyError {
    /// The status code is none of the known ones.
    UnrecognizedStatus,
    /// A member that the status code calls for is absent.
    IncompletePayload,
}

/// The request that presents the credentials to the login endpoint.
pub open spec fn login_request_view(username: Seq<char>, password: Seq<char>) -> RequestView {
    RequestView {
        method: Method::Post,
        url: LOGIN_URL@,
        authorization: None,
        query: Seq::empty(),
        body: seq![("Username"@, username), ("Password"@, password)],
    }
}

/// Builds the login request for the configured credentials.
pub fn login_request(config: &Config) -> (r: Request)
    ensures
        r@ == login_request_view(config.username@, config.password@),
{
    let mut body: Vec<Field> = Vec::new();
    body.push(Field { name: String::from_str("Username"), value: config.username.clone() });
    body.push(Field { name: String::from_str("Password"), value: config.password.clone() });
    let request = Request {
        method: Method::Post,
        url: String::from_str(LOGIN_URL),
        authorization: None,
        query: Vec::new(),
        body: body,
    };
    assert(request@.query =~= Seq::<(Seq<char>, Seq<char>)>::empty());
    assert(request@.body =~= seq![
        ("Username"@, config.username@),
        ("Password"@, config.password@),
    ]);
    request
}

impl LoginStatus {
    /// The status that a status code names, if it is a known one.
    pub open spec fn of_code(code: Seq<char>) -> Option<LoginStatus> {
        if code == "InvalidUserNameorPassword"@ {
            Some(LoginStatus::InvalidUserNameOrPassword)
        } else if code == "Success"@ {
            Some(LoginStatus::Success)
        } else {
            None
        }
    }

    /// Reads the status code of a login response.
    pub fn from_code(code: &String) -> (r: Option<LoginStatus>)
        ensures
            r == LoginStatus::of_code(code@),
    {
        if *code == String::from_str("InvalidUserNameorPassword") {
            Some(LoginStatus::InvalidUserNameOrPassword)
        } else if *code == String::from_str("Success") {
            Some(LoginStatus::Success)
        } else {
            None
        }
    }
}

impl LoginMessage {
    /// What a login response means: its status code decides which shape the rest
    /// must have, and only that shape is read.
    pub open spec fn of_body(body: LoginBody) -> Result<LoginMessage, BodyError> {
        match LoginStatus::of_code(body.status_code@) {
            None => Err(BodyError::UnrecognizedStatus),
            Some(LoginStatus::InvalidUserNameOrPassword) => match body.error {
                Some(error) => Ok(
                    LoginMessage::InvalidUserNameOrPassword {
                        res_obj: LoginErrorResponse { error },
                        is_success: body.is_success,
                        message: body.message,
                    },
                ),
                None => Err(BodyError::IncompletePayload),
            },
            Some(LoginStatus::Success) => match (
                body.access_token,
                body.token_type,
                body.expires_in,
                body.consumer_id,
                body.country_id,
                body.consumer_master_id,
            ) {
                (
                    Some(access_token),
                    Some(token_type),
                    Some(expires_in),
                    Some(consumer_id),
                    Some(country_id),
                    Some(consumer_master_id),
                ) => Ok(
                    LoginMessage::Success {
                        res_obj: LoginSuccessResponse {
                            access_token,
                            token_type,
                            expires_in,
                            consumer_id,
                            country_id,
                            consumer_master_id,
                        },
                        is_success: body.is_success,
                        message: body.message,
                    },
                ),
                _ => Err(BodyError::IncompletePayload),
            },
        }
    }

    /// Interprets a login response: reads the status code first, then the members
    /// that this status calls for.
    pub fn from_body(body: LoginBody) -> (r: Result<LoginMessage, BodyError>)
        ensures
            r == LoginMessage::of_body(body),
    {
        match LoginStatus::from_code(&body.status_code) {
            None => Err(BodyError::UnrecognizedStatus),
            Some(LoginStatus::InvalidUserNameOrPassword) => match body.error {
                Some(error) => Ok(
                    LoginMessage::InvalidUserNameOrPassword {
                        res_obj: LoginErrorResponse { error },
                        is_success: body.is_success,
                        message: body.message,
                    },
                ),
                None => Err(BodyError::IncompletePayload),
            },
            Some(LoginStatus::Success) => match (
                body.access_token,
                body.token_type,
                body.expires_in,
                body.consumer_id,
                body.country_id,
                body.consumer_master_id,
            ) {
                (
                    Some(access_token),
                    Some(token_type),
                    Some(expires_in),
                    Some(consumer_id),
                    Some(country_id),
                    Some(consumer_master_id),
                ) => Ok(
                    LoginMessage::Success {
                        res_obj: LoginSuccessResponse {
                            access_token,
                            token_type,
                            expires_in,
                            consumer_id,
                            country_id,
                            consumer_master_id,
                        },
                        is_success: body.is_success,
                        message: body.message,
                    },
                ),
                _ => Err(BodyError::IncompletePayload),
            },
        }
    }
}

/// A response whose status code reports a wrong user name or password is never
/// read as a success, whatever else it holds; where it carries its error, it is
/// read as the rejection, with the response's own message.
pub proof fn lemma_rejection_is_never_success(body: LoginBody)
    requires
        body.status_code@ == "InvalidUserNameorPassword"@,
    ensures
        !(LoginMessage::of_body(body) matches Ok(LoginMessage::Success { .. })),
        body.error matches Some(error) ==> LoginMessage::of_body(body) == Ok::<
            LoginMessage,
            BodyError,
        >(
            LoginMessage::InvalidUserNameOrPassword {
                res_obj: LoginErrorResponse { error },
                is_success: body.is_success,
                message: body.message,
            },
        ),
{
}

/// A response whose status code reports success is never read as a rejection.
pub proof fn lemma_success_is_never_rejection(body: LoginBody)
    requires
        body.status_code@ == "Success"@,
    ensures
        !(LoginMessage::of_body(body) matches Ok(LoginMessage::InvalidUserNameOrPassword { .. })),
{
    reveal_strlit("Success");
    reveal_strlit("InvalidUserNameorPassword");
    assert("Success"@.len() != "InvalidUserNameorPassword"@.len());
}

} // verus!
