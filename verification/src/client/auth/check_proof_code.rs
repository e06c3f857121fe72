//! Stops the login when the server refuses the challenge.

use vstd::prelude::*;

use vstd::string::StringExecFns;

use crate::bytes::{decimal_chars, decimal_string};
use crate::client::auth::types::AuthLogonResult;
use crate::client::packet::{is_error_message, HandlerError, HandlerOutput};
use crate::client::session::HandlerInput;
use crate::errors::FieldError;

verus! {

/// What the user is told of a refused login, by result code.
pub open spec fn logon_failure_message(code: u8) -> Seq<char> {
    if code == AuthLogonResult::AUTH_LOGON_FAILED_UNKNOWN0
        || code == AuthLogonResult::AUTH_LOGON_FAILED_UNKNOWN1
        || code == AuthLogonResult::AUTH_LOGON_FAILED_INVALID_SERVER
        || code == AuthLogonResult::AUTH_LOGON_FAILED_FAIL_NOACCESS {
        "Unable to connect"@
    } else if code == AuthLogonResult::AUTH_LOGON_FAILED_BANNED {
        "Account was banned"@
    } else if code == AuthLogonResult::AUTH_LOGON_FAILED_SUSPENDED {
        "Account was temporary suspended"@
    } else if code == AuthLogonResult::AUTH_LOGON_FAILED_UNKNOWN_ACCOUNT
        || code == AuthLogonResult::AUTH_LOGON_FAILED_INCORRECT_PASSWORD {
        "Credentials not valid"@
    } else if code == AuthLogonResult::AUTH_LOGON_FAILED_ALREADY_ONLINE {
        "Account already online"@
    } else if code == AuthLogonResult::AUTH_LOGON_FAILED_DB_BUSY {
        "Cannot login at this time, try again later"@
    } else {
        "Unknown error with code: \""@ + decimal_chars(code as nat) + "\""@
    }
}

fn failure_message(code: u8) -> (text: String)
    ensures
        text@ == logon_failure_message(code),
{
    if code == AuthLogonResult::AUTH_LOGON_FAILED_UNKNOWN0
        || code == AuthLogonResult::AUTH_LOGON_FAILED_UNKNOWN1
        || code == AuthLogonResult::AUTH_LOGON_FAILED_INVALID_SERVER
        || code == AuthLogonResult::AUTH_LOGON_FAILED_FAIL_NOACCESS {
        "Unable to connect".to_string()
    } else if code == AuthLogonResult::AUTH_LOGON_FAILED_BANNED {
        "Account was banned".to_string()
    } else if code == AuthLogonResult::AUTH_LOGON_FAILED_SUSPENDED {
        "Account was temporary suspended".to_string()
    } else if code == AuthLogonResult::AUTH_LOGON_FAILED_UNKNOWN_ACCOUNT
        || code == AuthLogonResult::AUTH_LOGON_FAILED_INCORRECT_PASSWORD {
        "Credentials not valid".to_string()
    } else if code == AuthLogonResult::AUTH_LOGON_FAILED_ALREADY_ONLINE {
        "Account already online".to_string()
    } else if code == AuthLogonResult::AUTH_LOGON_FAILED_DB_BUSY {
        "Cannot login at this time, try again later".to_string()
    } else {
        let mut text = String::from_str("Unknown error with code: \"");
        let digits = decimal_string(code as u64);
        text.append(digits.as_str());
        text.append("\"");
        text
    }
}

/// Reads the result code of the login challenge answer.
pub struct Handler;

impl Handler {
    /// What the handler does with the answer.
    pub open spec fn answered(
        before: HandlerInput,
        after: HandlerInput,
        result: Result<Vec<HandlerOutput>, HandlerError>,
    ) -> bool {
        &&& (after == before)
        &&& (before.data@.len() < 2 ==> result == Err::<Vec<HandlerOutput>, HandlerError>(
            HandlerError::Field(FieldError::CannotRead),
        ))
        &&& (before.data@.len() >= 2 ==> {
            let code = before.data@[1];
            &&& result is Ok
            &&& code == AuthLogonResult::AUTH_LOGON_SUCCESS ==> result->Ok_0@.len() == 0
            &&& code != AuthLogonResult::AUTH_LOGON_SUCCESS ==> {
                &&& result->Ok_0@.len() == 2
                &&& is_error_message(result->Ok_0@[0], logon_failure_message(code))
                &&& result->Ok_0@[1] is Drop
            }
        })
    }

    /// The answer starts with an unused byte and the result code. A code other than
    /// success gives the reason and drops the connection; success gives nothing.
    pub fn handle(&mut self, input: &mut HandlerInput) -> (result: Result<
        Vec<HandlerOutput>,
        HandlerError,
    >)
        ensures
            Self::answered(*old(input), *final(input), result),
    {
        if input.data.len() < 2 {
            return Err(HandlerError::Field(FieldError::CannotRead));
        }
        let code = input.data[1];
        let mut response: Vec<HandlerOutput> = Vec::new();
        if code != AuthLogonResult::AUTH_LOGON_SUCCESS {
            response.push(HandlerOutput::ErrorMessage(failure_message(code), None));
            response.push(HandlerOutput::Drop);
        }
        Ok(response)
    }
}

} // verus!
