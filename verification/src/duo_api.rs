//! The account-creation API component: referral-code validation, the
//! payloads of the two remote calls, and the interpretation of the creation
//! response. The network transfer itself stays outside the library; the
//! functions here build exactly what is sent and decide exactly what a
//! response means.

use vstd::prelude::*;

use crate::code::{normalize, spec_normalize};
use crate::errors::TransportError;
use crate::filler::{fresh_correlation_id, random_email, random_password};

verus! {

/// Data sent along with both remote calls to satisfy the service's
/// anti-automation check. The service currently only looks at the site key
/// and the vendor; the token is a placeholder.
pub struct UserCreationSignal {
    pub site_key: String,
    pub token: String,
    pub vendor: u8,
}

/// The fixed contents of a well-formed signal.
pub open spec fn signal_wf(s: UserCreationSignal) -> bool {
    s.site_key@ == "6LcLOdsjAAAAAFfwGusLLnnn492SOGhsCh-uEAvI"@ && s.token@ == "-"@ && s.vendor == 2
}

impl Default for UserCreationSignal {
    /// The one signal value the library ever sends.
    fn default() -> (r: Self)
        ensures
            signal_wf(r),
    {
        UserCreationSignal {
            site_key: String::from_str("6LcLOdsjAAAAAFfwGusLLnnn492SOGhsCh-uEAvI"),
            token: String::from_str("-"),
            vendor: 2,
        }
    }
}

/// The payload of the account-creation call: fixed dummy timezone and
/// locale, the validated referral code, and a fresh correlation identifier.
pub struct UserCreationData {
    pub timezone: String,
    pub from_language: String,
    pub invite_code: String,
    pub distinct_id: String,
    pub signal: UserCreationSignal,
}

impl UserCreationData {
    /// Builds the creation payload for a validated referral code. Only the
    /// correlation identifier varies between calls; it is a fresh draw of 36
    /// characters.
    pub fn new(code: &crate::code::ReferralCode) -> (d: UserCreationData)
        ensures
            d.timezone@ == "America/Montreal"@,
            d.from_language@ == "en"@,
            d.invite_code@ == code@,
            d.distinct_id@.len() == 36,
            signal_wf(d.signal),
    {
        UserCreationData {
            timezone: String::from_str("America/Montreal"),
            from_language: String::from_str("en"),
            invite_code: String::from_str(code.as_str()),
            distinct_id: fresh_correlation_id(),
            signal: UserCreationSignal::default(),
        }
    }
}

/// The payload of the credential-assignment call: randomized filler email
/// and password and a fixed dummy age.
pub struct UserCredentialsData {
    pub email: String,
    pub password: String,
    pub age: String,
    pub signal: UserCreationSignal,
}

impl UserCredentialsData {
    /// Builds the credentials payload: a fresh email, a fresh password of 15
    /// characters, and the fixed dummy age.
    pub fn new() -> (d: UserCredentialsData)
        ensures
            d.email@.len() >= 1,
            d.password@.len() == 15,
            d.age@ == "5"@,
            signal_wf(d.signal),
    {
        UserCredentialsData {
            email: random_email(),
            password: random_password(15),
            age: String::from_str("5"),
            signal: UserCreationSignal::default(),
        }
    }
}

/// The decoded body of a successful creation response: the server-assigned
/// numeric account identifier.
pub struct UserCreationResponse {
    pub id: u32,
}

/// One remotely created, not-yet-configured account: its server-assigned
/// identifier and the bearer token issued at creation, which authenticates
/// the credential-assignment call for exactly this account.
pub struct AccountData {
    pub id: u32,
    pub token: String,
}

/// True for the HTTP status codes counted as success.
pub open spec fn is_success_status(status: u16) -> bool {
    200 <= status < 300
}

impl AccountData {
    /// Decides what a creation response means. The inputs are the plain
    /// parts of the response: the status code, the bearer-token header if
    /// present, and the decoded body if it could be decoded. Exactly one
    /// outcome applies: a non-2xx status is rejected first, then a missing
    /// token header, then an undecodable body; otherwise the account is
    /// handed back with its token.
    pub fn from_response_parts(status: u16, token: Option<String>, body: Option<
        UserCreationResponse,
    >) -> (r: Result<AccountData, TransportError>)
        ensures
            r is Ok <==> (is_success_status(status) && token is Some && body is Some),
            match r {
                Ok(a) => is_success_status(status) && token is Some && body is Some && a.token
                    == token->0 && a.id == body->0.id,
                Err(e) => {
                    &&& (e == TransportError::RemoteRejected <==> !is_success_status(status))
                    &&& (e == TransportError::AuthTokenMissing <==> is_success_status(status)
                        && token is None)
                    &&& (e == TransportError::MalformedResponse <==> is_success_status(status)
                        && token is Some && body is None)
                },
            },
    {
        if !(200 <= status && status < 300) {
            return Err(TransportError::RemoteRejected);
        }
        let tok = match token {
            Some(t) => t,
            None => {
                return Err(TransportError::AuthTokenMissing);
            },
        };
        match body {
            Some(b) => Ok(AccountData { id: b.id, token: tok }),
            None => Err(TransportError::MalformedResponse),
        }
    }
}

/// Decides what a credential-assignment response means. The service's reply
/// body is ignored beyond the status code: a 2xx status configures the
/// account, anything else is rejected.
pub fn credentials_from_response(status: u16) -> (r: Result<(), TransportError>)
    ensures
        r is Ok <==> is_success_status(status),
        r is Err ==> r == Err::<(), TransportError>(TransportError::RemoteRejected),
{
    if 200 <= status && status < 300 {
        Ok(())
    } else {
        Err(TransportError::RemoteRejected)
    }
}

/// The validating entry point of the API component.
pub struct DuoApi {}

impl DuoApi {
    /// Validates a referral code or link, as the original command line takes
    /// it: the link prefix is stripped, the remainder must be 26 ASCII
    /// alphanumeric characters, and the result is uppercased.
    pub fn parse_code(code: &str) -> (r: Result<String, String>)
        ensures
            match r {
                Ok(s) => spec_normalize(code@) == Some(s@),
                Err(e) => spec_normalize(code@) is None && e@ == "Invalid referral code/link"@,
            },
    {
        match normalize(code) {
            Ok(c) => Ok(c.into_string()),
            Err(_) => Err(String::from_str("Invalid referral code/link")),
        }
    }
}

} // verus!
