//! What opening a session takes: the profile whose long-lived key signs the
//! exchange, the device, and the one-time code.

use vstd::prelude::*;

verus! {

/// Why no session could be opened.
#[derive(Debug, Clone, Copy, PartialEq, Eq, Structural)]
pub enum AuthError {
    /// The exchange was rejected: a wrong or expired code, or a wrong
    /// device.
    AuthenticationFailed,
    /// The network client could not be set up.
    TransportFailed,
}

/// The request for a session's temporary credentials. How long the session
/// lasts is left to the service's client.
#[derive(Debug)]
pub struct StsSessionRequest {
    /// The profile of the credentials file whose key signs the request.
    pub profile: String,
    /// The device that gave the one-time code.
    pub mfa_serial: Option<String>,
    /// The one-time code.
    pub mfa_code: Option<String>,
}

/// An `StsSessionRequest`, its strings as sequences of characters.
pub struct StsSessionRequestView {
    pub profile: Seq<char>,
    pub mfa_serial: Option<Seq<char>>,
    pub mfa_code: Option<Seq<char>>,
}

impl View for StsSessionRequest {
    type V = StsSessionRequestView;

    open spec fn view(&self) -> StsSessionRequestView {
        StsSessionRequestView {
            profile: self.profile@,
            mfa_serial: crate::aws::model::text_of(self.mfa_serial),
            mfa_code: crate::aws::model::text_of(self.mfa_code),
        }
    }
}

/// The request that opens a session for `profile` with a code of the device
/// `mfa_arn`.
pub open spec fn session_request(
    profile: Seq<char>,
    mfa_arn: Seq<char>,
    mfa_code: Seq<char>,
) -> StsSessionRequestView {
    StsSessionRequestView {
        profile,
        mfa_serial: Some(mfa_arn),
        mfa_code: Some(mfa_code),
    }
}

/// Makes the requests for sessions.
pub struct CredentialsProviderFactory;

impl CredentialsProviderFactory {
    /// The request from which the provider of the session's credentials is
    /// built: the profile's long-lived key signs it, and the device and its
    /// one-time code go with it.
    pub fn get_sts_credentials_provider(profile: &str, mfa_arn: &str, mfa_code: &str) -> (request:
        StsSessionRequest)
        ensures
            request@ == session_request(profile@, mfa_arn@, mfa_code@),
    {
        StsSessionRequest {
            profile: profile.to_owned(),
            mfa_serial: Some(mfa_arn.to_owned()),
            mfa_code: Some(mfa_code.to_owned()),
        }
    }
}

} // verus!
