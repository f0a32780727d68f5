//! Decisions of the one-time client-registration flow.  The polling loop,
//! its waiting and its HTTP calls stay with the binary; the answer-by-answer
//! policy is decided here.

use vstd::prelude::*;
use vstd::string::StringExecFns;

verus! {

/// The registration state the remote service reports for a client.
#[derive(Clone, Copy, Debug, PartialEq, Eq, Structural)]
pub enum ClientRegistrationStatus {
    Pending,
    Approved,
    Rejected,
}

/// What the registration polling loop does after one status answer.
#[derive(Clone, Copy, Debug, PartialEq, Eq, Structural)]
pub enum RegistrationAction {
    /// Wait and poll the status again.
    Retry,
    /// Registration was approved: report the token and stop.
    Complete,
    /// Registration was rejected: fail and stop.
    Abort,
}

/// The action each reported status calls for: polling goes on exactly while
/// the registration is pending, approval completes, rejection aborts.
pub fn next_registration_action(status: ClientRegistrationStatus) -> (r: RegistrationAction)
    ensures
        r == (match status {
            ClientRegistrationStatus::Pending => RegistrationAction::Retry,
            ClientRegistrationStatus::Approved => RegistrationAction::Complete,
            ClientRegistrationStatus::Rejected => RegistrationAction::Abort,
        }),
{
    match status {
        ClientRegistrationStatus::Pending => RegistrationAction::Retry,
        ClientRegistrationStatus::Approved => RegistrationAction::Complete,
        ClientRegistrationStatus::Rejected => RegistrationAction::Abort,
    }
}

/// URL of the registration endpoint under a base URL.
pub fn register_url(base_url: &str) -> (r: String)
    ensures
        r@ == base_url@ + "/client/register"@,
{
    String::from_str(base_url).concat("/client/register")
}

/// URL of the registration-status endpoint for one client.
pub fn registration_status_url(base_url: &str, client_id: &str) -> (r: String)
    ensures
        r@ == base_url@ + "/client/registration_status/"@ + client_id@,
{
    String::from_str(base_url).concat("/client/registration_status/").concat(client_id)
}

} // verus!
