//! What the crate computes for the remote-service calls: request URLs, the
//! authorization header, the submission payload, and the reading of a
//! resolution response.  The HTTP transport itself stays with the binary.

use vstd::prelude::*;
use vstd::string::StringExecFns;

use crate::client::{TagResolution, TagResolutionView};
use crate::model::UserId;

verus! {

/// URL of the sign-on endpoint under a base URL.
pub fn sign_on_url(base_url: &str) -> (r: String)
    ensures
        r@ == base_url@ + "/client/sign_on"@,
{
    String::from_str(base_url).concat("/client/sign_on")
}

/// URL of the sign-off endpoint under a base URL.
pub fn sign_off_url(base_url: &str) -> (r: String)
    ensures
        r@ == base_url@ + "/client/sign_off"@,
{
    String::from_str(base_url).concat("/client/sign_off")
}

/// URL of the tag-details endpoint for one tag.
pub fn tag_details_url(base_url: &str, tag: &str) -> (r: String)
    ensures
        r@ == base_url@ + "/tags/"@ + tag@,
{
    String::from_str(base_url).concat("/tags/").concat(tag)
}

/// URL of the status-submission endpoint under a base URL.
pub fn statuses_url(base_url: &str) -> (r: String)
    ensures
        r@ == base_url@ + "/statuses"@,
{
    String::from_str(base_url).concat("/statuses")
}

/// Value of the authorization header for a client token.
pub fn bearer_header_value(client_token: &str) -> (r: String)
    ensures
        r@ == "Bearer "@ + client_token@,
{
    String::from_str("Bearer ").concat(client_token)
}

/// The user a resolved tag belongs to.
pub struct TagUser {
    pub id: UserId,
    pub screen_name: Option<String>,
}

/// The body of a successful tag-details response.
pub struct TagDetails {
    pub identifier: String,
    pub user: TagUser,
    pub sound_name: Option<String>,
}

/// The payload of a status submission.
pub struct StatusUpdate {
    pub user_id: UserId,
    pub party_id: String,
    pub whereabouts_name: String,
}

/// Reads a successful answer of the tag-details endpoint: a body identifies
/// its user and may name a personal feedback sound; no body (the service
/// knows no such tag) is the distinct not-found outcome.
pub fn resolution_for_response(response: Option<TagDetails>) -> (r: TagResolution)
    ensures
        r@ == (match response {
            Some(details) => TagResolutionView::Known {
                user_id: details.user.id@,
                sound_name: details.sound_name.deep_view(),
            },
            None => TagResolutionView::UnknownTag,
        }),
{
    match response {
        Some(details) => TagResolution::Known {
            user_id: details.user.id,
            sound_name: details.sound_name,
        },
        None => TagResolution::UnknownTag,
    }
}

} // verus!
