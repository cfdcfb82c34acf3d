use vstd::prelude::*;

use vstd::string::StringExecFns;

use crate::protocol::{ControlError, CredentialResponse, ScopedCredential};

verus! {

/// `text` without its trailing `/` characters.
pub open spec fn without_trailing_slashes(text: Seq<char>) -> Seq<char>
    decreases text.len(),
{
    if text.len() > 0 && text.last() == '/' {
        without_trailing_slashes(text.drop_last())
    } else {
        text
    }
}

/// The base address of an app's loopback endpoint, with trailing slashes removed so that
/// paths can be appended.
pub fn endpoint_base(endpoint: &str) -> (base: String)
    ensures
        base@ == without_trailing_slashes(endpoint@),
{
    let mut end: usize = endpoint.unicode_len();
    assert(endpoint@.subrange(0, end as int) =~= endpoint@);
    while end > 0 && endpoint.get_char(end - 1) == '/'
        invariant
            0 <= end <= endpoint@.len(),
            without_trailing_slashes(endpoint@.subrange(0, end as int)) == without_trailing_slashes(
                endpoint@,
            ),
        decreases end,
    {
        assert(endpoint@.subrange(0, end as int).drop_last() =~= endpoint@.subrange(0, end - 1));
        end = end - 1;
    }
    endpoint.substring_char(0, end).to_owned()
}

/// The credential endpoint under `base`.
pub fn credentials_url(base: &String) -> (url: String)
    ensures
        url@ == base@ + "/v1/control/credentials"@,
{
    base.clone().concat("/v1/control/credentials")
}

/// The control endpoint under `base`.
pub fn control_url(base: &String) -> (url: String)
    ensures
        url@ == base@ + "/v1/control"@,
{
    base.clone().concat("/v1/control")
}

/// Why a credential response yields no credential.
#[derive(Clone, Debug, PartialEq, Eq)]
pub enum CredentialFailure {
    /// The app refused the request with this error.
    Refused(ControlError),
    /// The response carried neither an error nor a credential.
    Missing,
}

/// The credential that a decoded credential response carries. A reported error wins over
/// a credential; a response with neither is `Missing`.
pub fn credential_from_response(response: CredentialResponse) -> (result: Result<
    ScopedCredential,
    CredentialFailure,
>)
    ensures
        match response.error {
            Some(error) => result == Err::<ScopedCredential, CredentialFailure>(
                CredentialFailure::Refused(error),
            ),
            None => match response.credential {
                Some(credential) => result == Ok::<ScopedCredential, CredentialFailure>(credential),
                None => result == Err::<ScopedCredential, CredentialFailure>(CredentialFailure::Missing),
            },
        },
{
    if let Some(error) = response.error {
        return Err(CredentialFailure::Refused(error));
    }
    match response.credential {
        Some(credential) => Ok(credential),
        None => Err(CredentialFailure::Missing),
    }
}

} // verus!
