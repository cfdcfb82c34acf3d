use vstd::prelude::*;

use std::time::SystemTime;

use crate::catalog::{
    action_allowed_contexts, action_metadata, action_permission,
    action_requires_authenticated_user,
};
use crate::protocol::{
    ControlActionKind, ControlError, CredentialRequest, ErrorCode, ExecutionContextProof,
    InvocationContext, PermissionCategory, ScopedCredential,
};

verus! {

#[verifier::external_type_specification]
#[verifier::external_body]
pub struct ExSystemTime(SystemTime);

/// Reads the wall clock through `std::time::SystemTime::now`. Nothing is promised of the
/// result: it depends on the machine's clock.
#[verifier::external_body]
pub(crate) fn system_time_now() -> SystemTime {
    SystemTime::now()
}

/// Calls `SystemTime::duration_since(UNIX_EPOCH)` and reads the duration as whole seconds
/// and the nanoseconds past them; `None` stands for the error returned when the clock reads
/// earlier than the epoch. The reading depends on the clock, so only what `Duration`
/// documents of its sub-second part is stated: it stays under one second.
#[verifier::external_body]
pub(crate) fn duration_since_unix_epoch(time: &SystemTime) -> (elapsed: Option<(u64, u32)>)
    ensures
        elapsed matches Some(parts) ==> parts.1 < 1_000_000_000,
{
    match time.duration_since(std::time::UNIX_EPOCH) {
        Ok(duration) => Some((duration.as_secs(), duration.subsec_nanos())),
        Err(_) => None,
    }
}

/// The whole milliseconds of a duration of `seconds` and `nanos`, truncated to 64 bits.
pub open spec fn whole_millis_u64(seconds: u64, nanos: u32) -> u64 {
    ((seconds as int * 1000 + nanos as int / 1_000_000) % 0x1_0000_0000_0000_0000) as u64
}

/// Calls `uuid::Uuid::new_v4` and renders it with the crate's `Display` impl, which writes
/// the lowercase hyphenated form. The contract states the shape the `uuid` sources give that
/// form (36 characters, hyphens at offsets 8, 13, 18 and 23); the random bits are left unsaid.
#[verifier::external_body]
fn random_uuid_string() -> (token: String)
    ensures
        token@.len() == 36,
        token@[8] == '-',
        token@[13] == '-',
        token@[18] == '-',
        token@[23] == '-',
{
    uuid::Uuid::new_v4().to_string()
}

/// The whole milliseconds of a clock reading since the Unix epoch, truncated to 64 bits,
/// or 0 for a clock that reads earlier than the epoch.
pub fn millis_since_epoch(elapsed: Option<(u64, u32)>) -> (ms: u64)
    ensures
        ms == match elapsed {
            Some((seconds, nanos)) => whole_millis_u64(seconds, nanos),
            None => 0,
        },
{
    match elapsed {
        Some((seconds, nanos)) => {
            let millis: u128 = (seconds as u128) * 1000 + (nanos as u128) / 1_000_000;
            let truncated: u64 = millis as u64;
            assert(truncated == whole_millis_u64(seconds, nanos)) by (bit_vector)
                requires
                    millis == (seconds as u128) * 1000 + (nanos as u128) / 1_000_000,
                    truncated == millis as u64;
            truncated
        },
        None => 0,
    }
}

/// Milliseconds since the Unix epoch on the wall clock, or 0 when the clock reads earlier
/// than the epoch. The value is a reading of the clock; nothing more is stated of it.
pub fn now_unix_ms() -> u64 {
    let now = system_time_now();
    millis_since_epoch(duration_since_unix_epoch(&now))
}

/// The per-category permissions granted to outside-Warp clients.
#[derive(Clone, Copy, Debug, PartialEq, Eq, Structural)]
pub struct PermissionGrant {
    pub metadata_read: bool,
    pub underlying_data_read: bool,
    pub app_state_mutation: bool,
    pub metadata_configuration_mutation: bool,
    pub underlying_data_mutation: bool,
}

pub open spec fn grant_allows(grant: PermissionGrant, permission: PermissionCategory) -> bool {
    match permission {
        PermissionCategory::ReadMetadata => grant.metadata_read,
        PermissionCategory::ReadUnderlyingData => grant.underlying_data_read,
        PermissionCategory::MutateAppState => grant.app_state_mutation,
        PermissionCategory::MutateMetadata => grant.metadata_configuration_mutation,
        PermissionCategory::MutateUnderlyingData => grant.underlying_data_mutation,
    }
}

impl Default for PermissionGrant {
    /// No category is granted by default.
    fn default() -> (grant: PermissionGrant)
        ensures
            forall|p: PermissionCategory| !grant_allows(grant, p),
    {
        PermissionGrant {
            metadata_read: false,
            underlying_data_read: false,
            app_state_mutation: false,
            metadata_configuration_mutation: false,
            underlying_data_mutation: false,
        }
    }
}

impl PermissionGrant {
    pub fn allows(&self, permission: &PermissionCategory) -> (allowed: bool)
        ensures
            allowed == grant_allows(*self, *permission),
    {
        match permission {
            PermissionCategory::ReadMetadata => self.metadata_read,
            PermissionCategory::ReadUnderlyingData => self.underlying_data_read,
            PermissionCategory::MutateAppState => self.app_state_mutation,
            PermissionCategory::MutateMetadata => self.metadata_configuration_mutation,
            PermissionCategory::MutateUnderlyingData => self.underlying_data_mutation,
        }
    }
}

/// The credentials issued so far, keyed by token; a later credential with the same token
/// replaces an earlier one.
pub open spec fn credential_store(issued: Seq<ScopedCredential>) -> Map<Seq<char>, ScopedCredential>
    decreases issued.len(),
{
    if issued.len() == 0 {
        Map::empty()
    } else {
        credential_store(issued.drop_last()).insert(issued.last().token@, issued.last())
    }
}

/// The abstract state of a credential issuer.
pub struct IssuerView {
    pub outside_warp_enabled: bool,
    pub permissions: PermissionGrant,
    pub credentials: Map<Seq<char>, ScopedCredential>,
    pub lifetime_ms: nat,
}

/// Why a credential request is refused, if it is: the error code and message, checked in
/// order: the inside-Warp context, any execution proof, the outside-Warp gate, the
/// action's allowed contexts, the granted categories, the authenticated-user requirement.
pub open spec fn issue_denial(
    outside_warp_enabled: bool,
    permissions: PermissionGrant,
    request: CredentialRequest,
) -> Option<(ErrorCode, Seq<char>)> {
    if request.invocation_context == InvocationContext::InsideWarp {
        Some((ErrorCode::ExecutionContextNotAllowed,
            "inside-Warp local-control credentials are reserved for future verified terminal proof support"@))
    } else if request.proof != ExecutionContextProof::NoProof {
        Some((ErrorCode::ExecutionContextNotAllowed,
            "execution context proof is not accepted for outside-Warp foundation requests"@))
    } else if !outside_warp_enabled {
        Some((ErrorCode::LocalControlDisabled, "outside-Warp local control is disabled"@))
    } else if !action_allowed_contexts(request.action).contains(request.invocation_context) {
        Some((ErrorCode::ExecutionContextNotAllowed,
            "action is not allowed from the requested invocation context"@))
    } else if !grant_allows(permissions, action_permission(request.action)) {
        Some((ErrorCode::InsufficientPermissions,
            "outside-Warp local control permission is disabled for this action category"@))
    } else if action_requires_authenticated_user(request.action) {
        Some((ErrorCode::AuthenticatedUserRequired,
            "authenticated-user local-control grants are not implemented in the foundation slice"@))
    } else {
        None
    }
}

/// The expiry of a credential minted at `now_ms`, saturating at the largest `u64`.
pub open spec fn expiry(now_ms: u64, lifetime_ms: nat) -> u64 {
    if now_ms + lifetime_ms > u64::MAX {
        u64::MAX
    } else {
        (now_ms + lifetime_ms) as u64
    }
}

/// `credential` is the credential minted for `request` with `token` at `now_ms`.
pub open spec fn is_minted(
    credential: ScopedCredential,
    request: CredentialRequest,
    token: Seq<char>,
    now_ms: u64,
    lifetime_ms: nat,
) -> bool {
    &&& credential.token@ == token
    &&& credential.action == request.action
    &&& credential.permission == action_permission(request.action)
    &&& credential.invocation_context == request.invocation_context
    &&& credential.expires_at_unix_ms == expiry(now_ms, lifetime_ms)
    &&& credential.requires_authenticated_user == action_requires_authenticated_user(request.action)
}

/// Why presenting `token` for `action` under `required` at `now_ms` is refused, if it is.
pub open spec fn verify_denial(
    credentials: Map<Seq<char>, ScopedCredential>,
    token: Seq<char>,
    action: ControlActionKind,
    required: PermissionCategory,
    now_ms: u64,
) -> Option<(ErrorCode, Seq<char>)> {
    if !credentials.contains_key(token) {
        Some((ErrorCode::UnauthorizedLocalClient, "missing or unknown local-control credential"@))
    } else if credentials[token].expires_at_unix_ms <= now_ms {
        Some((ErrorCode::UnauthorizedLocalClient, "local-control credential has expired"@))
    } else if credentials[token].action != action {
        Some((ErrorCode::InsufficientPermissions,
            "local-control credential was issued for a different action"@))
    } else if credentials[token].permission != required {
        Some((ErrorCode::InsufficientPermissions,
            "local-control credential lacks the required permission category"@))
    } else {
        None
    }
}

/// `error` carries exactly the given code and message.
pub open spec fn error_is(error: ControlError, denial: (ErrorCode, Seq<char>)) -> bool {
    error.code == denial.0 && error.message@ == denial.1 && error.details is None
}

/// The in-memory authority that issues and checks action-scoped credentials.
#[derive(Debug)]
pub struct CredentialIssuer {
    outside_warp_enabled: bool,
    permissions: PermissionGrant,
    credentials: Vec<ScopedCredential>,
    lifetime_ms: u64,
}

impl View for CredentialIssuer {
    type V = IssuerView;

    closed spec fn view(&self) -> IssuerView {
        IssuerView {
            outside_warp_enabled: self.outside_warp_enabled,
            permissions: self.permissions,
            credentials: credential_store(self.credentials@),
            lifetime_ms: self.lifetime_ms as nat,
        }
    }
}

/// If no credential at or after position `i` has `token`, the store of the whole sequence
/// and of its first `i` credentials agree on `token`.
proof fn lemma_store_ignores_other_tokens(issued: Seq<ScopedCredential>, i: int, token: Seq<char>)
    requires
        0 <= i <= issued.len(),
        forall|j: int| i <= j < issued.len() ==> (#[trigger] issued[j]).token@ != token,
    ensures
        credential_store(issued).contains_key(token) == credential_store(issued.take(i)).contains_key(token),
        credential_store(issued.take(i)).contains_key(token) ==> credential_store(issued)[token]
            == credential_store(issued.take(i))[token],
    decreases issued.len() - i,
{
    if i < issued.len() {
        let shorter = issued.drop_last();
        assert(forall|j: int| i <= j < shorter.len() ==> #[trigger] shorter[j] == issued[j]);
        lemma_store_ignores_other_tokens(shorter, i, token);
        assert(shorter.take(i) =~= issued.take(i));
    } else {
        assert(issued.take(i) =~= issued);
    }
}

/// The store of the first `i + 1` credentials maps the token of credential `i` to it.
proof fn lemma_store_last_wins(issued: Seq<ScopedCredential>, i: int)
    requires
        0 <= i < issued.len(),
    ensures
        credential_store(issued.take(i + 1)).contains_key(issued[i].token@),
        credential_store(issued.take(i + 1))[issued[i].token@] == issued[i],
{
    let prefix = issued.take(i + 1);
    assert(prefix.last() == issued[i]);
}

/// Every token that was issued is in the store.
proof fn lemma_issued_tokens_are_stored(issued: Seq<ScopedCredential>, i: int)
    requires
        0 <= i < issued.len(),
    ensures
        credential_store(issued).contains_key(issued[i].token@),
    decreases issued.len(),
{
    if i < issued.len() - 1 {
        lemma_issued_tokens_are_stored(issued.drop_last(), i);
    }
}

/// The credentials whose tokens are in `keep`, in the order they were issued.
spec fn kept(issued: Seq<ScopedCredential>, keep: Set<Seq<char>>) -> Seq<ScopedCredential>
    decreases issued.len(),
{
    if issued.len() == 0 {
        Seq::empty()
    } else if keep.contains(issued.last().token@) {
        kept(issued.drop_last(), keep).push(issued.last())
    } else {
        kept(issued.drop_last(), keep)
    }
}

/// Keeping the credentials whose tokens are in `keep` keeps exactly those tokens of the store.
proof fn lemma_store_of_kept(issued: Seq<ScopedCredential>, keep: Set<Seq<char>>)
    ensures
        credential_store(kept(issued, keep)) == credential_store(issued).restrict(keep),
    decreases issued.len(),
{
    if issued.len() == 0 {
        assert(credential_store(issued).restrict(keep) =~= Map::empty());
    } else {
        lemma_store_of_kept(issued.drop_last(), keep);
        let before = credential_store(issued.drop_last());
        let last = issued.last();
        if keep.contains(last.token@) {
            let shorter = kept(issued.drop_last(), keep);
            assert(kept(issued, keep).drop_last() =~= shorter);
            assert(before.insert(last.token@, last).restrict(keep)
                =~= before.restrict(keep).insert(last.token@, last));
        } else {
            assert(before.insert(last.token@, last).restrict(keep) =~= before.restrict(keep));
        }
    }
}

/// The credentials of `credentials` that are still valid at `now_ms`: those that expire
/// after it.
pub open spec fn unexpired(credentials: Map<Seq<char>, ScopedCredential>, now_ms: u64) -> Map<
    Seq<char>,
    ScopedCredential,
> {
    credentials.restrict(Set::new(|token: Seq<char>| credentials[token].expires_at_unix_ms > now_ms))
}

impl CredentialIssuer {
    /// Every issuer gives its credentials a one-minute lifetime.
    #[verifier::type_invariant]
    spec fn one_minute_lifetime(self) -> bool {
        self.lifetime_ms == 60_000
    }

    /// The position of the credential the store holds under `token`, if any.
    fn find_latest(&self, token: &String) -> (found: Option<usize>)
        ensures
            match found {
                Some(k) => {
                    &&& k < self.credentials@.len()
                    &&& self@.credentials.contains_key(token@)
                    &&& self@.credentials[token@] == self.credentials@[k as int]
                },
                None => !self@.credentials.contains_key(token@),
            },
    {
        let ghost issued = self.credentials@;
        let mut found: Option<usize> = None;
        let mut i: usize = self.credentials.len();
        while i > 0
            invariant_except_break
                found is None,
            invariant
                i <= issued.len(),
                issued == self.credentials@,
                forall|j: int| i <= j < issued.len() ==> (#[trigger] issued[j]).token@ != token@,
            ensures
                match found {
                    Some(k) => k < issued.len() && issued[k as int].token@ == token@
                        && forall|j: int| k < j < issued.len() ==> (#[trigger] issued[j]).token@ != token@,
                    None => forall|j: int| 0 <= j < issued.len() ==> (#[trigger] issued[j]).token@ != token@,
                },
            decreases i,
        {
            if self.credentials[i - 1].token == *token {
                found = Some(i - 1);
                break;
            }
            i = i - 1;
        }
        proof {
            match found {
                None => {
                    lemma_store_ignores_other_tokens(issued, 0, token@);
                    assert(issued.take(0) =~= Seq::<ScopedCredential>::empty());
                },
                Some(k) => {
                    lemma_store_ignores_other_tokens(issued, k + 1, token@);
                    lemma_store_last_wins(issued, k as int);
                },
            }
        }
        found
    }

    /// Drops every credential that has expired at `now_ms`.
    pub fn prune_expired(&mut self, now_ms: u64)
        ensures
            final(self)@.credentials == unexpired(old(self)@.credentials, now_ms),
            final(self)@.outside_warp_enabled == old(self)@.outside_warp_enabled,
            final(self)@.permissions == old(self)@.permissions,
            final(self)@.lifetime_ms == old(self)@.lifetime_ms,
    {
        proof {
            use_type_invariant(&*self);
        }
        let ghost issued = self.credentials@;
        let ghost store = credential_store(issued);
        let ghost keep = Set::new(|token: Seq<char>| store[token].expires_at_unix_ms > now_ms);
        let mut still_valid: Vec<ScopedCredential> = Vec::new();
        let mut i: usize = 0;
        while i < self.credentials.len()
            invariant
                i <= issued.len(),
                issued == self.credentials@,
                store == self@.credentials,
                keep == Set::new(|token: Seq<char>| store[token].expires_at_unix_ms > now_ms),
                still_valid@ == kept(issued.take(i as int), keep),
            decreases issued.len() - i,
        {
            let token = &self.credentials[i].token;
            let latest = self.find_latest(token);
            proof {
                assert(issued.take(i + 1).drop_last() =~= issued.take(i as int));
                assert(issued.take(i + 1).last() == issued[i as int]);
            }
            proof {
                assert(keep.contains(issued[i as int].token@) == (store[issued[i as int].token@].expires_at_unix_ms > now_ms));
            }
            match latest {
                Some(k) => {
                    if self.credentials[k].expires_at_unix_ms > now_ms {
                        still_valid.push(self.credentials[i].duplicate());
                    }
                },
                None => {
                    proof {
                        lemma_issued_tokens_are_stored(issued, i as int);
                    }
                },
            }
            i = i + 1;
        }
        proof {
            assert(issued.take(issued.len() as int) =~= issued);
            lemma_store_of_kept(issued, keep);
        }
        self.credentials = still_valid;
    }

    /// A new issuer with no credentials, a one-minute credential lifetime, and the given policy.
    pub fn new(outside_warp_enabled: bool, permissions: PermissionGrant) -> (issuer: CredentialIssuer)
        ensures
            issuer@.outside_warp_enabled == outside_warp_enabled,
            issuer@.permissions == permissions,
            issuer@.credentials == Map::<Seq<char>, ScopedCredential>::empty(),
            issuer@.lifetime_ms == 60_000,
    {
        CredentialIssuer {
            outside_warp_enabled,
            permissions,
            credentials: Vec::new(),
            lifetime_ms: 60_000,
        }
    }

    /// Replaces the outside-Warp policy; credentials already issued stay in the store.
    pub fn set_policy(&mut self, outside_warp_enabled: bool, permissions: PermissionGrant)
        ensures
            final(self)@.outside_warp_enabled == outside_warp_enabled,
            final(self)@.permissions == permissions,
            final(self)@.credentials == old(self)@.credentials,
            final(self)@.lifetime_ms == old(self)@.lifetime_ms,
    {
        proof {
            use_type_invariant(&*self);
        }
        self.outside_warp_enabled = outside_warp_enabled;
        self.permissions = permissions;
    }

    /// The outside-Warp gate in force.
    pub fn outside_warp_enabled(&self) -> (enabled: bool)
        ensures
            enabled == self@.outside_warp_enabled,
    {
        self.outside_warp_enabled
    }

    /// Checks `request` against the policy in force, without minting anything.
    fn check_request(&self, request: &CredentialRequest) -> (result: Result<(), ControlError>)
        ensures
            match issue_denial(self@.outside_warp_enabled, self@.permissions, *request) {
                Some(denial) => result matches Err(error) && error_is(error, denial),
                None => result is Ok,
            },
    {
        if request.invocation_context == InvocationContext::InsideWarp {
            return Err(ControlError::new(
                ErrorCode::ExecutionContextNotAllowed,
                "inside-Warp local-control credentials are reserved for future verified terminal proof support",
            ));
        }
        let has_proof = match &request.proof {
            ExecutionContextProof::NoProof => false,
            ExecutionContextProof::VerifiedWarpTerminal { .. } => true,
        };
        if has_proof {
            return Err(ControlError::new(
                ErrorCode::ExecutionContextNotAllowed,
                "execution context proof is not accepted for outside-Warp foundation requests",
            ));
        }
        if !self.outside_warp_enabled {
            return Err(ControlError::new(
                ErrorCode::LocalControlDisabled,
                "outside-Warp local control is disabled",
            ));
        }
        let metadata = action_metadata(&request.action);
        let mut allowed = false;
        let mut i: usize = 0;
        while i < metadata.allowed_invocation_contexts.len()
            invariant
                0 <= i <= metadata.allowed_invocation_contexts@.len(),
                allowed <==> exists|j: int| 0 <= j < i
                    && metadata.allowed_invocation_contexts@[j] == request.invocation_context,
            decreases metadata.allowed_invocation_contexts@.len() - i,
        {
            if metadata.allowed_invocation_contexts[i] == request.invocation_context {
                allowed = true;
            }
            i = i + 1;
        }
        if !allowed {
            return Err(ControlError::new(
                ErrorCode::ExecutionContextNotAllowed,
                "action is not allowed from the requested invocation context",
            ));
        }
        if !self.permissions.allows(&metadata.permission) {
            return Err(ControlError::new(
                ErrorCode::InsufficientPermissions,
                "outside-Warp local control permission is disabled for this action category",
            ));
        }
        if metadata.requires_authenticated_user {
            return Err(ControlError::new(
                ErrorCode::AuthenticatedUserRequired,
                "authenticated-user local-control grants are not implemented in the foundation slice",
            ));
        }
        Ok(())
    }

    /// Mints a credential for `request` with the given token at `now_ms` and stores it, if
    /// the policy in force allows the request; otherwise returns the refusal and changes nothing.
    pub fn issue_at(&mut self, request: &CredentialRequest, now_ms: u64, token: String) -> (result:
        Result<ScopedCredential, ControlError>)
        ensures
            old(self)@.lifetime_ms == 60_000,
            final(self)@.outside_warp_enabled == old(self)@.outside_warp_enabled,
            final(self)@.permissions == old(self)@.permissions,
            final(self)@.lifetime_ms == old(self)@.lifetime_ms,
            match issue_denial(old(self)@.outside_warp_enabled, old(self)@.permissions, *request) {
                Some(denial) => {
                    &&& result matches Err(error) && error_is(error, denial)
                    &&& final(self)@.credentials == old(self)@.credentials
                },
                None => {
                    &&& result matches Ok(credential)
                    &&& is_minted(credential, *request, token@, now_ms, old(self)@.lifetime_ms)
                    &&& final(self)@.credentials == old(self)@.credentials.insert(token@, credential)
                },
            },
    {
        proof {
            use_type_invariant(&*self);
        }
        match self.check_request(request) {
            Err(error) => Err(error),
            Ok(()) => {
                let lifetime_ms = self.lifetime_ms;
                Ok(self.mint(request, now_ms, token, lifetime_ms))
            },
        }
    }

    fn mint(&mut self, request: &CredentialRequest, now_ms: u64, token: String, lifetime_ms: u64) -> (
        credential: ScopedCredential)
        ensures
            is_minted(credential, *request, token@, now_ms, lifetime_ms as nat),
            final(self)@.credentials == old(self)@.credentials.insert(token@, credential),
            final(self)@.outside_warp_enabled == old(self)@.outside_warp_enabled,
            final(self)@.permissions == old(self)@.permissions,
            final(self)@.lifetime_ms == old(self)@.lifetime_ms,
    {
        proof {
            use_type_invariant(&*self);
        }
        let metadata = action_metadata(&request.action);
        let credential = ScopedCredential {
            token,
            action: request.action,
            permission: metadata.permission,
            invocation_context: request.invocation_context,
            expires_at_unix_ms: now_ms.saturating_add(lifetime_ms),
            requires_authenticated_user: metadata.requires_authenticated_user,
        };
        let stored = credential.duplicate();
        let ghost before = self.credentials@;
        let mut credentials: Vec<ScopedCredential> = Vec::new();
        std::mem::swap(&mut credentials, &mut self.credentials);
        credentials.push(stored);
        self.credentials = credentials;
        assert(self.credentials@.drop_last() =~= before);
        credential
    }

    /// Issues a credential for `request` with a fresh random token that expires one lifetime
    /// after the current wall-clock time, or returns the policy's refusal.
    pub fn issue(&mut self, request: &CredentialRequest) -> (result: Result<ScopedCredential, ControlError>)
        ensures
            old(self)@.lifetime_ms == 60_000,
            final(self)@.outside_warp_enabled == old(self)@.outside_warp_enabled,
            final(self)@.permissions == old(self)@.permissions,
            final(self)@.lifetime_ms == old(self)@.lifetime_ms,
            match issue_denial(old(self)@.outside_warp_enabled, old(self)@.permissions, *request) {
                Some(denial) => {
                    &&& result matches Err(error) && error_is(error, denial)
                    &&& final(self)@.credentials == old(self)@.credentials
                },
                None => {
                    &&& result matches Ok(credential)
                    &&& exists|now_ms: u64| is_minted(credential, *request, credential.token@, now_ms, old(self)@.lifetime_ms)
                    &&& credential.token@.len() == 36
                    &&& final(self)@.credentials == old(self)@.credentials.insert(credential.token@, credential)
                },
            },
    {
        proof {
            use_type_invariant(&*self);
        }
        let lifetime_ms = self.lifetime_ms;
        self.issue_for(request, lifetime_ms)
    }

    /// Issues a credential for `request` with a fresh random token that expires `lifetime_ms`
    /// after the current wall-clock time, or returns the policy's refusal.
    pub fn issue_for(&mut self, request: &CredentialRequest, lifetime_ms: u64) -> (result: Result<
        ScopedCredential,
        ControlError,
    >)
        ensures
            final(self)@.outside_warp_enabled == old(self)@.outside_warp_enabled,
            final(self)@.permissions == old(self)@.permissions,
            final(self)@.lifetime_ms == old(self)@.lifetime_ms,
            match issue_denial(old(self)@.outside_warp_enabled, old(self)@.permissions, *request) {
                Some(denial) => {
                    &&& result matches Err(error) && error_is(error, denial)
                    &&& final(self)@.credentials == old(self)@.credentials
                },
                None => {
                    &&& result matches Ok(credential)
                    &&& exists|now_ms: u64| is_minted(credential, *request, credential.token@, now_ms, lifetime_ms as nat)
                    &&& credential.token@.len() == 36
                    &&& final(self)@.credentials == old(self)@.credentials.insert(credential.token@, credential)
                },
            },
    {
        match self.check_request(request) {
            Err(error) => Err(error),
            Ok(()) => {
                let token = random_uuid_string();
                let now_ms = now_unix_ms();
                let credential = self.mint(request, now_ms, token, lifetime_ms);
                Ok(credential)
            },
        }
    }

    /// Checks a presented token for `action` under `required` at `now_ms`.
    pub fn verify_at(
        &self,
        token: &str,
        action: &ControlActionKind,
        required_permission: &PermissionCategory,
        now_ms: u64,
    ) -> (result: Result<ScopedCredential, ControlError>)
        ensures
            match verify_denial(self@.credentials, token@, *action, *required_permission, now_ms) {
                Some(denial) => result matches Err(error) && error_is(error, denial),
                None => result == Ok::<ScopedCredential, ControlError>(self@.credentials[token@]),
            },
    {
        let wanted = token.to_owned();
        let k = match self.find_latest(&wanted) {
            None => {
                return Err(ControlError::new(
                    ErrorCode::UnauthorizedLocalClient,
                    "missing or unknown local-control credential",
                ));
            },
            Some(k) => k,
        };
        let credential = &self.credentials[k];
        if credential.expires_at_unix_ms <= now_ms {
            return Err(ControlError::new(
                ErrorCode::UnauthorizedLocalClient,
                "local-control credential has expired",
            ));
        }
        if credential.action != *action {
            return Err(ControlError::new(
                ErrorCode::InsufficientPermissions,
                "local-control credential was issued for a different action",
            ));
        }
        if credential.permission != *required_permission {
            return Err(ControlError::new(
                ErrorCode::InsufficientPermissions,
                "local-control credential lacks the required permission category",
            ));
        }
        Ok(credential.duplicate())
    }

    /// Checks a presented token against the current wall-clock time.
    pub fn verify(
        &self,
        token: &str,
        action: &ControlActionKind,
        required_permission: &PermissionCategory,
    ) -> (result: Result<ScopedCredential, ControlError>)
        ensures
            exists|now_ms: u64|
                #![trigger verify_denial(self@.credentials, token@, *action, *required_permission, now_ms)]
                match verify_denial(self@.credentials, token@, *action, *required_permission, now_ms) {
                    Some(denial) => result matches Err(error) && error_is(error, denial),
                    None => result == Ok::<ScopedCredential, ControlError>(self@.credentials[token@]),
                },
    {
        let now_ms = now_unix_ms();
        self.verify_at(token, action, required_permission, now_ms)
    }

    /// Stores `credential` as if it had been issued.
    pub fn insert_for_tests(&mut self, credential: ScopedCredential)
        ensures
            final(self)@.credentials == old(self)@.credentials.insert(credential.token@, credential),
            final(self)@.outside_warp_enabled == old(self)@.outside_warp_enabled,
            final(self)@.permissions == old(self)@.permissions,
            final(self)@.lifetime_ms == old(self)@.lifetime_ms,
    {
        proof {
            use_type_invariant(&*self);
        }
        let ghost before = self.credentials@;
        let mut credentials: Vec<ScopedCredential> = Vec::new();
        std::mem::swap(&mut credentials, &mut self.credentials);
        credentials.push(credential);
        self.credentials = credentials;
        assert(self.credentials@.drop_last() =~= before);
    }
}


/// A credential minted for a request verifies, for the request's action and the action's
/// permission category, at every time before its expiry.
pub proof fn lemma_issued_credential_verifies_until_expiry(
    issuer: IssuerView,
    request: CredentialRequest,
    token: Seq<char>,
    now_ms: u64,
    credential: ScopedCredential,
    at_ms: u64,
)
    requires
        issue_denial(issuer.outside_warp_enabled, issuer.permissions, request) is None,
        is_minted(credential, request, token, now_ms, issuer.lifetime_ms),
        at_ms < credential.expires_at_unix_ms,
    ensures
        verify_denial(issuer.credentials.insert(token, credential), token, request.action,
            action_permission(request.action), at_ms) is None,
        issuer.credentials.insert(token, credential)[token] == credential,
{
}

/// A credential never authorizes an action other than the one it was minted for.
pub proof fn lemma_credential_is_scoped_to_its_action(
    credentials: Map<Seq<char>, ScopedCredential>,
    token: Seq<char>,
    action: ControlActionKind,
    required: PermissionCategory,
    at_ms: u64,
)
    requires
        credentials.contains_key(token),
        credentials[token].action != action,
    ensures
        verify_denial(credentials, token, action, required, at_ms) is Some,
        at_ms < credentials[token].expires_at_unix_ms ==> verify_denial(credentials, token, action,
            required, at_ms) == Some(
            (ErrorCode::InsufficientPermissions,
            "local-control credential was issued for a different action"@),
        ),
{
}

/// A credential is refused as unauthorized from its expiry on, and an unknown token is
/// always refused as unauthorized.
pub proof fn lemma_expired_or_unknown_credentials_are_unauthorized(
    credentials: Map<Seq<char>, ScopedCredential>,
    token: Seq<char>,
    action: ControlActionKind,
    required: PermissionCategory,
    at_ms: u64,
)
    requires
        !credentials.contains_key(token) || credentials[token].expires_at_unix_ms <= at_ms,
    ensures
        verify_denial(credentials, token, action, required, at_ms) matches Some(denial)
            && denial.0 == ErrorCode::UnauthorizedLocalClient,
{
}

/// With outside-Warp control disabled, no request is granted a credential.
pub proof fn lemma_disabled_gate_denies_every_request(
    permissions: PermissionGrant,
    request: CredentialRequest,
)
    ensures
        issue_denial(false, permissions, request) is Some,
{
}

/// Every granted request comes from outside Warp without a proof, names an action whose
/// category the grant allows and which needs no authenticated user, and its credential
/// carries that category.
pub proof fn lemma_granted_requests_are_logged_out_safe(
    outside_warp_enabled: bool,
    permissions: PermissionGrant,
    request: CredentialRequest,
    token: Seq<char>,
    now_ms: u64,
    lifetime_ms: nat,
    credential: ScopedCredential,
)
    requires
        issue_denial(outside_warp_enabled, permissions, request) is None,
        is_minted(credential, request, token, now_ms, lifetime_ms),
    ensures
        outside_warp_enabled,
        request.invocation_context == InvocationContext::OutsideWarp,
        request.proof == ExecutionContextProof::NoProof,
        grant_allows(permissions, credential.permission),
        !credential.requires_authenticated_user,
        credential.invocation_context == InvocationContext::OutsideWarp,
{
}

/// Issuing a credential for one token leaves the verification of every other token as it was.
pub proof fn lemma_issuing_leaves_other_tokens_unchanged(
    credentials: Map<Seq<char>, ScopedCredential>,
    token: Seq<char>,
    credential: ScopedCredential,
    other: Seq<char>,
    action: ControlActionKind,
    required: PermissionCategory,
    at_ms: u64,
)
    requires
        other != token,
    ensures
        verify_denial(credentials.insert(token, credential), other, action, required, at_ms)
            == verify_denial(credentials, other, action, required, at_ms),
{
}

/// Each permission category is allowed by the grant flag of its own name.
pub proof fn lemma_grants_allow_their_own_categories(grant: PermissionGrant)
    ensures
        grant_allows(grant, PermissionCategory::ReadMetadata) == grant.metadata_read,
        grant_allows(grant, PermissionCategory::ReadUnderlyingData) == grant.underlying_data_read,
        grant_allows(grant, PermissionCategory::MutateAppState) == grant.app_state_mutation,
        grant_allows(grant, PermissionCategory::MutateMetadata) == grant.metadata_configuration_mutation,
        grant_allows(grant, PermissionCategory::MutateUnderlyingData) == grant.underlying_data_mutation,
{
}

/// A credential request is granted exactly when it comes from outside Warp without a proof,
/// the outside-Warp gate is on, the grant allows the action's category and the action needs
/// no authenticated user. A refusal names why: an inside-Warp request or a proof is refused
/// as a disallowed context, a closed gate as disabled local control, a category the grant
/// does not allow as insufficient permissions.
pub proof fn lemma_credential_requests_are_granted_exactly_when_allowed(
    outside_warp_enabled: bool,
    permissions: PermissionGrant,
    request: CredentialRequest,
)
    ensures
        issue_denial(outside_warp_enabled, permissions, request) is None <==> (request.invocation_context
            == InvocationContext::OutsideWarp && request.proof == ExecutionContextProof::NoProof
            && outside_warp_enabled && grant_allows(permissions, action_permission(request.action))
            && !action_requires_authenticated_user(request.action)),
        request.invocation_context == InvocationContext::InsideWarp ==> (issue_denial(outside_warp_enabled, permissions, request) is Some && issue_denial(outside_warp_enabled, permissions, request).unwrap().0 == ErrorCode::ExecutionContextNotAllowed),
        request.invocation_context == InvocationContext::OutsideWarp && request.proof
            == ExecutionContextProof::NoProof && !outside_warp_enabled ==> (issue_denial(outside_warp_enabled, permissions, request) is Some && issue_denial(outside_warp_enabled, permissions, request).unwrap().0 == ErrorCode::LocalControlDisabled),
        request.invocation_context == InvocationContext::OutsideWarp && request.proof
            == ExecutionContextProof::NoProof && outside_warp_enabled
            && !action_requires_authenticated_user(request.action) && !grant_allows(
            permissions,
            action_permission(request.action),
        ) ==> (issue_denial(outside_warp_enabled, permissions, request) is Some && issue_denial(outside_warp_enabled, permissions, request).unwrap().0 == ErrorCode::InsufficientPermissions),
{
    assert(seq![InvocationContext::OutsideWarp].contains(InvocationContext::OutsideWarp)) by {
        assert(seq![InvocationContext::OutsideWarp][0] == InvocationContext::OutsideWarp);
    }
    if action_requires_authenticated_user(request.action) {
        assert(!seq![InvocationContext::InsideWarp].contains(InvocationContext::OutsideWarp)) by {
            if seq![InvocationContext::InsideWarp].contains(InvocationContext::OutsideWarp) {
                let k = choose|k: int| 0 <= k < 1 && seq![InvocationContext::InsideWarp][k]
                    == InvocationContext::OutsideWarp;
                assert(seq![InvocationContext::InsideWarp][k] == InvocationContext::InsideWarp);
            }
        }
    }
}

} // verus!
