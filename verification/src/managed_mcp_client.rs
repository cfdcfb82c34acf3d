use vstd::prelude::*;

use crate::managed_mcp::{
    CreateManagedMcpProxySessionResult, ManagedMcpServerResult,
    ManagedMcpStatus as SchemaStatus, ManagedMcpTransportKind as SchemaTransportKind,
};

verus! {

/// How a managed MCP server is reached.
#[derive(Clone, Copy, Debug, PartialEq, Eq, Structural)]
pub enum ManagedMcpTransportKind {
    Url,
    Command,
}

/// The lifecycle state of a managed MCP server.
#[derive(Clone, Copy, Debug, PartialEq, Eq, Structural)]
pub enum ManagedMcpStatus {
    Active,
    Draft,
    Error,
}

/// What resolving a managed MCP server needs to know about it.
#[derive(Clone, Debug, PartialEq, Eq)]
pub struct ManagedMcpServerForResolution {
    pub display_name: String,
    pub transport_kind: ManagedMcpTransportKind,
    pub status: ManagedMcpStatus,
    pub last_error: Option<String>,
}

/// A proxy session: the MCP configuration to launch it with, as JSON text.
#[derive(Clone, Debug, PartialEq, Eq)]
pub struct ManagedMcpProxySession {
    pub mcp_config_json: String,
}

/// The characters that Unicode classes as white space.
pub open spec fn is_unicode_whitespace(c: char) -> bool {
    let code = c as u32;
    ||| 0x09 <= code <= 0x0D
    ||| code == 0x20
    ||| code == 0x85
    ||| code == 0xA0
    ||| code == 0x1680
    ||| 0x2000 <= code <= 0x200A
    ||| code == 0x2028
    ||| code == 0x2029
    ||| code == 0x202F
    ||| code == 0x205F
    ||| code == 0x3000
}

/// `text` without its trailing white space.
pub open spec fn trim_end(text: Seq<char>) -> Seq<char>
    decreases text.len(),
{
    if text.len() > 0 && is_unicode_whitespace(text.last()) {
        trim_end(text.drop_last())
    } else {
        text
    }
}

/// `text` without its leading white space.
pub open spec fn trim_start(text: Seq<char>) -> Seq<char>
    decreases text.len(),
{
    if text.len() > 0 && is_unicode_whitespace(text[0]) {
        trim_start(text.drop_first())
    } else {
        text
    }
}

/// `text` without its leading and trailing white space.
pub open spec fn trim(text: Seq<char>) -> Seq<char> {
    trim_start(trim_end(text))
}

/// `c` with `A`..`Z` mapped to `a`..`z`.
pub open spec fn ascii_lowercase(c: char) -> char {
    if 'A' <= c && c <= 'Z' {
        ((c as u32) + 32) as char
    } else {
        c
    }
}

pub open spec fn ascii_lowercase_text(text: Seq<char>) -> Seq<char> {
    text.map_values(|c: char| ascii_lowercase(c))
}

/// Whether a user-facing error means that the server does not exist or that managed MCP is
/// off, compared without surrounding white space and without ASCII case.
pub open spec fn means_absent(message: Seq<char>) -> bool {
    let normalized = ascii_lowercase_text(trim(message));
    normalized == "managed mcp server not found"@ || normalized == "managed mcp is not enabled"@
}

fn is_whitespace_char(c: char) -> (whitespace: bool)
    ensures
        whitespace == is_unicode_whitespace(c),
{
    let code = c as u32;
    (0x09 <= code && code <= 0x0D) || code == 0x20 || code == 0x85 || code == 0xA0 || code == 0x1680
        || (0x2000 <= code && code <= 0x200A) || code == 0x2028 || code == 0x2029 || code == 0x202F
        || code == 0x205F || code == 0x3000
}

fn lowercase_char(c: char) -> (lower: char)
    ensures
        lower == ascii_lowercase(c),
{
    if 'A' <= c && c <= 'Z' {
        let code: u8 = (c as u8) + 32;
        code as char
    } else {
        c
    }
}

/// The bounds of `text` without its surrounding white space.
fn trimmed_bounds(text: &str) -> (bounds: (usize, usize))
    ensures
        bounds.0 <= bounds.1 <= text@.len(),
        text@.subrange(bounds.0 as int, bounds.1 as int) == trim(text@),
{
    let mut end: usize = text.unicode_len();
    assert(text@.subrange(0, end as int) =~= text@);
    while end > 0 && is_whitespace_char(text.get_char(end - 1))
        invariant
            0 <= end <= text@.len(),
            trim_end(text@.subrange(0, end as int)) == trim_end(text@),
        decreases end,
    {
        assert(text@.subrange(0, end as int).drop_last() =~= text@.subrange(0, end - 1));
        end = end - 1;
    }
    assert(trim_end(text@.subrange(0, end as int)) == text@.subrange(0, end as int));
    let mut start: usize = 0;
    assert(text@.subrange(start as int, end as int) =~= trim_end(text@));
    while start < end && is_whitespace_char(text.get_char(start))
        invariant
            0 <= start <= end <= text@.len(),
            trim_start(text@.subrange(start as int, end as int)) == trim(text@),
        decreases end - start,
    {
        assert(text@.subrange(start as int, end as int).drop_first() =~= text@.subrange(
            start + 1,
            end as int,
        ));
        start = start + 1;
    }
    (start, end)
}

/// Whether `text[start..end]`, ASCII-lowercased, is `target`.
fn lowercase_range_equals(text: &str, start: usize, end: usize, target: &str) -> (equal: bool)
    requires
        start <= end <= text@.len(),
    ensures
        equal == (ascii_lowercase_text(text@.subrange(start as int, end as int)) == target@),
{
    let ghost range = text@.subrange(start as int, end as int);
    let target_len = target.unicode_len();
    if end - start != target_len {
        assert(ascii_lowercase_text(range).len() != target@.len());
        return false;
    }
    let mut i: usize = 0;
    while i < target_len
        invariant
            0 <= i <= target_len,
            target_len == target@.len(),
            start <= end <= text@.len(),
            end - start == target_len,
            range == text@.subrange(start as int, end as int),
            forall|j: int| 0 <= j < i ==> ascii_lowercase(range[j]) == target@[j],
        decreases target_len - i,
    {
        if lowercase_char(text.get_char(start + i)) != target.get_char(i) {
            assert(ascii_lowercase_text(range)[i as int] != target@[i as int]);
            return false;
        }
        i = i + 1;
    }
    assert(ascii_lowercase_text(range) =~= target@);
    true
}

/// Whether a user-facing error says that the managed MCP server does not exist or that
/// managed MCP is not enabled, ignoring surrounding white space and ASCII case.
pub fn is_absent_managed_mcp_message(message: &str) -> (absent: bool)
    ensures
        absent == means_absent(message@),
{
    let (start, end) = trimmed_bounds(message);
    lowercase_range_equals(message, start, end, "managed mcp server not found")
        || lowercase_range_equals(message, start, end, "managed mcp is not enabled")
}

pub open spec fn transport_kind_of(kind: SchemaTransportKind) -> ManagedMcpTransportKind {
    match kind {
        SchemaTransportKind::Url => ManagedMcpTransportKind::Url,
        SchemaTransportKind::Command => ManagedMcpTransportKind::Command,
    }
}

pub open spec fn status_of(status: SchemaStatus) -> ManagedMcpStatus {
    match status {
        SchemaStatus::Active => ManagedMcpStatus::Active,
        SchemaStatus::Draft => ManagedMcpStatus::Draft,
        SchemaStatus::Error => ManagedMcpStatus::Error,
    }
}

/// Reads the answer of the managed-MCP-server query. A found server is reduced to what
/// resolution needs; a user-facing error that says the server is absent (or managed MCP is
/// off) is `Ok(None)`; any other user-facing error is an error with its message; an
/// unknown answer is an error too.
pub fn server_for_resolution(result: ManagedMcpServerResult) -> (resolved: Result<
    Option<ManagedMcpServerForResolution>,
    String,
>)
    ensures
        match result {
            ManagedMcpServerResult::ManagedMcpServerOutput(output) => resolved == Ok::<
                Option<ManagedMcpServerForResolution>,
                String,
            >(
                Some(
                    ManagedMcpServerForResolution {
                        display_name: output.server.display_name,
                        transport_kind: transport_kind_of(output.server.transport_kind),
                        status: status_of(output.server.status),
                        last_error: output.server.last_error,
                    },
                ),
            ),
            ManagedMcpServerResult::UserFacingError(error) => if means_absent(error.message@) {
                resolved == Ok::<Option<ManagedMcpServerForResolution>, String>(None)
            } else {
                resolved == Err::<Option<ManagedMcpServerForResolution>, String>(error.message)
            },
            ManagedMcpServerResult::Unknown => resolved matches Err(message) && message@
                == "Unknown error while resolving managed MCP server"@,
        },
{
    match result {
        ManagedMcpServerResult::ManagedMcpServerOutput(output) => {
            let server = output.server;
            let transport_kind = match server.transport_kind {
                SchemaTransportKind::Url => ManagedMcpTransportKind::Url,
                SchemaTransportKind::Command => ManagedMcpTransportKind::Command,
            };
            let status = match server.status {
                SchemaStatus::Active => ManagedMcpStatus::Active,
                SchemaStatus::Draft => ManagedMcpStatus::Draft,
                SchemaStatus::Error => ManagedMcpStatus::Error,
            };
            Ok(
                Some(
                    ManagedMcpServerForResolution {
                        display_name: server.display_name,
                        transport_kind,
                        status,
                        last_error: server.last_error,
                    },
                ),
            )
        },
        ManagedMcpServerResult::UserFacingError(error) => {
            if is_absent_managed_mcp_message(error.message.as_str()) {
                Ok(None)
            } else {
                Err(error.message)
            }
        },
        ManagedMcpServerResult::Unknown => Err(
            "Unknown error while resolving managed MCP server".to_owned(),
        ),
    }
}

/// Reads the answer of the proxy-session mutation: the session's configuration, or an error
/// with the user-facing message, or an error for an unknown answer.
pub fn proxy_session_from(result: CreateManagedMcpProxySessionResult) -> (session: Result<
    ManagedMcpProxySession,
    String,
>)
    ensures
        match result {
            CreateManagedMcpProxySessionResult::CreateManagedMcpProxySessionOutput(output) => session
                == Ok::<ManagedMcpProxySession, String>(
                ManagedMcpProxySession { mcp_config_json: output.mcp_config_json },
            ),
            CreateManagedMcpProxySessionResult::UserFacingError(error) => session == Err::<
                ManagedMcpProxySession,
                String,
            >(error.message),
            CreateManagedMcpProxySessionResult::Unknown => session matches Err(message) && message@
                == "Unknown error while creating managed MCP proxy session"@,
        },
{
    match result {
        CreateManagedMcpProxySessionResult::CreateManagedMcpProxySessionOutput(output) => Ok(
            ManagedMcpProxySession { mcp_config_json: output.mcp_config_json },
        ),
        CreateManagedMcpProxySessionResult::UserFacingError(error) => Err(error.message),
        CreateManagedMcpProxySessionResult::Unknown => Err(
            "Unknown error while creating managed MCP proxy session".to_owned(),
        ),
    }
}

/// A resolved server keeps the schema's status and transport under the same names: an
/// active server is active, a draft a draft, a server in error is in error; a URL server is
/// reached by URL and a command server by command. Different schema values never resolve to
/// the same value.
pub proof fn lemma_resolution_keeps_status_and_transport(
    status: SchemaStatus,
    other_status: SchemaStatus,
    kind: SchemaTransportKind,
    other_kind: SchemaTransportKind,
)
    ensures
        status_of(SchemaStatus::Active) == ManagedMcpStatus::Active,
        status_of(SchemaStatus::Draft) == ManagedMcpStatus::Draft,
        status_of(SchemaStatus::Error) == ManagedMcpStatus::Error,
        transport_kind_of(SchemaTransportKind::Url) == ManagedMcpTransportKind::Url,
        transport_kind_of(SchemaTransportKind::Command) == ManagedMcpTransportKind::Command,
        status_of(status) == status_of(other_status) ==> status == other_status,
        transport_kind_of(kind) == transport_kind_of(other_kind) ==> kind == other_kind,
{
}

} // verus!
