//! The per-connection state machine.
//!
//! A handler reads chunks until the blank line that ends the header
//! block, parses and checks the request, resolves the target against
//! the document root, and decides each response. The machine is a
//! pure step function from state and event to next state and action;
//! the surrounding process performs the I/O each action asks for and
//! hands the outcome back as the next event.

use vstd::prelude::*;
use vstd::utf8::{decode_utf8, valid_utf8};
use crate::paths::{
    contains_dotdot, is_within_root, spec_contains_dotdot, spec_rel_path, spec_strip_query,
    spec_within_root, strip_query_fragment, target_rel_path,
};
use crate::percent::{safe_percent_decode, spec_decode};
use crate::request::{method_allowed, parse_request_line, spec_first_line, spec_token};
use crate::response::{
    build_file_response, build_simple_response, spec_file_response, spec_simple_response,
};
use crate::text::str_eq;
use crate::MAX_FILE_SIZE;
use crate::MAX_HEADER_SIZE;

verus! {

/// Where a connection stands.
pub enum HandlerState {
    /// Accumulating header bytes until the blank line.
    ReadingHeader { buf: Vec<u8> },
    /// The request was parsed; the target waits for canonicalization.
    Resolving { is_get: bool },
    /// The target is canonical and under the root; its metadata is owed.
    CheckingFile { is_get: bool },
    /// The target passed every check; its contents are owed.
    Fetching { is_get: bool },
    /// The connection is done; no further event is expected.
    Closed,
}

/// What the connection reported or returned.
pub enum Event {
    /// A read delivered these bytes (at least one).
    Bytes { data: Vec<u8> },
    /// A read returned zero bytes: the peer closed.
    Eof,
    /// A read failed or timed out.
    ReadFailed,
    /// Canonicalization finished: the document root and the target,
    /// each `None` where the filesystem refused it.
    Resolved { root: Option<String>, target: Option<String> },
    /// Metadata of the target: `found` is false when the call failed.
    Stat { found: bool, is_dir: bool, size: u64 },
    /// The target's contents, or `None` when reading failed.
    FileRead { content: Option<Vec<u8>> },
}

/// What the process must do next.
pub enum Action {
    /// Read more bytes into the header buffer.
    ReadMore,
    /// Canonicalize this path against the document root, and the root
    /// itself, and report both.
    Resolve { rel_path: String },
    /// Fetch the resolved target's metadata.
    StatFile,
    /// Read the resolved target's contents.
    ReadFile,
    /// Write these bytes, best-effort, then close.
    Respond { bytes: Vec<u8> },
    /// Close without a response.
    Close,
}

/// The decision owed once the header block is complete: either a
/// response, or a filesystem fetch of a path under the root.
pub enum SpecPlan {
    Reply { status: Seq<char>, body: Seq<char> },
    Fetch { is_get: bool, rel: Seq<char> },
}

/// True when the blank line ending a header block stands in `s`.
pub open spec fn spec_has_terminator(s: Seq<u8>) -> bool {
    exists|i: int|
        0 <= i && i + 4 <= s.len() && #[trigger] s[i] == 13 && s[i + 1] == 10 && s[i + 2] == 13
            && s[i + 3] == 10
}

/// The full decision over a complete header block: reject bytes that
/// are not UTF-8, methods other than GET and HEAD, malformed escapes,
/// paths holding `..` and empty targets; everything else asks for the
/// target's path under the root.
pub open spec fn spec_plan(bytes: Seq<u8>) -> SpecPlan {
    if !valid_utf8(bytes) {
        SpecPlan::Reply { status: "400 Bad Request"@, body: "Invalid UTF-8 in request"@ }
    } else {
        let text = decode_utf8(bytes);
        let line = spec_first_line(text);
        let method = spec_token(line, 0);
        let target = spec_token(line, 1);
        if method != "GET"@ && method != "HEAD"@ {
            SpecPlan::Reply { status: "405 Method Not Allowed"@, body: "Only GET/HEAD allowed"@ }
        } else {
            match spec_decode(target) {
                None => SpecPlan::Reply {
                    status: "400 Bad Request"@,
                    body: "Invalid percent-encoding"@,
                },
                Some(decoded) => {
                    let path_only = spec_strip_query(decoded);
                    if spec_contains_dotdot(path_only) {
                        SpecPlan::Reply { status: "400 Bad Request"@, body: "Invalid path"@ }
                    } else {
                        match spec_rel_path(path_only) {
                            None => SpecPlan::Reply {
                                status: "400 Bad Request"@,
                                body: "Invalid path"@,
                            },
                            Some(rel) => SpecPlan::Fetch { is_get: method == "GET"@, rel },
                        }
                    }
                },
            }
        }
    }
}

/// What the parsing transition yields for a complete header block.
pub open spec fn spec_parsed_step(bytes: Seq<u8>, post: HandlerState, action: Action) -> bool {
    match spec_plan(bytes) {
        SpecPlan::Reply { status, body } => post is Closed && (action matches Action::Respond {
            bytes: b,
        } && b@ == spec_simple_response(status, body)),
        SpecPlan::Fetch { is_get, rel } => (post matches HandlerState::Resolving { is_get: g } && g
            == is_get) && (action matches Action::Resolve { rel_path } && rel_path@ == rel),
    }
}

/// The transition relation of the handler: every state and event pair
/// with its next state and action.
pub open spec fn spec_step(
    state: HandlerState,
    event: Event,
    post: HandlerState,
    action: Action,
) -> bool {
    match (state, event) {
        (HandlerState::ReadingHeader { buf }, Event::Bytes { data }) => {
            let nb = buf@ + data@;
            if nb.len() > MAX_HEADER_SIZE {
                post is Closed && (action matches Action::Respond { bytes } && bytes@
                    == spec_simple_response("413 Payload Too Large"@, "Header too large"@))
            } else if spec_has_terminator(nb) {
                spec_parsed_step(nb, post, action)
            } else {
                (post matches HandlerState::ReadingHeader { buf: b2 } && b2@ == nb)
                    && action is ReadMore
            }
        },
        (HandlerState::ReadingHeader { .. }, Event::Eof) => post is Closed && action is Close,
        (HandlerState::ReadingHeader { .. }, Event::ReadFailed) => post is Closed
            && action is Close,
        (HandlerState::Resolving { is_get }, Event::Resolved { root, target }) => {
            match root {
                None => post is Closed && (action matches Action::Respond { bytes } && bytes@
                    == spec_simple_response("500 Internal Server Error"@, "Server error"@)),
                Some(root_path) => match target {
                    None => post is Closed && (action matches Action::Respond { bytes } && bytes@
                        == spec_simple_response("404 Not Found"@, "Not found"@)),
                    Some(target_path) => {
                        if spec_within_root(target_path@, root_path@) {
                            (post matches HandlerState::CheckingFile { is_get: g } && g == is_get)
                                && action is StatFile
                        } else {
                            post is Closed && (action matches Action::Respond { bytes } && bytes@
                                == spec_simple_response("403 Forbidden"@, "Forbidden"@))
                        }
                    },
                },
            }
        },
        (HandlerState::CheckingFile { is_get }, Event::Stat { found, is_dir, size }) => {
            if found && is_dir {
                post is Closed && (action matches Action::Respond { bytes } && bytes@
                    == spec_simple_response("403 Forbidden"@, "Not a file"@))
            } else if found && size > MAX_FILE_SIZE {
                post is Closed && (action matches Action::Respond { bytes } && bytes@
                    == spec_simple_response("413 Payload Too Large"@, "File too large"@))
            } else {
                (post matches HandlerState::Fetching { is_get: g } && g == is_get)
                    && action is ReadFile
            }
        },
        (HandlerState::Fetching { is_get }, Event::FileRead { content }) => {
            match content {
                Some(body) => post is Closed && (action matches Action::Respond { bytes } && bytes@
                    == spec_file_response(body@, is_get)),
                None => post is Closed && (action matches Action::Respond { bytes } && bytes@
                    == spec_simple_response("404 Not Found"@, "Not found"@)),
            }
        },
        _ => post is Closed && action is Close,
    }
}

/// Does the blank line ending a header block stand in `buf`?
pub fn has_terminator(buf: &Vec<u8>) -> (r: bool)
    ensures
        r == spec_has_terminator(buf@),
{
    let n = buf.len();
    if n < 4 {
        return false;
    }
    let mut i: usize = 0;
    while i < n - 3
        invariant
            n == buf@.len(),
            4 <= n,
            0 <= i <= n - 3,
            forall|j: int|
                0 <= j < i ==> !(#[trigger] buf@[j] == 13 && buf@[j + 1] == 10 && buf@[j + 2] == 13
                    && buf@[j + 3] == 10),
        decreases n - i,
    {
        if buf[i] == 13 && buf[i + 1] == 10 && buf[i + 2] == 13 && buf[i + 3] == 10 {
            assert(spec_has_terminator(buf@));
            return true;
        }
        i = i + 1;
    }
    false
}

/// Relies on `core::str::from_utf8`: it succeeds exactly on valid
/// UTF-8 and yields the characters those bytes encode.
#[verifier::external_body]
fn bytes_to_str(v: &[u8]) -> (r: Option<&str>)
    ensures
        r is Some <==> valid_utf8(v@),
        r is Some ==> r.unwrap()@ == decode_utf8(v@),
{
    core::str::from_utf8(v).ok()
}

/// Decide what a complete header block is owed: parse, check the
/// method, decode the target and check its path.
fn handle_complete(buf: Vec<u8>) -> (r: (HandlerState, Action))
    ensures
        spec_parsed_step(buf@, r.0, r.1),
{
    let text = match bytes_to_str(buf.as_slice()) {
        None => {
            return (
                HandlerState::Closed,
                Action::Respond {
                    bytes: build_simple_response("400 Bad Request", "Invalid UTF-8 in request"),
                },
            );
        },
        Some(t) => t,
    };
    let parsed = parse_request_line(text);
    if !method_allowed(parsed.method.as_str()) {
        return (
            HandlerState::Closed,
            Action::Respond {
                bytes: build_simple_response("405 Method Not Allowed", "Only GET/HEAD allowed"),
            },
        );
    }
    let is_get = str_eq(parsed.method.as_str(), "GET");
    let decoded = match safe_percent_decode(parsed.target.as_str()) {
        None => {
            return (
                HandlerState::Closed,
                Action::Respond {
                    bytes: build_simple_response("400 Bad Request", "Invalid percent-encoding"),
                },
            );
        },
        Some(d) => d,
    };
    let path_only = strip_query_fragment(decoded.as_str());
    if contains_dotdot(path_only.as_str()) {
        return (
            HandlerState::Closed,
            Action::Respond { bytes: build_simple_response("400 Bad Request", "Invalid path") },
        );
    }
    match target_rel_path(path_only.as_str()) {
        None => (
            HandlerState::Closed,
            Action::Respond { bytes: build_simple_response("400 Bad Request", "Invalid path") },
        ),
        Some(rel) => (HandlerState::Resolving { is_get }, Action::Resolve { rel_path: rel }),
    }
}

/// One step of the handler: consume the current state and the event
/// the process reports, and yield the next state with the action the
/// process owes. A mismatched pair abandons the connection.
pub fn step(state: HandlerState, event: Event) -> (r: (HandlerState, Action))
    ensures
        spec_step(state, event, r.0, r.1),
{
    match (state, event) {
        (HandlerState::ReadingHeader { buf }, Event::Bytes { data }) => {
            let mut nb = buf;
            let mut incoming = data;
            nb.append(&mut incoming);
            if nb.len() > MAX_HEADER_SIZE {
                (
                    HandlerState::Closed,
                    Action::Respond {
                        bytes: build_simple_response("413 Payload Too Large", "Header too large"),
                    },
                )
            } else if has_terminator(&nb) {
                handle_complete(nb)
            } else {
                (HandlerState::ReadingHeader { buf: nb }, Action::ReadMore)
            }
        },
        (HandlerState::ReadingHeader { .. }, Event::Eof) => (HandlerState::Closed, Action::Close),
        (HandlerState::ReadingHeader { .. }, Event::ReadFailed) => (
            HandlerState::Closed,
            Action::Close,
        ),
        (HandlerState::Resolving { is_get }, Event::Resolved { root, target }) => {
            let root_path = match root {
                None => {
                    return (
                        HandlerState::Closed,
                        Action::Respond {
                            bytes: build_simple_response("500 Internal Server Error", "Server error"),
                        },
                    );
                },
                Some(p) => p,
            };
            let target_path = match target {
                None => {
                    return (
                        HandlerState::Closed,
                        Action::Respond {
                            bytes: build_simple_response("404 Not Found", "Not found"),
                        },
                    );
                },
                Some(p) => p,
            };
            if is_within_root(target_path.as_str(), root_path.as_str()) {
                (HandlerState::CheckingFile { is_get }, Action::StatFile)
            } else {
                (
                    HandlerState::Closed,
                    Action::Respond { bytes: build_simple_response("403 Forbidden", "Forbidden") },
                )
            }
        },
        (HandlerState::CheckingFile { is_get }, Event::Stat { found, is_dir, size }) => {
            if found && is_dir {
                (
                    HandlerState::Closed,
                    Action::Respond { bytes: build_simple_response("403 Forbidden", "Not a file") },
                )
            } else if found && size > MAX_FILE_SIZE {
                (
                    HandlerState::Closed,
                    Action::Respond {
                        bytes: build_simple_response("413 Payload Too Large", "File too large"),
                    },
                )
            } else {
                (HandlerState::Fetching { is_get }, Action::ReadFile)
            }
        },
        (HandlerState::Fetching { is_get }, Event::FileRead { content }) => {
            match content {
                Some(body) => (
                    HandlerState::Closed,
                    Action::Respond { bytes: build_file_response(&body, is_get) },
                ),
                None => (
                    HandlerState::Closed,
                    Action::Respond { bytes: build_simple_response("404 Not Found", "Not found") },
                ),
            }
        },
        (_, _) => (HandlerState::Closed, Action::Close),
    }
}

/// Traversal law: a complete request whose method is GET or HEAD and
/// whose decoded, query-stripped path holds `..` is answered 400,
/// before and regardless of any filesystem access.
pub proof fn lemma_dotdot_rejected(bytes: Seq<u8>)
    requires
        valid_utf8(bytes),
        spec_token(spec_first_line(decode_utf8(bytes)), 0) == "GET"@ || spec_token(
            spec_first_line(decode_utf8(bytes)),
            0,
        ) == "HEAD"@,
        spec_decode(spec_token(spec_first_line(decode_utf8(bytes)), 1)) is Some,
        spec_contains_dotdot(
            spec_strip_query(spec_decode(spec_token(spec_first_line(decode_utf8(bytes)), 1)).unwrap()),
        ),
    ensures
        spec_plan(bytes) == (SpecPlan::Reply {
            status: "400 Bad Request"@,
            body: "Invalid path"@,
        }),
{
}

/// Whatever the method, a request whose decoded, query-stripped path
/// holds `..` never reaches the filesystem: its plan is a reply, not
/// a fetch.
pub proof fn lemma_dotdot_never_fetched(bytes: Seq<u8>)
    requires
        valid_utf8(bytes) ==> match spec_decode(
            spec_token(spec_first_line(decode_utf8(bytes)), 1),
        ) {
            Some(decoded) => spec_contains_dotdot(spec_strip_query(decoded)),
            None => true,
        },
    ensures
        !(spec_plan(bytes) is Fetch),
{
}

/// Method law: a complete request whose method is neither GET nor
/// HEAD is answered 405, and its plan asks for no filesystem access.
pub proof fn lemma_method_rejected(bytes: Seq<u8>)
    requires
        valid_utf8(bytes),
        spec_token(spec_first_line(decode_utf8(bytes)), 0) != "GET"@,
        spec_token(spec_first_line(decode_utf8(bytes)), 0) != "HEAD"@,
    ensures
        spec_plan(bytes) == (SpecPlan::Reply {
            status: "405 Method Not Allowed"@,
            body: "Only GET/HEAD allowed"@,
        }),
        !(spec_plan(bytes) is Fetch),
{
}

/// Root-escape law: a resolved target whose canonical path does not
/// lie under the canonical root is answered exactly 403; no step from
/// that pair serves file contents.
pub proof fn lemma_escape_rejected(
    is_get: bool,
    root: String,
    target: String,
    post: HandlerState,
    action: Action,
)
    requires
        !spec_within_root(target@, root@),
        spec_step(
            HandlerState::Resolving { is_get },
            Event::Resolved { root: Some(root), target: Some(target) },
            post,
            action,
        ),
    ensures
        post is Closed,
        action matches Action::Respond { bytes } && bytes@ == spec_simple_response(
            "403 Forbidden"@,
            "Forbidden"@,
        ),
{
}

} // verus!
