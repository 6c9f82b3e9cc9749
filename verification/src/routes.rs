//! The boundary to HTTP: which operation a request line asks for, what the
//! body of a registration carries, and the status and body that each outcome
//! is answered with.

use vstd::prelude::*;
use vstd::string::*;
use crate::action::ActionCapabilities;
use crate::assets::first_slash;
use crate::error::{ErrorKind, RunError};
use crate::json::{Json, JsonView};
use crate::marshal::{decode_result, decoded, encode_input, input_bytes};
use crate::runtime::Prepared;

verus! {

/// The address that the executor listens on unless it is told another.
pub const DEFAULT_ADDRESS: &'static str = "127.0.0.1:9000";

/// One of the three operations on a container.
#[derive(Clone, Copy, Debug, PartialEq, Eq, Structural)]
pub enum Operation {
    /// Register an action.
    Init,
    /// Invoke the action.
    Run,
    /// Deregister the action.
    Destroy,
}

/// What a request is answered with.
pub struct Reply {
    pub status: u16,
    pub body: Vec<u8>,
}

/// What the body of a registration carries.
pub struct Registration {
    pub capabilities: ActionCapabilities,
    pub module: Vec<u8>,
}

/// The bytes that the standard engine of `base64` reads from a text, or
/// `None` where the text is no Base64.
pub uninterp spec fn base64_bytes(text: Seq<char>) -> Option<Seq<u8>>;

/// Calls `Engine::decode` on `base64`'s engine `STANDARD`: standard
/// alphabet, with padding. The outcome depends on the text alone.
#[verifier::external_body]
pub(crate) fn decode_base64(text: &str) -> (bytes: Option<Vec<u8>>)
    ensures
        match bytes {
            Some(bytes) => base64_bytes(text@) == Some(bytes@),
            None => base64_bytes(text@) is None,
        },
{
    base64::Engine::decode(&base64::engine::general_purpose::STANDARD, text).ok()
}

/// The operation that a name stands for.
pub open spec fn spec_operation(name: Seq<char>) -> Option<Operation> {
    if name == "init"@ {
        Some(Operation::Init)
    } else if name == "run"@ {
        Some(Operation::Run)
    } else if name == "destroy"@ {
        Some(Operation::Destroy)
    } else {
        None
    }
}

/// The container id and the operation that a path names: the path is a `/`,
/// a container id that is not empty, a `/`, and the name of an operation.
pub open spec fn spec_route(path: Seq<char>) -> Option<(Seq<char>, Operation)> {
    let slash = first_slash(path, 1);
    if path.len() > 0 && path[0] == '/' && 1 < slash < path.len() {
        match spec_operation(path.subrange(slash + 1, path.len() as int)) {
            Some(operation) => Some((path.subrange(1, slash), operation)),
            None => None,
        }
    } else {
        None
    }
}

/// The status that a request line is refused with, if it is: 405 for a
/// method other than `POST`, 404 for a path that names no operation on a
/// container.
pub open spec fn spec_refusal(method: Seq<char>, path: Seq<char>) -> Option<u16> {
    if method != "POST"@ {
        Some(405u16)
    } else if spec_route(path) is None {
        Some(404u16)
    } else {
        None
    }
}

/// The operation that a name stands for.
pub fn operation(name: &str) -> (found: Option<Operation>)
    ensures
        found == spec_operation(name@),
{
    let name: String = name.to_owned();
    let init: String = "init".to_owned();
    let run: String = "run".to_owned();
    let destroy: String = "destroy".to_owned();
    if name == init {
        Some(Operation::Init)
    } else if name == run {
        Some(Operation::Run)
    } else if name == destroy {
        Some(Operation::Destroy)
    } else {
        None
    }
}

/// The container id and the operation that a request line asks for, or the
/// status that the request is refused with.
pub fn route(method: &str, path: &str) -> (routed: Result<(String, Operation), u16>)
    ensures
        match routed {
            Ok((container_id, operation)) => spec_refusal(method@, path@) is None && spec_route(
                path@,
            ) == Some((container_id@, operation)),
            Err(status) => spec_refusal(method@, path@) == Some(status),
        },
{
    let method: String = method.to_owned();
    let post: String = "POST".to_owned();
    if method != post {
        return Err(405);
    }
    let len: usize = path.unicode_len();
    if len == 0 || path.get_char(0) != '/' {
        return Err(404);
    }
    let mut slash: usize = 1;
    while slash < len && path.get_char(slash) != '/'
        invariant
            len == path@.len(),
            1 <= slash <= len,
            first_slash(path@, 1) == first_slash(path@, slash as int),
        decreases len - slash,
    {
        slash = slash + 1;
    }
    if slash == 1 || slash >= len {
        return Err(404);
    }
    match operation(path.substring_char(slash + 1, len)) {
        None => Err(404),
        Some(operation) => Ok((path.substring_char(1, slash).to_owned(), operation)),
    }
}

/// The request that a body of `run` carries: the JSON value of its bytes.
/// A body that is no UTF-8 JSON is a bad request.
pub fn parameters(body: Vec<u8>) -> (outcome: Result<Json, RunError>)
    ensures
        match outcome {
            Ok(parameters) => decoded(body@) == Some(parameters@),
            Err(error) => decoded(body@) is None && error.kind == ErrorKind::BadRequest,
        },
{
    match decode_result(body) {
        Ok(parameters) => Ok(parameters),
        Err(_) => Err(RunError::new(ErrorKind::BadRequest, "the body is not JSON")),
    }
}

/// The directory that the annotations of a registration name, if they name
/// one: the string under `dir` of the object under `annotations`.
pub open spec fn spec_directory(value: JsonView) -> Option<Seq<char>> {
    match value.field("annotations"@) {
        Some(annotations) => match annotations.field("dir"@) {
            Some(JsonView::String(dir)) => Some(dir),
            _ => None,
        },
        None => None,
    }
}

/// The compiled bytes that a registration carries, or the message that says
/// why it carries none: the body is an object whose field `value` is an
/// object with the Base64 text of the bytes under `code`.
pub open spec fn spec_code(envelope: Option<JsonView>) -> Result<Seq<u8>, Seq<char>> {
    match envelope {
        None => Err("the body is not JSON"@),
        Some(envelope) => match envelope.field("value"@) {
            None => Err("'value' not found in JSON"@),
            Some(value) => match value.field("code"@) {
                Some(JsonView::String(code)) => match base64_bytes(code) {
                    Some(bytes) => Ok(bytes),
                    None => Err("'code' is not Base64"@),
                },
                _ => Err("'code' not found in JSON or is not a string"@),
            },
        },
    }
}

/// The directory of a capabilities record as the contract sees it.
pub open spec fn directory_text(capabilities: ActionCapabilities) -> Option<Seq<char>> {
    match capabilities.dir {
        Some(dir) => Some(dir@),
        None => None,
    }
}

/// What the body of `init` carries: the compiled bytes of the action and
/// its capabilities. A body of another shape is a bad request.
pub fn registration(body: Vec<u8>) -> (outcome: Result<Registration, RunError>)
    ensures
        match outcome {
            Ok(registration) => spec_code(decoded(body@)) == Ok::<Seq<u8>, Seq<char>>(
                registration.module@,
            ) && directory_text(registration.capabilities) == spec_directory(
                decoded(body@)->Some_0.field("value"@)->Some_0,
            ),
            Err(error) => error.kind == ErrorKind::BadRequest && spec_code(decoded(body@)) == Err::<
                Seq<u8>,
                Seq<char>,
            >(error.message@),
        },
{
    let envelope = match decode_result(body) {
        Err(_) => {
            return Err(RunError::new(ErrorKind::BadRequest, "the body is not JSON"));
        },
        Ok(envelope) => envelope,
    };
    let value = match envelope.get("value") {
        None => {
            return Err(RunError::new(ErrorKind::BadRequest, "'value' not found in JSON"));
        },
        Some(value) => value,
    };
    let code = match value.get("code") {
        Some(Json::String(code)) => code,
        _ => {
            return Err(
                RunError::new(
                    ErrorKind::BadRequest,
                    "'code' not found in JSON or is not a string",
                ),
            );
        },
    };
    let module = match decode_base64(code.as_str()) {
        None => {
            return Err(RunError::new(ErrorKind::BadRequest, "'code' is not Base64"));
        },
        Some(module) => module,
    };
    let dir = match value.get("annotations") {
        None => None,
        Some(annotations) => match annotations.get("dir") {
            Some(Json::String(dir)) => Some(dir.clone()),
            _ => None,
        },
    };
    Ok(Registration { capabilities: ActionCapabilities { dir }, module })
}

/// The reply to a failure: the status of its kind, and its envelope as the
/// body.
pub fn failure(error: &RunError) -> (reply: Reply)
    ensures
        reply.status == error.kind.spec_status(),
        reply.body@ == input_bytes(error.spec_envelope()),
{
    Reply { status: error.kind.status(), body: encode_input(&error.envelope()) }
}

/// The reply to `init`: 200 without a body where the action was registered.
pub fn answer_init(outcome: &Result<Prepared, RunError>) -> (reply: Reply)
    ensures
        match outcome {
            Ok(_) => reply.status == 200 && reply.body@.len() == 0,
            Err(error) => reply.status == error.kind.spec_status() && reply.body@ == input_bytes(
                error.spec_envelope(),
            ),
        },
{
    match outcome {
        Ok(_) => Reply { status: 200, body: Vec::new() },
        Err(error) => failure(error),
    }
}

/// The reply to `run`: 200 with the result as the body where the action ran.
pub fn answer_run(outcome: &Result<Json, RunError>) -> (reply: Reply)
    ensures
        match outcome {
            Ok(result) => reply.status == 200 && reply.body@ == input_bytes(result@),
            Err(error) => reply.status == error.kind.spec_status() && reply.body@ == input_bytes(
                error.spec_envelope(),
            ),
        },
{
    match outcome {
        Ok(result) => Reply { status: 200, body: encode_input(result) },
        Err(error) => failure(error),
    }
}

/// The reply to `destroy`: 200 without a body, whether or not the container
/// existed.
pub fn answer_destroy(existed: bool) -> (reply: Reply)
    ensures
        reply.status == 200,
        reply.body@.len() == 0,
{
    Reply { status: 200, body: Vec::new() }
}

} // verus!
