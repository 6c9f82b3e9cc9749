//! Marshalling between host and guest: how the request reaches the guest's
//! linear memory, and how the bytes that the guest hands back become the
//! JSON result.

use vstd::prelude::*;
use vstd::string::*;
use vstd::utf8::{decode_utf8, encode_utf8, valid_utf8};
use crate::engine::{
    call_to_u32, call_u32_to_u32, error_text, exported_memory, exported_names, exports,
    memory_len, memory_read, memory_write, CallFailure, Guest, MemoryAccess,
};
use crate::error::{ErrorKind, RunError};
use crate::json::{json_of_text, parse_text, render_text, text_of_json, Json, JsonView};

verus! {

/// The envelope that a guest of the stdio convention writes to its standard
/// output: an object whose field `response` is the result.
pub struct Output {
    pub response: Json,
}

/// Calls `String::from_utf8`, which accepts exactly the byte sequences that
/// are UTF-8 and gives the string that they encode.
#[verifier::external_body]
pub(crate) fn utf8_text(bytes: Vec<u8>) -> (text: Option<String>)
    ensures
        text is Some <==> valid_utf8(bytes@),
        text matches Some(text) ==> text@ == decode_utf8(bytes@),
{
    String::from_utf8(bytes).ok()
}

/// The bytes that stand for a request in the guest: the UTF-8 encoding of
/// its JSON text.
pub open spec fn input_bytes(parameters: JsonView) -> Seq<u8> {
    encode_utf8(text_of_json(parameters))
}

/// The JSON value that a sequence of bytes stands for: the bytes are UTF-8
/// and the text they encode is a JSON document.
pub open spec fn decoded(bytes: Seq<u8>) -> Option<JsonView> {
    if valid_utf8(bytes) {
        json_of_text(decode_utf8(bytes))
    } else {
        None
    }
}

/// The result that the output of a guest of the stdio convention stands for:
/// the field `response` of the object that the bytes decode to.
pub open spec fn decoded_response(bytes: Seq<u8>) -> Option<JsonView> {
    match decoded(bytes) {
        Some(envelope) => envelope.field("response"@),
        None => None,
    }
}

/// Whether `memory` holds `bytes` from position `at` on.
pub open spec fn holds_at(memory: Option<Seq<u8>>, at: int, bytes: Seq<u8>) -> bool {
    memory matches Some(memory) && 0 <= at && at + bytes.len() <= memory.len() && memory.subrange(
        at,
        at + bytes.len(),
    ) == bytes
}

/// The JSON text of a request as the guest is to read it.
pub fn input_text(parameters: &Json) -> (text: String)
    ensures
        text@ == text_of_json(parameters@),
{
    render_text(parameters)
}

/// The bytes of a request as the guest is to read them.
pub fn encode_input(parameters: &Json) -> (bytes: Vec<u8>)
    ensures
        bytes@ == input_bytes(parameters@),
{
    let text = input_text(parameters);
    text.as_str().as_bytes_vec()
}

/// The JSON value that the bytes of a guest stand for; a marshalling error
/// where they are no UTF-8 or no JSON.
pub fn decode_result(bytes: Vec<u8>) -> (outcome: Result<Json, RunError>)
    ensures
        match outcome {
            Ok(value) => decoded(bytes@) == Some(value@),
            Err(error) => decoded(bytes@) is None && error.kind == ErrorKind::MarshalError,
        },
{
    match utf8_text(bytes) {
        None => Err(RunError::new(ErrorKind::MarshalError, "the result is not UTF-8")),
        Some(text) => match parse_text(text.as_str()) {
            None => Err(RunError::new(ErrorKind::MarshalError, "the result is not JSON")),
            Some(value) => Ok(value),
        },
    }
}

/// The envelope that the standard output of a guest holds; a marshalling
/// error where the bytes are no JSON object with a field `response`.
pub fn decode_output(bytes: Vec<u8>) -> (outcome: Result<Output, RunError>)
    ensures
        match outcome {
            Ok(output) => decoded_response(bytes@) == Some(output.response@),
            Err(error) => decoded_response(bytes@) is None && error.kind
                == ErrorKind::MarshalError,
        },
{
    match decode_result(bytes) {
        Err(error) => Err(error),
        Ok(envelope) => match envelope.take("response") {
            None => Err(RunError::new(ErrorKind::MarshalError, "the output has no response")),
            Some(response) => Ok(Output { response }),
        },
    }
}

/// The failure of a call of the function that a guest exports under
/// `name`: a missing export where the guest has no such function, a trap
/// where the call did not return.
pub fn call_error(failure: CallFailure, name: &str) -> (error: RunError)
    ensures
        match failure {
            CallFailure::Missing => error.kind == ErrorKind::MissingExport && error.message@
                == missing_message(name@),
            CallFailure::Trapped(_) => error.kind == ErrorKind::GuestTrap,
        },
{
    match failure {
        CallFailure::Missing => missing_export(name),
        CallFailure::Trapped(trap) => RunError {
            kind: ErrorKind::GuestTrap,
            message: error_text(&trap),
        },
    }
}

/// The message of a missing export: the name of the symbol that the guest
/// lacks.
pub open spec fn missing_message(name: Seq<char>) -> Seq<char> {
    if name == "memory"@ {
        "Failed to get WASM memory"@
    } else if name == "func-wrapper"@ {
        "func-wrapper export not found"@
    } else {
        "Failed to get "@ + name
    }
}

/// The failure for a symbol that a guest does not export.
pub fn missing_export(name: &str) -> (error: RunError)
    ensures
        error.kind == ErrorKind::MissingExport,
        error.message@ == missing_message(name@),
{
    let wanted: String = name.to_owned();
    let memory: String = "memory".to_owned();
    let wrapper: String = "func-wrapper".to_owned();
    if wanted == memory {
        RunError::new(ErrorKind::MissingExport, "Failed to get WASM memory")
    } else if wanted == wrapper {
        RunError::new(ErrorKind::MissingExport, "func-wrapper export not found")
    } else {
        let mut message: String = "Failed to get ".to_owned();
        message.append(name);
        RunError { kind: ErrorKind::MissingExport, message }
    }
}

/// Whether a failure says that the guest lacks the export `name`.
pub open spec fn lacks(outcome: Result<(), RunError>, name: Seq<char>) -> bool {
    outcome matches Err(error) && error.kind == ErrorKind::MissingExport && error.message@
        == missing_message(name)
}

/// What holds when `bytes` were to be written at `at` into the memory that
/// a guest exports under `memory`: where they fit, the memory holds them
/// there and is as it was around them; where they do not, that is a
/// marshalling error and the memory is as it was; a guest that exports no
/// memory lacks an export.
pub open spec fn written(
    before: Option<Seq<u8>>,
    after: Option<Seq<u8>>,
    at: u32,
    bytes: Seq<u8>,
    outcome: Result<(), RunError>,
) -> bool {
    match before {
        None => lacks(outcome, "memory"@) && after is None,
        Some(memory) => if at + bytes.len() <= memory.len() {
            outcome is Ok && after == Some(
                memory.subrange(0, at as int) + bytes + memory.subrange(
                    at + bytes.len(),
                    memory.len() as int,
                ),
            )
        } else {
            outcome matches Err(error) && error.kind == ErrorKind::MarshalError && after
                == before
        },
    }
}

/// Writes `bytes` at `at` into the memory that the guest exports under
/// `memory`.
pub fn write_piece(guest: &mut Guest, at: u32, bytes: &[u8]) -> (outcome: Result<(), RunError>)
    ensures
        exported_names(*final(guest)) == exported_names(*old(guest)),
        written(
            exported_memory(*old(guest), "memory"@),
            exported_memory(*final(guest), "memory"@),
            at,
            bytes@,
            outcome,
        ),
{
    match memory_write(guest, "memory", at as usize, bytes) {
        MemoryAccess::Done => Ok(()),
        MemoryAccess::OutOfRange => Err(
            RunError::new(ErrorKind::MarshalError, "the slot lies outside guest memory"),
        ),
        MemoryAccess::NoMemory => Err(missing_export("memory")),
    }
}

/// Asks the guest for a slot of as many bytes as `bytes` has, by calling the
/// exported function `setter` with their number, and writes `bytes` to the
/// address that the guest answers with.
///
/// A guest that exports no `memory`, or nothing under `setter`, lacks an
/// export: it is not called, and its memory stays as it was. Bytes beyond
/// `u32::MAX` are a marshalling error, and the guest is not called either.
/// Else the guest decides: where this succeeds, the guest's memory holds
/// `bytes` in one piece; a `setter` that does not return is a trap; a slot
/// that does not lie inside the memory is a marshalling error.
pub fn write_slot(guest: &mut Guest, setter: &str, bytes: &[u8]) -> (outcome: Result<(), RunError>)
    ensures
        exported_names(*final(guest)) == exported_names(*old(guest)),
        exported_memory(*old(guest), "memory"@) is None ==> lacks(outcome, "memory"@),
        exported_memory(*old(guest), "memory"@) is Some && !exported_names(*old(guest)).contains(
            setter@,
        ) ==> lacks(outcome, setter@),
        exported_memory(*old(guest), "memory"@) is None || !exported_names(*old(guest)).contains(
            setter@,
        ) ==> exported_memory(*final(guest), "memory"@) == exported_memory(
            *old(guest),
            "memory"@,
        ),
        exported_memory(*old(guest), "memory"@) is Some && exported_names(*old(guest)).contains(
            setter@,
        ) && bytes@.len() > u32::MAX ==> (outcome matches Err(error) && error.kind
            == ErrorKind::MarshalError),
        match outcome {
            Ok(()) => exists|at: int|
                #[trigger] holds_at(exported_memory(*final(guest), "memory"@), at, bytes@),
            Err(error) => error.kind == ErrorKind::MissingExport || error.kind
                == ErrorKind::GuestTrap || error.kind == ErrorKind::MarshalError,
        },
{
    if memory_len(guest, "memory").is_none() {
        return Err(missing_export("memory"));
    }
    if !exports(guest, setter) {
        return Err(missing_export(setter));
    }
    if bytes.len() > u32::MAX as usize {
        return Err(RunError::new(ErrorKind::MarshalError, "the bytes do not fit guest memory"));
    }
    let size: u32 = bytes.len() as u32;
    let at: u32 = match call_u32_to_u32(guest, setter, size) {
        Err(failure) => {
            return Err(call_error(failure, setter));
        },
        Ok(at) => at,
    };
    let outcome = write_piece(guest, at, bytes);
    proof {
        if outcome is Ok {
            let after = exported_memory(*guest, "memory"@)->Some_0;
            assert(after.subrange(at as int, at + bytes@.len()) =~= bytes@);
            assert(holds_at(exported_memory(*guest, "memory"@), at as int, bytes@));
        }
    }
    outcome
}

/// Passes the request to the guest: its JSON text goes to the slot that the
/// guest's `set_input` answers with. A guest that exports no `memory` or no
/// `set_input` lacks an export and is not called.
pub fn pass_input(guest: &mut Guest, parameters: &Json) -> (outcome: Result<(), RunError>)
    ensures
        exported_names(*final(guest)) == exported_names(*old(guest)),
        exported_memory(*old(guest), "memory"@) is None ==> lacks(outcome, "memory"@),
        exported_memory(*old(guest), "memory"@) is Some && !exported_names(*old(guest)).contains(
            "set_input"@,
        ) ==> lacks(outcome, "set_input"@),
        exported_memory(*old(guest), "memory"@) is None || !exported_names(*old(guest)).contains(
            "set_input"@,
        ) ==> exported_memory(*final(guest), "memory"@) == exported_memory(
            *old(guest),
            "memory"@,
        ),
        exported_memory(*old(guest), "memory"@) is Some && exported_names(*old(guest)).contains(
            "set_input"@,
        ) && input_bytes(parameters@).len() > u32::MAX ==> (outcome matches Err(error)
            && error.kind == ErrorKind::MarshalError),
        match outcome {
            Ok(()) => exists|at: int|
                #[trigger] holds_at(
                    exported_memory(*final(guest), "memory"@),
                    at,
                    input_bytes(parameters@),
                ),
            Err(error) => error.kind == ErrorKind::MissingExport || error.kind
                == ErrorKind::GuestTrap || error.kind == ErrorKind::MarshalError,
        },
{
    let input = encode_input(parameters);
    write_slot(guest, "set_input", input.as_slice())
}

/// Passes the model to the guest: its bytes go to the slot that the guest's
/// `set_model` answers with. A guest that exports no `memory` or no
/// `set_model` lacks an export and is not called.
pub fn pass_model(guest: &mut Guest, model: &[u8]) -> (outcome: Result<(), RunError>)
    ensures
        exported_names(*final(guest)) == exported_names(*old(guest)),
        exported_memory(*old(guest), "memory"@) is None ==> lacks(outcome, "memory"@),
        exported_memory(*old(guest), "memory"@) is Some && !exported_names(*old(guest)).contains(
            "set_model"@,
        ) ==> lacks(outcome, "set_model"@),
        exported_memory(*old(guest), "memory"@) is None || !exported_names(*old(guest)).contains(
            "set_model"@,
        ) ==> exported_memory(*final(guest), "memory"@) == exported_memory(
            *old(guest),
            "memory"@,
        ),
        exported_memory(*old(guest), "memory"@) is Some && exported_names(*old(guest)).contains(
            "set_model"@,
        ) && model@.len() > u32::MAX ==> (outcome matches Err(error) && error.kind
            == ErrorKind::MarshalError),
        match outcome {
            Ok(()) => exists|at: int|
                #[trigger] holds_at(exported_memory(*final(guest), "memory"@), at, model@),
            Err(error) => error.kind == ErrorKind::MissingExport || error.kind
                == ErrorKind::GuestTrap || error.kind == ErrorKind::MarshalError,
        },
{
    write_slot(guest, "set_model", model)
}

/// The piece of `len` bytes at `at` of the memory that a guest exports under
/// `memory`: the bytes there where the piece lies inside the memory, a
/// marshalling error where it does not, and a missing export where the guest
/// exports no memory. The guest stays as it is.
pub open spec fn piece(memory: Option<Seq<u8>>, at: u32, len: u32, outcome: Result<
    Vec<u8>,
    RunError,
>) -> bool {
    match memory {
        None => outcome matches Err(error) && error.kind == ErrorKind::MissingExport
            && error.message@ == missing_message("memory"@),
        Some(memory) => if at + len <= memory.len() {
            outcome matches Ok(bytes) && bytes@ == memory.subrange(at as int, at + len)
        } else {
            outcome matches Err(error) && error.kind == ErrorKind::MarshalError
        },
    }
}

/// Reads the piece of `len` bytes at `at` out of the memory that the guest
/// exports under `memory`.
pub fn read_piece(guest: &mut Guest, at: u32, len: u32) -> (outcome: Result<Vec<u8>, RunError>)
    ensures
        forall|n: Seq<char>| exported_memory(*final(guest), n) == exported_memory(*old(guest), n),
        exported_names(*final(guest)) == exported_names(*old(guest)),
        piece(exported_memory(*old(guest), "memory"@), at, len, outcome),
{
    let size: usize = match memory_len(guest, "memory") {
        None => {
            return Err(missing_export("memory"));
        },
        Some(size) => size,
    };
    if at as u64 + len as u64 > size as u64 {
        return Err(RunError::new(ErrorKind::MarshalError, "the result lies outside guest memory"));
    }
    match memory_read(guest, "memory", at as usize, len as usize) {
        Some(bytes) => {
            let outcome: Result<Vec<u8>, RunError> = Ok(bytes);
            assert(outcome->Ok_0 == bytes);
            outcome
        },
        None => Err(RunError::new(ErrorKind::MarshalError, "the result lies outside guest memory")),
    }
}

/// What holds of the bytes of a guest's result: a guest that exports no
/// `memory`, nothing under `get_result_len` or nothing under `get_result`
/// lacks the first of these that it lacks. Else the bytes are the piece of
/// the guest's memory that the two functions answered with.
pub open spec fn result_read(
    memory: Option<Seq<u8>>,
    names: Set<Seq<char>>,
    after: Option<Seq<u8>>,
    outcome: Result<Vec<u8>, RunError>,
) -> bool {
    let missing = |name: Seq<char>|
        outcome matches Err(error) && error.kind == ErrorKind::MissingExport && error.message@
            == missing_message(name);
    if memory is None {
        missing("memory"@)
    } else if !names.contains("get_result_len"@) {
        missing("get_result_len"@)
    } else if !names.contains("get_result"@) {
        missing("get_result"@)
    } else {
        match outcome {
            Ok(bytes) => exists|at: u32, len: u32| #[trigger] piece(after, at, len, Ok(bytes)),
            Err(error) => error.kind == ErrorKind::MissingExport || error.kind
                == ErrorKind::GuestTrap || error.kind == ErrorKind::MarshalError,
        }
    }
}

/// Reads the bytes of the guest's result: as many as `get_result_len` says,
/// from the address that `get_result` says.
///
/// A guest that lacks one of the three exports is not called. Else the guest
/// decides: a function that does not return is a trap; a piece that does not
/// lie inside the memory is a marshalling error.
pub fn read_result(guest: &mut Guest) -> (outcome: Result<Vec<u8>, RunError>)
    ensures
        exported_names(*final(guest)) == exported_names(*old(guest)),
        result_read(
            exported_memory(*old(guest), "memory"@),
            exported_names(*old(guest)),
            exported_memory(*final(guest), "memory"@),
            outcome,
        ),
{
    if memory_len(guest, "memory").is_none() {
        return Err(missing_export("memory"));
    }
    if !exports(guest, "get_result_len") {
        return Err(missing_export("get_result_len"));
    }
    if !exports(guest, "get_result") {
        return Err(missing_export("get_result"));
    }
    let len: u32 = match call_to_u32(guest, "get_result_len") {
        Err(failure) => {
            return Err(call_error(failure, "get_result_len"));
        },
        Ok(len) => len,
    };
    let at: u32 = match call_to_u32(guest, "get_result") {
        Err(failure) => {
            return Err(call_error(failure, "get_result"));
        },
        Ok(at) => at,
    };
    let outcome = read_piece(guest, at, len);
    proof {
        if outcome is Ok {
            assert(piece(exported_memory(*guest, "memory"@), at, len, Ok(outcome->Ok_0)));
        }
    }
    outcome
}

/// What holds of a guest's result: as [`result_read`] says of its bytes, and
/// where they were read the result is the JSON value that they stand for, or
/// a marshalling error where they stand for none.
pub open spec fn result_retrieved(
    memory: Option<Seq<u8>>,
    names: Set<Seq<char>>,
    after: Option<Seq<u8>>,
    outcome: Result<Json, RunError>,
) -> bool {
    let missing = |name: Seq<char>|
        outcome matches Err(error) && error.kind == ErrorKind::MissingExport && error.message@
            == missing_message(name);
    if memory is None {
        missing("memory"@)
    } else if !names.contains("get_result_len"@) {
        missing("get_result_len"@)
    } else if !names.contains("get_result"@) {
        missing("get_result"@)
    } else {
        match outcome {
            Ok(value) => exists|at: u32, len: u32, bytes: Vec<u8>|
                #[trigger] piece(after, at, len, Ok(bytes)) && decoded(bytes@) == Some(value@),
            Err(error) => error.kind == ErrorKind::MissingExport || error.kind
                == ErrorKind::GuestTrap || error.kind == ErrorKind::MarshalError,
        }
    }
}

/// Retrieves the result of the guest: the bytes that it reveals through
/// `get_result_len` and `get_result`, read as UTF-8 JSON.
pub fn retrieve_result(guest: &mut Guest) -> (outcome: Result<Json, RunError>)
    ensures
        exported_names(*final(guest)) == exported_names(*old(guest)),
        result_retrieved(
            exported_memory(*old(guest), "memory"@),
            exported_names(*old(guest)),
            exported_memory(*final(guest), "memory"@),
            outcome,
        ),
{
    match read_result(guest) {
        Err(error) => Err(error),
        Ok(bytes) => {
            let ghost read = bytes;
            let outcome = decode_result(bytes);
            proof {
                if outcome is Ok {
                    let (at, len) = choose|at: u32, len: u32|
                        #[trigger] piece(exported_memory(*guest, "memory"@), at, len, Ok(read));
                    assert(piece(exported_memory(*guest, "memory"@), at, len, Ok(read))
                        && decoded(read@) == Some(outcome->Ok_0@));
                }
            }
            outcome
        },
    }
}

/// The host's marshalling adds nothing of its own: the bytes that a request
/// is passed as decode to what `serde_json` reads from the text that it
/// wrote for the request. A guest that hands its input back therefore
/// answers with exactly that.
pub proof fn lemma_marshalling_round_trip(parameters: JsonView)
    ensures
        decoded(input_bytes(parameters)) == json_of_text(text_of_json(parameters)),
{
    let text = text_of_json(parameters);
    vstd::utf8::encode_utf8_valid_utf8(text);
    vstd::utf8::encode_utf8_decode_utf8(text);
}

} // verus!
