use ow_wasmtime::error::{ErrorKind, RunError};
use ow_wasmtime::marshal::encode_input;

#[test]
fn unknown_container_is_reported_with_404() {
    assert_eq!(ErrorKind::ContainerNotFound.status(), 404);
    assert_eq!(ErrorKind::ContainerNotFound.name(), "ContainerNotFound");
}

#[test]
fn a_bad_request_is_reported_with_400() {
    assert_eq!(ErrorKind::BadRequest.status(), 400);
}

#[test]
fn every_other_kind_is_reported_with_500() {
    let kinds = [
        ErrorKind::ModuleDeserializeError,
        ErrorKind::LinkerError,
        ErrorKind::MissingExport,
        ErrorKind::GuestTrap,
        ErrorKind::MarshalError,
        ErrorKind::AssetFetchError,
        ErrorKind::ModelWorkerError,
    ];
    for kind in kinds {
        assert_eq!(kind.status(), 500);
    }
}

#[test]
fn every_kind_has_its_name() {
    assert_eq!(ErrorKind::BadRequest.name(), "BadRequest");
    assert_eq!(ErrorKind::ModuleDeserializeError.name(), "ModuleDeserializeError");
    assert_eq!(ErrorKind::LinkerError.name(), "LinkerError");
    assert_eq!(ErrorKind::MissingExport.name(), "MissingExport");
    assert_eq!(ErrorKind::GuestTrap.name(), "GuestTrap");
    assert_eq!(ErrorKind::MarshalError.name(), "MarshalError");
    assert_eq!(ErrorKind::AssetFetchError.name(), "AssetFetchError");
    assert_eq!(ErrorKind::ModelWorkerError.name(), "ModelWorkerError");
}

#[test]
fn failure_text_joins_kind_and_message() {
    let error = RunError::new(ErrorKind::GuestTrap, "unreachable executed");
    assert_eq!(error.text(), "GuestTrap: unreachable executed");
}

#[test]
fn the_envelope_carries_the_text_under_error() {
    let error = RunError::new(ErrorKind::ContainerNotFound, "No action named nope");
    let envelope = String::from_utf8(encode_input(&error.envelope())).expect("UTF-8");
    assert_eq!(envelope, r#"{"error":"ContainerNotFound: No action named nope"}"#);
}
