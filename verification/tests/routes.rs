use ow_wasmtime::error::{ErrorKind, RunError};
use ow_wasmtime::marshal::decode_result;
use ow_wasmtime::routes::{
    answer_destroy, answer_init, answer_run, failure, operation, parameters, registration, route, Operation,
    DEFAULT_ADDRESS,
};
use ow_wasmtime::runtime::{Abi, Prepared};

#[test]
fn the_three_routes_are_posts_on_a_container() {
    assert_eq!(route("POST", "/abc/init"), Ok(("abc".to_string(), Operation::Init)));
    assert_eq!(route("POST", "/abc/run"), Ok(("abc".to_string(), Operation::Run)));
    assert_eq!(route("POST", "/abc/destroy"), Ok(("abc".to_string(), Operation::Destroy)));
    assert_eq!(route("POST", "/ünï-1/run"), Ok(("ünï-1".to_string(), Operation::Run)));
}

#[test]
fn other_paths_are_not_found() {
    for path in ["", "/", "/abc", "/abc/", "//run", "abc/run", "/abc/run/", "/abc/other", "/a/b/run", "/abc/RUN"] {
        assert_eq!(route("POST", path), Err(404));
    }
}

#[test]
fn other_methods_are_not_allowed() {
    assert_eq!(route("GET", "/abc/run"), Err(405));
    assert_eq!(route("post", "/abc/run"), Err(405));
    assert_eq!(route("", "/nothing"), Err(405));
}

#[test]
fn operations_have_their_names() {
    assert_eq!(operation("init"), Some(Operation::Init));
    assert_eq!(operation("run"), Some(Operation::Run));
    assert_eq!(operation("destroy"), Some(Operation::Destroy));
    assert_eq!(operation("Init"), None);
    assert_eq!(operation(""), None);
}

#[test]
fn calling_conventions_have_their_names() {
    assert_eq!(Abi::parse("argv"), Some(Abi::Argv));
    assert_eq!(Abi::parse("stdio"), Some(Abi::Stdio));
    assert_eq!(Abi::parse("memory"), Some(Abi::Memory));
    assert_eq!(Abi::parse("memory-nn"), Some(Abi::MemoryNn));
    assert_eq!(Abi::parse("component"), Some(Abi::Component));
    assert_eq!(Abi::parse("component-nn"), Some(Abi::ComponentNn));
    assert_eq!(Abi::parse("other"), None);
}

#[test]
fn the_executor_listens_on_port_9000_of_the_local_host() {
    assert_eq!(DEFAULT_ADDRESS, "127.0.0.1:9000");
}

#[test]
fn a_body_that_is_no_json_is_a_bad_request() {
    assert!(parameters(b"{\"a\":1}".to_vec()).is_ok());
    let error = parameters(b"{\"a\":".to_vec()).expect_err("no JSON");
    assert_eq!(error.kind, ErrorKind::BadRequest);
    assert_eq!(error.kind.status(), 400);
    assert_eq!(parameters(vec![0xff]).expect_err("no UTF-8").kind, ErrorKind::BadRequest);
}

#[test]
fn a_registration_carries_code_and_capabilities() {
    let body = br#"{"value":{"code":"AGFzbQEAAAA=","annotations":{"dir":"/tmp/data"}}}"#.to_vec();
    let full = registration(body).ok().expect("a registration");
    assert_eq!(full.module, b"\0asm\x01\0\0\0".to_vec());
    assert_eq!(full.capabilities.dir.as_deref(), Some("/tmp/data"));

    let body = br#"{"value":{"code":""}}"#.to_vec();
    let bare = registration(body).ok().expect("a registration");
    assert!(bare.module.is_empty());
    assert!(bare.capabilities.dir.is_none());
}

#[test]
fn a_registration_of_another_shape_is_a_bad_request() {
    let cases: [(&[u8], &str); 6] = [
        (b"not json", "the body is not JSON"),
        (b"{}", "'value' not found in JSON"),
        (b"[1]", "'value' not found in JSON"),
        (br#"{"value":{}}"#, "'code' not found in JSON or is not a string"),
        (br#"{"value":{"code":7}}"#, "'code' not found in JSON or is not a string"),
        (br#"{"value":{"code":"***"}}"#, "'code' is not Base64"),
    ];
    for (body, message) in cases {
        let error = registration(body.to_vec()).err().expect("a bad request");
        assert_eq!(error.kind, ErrorKind::BadRequest);
        assert_eq!(error.message, message);
    }
}

#[test]
fn a_result_is_answered_with_200_and_the_json() {
    let result = decode_result(br#"{"k":"v","n":7}"#.to_vec());
    let reply = answer_run(&result);
    assert_eq!(reply.status, 200);
    assert_eq!(reply.body, br#"{"k":"v","n":7}"#.to_vec());
}

#[test]
fn a_failure_is_answered_with_its_status_and_envelope() {
    let reply = answer_run(&Err(RunError::new(ErrorKind::GuestTrap, "unreachable")));
    assert_eq!(reply.status, 500);
    assert_eq!(reply.body, br#"{"error":"GuestTrap: unreachable"}"#.to_vec());
    let reply = failure(&RunError::new(ErrorKind::ContainerNotFound, "No action named nope"));
    assert_eq!(reply.status, 404);
    assert_eq!(reply.body, br#"{"error":"ContainerNotFound: No action named nope"}"#.to_vec());
    let reply = answer_init(&Err(RunError::new(ErrorKind::ModuleDeserializeError, "Error deserializing module")));
    assert_eq!(reply.status, 500);
    assert_eq!(reply.body, br#"{"error":"ModuleDeserializeError: Error deserializing module"}"#.to_vec());
}

#[test]
fn init_and_destroy_are_answered_without_a_body() {
    for prepared in [Prepared::Fresh, Prepared::Reused] {
        let reply = answer_init(&Ok(prepared));
        assert_eq!((reply.status, reply.body.len()), (200, 0));
    }
    for existed in [true, false] {
        let reply = answer_destroy(existed);
        assert_eq!((reply.status, reply.body.len()), (200, 0));
    }
}
