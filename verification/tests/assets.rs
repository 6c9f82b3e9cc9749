use std::cell::RefCell;

use ow_wasmtime::assets::{
    addresses, handle_replace_images, model_address, parse_s3_uri, parse_s3_uris, replace_image_urls,
    replace_image_urls_parallel, replace_image_urls_s3_parallel, replace_model_url, replacement,
    AddressFault, FetchRequest, Replacement,
};
use ow_wasmtime::error::{ErrorKind, RunError};
use ow_wasmtime::json::Json;
use ow_wasmtime::marshal::{decode_result, encode_input};

fn json(text: &str) -> Json {
    decode_result(text.as_bytes().to_vec()).expect("a JSON document")
}

fn text(value: &Json) -> String {
    String::from_utf8(encode_input(value)).expect("UTF-8")
}

fn describe(request: &FetchRequest) -> String {
    match request {
        FetchRequest::Images(urls) => format!("images {}", urls.join(" ")),
        FetchRequest::Objects(objects) => format!(
            "objects {}",
            objects.iter().map(|o| format!("{}|{}", o.bucket, o.key)).collect::<Vec<_>>().join(" ")
        ),
        FetchRequest::Model(url) => format!("model {url}"),
        FetchRequest::Asset(url) => format!("asset {url}"),
    }
}

fn echo_addresses(request: FetchRequest) -> Result<Vec<Vec<u8>>, RunError> {
    Ok(match request {
        FetchRequest::Images(urls) => urls.into_iter().map(String::into_bytes).collect(),
        FetchRequest::Objects(objects) => objects.into_iter().map(|o| o.key.into_bytes()).collect(),
        FetchRequest::Model(url) => vec![url.into_bytes()],
        FetchRequest::Asset(url) => vec![url.into_bytes()],
    })
}

fn unreachable_fetch(_request: FetchRequest) -> Result<Vec<Vec<u8>>, RunError> {
    panic!("nothing was to be fetched")
}

fn failing_fetch(_request: FetchRequest) -> Result<Vec<Vec<u8>>, RunError> {
    Err(RunError::new(ErrorKind::AssetFetchError, "HTTP status 404"))
}

#[test]
fn the_mode_of_replacement_is_read_from_replace_images() {
    assert_eq!(replacement(&json(r#"{"replace_images":"URL"}"#)), Replacement::Url);
    assert_eq!(replacement(&json(r#"{"replace_images":"S3"}"#)), Replacement::S3);
    assert_eq!(replacement(&json(r#"{"replace_images":"url"}"#)), Replacement::Keep);
    assert_eq!(replacement(&json(r#"{"replace_images":7}"#)), Replacement::Keep);
    assert_eq!(replacement(&json(r#"{}"#)), Replacement::Keep);
    assert_eq!(replacement(&json(r#"[]"#)), Replacement::Keep);
}

#[test]
fn addresses_are_the_strings_of_an_array() {
    let request = json(r#"{"image_urls":["http://a/1","http://a/2"]}"#);
    assert_eq!(
        addresses(&request, "image_urls"),
        Ok(vec!["http://a/1".to_string(), "http://a/2".to_string()])
    );
    assert_eq!(addresses(&json(r#"{"image_urls":[]}"#), "image_urls"), Ok(vec![]));
}

#[test]
fn addresses_name_the_fault_of_the_field() {
    assert_eq!(addresses(&json("{}"), "image_urls"), Err(AddressFault::NotFound));
    assert_eq!(addresses(&json(r#"{"image_urls":"x"}"#), "image_urls"), Err(AddressFault::NotAList));
    assert_eq!(
        addresses(&json(r#"{"image_urls":["x",1]}"#), "image_urls"),
        Err(AddressFault::NotAString)
    );
}

#[test]
fn images_by_url_become_base64_under_image() {
    let asked = RefCell::new(Vec::new());
    let fetch = |request: FetchRequest| {
        asked.borrow_mut().push(describe(&request));
        Ok(vec![b"hello".to_vec(), b"".to_vec(), vec![0xff, 0x00]])
    };
    let mut request = json(r#"{"image_urls":["http://a/1","http://a/2","http://a/3"],"top_k":3}"#);
    assert!(replace_image_urls_parallel(&mut request, &fetch).is_ok());
    assert_eq!(asked.into_inner(), vec!["images http://a/1 http://a/2 http://a/3".to_string()]);
    assert_eq!(
        text(&request),
        r#"{"image":["aGVsbG8=","","/wA="],"image_urls":["http://a/1","http://a/2","http://a/3"],"top_k":3}"#
    );
}

#[test]
fn images_by_url_need_a_list_of_strings() {
    let mut request = json(r#"{"image_urls":"http://a/1"}"#);
    let error = replace_image_urls_parallel(&mut request, &unreachable_fetch).expect_err("no list");
    assert_eq!(error.kind, ErrorKind::BadRequest);
    assert_eq!(error.message, "From embedder: 'image_urls' is not a list");
    assert_eq!(text(&request), r#"{"image_urls":"http://a/1"}"#);

    let mut request = json(r#"{}"#);
    let error = replace_image_urls_parallel(&mut request, &unreachable_fetch).expect_err("no key");
    assert_eq!(error.message, "From embedder: 'image_urls' key not found in JSON");

    let mut request = json(r#"{"image_urls":["x",null]}"#);
    let error = replace_image_urls_parallel(&mut request, &unreachable_fetch).expect_err("no string");
    assert_eq!(error.message, "From embedder: 'image_urls' list contains a non-string value");
}

#[test]
fn a_failed_fetch_leaves_the_request_as_it_was() {
    let mut request = json(r#"{"image_urls":["http://a/1"]}"#);
    let error = replace_image_urls_parallel(&mut request, &failing_fetch).expect_err("a failure");
    assert_eq!(error.kind, ErrorKind::AssetFetchError);
    assert_eq!(error.message, "HTTP status 404");
    assert_eq!(text(&request), r#"{"image_urls":["http://a/1"]}"#);
}

#[test]
fn images_from_s3_are_asked_for_by_bucket_and_key() {
    let asked = RefCell::new(Vec::new());
    let fetch = |request: FetchRequest| {
        asked.borrow_mut().push(describe(&request));
        echo_addresses(request)
    };
    let mut request = json(r#"{"image_uris":["s3://bucket/dir/cat.png","s3://other/dog"]}"#);
    assert!(replace_image_urls_s3_parallel(&mut request, &fetch).is_ok());
    assert_eq!(asked.into_inner(), vec!["objects bucket|dir/cat.png other|dog".to_string()]);
    assert_eq!(
        text(&request),
        r#"{"image":["ZGlyL2NhdC5wbmc=","ZG9n"],"image_uris":["s3://bucket/dir/cat.png","s3://other/dog"]}"#
    );
}

#[test]
fn an_s3_address_without_a_key_is_a_bad_request() {
    let mut request = json(r#"{"image_uris":["s3://bucket/key","s3://bucket"]}"#);
    let error = replace_image_urls_s3_parallel(&mut request, &unreachable_fetch).expect_err("bad");
    assert_eq!(error.kind, ErrorKind::BadRequest);
    assert_eq!(error.message, "Invalid S3 URL format");
    assert_eq!(text(&request), r#"{"image_uris":["s3://bucket/key","s3://bucket"]}"#);
}

#[test]
fn s3_addresses_split_at_the_first_slash_behind_the_scheme() {
    let object = parse_s3_uri("s3://bucket/key").expect("an object");
    assert_eq!((object.bucket.as_str(), object.key.as_str()), ("bucket", "key"));
    let object = parse_s3_uri("s3://bucket/a/b/c").expect("an object");
    assert_eq!((object.bucket.as_str(), object.key.as_str()), ("bucket", "a/b/c"));
    let object = parse_s3_uri("s3://bucket/").expect("an object");
    assert_eq!((object.bucket.as_str(), object.key.as_str()), ("bucket", ""));
    let object = parse_s3_uri("s3:///key").expect("an object");
    assert_eq!((object.bucket.as_str(), object.key.as_str()), ("", "key"));
    let object = parse_s3_uri("bucket/key").expect("an object");
    assert_eq!((object.bucket.as_str(), object.key.as_str()), ("bucket", "key"));
    let object = parse_s3_uri("s3://s3://bucket/key").expect("an object");
    assert_eq!((object.bucket.as_str(), object.key.as_str()), ("bucket", "key"));
    let object = parse_s3_uri("s3://büçket/ключ").expect("an object");
    assert_eq!((object.bucket.as_str(), object.key.as_str()), ("büçket", "ключ"));
    assert!(parse_s3_uri("s3://bucket").is_none());
    assert!(parse_s3_uri("s3://").is_none());
    assert!(parse_s3_uri("").is_none());
    assert!(parse_s3_uri("s3:/").is_some());
}

#[test]
fn a_list_of_s3_addresses_needs_every_one_to_parse() {
    let good = vec!["s3://a/1".to_string(), "s3://b/2".to_string()];
    let objects = parse_s3_uris(&good).expect("objects");
    assert_eq!(objects.len(), 2);
    assert_eq!(objects[1].bucket, "b");
    assert_eq!(objects[1].key, "2");
    let bad = vec!["s3://a/1".to_string(), "nothing".to_string()];
    assert!(parse_s3_uris(&bad).is_none());
    assert_eq!(parse_s3_uris(&vec![]).map(|o| o.len()), Some(0));
}

#[test]
fn images_are_handled_as_replace_images_says() {
    let mut request = json(r#"{"replace_images":"URL","image_urls":["u"]}"#);
    assert!(handle_replace_images(&mut request, &echo_addresses).is_ok());
    assert_eq!(text(&request), r#"{"image":["dQ=="],"image_urls":["u"],"replace_images":"URL"}"#);

    let mut request = json(r#"{"replace_images":"S3","image_uris":["s3://b/k"]}"#);
    assert!(handle_replace_images(&mut request, &echo_addresses).is_ok());
    assert_eq!(text(&request), r#"{"image":["aw=="],"image_uris":["s3://b/k"],"replace_images":"S3"}"#);
}

#[test]
fn images_in_base64_pass_through_without_a_fetch() {
    let mut request = json(r#"{"image":["aGVsbG8="],"model":"http://m"}"#);
    assert!(handle_replace_images(&mut request, &unreachable_fetch).is_ok());
    assert_eq!(text(&request), r#"{"image":["aGVsbG8="],"model":"http://m"}"#);

    let mut request = json(r#"{"image":"aGVsbG8=","replace_images":"none","image_urls":["u"]}"#);
    assert!(handle_replace_images(&mut request, &unreachable_fetch).is_ok());
    assert_eq!(text(&request), r#"{"image":"aGVsbG8=","image_urls":["u"],"replace_images":"none"}"#);
}

#[test]
fn the_model_address_must_be_a_string() {
    assert_eq!(model_address(&json(r#"{"model":"http://m"}"#)).expect("an address"), "http://m");
    let error = model_address(&json(r#"{}"#)).expect_err("no model");
    assert_eq!(error.kind, ErrorKind::BadRequest);
    assert_eq!(error.message, "From embedder: 'model' not found in JSON");
    let error = model_address(&json(r#"{"model":[1]}"#)).expect_err("no string");
    assert_eq!(error.message, "From embedder: 'model' is not a string");
}

#[test]
fn the_model_url_becomes_the_models_base64() {
    let asked = RefCell::new(Vec::new());
    let fetch = |request: FetchRequest| {
        asked.borrow_mut().push(describe(&request));
        Ok(vec![b"model bytes".to_vec()])
    };
    let mut request = json(r#"{"model":"http://m/squeezenet","image":"x"}"#);
    assert!(replace_model_url(&mut request, &fetch).is_ok());
    assert_eq!(asked.into_inner(), vec!["model http://m/squeezenet".to_string()]);
    assert_eq!(text(&request), r#"{"image":"x","model":"bW9kZWwgYnl0ZXM="}"#);
}

#[test]
fn a_fetch_that_brings_nothing_is_a_failed_fetch() {
    let empty = |_request: FetchRequest| Ok(vec![]);
    let mut request = json(r#"{"model":"http://m"}"#);
    let error = replace_model_url(&mut request, &empty).expect_err("nothing fetched");
    assert_eq!(error.kind, ErrorKind::AssetFetchError);
    assert_eq!(error.message, "nothing was fetched");
    assert_eq!(text(&request), r#"{"model":"http://m"}"#);
}

#[test]
fn one_image_address_becomes_one_base64_string() {
    let mut request = json(r#"{"image":"http://a/cat"}"#);
    assert!(replace_image_urls(&mut request, &echo_addresses).is_ok());
    assert_eq!(text(&request), r#"{"image":"aHR0cDovL2EvY2F0"}"#);
}

#[test]
fn a_list_of_image_addresses_becomes_a_list_of_base64_strings() {
    let mut request = json(r#"{"image":["a","bc"]}"#);
    assert!(replace_image_urls(&mut request, &echo_addresses).is_ok());
    assert_eq!(text(&request), r#"{"image":["YQ==","YmM="]}"#);
}

#[test]
fn an_image_field_of_another_shape_is_a_bad_request() {
    let mut request = json(r#"{}"#);
    let error = replace_image_urls(&mut request, &unreachable_fetch).expect_err("no image");
    assert_eq!(error.kind, ErrorKind::BadRequest);
    assert_eq!(error.message, "From embedder: 'image' not found in JSON");

    let mut request = json(r#"{"image":7}"#);
    let error = replace_image_urls(&mut request, &unreachable_fetch).expect_err("a number");
    assert_eq!(error.message, "From embedder: 'image' is not a string or a list of strings");

    let mut request = json(r#"{"image":["a",{}]}"#);
    let error = replace_image_urls(&mut request, &unreachable_fetch).expect_err("an object");
    assert_eq!(error.message, "From embedder: 'image' list contains a non-string value");
    assert_eq!(text(&request), r#"{"image":["a",{}]}"#);
}

#[test]
fn an_empty_list_of_image_urls_asks_nothing_and_leaves_no_image() {
    let mut request = json(r#"{"image_urls":[],"image":"old"}"#);
    assert!(replace_image_urls_parallel(&mut request, &unreachable_fetch).is_ok());
    assert_eq!(text(&request), r#"{"image":[],"image_urls":[]}"#);
}

#[test]
fn an_empty_list_of_s3_addresses_asks_nothing_and_leaves_no_image() {
    let mut request = json(r#"{"image_uris":[],"image":"old"}"#);
    assert!(replace_image_urls_s3_parallel(&mut request, &unreachable_fetch).is_ok());
    assert_eq!(text(&request), r#"{"image":[],"image_uris":[]}"#);
    let mut request = json(r#"{"replace_images":"S3","image_uris":[]}"#);
    assert!(handle_replace_images(&mut request, &unreachable_fetch).is_ok());
    assert_eq!(text(&request), r#"{"image":[],"image_uris":[],"replace_images":"S3"}"#);
}
