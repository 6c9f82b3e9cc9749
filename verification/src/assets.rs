//! Asset substitution: which models and images a request refers to by
//! address, and how the fetched bytes are written back into the request
//! before the guest sees it. Fetching itself is left to the caller, who
//! passes a function for it.

use vstd::prelude::*;
use vstd::string::*;
use crate::error::{ErrorKind, RunError};
use crate::json::{items_of, lemma_array_view, texts, Json, JsonView};

verus! {

/// The seconds after which the download of a model is given up.
pub const MODEL_TIMEOUT_SECS: u64 = 120;

/// The region of the buckets where the surroundings name none.
pub const DEFAULT_REGION: &'static str = "eu-west-1";

/// An object in S3: the bucket and the key inside it.
pub struct S3Object {
    pub bucket: String,
    pub key: String,
}

/// What the executor asks its caller to fetch.
pub enum FetchRequest {
    /// Images by HTTP address, all at once.
    Images(Vec<String>),
    /// Images as S3 objects, all at once.
    Objects(Vec<S3Object>),
    /// One model by HTTP address, with the timeout of a model download.
    Model(String),
    /// One model or image by HTTP address.
    Asset(String),
}

/// Why a field of the request holds no list of addresses.
#[derive(Clone, Copy, Debug, PartialEq, Eq, Structural)]
pub enum AddressFault {
    /// The request has no such field.
    NotFound,
    /// The field is no array.
    NotAList,
    /// An item of the array is no string.
    NotAString,
}

/// How the images of a request are to be replaced.
#[derive(Clone, Copy, Debug, PartialEq, Eq, Structural)]
pub enum Replacement {
    /// The field `image_urls` holds HTTP addresses.
    Url,
    /// The field `image_uris` holds S3 addresses.
    S3,
    /// Nothing is replaced.
    Keep,
}

/// The text that the standard engine of `base64` makes of a sequence of
/// bytes.
pub uninterp spec fn base64_text(bytes: Seq<u8>) -> Seq<char>;

/// Calls `Engine::encode` on `base64`'s engine `STANDARD`: standard
/// alphabet, with padding. The text depends on the bytes alone.
#[verifier::external_body]
pub(crate) fn encode_base64(bytes: &[u8]) -> (text: String)
    ensures
        text@ == base64_text(bytes@),
{
    base64::Engine::encode(&base64::engine::general_purpose::STANDARD, bytes)
}

/// Whether every item is a string.
pub open spec fn all_strings(items: Seq<JsonView>) -> bool {
    forall|i: int| 0 <= i < items.len() ==> (#[trigger] items[i]) is String
}

/// The texts of items that are all strings.
pub open spec fn string_texts(items: Seq<JsonView>) -> Seq<Seq<char>> {
    Seq::new(items.len(), |i: int| items[i]->String_0)
}

/// The list of addresses under `key`, or why there is none.
pub open spec fn spec_addresses(parameters: JsonView, key: Seq<char>) -> Result<
    Seq<Seq<char>>,
    AddressFault,
> {
    match parameters.field(key) {
        None => Err(AddressFault::NotFound),
        Some(JsonView::Array(items)) => if all_strings(items) {
            Ok(string_texts(items))
        } else {
            Err(AddressFault::NotAString)
        },
        Some(_) => Err(AddressFault::NotAList),
    }
}

/// The array without items, which replaces the images of a request that
/// names none.
pub open spec fn no_images() -> JsonView {
    JsonView::Array(Seq::empty())
}

/// The array of strings that replaces the images: the Base64 text of each
/// fetched image, in the order in which the images were handed over.
pub open spec fn encoded_images(blobs: Seq<Vec<u8>>) -> JsonView {
    JsonView::Array(Seq::new(blobs.len(), |i: int| JsonView::String(base64_text(blobs[i]@))))
}

/// How the field `replace_images` says the images are to be replaced:
/// `"URL"`, `"S3"`, and nothing for any other value or none.
pub open spec fn spec_replacement(parameters: JsonView) -> Replacement {
    match parameters.field("replace_images"@) {
        Some(JsonView::String(mode)) => if mode == "URL"@ {
            Replacement::Url
        } else if mode == "S3"@ {
            Replacement::S3
        } else {
            Replacement::Keep
        },
        _ => Replacement::Keep,
    }
}

/// The texts of the strings of an array, where all its items are strings.
pub fn string_items(items: &Vec<Json>) -> (strings: Option<Vec<String>>)
    ensures
        match strings {
            Some(strings) => all_strings(items_of(items@)) && texts(strings@) == string_texts(
                items_of(items@),
            ),
            None => !all_strings(items_of(items@)),
        },
{
    let mut strings: Vec<String> = Vec::new();
    let mut i: usize = 0;
    while i < items.len()
        invariant
            i <= items@.len(),
            strings@.len() == i,
            forall|j: int| 0 <= j < i ==> (#[trigger] items_of(items@)[j]) is String,
            forall|j: int| 0 <= j < i ==> (#[trigger] strings@[j])@ == items_of(items@)[j]->String_0,
        decreases items@.len() - i,
    {
        match items[i].as_string() {
            Some(text) => {
                strings.push(text.clone());
            },
            None => {
                assert(!(items_of(items@)[i as int] is String));
                return None;
            },
        }
        i = i + 1;
    }
    assert(texts(strings@) =~= string_texts(items_of(items@)));
    Some(strings)
}

/// The list of addresses that the request holds under `key`.
pub fn addresses(parameters: &Json, key: &str) -> (found: Result<Vec<String>, AddressFault>)
    ensures
        match found {
            Ok(list) => spec_addresses(parameters@, key@) == Ok::<Seq<Seq<char>>, AddressFault>(
                texts(list@),
            ),
            Err(fault) => spec_addresses(parameters@, key@) == Err::<Seq<Seq<char>>, AddressFault>(
                fault,
            ),
        },
{
    match parameters.get(key) {
        None => Err(AddressFault::NotFound),
        Some(value) => match value.as_array() {
            None => Err(AddressFault::NotAList),
            Some(items) => match string_items(items) {
                Some(list) => Ok(list),
                None => Err(AddressFault::NotAString),
            },
        },
    }
}

/// How the field `replace_images` says the images are to be replaced.
pub fn replacement(parameters: &Json) -> (mode: Replacement)
    ensures
        mode == spec_replacement(parameters@),
{
    match parameters.get("replace_images") {
        None => Replacement::Keep,
        Some(value) => match value.as_string() {
            None => Replacement::Keep,
            Some(mode) => {
                let url: String = "URL".to_owned();
                let s3: String = "S3".to_owned();
                if *mode == url {
                    Replacement::Url
                } else if *mode == s3 {
                    Replacement::S3
                } else {
                    Replacement::Keep
                }
            },
        },
    }
}

/// The five characters that open an S3 address.
pub open spec fn s3_scheme() -> Seq<char> {
    seq!['s', '3', ':', '/', '/']
}

/// Whether the characters from `at` on begin with the S3 scheme.
pub open spec fn scheme_at(address: Seq<char>, at: int) -> bool {
    0 <= at && at + 5 <= address.len() && address.subrange(at, at + 5) == s3_scheme()
}

/// The position behind every repetition of the S3 scheme that begins at `at`.
pub open spec fn scheme_end(address: Seq<char>, at: int) -> int
    decreases address.len() - at,
{
    if scheme_at(address, at) {
        scheme_end(address, at + 5)
    } else {
        at
    }
}

/// The position of the first `/` at or behind `from`, or the length of the
/// address where there is none.
pub open spec fn first_slash(address: Seq<char>, from: int) -> int
    decreases address.len() - from,
{
    if from < 0 || from >= address.len() {
        address.len() as int
    } else if address[from] == '/' {
        from
    } else {
        first_slash(address, from + 1)
    }
}

/// Bucket and key of an S3 address, `s3://bucket/key`: the scheme is dropped
/// as often as it stands in front, the bucket ends before the first `/` of
/// what is left, the key is the rest behind that `/`. An address without a
/// `/` behind the scheme has neither.
pub open spec fn spec_parse_s3_uri(address: Seq<char>) -> Option<(Seq<char>, Seq<char>)> {
    let start = scheme_end(address, 0);
    let slash = first_slash(address, start);
    if slash < address.len() {
        Some((address.subrange(start, slash), address.subrange(slash + 1, address.len() as int)))
    } else {
        None
    }
}

/// Bucket and key of an S3 address, or `None` where the address has no `/`
/// behind its scheme.
pub fn parse_s3_uri(address: &str) -> (object: Option<S3Object>)
    ensures
        match object {
            Some(object) => spec_parse_s3_uri(address@) == Some((object.bucket@, object.key@)),
            None => spec_parse_s3_uri(address@) is None,
        },
{
    let len: usize = address.unicode_len();
    let mut start: usize = 0;
    while len >= 5 && start <= len - 5 && address.get_char(start) == 's' && address.get_char(
        start + 1,
    ) == '3' && address.get_char(start + 2) == ':' && address.get_char(start + 3) == '/'
        && address.get_char(start + 4) == '/'
        invariant
            len == address@.len(),
            start <= len,
            scheme_end(address@, 0) == scheme_end(address@, start as int),
        decreases len - start,
    {
        proof {
            assert(address@.subrange(start as int, start + 5) =~= s3_scheme());
        }
        start = start + 5;
    }
    proof {
        if scheme_at(address@, start as int) {
            let part = address@.subrange(start as int, start + 5);
            assert(part[0] == 's' && part[1] == '3' && part[2] == ':' && part[3] == '/' && part[4]
                == '/');
        }
    }
    let mut slash: usize = start;
    while slash < len && address.get_char(slash) != '/'
        invariant
            len == address@.len(),
            start <= slash <= len,
            first_slash(address@, start as int) == first_slash(address@, slash as int),
        decreases len - slash,
    {
        slash = slash + 1;
    }
    if slash < len {
        let bucket = address.substring_char(start, slash).to_owned();
        let key = address.substring_char(slash + 1, len).to_owned();
        Some(S3Object { bucket, key })
    } else {
        None
    }
}

/// The message for a field that holds no list of addresses.
pub open spec fn fault_message(key: Seq<char>, fault: AddressFault) -> Seq<char> {
    match fault {
        AddressFault::NotFound => "From embedder: '"@ + key + "' key not found in JSON"@,
        AddressFault::NotAList => "From embedder: '"@ + key + "' is not a list"@,
        AddressFault::NotAString => "From embedder: '"@ + key
            + "' list contains a non-string value"@,
    }
}

/// The failure for a field that holds no list of addresses: a bad request.
pub fn address_error(key: &str, fault: AddressFault) -> (error: RunError)
    ensures
        error.kind == ErrorKind::BadRequest,
        error.message@ == fault_message(key@, fault),
{
    let mut message: String = "From embedder: '".to_owned();
    message.append(key);
    match fault {
        AddressFault::NotFound => message.append("' key not found in JSON"),
        AddressFault::NotAList => message.append("' is not a list"),
        AddressFault::NotAString => message.append("' list contains a non-string value"),
    }
    RunError { kind: ErrorKind::BadRequest, message }
}

/// The array without items.
pub fn empty_array() -> (array: Json)
    ensures
        array@ == no_images(),
{
    broadcast use lemma_array_view;

    let items: Vec<Json> = Vec::new();
    assert(items_of(items@) =~= Seq::<JsonView>::empty());
    Json::Array(items)
}

/// The Base64 texts of the fetched images, as a JSON array.
pub fn encode_images(blobs: &Vec<Vec<u8>>) -> (array: Json)
    ensures
        array@ == encoded_images(blobs@),
{
    broadcast use lemma_array_view;

    let mut items: Vec<Json> = Vec::new();
    let mut i: usize = 0;
    while i < blobs.len()
        invariant
            i <= blobs@.len(),
            items@.len() == i,
            forall|j: int|
                0 <= j < i ==> (#[trigger] items@[j])@ == JsonView::String(base64_text(blobs@[j]@)),
        decreases blobs@.len() - i,
    {
        items.push(Json::String(encode_base64(blobs[i].as_slice())));
        i = i + 1;
    }
    assert(items_of(items@) =~= encoded_images(blobs@)->Array_0);
    Json::Array(items)
}

/// The objects that a list of S3 addresses names, where every address has a
/// bucket and a key.
pub open spec fn spec_objects(addresses: Seq<Seq<char>>) -> Option<Seq<(Seq<char>, Seq<char>)>> {
    if forall|i: int| 0 <= i < addresses.len() ==> spec_parse_s3_uri(#[trigger] addresses[i]) is Some {
        Some(Seq::new(addresses.len(), |i: int| spec_parse_s3_uri(addresses[i])->Some_0))
    } else {
        None
    }
}

/// Buckets and keys of a list of objects.
pub open spec fn object_names(objects: Seq<S3Object>) -> Seq<(Seq<char>, Seq<char>)> {
    Seq::new(objects.len(), |i: int| (objects[i].bucket@, objects[i].key@))
}

/// The objects that a list of S3 addresses names, or `None` where one of the
/// addresses has no bucket and key.
pub fn parse_s3_uris(addresses: &Vec<String>) -> (objects: Option<Vec<S3Object>>)
    ensures
        match objects {
            Some(objects) => spec_objects(texts(addresses@)) == Some(object_names(objects@)),
            None => spec_objects(texts(addresses@)) is None,
        },
{
    let mut objects: Vec<S3Object> = Vec::new();
    let mut i: usize = 0;
    while i < addresses.len()
        invariant
            i <= addresses@.len(),
            objects@.len() == i,
            forall|j: int|
                0 <= j < i ==> spec_parse_s3_uri(#[trigger] texts(addresses@)[j]) == Some(
                    (objects@[j].bucket@, objects@[j].key@),
                ),
        decreases addresses@.len() - i,
    {
        match parse_s3_uri(addresses[i].as_str()) {
            Some(object) => {
                objects.push(object);
            },
            None => {
                assert(spec_parse_s3_uri(texts(addresses@)[i as int]) is None);
                return None;
            },
        }
        i = i + 1;
    }
    assert(spec_objects(texts(addresses@))->Some_0 =~= object_names(objects@));
    Some(objects)
}

/// What holds when the images of a request were replaced through `fetch`:
/// where the field `image_urls` holds no list of addresses the request fails
/// as a bad request and stays as it was; else `fetch` was asked for exactly
/// those addresses, and the request either has its answer, encoded, under
/// `image`, or failed as `fetch` did and stays as it was.
pub open spec fn replaced_by_urls<F: Fn(FetchRequest) -> Result<Vec<Vec<u8>>, RunError>>(
    before: JsonView,
    after: JsonView,
    outcome: Result<(), RunError>,
    fetch: F,
) -> bool {
    match spec_addresses(before, "image_urls"@) {
        Err(fault) => outcome matches Err(error) && error.kind == ErrorKind::BadRequest
            && error.message@ == fault_message("image_urls"@, fault) && after == before,
        Ok(urls) => if urls.len() == 0 {
            outcome is Ok && after == before.with_field("image"@, no_images())
        } else {
            exists|list: Vec<String>|
                #![trigger texts(list@)]
                texts(list@) == urls && match outcome {
                    Ok(()) => exists|blobs: Vec<Vec<u8>>|
                        #![trigger encoded_images(blobs@)]
                        fetch.ensures((FetchRequest::Images(list),), Ok(blobs)) && after
                            == before.with_field("image"@, encoded_images(blobs@)),
                    Err(error) => fetch.ensures((FetchRequest::Images(list),), Err(error))
                        && after == before,
                }
        },
    }
}

/// Whether a field of the request names at least one address.
pub open spec fn names_addresses(parameters: JsonView, key: Seq<char>) -> bool {
    spec_addresses(parameters, key) matches Ok(list) && list.len() > 0
}

/// Replaces the images of a request by what `fetch` brings for the HTTP
/// addresses under `image_urls`: the field `image` becomes the array of the
/// Base64 texts of the fetched images. Where the list is empty nothing is
/// asked of `fetch`, and `image` becomes the empty array.
pub fn replace_image_urls_parallel<F>(parameters: &mut Json, fetch: &F) -> (outcome: Result<
    (),
    RunError,
>) where F: Fn(FetchRequest) -> Result<Vec<Vec<u8>>, RunError>
    requires
        names_addresses(old(parameters)@, "image_urls"@) ==> forall|request: FetchRequest|
            fetch.requires((request,)),
    ensures
        replaced_by_urls(old(parameters)@, final(parameters)@, outcome, *fetch),
{
    match addresses(parameters, "image_urls") {
        Err(fault) => Err(address_error("image_urls", fault)),
        Ok(list) => {
            if list.len() == 0 {
                parameters.set("image".to_owned(), empty_array());
                return Ok(());
            }
            match fetch(FetchRequest::Images(list)) {
                Err(error) => Err(error),
                Ok(blobs) => {
                    parameters.set("image".to_owned(), encode_images(&blobs));
                    Ok(())
                },
            }
        },
    }
}

/// What holds when the images of a request were replaced through `fetch`
/// from S3: where the field `image_uris` holds no list of addresses, or one
/// of them has no bucket and key, the request fails as a bad request and
/// stays as it was; else `fetch` was asked for exactly those objects, and the
/// request either has its answer, encoded, under `image`, or failed as
/// `fetch` did and stays as it was.
pub open spec fn replaced_by_objects<F: Fn(FetchRequest) -> Result<Vec<Vec<u8>>, RunError>>(
    before: JsonView,
    after: JsonView,
    outcome: Result<(), RunError>,
    fetch: F,
) -> bool {
    match spec_addresses(before, "image_uris"@) {
        Err(fault) => outcome matches Err(error) && error.kind == ErrorKind::BadRequest
            && error.message@ == fault_message("image_uris"@, fault) && after == before,
        Ok(uris) => match spec_objects(uris) {
            None => outcome matches Err(error) && error.kind == ErrorKind::BadRequest
                && error.message@ == "Invalid S3 URL format"@ && after == before,
            Some(names) => if names.len() == 0 {
                outcome is Ok && after == before.with_field("image"@, no_images())
            } else {
                exists|objects: Vec<S3Object>|
                    #![trigger object_names(objects@)]
                    object_names(objects@) == names && match outcome {
                        Ok(()) => exists|blobs: Vec<Vec<u8>>|
                            #![trigger encoded_images(blobs@)]
                            fetch.ensures((FetchRequest::Objects(objects),), Ok(blobs)) && after
                                == before.with_field("image"@, encoded_images(blobs@)),
                        Err(error) => fetch.ensures(
                            (FetchRequest::Objects(objects),),
                            Err(error),
                        ) && after == before,
                    }
            },
        },
    }
}

/// Replaces the images of a request by what `fetch` brings for the S3
/// addresses under `image_uris`: the field `image` becomes the array of the
/// Base64 texts of the fetched images. Where the list is empty nothing is
/// asked of `fetch`, and `image` becomes the empty array.
pub fn replace_image_urls_s3_parallel<F>(parameters: &mut Json, fetch: &F) -> (outcome: Result<
    (),
    RunError,
>) where F: Fn(FetchRequest) -> Result<Vec<Vec<u8>>, RunError>
    requires
        names_addresses(old(parameters)@, "image_uris"@) ==> forall|request: FetchRequest|
            fetch.requires((request,)),
    ensures
        replaced_by_objects(old(parameters)@, final(parameters)@, outcome, *fetch),
{
    match addresses(parameters, "image_uris") {
        Err(fault) => Err(address_error("image_uris", fault)),
        Ok(list) => match parse_s3_uris(&list) {
            None => Err(RunError::new(ErrorKind::BadRequest, "Invalid S3 URL format")),
            Some(objects) => {
                if objects.len() == 0 {
                    parameters.set("image".to_owned(), empty_array());
                    return Ok(());
                }
                match fetch(FetchRequest::Objects(objects)) {
                    Err(error) => Err(error),
                    Ok(blobs) => {
                        parameters.set("image".to_owned(), encode_images(&blobs));
                        Ok(())
                    },
                }
            },
        },
    }
}

/// The message of the bad request that the replacement of the images
/// answers a request with before anything is fetched, if it is one: the
/// field that `replace_images` points to holds no list of addresses, or an S3
/// address has no bucket and key.
pub open spec fn image_fault(parameters: JsonView) -> Option<Seq<char>> {
    match spec_replacement(parameters) {
        Replacement::Url => match spec_addresses(parameters, "image_urls"@) {
            Err(fault) => Some(fault_message("image_urls"@, fault)),
            Ok(_) => None,
        },
        Replacement::S3 => match spec_addresses(parameters, "image_uris"@) {
            Err(fault) => Some(fault_message("image_uris"@, fault)),
            Ok(uris) => if spec_objects(uris) is None {
                Some("Invalid S3 URL format"@)
            } else {
                None
            },
        },
        Replacement::Keep => None,
    }
}

/// Looks for the fault that [`image_fault`] tells of, without fetching
/// anything.
pub fn check_images(parameters: &Json) -> (outcome: Result<(), RunError>)
    ensures
        match image_fault(parameters@) {
            Some(message) => outcome matches Err(error) && error.kind == ErrorKind::BadRequest
                && error.message@ == message,
            None => outcome is Ok,
        },
{
    match replacement(parameters) {
        Replacement::Url => match addresses(parameters, "image_urls") {
            Err(fault) => Err(address_error("image_urls", fault)),
            Ok(_) => Ok(()),
        },
        Replacement::S3 => match addresses(parameters, "image_uris") {
            Err(fault) => Err(address_error("image_uris", fault)),
            Ok(list) => match parse_s3_uris(&list) {
                None => Err(RunError::new(ErrorKind::BadRequest, "Invalid S3 URL format")),
                Some(_) => Ok(()),
            },
        },
        Replacement::Keep => Ok(()),
    }
}

/// What holds when the images of a request were handled as its field
/// `replace_images` says: replaced from HTTP addresses for `"URL"`, from S3
/// for `"S3"`; for any other value, or none, nothing is fetched and the
/// request stays as it was.
pub open spec fn images_handled<F: Fn(FetchRequest) -> Result<Vec<Vec<u8>>, RunError>>(
    before: JsonView,
    after: JsonView,
    outcome: Result<(), RunError>,
    fetch: F,
) -> bool {
    match spec_replacement(before) {
        Replacement::Url => replaced_by_urls(before, after, outcome, fetch),
        Replacement::S3 => replaced_by_objects(before, after, outcome, fetch),
        Replacement::Keep => outcome is Ok && after == before,
    }
}

/// Replaces the images of a request as its field `replace_images` says.
pub fn handle_replace_images<F>(parameters: &mut Json, fetch: &F) -> (outcome: Result<
    (),
    RunError,
>) where F: Fn(FetchRequest) -> Result<Vec<Vec<u8>>, RunError>
    requires
        spec_replacement(old(parameters)@) != Replacement::Keep ==> forall|request: FetchRequest|
            fetch.requires((request,)),
    ensures
        images_handled(old(parameters)@, final(parameters)@, outcome, *fetch),
        image_fault(old(parameters)@) matches Some(message) ==> (outcome matches Err(error)
            && error.kind == ErrorKind::BadRequest && error.message@ == message),
{
    match replacement(parameters) {
        Replacement::Url => replace_image_urls_parallel(parameters, fetch),
        Replacement::S3 => replace_image_urls_s3_parallel(parameters, fetch),
        Replacement::Keep => Ok(()),
    }
}

/// What holds of one asset that was asked of `fetch`: it is the first of the
/// blobs that `fetch` brought; the failure is that of `fetch`, or, where
/// `fetch` brought no blob at all, a failed fetch of the library's own.
pub open spec fn fetched_one<F: Fn(FetchRequest) -> Result<Vec<Vec<u8>>, RunError>>(
    fetch: F,
    request: FetchRequest,
    outcome: Result<Vec<u8>, RunError>,
) -> bool {
    match outcome {
        Ok(bytes) => exists|blobs: Vec<Vec<u8>>|
            #![trigger fetch.ensures((request,), Ok(blobs))]
            fetch.ensures((request,), Ok(blobs)) && blobs@.len() > 0 && blobs@[0] == bytes,
        Err(error) => fetch.ensures((request,), Err(error)) || (error.kind
            == ErrorKind::AssetFetchError && error.message@ == "nothing was fetched"@
            && exists|blobs: Vec<Vec<u8>>|
            #![trigger fetch.ensures((request,), Ok(blobs))]
            fetch.ensures((request,), Ok(blobs)) && blobs@.len() == 0),
    }
}

/// Asks `fetch` for one asset.
pub fn fetch_one<F>(fetch: &F, request: FetchRequest) -> (outcome: Result<Vec<u8>, RunError>) where
    F: Fn(FetchRequest) -> Result<Vec<Vec<u8>>, RunError>,

    requires
        fetch.requires((request,)),
    ensures
        fetched_one(*fetch, request, outcome),
{
    match fetch(request) {
        Err(error) => Err(error),
        Ok(blobs) => {
            let mut blobs = blobs;
            if blobs.len() > 0 {
                Ok(blobs.remove(0))
            } else {
                Err(RunError::new(ErrorKind::AssetFetchError, "nothing was fetched"))
            }
        },
    }
}

/// The address under `model`, or the message that says why there is none.
pub open spec fn spec_model_address(parameters: JsonView) -> Result<Seq<char>, Seq<char>> {
    match parameters.field("model"@) {
        None => Err("From embedder: 'model' not found in JSON"@),
        Some(JsonView::String(address)) => Ok(address),
        Some(_) => Err("From embedder: 'model' is not a string"@),
    }
}

/// The address of the model of a request.
pub fn model_address(parameters: &Json) -> (found: Result<String, RunError>)
    ensures
        match found {
            Ok(address) => spec_model_address(parameters@) == Ok::<Seq<char>, Seq<char>>(address@),
            Err(error) => error.kind == ErrorKind::BadRequest && spec_model_address(parameters@)
                == Err::<Seq<char>, Seq<char>>(error.message@),
        },
{
    match parameters.get("model") {
        None => Err(RunError::new(ErrorKind::BadRequest, "From embedder: 'model' not found in JSON")),
        Some(value) => match value.as_string() {
            Some(address) => Ok(address.clone()),
            None => Err(
                RunError::new(ErrorKind::BadRequest, "From embedder: 'model' is not a string"),
            ),
        },
    }
}

/// What holds when the model of a request was replaced through `fetch`:
/// where `model` is no string the request fails as a bad request; else
/// `fetch` was asked for that one address, and `model` becomes the Base64
/// text of what it brought. A request that fails stays as it was.
pub open spec fn model_replaced<F: Fn(FetchRequest) -> Result<Vec<Vec<u8>>, RunError>>(
    before: JsonView,
    after: JsonView,
    outcome: Result<(), RunError>,
    fetch: F,
) -> bool {
    match spec_model_address(before) {
        Err(message) => outcome matches Err(error) && error.kind == ErrorKind::BadRequest
            && error.message@ == message && after == before,
        Ok(address) => exists|url: String|
            #![trigger url@]
            url@ == address && match outcome {
                Ok(()) => exists|bytes: Vec<u8>|
                    #![trigger base64_text(bytes@)]
                    fetched_one(fetch, FetchRequest::Model(url), Ok(bytes)) && after
                        == before.with_field("model"@, JsonView::String(base64_text(bytes@))),
                Err(error) => fetched_one(fetch, FetchRequest::Model(url), Err(error)) && after
                    == before,
            },
    }
}

/// Replaces the address under `model` by the Base64 text of the model that
/// `fetch` brings for it. The model is asked for as a model, so that a
/// fetcher with the model cache in front serves it from there.
pub fn replace_model_url<F>(parameters: &mut Json, fetch: &F) -> (outcome: Result<(), RunError>) where
    F: Fn(FetchRequest) -> Result<Vec<Vec<u8>>, RunError>,

    requires
        forall|request: FetchRequest| fetch.requires((request,)),
    ensures
        model_replaced(old(parameters)@, final(parameters)@, outcome, *fetch),
{
    match model_address(parameters) {
        Err(error) => Err(error),
        Ok(url) => {
            match fetch_one(fetch, FetchRequest::Model(url)) {
                Err(error) => Err(error),
                Ok(bytes) => {
                    parameters.set(
                        "model".to_owned(),
                        Json::String(encode_base64(bytes.as_slice())),
                    );
                    Ok(())
                },
            }
        },
    }
}

/// What the field `image` of a request refers to.
pub enum ImageField {
    /// One address.
    One(Seq<char>),
    /// A list of addresses.
    Many(Seq<Seq<char>>),
    /// Nothing that can be fetched; the message says why.
    Invalid(Seq<char>),
}

/// What the field `image` of a request refers to: a string is one address,
/// an array of strings is a list of addresses.
pub open spec fn spec_image_field(parameters: JsonView) -> ImageField {
    match parameters.field("image"@) {
        None => ImageField::Invalid("From embedder: 'image' not found in JSON"@),
        Some(JsonView::String(address)) => ImageField::One(address),
        Some(JsonView::Array(items)) => if all_strings(items) {
            ImageField::Many(string_texts(items))
        } else {
            ImageField::Invalid("From embedder: 'image' list contains a non-string value"@)
        },
        Some(_) => ImageField::Invalid(
            "From embedder: 'image' is not a string or a list of strings"@,
        ),
    }
}

/// What holds when the field `image` of a request was replaced through
/// `fetch`: one address becomes the Base64 text of what `fetch` brought for
/// it, a list of addresses the array of the Base64 texts of what `fetch`
/// brought for the list; anything else fails as a bad request. A request
/// that fails stays as it was.
pub open spec fn image_replaced<F: Fn(FetchRequest) -> Result<Vec<Vec<u8>>, RunError>>(
    before: JsonView,
    after: JsonView,
    outcome: Result<(), RunError>,
    fetch: F,
) -> bool {
    match spec_image_field(before) {
        ImageField::Invalid(message) => outcome matches Err(error) && error.kind
            == ErrorKind::BadRequest && error.message@ == message && after == before,
        ImageField::One(address) => exists|url: String|
            #![trigger url@]
            url@ == address && match outcome {
                Ok(()) => exists|bytes: Vec<u8>|
                    #![trigger base64_text(bytes@)]
                    fetched_one(fetch, FetchRequest::Asset(url), Ok(bytes)) && after
                        == before.with_field("image"@, JsonView::String(base64_text(bytes@))),
                Err(error) => fetched_one(fetch, FetchRequest::Asset(url), Err(error)) && after
                    == before,
            },
        ImageField::Many(urls) => if urls.len() == 0 {
            outcome is Ok && after == before.with_field("image"@, no_images())
        } else {
            exists|list: Vec<String>|
                #![trigger texts(list@)]
                texts(list@) == urls && match outcome {
                    Ok(()) => exists|blobs: Vec<Vec<u8>>|
                        #![trigger encoded_images(blobs@)]
                        fetch.ensures((FetchRequest::Images(list),), Ok(blobs)) && after
                            == before.with_field("image"@, encoded_images(blobs@)),
                    Err(error) => fetch.ensures((FetchRequest::Images(list),), Err(error))
                        && after == before,
                }
        },
    }
}

/// What the field `image` of a request refers to, as the host holds it.
pub enum ImageAddresses {
    /// One address.
    One(String),
    /// A list of addresses.
    Many(Vec<String>),
}

/// What the field `image` of a request refers to; a bad request where it
/// refers to nothing that can be fetched.
pub fn image_field(parameters: &Json) -> (outcome: Result<ImageAddresses, RunError>)
    ensures
        match outcome {
            Ok(ImageAddresses::One(address)) => spec_image_field(parameters@) == ImageField::One(
                address@,
            ),
            Ok(ImageAddresses::Many(list)) => spec_image_field(parameters@) == ImageField::Many(
                texts(list@),
            ),
            Err(error) => error.kind == ErrorKind::BadRequest && spec_image_field(parameters@)
                == ImageField::Invalid(error.message@),
        },
{
    match parameters.get("image") {
        None => Err(
            RunError::new(ErrorKind::BadRequest, "From embedder: 'image' not found in JSON"),
        ),
        Some(value) => match value.as_string() {
            Some(address) => Ok(ImageAddresses::One(address.clone())),
            None => match value.as_array() {
                None => Err(
                    RunError::new(
                        ErrorKind::BadRequest,
                        "From embedder: 'image' is not a string or a list of strings",
                    ),
                ),
                Some(items) => match string_items(items) {
                    None => Err(
                        RunError::new(
                            ErrorKind::BadRequest,
                            "From embedder: 'image' list contains a non-string value",
                        ),
                    ),
                    Some(list) => Ok(ImageAddresses::Many(list)),
                },
            },
        },
    }
}

/// Replaces the address or addresses under `image` by the Base64 text or
/// texts of what `fetch` brings for them. Where the list is empty nothing is
/// asked of `fetch`.
pub fn replace_image_urls<F>(parameters: &mut Json, fetch: &F) -> (outcome: Result<(), RunError>) where
    F: Fn(FetchRequest) -> Result<Vec<Vec<u8>>, RunError>,

    requires
        forall|request: FetchRequest| fetch.requires((request,)),
    ensures
        image_replaced(old(parameters)@, final(parameters)@, outcome, *fetch),
{
    match image_field(parameters) {
        Err(error) => Err(error),
        Ok(ImageAddresses::One(url)) => {
            match fetch_one(fetch, FetchRequest::Asset(url)) {
                Err(error) => Err(error),
                Ok(bytes) => {
                    parameters.set(
                        "image".to_owned(),
                        Json::String(encode_base64(bytes.as_slice())),
                    );
                    Ok(())
                },
            }
        },
        Ok(ImageAddresses::Many(list)) => {
            if list.len() == 0 {
                parameters.set("image".to_owned(), empty_array());
                return Ok(());
            }
            match fetch(FetchRequest::Images(list)) {
                Err(error) => Err(error),
                Ok(blobs) => {
                    parameters.set("image".to_owned(), encode_images(&blobs));
                    Ok(())
                },
            }
        },
    }
}

/// A request without the field `replace_images` keeps its images: nothing is
/// asked of `fetch`, which need not even be callable, and the request stays
/// as it was, whatever its field `image` holds.
pub proof fn lemma_images_kept<F: Fn(FetchRequest) -> Result<Vec<Vec<u8>>, RunError>>(
    before: JsonView,
    after: JsonView,
    outcome: Result<(), RunError>,
    fetch: F,
)
    requires
        before.field("replace_images"@) is None,
        images_handled(before, after, outcome, fetch),
    ensures
        spec_replacement(before) == Replacement::Keep,
        outcome is Ok,
        after == before,
        after.field("image"@) == before.field("image"@),
{
}

} // verus!
