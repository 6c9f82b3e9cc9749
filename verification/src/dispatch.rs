//! Multi-model dispatch: one request names several models, every model is
//! run by a worker of its own, and the workers' results are joined into one
//! answer. The library prepares the fan-out, does the work of one worker,
//! and concludes the fan-out from the workers' outcomes; starting the
//! workers in parallel is left to the caller.

use vstd::prelude::*;
use vstd::string::*;
use crate::action::Template;
use crate::assets::{
    addresses, handle_replace_images, image_fault, images_handled, spec_replacement, AddressFault,
    FetchRequest, Replacement,
};
use crate::clock::{elapsed, now, seconds_json, since_epoch, span_number, Span};
use crate::engine::{declared_exports, WasmCtx};
use crate::error::{ErrorKind, RunError};
use crate::json::{
    fields_of, last_position, lemma_last_position, lemma_object_view, texts, Json, JsonView,
};
use crate::marshal::{pass_input, pass_model, retrieve_result};
use crate::runtime::{
    attach, attached, complete, enter, from_guest_bytes, guest_failure, names_missing,
    require_exports, start, Abi, Wasmtime,
};

verus! {

/// The times that a worker measures: how long the whole run and the passing
/// of the model took, and when, by the system clock, the worker and the
/// passing of the model began and ended.
pub struct WorkerMetrics {
    pub func_time: Span,
    pub pass_model_time: Span,
    pub thread_start: Span,
    pub thread_end: Span,
    pub pass_model_start: Span,
    pub pass_model_end: Span,
}

/// The object of metrics that a result carries, to which more are added: an
/// object stays, `null` or no field at all counts as the empty object, and
/// nothing else can take metrics.
pub open spec fn metrics_of(result: JsonView) -> Option<JsonView> {
    match result.field("metrics"@) {
        Some(JsonView::Object(fields)) => Some(JsonView::Object(fields)),
        Some(JsonView::Null) | None => Some(JsonView::Object(Map::empty())),
        Some(_) => None,
    }
}

/// An object of metrics with a worker's six times added to it.
pub open spec fn with_worker_metrics(metrics: JsonView, times: WorkerMetrics) -> JsonView {
    metrics.with_field("func_time"@, span_number(times.func_time)).with_field(
        "pass_model_time"@,
        span_number(times.pass_model_time),
    ).with_field("thread_start"@, span_number(times.thread_start)).with_field(
        "thread_end"@,
        span_number(times.thread_end),
    ).with_field("pass_model_start"@, span_number(times.pass_model_start)).with_field(
        "pass_model_end"@,
        span_number(times.pass_model_end),
    )
}

/// A worker's result with its times: the result's field `metrics` holds
/// what it held and the six times. A result that is neither an object nor
/// `null`, or whose `metrics` is neither, can take no times.
pub open spec fn annotated(result: JsonView, times: WorkerMetrics) -> Option<JsonView> {
    match metrics_of(result) {
        Some(metrics) => attached(result, "metrics"@, with_worker_metrics(metrics, times)),
        None => None,
    }
}

/// Takes the object of metrics out of a result, to add to it.
fn take_metrics(result: &mut Json) -> (metrics: Option<Json>)
    ensures
        final(result)@ == old(result)@.without_field("metrics"@),
        match metrics {
            Some(metrics) => metrics_of(old(result)@) == Some(metrics@),
            None => metrics_of(old(result)@) is None,
        },
{
    match result.remove("metrics") {
        None => Some(Json::object()),
        Some(Json::Null) => Some(Json::object()),
        Some(Json::Object(members)) => Some(Json::Object(members)),
        Some(_) => None,
    }
}

/// Adds a worker's times to its result, under `metrics`. A result that can
/// take no times is a marshalling error.
pub fn annotate(result: Json, times: &WorkerMetrics) -> (outcome: Result<Json, RunError>)
    ensures
        match outcome {
            Ok(json) => annotated(result@, *times) == Some(json@),
            Err(error) => annotated(result@, *times) is None && error.kind
                == ErrorKind::MarshalError,
        },
{
    let mut result = result;
    let ghost before = result@;
    let mut metrics = match take_metrics(&mut result) {
        None => {
            return Err(RunError::new(ErrorKind::MarshalError, "the metrics are not an object"));
        },
        Some(metrics) => metrics,
    };
    metrics.set("func_time".to_owned(), seconds_json(times.func_time));
    metrics.set("pass_model_time".to_owned(), seconds_json(times.pass_model_time));
    metrics.set("thread_start".to_owned(), seconds_json(times.thread_start));
    metrics.set("thread_end".to_owned(), seconds_json(times.thread_end));
    metrics.set("pass_model_start".to_owned(), seconds_json(times.pass_model_start));
    metrics.set("pass_model_end".to_owned(), seconds_json(times.pass_model_end));
    let ghost added = metrics@;
    let outcome = attach(result, "metrics", metrics);
    proof {
        match before {
            JsonView::Object(fields) => {
                assert(fields.remove("metrics"@).insert("metrics"@, added) =~= fields.insert(
                    "metrics"@,
                    added,
                ));
            },
            _ => {},
        }
    }
    outcome
}

/// The models that a request names under `models`, or the message that says
/// why it names none: the field must be an array of strings.
pub open spec fn spec_model_keys(parameters: JsonView) -> Result<Seq<Seq<char>>, Seq<char>> {
    match crate::assets::spec_addresses(parameters, "models"@) {
        Ok(keys) => Ok(keys),
        Err(AddressFault::NotAString) => Err(
            "From embedder: 'model' contains a non-string value"@,
        ),
        Err(_) => Err("From embedder: 'model' not found in JSON or is not an array"@),
    }
}

/// The models that a request names under `models`; a bad request where the
/// field is no array of strings.
pub fn model_keys(parameters: &Json) -> (outcome: Result<Vec<String>, RunError>)
    ensures
        match outcome {
            Ok(keys) => spec_model_keys(parameters@) == Ok::<Seq<Seq<char>>, Seq<char>>(
                texts(keys@),
            ),
            Err(error) => error.kind == ErrorKind::BadRequest && spec_model_keys(parameters@)
                == Err::<Seq<Seq<char>>, Seq<char>>(error.message@),
        },
{
    match addresses(parameters, "models") {
        Ok(keys) => Ok(keys),
        Err(AddressFault::NotAString) => Err(
            RunError::new(
                ErrorKind::BadRequest,
                "From embedder: 'model' contains a non-string value",
            ),
        ),
        Err(_) => Err(
            RunError::new(
                ErrorKind::BadRequest,
                "From embedder: 'model' not found in JSON or is not an array",
            ),
        ),
    }
}

/// What holds of the result of a worker: it is what the guest answered,
/// with the worker's times added under `metrics`.
pub open spec fn worked(result: JsonView) -> bool {
    exists|raw: JsonView, times: WorkerMetrics|
        from_guest_bytes(raw) && #[trigger] annotated(raw, times) == Some(result)
}

/// The failure of a worker whose system clock stands before the Unix epoch.
pub fn clock_error() -> (error: RunError)
    ensures
        error.kind == ErrorKind::ModelWorkerError,
        error.message@ == "the system clock stands before the Unix epoch"@,
{
    RunError::new(ErrorKind::ModelWorkerError, "the system clock stands before the Unix epoch")
}

/// The work of one worker: a store of its own from the shared template; the
/// request goes to the slot that `set_input` answers with; the worker's
/// model is asked of `obtain`, which has the shared cache behind it, and
/// goes to the slot that `set_model` answers with; the entry point is
/// called; the result is read from the guest's memory and gets the worker's
/// times added.
///
/// The result comes with the key of the worker's model. A template whose
/// module lacks an export that the convention needs is answered with a
/// missing export that names such a symbol, before anything is obtained or
/// any guest is made. Else the guest, `obtain` and the clocks decide the
/// outcome. A failure of `obtain` is handed on as it is; a system clock that
/// stands before the Unix epoch is a failure of the worker.
pub fn run_model<F>(
    template: &wasmtime::InstancePre<WasmCtx>,
    parameters: &Json,
    model_key: &String,
    obtain: F,
) -> (outcome: Result<(String, Json), RunError>) where F: FnOnce(&String) -> Result<Vec<u8>, RunError>
    requires
        obtain.requires((model_key,)),
    ensures
        !complete(declared_exports(*template), Abi::MemoryNn) ==> (outcome matches Err(error)
            && names_missing(declared_exports(*template), Abi::MemoryNn, error)),
        match outcome {
            Ok(keyed) => keyed.0@ == model_key@ && worked(keyed.1@) && exists|model: Vec<u8>|
                #![trigger obtain.ensures((model_key,), Ok(model))]
                obtain.ensures((model_key,), Ok(model)),
            Err(error) => guest_failure(error.kind) || error.kind == ErrorKind::ModelWorkerError
                || obtain.ensures((model_key,), Err(error)),
        },
{
    match require_exports(template, Abi::MemoryNn) {
        Err(error) => {
            return Err(error);
        },
        Ok(()) => {},
    }
    let thread_start = match since_epoch() {
        None => {
            return Err(clock_error());
        },
        Some(reading) => reading,
    };
    let timer = now();
    let mut guest = match enter(template) {
        Err(error) => {
            return Err(error);
        },
        Ok(guest) => guest,
    };
    match pass_input(&mut guest, parameters) {
        Err(error) => {
            return Err(error);
        },
        Ok(()) => {},
    }
    let model_timer = now();
    let pass_model_start = match since_epoch() {
        None => {
            return Err(clock_error());
        },
        Some(reading) => reading,
    };
    let model = match obtain(model_key) {
        Err(error) => {
            return Err(error);
        },
        Ok(model) => model,
    };
    match pass_model(&mut guest, model.as_slice()) {
        Err(error) => {
            return Err(error);
        },
        Ok(()) => {},
    }
    let pass_model_end = match since_epoch() {
        None => {
            return Err(clock_error());
        },
        Some(reading) => reading,
    };
    let pass_model_time = elapsed(&model_timer);
    match start(&mut guest) {
        Err(error) => {
            return Err(error);
        },
        Ok(()) => {},
    }
    let raw = match retrieve_result(&mut guest) {
        Err(error) => {
            return Err(error);
        },
        Ok(raw) => raw,
    };
    let thread_end = match since_epoch() {
        None => {
            return Err(clock_error());
        },
        Some(reading) => reading,
    };
    let func_time = elapsed(&timer);
    let times = WorkerMetrics {
        func_time,
        pass_model_time,
        thread_start,
        thread_end,
        pass_model_start,
        pass_model_end,
    };
    match annotate(raw, &times) {
        Err(error) => Err(error),
        Ok(result) => {
            assert(annotated(raw@, times) == Some(result@));
            Ok((model_key.clone(), result))
        },
    }
}

/// What a fan-out starts from: the template that every worker makes its
/// guest from, the request that every worker passes in, and the models, one
/// for each worker and in the order of the request.
pub struct FanOut {
    pub template: wasmtime::InstancePre<WasmCtx>,
    pub parameters: Json,
    pub keys: Vec<String>,
}

/// What holds when a fan-out was prepared from a registered template and a
/// request. A component cannot be fanned out: that is a linker error. A
/// request whose images are to be replaced and whose list of addresses is
/// none, or holds an S3 address without bucket and key, is a bad request.
/// Else the images are handled first, and a failure there is handed on; then
/// a request that names no list of models under `models` is a bad request.
/// Where the fan-out stands, it has the registered template, the request
/// with its images handled, and the models that the request names.
pub open spec fn fan_out_prepared<F: Fn(FetchRequest) -> Result<Vec<Vec<u8>>, RunError>>(
    template: Template,
    before: JsonView,
    outcome: Result<FanOut, RunError>,
    fetch: F,
) -> bool {
    match template {
        Template::Component(_) => outcome matches Err(error) && error.kind
            == ErrorKind::LinkerError,
        Template::Module(module) => match image_fault(before) {
            Some(message) => outcome matches Err(error) && error.kind == ErrorKind::BadRequest
                && error.message@ == message,
            None => match outcome {
                Ok(fan) => fan.template == module && images_handled(
                    before,
                    fan.parameters@,
                    Ok(()),
                    fetch,
                ) && spec_model_keys(before) == Ok::<Seq<Seq<char>>, Seq<char>>(texts(fan.keys@)),
                Err(error) => images_handled(before, before, Err(error), fetch) || (error.kind
                    == ErrorKind::BadRequest && spec_model_keys(before) == Err::<
                    Seq<Seq<char>>,
                    Seq<char>,
                >(error.message@)),
            },
        },
    }
}

/// To replace the images of a request leaves its list of models as it was.
proof fn lemma_models_stay<F: Fn(FetchRequest) -> Result<Vec<Vec<u8>>, RunError>>(
    before: JsonView,
    after: JsonView,
    outcome: Result<(), RunError>,
    fetch: F,
)
    requires
        images_handled(before, after, outcome, fetch),
    ensures
        spec_model_keys(after) == spec_model_keys(before),
{
    reveal_strlit("image");
    reveal_strlit("models");
    assert("image"@.len() != "models"@.len());
    assert(after.field("models"@) == before.field("models"@));
}

/// Prepares the fan-out of one request over its models: looks up the
/// template that is registered under `container_id`, replaces the images of
/// the request as its field `replace_images` says, and lists the models that
/// it names under `models`. An id under which nothing is registered is
/// answered with `ContainerNotFound`, and nothing else happens.
pub fn prepare_fan_out<F>(
    runtime: &Wasmtime,
    container_id: &str,
    parameters: Json,
    fetch: &F,
) -> (outcome: Result<FanOut, RunError>) where F: Fn(FetchRequest) -> Result<Vec<Vec<u8>>, RunError>
    requires
        spec_replacement(parameters@) != Replacement::Keep ==> forall|request: FetchRequest|
            fetch.requires((request,)),
    ensures
        !runtime@.registered.contains_key(container_id@) ==> (outcome matches Err(error)
            && error.kind == ErrorKind::ContainerNotFound && error.message@
            == Wasmtime::spec_not_found(container_id@)),
        runtime@.registered.contains_key(container_id@) ==> fan_out_prepared(
            runtime@.registered[container_id@].module,
            parameters@,
            outcome,
            *fetch,
        ),
{
    let mut parameters = parameters;
    let ghost before = parameters@;
    let template = match runtime.template(container_id) {
        Err(error) => {
            return Err(error);
        },
        Ok(Template::Component(_)) => {
            return Err(
                RunError::new(ErrorKind::LinkerError, "the registered template is a component"),
            );
        },
        Ok(Template::Module(template)) => template,
    };
    let handled = handle_replace_images(&mut parameters, fetch);
    proof {
        lemma_models_stay(before, parameters@, handled, *fetch);
    }
    match handled {
        Err(error) => {
            return Err(error);
        },
        Ok(()) => {},
    }
    match model_keys(&parameters) {
        Err(error) => Err(error),
        Ok(keys) => Ok(FanOut { template, parameters, keys }),
    }
}


/// The failure of an invocation one of whose workers failed: it carries the
/// text of the worker's failure.
pub open spec fn spec_worker_failure(failure: RunError) -> Seq<char> {
    failure.spec_text()
}

/// The failure of an invocation one of whose workers failed.
pub fn worker_failure(failure: &RunError) -> (error: RunError)
    ensures
        error.kind == ErrorKind::ModelWorkerError,
        error.message@ == spec_worker_failure(*failure),
{
    RunError { kind: ErrorKind::ModelWorkerError, message: failure.text() }
}

/// The position of the first failure among the outcomes of the workers, or
/// their number where none failed.
pub open spec fn first_failure(outcomes: Seq<Result<(String, Json), RunError>>) -> int
    decreases outcomes.len(),
{
    if outcomes.len() == 0 {
        0
    } else if outcomes[0] is Err {
        0
    } else {
        1 + first_failure(outcomes.drop_first())
    }
}

/// The results of workers that all succeeded.
pub open spec fn successes(outcomes: Seq<Result<(String, Json), RunError>>) -> Seq<
    (String, Json),
> {
    Seq::new(outcomes.len(), |i: int| outcomes[i]->Ok_0)
}

proof fn lemma_first_failure(outcomes: Seq<Result<(String, Json), RunError>>)
    ensures
        0 <= first_failure(outcomes) <= outcomes.len(),
        forall|i: int| 0 <= i < first_failure(outcomes) ==> (#[trigger] outcomes[i]) is Ok,
        first_failure(outcomes) < outcomes.len() ==> outcomes[first_failure(outcomes)] is Err,
    decreases outcomes.len(),
{
    if outcomes.len() > 0 && outcomes[0] is Ok {
        lemma_first_failure(outcomes.drop_first());
        assert forall|i: int| 0 <= i < first_failure(outcomes) implies (
        #[trigger] outcomes[i]) is Ok by {
            if i > 0 {
                assert(outcomes.drop_first()[i - 1] == outcomes[i]);
            }
        }
    }
}

/// A scan that met no failure up to `upto` has the first failure there or
/// behind.
proof fn lemma_first_failure_from(outcomes: Seq<Result<(String, Json), RunError>>, upto: int)
    requires
        0 <= upto <= outcomes.len(),
        forall|i: int| 0 <= i < upto ==> (#[trigger] outcomes[i]) is Ok,
    ensures
        first_failure(outcomes) >= upto,
        upto < outcomes.len() && outcomes[upto] is Err ==> first_failure(outcomes) == upto,
        upto == outcomes.len() ==> first_failure(outcomes) == upto,
    decreases upto,
{
    lemma_first_failure(outcomes);
    let first = first_failure(outcomes);
    if first < upto {
        assert(outcomes[first] is Ok);
    }
}

/// Joins the workers: where all succeeded, their results in the order in
/// which they are given; else the failure of the invocation, which carries
/// the first failure among them.
pub fn join(outcomes: Vec<Result<(String, Json), RunError>>) -> (joined: Result<
    Vec<(String, Json)>,
    RunError,
>)
    ensures
        match joined {
            Ok(results) => first_failure(outcomes@) == outcomes@.len() && results@ == successes(
                outcomes@,
            ),
            Err(error) => first_failure(outcomes@) < outcomes@.len() && error.kind
                == ErrorKind::ModelWorkerError && error.message@ == spec_worker_failure(
                outcomes@[first_failure(outcomes@)]->Err_0,
            ),
        },
{
    let mut outcomes = outcomes;
    let ghost all = outcomes@;
    let mut results: Vec<(String, Json)> = Vec::new();
    let mut failure: Option<RunError> = None;
    while outcomes.len() > 0 && failure.is_none()
        invariant
            results@.len() + outcomes@.len() + (if failure is Some {
                1int
            } else {
                0int
            }) == all.len(),
            forall|i: int| 0 <= i < results@.len() ==> #[trigger] all[i] == Ok::<
                (String, Json),
                RunError,
            >(results@[i]),
            forall|i: int|
                0 <= i < outcomes@.len() ==> #[trigger] outcomes@[i] == all[all.len()
                    - outcomes@.len() + i],
            failure matches Some(error) ==> all[results@.len() as int] == Err::<
                (String, Json),
                RunError,
            >(error),
        decreases outcomes@.len() + (if failure is None {
            1int
        } else {
            0int
        }),
    {
        match outcomes.remove(0) {
            Ok(result) => {
                results.push(result);
            },
            Err(error) => {
                failure = Some(error);
            },
        }
    }
    proof {
        lemma_first_failure_from(all, results@.len() as int);
    }
    match failure {
        Some(error) => Err(worker_failure(&error)),
        None => {
            assert(results@ =~= successes(all));
            Ok(results)
        },
    }
}

/// The answer of a multi-model invocation: an object with every worker's
/// result under the key of its model, and the time that the whole fan-out
/// took under `metrics` as `functions_duration`.
pub open spec fn collected(results: Seq<(String, Json)>, duration: Span) -> Option<JsonView> {
    let answers = JsonView::Object(fields_of(results));
    match metrics_of(answers) {
        Some(metrics) => attached(
            answers,
            "metrics"@,
            metrics.with_field("functions_duration"@, span_number(duration)),
        ),
        None => None,
    }
}

/// Joins the results of the workers into the answer of the invocation. A
/// model whose key is `metrics` and whose result is neither an object nor
/// `null` leaves no room for the invocation's own metrics: that is a
/// marshalling error.
pub fn collect(results: Vec<(String, Json)>, duration: Span) -> (outcome: Result<Json, RunError>)
    ensures
        match outcome {
            Ok(answer) => collected(results@, duration) == Some(answer@),
            Err(error) => collected(results@, duration) is None && error.kind
                == ErrorKind::MarshalError,
        },
{
    broadcast use lemma_object_view;

    let mut answers = Json::Object(results);
    let ghost before = answers@;
    let mut metrics = match take_metrics(&mut answers) {
        None => {
            return Err(RunError::new(ErrorKind::MarshalError, "the metrics are not an object"));
        },
        Some(metrics) => metrics,
    };
    metrics.set("functions_duration".to_owned(), seconds_json(duration));
    let ghost added = metrics@;
    let outcome = attach(answers, "metrics", metrics);
    proof {
        let fields = fields_of(results@);
        assert(fields.remove("metrics"@).insert("metrics"@, added) =~= fields.insert(
            "metrics"@,
            added,
        ));
    }
    outcome
}

/// The keys of the models that the workers' results belong to.
pub open spec fn result_keys(results: Seq<(String, Json)>) -> Set<Seq<char>> {
    Set::new(|key: Seq<char>| exists|i: int| 0 <= i < results.len() && (#[trigger] results[i]).0@ == key)
}

/// Whether no two results belong to the same model.
pub open spec fn distinct_keys(results: Seq<(String, Json)>) -> bool {
    forall|i: int, j: int|
        0 <= i < j < results.len() ==> (#[trigger] results[i]).0@ != (#[trigger] results[j]).0@
}

/// Whether every result of `first` is among those of `second`.
pub open spec fn among(first: Seq<(String, Json)>, second: Seq<(String, Json)>) -> bool {
    forall|i: int|
        0 <= i < first.len() ==> exists|j: int|
            0 <= j < second.len() && #[trigger] second[j] == #[trigger] first[i]
}

/// The keys that a list of members binds are the keys of its members.
proof fn lemma_fields_keys(results: Seq<(String, Json)>)
    ensures
        fields_of(results).dom() == result_keys(results),
{
    assert forall|key: Seq<char>| fields_of(results).dom().contains(key) == result_keys(
        results,
    ).contains(key) by {
        lemma_last_position(results, key);
        if result_keys(results).contains(key) && last_position(results, key) < 0 {
            let i = choose|i: int| 0 <= i < results.len() && (#[trigger] results[i]).0@ == key;
            assert(results[i].0@ != key);
        }
        if last_position(results, key) >= 0 {
            assert(results[last_position(results, key)].0@ == key);
        }
    }
    assert(fields_of(results).dom() =~= result_keys(results));
}

/// The answer of a multi-model invocation is complete: it has a key for
/// every model whose worker handed in a result, and no key besides those
/// and `metrics`.
pub proof fn lemma_collect_complete(results: Seq<(String, Json)>, duration: Span, answer: JsonView)
    requires
        collected(results, duration) == Some(answer),
    ensures
        forall|i: int| 0 <= i < results.len() ==> answer.field((#[trigger] results[i]).0@) is Some,
        answer.keys() == result_keys(results).insert("metrics"@),
        answer.field("metrics"@) matches Some(metrics) && metrics.field("functions_duration"@)
            == Some(span_number(duration)),
{
    lemma_fields_keys(results);
    let fields = fields_of(results);
    assert(answer.keys() =~= result_keys(results).insert("metrics"@));
    assert forall|i: int| 0 <= i < results.len() implies answer.field(
        (#[trigger] results[i]).0@,
    ) is Some by {
        assert(result_keys(results).contains(results[i].0@));
    }
}

/// Results of which no two belong to the same model have as many keys as
/// there are results.
proof fn lemma_distinct_keys_count(results: Seq<(String, Json)>)
    requires
        distinct_keys(results),
    ensures
        result_keys(results).finite(),
        result_keys(results).len() == results.len(),
    decreases results.len(),
{
    if results.len() == 0 {
        assert(result_keys(results) =~= Set::empty());
    } else {
        let front = results.drop_last();
        let last = results.last();
        assert forall|i: int, j: int| 0 <= i < j < front.len() implies (#[trigger] front[i]).0@ != (
        #[trigger] front[j]).0@ by {
            assert(front[i] == results[i]);
            assert(front[j] == results[j]);
        }
        lemma_distinct_keys_count(front);
        assert forall|key: Seq<char>| result_keys(results).contains(key) == result_keys(
            front,
        ).insert(last.0@).contains(key) by {
            if result_keys(results).contains(key) {
                let i = choose|i: int| 0 <= i < results.len() && (#[trigger] results[i]).0@ == key;
                if i < front.len() {
                    assert(front[i] == results[i]);
                }
            }
            if result_keys(front).contains(key) {
                let i = choose|i: int| 0 <= i < front.len() && (#[trigger] front[i]).0@ == key;
                assert(front[i] == results[i]);
            }
            if key == last.0@ {
                assert(results[results.len() - 1].0@ == key);
            }
        }
        assert(result_keys(results) =~= result_keys(front).insert(last.0@));
        if result_keys(front).contains(last.0@) {
            let i = choose|i: int| 0 <= i < front.len() && (#[trigger] front[i]).0@ == last.0@;
            assert(front[i] == results[i]);
            assert(results[i].0@ != results[results.len() - 1].0@);
        }
    }
}

/// The answer of a multi-model invocation has exactly one key for each
/// model, and the key `metrics` besides: where no two results belong to the
/// same model and no model is called `metrics`, the number of its keys is
/// the number of the models and one.
pub proof fn lemma_collect_exact(results: Seq<(String, Json)>, duration: Span, answer: JsonView)
    requires
        collected(results, duration) == Some(answer),
        distinct_keys(results),
        forall|i: int| 0 <= i < results.len() ==> (#[trigger] results[i]).0@ != "metrics"@,
    ensures
        answer.keys().finite(),
        answer.keys().len() == results.len() + 1,
{
    lemma_collect_complete(results, duration, answer);
    lemma_distinct_keys_count(results);
    if result_keys(results).contains("metrics"@) {
        let i = choose|i: int| 0 <= i < results.len() && (#[trigger] results[i]).0@ == "metrics"@;
        assert(results[i].0@ != "metrics"@);
    }
}

/// The order in which the workers hand in their results does not matter:
/// two lists of the same results, each with one result for a model, give the
/// same answer.
pub proof fn lemma_collect_any_order(
    first: Seq<(String, Json)>,
    second: Seq<(String, Json)>,
    duration: Span,
)
    requires
        distinct_keys(first),
        distinct_keys(second),
        among(first, second),
        among(second, first),
    ensures
        collected(first, duration) == collected(second, duration),
{
    assert forall|key: Seq<char>| #[trigger]
        fields_of(first).contains_key(key) implies fields_of(second).contains_key(key)
        && fields_of(second)[key] == fields_of(first)[key] by {
        lemma_member_found(first, second, key);
    }
    assert forall|key: Seq<char>| #[trigger]
        fields_of(second).contains_key(key) implies fields_of(first).contains_key(key) by {
        lemma_member_found(second, first, key);
    }
    assert(fields_of(first) =~= fields_of(second));
}

/// A key that one list binds is bound to the same value by a list that
/// holds all its members and has one member for a key.
proof fn lemma_member_found(first: Seq<(String, Json)>, second: Seq<(String, Json)>, key: Seq<char>)
    requires
        distinct_keys(second),
        among(first, second),
        fields_of(first).contains_key(key),
    ensures
        fields_of(second).contains_key(key),
        fields_of(second)[key] == fields_of(first)[key],
{
    lemma_last_position(first, key);
    lemma_last_position(second, key);
    let i = last_position(first, key);
    let j = choose|j: int| 0 <= j < second.len() && #[trigger] second[j] == first[i];
    let p = last_position(second, key);
    if p < 0 {
        lemma_fields_keys(second);
        assert(result_keys(second).contains(key));
    }
    if p != j {
        if p < j {
            assert(second[p].0@ != second[j].0@);
        } else {
            assert(second[j].0@ != second[p].0@);
        }
    }
}

/// Whether the outcomes of the workers belong to the models, one to each
/// and in their order: every result carries the key of its model.
pub open spec fn answers_for(
    keys: Seq<String>,
    outcomes: Seq<Result<(String, Json), RunError>>,
) -> bool {
    outcomes.len() == keys.len() && forall|i: int|
        0 <= i < outcomes.len() ==> ((#[trigger] outcomes[i]) matches Ok(keyed) ==> keyed.0@
            == keys[i]@)
}

/// Whether the results carry the keys of the models, one to each and in
/// their order.
fn keyed_by(keys: &Vec<String>, results: &Vec<(String, Json)>) -> (yes: bool)
    ensures
        yes == (results@.len() == keys@.len() && forall|i: int|
            0 <= i < results@.len() ==> (#[trigger] results@[i]).0@ == keys@[i]@),
{
    if results.len() != keys.len() {
        return false;
    }
    let mut at: usize = 0;
    while at < results.len()
        invariant
            results@.len() == keys@.len(),
            at <= results@.len(),
            forall|i: int| 0 <= i < at ==> (#[trigger] results@[i]).0@ == keys@[i]@,
        decreases results@.len() - at,
    {
        if results[at].0 != keys[at] {
            return false;
        }
        at = at + 1;
    }
    true
}

/// The failure of a fan-out whose results do not belong to its models.
pub fn stray_error() -> (error: RunError)
    ensures
        error.kind == ErrorKind::ModelWorkerError,
        error.message@ == "the workers' results do not belong to the models"@,
{
    RunError::new(ErrorKind::ModelWorkerError, "the workers' results do not belong to the models")
}

/// What holds when a fan-out over the models `keys` was concluded from the
/// outcomes of its workers. Where a worker failed, the invocation fails with
/// the first failure among them. Where the outcomes do not belong to the
/// models, one to each and in their order, the invocation fails too. Else
/// the answer is that of the results.
pub open spec fn concluded(
    keys: Seq<String>,
    outcomes: Seq<Result<(String, Json), RunError>>,
    duration: Span,
    outcome: Result<Json, RunError>,
) -> bool {
    if first_failure(outcomes) < outcomes.len() {
        outcome matches Err(error) && error.kind == ErrorKind::ModelWorkerError && error.message@
            == spec_worker_failure(outcomes[first_failure(outcomes)]->Err_0)
    } else if !answers_for(keys, outcomes) {
        outcome matches Err(error) && error.kind == ErrorKind::ModelWorkerError
    } else {
        match outcome {
            Ok(answer) => collected(successes(outcomes), duration) == Some(answer@),
            Err(error) => collected(successes(outcomes), duration) is None && error.kind
                == ErrorKind::MarshalError,
        }
    }
}

/// Concludes a fan-out over the models `keys`: joins the outcomes of the
/// workers and collects their results into the answer of the invocation.
///
/// Where a worker failed, the invocation fails with the first failure among
/// them. Where the outcomes do not belong to the models, one to each and in
/// their order, the invocation fails too. Else the answer is that of the
/// results, and it is complete: it has a key for every model of the request,
/// and no key besides those and `metrics`.
pub fn conclude(
    keys: &Vec<String>,
    outcomes: Vec<Result<(String, Json), RunError>>,
    duration: Span,
) -> (outcome: Result<Json, RunError>)
    ensures
        concluded(keys@, outcomes@, duration, outcome),
        outcome matches Ok(answer) ==> answer@.keys() == texts(keys@).to_set().insert(
            "metrics"@,
        ) && forall|i: int| 0 <= i < keys@.len() ==> answer@.field(#[trigger] keys@[i]@) is Some,
{
    proof {
        lemma_first_failure(outcomes@);
    }
    let results = match join(outcomes) {
        Err(error) => {
            return Err(error);
        },
        Ok(results) => results,
    };
    if !keyed_by(keys, &results) {
        proof {
            if answers_for(keys@, outcomes@) {
                assert forall|i: int| 0 <= i < results@.len() implies (#[trigger] results@[i]).0@
                    == keys@[i]@ by {
                    assert(outcomes@[i] is Ok);
                }
            }
        }
        return Err(stray_error());
    }
    proof {
        assert forall|i: int| 0 <= i < outcomes@.len() implies ((#[trigger] outcomes@[i]) matches Ok(
            keyed,
        ) ==> keyed.0@ == keys@[i]@) by {
            assert(results@[i].0@ == keys@[i]@);
        }
    }
    let outcome = collect(results, duration);
    proof {
        if outcome is Ok {
            let answer = outcome->Ok_0@;
            lemma_collect_complete(results@, duration, answer);
            assert forall|key: Seq<char>| result_keys(results@).contains(key) == texts(
                keys@,
            ).to_set().contains(key) by {
                if result_keys(results@).contains(key) {
                    let i = choose|i: int|
                        0 <= i < results@.len() && (#[trigger] results@[i]).0@ == key;
                    assert(texts(keys@)[i] == key);
                }
                if texts(keys@).to_set().contains(key) {
                    let i = choose|i: int| 0 <= i < texts(keys@).len() && texts(keys@)[i] == key;
                    assert(results@[i].0@ == key);
                }
            }
            assert(result_keys(results@) =~= texts(keys@).to_set());
            assert forall|i: int| 0 <= i < keys@.len() implies answer.field(
                #[trigger] keys@[i]@,
            ) is Some by {
                assert(results@[i].0@ == keys@[i]@);
            }
        }
    }
    outcome
}

/// What holds of a multi-model invocation on a registered template: either
/// the fan-out could not be prepared, and its failure is the failure of the
/// invocation; or it was prepared, `work` did the work of its workers, and
/// the invocation was concluded from their outcomes.
pub open spec fn fanned_out<F: Fn(FetchRequest) -> Result<Vec<Vec<u8>>, RunError>, W: FnOnce(
    &FanOut,
) -> Vec<Result<(String, Json), RunError>>>(
    template: Template,
    parameters: JsonView,
    outcome: Result<Json, RunError>,
    fetch: F,
    work: W,
) -> bool {
    ||| outcome matches Err(error) && fan_out_prepared(template, parameters, Err(error), fetch)
    ||| exists|fan: FanOut, outcomes: Vec<Result<(String, Json), RunError>>, duration: Span|
        #![trigger work.ensures((&fan,), outcomes), concluded(fan.keys@, outcomes@, duration, outcome)]
        fan_out_prepared(template, parameters, Ok(fan), fetch) && work.ensures((&fan,), outcomes)
            && concluded(fan.keys@, outcomes@, duration, outcome)
}

/// Invokes the action registered under `container_id` once for each model
/// that the request names under `models`: the fan-out is prepared, `work`
/// runs its workers and hands back their outcomes, one for each model and in
/// their order, and the answer is concluded from them, with the time that
/// `work` took.
///
/// An id under which nothing is registered is answered with
/// `ContainerNotFound`, and nothing else happens. The answer is complete:
/// it has a key for every model of the request, and no key besides those and
/// `metrics`, however `work` runs the workers.
pub fn run_models<F, W>(
    runtime: &Wasmtime,
    container_id: &str,
    parameters: Json,
    fetch: &F,
    work: W,
) -> (outcome: Result<Json, RunError>) where
    F: Fn(FetchRequest) -> Result<Vec<Vec<u8>>, RunError>,
    W: FnOnce(&FanOut) -> Vec<Result<(String, Json), RunError>>,

    requires
        spec_replacement(parameters@) != Replacement::Keep ==> forall|request: FetchRequest|
            fetch.requires((request,)),
        forall|fan: &FanOut| work.requires((fan,)),
    ensures
        !runtime@.registered.contains_key(container_id@) ==> (outcome matches Err(error)
            && error.kind == ErrorKind::ContainerNotFound && error.message@
            == Wasmtime::spec_not_found(container_id@)),
        runtime@.registered.contains_key(container_id@) ==> fanned_out(
            runtime@.registered[container_id@].module,
            parameters@,
            outcome,
            *fetch,
            work,
        ),
        outcome matches Ok(answer) ==> (spec_model_keys(parameters@) matches Ok(models)
            && answer@.keys() == models.to_set().insert("metrics"@) && forall|i: int|
            0 <= i < models.len() ==> answer@.field(#[trigger] models[i]) is Some),
{
    let fan = match prepare_fan_out(runtime, container_id, parameters, fetch) {
        Err(error) => {
            return Err(error);
        },
        Ok(fan) => fan,
    };
    let timer = now();
    let outcomes = work(&fan);
    let ghost worked = outcomes;
    let duration = elapsed(&timer);
    let outcome = conclude(&fan.keys, outcomes, duration);
    proof {
        assert(work.ensures((&fan,), worked) && concluded(fan.keys@, worked@, duration, outcome));
        if outcome is Ok {
            let models = texts(fan.keys@);
            assert forall|i: int| 0 <= i < models.len() implies outcome->Ok_0@.field(
                #[trigger] models[i],
            ) is Some by {
                assert(models[i] == fan.keys@[i]@);
            }
        }
    }
    outcome
}

} // verus!
