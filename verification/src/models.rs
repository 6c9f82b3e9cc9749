//! The model cache in use: the bytes of a model come from the cache where
//! it has them, and from the fetcher, once, where it has not.

use vstd::prelude::*;
use crate::assets::{fetch_one, fetched_one, FetchRequest};
use crate::cache::{
    get_model, insert_model, model_lifetimes, new_model_cache, refresh_model, stored_models,
    ModelCache,
};
use crate::error::RunError;

verus! {

/// The cache of model bytes with the lifetime that it grants its entries.
pub struct ModelStore {
    pub cache: ModelCache,
    pub ttl_secs: u32,
}

impl View for ModelStore {
    type V = Map<Seq<char>, Seq<u8>>;

    open spec fn view(&self) -> Map<Seq<char>, Seq<u8>> {
        stored_models(self.cache)
    }
}

/// What holds when the bytes of a model were obtained for `address`: they
/// are what the cache stored under the address, or what `fetch` brought for
/// it, which the cache now stores; a failure is that of the fetch, and then
/// the cache has no entry for the address.
pub open spec fn model_obtained<F: Fn(FetchRequest) -> Result<Vec<Vec<u8>>, RunError>>(
    before: Map<Seq<char>, Seq<u8>>,
    after: Map<Seq<char>, Seq<u8>>,
    address: String,
    outcome: Result<Vec<u8>, RunError>,
    fetch: F,
) -> bool {
    match outcome {
        Ok(bytes) => {
            ||| {
                &&& before.contains_key(address@)
                &&& before[address@] == bytes@
                &&& after == before
            }
            ||| {
                &&& fetched_one(fetch, FetchRequest::Model(address), Ok(bytes))
                &&& after == before.insert(address@, bytes@)
            }
        },
        Err(error) => {
            &&& fetched_one(fetch, FetchRequest::Model(address), Err(error))
            &&& after == before.remove(address@)
        },
    }
}

/// Whether the cache has an entry of `address` that was last given `secs`
/// seconds to live.
pub open spec fn lives_for(lifetimes: Map<Seq<char>, u64>, address: Seq<char>, secs: u32) -> bool {
    lifetimes.contains_key(address) && lifetimes[address] == secs
}

/// The bytes that the cache has for the model at `address`, if it has a
/// live entry for it; that entry then gets its full lifetime of `ttl_secs`
/// seconds again, and is stored anew should it have expired in between.
/// Where the cache has none, or only an expired one, the address is left
/// without an entry.
pub fn cached_model(cache: &mut ModelCache, address: &String, ttl_secs: u32) -> (found: Option<
    Vec<u8>,
>)
    ensures
        match found {
            Some(bytes) => stored_models(*old(cache)).contains_key(address@) && stored_models(
                *old(cache),
            )[address@] == bytes@ && stored_models(*final(cache)) == stored_models(*old(cache))
                && lives_for(model_lifetimes(*final(cache)), address@, ttl_secs),
            None => stored_models(*final(cache)) == stored_models(*old(cache)).remove(address@)
                && !model_lifetimes(*final(cache)).contains_key(address@),
        },
{
    let ttl: u64 = ttl_secs as u64;
    match get_model(cache, address) {
        Some(bytes) => {
            if !refresh_model(cache, address, ttl) {
                insert_model(cache, address.clone(), bytes.clone(), ttl);
            }
            proof {
                let before = stored_models(*old(cache));
                assert(before.remove(address@).insert(address@, bytes@) =~= before);
            }
            Some(bytes)
        },
        None => None,
    }
}

/// Stores the bytes of the model that was fetched from `address`, in place
/// of what the cache had for the address, for `ttl_secs` seconds.
pub fn keep_model(cache: &mut ModelCache, address: String, bytes: &Vec<u8>, ttl_secs: u32)
    ensures
        stored_models(*final(cache)) == stored_models(*old(cache)).insert(address@, bytes@),
        model_lifetimes(*final(cache)) == model_lifetimes(*old(cache)).insert(
            address@,
            ttl_secs as u64,
        ),
{
    let ttl: u64 = ttl_secs as u64;
    insert_model(cache, address, bytes.clone(), ttl);
}

/// The bytes of the model at `address`: from the cache where it has a live
/// entry for the address, which then gets its full lifetime again; else from
/// `fetch`, and then the cache stores them for `ttl_secs` seconds.
pub fn obtain_model<F>(cache: &mut ModelCache, address: String, ttl_secs: u32, fetch: &F) -> (outcome:
    Result<Vec<u8>, RunError>) where F: Fn(FetchRequest) -> Result<Vec<Vec<u8>>, RunError>
    requires
        forall|request: FetchRequest| fetch.requires((request,)),
    ensures
        model_obtained(
            stored_models(*old(cache)),
            stored_models(*final(cache)),
            address,
            outcome,
            *fetch,
        ),
        outcome is Ok ==> lives_for(model_lifetimes(*final(cache)), address@, ttl_secs),
{
    match cached_model(cache, &address, ttl_secs) {
        Some(bytes) => Ok(bytes),
        None => match fetch_one(fetch, FetchRequest::Model(address.clone())) {
            Err(error) => Err(error),
            Ok(bytes) => {
                keep_model(cache, address, &bytes, ttl_secs);
                proof {
                    let before = stored_models(*old(cache));
                    assert(before.remove(address@).insert(address@, bytes@) =~= before.insert(
                        address@,
                        bytes@,
                    ));
                }
                Ok(bytes)
            },
        },
    }
}

/// The bytes of the model at `address`, with a cache that is reached through
/// `lookup` and `keep`, as one behind a lock is: `lookup` is asked first;
/// where it has the model, that is the answer, and nothing is asked of
/// `fetch`; else `fetch` is asked for the model, `keep` is handed what it
/// brought, and that is the answer. A failure of `fetch` is handed on as it
/// is, and nothing is kept.
pub fn obtain_through<L, F, K>(address: &String, lookup: L, fetch: &F, keep: K) -> (outcome: Result<
    Vec<u8>,
    RunError,
>) where
    L: FnOnce(&String) -> Option<Vec<u8>>,
    F: Fn(FetchRequest) -> Result<Vec<Vec<u8>>, RunError>,
    K: FnOnce(&String, &Vec<u8>) -> (),

    requires
        lookup.requires((address,)),
        forall|request: FetchRequest| fetch.requires((request,)),
        forall|bytes: &Vec<u8>| keep.requires((address, bytes)),
    ensures
        match outcome {
            Ok(bytes) => {
                ||| lookup.ensures((address,), Some(bytes))
                ||| {
                    &&& lookup.ensures((address,), None)
                    &&& fetched_one(*fetch, FetchRequest::Model(*address), Ok(bytes))
                    &&& keep.ensures((address, &bytes), ())
                }
            },
            Err(error) => {
                &&& lookup.ensures((address,), None)
                &&& fetched_one(*fetch, FetchRequest::Model(*address), Err(error))
            },
        },
{
    match lookup(address) {
        Some(bytes) => Ok(bytes),
        None => match fetch_one(fetch, FetchRequest::Model(address.clone())) {
            Err(error) => Err(error),
            Ok(bytes) => {
                keep(address, &bytes);
                Ok(bytes)
            },
        },
    }
}

/// What holds when a request was served with the cache in front of `fetch`:
/// a model is obtained from the cache or through `fetch` and comes alone; every
/// other request goes to `fetch` as it is and leaves the cache as it was.
pub open spec fn served<F: Fn(FetchRequest) -> Result<Vec<Vec<u8>>, RunError>>(
    before: Map<Seq<char>, Seq<u8>>,
    after: Map<Seq<char>, Seq<u8>>,
    request: FetchRequest,
    outcome: Result<Vec<Vec<u8>>, RunError>,
    fetch: F,
) -> bool {
    match request {
        FetchRequest::Model(address) => match outcome {
            Ok(blobs) => blobs@.len() == 1 && model_obtained(
                before,
                after,
                address,
                Ok(blobs@[0]),
                fetch,
            ),
            Err(error) => model_obtained(before, after, address, Err(error), fetch),
        },
        _ => fetch.ensures((request,), outcome) && after == before,
    }
}

impl ModelStore {
    /// A store without models, whose entries live for `ttl_secs` seconds.
    pub fn new(ttl_secs: u32) -> (store: ModelStore)
        ensures
            store@ == (Map::<Seq<char>, Seq<u8>>::empty()),
            store.ttl_secs == ttl_secs,
    {
        ModelStore { cache: new_model_cache(), ttl_secs }
    }

    /// Serves a request with the cache in front of `fetch`: a model comes
    /// from the cache where it has it; everything else is fetched.
    pub fn fetch<F>(&mut self, request: FetchRequest, fetch: &F) -> (outcome: Result<
        Vec<Vec<u8>>,
        RunError,
    >) where F: Fn(FetchRequest) -> Result<Vec<Vec<u8>>, RunError>
        requires
            forall|request: FetchRequest| fetch.requires((request,)),
        ensures
            served(old(self)@, final(self)@, request, outcome, *fetch),
            final(self).ttl_secs == old(self).ttl_secs,
            request matches FetchRequest::Model(address) ==> (outcome is Ok ==> lives_for(
                model_lifetimes(final(self).cache),
                address@,
                old(self).ttl_secs,
            )),
    {
        match request {
            FetchRequest::Model(address) => {
                match obtain_model(&mut self.cache, address, self.ttl_secs, fetch) {
                    Err(error) => Err(error),
                    Ok(bytes) => {
                        let mut blobs: Vec<Vec<u8>> = Vec::new();
                        blobs.push(bytes);
                        Ok(blobs)
                    },
                }
            },
            other => fetch(other),
        }
    }
}

} // verus!
