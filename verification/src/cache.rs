//! The two caches with a time to live: prepared templates by the hash of the
//! bytes they were made from, and model bytes by the address they were
//! fetched from. Both are `timedmap::TimedMap`s behind trusted functions.

use vstd::prelude::*;
use crate::action::Template;

verus! {

/// `std::time::Instant`, the clock by which the caches let their entries
/// expire; the library never looks at a reading.
#[verifier::external_type_specification]
#[verifier::external_body]
pub struct ExInstant(std::time::Instant);

/// `timedmap::TimedMap`, a map whose entries expire. What it stores is told
/// by the functions below; when an entry expires is up to its clock.
#[verifier::external_type_specification]
#[verifier::external_body]
#[verifier::reject_recursive_types(K)]
#[verifier::reject_recursive_types(V)]
#[verifier::reject_recursive_types(TS)]
pub struct ExTimedMap<K, V, TS>(timedmap::TimedMap<K, V, TS>);

/// The cache of prepared templates, by the hash of the compiled bytes.
pub type TemplateCache = timedmap::TimedMap<u64, Template, std::time::Instant>;

/// The cache of model bytes, by the address they were fetched from.
pub type ModelCache = timedmap::TimedMap<String, Vec<u8>, std::time::Instant>;

/// The longest lifetime that an entry may be given, in seconds. It keeps the
/// instant of expiry, the current instant plus the lifetime, inside what an
/// `Instant` can hold.
pub const MAX_LIFETIME_SECS: u64 = 0xffff_ffff;

/// The hash that `fasthash::metro::hash64` gives to a sequence of bytes. The
/// crate chooses between two variants of the hash when it is built, so this
/// is the hash of one build; the library uses it as a key inside one process
/// only.
pub uninterp spec fn metro_hash64(bytes: Seq<u8>) -> u64;

/// The entries that a template cache stores, expired or not, each key with
/// its template.
pub uninterp spec fn stored_templates(cache: TemplateCache) -> Map<u64, Template>;

/// The entries that a model cache stores, expired or not, each address with
/// the bytes kept for it.
pub uninterp spec fn stored_models(cache: ModelCache) -> Map<Seq<char>, Seq<u8>>;

/// The lifetime, in seconds, that each entry of a template cache was last
/// given: its instant of expiry is the instant at which it was given plus
/// this.
pub uninterp spec fn template_lifetimes(cache: TemplateCache) -> Map<u64, u64>;

/// The lifetime, in seconds, that each entry of a model cache was last
/// given: its instant of expiry is the instant at which it was given plus
/// this.
pub uninterp spec fn model_lifetimes(cache: ModelCache) -> Map<Seq<char>, u64>;

/// Calls `fasthash::metro::hash64` on the bytes. The hash depends on the bytes
/// alone.
#[verifier::external_body]
pub(crate) fn hash64(bytes: &[u8]) -> (hash: u64)
    ensures
        hash == metro_hash64(bytes@),
{
    fasthash::metro::hash64(bytes)
}

/// Calls `TimedMap::new`: a cache that stores nothing.
#[verifier::external_body]
pub(crate) fn new_template_cache() -> (cache: TemplateCache)
    ensures
        stored_templates(cache) == (Map::<u64, Template>::empty()),
        template_lifetimes(cache) == (Map::<u64, u64>::empty()),
{
    timedmap::TimedMap::new()
}

/// Calls `TimedMap::insert`, which stores the template under the key, in
/// place of what the key had, to expire `lifetime_secs` seconds from now:
/// that is the lifetime that the entry is given.
#[verifier::external_body]
pub(crate) fn insert_template(
    cache: &mut TemplateCache,
    key: u64,
    template: Template,
    lifetime_secs: u64,
)
    requires
        lifetime_secs <= MAX_LIFETIME_SECS,
    ensures
        stored_templates(*final(cache)) == stored_templates(*old(cache)).insert(key, template),
        template_lifetimes(*final(cache)) == template_lifetimes(*old(cache)).insert(
            key,
            lifetime_secs,
        ),
{
    cache.insert(key, template, std::time::Duration::from_secs(lifetime_secs))
}

/// Calls `TimedMap::get`. It returns a copy of the template stored under the
/// key if that entry has not expired, and stores what it stored before. An
/// expired entry is removed, and so `None` leaves the key without an entry.
/// No entry's expiry is changed. Whether an entry has expired depends on the clock: nothing is claimed of it.
#[verifier::external_body]
pub(crate) fn get_template(
    cache: &mut TemplateCache,
    key: u64,
) -> (found: Option<Template>)
    ensures
        match found {
            Some(template) => stored_templates(*old(cache)).contains_key(key) && stored_templates(
                *old(cache),
            )[key] == template && stored_templates(*final(cache)) == stored_templates(*old(cache))
                && template_lifetimes(*final(cache)) == template_lifetimes(*old(cache)),
            None => stored_templates(*final(cache)) == stored_templates(*old(cache)).remove(key)
                && template_lifetimes(*final(cache)) == template_lifetimes(*old(cache)).remove(
                key,
            ),
        },
{
    cache.get(&key)
}

/// Calls `TimedMap::refresh`, which lets the entry under the key expire
/// `lifetime_secs` seconds from now if it has not expired yet, and removes it
/// if it has. It returns whether the entry was alive.
#[verifier::external_body]
pub(crate) fn refresh_template(
    cache: &mut TemplateCache,
    key: u64,
    lifetime_secs: u64,
) -> (alive: bool)
    requires
        lifetime_secs <= MAX_LIFETIME_SECS,
    ensures
        alive ==> stored_templates(*old(cache)).contains_key(key) && stored_templates(*final(cache))
            == stored_templates(*old(cache)) && template_lifetimes(*final(cache))
            == template_lifetimes(*old(cache)).insert(key, lifetime_secs),
        !alive ==> stored_templates(*final(cache)) == stored_templates(*old(cache)).remove(key)
            && template_lifetimes(*final(cache)) == template_lifetimes(*old(cache)).remove(key),
{
    cache.refresh(&key, std::time::Duration::from_secs(lifetime_secs))
}

/// Calls `TimedMap::new`: a cache that stores nothing.
#[verifier::external_body]
pub(crate) fn new_model_cache() -> (cache: ModelCache)
    ensures
        stored_models(cache) == (Map::<Seq<char>, Seq<u8>>::empty()),
        model_lifetimes(cache) == (Map::<Seq<char>, u64>::empty()),
{
    timedmap::TimedMap::new()
}

/// Calls `TimedMap::insert`, which stores the bytes under the address, in
/// place of what the address had, to expire `lifetime_secs` seconds from now:
/// that is the lifetime that the entry is given.
#[verifier::external_body]
pub(crate) fn insert_model(
    cache: &mut ModelCache,
    key: String,
    bytes: Vec<u8>,
    lifetime_secs: u64,
)
    requires
        lifetime_secs <= MAX_LIFETIME_SECS,
    ensures
        stored_models(*final(cache)) == stored_models(*old(cache)).insert(key@, bytes@),
        model_lifetimes(*final(cache)) == model_lifetimes(*old(cache)).insert(
            key@,
            lifetime_secs,
        ),
{
    cache.insert(key, bytes, std::time::Duration::from_secs(lifetime_secs))
}

/// Calls `TimedMap::get`. It returns a copy of the bytes stored under the
/// address if that entry has not expired, and stores what it stored before.
/// An expired entry is removed, and so `None` leaves the address without an
/// entry. No entry's expiry is changed. Whether an entry has expired depends
/// on the clock: nothing is claimed of it.
#[verifier::external_body]
pub(crate) fn get_model(
    cache: &mut ModelCache,
    key: &String,
) -> (found: Option<Vec<u8>>)
    ensures
        match found {
            Some(bytes) => stored_models(*old(cache)).contains_key(key@) && stored_models(
                *old(cache),
            )[key@] == bytes@ && stored_models(*final(cache)) == stored_models(*old(cache))
                && model_lifetimes(*final(cache)) == model_lifetimes(*old(cache)),
            None => stored_models(*final(cache)) == stored_models(*old(cache)).remove(key@)
                && model_lifetimes(*final(cache)) == model_lifetimes(*old(cache)).remove(key@),
        },
{
    cache.get(key)
}

/// Calls `TimedMap::refresh`, which lets the entry under the address expire
/// `lifetime_secs` seconds from now if it has not expired yet, and removes it
/// if it has. It returns whether the entry was alive.
#[verifier::external_body]
pub(crate) fn refresh_model(
    cache: &mut ModelCache,
    key: &String,
    lifetime_secs: u64,
) -> (alive: bool)
    requires
        lifetime_secs <= MAX_LIFETIME_SECS,
    ensures
        alive ==> stored_models(*old(cache)).contains_key(key@) && stored_models(*final(cache))
            == stored_models(*old(cache)) && model_lifetimes(*final(cache)) == model_lifetimes(
            *old(cache),
        ).insert(key@, lifetime_secs),
        !alive ==> stored_models(*final(cache)) == stored_models(*old(cache)).remove(key@)
            && model_lifetimes(*final(cache)) == model_lifetimes(*old(cache)).remove(key@),
{
    cache.refresh(key, std::time::Duration::from_secs(lifetime_secs))
}

} // verus!
