//! The captcha store: short-lived, single-use answers kept in a TTL cache.

use vstd::prelude::*;
use crate::ids::fresh_uuid_text;

verus! {

#[verifier::external_type_specification]
#[verifier::external_body]
#[verifier::reject_recursive_types(K)]
#[verifier::reject_recursive_types(V)]
#[verifier::reject_recursive_types(S)]
pub struct ExCache<K, V, S>(moka::sync::Cache<K, V, S>);

/// A stored answer with its issue time (Unix seconds).
pub type CaptchaEntry = (String, i64);

/// The cache that backs a captcha store.
pub type CaptchaCache = moka::sync::Cache<String, CaptchaEntry>;

/// What a captcha cache holds: captcha id to (expected answer, issue time in Unix seconds).
pub uninterp spec fn captcha_entries(c: CaptchaCache) -> Map<
    Seq<char>,
    (Seq<char>, i64),
>;

/// Relies on moka's `Cache::builder` with `time_to_live` and `max_capacity`:
/// a new cache holds nothing; `build` panics on a time to live over 1000 years.
#[verifier::external_body]
fn new_cache(ttl_secs: u64, capacity: u64) -> (r: CaptchaCache)
    requires
        ttl_secs <= 1000 * 365 * 24 * 3600,
    ensures
        captcha_entries(r).dom() == Set::<Seq<char>>::empty(),
{
    moka::sync::Cache::builder()
        .time_to_live(std::time::Duration::from_secs(ttl_secs))
        .max_capacity(capacity)
        .build()
}

/// Relies on moka's `Cache::insert`: afterwards the cache holds at most what it held
/// with this entry added (it may evict on capacity or expiry).
#[verifier::external_body]
fn cache_insert(c: &mut CaptchaCache, key: String, value: CaptchaEntry)
    ensures
        captcha_entries(*final(c)).submap_of(
            captcha_entries(*old(c)).insert(key@, (value.0@, value.1)),
        ),
{
    c.insert(key, value)
}

/// Relies on moka's `Cache::remove`: one step that takes the entry out of the map and
/// returns the value it held (expired or not), if any; housekeeping run by the call may
/// drop other entries.
#[verifier::external_body]
fn cache_remove(c: &mut CaptchaCache, key: &str) -> (r: Option<CaptchaEntry>)
    ensures
        !captcha_entries(*final(c)).contains_key(key@),
        captcha_entries(*final(c)).submap_of(captcha_entries(*old(c))),
        r is Some <==> captcha_entries(*old(c)).contains_key(key@),
        r matches Some(v) ==> captcha_entries(*old(c))[key@] == (v.0@, v.1),
{
    c.remove(key)
}

/// What `str::trim` returns: the text without leading and trailing white space.
pub uninterp spec fn trim_of(s: Seq<char>) -> Seq<char>;

/// What `str::to_lowercase` returns.
pub uninterp spec fn lower_of(s: Seq<char>) -> Seq<char>;

/// Relies on `str::trim`, which depends on the characters alone.
#[verifier::external_body]
fn trimmed(s: &str) -> (r: String)
    ensures
        r@ == trim_of(s@),
{
    s.trim().to_string()
}

/// Relies on `str::to_lowercase`, which depends on the characters alone.
#[verifier::external_body]
fn lowercased(s: &str) -> (r: String)
    ensures
        r@ == lower_of(s@),
{
    s.to_lowercase()
}

/// Relies on captcha_rs's `CaptchaBuilder` with a four-character answer on a 130x40
/// light image (sizes for which its drawing code does not panic): a random answer of
/// four characters, returned as (answer text, base64 image).
#[verifier::external_body]
fn render_captcha() -> (r: (String, String))
    ensures
        r.0@.len() == 4,
{
    let captcha = captcha_rs::CaptchaBuilder::new().length(4).width(130).height(40)
        .dark_mode(false).complexity(1).compression(40).build();
    let img = captcha.to_base64();
    (captcha.text, img)
}

/// Answer comparison: both sides trimmed and lower-cased.
pub open spec fn codes_match(expected: Seq<char>, submitted: Seq<char>) -> bool {
    lower_of(trim_of(expected)) == lower_of(trim_of(submitted))
}

/// Whether `expected` and `submitted` are the same answer, ignoring case and surrounding space.
pub fn captcha_codes_match(expected: &str, submitted: &str) -> (r: bool)
    ensures
        r == codes_match(expected@, submitted@),
{
    let e = trimmed(expected);
    let s = trimmed(submitted);
    let el = lowercased(e.as_str());
    let sl = lowercased(s.as_str());
    el == sl
}

/// Why a captcha was not accepted.
#[derive(PartialEq, Eq, Structural, Clone, Copy, Debug)]
pub enum CaptchaError {
    /// No entry for the id, or its time to live has elapsed.
    ExpiredOrMissing,
    /// The entry was live but the submitted answer differs.
    Mismatch,
}

/// An entry issued at `issued` has expired at `now`.
pub open spec fn is_expired(issued: i64, now: i64, ttl: i64) -> bool {
    now - issued >= ttl
}

/// The verdict on a taken entry (answer, issue time), if there was one.
pub open spec fn captcha_verdict(taken: Option<(Seq<char>, i64)>, code: Seq<char>, now: i64, ttl: i64) -> Result<(), CaptchaError> {
    match taken {
        None => Err(CaptchaError::ExpiredOrMissing),
        Some(e) => if is_expired(e.1, now, ttl) {
            Err(CaptchaError::ExpiredOrMissing)
        } else if !codes_match(e.0, code) {
            Err(CaptchaError::Mismatch)
        } else {
            Ok(())
        },
    }
}

/// Judges the entry taken out of the store for a validation attempt at time `now`.
pub fn judge_captcha(taken: Option<(String, i64)>, code: &str, now: i64, ttl: i64) -> (r: Result<(), CaptchaError>)
    ensures
        r == captcha_verdict(
            match taken {
                Some(e) => Some((e.0@, e.1)),
                None => None,
            },
            code@,
            now,
            ttl,
        ),
{
    match taken {
        None => Err(CaptchaError::ExpiredOrMissing),
        Some(entry) => {
            let age: i128 = now as i128 - entry.1 as i128;
            if age >= ttl as i128 {
                Err(CaptchaError::ExpiredOrMissing)
            } else if !captcha_codes_match(entry.0.as_str(), code) {
                Err(CaptchaError::Mismatch)
            } else {
                Ok(())
            }
        },
    }
}

/// The outcome of validating `id` with `code` at `now` against the entries `before`:
/// an absent entry gives `ExpiredOrMissing`, a present one its verdict.
pub open spec fn captcha_outcome(
    before: Map<Seq<char>, (Seq<char>, i64)>,
    id: Seq<char>,
    code: Seq<char>,
    now: i64,
    ttl: i64,
) -> Result<(), CaptchaError> {
    if before.contains_key(id) {
        captcha_verdict(Some(before[id]), code, now, ttl)
    } else {
        Err(CaptchaError::ExpiredOrMissing)
    }
}

/// One validation attempt of `id` with `code` at `now` took the store from `before` to
/// `after` with result `r`: the entry is gone afterwards, nothing was added, and the
/// result is the outcome on `before`.
pub open spec fn validation_step(
    before: Map<Seq<char>, (Seq<char>, i64)>,
    after: Map<Seq<char>, (Seq<char>, i64)>,
    id: Seq<char>,
    code: Seq<char>,
    now: i64,
    ttl: i64,
    r: Result<(), CaptchaError>,
) -> bool {
    &&& !after.contains_key(id)
    &&& after.submap_of(before)
    &&& r == captcha_outcome(before, id, code, now, ttl)
}

/// A captcha is single-use: after one validation attempt of `id`, whatever its outcome,
/// the next attempt with the same id fails with `ExpiredOrMissing`, even with the right answer.
pub proof fn captcha_single_use(
    m0: Map<Seq<char>, (Seq<char>, i64)>,
    m1: Map<Seq<char>, (Seq<char>, i64)>,
    m2: Map<Seq<char>, (Seq<char>, i64)>,
    id: Seq<char>,
    code1: Seq<char>,
    code2: Seq<char>,
    now1: i64,
    now2: i64,
    ttl: i64,
    r1: Result<(), CaptchaError>,
    r2: Result<(), CaptchaError>,
)
    requires
        validation_step(m0, m1, id, code1, now1, ttl, r1),
        validation_step(m1, m2, id, code2, now2, ttl, r2),
    ensures
        r2 == Err::<(), CaptchaError>(CaptchaError::ExpiredOrMissing),
{
}

/// A captcha expires: once its time to live has elapsed, validation fails with
/// `ExpiredOrMissing` even though the entry was never consumed.
pub proof fn captcha_expires(
    m0: Map<Seq<char>, (Seq<char>, i64)>,
    m1: Map<Seq<char>, (Seq<char>, i64)>,
    id: Seq<char>,
    code: Seq<char>,
    now: i64,
    ttl: i64,
    r: Result<(), CaptchaError>,
)
    requires
        validation_step(m0, m1, id, code, now, ttl, r),
        m0.contains_key(id) ==> is_expired(m0[id].1, now, ttl),
    ensures
        r == Err::<(), CaptchaError>(CaptchaError::ExpiredOrMissing),
{
}

/// A freshly issued captcha: its id, expected answer and rendered image (base64).
#[derive(Debug)]
pub struct AuthCaptcha {
    pub id: String,
    pub text: String,
    pub img: String,
}

/// Generates a four-character captcha with a fresh random id.
pub fn get_auth_captcha() -> (r: AuthCaptcha)
    ensures
        r.text@.len() == 4,
{
    let (text, img) = render_captcha();
    let id = fresh_uuid_text();
    AuthCaptcha { id, text, img }
}

/// Captcha answers keyed by id, each usable once and only within its time to live.
pub struct CaptchaStore {
    cache: CaptchaCache,
    ttl_secs: i64,
}

impl CaptchaStore {
    /// What the store holds: id to (expected answer, issue time).
    pub closed spec fn entries(&self) -> Map<Seq<char>, (Seq<char>, i64)> {
        captcha_entries(self.cache)
    }

    /// The time to live of every entry, in seconds.
    pub closed spec fn ttl(&self) -> i64 {
        self.ttl_secs
    }

    /// An empty store whose entries live `ttl_secs` seconds, holding at most `capacity` of them.
    pub fn new(ttl_secs: i64, capacity: u64) -> (r: CaptchaStore)
        requires
            0 < ttl_secs <= 1000 * 365 * 24 * 3600,
        ensures
            r.entries().dom() == Set::<Seq<char>>::empty(),
            r.ttl() == ttl_secs,
    {
        CaptchaStore { cache: new_cache(ttl_secs as u64, capacity), ttl_secs }
    }

    /// Stores `text` as the answer for `id`, issued at `now`.
    pub fn insert(&mut self, id: String, text: String, now: i64)
        ensures
            final(self).ttl() == old(self).ttl(),
            final(self).entries().submap_of(old(self).entries().insert(id@, (text@, now))),
    {
        cache_insert(&mut self.cache, id, (text, now));
    }

    /// Generates a captcha, stores its answer under a fresh id at `now`, and returns it.
    pub fn issue(&mut self, now: i64) -> (r: AuthCaptcha)
        ensures
            r.text@.len() == 4,
            final(self).ttl() == old(self).ttl(),
            final(self).entries().submap_of(old(self).entries().insert(r.id@, (r.text@, now))),
    {
        let captcha = get_auth_captcha();
        self.insert(captcha.id.clone(), captcha.text.clone(), now);
        captcha
    }

    /// Takes the entry for `id` out of the store, whatever the outcome, and judges
    /// `code` against it at time `now`.
    pub fn validate(&mut self, id: &str, code: &str, now: i64) -> (r: Result<(), CaptchaError>)
        ensures
            final(self).ttl() == old(self).ttl(),
            validation_step(old(self).entries(), final(self).entries(), id@, code@, now, old(self).ttl(), r),
    {
        let taken = cache_remove(&mut self.cache, id);
        judge_captcha(taken, code, now, self.ttl_secs)
    }
}

} // verus!
