//! A single-slot, time-to-live (TTL) cache around one value, paired with a
//! user-supplied refresh operation that recomputes the value.
//!
//! [`Object::get`] reads the cached value until the TTL is exceeded, after
//! which it returns [`TimeoutError`] and the caller decides when to call
//! [`Object::refresh`]. [`Object::get_or_refresh`] instead refreshes
//! transparently whenever the value has gone stale.
//!
//! Staleness is a pure function of elapsed monotonic time: a value is fresh
//! while the milliseconds elapsed since the last successful refresh are at
//! most the TTL, and stale strictly afterwards. A failed refresh never
//! changes the cached value or the staleness state.

use vstd::prelude::*;

mod clock;

verus! {

/// The cached value has outlived its TTL. [`Object::refresh`] needs to be
/// called before the value can be read again. Carries no payload: it is a
/// control-flow signal, not a fault.
#[derive(Debug)]
pub struct TimeoutError {}

impl TimeoutError {
    /// A human-readable account of the error.
    pub fn message(&self) -> (r: &'static str)
        ensures
            r@ == "The cached object is timeout. Please call refresh method to refresh the value."@,
    {
        "The cached object is timeout. Please call refresh method to refresh the value."
    }
}

/// The user-supplied refresh operation: a zero-argument callable, invocable
/// repeatedly, that either recomputes the cached value or reports an error of
/// the implementor's own choosing. The cache never inspects the error; it is
/// passed through to the caller unchanged.
pub trait Refresher<T> {
    /// The refresh operation's own error type, opaque to the cache.
    type Error;

    /// Attempt to recompute the value from the authoritative source.
    fn attempt(&self) -> Result<T, Self::Error>;
}

/// A single cached value of type `T` together with a fixed TTL (in
/// milliseconds), the monotonic time of its last successful refresh, and the
/// refresh operation `F` that recomputes it.
pub struct Object<T, F> {
    ttl: u128,
    origin: std::time::Instant,
    last_update: u128,
    obj: T,
    refresh_fn: F,
}

impl<T, F> Object<T, F> {
    /// The TTL in milliseconds, fixed at construction.
    pub closed spec fn spec_ttl(self) -> u128 {
        self.ttl
    }

    /// The currently cached value.
    pub closed spec fn spec_value(self) -> T {
        self.obj
    }

    /// The monotonic timestamp (milliseconds) of the most recent successful
    /// refresh; zero right after construction.
    pub closed spec fn spec_last_update(self) -> u128 {
        self.last_update
    }

    /// The stored refresh operation.
    pub closed spec fn spec_refresher(self) -> F {
        self.refresh_fn
    }

    /// Milliseconds elapsed between the last successful refresh and `now`.
    /// A monotonic clock never runs backwards, so `now` earlier than the last
    /// update counts as no time elapsed.
    pub open spec fn spec_elapsed(self, now: u128) -> int {
        if now >= self.spec_last_update() {
            now - self.spec_last_update()
        } else {
            0
        }
    }

    /// Fresh at `now` means the elapsed time is at most the TTL; elapsed time
    /// equal to the TTL is still fresh, strictly greater is stale.
    pub open spec fn is_fresh(self, now: u128) -> bool {
        self.spec_elapsed(now) <= self.spec_ttl()
    }

    /// What a read observes at time `now`: the cached value while fresh,
    /// nothing once stale.
    pub open spec fn spec_read(self, now: u128) -> Option<T> {
        if self.is_fresh(now) {
            Some(self.spec_value())
        } else {
            None
        }
    }

    /// Create a new cached `Object` with the given default value.
    /// `ttl` is in milliseconds; zero is valid and means the value goes stale
    /// as soon as any time at all has elapsed.
    /// `refresh_fn` is not invoked; the construction time counts as the first
    /// successful update, so the object starts out fresh.
    pub fn new(ttl: u128, obj: T, refresh_fn: F) -> (r: Object<T, F>)
        ensures
            r.spec_ttl() == ttl,
            r.spec_value() == obj,
            r.spec_refresher() == refresh_fn,
            r.spec_last_update() == 0,
    {
        Object { ttl, origin: clock::origin_now(), last_update: 0, obj, refresh_fn }
    }

    /// Whether the cached value is still fresh at time `now`.
    fn check_fresh(&self, now: u128) -> (r: bool)
        ensures
            r == self.is_fresh(now),
    {
        now <= self.last_update || now - self.last_update <= self.ttl
    }

    /// Read the cached value as of the explicit time `now` (milliseconds of
    /// monotonic time, on the same origin as the object's own timestamps):
    /// the value while fresh, `TimeoutError` exactly when the elapsed time
    /// exceeds the TTL. Never mutates and never invokes the refresh operation.
    pub fn get_at(&self, now: u128) -> (r: Result<&T, TimeoutError>)
        ensures
            match r {
                Ok(v) => self.is_fresh(now) && *v == self.spec_value(),
                Err(_) => !self.is_fresh(now),
            },
    {
        if self.check_fresh(now) {
            Ok(&self.obj)
        } else {
            Err(TimeoutError {})
        }
    }

    /// Read the current cached value, or return `TimeoutError` if the cache
    /// has expired. Never mutates and never invokes the refresh operation;
    /// which case applies depends on the clock, but a returned value is
    /// always exactly the cached one.
    pub fn get(&self) -> (r: Result<&T, TimeoutError>)
        ensures
            r matches Ok(v) ==> *v == self.spec_value(),
    {
        let now = clock::millis_since(&self.origin);
        self.get_at(now)
    }

    /// Install a newly recomputed value `v` as of time `now`, as a successful
    /// refresh does: the value and the last-update timestamp change together,
    /// and nothing else does.
    pub fn install(&mut self, v: T, now: u128)
        ensures
            final(self).spec_value() == v,
            final(self).spec_last_update() == now,
            final(self).spec_ttl() == old(self).spec_ttl(),
            final(self).spec_refresher() == old(self).spec_refresher(),
    {
        self.obj = v;
        self.last_update = now;
    }
}

impl<T, F: Refresher<T>> Object<T, F> {
    /// Create a new cached `Object` and immediately invoke `refresh_fn` once
    /// instead of using a default value. On success the object holds the value
    /// the refresh operation produced and starts out fresh; on failure no
    /// object is produced at all and the operation's error is returned
    /// unchanged.
    pub fn new_and_refresh(ttl: u128, refresh_fn: F) -> (r: Result<Object<T, F>, F::Error>)
        ensures
            r matches Ok(o) ==> o.spec_ttl() == ttl && o.spec_refresher() == refresh_fn
                && o.spec_last_update() == 0,
    {
        match refresh_fn.attempt() {
            Ok(v) => Ok(Object::new(ttl, v, refresh_fn)),
            Err(e) => Err(e),
        }
    }

    /// Invoke the refresh operation exactly once, regardless of staleness.
    /// On success the produced value is installed and the last-update time
    /// advances to the completion time; the TTL and the refresh operation
    /// never change. On failure the whole object is left exactly as it was.
    pub fn refresh(&mut self) -> (r: Result<(), F::Error>)
        ensures
            r is Err ==> *final(self) == *old(self),
            r is Ok ==> final(self).spec_ttl() == old(self).spec_ttl()
                && final(self).spec_refresher() == old(self).spec_refresher(),
    {
        match self.refresh_fn.attempt() {
            Ok(v) => {
                let now = clock::millis_since(&self.origin);
                self.install(v, now);
                Ok(())
            },
            Err(e) => Err(e),
        }
    }

    /// Read the cached value as of the explicit time `now`, refreshing first
    /// if it is stale. While fresh, the object is untouched, the refresh
    /// operation is not invoked, and the existing value is returned. Once
    /// stale, the refresh operation is invoked exactly once: on success the
    /// produced value is installed as of `now` (so the object is fresh again)
    /// and returned; on failure the error is returned and the whole object is
    /// left exactly as it was.
    pub fn get_or_refresh_at(&mut self, now: u128) -> (r: Result<&T, F::Error>)
        ensures
            old(self).is_fresh(now) ==> *final(self) == *old(self)
                && (r matches Ok(v) && *v == old(self).spec_value()),
            !old(self).is_fresh(now) ==> match r {
                Ok(v) => final(self).spec_last_update() == now
                    && final(self).spec_ttl() == old(self).spec_ttl()
                    && final(self).spec_refresher() == old(self).spec_refresher()
                    && *v == final(self).spec_value()
                    && final(self).is_fresh(now),
                Err(_) => *final(self) == *old(self),
            },
    {
        if self.check_fresh(now) {
            Ok(&self.obj)
        } else {
            match self.refresh_fn.attempt() {
                Ok(v) => {
                    self.install(v, now);
                    Ok(&self.obj)
                },
                Err(e) => Err(e),
            }
        }
    }

    /// Read the current cached value, or refresh it first if it has expired.
    /// On failure of the refresh operation the whole object is left exactly
    /// as it was; on success the returned reference is always to the value
    /// the object now caches, and the TTL and refresh operation never change.
    pub fn get_or_refresh(&mut self) -> (r: Result<&T, F::Error>)
        ensures
            match r {
                Ok(v) => *v == final(self).spec_value()
                    && final(self).spec_ttl() == old(self).spec_ttl()
                    && final(self).spec_refresher() == old(self).spec_refresher(),
                Err(_) => *final(self) == *old(self),
            },
    {
        let now = clock::millis_since(&self.origin);
        self.get_or_refresh_at(now)
    }
}

/// For every TTL and every elapsed time, a read succeeds with the cached
/// value exactly when the elapsed time is at most the TTL, and observes
/// nothing exactly when the elapsed time exceeds it. Equality is not stale.
pub proof fn lemma_read_iff_within_ttl<T, F>(o: Object<T, F>, now: u128)
    ensures
        o.spec_elapsed(now) <= o.spec_ttl() <==> o.spec_read(now) == Some(o.spec_value()),
        o.spec_elapsed(now) > o.spec_ttl() <==> o.spec_read(now) is None,
{
}

/// An object whose last successful update happened at time `now` — as one
/// just constructed or just refreshed is — is fresh at `now`, whatever the
/// TTL: a read immediately after a successful refresh observes exactly the
/// newly installed value, and a read immediately after construction observes
/// exactly the seed value.
pub proof fn lemma_fresh_at_update_time<T, F>(o: Object<T, F>, now: u128)
    requires
        o.spec_last_update() == now,
    ensures
        o.is_fresh(now),
        o.spec_read(now) == Some(o.spec_value()),
{
}

/// Reads are idempotent: with no intervening refresh and no change in
/// elapsed time, two reads observe the identical outcome.
pub proof fn lemma_read_idempotent<T, F>(o: Object<T, F>, t1: u128, t2: u128)
    requires
        o.spec_elapsed(t1) == o.spec_elapsed(t2),
    ensures
        o.spec_read(t1) == o.spec_read(t2),
{
}

} // verus!
