//! The export cache: a single-slot memo of the GPU resources that belong
//! to one `(dimensions, parameters)` key.
//!
//! The cache never serves resources for a key other than the one they
//! were built for, and never rebuilds while the key is unchanged. The
//! resources themselves (buffers, command sequences) are opaque to this
//! module: the caller builds them when — and only when — the cache says
//! they are stale, and installs them together with their key. A
//! regeneration counter makes the "no needless rebuild" promise
//! observable to tests.

use vstd::prelude::*;

use crate::params::ImgDimensions;
use crate::params::JuliaData;

verus! {

/// One materialized cache slot: the key and the resources built for it.
pub struct CacheEntry<R> {
    pub dims: ImgDimensions,
    pub data: JuliaData,
    pub resources: R,
}

/// Single-slot export cache. `R` is whatever bundle of GPU resources the
/// caller materializes per key; this module never looks inside it.
pub struct JuliaExport<R> {
    entry: Option<CacheEntry<R>>,
    regen_count: u64,
}

/// The key a cache holds, if any: the model over which the cache laws
/// are stated.
pub open spec fn spec_key<R>(entry: Option<CacheEntry<R>>) -> Option<(ImgDimensions, JuliaData)> {
    match entry {
        None => None,
        Some(e) => Some((e.dims, e.data)),
    }
}

/// One export call's effect on the cache key: the key afterwards, and
/// whether the call had to regenerate (the key was absent or differed).
pub open spec fn export_step(
    key: Option<(ImgDimensions, JuliaData)>,
    dims: ImgDimensions,
    data: JuliaData,
) -> (Option<(ImgDimensions, JuliaData)>, bool) {
    (Some((dims, data)), key != Some((dims, data)))
}

impl<R> JuliaExport<R> {
    /// The key currently materialized.
    pub closed spec fn key(self) -> Option<(ImgDimensions, JuliaData)> {
        spec_key(self.entry)
    }

    /// How many times resources have been (re)built so far.
    pub closed spec fn spec_regen_count(self) -> u64 {
        self.regen_count
    }

    /// The entry itself, for stating that a hit leaves it untouched.
    pub closed spec fn spec_entry(self) -> Option<CacheEntry<R>> {
        self.entry
    }

    /// A fresh cache holds nothing and has built nothing.
    pub fn new() -> (r: JuliaExport<R>)
        ensures
            r.key() is None,
            r.spec_regen_count() == 0,
    {
        JuliaExport { entry: None, regen_count: 0 }
    }

    /// Whether an export of `(dims, data)` must rebuild the GPU
    /// resources: true exactly when the cached key is absent or differs.
    pub fn needs_regen(&self, dims: ImgDimensions, data: &JuliaData) -> (stale: bool)
        ensures
            stale == (self.key() != Some((dims, *data))),
    {
        match &self.entry {
            None => true,
            Some(e) => {
                let hit = e.dims == dims && e.data == *data;
                proof {
                    if hit {
                        assert(self.key() == Some((dims, *data)));
                    }
                }
                !hit
            },
        }
    }

    /// Install freshly built resources under their key, discarding the
    /// previous entry whole. Counts one regeneration.
    pub fn install(&mut self, dims: ImgDimensions, data: &JuliaData, resources: R)
        requires
            old(self).spec_regen_count() < u64::MAX,
        ensures
            final(self).key() == Some((dims, *data)),
            final(self).spec_entry() == Some(
                CacheEntry { dims, data: *data, resources },
            ),
            final(self).spec_regen_count() == old(self).spec_regen_count() + 1,
    {
        self.entry = Some(CacheEntry { dims, data: *data, resources });
        self.regen_count = self.regen_count + 1;
    }

    /// Borrow the resources held for `(dims, data)`. Only a cache that
    /// is known to hold exactly that key may be read, so stale resources
    /// can never reach the caller.
    pub fn resources(&self, dims: ImgDimensions, data: &JuliaData) -> (r: &R)
        requires
            self.key() == Some((dims, *data)),
        ensures
            (self.spec_entry() matches Some(e) && r == e.resources),
    {
        match &self.entry {
            Some(e) => &e.resources,
            None => unreached(),
        }
    }

    /// One full cache decision, shaped like one export call:
    /// regenerate on mismatch (then install what `fresh` would build) or
    /// keep the entry verbatim on a hit. Afterwards the cache holds
    /// exactly the requested key, and the entry was replaced if and only
    /// if the key had to change — the step function `export_step` is the
    /// contract.
    pub fn prepare<F: FnOnce() -> R>(
        &mut self,
        dims: ImgDimensions,
        data: &JuliaData,
        fresh: F,
    ) -> (regenerated: bool)
        requires
            old(self).spec_regen_count() < u64::MAX,
            call_requires(fresh, ()),
        ensures
            (final(self).key(), regenerated) == export_step(old(self).key(), dims, *data),
            final(self).key() == Some((dims, *data)),
            regenerated ==> final(self).spec_regen_count() == old(self).spec_regen_count() + 1,
            regenerated ==> (exists|r: R|
                #[trigger] call_ensures(fresh, (), r) && final(self).spec_entry() == Some(
                    CacheEntry { dims, data: *data, resources: r },
                )),
            !regenerated ==> *final(self) == *old(self),
            !regenerated ==> final(self).spec_entry() == old(self).spec_entry(),
    {
        if self.needs_regen(dims, data) {
            let resources = fresh();
            self.install(dims, data, resources);
            true
        } else {
            false
        }
    }
}

/// Cache correctness: whatever the cache held before, two export calls
/// with the same `(dimensions, parameters)` key leave the second call
/// with nothing to rebuild — it reuses the first call's entry verbatim.
pub proof fn lemma_cache_correctness(
    key: Option<(ImgDimensions, JuliaData)>,
    dims: ImgDimensions,
    data: JuliaData,
)
    ensures
        export_step(export_step(key, dims, data).0, dims, data).1 == false,
        export_step(export_step(key, dims, data).0, dims, data).0 == Some((dims, data)),
{
}

/// Cache invalidation: a second export whose dimensions or parameters
/// differ in any way from the cached key forces a regeneration, and the
/// cache then holds the new key, never a mixture.
pub proof fn lemma_cache_invalidation(
    dims1: ImgDimensions,
    data1: JuliaData,
    dims2: ImgDimensions,
    data2: JuliaData,
)
    requires
        dims1 != dims2 || data1 != data2,
    ensures
        export_step(Some((dims1, data1)), dims2, data2).1 == true,
        export_step(Some((dims1, data1)), dims2, data2).0 == Some((dims2, data2)),
{
}

/// Changing one field alone — here the iteration cap — already makes the
/// keys unequal, so it forces a regeneration.
pub proof fn lemma_iters_change_invalidates(
    dims: ImgDimensions,
    data1: JuliaData,
    data2: JuliaData,
)
    requires
        (data2 == JuliaData { iters: data2.iters, ..data1 }),
        data2.iters != data1.iters,
    ensures
        export_step(Some((dims, data1)), dims, data2).1 == true,
{
}

} // verus!
