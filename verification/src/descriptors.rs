//! Growable descriptor-pool allocation with pool recycling.
//!
//! The allocator keeps two lists of pools: `ready_pools` (pools with
//! headroom) and `full_pools` (pools that have failed an allocation and wait
//! for the next bulk reset). An allocation attempt takes a pool from
//! `ready_pools`, or mints a new one when none is ready; pools are minted
//! with geometrically growing capacity, amortizing creation cost under
//! pressure. A pool moves to `full_pools` only when the device reports it
//! exhausted or fragmented — never speculatively — and the attempt is then
//! retried once against a fresh pool; a second failure is fatal.
//!
//! Creating a pool and allocating sets from it are native calls; the
//! allocator here decides, and the unverified driver executes. One
//! allocation is the pair [`DescriptorAllocator::begin_allocate`] (choose a
//! pool, possibly requesting its creation) and
//! [`DescriptorAllocator::finish_allocate`] (fold the device's outcome back
//! into the pool bookkeeping).
//!
//! Pools are identified by the order they were minted in: the pool minted
//! `n`-th carries id `n`. The driver keeps the id-to-native-handle table.

use vstd::prelude::*;
use vstd::set_lib::{lemma_int_range, lemma_subset_equality, set_int_range};

use crate::error::GpuResourceError;
use crate::handles::ImageLayout;

verus! {

/// The descriptor kinds this engine allocates. The variants mirror the
/// native descriptor types.
#[derive(Clone, Copy, Debug, PartialEq, Eq, Structural)]
pub enum DescriptorType {
    Sampler,
    CombinedImageSampler,
    SampledImage,
    StorageImage,
    UniformBuffer,
    StorageBuffer,
}

/// How many descriptors of one type a pool provides for each set it can
/// allocate: a pool created for `n` sets provides `ratio * n` descriptors of
/// `descriptor_type`.
#[derive(Clone, Copy, Debug, PartialEq, Eq, Structural)]
pub struct PoolSizeRatio {
    pub descriptor_type: DescriptorType,
    pub ratio: u32,
}

impl PoolSizeRatio {
    pub fn new(descriptor_type: DescriptorType, ratio: u32) -> (r: PoolSizeRatio)
        ensures
            r == (PoolSizeRatio { descriptor_type, ratio }),
    {
        PoolSizeRatio { descriptor_type, ratio }
    }
}

/// One descriptor-count entry of a pool-creation request.
#[derive(Clone, Copy, Debug, PartialEq, Eq, Structural)]
pub struct DescriptorPoolSize {
    pub descriptor_type: DescriptorType,
    pub descriptor_count: u32,
}

/// Everything the driver needs to create one native descriptor pool.
#[derive(Clone, Debug, PartialEq, Eq)]
pub struct CreatePoolRequest {
    pub max_sets: u32,
    pub pool_sizes: Vec<DescriptorPoolSize>,
}

/// A pool as the allocator tracks it: its mint id and the set capacity it
/// was created with.
#[derive(Clone, Copy, Debug, PartialEq, Eq, Structural)]
pub struct DescriptorPoolUnit {
    pub id: u64,
    pub capacity: u32,
}

/// An allocation attempt in flight: the pool chosen for it, and whether it
/// already is the one retry allowed after a pool exhaustion.
#[derive(Clone, Copy, Debug, PartialEq, Eq, Structural)]
pub struct PendingAlloc {
    pub pool: DescriptorPoolUnit,
    pub retried: bool,
}

/// What the driver should do for the current attempt: try to allocate the
/// sets from `pool`, first creating it if `create_request` is given.
#[derive(Clone, Debug, PartialEq, Eq)]
pub struct AllocationAttempt {
    pub pool: DescriptorPoolUnit,
    pub create_request: Option<CreatePoolRequest>,
}

/// The device's answer to one allocation attempt, as the driver reports it.
#[derive(Clone, Copy, Debug, PartialEq, Eq, Structural)]
pub enum AllocOutcome {
    /// The sets were allocated from the attempt's pool.
    Success,
    /// The pool is out of memory for the requested sets.
    OutOfPoolMemory,
    /// The pool is too fragmented to satisfy the request.
    FragmentedPool,
    /// Any other failure; not an exhaustion signal.
    OtherError,
}

impl AllocOutcome {
    /// The two outcomes that mean "this pool is spent": the expected trigger
    /// for growing, not an error of the allocator.
    pub open spec fn is_pool_exhaustion(self) -> bool {
        self is OutOfPoolMemory || self is FragmentedPool
    }
}

/// How one allocation proceeds after an outcome was folded in.
#[derive(Clone, Debug, PartialEq, Eq)]
pub enum AllocProgress {
    /// The attempt succeeded; the pool is ready again.
    Done,
    /// The pool was exhausted; try once more against this fresh pool.
    Retry { pool: DescriptorPoolUnit, create_request: Option<CreatePoolRequest> },
    /// The attempt is abandoned: exhaustion survived the one retry
    /// (`ResourceExhausted`), or the device failed in a way allocation never
    /// should (`InvariantViolation`).
    Failed { error: GpuResourceError },
}

/// An ordered collection of descriptor-set handles plus the layouts they
/// were allocated against. Set lifetime is pool-scoped: the sets become
/// invalid when their owning pool is reset.
#[derive(Debug, Clone, PartialEq, Eq, Default)]
pub struct DescriptorSetDetails {
    pub descriptor_set: Vec<u64>,
    pub layout: Vec<u64>,
}

impl DescriptorSetDetails {
    pub fn new(descriptor_set: Vec<u64>, layout: Vec<u64>) -> (r: DescriptorSetDetails)
        ensures
            r.descriptor_set@ == descriptor_set@,
            r.layout@ == layout@,
    {
        DescriptorSetDetails { descriptor_set, layout }
    }
}

/// No two pools of the sequence share an id.
pub open spec fn pools_distinct(pools: Seq<DescriptorPoolUnit>) -> bool {
    forall|i: int, j: int|
        0 <= i < j < pools.len() ==> (#[trigger] pools[i]).id != (#[trigger] pools[j]).id
}

/// No pool of `a` shares an id with a pool of `b`.
pub open spec fn pools_disjoint(a: Seq<DescriptorPoolUnit>, b: Seq<DescriptorPoolUnit>) -> bool {
    forall|i: int, j: int|
        0 <= i < a.len() && 0 <= j < b.len() ==> (#[trigger] a[i]).id != (#[trigger] b[j]).id
}

/// Every pool id of the sequence is below `bound`.
pub open spec fn pools_below(pools: Seq<DescriptorPoolUnit>, bound: u64) -> bool {
    forall|i: int| 0 <= i < pools.len() ==> (#[trigger] pools[i]).id < bound
}

/// The capacity the pool after one of capacity `c` is minted with: half
/// again as large, truncated, saturating at the type's maximum.
pub open spec fn grown_capacity(c: u32) -> u32 {
    if c as int + c as int / 2 <= u32::MAX as int {
        (c + c / 2) as u32
    } else {
        u32::MAX
    }
}

/// Whether `req` asks for one pool of `set_count` sets, sized from `ratios`:
/// one descriptor-count entry per ratio, each `ratio * set_count`.
pub open spec fn matches_pool_request(
    req: CreatePoolRequest,
    set_count: u32,
    ratios: Seq<PoolSizeRatio>,
) -> bool {
    &&& req.max_sets == set_count
    &&& req.pool_sizes@.len() == ratios.len()
    &&& forall|i: int|
        0 <= i < ratios.len() ==> {
            &&& (#[trigger] req.pool_sizes@[i]).descriptor_type == ratios[i].descriptor_type
            &&& req.pool_sizes@[i].descriptor_count as int == ratios[i].ratio as int
                * set_count as int
        }
}

/// Whether `opt` is such a request.
pub open spec fn matches_pool_request_opt(
    opt: Option<CreatePoolRequest>,
    set_count: u32,
    ratios: Seq<PoolSizeRatio>,
) -> bool {
    opt matches Some(req) && matches_pool_request(req, set_count, ratios)
}

/// Manages pools of descriptor sets; grows capacity on exhaustion; supports
/// bulk reset.
#[derive(Debug, Clone)]
pub struct DescriptorAllocator {
    /// The per-type sizing every pool of this allocator is created from.
    pub ratios: Vec<PoolSizeRatio>,
    /// Pools that have failed an allocation and wait for the next reset.
    pub full_pools: Vec<DescriptorPoolUnit>,
    /// Pools available for allocation.
    pub ready_pools: Vec<DescriptorPoolUnit>,
    /// Capacity of the next pool to be minted.
    pub sets_per_pool: u32,
    /// Ids `0 .. next_pool_id` are the pools minted so far.
    pub next_pool_id: u64,
    /// The allocation attempt in flight, if any; its pool sits in neither
    /// list until the attempt's outcome files it.
    pub pending: Option<PendingAlloc>,
}

impl DescriptorAllocator {
    /// How many pools were ever minted (and not yet torn down): pool ids are
    /// exactly `0 .. spec_pool_count()`.
    pub open spec fn spec_pool_count(self) -> u64 {
        self.next_pool_id
    }

    /// The capacity the next minted pool will have.
    pub open spec fn next_capacity(self) -> u32 {
        self.sets_per_pool
    }

    /// The attempt in flight, if any.
    pub open spec fn spec_pending(self) -> Option<PendingAlloc> {
        self.pending
    }

    /// No allocation is in flight.
    pub open spec fn idle(self) -> bool {
        self.spec_pending() is None
    }

    /// The pool of the attempt in flight.
    pub open spec fn pending_pool(self) -> DescriptorPoolUnit
        recommends
            !self.idle(),
    {
        match self.pending {
            Some(p) => p.pool,
            None => DescriptorPoolUnit { id: 0, capacity: 0 },
        }
    }

    /// Whether the attempt in flight already is the retry.
    pub open spec fn pending_retried(self) -> bool
        recommends
            !self.idle(),
    {
        match self.pending {
            Some(p) => p.retried,
            None => false,
        }
    }

    pub open spec fn pending_len(self) -> nat {
        match self.pending {
            Some(_) => 1nat,
            None => 0nat,
        }
    }

    pub open spec fn pending_wf(self) -> bool {
        match self.pending {
            Some(p) => {
                &&& p.pool.id < self.next_pool_id
                &&& forall|i: int|
                    0 <= i < self.ready_pools@.len() ==> (#[trigger] self.ready_pools@[i]).id
                        != p.pool.id
                &&& forall|i: int|
                    0 <= i < self.full_pools@.len() ==> (#[trigger] self.full_pools@[i]).id
                        != p.pool.id
            },
            None => true,
        }
    }

    /// Pool bookkeeping is sound: ids never repeat, no pool is both ready
    /// and full, every live id was minted, and — counting the attempt in
    /// flight — every minted pool is accounted for in exactly one place.
    pub open spec fn wf(self) -> bool {
        &&& pools_distinct(self.ready_pools@)
        &&& pools_distinct(self.full_pools@)
        &&& pools_disjoint(self.ready_pools@, self.full_pools@)
        &&& pools_below(self.ready_pools@, self.spec_pool_count())
        &&& pools_below(self.full_pools@, self.spec_pool_count())
        &&& self.pending_wf()
        &&& self.ready_pools@.len() + self.full_pools@.len() + self.pending_len()
            == self.spec_pool_count()
    }

    /// Minting one more pool stays within machine limits: the id counter has
    /// room, and no per-type descriptor count overflows at the capacity the
    /// pool would be created with.
    pub open spec fn can_mint(self) -> bool {
        &&& self.spec_pool_count() < u64::MAX
        &&& forall|i: int|
            0 <= i < self.ratios@.len() ==> ((#[trigger] self.ratios@[i]).ratio as int) * (
            self.next_capacity() as int) <= u32::MAX as int
    }

    /// A fresh allocator over one pool of `max_sets` sets, minted id `0`;
    /// the next pool will be half again as large.
    pub fn new(max_sets: u32, pool_sizes: Vec<PoolSizeRatio>) -> (r: DescriptorAllocator)
        ensures
            r.wf(),
            r.idle(),
            r.ratios@ == pool_sizes@,
            r.ready_pools@ =~= seq![DescriptorPoolUnit { id: 0, capacity: max_sets }],
            r.full_pools@ =~= Seq::<DescriptorPoolUnit>::empty(),
            r.spec_pool_count() == 1,
            r.next_capacity() == grown_capacity(max_sets),
    {
        let mut ready_pools: Vec<DescriptorPoolUnit> = Vec::new();
        ready_pools.push(DescriptorPoolUnit { id: 0, capacity: max_sets });
        DescriptorAllocator {
            ratios: pool_sizes,
            full_pools: Vec::new(),
            ready_pools,
            sets_per_pool: Self::grow_capacity(max_sets),
            next_pool_id: 1,
            pending: None,
        }
    }

    /// Half again as large, saturating.
    fn grow_capacity(c: u32) -> (r: u32)
        ensures
            r == grown_capacity(c),
    {
        let half = c / 2;
        if c <= u32::MAX - half {
            c + half
        } else {
            u32::MAX
        }
    }

    /// The pool-creation request for `set_count` sets under this allocator's
    /// ratios: one size entry per ratio, `ratio * set_count` descriptors
    /// each.
    fn create_pool(&self, set_count: u32) -> (r: CreatePoolRequest)
        requires
            forall|i: int|
                0 <= i < self.ratios@.len() ==> ((#[trigger] self.ratios@[i]).ratio as int) * (
                set_count as int) <= u32::MAX as int,
        ensures
            matches_pool_request(r, set_count, self.ratios@),
    {
        let mut pool_sizes: Vec<DescriptorPoolSize> = Vec::new();
        let mut k: usize = 0;
        while k < self.ratios.len()
            invariant
                k <= self.ratios@.len(),
                pool_sizes@.len() == k,
                forall|i: int|
                    0 <= i < self.ratios@.len() ==> ((#[trigger] self.ratios@[i]).ratio as int) * (
                    set_count as int) <= u32::MAX as int,
                forall|i: int|
                    0 <= i < k ==> {
                        &&& (#[trigger] pool_sizes@[i]).descriptor_type
                            == self.ratios@[i].descriptor_type
                        &&& pool_sizes@[i].descriptor_count as int == self.ratios@[i].ratio as int
                            * set_count as int
                    },
            decreases self.ratios@.len() - k,
        {
            let ratio = self.ratios[k];
            pool_sizes.push(
                DescriptorPoolSize {
                    descriptor_type: ratio.descriptor_type,
                    descriptor_count: ratio.ratio * set_count,
                },
            );
            k = k + 1;
        }
        CreatePoolRequest { max_sets: set_count, pool_sizes }
    }

    /// Take a ready pool, or mint a new one (its creation request comes
    /// back with it). The caller moves the pool into the pending attempt.
    fn get_pool(&mut self) -> (r: AllocationAttempt)
        requires
            old(self).ready_pools@.len() == 0 ==> old(self).can_mint(),
        ensures
            final(self).ratios@ == old(self).ratios@,
            final(self).full_pools@ == old(self).full_pools@,
            final(self).spec_pending() == old(self).spec_pending(),
            old(self).ready_pools@.len() > 0 ==> {
                &&& r.pool == old(self).ready_pools@.last()
                &&& r.create_request is None
                &&& final(self).ready_pools@ == old(self).ready_pools@.drop_last()
                &&& final(self).spec_pool_count() == old(self).spec_pool_count()
                &&& final(self).next_capacity() == old(self).next_capacity()
            },
            old(self).ready_pools@.len() == 0 ==> {
                &&& r.pool.id == old(self).spec_pool_count()
                &&& r.pool.capacity == old(self).next_capacity()
                &&& matches_pool_request_opt(
                    r.create_request,
                    old(self).next_capacity(),
                    old(self).ratios@,
                )
                &&& final(self).ready_pools@ == old(self).ready_pools@
                &&& final(self).spec_pool_count() == old(self).spec_pool_count() + 1
                &&& final(self).next_capacity() == grown_capacity(old(self).next_capacity())
            },
    {
        if self.ready_pools.len() > 0 {
            let pool = self.ready_pools.pop().unwrap();
            AllocationAttempt { pool, create_request: None }
        } else {
            let capacity = self.sets_per_pool;
            let request = self.create_pool(capacity);
            let pool = DescriptorPoolUnit { id: self.next_pool_id, capacity };
            self.next_pool_id = self.next_pool_id + 1;
            self.sets_per_pool = Self::grow_capacity(capacity);
            AllocationAttempt { pool, create_request: Some(request) }
        }
    }

    /// Start one allocation: choose the pool the driver should allocate the
    /// sets from, minting one (`create_request` is `Some`) when none is
    /// ready. The chosen pool is held by the attempt — neither ready nor
    /// full — until [`Self::finish_allocate`] files it.
    pub fn begin_allocate(&mut self) -> (r: AllocationAttempt)
        requires
            old(self).wf(),
            old(self).idle(),
            old(self).ready_pools@.len() == 0 ==> old(self).can_mint(),
        ensures
            final(self).wf(),
            final(self).ratios@ == old(self).ratios@,
            final(self).full_pools@ == old(self).full_pools@,
            final(self).spec_pending() == Some(PendingAlloc { pool: r.pool, retried: false }),
            old(self).ready_pools@.len() > 0 ==> {
                &&& r.pool == old(self).ready_pools@.last()
                &&& r.create_request is None
                &&& final(self).ready_pools@ == old(self).ready_pools@.drop_last()
                &&& final(self).spec_pool_count() == old(self).spec_pool_count()
                &&& final(self).next_capacity() == old(self).next_capacity()
            },
            old(self).ready_pools@.len() == 0 ==> {
                &&& r.pool.id == old(self).spec_pool_count()
                &&& r.pool.capacity == old(self).next_capacity()
                &&& matches_pool_request_opt(
                    r.create_request,
                    old(self).next_capacity(),
                    old(self).ratios@,
                )
                &&& final(self).ready_pools@ == old(self).ready_pools@
                &&& final(self).spec_pool_count() == old(self).spec_pool_count() + 1
                &&& final(self).next_capacity() == grown_capacity(old(self).next_capacity())
            },
    {
        let attempt = self.get_pool();
        self.pending = Some(PendingAlloc { pool: attempt.pool, retried: false });
        attempt
    }

    /// Fold the device's outcome for the pending attempt back in.
    ///
    /// Success returns the pool to `ready_pools`. Pool exhaustion moves the
    /// pool to `full_pools` and — once — hands back a fresh pool to retry
    /// with; exhaustion on the retry is `ResourceExhausted`. Any other
    /// failure returns the pool to `ready_pools` (it was not exhausted) and
    /// is `InvariantViolation`, never retried.
    pub fn finish_allocate(&mut self, outcome: AllocOutcome) -> (r: AllocProgress)
        requires
            old(self).wf(),
            !old(self).idle(),
            outcome.is_pool_exhaustion() && !old(self).pending_retried() && old(
                self,
            ).ready_pools@.len() == 0 ==> old(self).can_mint(),
        ensures
            final(self).wf(),
            final(self).ratios@ == old(self).ratios@,
            outcome is Success ==> {
                &&& r is Done
                &&& final(self).idle()
                &&& final(self).ready_pools@ == old(self).ready_pools@.push(
                    old(self).pending_pool(),
                )
                &&& final(self).full_pools@ == old(self).full_pools@
                &&& final(self).spec_pool_count() == old(self).spec_pool_count()
                &&& final(self).next_capacity() == old(self).next_capacity()
            },
            outcome is OtherError ==> {
                &&& r == (AllocProgress::Failed { error: GpuResourceError::InvariantViolation })
                &&& final(self).idle()
                &&& final(self).ready_pools@ == old(self).ready_pools@.push(
                    old(self).pending_pool(),
                )
                &&& final(self).full_pools@ == old(self).full_pools@
                &&& final(self).spec_pool_count() == old(self).spec_pool_count()
                &&& final(self).next_capacity() == old(self).next_capacity()
            },
            outcome.is_pool_exhaustion() && old(self).pending_retried() ==> {
                &&& r == (AllocProgress::Failed { error: GpuResourceError::ResourceExhausted })
                &&& final(self).idle()
                &&& final(self).ready_pools@ == old(self).ready_pools@
                &&& final(self).full_pools@ == old(self).full_pools@.push(
                    old(self).pending_pool(),
                )
                &&& final(self).spec_pool_count() == old(self).spec_pool_count()
                &&& final(self).next_capacity() == old(self).next_capacity()
            },
            outcome.is_pool_exhaustion() && !old(self).pending_retried() ==> {
                &&& final(self).full_pools@ == old(self).full_pools@.push(
                    old(self).pending_pool(),
                )
                &&& r matches AllocProgress::Retry { pool, create_request } && {
                    &&& final(self).spec_pending() == Some(PendingAlloc { pool, retried: true })
                    &&& if old(self).ready_pools@.len() > 0 {
                        &&& pool == old(self).ready_pools@.last()
                        &&& create_request is None
                        &&& final(self).ready_pools@ == old(self).ready_pools@.drop_last()
                        &&& final(self).spec_pool_count() == old(self).spec_pool_count()
                        &&& final(self).next_capacity() == old(self).next_capacity()
                    } else {
                        &&& pool.id == old(self).spec_pool_count()
                        &&& pool.capacity == old(self).next_capacity()
                        &&& matches_pool_request_opt(
                            create_request,
                            old(self).next_capacity(),
                            old(self).ratios@,
                        )
                        &&& final(self).ready_pools@ == old(self).ready_pools@
                        &&& final(self).spec_pool_count() == old(self).spec_pool_count() + 1
                        &&& final(self).next_capacity() == grown_capacity(
                            old(self).next_capacity(),
                        )
                    }
                }
            },
    {
        let p = self.pending.unwrap();
        self.pending = None;
        match outcome {
            AllocOutcome::Success => {
                self.ready_pools.push(p.pool);
                AllocProgress::Done
            },
            AllocOutcome::OtherError => {
                self.ready_pools.push(p.pool);
                AllocProgress::Failed { error: GpuResourceError::InvariantViolation }
            },
            AllocOutcome::OutOfPoolMemory | AllocOutcome::FragmentedPool => {
                self.full_pools.push(p.pool);
                if p.retried {
                    AllocProgress::Failed { error: GpuResourceError::ResourceExhausted }
                } else {
                    let attempt = self.get_pool();
                    self.pending = Some(PendingAlloc { pool: attempt.pool, retried: true });
                    AllocProgress::Retry {
                        pool: attempt.pool,
                        create_request: attempt.create_request,
                    }
                }
            },
        }
    }

    /// Reset every pool's contents and merge `full_pools` back into
    /// `ready_pools`. Returns the ids of every pool, for the driver to issue
    /// the native resets; all sets previously allocated from them become
    /// invalid, so callers must guarantee no in-flight GPU work still reads
    /// them.
    pub fn reset_descriptors(&mut self) -> (r: Vec<u64>)
        requires
            old(self).wf(),
            old(self).idle(),
        ensures
            final(self).wf(),
            final(self).idle(),
            final(self).ratios@ == old(self).ratios@,
            r@ =~= old(self).ready_pools@.map_values(|p: DescriptorPoolUnit| p.id) + old(
                self,
            ).full_pools@.map_values(|p: DescriptorPoolUnit| p.id),
            final(self).ready_pools@ == old(self).ready_pools@ + old(self).full_pools@,
            final(self).full_pools@ =~= Seq::<DescriptorPoolUnit>::empty(),
            final(self).spec_pool_count() == old(self).spec_pool_count(),
            final(self).next_capacity() == old(self).next_capacity(),
    {
        let mut ids: Vec<u64> = Vec::new();
        let ghost start = *self;
        let ghost ready0 = self.ready_pools@;
        let ghost full0 = self.full_pools@;
        let mut k: usize = 0;
        while k < self.ready_pools.len()
            invariant
                k <= self.ready_pools@.len(),
                *self == start,
                self.ready_pools@ == ready0,
                ids@ =~= ready0.subrange(0, k as int).map_values(|p: DescriptorPoolUnit| p.id),
            decreases self.ready_pools@.len() - k,
        {
            let id = self.ready_pools[k].id;
            ids.push(id);
            proof {
                assert(ready0.subrange(0, k + 1 as int).map_values(
                    |p: DescriptorPoolUnit| p.id,
                ) =~= ready0.subrange(0, k as int).map_values(|p: DescriptorPoolUnit| p.id).push(
                    ready0[k as int].id,
                ));
            }
            k = k + 1;
        }
        proof {
            assert(ready0.subrange(0, ready0.len() as int) =~= ready0);
        }
        let mut j: usize = 0;
        while j < self.full_pools.len()
            invariant
                j <= self.full_pools@.len(),
                self.ready_pools@ == ready0 + full0.subrange(0, j as int),
                self.full_pools@ == full0,
                self.ratios@ == start.ratios@,
                self.sets_per_pool == start.sets_per_pool,
                self.next_pool_id == start.next_pool_id,
                self.pending == start.pending,
                ids@ =~= ready0.map_values(|p: DescriptorPoolUnit| p.id) + full0.subrange(
                    0,
                    j as int,
                ).map_values(|p: DescriptorPoolUnit| p.id),
            decreases self.full_pools@.len() - j,
        {
            let pool = self.full_pools[j];
            ids.push(pool.id);
            self.ready_pools.push(pool);
            proof {
                assert(full0.subrange(0, j + 1 as int) =~= full0.subrange(0, j as int).push(
                    full0[j as int],
                ));
                assert(full0.subrange(0, j + 1 as int).map_values(
                    |p: DescriptorPoolUnit| p.id,
                ) =~= full0.subrange(0, j as int).map_values(|p: DescriptorPoolUnit| p.id).push(
                    full0[j as int].id,
                ));
            }
            j = j + 1;
        }
        self.full_pools.clear();
        proof {
            assert(full0.subrange(0, full0.len() as int) =~= full0);
            assert(self.ready_pools@ == ready0 + full0);
            let merged = ready0 + full0;
            // Merging two duplicate-free, mutually disjoint lists keeps the
            // ids distinct and bounded.
            assert forall|i: int, j2: int| 0 <= i < j2 < merged.len() implies (
            #[trigger] merged[i]).id != (#[trigger] merged[j2]).id by {
                if j2 < ready0.len() {
                    assert(merged[i] == ready0[i]);
                    assert(merged[j2] == ready0[j2]);
                } else if i < ready0.len() {
                    assert(merged[i] == ready0[i]);
                    assert(merged[j2] == full0[j2 - ready0.len()]);
                } else {
                    assert(merged[i] == full0[i - ready0.len()]);
                    assert(merged[j2] == full0[j2 - ready0.len()]);
                }
            }
            assert forall|i: int| 0 <= i < merged.len() implies (#[trigger] merged[i]).id
                < self.spec_pool_count() by {
                if i < ready0.len() {
                    assert(merged[i] == ready0[i]);
                } else {
                    assert(merged[i] == full0[i - ready0.len()]);
                }
            }
        }
        ids
    }

    /// Tear the allocator down: every pool id comes back, ready pools first,
    /// for the driver to destroy, and the allocator is left empty with no
    /// live pools.
    pub fn destroy_pools(&mut self) -> (r: Vec<u64>)
        requires
            old(self).wf(),
            old(self).idle(),
        ensures
            final(self).wf(),
            final(self).idle(),
            final(self).ratios@ == old(self).ratios@,
            r@ =~= old(self).ready_pools@.map_values(|p: DescriptorPoolUnit| p.id) + old(
                self,
            ).full_pools@.map_values(|p: DescriptorPoolUnit| p.id),
            final(self).ready_pools@ =~= Seq::<DescriptorPoolUnit>::empty(),
            final(self).full_pools@ =~= Seq::<DescriptorPoolUnit>::empty(),
            final(self).spec_pool_count() == 0,
    {
        let ids = self.reset_descriptors();
        self.ready_pools.clear();
        self.next_pool_id = 0;
        ids
    }

    /// How many pools this allocator has minted so far. Grows by one exactly
    /// when an attempt finds no ready pool.
    pub fn pool_count(&self) -> (r: u64)
        ensures
            r == self.spec_pool_count(),
    {
        self.next_pool_id
    }

    /// The ids of every pool the allocator holds, ready pools first.
    pub fn pool_ids(&self) -> (r: Vec<u64>)
        ensures
            r@ =~= self.ready_pools@.map_values(|p: DescriptorPoolUnit| p.id)
                + self.full_pools@.map_values(|p: DescriptorPoolUnit| p.id),
    {
        let mut ids: Vec<u64> = Vec::new();
        let mut k: usize = 0;
        while k < self.ready_pools.len()
            invariant
                k <= self.ready_pools@.len(),
                ids@ =~= self.ready_pools@.subrange(0, k as int).map_values(
                    |p: DescriptorPoolUnit| p.id,
                ),
            decreases self.ready_pools@.len() - k,
        {
            ids.push(self.ready_pools[k].id);
            proof {
                assert(self.ready_pools@.subrange(0, k + 1 as int).map_values(
                    |p: DescriptorPoolUnit| p.id,
                ) =~= self.ready_pools@.subrange(0, k as int).map_values(
                    |p: DescriptorPoolUnit| p.id,
                ).push(self.ready_pools@[k as int].id));
            }
            k = k + 1;
        }
        proof {
            assert(self.ready_pools@.subrange(0, self.ready_pools@.len() as int)
                =~= self.ready_pools@);
        }
        let mut j: usize = 0;
        while j < self.full_pools.len()
            invariant
                j <= self.full_pools@.len(),
                ids@ =~= self.ready_pools@.map_values(|p: DescriptorPoolUnit| p.id)
                    + self.full_pools@.subrange(0, j as int).map_values(
                    |p: DescriptorPoolUnit| p.id,
                ),
            decreases self.full_pools@.len() - j,
        {
            ids.push(self.full_pools[j].id);
            proof {
                assert(self.full_pools@.subrange(0, j + 1 as int).map_values(
                    |p: DescriptorPoolUnit| p.id,
                ) =~= self.full_pools@.subrange(0, j as int).map_values(
                    |p: DescriptorPoolUnit| p.id,
                ).push(self.full_pools@[j as int].id));
            }
            j = j + 1;
        }
        proof {
            assert(self.full_pools@.subrange(0, self.full_pools@.len() as int)
                =~= self.full_pools@);
        }
        ids
    }
}

/// The set of ids of a pool list, as mathematical integers.
pub open spec fn pool_id_set(pools: Seq<DescriptorPoolUnit>) -> Set<int> {
    pools.map_values(|p: DescriptorPoolUnit| p.id as int).to_set()
}

/// Pool exclusivity: in any well-formed allocator state between operations,
/// no pool is both ready and full, and together the two lists hold exactly
/// the pools ever created — ids `0 .. pool_count` — until `destroy_pools`
/// empties both.
pub proof fn lemma_pool_exclusivity(d: DescriptorAllocator)
    requires
        d.wf(),
        d.idle(),
    ensures
        pool_id_set(d.ready_pools@).intersect(pool_id_set(d.full_pools@)) =~= Set::<int>::empty(),
        pool_id_set(d.ready_pools@).union(pool_id_set(d.full_pools@)) =~= set_int_range(
            0,
            d.spec_pool_count() as int,
        ),
{
    let ready_ids = d.ready_pools@.map_values(|p: DescriptorPoolUnit| p.id as int);
    let full_ids = d.full_pools@.map_values(|p: DescriptorPoolUnit| p.id as int);
    let all_ids = ready_ids + full_ids;
    let created = set_int_range(0, d.spec_pool_count() as int);

    // The two id sets cannot meet: an id in both would stand at some index
    // of each list, and the lists are disjoint by well-formedness.
    assert forall|x: int|
        !(pool_id_set(d.ready_pools@).intersect(pool_id_set(d.full_pools@)).contains(x)) by {
        if pool_id_set(d.ready_pools@).contains(x) && pool_id_set(d.full_pools@).contains(x) {
            let i = choose|i: int| 0 <= i < ready_ids.len() && ready_ids[i] == x;
            let j = choose|j: int| 0 <= j < full_ids.len() && full_ids[j] == x;
            assert(d.ready_pools@[i].id == d.full_pools@[j].id);
        }
    }

    // The union is a subset of the created range (ids are bounded), has no
    // duplicates (the lists are duplicate-free and disjoint), and is as
    // large as the range — so it is the range.
    vstd::seq_lib::lemma_no_dup_in_concat(ready_ids, full_ids);
    assert(all_ids.no_duplicates());
    all_ids.unique_seq_to_set();
    lemma_int_range(0, d.spec_pool_count() as int);
    assert(all_ids.to_set().subset_of(created)) by {
        assert forall|x: int| all_ids.to_set().contains(x) implies created.contains(x) by {
            let i = choose|i: int| 0 <= i < all_ids.len() && all_ids[i] == x;
            if i < ready_ids.len() {
                assert(d.ready_pools@[i].id < d.spec_pool_count());
            } else {
                assert(d.full_pools@[i - ready_ids.len()].id < d.spec_pool_count());
            }
        }
    }
    lemma_subset_equality(all_ids.to_set(), created);
    vstd::seq_lib::seq_to_set_distributes_over_add(ready_ids, full_ids);
    assert(pool_id_set(d.ready_pools@).union(pool_id_set(d.full_pools@)) =~= all_ids.to_set());
}

/// What an image descriptor write points at: the view, the layout the image
/// will be in when read, and the sampler, where the descriptor type takes
/// one.
#[derive(Clone, Copy, Debug, PartialEq, Eq, Structural)]
pub struct DescriptorImageInfo {
    pub sampler: Option<u64>,
    pub image_view: u64,
    pub image_layout: ImageLayout,
}

/// What a buffer descriptor write points at: the buffer and the byte window
/// of it the shader sees.
#[derive(Clone, Copy, Debug, PartialEq, Eq, Structural)]
pub struct DescriptorBufferInfo {
    pub buffer: u64,
    pub offset: u64,
    pub range: u64,
}

/// A staged image write: which binding, which entry of the image-info list,
/// and the descriptor type to write it as.
#[derive(Debug, Clone, Copy, PartialEq, Eq, Structural)]
pub struct PendingImageWrite {
    pub binding: u32,
    pub image_info_idx: usize,
    pub d_type: DescriptorType,
}

/// A staged buffer write: which binding, which entry of the buffer-info
/// list, and the descriptor type to write it as.
#[derive(Debug, Clone, Copy, PartialEq, Eq, Structural)]
pub struct PendingBufferWrite {
    pub binding: u32,
    pub buffer_info_idx: usize,
    pub d_type: DescriptorType,
}

/// The resource side of one descriptor write.
#[derive(Clone, Copy, Debug, PartialEq, Eq, Structural)]
pub enum WriteInfo {
    Image(DescriptorImageInfo),
    Buffer(DescriptorBufferInfo),
}

/// One fully resolved descriptor write, ready for the driver to hand to the
/// device: descriptor writes must happen-before the command buffer that
/// reads the set is submitted.
#[derive(Clone, Copy, Debug, PartialEq, Eq, Structural)]
pub struct WriteDescriptorCommand {
    pub dst_set: u64,
    pub dst_binding: u32,
    pub d_type: DescriptorType,
    pub info: WriteInfo,
}

/// Stages descriptor writes against resources, then resolves them for one
/// set: image writes first, then buffer writes, each list in the order it
/// was staged.
#[derive(Clone, Debug, PartialEq, Eq)]
pub struct DescriptorWriter {
    pub image_infos: Vec<DescriptorImageInfo>,
    pub buffer_infos: Vec<DescriptorBufferInfo>,
    pub pending_image_writes: Vec<PendingImageWrite>,
    pub pending_buffer_writes: Vec<PendingBufferWrite>,
}

impl DescriptorWriter {
    /// Every staged write points into its info list.
    pub open spec fn wf(self) -> bool {
        &&& forall|i: int|
            0 <= i < self.pending_image_writes@.len() ==> (
            #[trigger] self.pending_image_writes@[i]).image_info_idx
                < self.image_infos@.len()
        &&& forall|i: int|
            0 <= i < self.pending_buffer_writes@.len() ==> (
            #[trigger] self.pending_buffer_writes@[i]).buffer_info_idx
                < self.buffer_infos@.len()
    }

    pub open spec fn is_empty(self) -> bool {
        &&& self.image_infos@.len() == 0
        &&& self.buffer_infos@.len() == 0
        &&& self.pending_image_writes@.len() == 0
        &&& self.pending_buffer_writes@.len() == 0
    }

    pub fn new() -> (r: DescriptorWriter)
        ensures
            r.wf(),
            r.is_empty(),
    {
        DescriptorWriter {
            image_infos: Vec::new(),
            buffer_infos: Vec::new(),
            pending_image_writes: Vec::new(),
            pending_buffer_writes: Vec::new(),
        }
    }

    /// Stage a write of an image resource to `binding`.
    pub fn write_image(
        &mut self,
        binding: u32,
        image: u64,
        sampler: Option<u64>,
        layout: ImageLayout,
        d_type: DescriptorType,
    )
        requires
            old(self).wf(),
        ensures
            final(self).wf(),
            final(self).image_infos@ == old(self).image_infos@.push(
                DescriptorImageInfo { sampler, image_view: image, image_layout: layout },
            ),
            final(self).pending_image_writes@ == old(self).pending_image_writes@.push(
                PendingImageWrite {
                    binding,
                    image_info_idx: old(self).image_infos@.len() as usize,
                    d_type,
                },
            ),
            final(self).buffer_infos@ == old(self).buffer_infos@,
            final(self).pending_buffer_writes@ == old(self).pending_buffer_writes@,
    {
        self.image_infos.push(
            DescriptorImageInfo { sampler, image_view: image, image_layout: layout },
        );
        let image_info_idx = self.image_infos.len() - 1;
        self.pending_image_writes.push(PendingImageWrite { binding, image_info_idx, d_type });
    }

    /// Stage a write of `size` bytes of `buffer` at `offset` to `binding`.
    pub fn write_buffer(
        &mut self,
        binding: u32,
        buffer: crate::handles::VkBuffer,
        size: u64,
        offset: u64,
        d_type: DescriptorType,
    )
        requires
            old(self).wf(),
        ensures
            final(self).wf(),
            final(self).buffer_infos@ == old(self).buffer_infos@.push(
                DescriptorBufferInfo { buffer: buffer.buffer, offset, range: size },
            ),
            final(self).pending_buffer_writes@ == old(self).pending_buffer_writes@.push(
                PendingBufferWrite {
                    binding,
                    buffer_info_idx: old(self).buffer_infos@.len() as usize,
                    d_type,
                },
            ),
            final(self).image_infos@ == old(self).image_infos@,
            final(self).pending_image_writes@ == old(self).pending_image_writes@,
    {
        self.buffer_infos.push(DescriptorBufferInfo { buffer: buffer.buffer, offset, range: size });
        let buffer_info_idx = self.buffer_infos.len() - 1;
        self.pending_buffer_writes.push(PendingBufferWrite { binding, buffer_info_idx, d_type });
    }

    /// Resolve every staged write against one set: the commands come out
    /// image writes first, then buffer writes, each in staging order, each
    /// carrying the info entry its pending write points at.
    pub fn update_set(&self, set: u64) -> (r: Vec<WriteDescriptorCommand>)
        requires
            self.wf(),
        ensures
            r@.len() == self.pending_image_writes@.len() + self.pending_buffer_writes@.len(),
            forall|i: int|
                0 <= i < self.pending_image_writes@.len() ==> r@[i] == (WriteDescriptorCommand {
                    dst_set: set,
                    dst_binding: self.pending_image_writes@[i].binding,
                    d_type: self.pending_image_writes@[i].d_type,
                    info: WriteInfo::Image(
                        self.image_infos@[self.pending_image_writes@[i].image_info_idx as int],
                    ),
                }),
            forall|i: int|
                0 <= i < self.pending_buffer_writes@.len() ==> r@[self.pending_image_writes@.len()
                    + i] == (WriteDescriptorCommand {
                    dst_set: set,
                    dst_binding: self.pending_buffer_writes@[i].binding,
                    d_type: self.pending_buffer_writes@[i].d_type,
                    info: WriteInfo::Buffer(
                        self.buffer_infos@[self.pending_buffer_writes@[i].buffer_info_idx as int],
                    ),
                }),
    {
        let mut writes: Vec<WriteDescriptorCommand> = Vec::new();
        let mut k: usize = 0;
        while k < self.pending_image_writes.len()
            invariant
                self.wf(),
                k <= self.pending_image_writes@.len(),
                writes@.len() == k,
                forall|i: int|
                    0 <= i < k ==> writes@[i] == (WriteDescriptorCommand {
                        dst_set: set,
                        dst_binding: self.pending_image_writes@[i].binding,
                        d_type: self.pending_image_writes@[i].d_type,
                        info: WriteInfo::Image(
                            self.image_infos@[self.pending_image_writes@[i].image_info_idx as int],
                        ),
                    }),
            decreases self.pending_image_writes@.len() - k,
        {
            let w = self.pending_image_writes[k];
            writes.push(
                WriteDescriptorCommand {
                    dst_set: set,
                    dst_binding: w.binding,
                    d_type: w.d_type,
                    info: WriteInfo::Image(self.image_infos[w.image_info_idx]),
                },
            );
            k = k + 1;
        }
        let ghost n_img = self.pending_image_writes@.len();
        let mut j: usize = 0;
        while j < self.pending_buffer_writes.len()
            invariant
                self.wf(),
                j <= self.pending_buffer_writes@.len(),
                writes@.len() == n_img + j,
                n_img == self.pending_image_writes@.len(),
                forall|i: int|
                    0 <= i < n_img ==> writes@[i] == (WriteDescriptorCommand {
                        dst_set: set,
                        dst_binding: self.pending_image_writes@[i].binding,
                        d_type: self.pending_image_writes@[i].d_type,
                        info: WriteInfo::Image(
                            self.image_infos@[self.pending_image_writes@[i].image_info_idx as int],
                        ),
                    }),
                forall|i: int|
                    0 <= i < j ==> writes@[n_img + i] == (WriteDescriptorCommand {
                        dst_set: set,
                        dst_binding: self.pending_buffer_writes@[i].binding,
                        d_type: self.pending_buffer_writes@[i].d_type,
                        info: WriteInfo::Buffer(
                            self.buffer_infos@[self.pending_buffer_writes@[i].buffer_info_idx as int],
                        ),
                    }),
            decreases self.pending_buffer_writes@.len() - j,
        {
            let w = self.pending_buffer_writes[j];
            writes.push(
                WriteDescriptorCommand {
                    dst_set: set,
                    dst_binding: w.binding,
                    d_type: w.d_type,
                    info: WriteInfo::Buffer(self.buffer_infos[w.buffer_info_idx]),
                },
            );
            j = j + 1;
        }
        writes
    }

    /// Drop every staged write and info entry.
    pub fn clear(&mut self)
        ensures
            final(self).wf(),
            final(self).is_empty(),
    {
        self.image_infos.clear();
        self.buffer_infos.clear();
        self.pending_buffer_writes.clear();
        self.pending_image_writes.clear();
    }
}

impl DescriptorAllocator {
    /// The single-binding layout request the one-call write paths allocate
    /// against: one descriptor of `descriptor_type` at binding zero, visible
    /// to `shader_stages`.
    pub fn single_binding_layout(
        descriptor_type: DescriptorType,
        shader_stages: u32,
    ) -> (r: LayoutCreateRequest)
        ensures
            r.flags == 0,
            r.bindings@ =~= seq![
                DescriptorSetLayoutBinding {
                    binding: 0,
                    descriptor_type,
                    descriptor_count: 1,
                    stage_flags: shader_stages,
                },
            ],
    {
        let mut builder = DescriptorLayoutBuilder::new();
        builder.add_binding(0, descriptor_type, shader_stages);
        let request = builder.build(0, 0);
        proof {
            assert(shader_stages | 0 == shader_stages) by (bit_vector);
            assert(request.bindings@ =~= seq![
                DescriptorSetLayoutBinding {
                    binding: 0,
                    descriptor_type,
                    descriptor_count: 1,
                    stage_flags: shader_stages,
                },
            ]);
        }
        request
    }

    /// Allocate-and-populate, image side: given the set the driver allocated
    /// against a [`Self::single_binding_layout`] of `descriptor_type`, the
    /// details to hand the caller and the one write to apply to it.
    pub fn write_image_descriptors(
        set: u64,
        layout: u64,
        image_view: u64,
        image_layout: ImageLayout,
        descriptor_type: DescriptorType,
        sampler: Option<u64>,
    ) -> (r: (DescriptorSetDetails, Vec<WriteDescriptorCommand>))
        ensures
            r.0.descriptor_set@ =~= seq![set],
            r.0.layout@ =~= seq![layout],
            r.1@ =~= seq![
                WriteDescriptorCommand {
                    dst_set: set,
                    dst_binding: 0,
                    d_type: descriptor_type,
                    info: WriteInfo::Image(
                        DescriptorImageInfo { sampler, image_view, image_layout },
                    ),
                },
            ],
    {
        let mut writer = DescriptorWriter::new();
        writer.write_image(0, image_view, sampler, image_layout, descriptor_type);
        let writes = writer.update_set(set);
        let details = DescriptorSetDetails::new(vec![set], vec![layout]);
        proof {
            assert(writes@ =~= seq![
                WriteDescriptorCommand {
                    dst_set: set,
                    dst_binding: 0,
                    d_type: descriptor_type,
                    info: WriteInfo::Image(
                        DescriptorImageInfo { sampler, image_view, image_layout },
                    ),
                },
            ]);
        }
        (details, writes)
    }

    /// Allocate-and-populate, buffer side: given the set the driver
    /// allocated against a [`Self::single_binding_layout`] of
    /// `descriptor_type`, the details to hand the caller and the one write —
    /// covering `size` bytes of `buffer` from its start — to apply to it.
    pub fn write_buffer_descriptors(
        set: u64,
        layout: u64,
        buffer: crate::handles::VkBuffer,
        size: u64,
        descriptor_type: DescriptorType,
    ) -> (r: (DescriptorSetDetails, Vec<WriteDescriptorCommand>))
        ensures
            r.0.descriptor_set@ =~= seq![set],
            r.0.layout@ =~= seq![layout],
            r.1@ =~= seq![
                WriteDescriptorCommand {
                    dst_set: set,
                    dst_binding: 0,
                    d_type: descriptor_type,
                    info: WriteInfo::Buffer(
                        DescriptorBufferInfo { buffer: buffer.buffer, offset: 0, range: size },
                    ),
                },
            ],
    {
        let mut writer = DescriptorWriter::new();
        writer.write_buffer(0, buffer, size, 0, descriptor_type);
        let writes = writer.update_set(set);
        let details = DescriptorSetDetails::new(vec![set], vec![layout]);
        proof {
            assert(writer.pending_image_writes@.len() == 0);
            assert(writer.pending_buffer_writes@[0] == (PendingBufferWrite {
                binding: 0,
                buffer_info_idx: 0,
                d_type: descriptor_type,
            }));
            assert(writer.buffer_infos@[0] == (DescriptorBufferInfo {
                buffer: buffer.buffer,
                offset: 0,
                range: size,
            }));
            assert(writes@[writer.pending_image_writes@.len() as int + 0] == (WriteDescriptorCommand {
                dst_set: set,
                dst_binding: 0,
                d_type: descriptor_type,
                info: WriteInfo::Buffer(
                    DescriptorBufferInfo { buffer: buffer.buffer, offset: 0, range: size },
                ),
            }));
            assert(writes@ =~= seq![
                WriteDescriptorCommand {
                    dst_set: set,
                    dst_binding: 0,
                    d_type: descriptor_type,
                    info: WriteInfo::Buffer(
                        DescriptorBufferInfo { buffer: buffer.buffer, offset: 0, range: size },
                    ),
                },
            ]);
        }
        (details, writes)
    }
}

/// One binding of a descriptor-set layout.
#[derive(Clone, Copy, Debug, PartialEq, Eq, Structural)]
pub struct DescriptorSetLayoutBinding {
    pub binding: u32,
    pub descriptor_type: DescriptorType,
    pub descriptor_count: u32,
    pub stage_flags: u32,
}

/// Everything the driver needs to create one native descriptor-set layout.
#[derive(Clone, Debug, PartialEq, Eq)]
pub struct LayoutCreateRequest {
    pub bindings: Vec<DescriptorSetLayoutBinding>,
    pub flags: u32,
}

/// A value-returning builder for descriptor-set layouts: it owns its binding
/// list; `build` folds the given shader stages into every binding and emits
/// the creation request.
#[derive(Debug, Clone, PartialEq, Eq)]
pub struct DescriptorLayoutBuilder {
    pub bindings: Vec<DescriptorSetLayoutBinding>,
}

impl DescriptorLayoutBuilder {
    pub fn new() -> (r: DescriptorLayoutBuilder)
        ensures
            r.bindings@ =~= Seq::<DescriptorSetLayoutBinding>::empty(),
    {
        DescriptorLayoutBuilder { bindings: Vec::new() }
    }

    /// Add one binding of one descriptor, visible to `shader_stages`.
    pub fn add_binding(&mut self, binding: u32, descriptor_type: DescriptorType, shader_stages: u32)
        ensures
            final(self).bindings@ == old(self).bindings@.push(
                DescriptorSetLayoutBinding {
                    binding,
                    descriptor_type,
                    descriptor_count: 1,
                    stage_flags: shader_stages,
                },
            ),
    {
        self.bindings.push(
            DescriptorSetLayoutBinding {
                binding,
                descriptor_type,
                descriptor_count: 1,
                stage_flags: shader_stages,
            },
        );
    }

    /// Drop every binding.
    pub fn clear(&mut self)
        ensures
            final(self).bindings@ =~= Seq::<DescriptorSetLayoutBinding>::empty(),
    {
        self.bindings.clear();
    }

    /// Fold `shader_stages` into every binding's stage flags and emit the
    /// layout-creation request over the result; the builder keeps the
    /// widened bindings.
    pub fn build(&mut self, shader_stages: u32, flags: u32) -> (r: LayoutCreateRequest)
        ensures
            r.flags == flags,
            r.bindings@ == final(self).bindings@,
            final(self).bindings@.len() == old(self).bindings@.len(),
            forall|i: int|
                0 <= i < old(self).bindings@.len() ==> final(self).bindings@[i] == (
                DescriptorSetLayoutBinding {
                    stage_flags: old(self).bindings@[i].stage_flags | shader_stages,
                    ..old(self).bindings@[i]
                }),
    {
        let ghost bindings0 = self.bindings@;
        let mut widened: Vec<DescriptorSetLayoutBinding> = Vec::new();
        let mut out: Vec<DescriptorSetLayoutBinding> = Vec::new();
        let mut k: usize = 0;
        while k < self.bindings.len()
            invariant
                self.bindings@ == bindings0,
                k <= bindings0.len(),
                widened@.len() == k,
                out@ == widened@,
                forall|i: int|
                    0 <= i < k ==> widened@[i] == (DescriptorSetLayoutBinding {
                        stage_flags: bindings0[i].stage_flags | shader_stages,
                        ..bindings0[i]
                    }),
            decreases bindings0.len() - k,
        {
            let b = self.bindings[k];
            let widened_binding = DescriptorSetLayoutBinding {
                binding: b.binding,
                descriptor_type: b.descriptor_type,
                descriptor_count: b.descriptor_count,
                stage_flags: b.stage_flags | shader_stages,
            };
            widened.push(widened_binding);
            out.push(widened_binding);
            k = k + 1;
        }
        self.bindings = widened;
        LayoutCreateRequest { bindings: out, flags }
    }
}

} // verus!
