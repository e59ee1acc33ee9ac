//! The link registry: the process-wide mapping from integer id to resource
//! handle, the id allocator that feeds it, and the batch-setup
//! orchestrator.
//!
//! The registry is the only shared mutable state of the gateway. Callers
//! guard it with one reader/writer lock (held outside the library): every
//! operation here runs under a borrow that stands for that lock, and batch
//! setup allocates its ids and inserts all its entries under one exclusive
//! borrow, so no two batches can ever be handed overlapping ids. Entries
//! are created only by batch setup, mutated only by the drive steps that
//! fill a memoized value, and destroyed only by the teardown a timer
//! expiry hands back.

use vstd::prelude::*;

use crate::api::Post;
use crate::image::Image;
use crate::promise::LazyPromise;
use crate::promise::Promise;
use crate::promise::UsageError;
use crate::query::header_line;
use crate::query::post_line;
use crate::query::Query;
use crate::query::QueryBuilder;
use crate::refresh::RefreshHandler;
use crate::refresh::Refresher;
use crate::refresh::Teardown;
use crate::refresh::Timer;
use crate::BATCH_TTL;
use crate::IMAGE_TTL;
use std::collections::HashMap;

verus! {

broadcast use vstd::std_specs::hash::group_hash_axioms;

/// The ids a single post contributes to a batch: one for the sample image
/// resource, one for its individual refresh handle.
#[derive(Clone, Copy, Debug, PartialEq, Eq, Structural)]
pub struct PostIds {
    pub post: usize,
    pub refresh: usize,
}

impl PostIds {
    /// Pair up two freshly allocated ids.
    pub fn new(ids: (usize, usize)) -> (r: Self)
        ensures
            r.post == ids.0,
            r.refresh == ids.1,
    {
        Self { post: ids.0, refresh: ids.1 }
    }
}

/// The ids a batch contributes beyond its posts: the search-map blob, the
/// composited preview, and the group refresh handle.
#[derive(Clone, Copy, Debug, PartialEq, Eq, Structural)]
pub struct HeaderIds {
    pub search_map: usize,
    pub preview: usize,
    pub refresh: usize,
}

/// A tagged resource handle, one per registered id.
pub enum Link {
    /// The batch's composited preview image, produced by an
    /// eagerly-started background computation.
    Previews(Promise<Option<Image>>),
    /// A post's sample image, fetched on first demand.
    Image(LazyPromise<Option<Image>>),
    /// The batch's frozen search-map blob.
    SearchMap(Query),
    /// The individual keepalive handle of one sample image.
    RefreshImage(Refresher),
    /// The group keepalive handle of the whole batch.
    RefreshSearch(Refresher),
}

/// Why a drive step on a registry entry did not proceed.
#[derive(Clone, Copy, Debug, PartialEq, Eq, Structural)]
pub enum DriveError {
    /// No entry is registered under the id: it is unknown or has expired.
    LookupMiss,
    /// The id's entry is not of the kind the step drives.
    WrongKind,
    /// The image computation was already claimed or already finished.
    Usage(UsageError),
}

/// What the id allocator hands out: `s` holds exactly the first `s.len()`
/// naturals that are not registered in `dom`, in ascending order. The
/// three clauses pin the sequence down completely: every id is free, the
/// ids ascend strictly, and every free id below one of them was handed out
/// earlier in the sequence — so no smaller free id is ever skipped.
#[verifier::opaque]
pub open spec fn allocates_first_free(dom: Set<usize>, s: Seq<usize>) -> bool {
    &&& (forall|i: int| 0 <= i < s.len() ==> !dom.contains(#[trigger] s[i]))
    &&& (forall|i: int, j: int|
        #![trigger s[i], s[j]]
        0 <= i < j < s.len() ==> s[i] < s[j])
    &&& (forall|i: int, n: usize|
        #![trigger s[i], dom.contains(n)]
        0 <= i < s.len() && n < s[i] && !dom.contains(n) ==> exists|k: int|
            0 <= k < i && #[trigger] s[k] == n)
}

/// The registered ids below `bound`: what the allocator's scan has had to
/// skip so far.
pub open spec fn occupied_below(dom: Set<usize>, bound: int) -> Set<usize> {
    Set::new(|n: usize| dom.contains(n) && (n as int) < bound)
}

/// The skipped ids are a subset of the registered ones, so there are at
/// most `dom.len()` of them: the pigeonhole bound that makes the
/// allocator's scan terminate.
proof fn lemma_occupied_below_len(dom: Set<usize>, bound: int)
    requires
        dom.finite(),
    ensures
        occupied_below(dom, bound).finite(),
        occupied_below(dom, bound).len() <= dom.len(),
{
    assert(occupied_below(dom, bound).subset_of(dom));
    vstd::set_lib::lemma_len_subset(occupied_below(dom, bound), dom);
}

/// A batch's ids flattened into allocation order: the two ids of each post
/// in turn, then the three header ids.
pub open spec fn post_ids_flat(post_ids: Seq<PostIds>) -> Seq<usize>
    decreases post_ids.len(),
{
    if post_ids.len() == 0 {
        Seq::empty()
    } else {
        post_ids_flat(post_ids.drop_last()) + seq![
            post_ids.last().post,
            post_ids.last().refresh,
        ]
    }
}

/// All ids of a batch, in the order the allocator handed them out.
pub open spec fn ids_flat(post_ids: Seq<PostIds>, h: HeaderIds) -> Seq<usize> {
    post_ids_flat(post_ids) + seq![h.search_map, h.preview, h.refresh]
}

/// Each post contributes exactly two consecutive ids to the flat order.
pub proof fn lemma_post_ids_flat_len(post_ids: Seq<PostIds>)
    ensures
        post_ids_flat(post_ids).len() == 2 * post_ids.len(),
    decreases post_ids.len(),
{
    if post_ids.len() > 0 {
        lemma_post_ids_flat_len(post_ids.drop_last());
    }
}

/// Where a post's two ids sit in the flat order.
pub proof fn lemma_post_ids_flat_index(post_ids: Seq<PostIds>, j: int)
    requires
        0 <= j < post_ids.len(),
    ensures
        post_ids_flat(post_ids).len() == 2 * post_ids.len(),
        post_ids_flat(post_ids)[2 * j] == post_ids[j].post,
        post_ids_flat(post_ids)[2 * j + 1] == post_ids[j].refresh,
    decreases post_ids.len(),
{
    lemma_post_ids_flat_len(post_ids);
    if j == post_ids.len() - 1 {
        lemma_post_ids_flat_len(post_ids.drop_last());
    } else {
        lemma_post_ids_flat_index(post_ids.drop_last(), j);
    }
}

/// A sequence of post id pairs read off an allocation in order flattens
/// back to that allocation's prefix.
proof fn lemma_post_ids_flat_matches(post_ids: Seq<PostIds>, ids: Seq<usize>)
    requires
        2 * post_ids.len() <= ids.len(),
        forall|j: int|
            #![trigger post_ids[j]]
            0 <= j < post_ids.len() ==> post_ids[j].post == ids[2 * j] && post_ids[j].refresh
                == ids[2 * j + 1],
    ensures
        post_ids_flat(post_ids) == ids.subrange(0, 2 * post_ids.len() as int),
    decreases post_ids.len(),
{
    if post_ids.len() == 0 {
        assert(post_ids_flat(post_ids) =~= ids.subrange(0, 0));
    } else {
        lemma_post_ids_flat_matches(post_ids.drop_last(), ids);
        lemma_post_ids_flat_len(post_ids.drop_last());
        assert(post_ids_flat(post_ids) =~= ids.subrange(0, 2 * post_ids.len() as int));
    }
}

/// Post id pairs and header ids read off an allocation in order flatten
/// back to exactly that allocation.
proof fn lemma_ids_flat_matches(post_ids: Seq<PostIds>, h: HeaderIds, ids: Seq<usize>)
    requires
        ids.len() == 2 * post_ids.len() + 3,
        forall|j: int|
            #![trigger post_ids[j]]
            0 <= j < post_ids.len() ==> post_ids[j].post == ids[2 * j] && post_ids[j].refresh
                == ids[2 * j + 1],
        h.search_map == ids[2 * post_ids.len() as int],
        h.preview == ids[2 * post_ids.len() as int + 1],
        h.refresh == ids[2 * post_ids.len() as int + 2],
    ensures
        ids_flat(post_ids, h) == ids,
{
    lemma_post_ids_flat_matches(post_ids, ids);
    lemma_post_ids_flat_len(post_ids);
    assert(ids_flat(post_ids, h) =~= ids);
}

/// The registry: a map of `Link` handles by id.
///
/// Its view is the mathematical map of its entries.
pub struct LinkMap {
    inner: HashMap<usize, Link>,
}

impl View for LinkMap {
    type V = Map<usize, Link>;

    closed spec fn view(&self) -> Map<usize, Link> {
        self.inner@
    }
}

impl LinkMap {
    /// Every stored sample image handle is a well-formed lazy cell, so a
    /// drive step may claim it.
    pub open spec fn wf(self) -> bool {
        forall|k: usize|
            #[trigger] self@.contains_key(k) ==> match self@[k] {
                Link::Image(l) => l.wf(),
                _ => true,
            }
    }

    /// An empty registry; the gateway starts with no live resources.
    pub fn new() -> (r: Self)
        ensures
            r@ == Map::<usize, Link>::empty(),
            r.wf(),
    {
        Self { inner: HashMap::new() }
    }

    /// The registry's view is a finite map: it holds what was inserted and
    /// nothing else.
    pub proof fn lemma_dom_finite(&self)
        ensures
            self@.dom().finite(),
    {
    }

    /// How many ids are currently registered.
    pub fn len(&self) -> (r: usize)
        ensures
            r == self@.dom().len(),
    {
        self.inner.len()
    }

    /// Whether an id is currently registered.
    pub fn contains_key(&self, id: usize) -> (r: bool)
        ensures
            r == self@.contains_key(id),
    {
        self.inner.contains_key(&id)
    }

    /// Look an id up: the registered handle, or nothing for an unknown or
    /// expired id. The lookup never waits on the resource's own readiness;
    /// resolving the handle's value happens afterwards, outside the
    /// registry.
    pub fn get(&self, id: usize) -> (r: Option<&Link>)
        ensures
            match r {
                Some(l) => self@.contains_key(id) && *l == self@[id],
                None => !self@.contains_key(id),
            },
    {
        self.inner.get(&id)
    }

    /// Claim the sample image computation registered under `id`, on behalf
    /// of the reader that found it unstarted. On success the image's lazy
    /// cell moves to running and the claimant must fetch the image and
    /// hand it in through [`LinkMap::finish_image`]. Nothing but the
    /// claimed entry changes, and an unknown id, an entry of another kind,
    /// or a computation already claimed or finished leaves the registry
    /// exactly as it was.
    pub fn start_image(&mut self, id: usize) -> (r: Result<(), DriveError>)
        requires
            old(self).wf(),
        ensures
            final(self).wf(),
            final(self)@.dom() == old(self)@.dom(),
            forall|k: usize|
                #[trigger] old(self)@.contains_key(k) && k != id ==> final(self)@[k] == old(self)@[k],
            match r {
                Ok(_) => old(self)@.contains_key(id) && (old(self)@[id] matches Link::Image(l)
                    && l.is_unstarted() && (final(self)@[id] matches Link::Image(l2) && l2.wf()
                    && l2.is_running() && l2.times_started() == l.times_started() + 1)),
                Err(e) => final(self)@ == old(self)@ && match e {
                    DriveError::LookupMiss => !old(self)@.contains_key(id),
                    DriveError::WrongKind => old(self)@.contains_key(id) && !(old(self)@[id] is Image),
                    DriveError::Usage(u) => old(self)@.contains_key(id) && (old(self)@[id] matches Link::Image(l) && ((u == UsageError::AlreadyRunning
                        && l.is_running()) || (u == UsageError::AlreadyDone && l.is_done()))),
                },
            },
    {
        match self.inner.remove(&id) {
            None => Err(DriveError::LookupMiss),
            Some(Link::Image(mut l)) => {
                let ghost l0 = l;
                let res = l.begin();
                proof {
                    crate::promise::lemma_lazy_states(l0);
                }
                self.inner.insert(id, Link::Image(l));
                match res {
                    Ok(_) => {
                        proof {
                            assert(self@.dom() =~= old(self)@.dom());
                        }
                        Ok(())
                    },
                    Err(u) => {
                        proof {
                            assert(self@ =~= old(self)@);
                        }
                        Err(DriveError::Usage(u))
                    },
                }
            },
            Some(other) => {
                self.inner.insert(id, other);
                proof {
                    assert(self@ =~= old(self)@);
                }
                Err(DriveError::WrongKind)
            },
        }
    }

    /// Hand in the result of a claimed sample image computation. The lazy
    /// cell under `id` becomes done with `img` and every later read
    /// observes that value. If the entry has meanwhile expired, or is not
    /// a running image computation, the result is discarded and the
    /// registry is untouched — a computation may outlive its entry, and
    /// its late result is simply dropped.
    pub fn finish_image(&mut self, id: usize, img: Option<Image>) -> (r: bool)
        requires
            old(self).wf(),
        ensures
            final(self).wf(),
            r == (old(self)@.contains_key(id) && (old(self)@[id] matches Link::Image(l)
                && l.is_running())),
            r ==> final(self)@.dom() == old(self)@.dom() && (forall|k: usize|
                #[trigger] old(self)@.contains_key(k) && k != id ==> final(self)@[k] == old(self)@[k]) && (old(self)@[id] matches Link::Image(l) ==> (final(self)@[id] matches Link::Image(l2) && l2.wf() && l2.is_done() && l2.value_of() == img
                && l2.times_started() == l.times_started())),
            !r ==> final(self)@ == old(self)@,
    {
        match self.inner.remove(&id) {
            None => false,
            Some(Link::Image(mut l)) => {
                if l.in_progress() {
                    l.complete(img);
                    self.inner.insert(id, Link::Image(l));
                    proof {
                        assert(self@.dom() =~= old(self)@.dom());
                    }
                    true
                } else {
                    self.inner.insert(id, Link::Image(l));
                    proof {
                        assert(self@ =~= old(self)@);
                    }
                    false
                }
            },
            Some(other) => {
                self.inner.insert(id, other);
                proof {
                    assert(self@ =~= old(self)@);
                }
                false
            },
        }
    }

    /// Deliver the batch's composited preview under `id`. The preview's
    /// single-assignment cell is filled with `img` — absent on a failed
    /// composition, which clients are served as a placeholder. If the
    /// entry has expired, or its cell is already filled, or the id holds
    /// another kind of entry, the delivery is discarded and the registry
    /// is untouched.
    pub fn fulfill_preview(&mut self, id: usize, img: Option<Image>) -> (r: bool)
        requires
            old(self).wf(),
        ensures
            final(self).wf(),
            r == (old(self)@.contains_key(id) && (old(self)@[id] matches Link::Previews(p)
                && p@ is None)),
            r ==> final(self)@.dom() == old(self)@.dom() && (forall|k: usize|
                #[trigger] old(self)@.contains_key(k) && k != id ==> final(self)@[k] == old(self)@[k]) && (final(self)@[id] matches Link::Previews(p2) && p2@ == Some(img)),
            !r ==> final(self)@ == old(self)@,
    {
        match self.inner.remove(&id) {
            None => false,
            Some(Link::Previews(mut p)) => {
                if p.get().is_none() {
                    p.fulfill(img);
                    self.inner.insert(id, Link::Previews(p));
                    proof {
                        assert(self@.dom() =~= old(self)@.dom());
                    }
                    true
                } else {
                    self.inner.insert(id, Link::Previews(p));
                    proof {
                        assert(self@ =~= old(self)@);
                    }
                    false
                }
            },
            Some(other) => {
                self.inner.insert(id, other);
                proof {
                    assert(self@ =~= old(self)@);
                }
                false
            },
        }
    }

    /// Register a post's sample image handle and its individual refresh
    /// handle under the post's two ids.
    pub fn insert_image(&mut self, ids: PostIds, res: (LazyPromise<Option<Image>>, Refresher))
        requires
            old(self).wf(),
            res.0.wf(),
        ensures
            final(self)@ == old(self)@.insert(ids.post, Link::Image(res.0)).insert(
                ids.refresh,
                Link::RefreshImage(res.1),
            ),
            final(self).wf(),
    {
        self.inner.insert(ids.post, Link::Image(res.0));
        self.inner.insert(ids.refresh, Link::RefreshImage(res.1));
    }

    /// Remove a post's sample image entries; absent ids are silently
    /// skipped. Run by the expiry of the image's timer.
    pub fn remove_image(&mut self, ids: PostIds)
        requires
            old(self).wf(),
        ensures
            final(self)@ == old(self)@.remove(ids.post).remove(ids.refresh),
            final(self).wf(),
    {
        self.inner.remove(&ids.post);
        self.inner.remove(&ids.refresh);
    }

    /// Register a batch's preview handle under its preview id.
    pub fn insert_preview(&mut self, ids: HeaderIds, res: Promise<Option<Image>>)
        requires
            old(self).wf(),
        ensures
            final(self)@ == old(self)@.insert(ids.preview, Link::Previews(res)),
            final(self).wf(),
    {
        self.inner.insert(ids.preview, Link::Previews(res));
    }

    /// Remove a batch's preview entry; an absent id is silently skipped.
    pub fn remove_preview(&mut self, ids: HeaderIds)
        requires
            old(self).wf(),
        ensures
            final(self)@ == old(self)@.remove(ids.preview),
            final(self).wf(),
    {
        self.inner.remove(&ids.preview);
    }

    /// Register a batch's frozen blob and its group refresh handle under
    /// the batch's header ids.
    pub fn insert_query(&mut self, ids: HeaderIds, res: (Query, Refresher))
        requires
            old(self).wf(),
        ensures
            final(self)@ == old(self)@.insert(ids.search_map, Link::SearchMap(res.0)).insert(
                ids.refresh,
                Link::RefreshSearch(res.1),
            ),
            final(self).wf(),
    {
        self.inner.insert(ids.search_map, Link::SearchMap(res.0));
        self.inner.insert(ids.refresh, Link::RefreshSearch(res.1));
    }

    /// Remove a batch's blob and group refresh entries; absent ids are
    /// silently skipped. Run by the expiry of the batch's timer.
    pub fn remove_query(&mut self, ids: HeaderIds)
        requires
            old(self).wf(),
        ensures
            final(self)@ == old(self)@.remove(ids.search_map).remove(ids.refresh),
            final(self).wf(),
    {
        self.inner.remove(&ids.search_map);
        self.inner.remove(&ids.refresh);
    }

    /// Pick `count` unused ids.
    ///
    /// The allocator scans the naturals from zero upwards, skips every id
    /// that is currently registered, and hands back the first `count` free
    /// ones in ascending order — exactly the ids [`allocates_first_free`]
    /// describes. Ids are recycled: an id whose entry has been removed is
    /// free again. The caller must hold the registry exclusively from this
    /// call until the returned ids are all inserted, or two batches could
    /// be handed overlapping ids.
    pub fn allocate(&self, count: usize) -> (r: Vec<usize>)
        requires
            self@.dom().len() + count <= usize::MAX,
        ensures
            r@.len() == count,
            allocates_first_free(self@.dom(), r@),
    {
        let ghost dom = self@.dom();
        proof {
            self.lemma_dom_finite();
        }
        let mut found: Vec<usize> = Vec::new();
        let mut next: usize = 0;
        proof {
            assert(occupied_below(dom, 0) =~= Set::<usize>::empty());
        }
        while found.len() < count
            invariant
                dom == self@.dom(),
                dom.finite(),
                dom.len() + count <= usize::MAX,
                found@.len() <= count,
                next == found@.len() + occupied_below(dom, next as int).len(),
                occupied_below(dom, next as int).finite(),
                occupied_below(dom, next as int).len() <= dom.len(),
                forall|i: int| 0 <= i < found@.len() ==> #[trigger] found@[i] < next,
                forall|i: int| 0 <= i < found@.len() ==> !dom.contains(#[trigger] found@[i]),
                forall|i: int, j: int|
                    #![trigger found@[i], found@[j]]
                    0 <= i < j < found@.len() ==> found@[i] < found@[j],
                forall|n: usize| n < next && !dom.contains(n) ==> found@.contains(n),
            decreases count + dom.len() - next,
        {
            let ghost found0 = found@;
            if !self.contains_key(next) {
                found.push(next);
            }
            proof {
                let occ = occupied_below(dom, next as int);
                let occ2 = occupied_below(dom, next as int + 1);
                lemma_occupied_below_len(dom, next as int + 1);
                if dom.contains(next) {
                    assert(!occ.contains(next));
                    assert(occ2 =~= occ.insert(next));
                    assert(occ2.len() == occ.len() + 1);
                } else {
                    assert(occ2 =~= occ);
                }
                assert forall|n: usize| n < next + 1 && !dom.contains(n) implies found@.contains(
                    n,
                ) by {
                    if n < next {
                        assert(found0.contains(n));
                        let k = choose|k: int| 0 <= k < found0.len() && found0[k] == n;
                        assert(found@[k] == n);
                    } else {
                        assert(found@.last() == next);
                    }
                }
            }
            next = next + 1;
        }
        proof {
            reveal(allocates_first_free);
            assert forall|i: int, n: usize|
                #![trigger found@[i], dom.contains(n)]
                0 <= i < found@.len() && n < found@[i] && !dom.contains(n) implies exists|k: int|
                0 <= k < i && #[trigger] found@[k] == n by {
                assert(found@.contains(n));
                let k = choose|k: int| 0 <= k < found@.len() && found@[k] == n;
                assert(found@[k] == n);
                assert(k < i) by {
                    if k >= i {
                        assert(found@[i] <= found@[k]);
                    }
                }
            }
        }
        found
    }

    /// Pick the fresh ids for a batch of `n_posts` posts: two per post,
    /// then the three header ids, all taken from the front of the free id
    /// space in ascending order. Like [`LinkMap::allocate`], this must run
    /// under the registry's exclusive lock, and the ids must be inserted
    /// before the lock is released.
    pub fn get_free_ids(&self, n_posts: usize) -> (r: (Vec<PostIds>, HeaderIds))
        requires
            n_posts <= (usize::MAX - 3) / 2,
            self@.dom().len() + 2 * n_posts + 3 <= usize::MAX,
        ensures
            r.0@.len() == n_posts,
            allocates_first_free(self@.dom(), ids_flat(r.0@, r.1)),
    {
        let count = 2 * n_posts + 3;
        let ids = self.allocate(count);
        let mut post_ids: Vec<PostIds> = Vec::new();
        let mut i: usize = 0;
        while i < n_posts
            invariant
                ids@.len() == 2 * n_posts + 3,
                n_posts <= (usize::MAX - 3) / 2,
                i <= n_posts,
                post_ids@.len() == i,
                forall|j: int|
                    #![trigger post_ids@[j]]
                    0 <= j < i ==> post_ids@[j].post == ids@[2 * j] && post_ids@[j].refresh
                        == ids@[2 * j + 1],
            decreases n_posts - i,
        {
            let p = PostIds::new((ids[2 * i], ids[2 * i + 1]));
            post_ids.push(p);
            i = i + 1;
        }
        let h = HeaderIds {
            search_map: ids[2 * n_posts],
            preview: ids[2 * n_posts + 1],
            refresh: ids[2 * n_posts + 2],
        };
        proof {
            lemma_ids_flat_matches(post_ids@, h, ids@);
        }
        (post_ids, h)
    }

    /// One step of batch setup: register a post's two entries under two
    /// fresh, distinct ids, growing the registry by exactly two.
    fn register_post(&mut self, ids: PostIds, res: (LazyPromise<Option<Image>>, Refresher))
        requires
            old(self).wf(),
            res.0.wf(),
            !old(self)@.contains_key(ids.post),
            !old(self)@.contains_key(ids.refresh),
            ids.post != ids.refresh,
        ensures
            final(self).wf(),
            final(self)@ == old(self)@.insert(ids.post, Link::Image(res.0)).insert(
                ids.refresh,
                Link::RefreshImage(res.1),
            ),
            final(self)@.dom().len() == old(self)@.dom().len() + 2,
    {
        proof {
            self.lemma_dom_finite();
        }
        self.insert_image(ids, res);
        proof {
            assert(self@.dom() =~= old(self)@.dom().insert(ids.post).insert(ids.refresh));
        }
    }

    /// The closing step of batch setup: register the batch's preview,
    /// blob and group refresh handle under three fresh, distinct ids,
    /// growing the registry by exactly three.
    fn register_header(
        &mut self,
        ids: HeaderIds,
        preview: Promise<Option<Image>>,
        res: (Query, Refresher),
    )
        requires
            old(self).wf(),
            !old(self)@.contains_key(ids.search_map),
            !old(self)@.contains_key(ids.preview),
            !old(self)@.contains_key(ids.refresh),
            ids.search_map != ids.preview,
            ids.search_map != ids.refresh,
            ids.preview != ids.refresh,
        ensures
            final(self).wf(),
            final(self)@ == old(self)@.insert(ids.preview, Link::Previews(preview)).insert(
                ids.search_map,
                Link::SearchMap(res.0),
            ).insert(ids.refresh, Link::RefreshSearch(res.1)),
            final(self)@.dom().len() == old(self)@.dom().len() + 3,
    {
        proof {
            self.lemma_dom_finite();
        }
        self.insert_preview(ids, preview);
        self.insert_query(ids, res);
        proof {
            assert(self@.dom() =~= old(self)@.dom().insert(ids.preview).insert(
                ids.search_map,
            ).insert(ids.refresh));
        }
    }

    /// Run one teardown handed back by a timer expiry: remove exactly the
    /// expired resource's ids from the registry. Removal is idempotent —
    /// an id already gone is a silent no-op — and never an error.
    pub fn apply_teardown(&mut self, t: Teardown)
        requires
            old(self).wf(),
        ensures
            final(self).wf(),
            match t {
                Teardown::Image(ids) => final(self)@ == old(self)@.remove(ids.post).remove(
                    ids.refresh,
                ),
                Teardown::Batch(h) => final(self)@ == old(self)@.remove(h.search_map).remove(
                    h.refresh,
                ).remove(h.preview),
            },
    {
        match t {
            Teardown::Image(ids) => {
                self.remove_image(ids);
            },
            Teardown::Batch(h) => {
                self.remove_query(h);
                self.remove_preview(h);
            },
        }
    }
}

impl Default for LinkMap {
    /// An empty registry, as [`LinkMap::new`] builds it.
    fn default() -> (r: Self)
        ensures
            r@ == Map::<usize, Link>::empty(),
            r.wf(),
    {
        Self::new()
    }
}

/// The whole search-map blob of a batch: the header line, then one line
/// per post, in input order, never reordered or deduplicated.
pub open spec fn blob_chars(h: HeaderIds, posts: Seq<Post>, ids: Seq<PostIds>) -> Seq<char>
    recommends
        posts.len() == ids.len(),
    decreases posts.len(),
{
    if posts.len() == 0 {
        header_line(h.search_map, h.preview, h.refresh)
    } else {
        blob_chars(h, posts.drop_last(), ids.drop_last()) + post_line(
            posts.last(),
            ids.last().post,
            ids.last().refresh,
        )
    }
}

/// An id a batch setup is about to register is registered nowhere yet:
/// not in the registry the batch started from, and not among the ids the
/// same batch registered before it.
proof fn lemma_flat_fresh(
    dom0: Set<usize>,
    flat: Seq<usize>,
    post_ids: Seq<PostIds>,
    m0: Map<usize, Link>,
    m: Map<usize, Link>,
    upto: int,
    idx: int,
)
    requires
        allocates_first_free(dom0, flat),
        dom0 == m0.dom(),
        forall|j: int|
            #![trigger post_ids[j]]
            0 <= j < post_ids.len() ==> post_ids[j].post == flat[2 * j] && post_ids[j].refresh
                == flat[2 * j + 1],
        0 <= 2 * upto <= idx < flat.len(),
        upto <= post_ids.len(),
        forall|k: usize| #[trigger]
            m.contains_key(k) ==> m0.contains_key(k) || exists|j: int|
                #![auto]
                0 <= j < upto && (k == post_ids[j].post || k == post_ids[j].refresh),
    ensures
        !m.contains_key(flat[idx]),
{
    reveal(allocates_first_free);
    if m.contains_key(flat[idx]) {
        if m0.contains_key(flat[idx]) {
            assert(dom0.contains(flat[idx]));
            assert(!dom0.contains(flat[idx]));
        } else {
            let j = choose|j: int|
                #![auto]
                0 <= j < upto && (flat[idx] == post_ids[j].post || flat[idx]
                    == post_ids[j].refresh);
            assert(flat[2 * j] < flat[idx]);
            assert(flat[2 * j + 1] < flat[idx]);
        }
    }
}

/// Ids earlier in an allocation are strictly smaller.
proof fn lemma_flat_order(dom0: Set<usize>, flat: Seq<usize>, a: int, b: int)
    requires
        allocates_first_free(dom0, flat),
        0 <= a < b < flat.len(),
    ensures
        flat[a] < flat[b],
{
    reveal(allocates_first_free);
}

/// Extending a blob by one post appends exactly that post's line.
proof fn lemma_blob_chars_step(h: HeaderIds, posts: Seq<Post>, ids: Seq<PostIds>, i: int)
    requires
        0 <= i < posts.len(),
        i < ids.len(),
    ensures
        blob_chars(h, posts.subrange(0, i + 1), ids.subrange(0, i + 1)) == blob_chars(
            h,
            posts.subrange(0, i),
            ids.subrange(0, i),
        ) + post_line(posts[i], ids[i].post, ids[i].refresh),
{
    assert(posts.subrange(0, i + 1).drop_last() =~= posts.subrange(0, i));
    assert(ids.subrange(0, i + 1).drop_last() =~= ids.subrange(0, i));
    assert(posts.subrange(0, i + 1).last() == posts[i]);
    assert(ids.subrange(0, i + 1).last() == ids[i]);
}

/// Everything one batch setup produces: the frozen blob, the armed
/// keepalive timers, and the ids that were registered. The record is
/// ephemeral — it exists so the caller can serve the blob, run the
/// timers, and apply their teardowns; it is not stored anywhere.
pub struct Batch {
    /// The frozen search-map blob, also registered under
    /// `header_ids.search_map`.
    pub search_map: Query,
    /// The batch's keepalive timers: one per post's sample image, then
    /// one for the batch header.
    pub handler: RefreshHandler,
    /// The two registered ids of each post, in input order.
    pub post_ids: Vec<PostIds>,
    /// The three registered header ids.
    pub header_ids: HeaderIds,
}

/// Set a batch of resources up from one search response.
///
/// Under the registry's exclusive lock — here, the exclusive borrow —
/// this allocates the batch's `2 * N + 3` ids from the front of the free
/// id space, builds the frozen blob, registers an unstarted sample image
/// and its individual refresh handle for every post, registers the
/// batch's unfilled preview, the blob, and the group refresh handle, and
/// arms one keepalive timer per resource group. The registry gains
/// exactly the new entries: nothing already registered is touched, and
/// every handed-out id is fresh.
///
/// The caller then runs the returned timers, fills the preview through
/// [`LinkMap::fulfill_preview`], and lets readers drive the images
/// through [`LinkMap::start_image`] and [`LinkMap::finish_image`].
#[verifier::rlimit(100)]
pub fn setup_links(map: &mut LinkMap, posts: &Vec<Post>) -> (r: Batch)
    requires
        old(map).wf(),
        posts@.len() <= (usize::MAX - 3) / 2,
        old(map)@.dom().len() + 2 * posts@.len() + 3 <= usize::MAX,
    ensures
        final(map).wf(),
        r.post_ids@.len() == posts@.len(),
        allocates_first_free(old(map)@.dom(), ids_flat(r.post_ids@, r.header_ids)),
        r.search_map@ == blob_chars(r.header_ids, posts@, r.post_ids@),
        forall|k: usize| #[trigger]
            old(map)@.contains_key(k) ==> final(map)@.contains_key(k) && final(map)@[k] == old(map)@[k],
        forall|j: int|
            #![trigger r.post_ids@[j]]
            0 <= j < posts@.len() ==> final(map)@.contains_key(r.post_ids@[j].post) && (final(map)@[r.post_ids@[j].post] matches Link::Image(l) && l.wf() && l.is_unstarted()),
        forall|j: int|
            #![trigger r.post_ids@[j]]
            0 <= j < posts@.len() ==> final(map)@.contains_key(r.post_ids@[j].refresh) && final(map)@[r.post_ids@[j].refresh] == Link::RefreshImage(Refresher::One(j as usize)),
        final(map)@.contains_key(r.header_ids.preview),
        final(map)@[r.header_ids.preview] matches Link::Previews(p) && p@ is None,
        final(map)@.contains_key(r.header_ids.search_map),
        final(map)@[r.header_ids.search_map] matches Link::SearchMap(q) && q@ == r.search_map@,
        final(map)@.contains_key(r.header_ids.refresh),
        final(map)@[r.header_ids.refresh] == Link::RefreshSearch(Refresher::Many),
        final(map)@.dom().len() == old(map)@.dom().len() + 2 * posts@.len() + 3,
        forall|k: usize| #[trigger]
            final(map)@.contains_key(k) ==> old(map)@.contains_key(k) || (exists|j: int|
                #![auto]
                0 <= j < posts@.len() && (k == r.post_ids@[j].post || k == r.post_ids@[j].refresh))
                || k == r.header_ids.search_map || k == r.header_ids.preview || k
                == r.header_ids.refresh,
        r.handler.timers@.len() == posts@.len() + 1,
        forall|j: int|
            #![trigger r.handler.timers@[j]]
            0 <= j < posts@.len() ==> r.handler.timers@[j] == (Timer {
                duration: IMAGE_TTL,
                remaining: IMAGE_TTL,
                alive: true,
                local: true,
                teardown: Teardown::Image(r.post_ids@[j]),
            }),
        r.handler.timers@[posts@.len() as int] == (Timer {
            duration: BATCH_TTL,
            remaining: BATCH_TTL,
            alive: true,
            local: false,
            teardown: Teardown::Batch(r.header_ids),
        }),
{
    let n = posts.len();
    let (post_ids, header_ids) = map.get_free_ids(n);
    let ghost flat = ids_flat(post_ids@, header_ids);
    let ghost dom0 = map@.dom();
    proof {
        map.lemma_dom_finite();
        lemma_post_ids_flat_len(post_ids@);
        assert forall|j: int| #![trigger post_ids@[j]] 0 <= j < n implies post_ids@[j].post
            == flat[2 * j] && post_ids@[j].refresh == flat[2 * j + 1] by {
            lemma_post_ids_flat_index(post_ids@, j);
        }
        assert(flat[2 * n as int] == header_ids.search_map);
        assert(flat[2 * n as int + 1] == header_ids.preview);
        assert(flat[2 * n as int + 2] == header_ids.refresh);
    }
    let mut handler = RefreshHandler::new();
    let mut builder = QueryBuilder::new();
    builder.push_header(header_ids.search_map, header_ids.preview, header_ids.refresh);
    proof {
        assert(builder@ =~= blob_chars(
            header_ids,
            posts@.subrange(0, 0),
            post_ids@.subrange(0, 0),
        ));
    }
    let mut i: usize = 0;
    while i < n
        invariant
            n == posts@.len(),
            post_ids@.len() == n,
            i <= n,
            map.wf(),
            allocates_first_free(dom0, flat),
            flat == ids_flat(post_ids@, header_ids),
            flat.len() == 2 * n + 3,
            forall|j: int|
                #![trigger post_ids@[j]]
                0 <= j < n ==> post_ids@[j].post == flat[2 * j] && post_ids@[j].refresh == flat[2
                    * j + 1],
            header_ids.search_map == flat[2 * n as int],
            header_ids.preview == flat[2 * n as int + 1],
            header_ids.refresh == flat[2 * n as int + 2],
            dom0 == old(map)@.dom(),
            dom0.finite(),
            dom0.len() + 2 * n + 3 <= usize::MAX,
            builder@ == blob_chars(
                header_ids,
                posts@.subrange(0, i as int),
                post_ids@.subrange(0, i as int),
            ),
            handler.timers@.len() == i,
            forall|j: int|
                #![trigger handler.timers@[j]]
                0 <= j < i ==> handler.timers@[j] == (Timer {
                    duration: IMAGE_TTL,
                    remaining: IMAGE_TTL,
                    alive: true,
                    local: true,
                    teardown: Teardown::Image(post_ids@[j]),
                }),
            forall|k: usize| #[trigger]
                old(map)@.contains_key(k) ==> map@.contains_key(k) && map@[k] == old(map)@[k],
            forall|j: int|
                #![trigger post_ids@[j]]
                0 <= j < i ==> map@.contains_key(post_ids@[j].post) && (map@[post_ids@[j].post]
                    matches Link::Image(l) && l.wf() && l.is_unstarted()),
            forall|j: int|
                #![trigger post_ids@[j]]
                0 <= j < i ==> map@.contains_key(post_ids@[j].refresh) && map@[post_ids@[j].refresh]
                    == Link::RefreshImage(Refresher::One(j as usize)),
            forall|k: usize| #[trigger]
                map@.contains_key(k) ==> old(map)@.contains_key(k) || exists|j: int|
                    #![auto]
                    0 <= j < i && (k == post_ids@[j].post || k == post_ids@[j].refresh),
            map@.dom().len() == dom0.len() + 2 * i,
        decreases n - i,
    {
        let ids = post_ids[i];
        builder.push_post(&posts[i], (ids.post, ids.refresh));
        proof {
            lemma_blob_chars_step(header_ids, posts@, post_ids@, i as int);
        }
        let refresher = handler.attach_with_local(IMAGE_TTL, Teardown::Image(ids));
        let image = LazyPromise::new();
        let ghost mpre = map@;
        proof {
            lemma_flat_fresh(dom0, flat, post_ids@, old(map)@, mpre, i as int, 2 * i as int);
            lemma_flat_fresh(dom0, flat, post_ids@, old(map)@, mpre, i as int, 2 * i as int + 1);
            lemma_flat_order(dom0, flat, 2 * i as int, 2 * i as int + 1);
        }
        map.register_post(ids, (image, refresher));
        proof {
            assert forall|k: usize| #[trigger] map@.contains_key(k) implies old(map)@.contains_key(
                k,
            ) || exists|j: int|
                #![auto]
                0 <= j < i + 1 && (k == post_ids@[j].post || k == post_ids@[j].refresh) by {
                if k == ids.post || k == ids.refresh {
                    let ghost ii = i as int;
                    assert(0 <= ii < ii + 1 && (k == post_ids@[ii].post || k
                        == post_ids@[ii].refresh));
                } else {
                    assert(mpre.contains_key(k));
                }
            }
        }
        i = i + 1;
    }
    proof {
        assert(posts@.subrange(0, n as int) =~= posts@);
        assert(post_ids@.subrange(0, n as int) =~= post_ids@);
    }
    let search_map = builder.into_query();
    let preview = Promise::new();
    handler.attach(BATCH_TTL, Teardown::Batch(header_ids));
    let ghost m1 = map@;
    proof {
        lemma_flat_fresh(dom0, flat, post_ids@, old(map)@, m1, n as int, 2 * n as int);
        lemma_flat_fresh(dom0, flat, post_ids@, old(map)@, m1, n as int, 2 * n as int + 1);
        lemma_flat_fresh(dom0, flat, post_ids@, old(map)@, m1, n as int, 2 * n as int + 2);
        lemma_flat_order(dom0, flat, 2 * n as int, 2 * n as int + 1);
        lemma_flat_order(dom0, flat, 2 * n as int, 2 * n as int + 2);
        lemma_flat_order(dom0, flat, 2 * n as int + 1, 2 * n as int + 2);
    }
    map.register_header(header_ids, preview, (search_map.clone(), handler.into_refresher()));
    Batch { search_map, handler, post_ids, header_ids }
}

/// Law: expiry is exact. After a resource's timer has run out with no
/// pulse and the teardown it returned has been applied, a lookup of any
/// of the resource's ids misses, and every other entry is still
/// registered, unchanged — so a lookup strictly before the expiry still
/// succeeds, by [`LinkMap::get`]'s contract on the untouched registry.
pub proof fn lemma_expiry_lookup(before: Map<usize, Link>, after: Map<usize, Link>, t: Teardown)
    requires
        match t {
            Teardown::Image(ids) => after == before.remove(ids.post).remove(ids.refresh),
            Teardown::Batch(h) => after == before.remove(h.search_map).remove(h.refresh).remove(
                h.preview,
            ),
        },
    ensures
        match t {
            Teardown::Image(ids) => !after.contains_key(ids.post) && !after.contains_key(
                ids.refresh,
            ) && forall|k: usize|
                #![auto]
                before.contains_key(k) && k != ids.post && k != ids.refresh
                    ==> after.contains_key(k) && after[k] == before[k],
            Teardown::Batch(h) => !after.contains_key(h.search_map) && !after.contains_key(
                h.preview,
            ) && !after.contains_key(h.refresh) && forall|k: usize|
                #![auto]
                before.contains_key(k) && k != h.search_map && k != h.preview && k != h.refresh
                    ==> after.contains_key(k) && after[k] == before[k],
        },
{
}

/// The ids a finished batch setup handed out are all registered, as
/// [`setup_links`] ensures entry by entry; this restates that fact over
/// the flat id sequence.
pub proof fn lemma_batch_ids_live(m: Map<usize, Link>, post_ids: Seq<PostIds>, h: HeaderIds)
    requires
        forall|j: int|
            #![trigger post_ids[j]]
            0 <= j < post_ids.len() ==> m.contains_key(post_ids[j].post) && m.contains_key(
                post_ids[j].refresh,
            ),
        m.contains_key(h.search_map),
        m.contains_key(h.preview),
        m.contains_key(h.refresh),
    ensures
        forall|i: int|
            0 <= i < ids_flat(post_ids, h).len() ==> m.dom().contains(
                #[trigger] ids_flat(post_ids, h)[i],
            ),
{
    lemma_post_ids_flat_len(post_ids);
    assert forall|i: int| 0 <= i < ids_flat(post_ids, h).len() implies m.dom().contains(
        #[trigger] ids_flat(post_ids, h)[i],
    ) by {
        if i < 2 * post_ids.len() {
            let j = i / 2;
            lemma_post_ids_flat_index(post_ids, j);
            if i % 2 == 0 {
                assert(i == 2 * j);
                assert(ids_flat(post_ids, h)[i] == post_ids[j].post);
            } else {
                assert(i == 2 * j + 1);
                assert(ids_flat(post_ids, h)[i] == post_ids[j].refresh);
            }
        }
    }
}

/// Law: what an allocation promises, unpacked: every handed-out id is
/// absent from the registry it was allocated against, and the ids are
/// pairwise distinct.
pub proof fn lemma_allocation_fresh_and_distinct(dom: Set<usize>, s: Seq<usize>)
    requires
        allocates_first_free(dom, s),
    ensures
        forall|i: int| 0 <= i < s.len() ==> !dom.contains(#[trigger] s[i]),
        forall|i: int, j: int|
            #![trigger s[i], s[j]]
            0 <= i < j < s.len() ==> s[i] < s[j],
{
    reveal(allocates_first_free);
}

/// Law: two batch setups never receive an id in common. Setups serialize
/// on the registry's exclusive lock, so of any two, one runs against a
/// registry that already holds every id of the other; its allocation
/// returns only unregistered ids.
pub proof fn lemma_batches_share_no_id(dom1: Set<usize>, ids0: Seq<usize>, ids1: Seq<usize>)
    requires
        forall|i: int| 0 <= i < ids0.len() ==> dom1.contains(#[trigger] ids0[i]),
        allocates_first_free(dom1, ids1),
    ensures
        forall|i: int, j: int|
            #![trigger ids0[i], ids1[j]]
            0 <= i < ids0.len() && 0 <= j < ids1.len() ==> ids0[i] != ids1[j],
{
    reveal(allocates_first_free);
}

} // verus!
