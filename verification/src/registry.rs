//! The registry of running chain workers, keyed by chain identity.
//!
//! The registry performs the check-and-insert that keeps worker creation
//! deduplicated: looking up an identity and inserting the new worker happen
//! in one call, so two concurrent discoveries of the same chain can never
//! both register a worker. The caller serializes access to the registry (one
//! mutual-exclusion guard around each call); this module proves what each
//! call does to the registry's content.
//!
//! A spawn that fails before registering — the remote chain unreachable, the
//! identity rejected by the connection layer — leaves no entry behind, so a
//! later discovery of the same identity starts fresh: a failed attempt never
//! blacklists a chain.

use crate::cache::CachedState;
use crate::models::leaderboard::Leaderboard;
use crate::models::match_history::MatchHistory;
use crate::models::tournament::{Tournament, TournamentParticipant};
use crate::store::KeyedStore;
use vstd::prelude::*;

verus! {

/// Response shape of the tournament-chains discovery query.
pub struct TournamentChainsResponse {
    pub data: TournamentChains,
}

/// Payload of [`TournamentChainsResponse`]: the identities of the chains the
/// parent chain knows of.
pub struct TournamentChains {
    pub tournament_chains: Vec<String>,
}

/// A running instance of a chain: its identity and the per-chain cache its
/// worker diffs against. The connection handles live with the caller; the
/// registry owns the state the engine reasons about.
pub struct RunningChain {
    pub chain_id: String,
    pub cache: CachedState,
}

/// Whether a worker is freshly constructed for the given identity: it
/// carries that identity and an empty cache.
pub open spec fn fresh_worker(w: RunningChain, id: Seq<char>) -> bool {
    &&& w.chain_id@ == id
    &&& w.cache.count == None::<u64>
    &&& w.cache.leaderboard == None::<Vec<Leaderboard>>
    &&& w.cache.matches == None::<MatchHistory>
    &&& w.cache.tournaments@ == Map::<Seq<char>, Tournament>::empty()
    &&& w.cache.participants@ == Map::<Seq<char>, KeyedStore<TournamentParticipant>>::empty()
}

impl RunningChain {
    /// A fresh worker for the given chain: nothing synchronized yet.
    pub fn new(chain_id: String) -> (r: RunningChain)
        ensures
            fresh_worker(r, chain_id@),
    {
        RunningChain { chain_id, cache: CachedState::new() }
    }
}

/// What spawning does to the registry's content: nothing when the identity
/// is already registered, one insertion otherwise.
pub open spec fn spec_spawn(
    m: Map<Seq<char>, RunningChain>,
    id: Seq<char>,
    w: RunningChain,
) -> Map<Seq<char>, RunningChain> {
    if m.contains_key(id) {
        m
    } else {
        m.insert(id, w)
    }
}

/// Idempotent spawn: however often spawning is repeated for one identity,
/// the registry after the first spawn never changes again, exactly one
/// worker exists for the identity, and every repetition observes that same
/// worker.
pub proof fn lemma_spawn_idempotent(
    m: Map<Seq<char>, RunningChain>,
    id: Seq<char>,
    w1: RunningChain,
    w2: RunningChain,
)
    ensures
        spec_spawn(spec_spawn(m, id, w1), id, w2) == spec_spawn(m, id, w1),
        spec_spawn(m, id, w1).contains_key(id),
        !m.contains_key(id) ==> spec_spawn(m, id, w1)[id] == w1,
        m.contains_key(id) ==> spec_spawn(m, id, w1) == m && spec_spawn(m, id, w1)[id] == m[id],
        m.dom().finite() && !m.contains_key(id) ==> spec_spawn(m, id, w1).len() == m.len() + 1,
        forall|k: Seq<char>|
            k != id ==> (#[trigger] spec_spawn(m, id, w1).contains_key(k) <==> m.contains_key(k)),
        forall|k: Seq<char>|
            k != id && m.contains_key(k) ==> #[trigger] spec_spawn(m, id, w1)[k] == m[k],
{
    if !m.contains_key(id) && m.dom().finite() {
        vstd::set::axiom_set_insert_len(m.dom(), id);
        assert(m.insert(id, w1).dom() =~= m.dom().insert(id));
    }
}

/// The registry of chain workers, one per chain identity at most.
pub struct ChainRegistry {
    workers: KeyedStore<RunningChain>,
}

impl View for ChainRegistry {
    type V = Map<Seq<char>, RunningChain>;

    closed spec fn view(&self) -> Map<Seq<char>, RunningChain> {
        self.workers@
    }
}

impl ChainRegistry {
    /// An empty registry: no chain has been discovered yet.
    pub fn new() -> (r: ChainRegistry)
        ensures
            r@ == Map::<Seq<char>, RunningChain>::empty(),
    {
        ChainRegistry { workers: KeyedStore::new() }
    }

    /// The number of workers running.
    pub fn len(&self) -> (n: usize)
        ensures
            n == self@.len(),
            self@.dom().finite(),
    {
        self.workers.len()
    }

    /// Whether a worker is registered for the given identity. A caller that
    /// must perform slow connection work before registering checks here
    /// first, connects outside the registry guard, and lets
    /// [`Self::try_spawn_chain`] re-check; a duplicate built in the meantime
    /// is discarded there.
    pub fn is_running(&self, chain_id: &String) -> (r: bool)
        ensures
            r == self@.contains_key(chain_id@),
    {
        self.workers.contains_key(chain_id)
    }

    /// The worker registered for the given identity, if any.
    pub fn get(&self, chain_id: &String) -> (r: Option<&RunningChain>)
        ensures
            match r {
                Some(w) => self@.contains_key(chain_id@) && *w == self@[chain_id@],
                None => !self@.contains_key(chain_id@),
            },
    {
        self.workers.get(chain_id)
    }

    /// Registers a worker for the identity unless one is already registered:
    /// the check and the insertion are one atomic step with respect to the
    /// registry, which is what makes concurrent spawning safe. Returns
    /// whether this call created the worker.
    pub fn try_spawn_chain(&mut self, chain_id: &String) -> (created: bool)
        ensures
            final(self)@ == spec_spawn(old(self)@, chain_id@, final(self)@[chain_id@]),
            final(self)@.contains_key(chain_id@),
            created == !old(self)@.contains_key(chain_id@),
            created ==> fresh_worker(final(self)@[chain_id@], chain_id@),
            !created ==> final(self)@ == old(self)@,
    {
        if self.workers.contains_key(chain_id) {
            return false;
        }
        let worker = RunningChain::new(chain_id.clone());
        self.workers.insert(chain_id.clone(), worker);
        true
    }

    /// Ensures a worker runs for the identity, tolerating repeated and
    /// concurrent calls: a blank identity is rejected and registers nothing;
    /// otherwise the call spawns at most once. Returns whether a worker is
    /// registered for the identity afterwards.
    pub fn ensure_running(&mut self, chain_id: &String) -> (running: bool)
        ensures
            chain_id@.len() == 0 ==> final(self)@ == old(self)@ && running == old(
                self,
            )@.contains_key(chain_id@),
            chain_id@.len() > 0 ==> final(self)@ == spec_spawn(
                old(self)@,
                chain_id@,
                final(self)@[chain_id@],
            ) && running,
            !old(self)@.contains_key(chain_id@) && chain_id@.len() > 0 ==> fresh_worker(
                final(self)@[chain_id@],
                chain_id@,
            ),
            old(self)@.contains_key(chain_id@) ==> final(self)@ == old(self)@,
    {
        if chain_id.as_str().is_empty() {
            return self.is_running(chain_id);
        }
        if self.workers.contains_key(chain_id) {
            return true;
        }
        let worker = RunningChain::new(chain_id.clone());
        self.workers.insert(chain_id.clone(), worker);
        true
    }

    /// Offers every identity discovered on the parent chain to the registry,
    /// in order. Workers already running are never replaced; afterwards a
    /// worker runs for every non-blank identity offered, and every worker
    /// either was there before or answers to an offered identity.
    pub fn absorb_discovered(&mut self, chain_ids: &Vec<String>)
        ensures
            forall|k: Seq<char>|
                old(self)@.contains_key(k) ==> #[trigger] final(self)@.contains_key(k)
                    && final(self)@[k] == old(self)@[k],
            forall|i: int|
                0 <= i < chain_ids@.len() && chain_ids@[i]@.len() > 0
                    ==> #[trigger] final(self)@.contains_key(chain_ids@[i]@),
            forall|k: Seq<char>|
                #[trigger] final(self)@.contains_key(k) ==> old(self)@.contains_key(k)
                    || exists|i: int| 0 <= i < chain_ids@.len() && chain_ids@[i]@ == k,
            forall|k: Seq<char>|
                final(self)@.contains_key(k) && !old(self)@.contains_key(k)
                    ==> fresh_worker(#[trigger] final(self)@[k], k),
    {
        let n = chain_ids.len();
        let mut i: usize = 0;
        while i < n
            invariant
                n == chain_ids@.len(),
                i <= n,
                forall|k: Seq<char>|
                    old(self)@.contains_key(k) ==> #[trigger] self@.contains_key(k) && self@[k]
                        == old(self)@[k],
                forall|t: int|
                    0 <= t < i && chain_ids@[t]@.len() > 0 ==> #[trigger] self@.contains_key(
                        chain_ids@[t]@,
                    ),
                forall|k: Seq<char>|
                    #[trigger] self@.contains_key(k) ==> old(self)@.contains_key(k)
                        || exists|t: int| 0 <= t < chain_ids@.len() && chain_ids@[t]@ == k,
                forall|k: Seq<char>|
                    self@.contains_key(k) && !old(self)@.contains_key(k) ==> fresh_worker(
                        #[trigger] self@[k],
                        k,
                    ),
            decreases n - i,
        {
            let ghost pre = self@;
            self.ensure_running(&chain_ids[i]);
            proof {
                assert forall|k: Seq<char>| #[trigger] self@.contains_key(k) implies old(
                    self,
                )@.contains_key(k) || exists|t: int|
                    0 <= t < chain_ids@.len() && chain_ids@[t]@ == k by {
                    if !pre.contains_key(k) {
                        assert(chain_ids@[i as int]@ == k);
                    }
                }
            }
            i += 1;
        }
    }
}

} // verus!
