//! The pools of a platform, each under its owner and its name.

use vstd::prelude::*;
use crate::pool::Pool;
use crate::state::address::Address;

verus! {

/// All pools that were created, in the order of their creation.
#[derive(Clone, Debug)]
pub struct Registry {
    pub pools: Vec<Pool>,
}

/// One of `pools` belongs to `owner` and is named `pool_id`.
pub open spec fn holds(pools: Seq<Pool>, owner: Address, pool_id: Seq<char>) -> bool {
    exists|i: int|
        0 <= i < pools.len() && (#[trigger] pools[i]).config.owner == owner
            && pools[i].config.pool_id@ == pool_id
}

/// No two of `pools` have the same owner and the same name.
pub open spec fn unique(pools: Seq<Pool>) -> bool {
    forall|i: int, j: int|
        0 <= i < j < pools.len() ==> !((#[trigger] pools[i]).config.owner == (
        #[trigger] pools[j]).config.owner && pools[i].config.pool_id@
            == pools[j].config.pool_id@)
}

impl Registry {
    /// A registry without pools.
    pub fn new() -> (registry: Registry)
        ensures
            registry.pools@.len() == 0,
    {
        Registry { pools: Vec::new() }
    }

    /// Where the pool of `owner` named `pool_id` stands: the first such
    /// index, or `None` where the registry holds no such pool.
    pub fn find_pool(&self, owner: &Address, pool_id: &String) -> (found: Option<usize>)
        ensures
            match found {
                Some(i) => {
                    &&& i < self.pools@.len()
                    &&& self.pools@[i as int].config.owner == *owner
                    &&& self.pools@[i as int].config.pool_id@ == pool_id@
                    &&& !holds(self.pools@.take(i as int), *owner, pool_id@)
                },
                None => !holds(self.pools@, *owner, pool_id@),
            },
    {
        let mut i: usize = 0;
        while i < self.pools.len()
            invariant
                i <= self.pools@.len(),
                !holds(self.pools@.take(i as int), *owner, pool_id@),
            decreases self.pools@.len() - i,
        {
            if self.pools[i].config.owner == *owner && self.pools[i].config.pool_id == *pool_id {
                return Some(i);
            }
            proof {
                let before = self.pools@.take(i as int);
                let after = self.pools@.take(i + 1);
                assert forall|k: int| 0 <= k < after.len() implies !((
                #[trigger] after[k]).config.owner == *owner && after[k].config.pool_id@
                    == pool_id@) by {
                    if k < i {
                        assert(before[k] == after[k]);
                    }
                }
            }
            i = i + 1;
        }
        proof {
            assert(self.pools@.take(i as int) =~= self.pools@);
        }
        None
    }
}

} // verus!
