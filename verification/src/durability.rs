//! The per-transaction durability policy and the sync call a commit owes
//! under it.

use vstd::prelude::*;

verus! {

/// How strongly a committed transaction must be pushed to stable media.
/// Attached to a single write transaction and governing exactly one
/// commit's sync behavior.
#[derive(Clone, Copy, PartialEq, Eq, Structural, Debug)]
pub enum Durability {
    /// Commit returns without any sync call.
    NoSync,
    /// Commit issues a relaxed, backend-defined "eventually durable" sync.
    Eventual,
    /// Commit blocks until data is on stable media.
    Immediate,
}

/// The `eventual` flag of the one sync call a commit must issue under the
/// policy, or no flag at all when the policy asks for no sync call.
pub open spec fn spec_sync_flag(d: Durability) -> Option<bool> {
    match d {
        Durability::NoSync => None,
        Durability::Eventual => Some(true),
        Durability::Immediate => Some(false),
    }
}

/// The `eventual` flag of the sync call a commit must issue, or `None`
/// when the policy asks for no sync call at all.
pub fn sync_flag(d: Durability) -> (r: Option<bool>)
    ensures
        r == spec_sync_flag(d),
{
    match d {
        Durability::NoSync => None,
        Durability::Eventual => Some(true),
        Durability::Immediate => Some(false),
    }
}

/// Model of one write transaction: created open, it stages mutations and
/// carries a durability policy that stays mutable until commit. `commit`
/// consumes the transaction, so no mutation can follow it; dropping the
/// model without committing is an abort, which stages nothing and owes no
/// sync call.
pub struct TxnModel {
    durability: Durability,
    mutations: u64,
}

impl TxnModel {
    /// The policy the transaction currently carries.
    pub closed spec fn spec_durability(&self) -> Durability {
        self.durability
    }

    /// How many mutations the transaction has staged.
    pub closed spec fn spec_mutations(&self) -> u64 {
        self.mutations
    }

    /// A fresh open transaction: no staged mutations, and the immediate
    /// policy until one is chosen.
    pub fn begin() -> (t: TxnModel)
        ensures
            t.spec_durability() == Durability::Immediate,
            t.spec_mutations() == 0,
    {
        TxnModel { durability: Durability::Immediate, mutations: 0 }
    }

    /// Chooses the policy governing this transaction's commit.
    pub fn set_durability(&mut self, d: Durability)
        ensures
            final(self).spec_durability() == d,
            final(self).spec_mutations() == old(self).spec_mutations(),
    {
        self.durability = d;
    }

    /// Stages one table mutation; invisible until commit succeeds.
    pub fn stage_mutation(&mut self)
        requires
            old(self).spec_mutations() < u64::MAX,
        ensures
            final(self).spec_durability() == old(self).spec_durability(),
            final(self).spec_mutations() == old(self).spec_mutations() + 1,
    {
        self.mutations = self.mutations + 1;
    }

    /// Commits: the transaction ends, and the commit owes exactly the one
    /// sync call the policy prescribes — none under `NoSync`, an eventual
    /// sync under `Eventual`, an immediate sync under `Immediate`.
    pub fn commit(self) -> (r: Option<bool>)
        ensures
            r == spec_sync_flag(self.spec_durability()),
    {
        sync_flag(self.durability)
    }
}

} // verus!
