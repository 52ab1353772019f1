use crate::error::Error;
use std::cmp::Ordering;
use std::collections::HashMap;
use vstd::prelude::*;
use vstd::std_specs::cmp::PartialOrdSpecImpl;

verus! {

broadcast use vstd::std_specs::hash::group_hash_axioms;

/// The two tiers of authority a sender can hold, the lower one first.
#[derive(Clone, Copy, Debug, PartialEq, Eq, Structural)]
pub enum ExecutionAlias {
    Please,
    Execute,
}

impl ExecutionAlias {
    /// Position of the tier in the fixed order `Please < Execute`.
    pub open spec fn rank(self) -> nat {
        match self {
            ExecutionAlias::Please => 0,
            ExecutionAlias::Execute => 1,
        }
    }

    /// Whether a sender of this tier may use a verb that asks for `required`.
    pub open spec fn covers(self, required: ExecutionAlias) -> bool {
        self.rank() >= required.rank()
    }
}

impl PartialOrd for ExecutionAlias {
    fn partial_cmp(&self, other: &ExecutionAlias) -> (r: Option<Ordering>) {
        match (*self, *other) {
            (ExecutionAlias::Please, ExecutionAlias::Execute) => Some(Ordering::Less),
            (ExecutionAlias::Execute, ExecutionAlias::Please) => Some(Ordering::Greater),
            _ => Some(Ordering::Equal),
        }
    }
}

impl PartialOrdSpecImpl for ExecutionAlias {
    open spec fn obeys_partial_cmp_spec() -> bool {
        true
    }

    open spec fn partial_cmp_spec(&self, other: &ExecutionAlias) -> Option<Ordering> {
        if self.rank() < other.rank() {
            Some(Ordering::Less)
        } else if self.rank() > other.rank() {
            Some(Ordering::Greater)
        } else {
            Some(Ordering::Equal)
        }
    }
}

/// The tiers are totally ordered, `Please` below `Execute`: of two tiers one
/// covers the other, two tiers that cover each other are the same, and a
/// tier covers what a tier that it covers does. Every tier covers `Please`,
/// and only `Execute` covers `Execute`.
pub proof fn lemma_tiers_are_totally_ordered(a: ExecutionAlias, b: ExecutionAlias, c: ExecutionAlias)
    ensures
        a.covers(b) || b.covers(a),
        a.covers(b) && b.covers(a) ==> a == b,
        a.covers(b) && b.covers(c) ==> a.covers(c),
        a.covers(ExecutionAlias::Please),
        a.covers(ExecutionAlias::Execute) <==> a == ExecutionAlias::Execute,
        !ExecutionAlias::Please.covers(ExecutionAlias::Execute),
{
}

/// Who may command the servers, and up to which tier.
#[derive(Debug)]
pub struct AuthorityTable {
    levels: HashMap<u64, ExecutionAlias>,
}

impl View for AuthorityTable {
    type V = Map<u64, ExecutionAlias>;

    closed spec fn view(&self) -> Map<u64, ExecutionAlias> {
        self.levels@
    }
}

/// Whether `table` lets `sender` use a verb that asks for `required`.
pub open spec fn authorized(
    table: Map<u64, ExecutionAlias>,
    sender: u64,
    required: ExecutionAlias,
) -> bool {
    table.contains_key(sender) && table[sender].covers(required)
}

/// A sender who may use a verb may use every verb that asks for less, and a
/// sender whom the table does not know may use none.
pub proof fn lemma_authority_reaches_down(
    table: Map<u64, ExecutionAlias>,
    sender: u64,
    required: ExecutionAlias,
    lesser: ExecutionAlias,
)
    ensures
        authorized(table, sender, required) && required.covers(lesser) ==> authorized(
            table,
            sender,
            lesser,
        ),
        authorized(table, sender, ExecutionAlias::Execute) ==> authorized(
            table,
            sender,
            ExecutionAlias::Please,
        ),
        !table.contains_key(sender) ==> !authorized(table, sender, required),
{
}

impl AuthorityTable {
    /// A table that knows nobody.
    pub fn new() -> (table: AuthorityTable)
        ensures
            table@ == Map::<u64, ExecutionAlias>::empty(),
    {
        AuthorityTable { levels: HashMap::new() }
    }

    /// Records `level` for `user`, replacing what the table held for them.
    pub fn grant(&mut self, user: u64, level: ExecutionAlias)
        ensures
            final(self)@ == old(self)@.insert(user, level),
    {
        self.levels.insert(user, level);
    }

    /// The tier recorded for `user`, if any.
    pub fn get(&self, user: u64) -> (level: Option<ExecutionAlias>)
        ensures
            level == (if self@.contains_key(user) {
                Some(self@[user])
            } else {
                None
            }),
    {
        match self.levels.get(&user) {
            Some(level) => Some(*level),
            None => None,
        }
    }

    /// Lets the sender through if the table knows them at `required` or above.
    pub fn authorize(&self, sender: u64, required: ExecutionAlias) -> (outcome: Result<(), Error>)
        ensures
            !self@.contains_key(sender) ==> outcome is Err,
            self@.contains_key(sender) ==> (outcome is Ok <==> self@[sender].covers(required)),
            outcome is Ok <==> authorized(self@, sender, required),
            outcome matches Err(error) ==> error is InsufficientPermissions,
    {
        match self.levels.get(&sender) {
            None => Err(Error::InsufficientPermissions),
            Some(authority) => {
                if *authority < required {
                    Err(Error::InsufficientPermissions)
                } else {
                    Ok(())
                }
            },
        }
    }
}

/// The operators this bot answers to.
pub fn authoritative_users() -> (table: AuthorityTable)
    ensures
        table@ == Map::<u64, ExecutionAlias>::empty().insert(
            751484442454917231,
            ExecutionAlias::Execute,
        ).insert(836287026327191582, ExecutionAlias::Execute),
{
    let mut table = AuthorityTable::new();
    table.grant(751484442454917231, ExecutionAlias::Execute);
    table.grant(836287026327191582, ExecutionAlias::Execute);
    table
}

} // verus!
