//! Identities of accounts and contracts, and sets of them.

use vstd::prelude::*;

verus! {

/// Whether an address names an account or a contract.
#[derive(Copy, Clone, Debug, PartialEq, Eq, Structural, Hash, PartialOrd, Ord)]
pub enum AddressKind {
    Account,
    Contract,
}

/// An identity on the ledger: the kind and the 256-bit key of an account or
/// a contract, the key held as two 128-bit halves.
#[derive(Copy, Clone, Debug, PartialEq, Eq, Structural, Hash, PartialOrd, Ord)]
pub struct Address {
    pub kind: AddressKind,
    pub key_hi: u128,
    pub key_lo: u128,
}

impl Address {
    /// The account with the given key.
    pub fn account(key_hi: u128, key_lo: u128) -> (address: Address)
        ensures
            address == (Address { kind: AddressKind::Account, key_hi, key_lo }),
    {
        Address { kind: AddressKind::Account, key_hi, key_lo }
    }

    /// The contract with the given key.
    pub fn contract(key_hi: u128, key_lo: u128) -> (address: Address)
        ensures
            address == (Address { kind: AddressKind::Contract, key_hi, key_lo }),
    {
        Address { kind: AddressKind::Contract, key_hi, key_lo }
    }
}

/// A finite set of addresses. An address that was never inserted is not a
/// member.
pub struct AddressSet {
    members: Vec<Address>,
}

impl View for AddressSet {
    type V = Set<Address>;

    closed spec fn view(&self) -> Set<Address> {
        self.members@.to_set()
    }
}

impl AddressSet {
    /// The empty set.
    pub fn new() -> (set: AddressSet)
        ensures
            set@ == Set::<Address>::empty(),
    {
        let set = AddressSet { members: Vec::new() };
        assert(set.members@.to_set() =~= Set::<Address>::empty());
        set
    }

    /// Whether `address` is a member.
    pub fn contains(&self, address: Address) -> (found: bool)
        ensures
            found == self@.contains(address),
    {
        let mut i: usize = 0;
        while i < self.members.len()
            invariant
                i <= self.members.len(),
                forall|j: int| 0 <= j < i ==> self.members@[j] != address,
            decreases self.members.len() - i,
        {
            if self.members[i] == address {
                assert(self.members@.contains(address));
                return true;
            }
            i = i + 1;
        }
        assert(!self.members@.contains(address));
        false
    }

    /// Makes `address` a member.
    pub fn insert(&mut self, address: Address)
        ensures
            final(self)@ == old(self)@.insert(address),
    {
        if !self.contains(address) {
            self.members.push(address);
            assert(self.members@.to_set() =~= old(self).members@.to_set().insert(address)) by {
                assert forall|a: Address|
                    self.members@.to_set().contains(a) <==> old(self).members@.to_set().insert(
                        address,
                    ).contains(a) by {
                    if self.members@.contains(a) {
                        let j = choose|j: int| 0 <= j < self.members@.len() && self.members@[j] == a;
                        if j < old(self).members@.len() {
                            assert(old(self).members@[j] == a);
                        }
                    }
                    if old(self).members@.contains(a) {
                        let j = choose|j: int|
                            0 <= j < old(self).members@.len() && old(self).members@[j] == a;
                        assert(self.members@[j] == a);
                    }
                    if a == address {
                        assert(self.members@[old(self).members@.len() as int] == a);
                    }
                }
            }
        } else {
            assert(self@ =~= self@.insert(address));
        }
    }

    /// Makes `address` a non-member.
    pub fn remove(&mut self, address: Address)
        ensures
            final(self)@ == old(self)@.remove(address),
    {
        let mut kept: Vec<Address> = Vec::new();
        let mut i: usize = 0;
        while i < self.members.len()
            invariant
                i <= self.members.len(),
                forall|a: Address|
                    kept@.contains(a) <==> (a != address && exists|j: int|
                        0 <= j < i && self.members@[j] == a),
            decreases self.members.len() - i,
        {
            let member = self.members[i];
            if member != address {
                let ghost before = kept@;
                kept.push(member);
                assert forall|a: Address|
                    kept@.contains(a) <==> (a != address && exists|j: int|
                        0 <= j < i + 1 && self.members@[j] == a) by {
                    if kept@.contains(a) {
                        let k = choose|k: int| 0 <= k < kept@.len() && kept@[k] == a;
                        if k < before.len() {
                            assert(before[k] == a);
                            assert(before.contains(a));
                        } else {
                            assert(a == member);
                            assert(self.members@[i as int] == a);
                        }
                    }
                    if a != address && exists|j: int| 0 <= j < i + 1 && self.members@[j] == a {
                        let j = choose|j: int| 0 <= j < i + 1 && self.members@[j] == a;
                        if j < i {
                            assert(before.contains(a));
                            let k = choose|k: int| 0 <= k < before.len() && before[k] == a;
                            assert(kept@[k] == a);
                        } else {
                            assert(kept@[before.len() as int] == a);
                        }
                    }
                }
            }
            i = i + 1;
        }
        proof {
            assert(kept@.to_set() =~= self.members@.to_set().remove(address)) by {
                assert forall|a: Address|
                    kept@.to_set().contains(a) <==> self.members@.to_set().remove(
                        address,
                    ).contains(a) by {
                    if self.members@.contains(a) && a != address {
                        let j = choose|j: int|
                            0 <= j < self.members@.len() && self.members@[j] == a;
                        assert(0 <= j < i && self.members@[j] == a);
                    }
                }
            }
        }
        self.members = kept;
    }

    /// The members, each once or more, in no particular order.
    pub fn members(&self) -> (list: Vec<Address>)
        ensures
            list@.to_set() == self@,
    {
        let mut list: Vec<Address> = Vec::new();
        let mut i: usize = 0;
        while i < self.members.len()
            invariant
                i <= self.members.len(),
                list@ == self.members@.take(i as int),
            decreases self.members.len() - i,
        {
            list.push(self.members[i]);
            assert(list@ =~= self.members@.take(i + 1));
            i = i + 1;
        }
        assert(list@ =~= self.members@);
        list
    }

    /// The set of the addresses in `list`.
    pub fn from_members(list: Vec<Address>) -> (set: AddressSet)
        ensures
            set@ == list@.to_set(),
    {
        AddressSet { members: list }
    }
}

} // verus!
