//! The operation layer: the persistent ledgers (ownership and listings, plus
//! the id counter and the event log) and the five atomic operations over
//! them — create, breed, transfer, set_price, buy. Every operation either
//! completes in full or leaves every ledger exactly as it found it.

use std::collections::HashMap;

use vstd::prelude::*;

use crate::balances::{BalanceError, Balances};
use crate::genome::{
    combine_kitties_dna, combined_dna, dna_of, gender_of, generate_kitty_dna, Kitty,
};

verus! {

broadcast use vstd::std_specs::hash::group_hash_axioms;

/// Why an operation was refused. All are expected, recoverable validation
/// failures; none leaves a trace in the ledgers.
#[derive(Clone, Copy, PartialEq, Eq, Debug)]
pub enum Error {
    /// The referenced kitty does not exist under the expected owner.
    InvalidKittyId,
    /// Breeding was attempted on two kitties of the same sex.
    SameGender,
    /// The caller tried to price a kitty they do not own.
    NotOwner,
    /// Buyer and seller are the same account.
    BuyerIsSeller,
    /// No active listing for the kitty.
    NotForSale,
    /// The bid is below the listed price.
    BidPriceTooLow,
    /// The id space is exhausted.
    Overflow,
    /// The balance service refused the settlement; its verdict is surfaced
    /// verbatim.
    BalanceTransfer(BalanceError),
}

/// A notification produced by each successful mutating operation, in order.
#[derive(Clone, Copy, PartialEq, Eq, Debug)]
pub enum Event {
    /// A kitty was created: owner, kitty id, kitty.
    KittyCreated(u64, u32, Kitty),
    /// A kitty was created from a breeding pair: owner, kitty id, kitty.
    KittyCreatedByBreeding(u64, u32, Kitty),
    /// A kitty changed owner: from, to, kitty id.
    KittyTransferred(u64, u64, u32),
    /// A listing was set or cleared: owner, kitty id, new price.
    KittyPriceUpdated(u64, u32, Option<u64>),
    /// A kitty was bought: seller, buyer, kitty id, settled price.
    KittySold(u64, u64, u32, u64),
}

/// One allocation step of the id counter: the id handed out is the counter's
/// value before, and the counter's value after is one greater.
pub open spec fn alloc_step(pre: u32, id: u32, post: u32) -> bool {
    &&& pre < u32::MAX
    &&& id == pre
    &&& post == pre + 1
}

/// The registry: ownership keyed by kitty id (each id maps to its one owner
/// and the kitty record), listings keyed by kitty id, the next id to
/// allocate, and the log of events emitted so far.
pub struct Pallet {
    next_kitty_id: u32,
    kitties: HashMap<u32, (u64, Kitty)>,
    prices: HashMap<u32, u64>,
    events: Vec<Event>,
}

impl Pallet {
    /// The id the next mint will receive.
    pub closed spec fn spec_next_kitty_id(self) -> u32 {
        self.next_kitty_id
    }

    /// The ownership ledger: kitty id to (owner, kitty).
    pub closed spec fn kitties_map(self) -> Map<u32, (u64, Kitty)> {
        self.kitties@
    }

    /// The price ledger: kitty id to listed price.
    pub closed spec fn prices_map(self) -> Map<u32, u64> {
        self.prices@
    }

    /// The events emitted so far, oldest first.
    pub closed spec fn events_log(self) -> Seq<Event> {
        self.events@
    }

    /// Whether `owner` currently holds the kitty `kitty_id`.
    pub open spec fn owns(self, owner: u64, kitty_id: u32) -> bool {
        &&& self.kitties_map().contains_key(kitty_id)
        &&& self.kitties_map()[kitty_id].0 == owner
    }

    /// The kitty stored under `(owner, kitty_id)`, if any.
    pub open spec fn spec_kitty(self, owner: u64, kitty_id: u32) -> Option<Kitty> {
        if self.owns(owner, kitty_id) {
            Some(self.kitties_map()[kitty_id].1)
        } else {
            None
        }
    }

    /// The active listing for `kitty_id`, if any.
    pub open spec fn spec_price(self, kitty_id: u32) -> Option<u64> {
        if self.prices_map().contains_key(kitty_id) {
            Some(self.prices_map()[kitty_id])
        } else {
            None
        }
    }

    /// The registry's invariant: every minted id lies below the counter, and
    /// every listing refers to a kitty that currently has an owner.
    pub open spec fn wf(self) -> bool {
        &&& forall|id: u32|
            #[trigger] self.kitties_map().contains_key(id) ==> id < self.spec_next_kitty_id()
        &&& forall|id: u32|
            #[trigger] self.prices_map().contains_key(id) ==> self.kitties_map().contains_key(id)
    }

    /// An empty registry with the id counter at zero.
    pub fn new() -> (r: Pallet)
        ensures
            r.wf(),
            r.spec_next_kitty_id() == 0,
            r.kitties_map() == Map::<u32, (u64, Kitty)>::empty(),
            r.prices_map() == Map::<u32, u64>::empty(),
            r.events_log() == Seq::<Event>::empty(),
    {
        Pallet {
            next_kitty_id: 0,
            kitties: HashMap::new(),
            prices: HashMap::new(),
            events: Vec::new(),
        }
    }

    /// An empty registry resuming a persisted id counter: no kitties, no
    /// listings, no events, and the next id to allocate set to
    /// `next_kitty_id`, as a host restoring saved state would build it.
    pub fn with_next_kitty_id(next_kitty_id: u32) -> (r: Pallet)
        ensures
            r.wf(),
            r.spec_next_kitty_id() == next_kitty_id,
            r.kitties_map() == Map::<u32, (u64, Kitty)>::empty(),
            r.prices_map() == Map::<u32, u64>::empty(),
            r.events_log() == Seq::<Event>::empty(),
    {
        Pallet {
            next_kitty_id,
            kitties: HashMap::new(),
            prices: HashMap::new(),
            events: Vec::new(),
        }
    }

    /// Allocate the next kitty id: hand out the counter's current value and
    /// atomically bump it, failing with `Overflow` once the id space is
    /// exhausted. Touches nothing but the counter.
    pub fn get_kitty_id(&mut self) -> (r: Result<u32, Error>)
        ensures
            r is Ok <==> old(self).spec_next_kitty_id() < u32::MAX,
            (match r {
                Ok(id) => alloc_step(
                    old(self).spec_next_kitty_id(),
                    id,
                    final(self).spec_next_kitty_id(),
                ),
                Err(e) => e == Error::Overflow && *final(self) == *old(self),
            }),
            final(self).kitties_map() == old(self).kitties_map(),
            final(self).prices_map() == old(self).prices_map(),
            final(self).events_log() == old(self).events_log(),
            old(self).wf() ==> final(self).wf(),
    {
        if self.next_kitty_id == u32::MAX {
            return Err(Error::Overflow);
        }
        let id = self.next_kitty_id;
        self.next_kitty_id = id + 1;
        Ok(id)
    }

    /// Mint a kitty for `caller`: allocate the next id, generate a genome
    /// deterministically from the host-supplied entropy `seed`, the caller,
    /// and the per-submission `index`, record ownership, and note a
    /// `KittyCreated` event. Fails only with `Overflow`, leaving the registry
    /// unchanged.
    pub fn create(&mut self, caller: u64, seed: &[u8; 32], index: Option<u32>) -> (r: Result<
        (),
        Error,
    >)
        ensures
            r is Ok <==> old(self).spec_next_kitty_id() < u32::MAX,
            (match r {
                Ok(()) => ({
                    let id = old(self).spec_next_kitty_id();
                    let kitty = final(self).kitties_map()[id].1;
                    &&& final(self).spec_next_kitty_id() == id + 1
                    &&& kitty.0@ == dna_of(caller, seed@, index)
                    &&& final(self).kitties_map() == old(self).kitties_map().insert(
                        id,
                        (caller, kitty),
                    )
                    &&& final(self).prices_map() == old(self).prices_map()
                    &&& final(self).events_log() == old(self).events_log().push(
                        Event::KittyCreated(caller, id, kitty),
                    )
                }),
                Err(e) => e == Error::Overflow && *final(self) == *old(self),
            }),
            old(self).wf() ==> final(self).wf(),
    {
        let kitty_id = match self.get_kitty_id() {
            Ok(id) => id,
            Err(e) => return Err(e),
        };
        let dna = generate_kitty_dna(caller, seed, index);
        let kitty = Kitty(dna);
        self.kitties.insert(kitty_id, (caller, kitty));
        self.events.push(Event::KittyCreated(caller, kitty_id, kitty));
        Ok(())
    }

    /// Breed two kitties the caller owns into a fresh one: both parents must
    /// exist under `caller` and be of opposite sex; the child's genome mixes
    /// the parents' genomes under a freshly generated mask. On success the
    /// child is recorded under `caller` with the next id and a
    /// `KittyCreatedByBreeding` event is noted; on any failure the registry
    /// is unchanged.
    pub fn breed(
        &mut self,
        caller: u64,
        kitty1_id: u32,
        kitty2_id: u32,
        seed: &[u8; 32],
        index: Option<u32>,
    ) -> (r: Result<(), Error>)
        ensures
            r is Ok <==> ({
                &&& old(self).owns(caller, kitty1_id)
                &&& old(self).owns(caller, kitty2_id)
                &&& gender_of(old(self).kitties_map()[kitty1_id].1.0@) != gender_of(
                    old(self).kitties_map()[kitty2_id].1.0@,
                )
                &&& old(self).spec_next_kitty_id() < u32::MAX
            }),
            (match r {
                Ok(()) => ({
                    let id = old(self).spec_next_kitty_id();
                    let parent1 = old(self).kitties_map()[kitty1_id].1;
                    let parent2 = old(self).kitties_map()[kitty2_id].1;
                    let child = final(self).kitties_map()[id].1;
                    &&& final(self).spec_next_kitty_id() == id + 1
                    &&& child.0@ == combined_dna(
                        parent1.0@,
                        parent2.0@,
                        dna_of(caller, seed@, index),
                    )
                    &&& final(self).kitties_map() == old(self).kitties_map().insert(
                        id,
                        (caller, child),
                    )
                    &&& final(self).prices_map() == old(self).prices_map()
                    &&& final(self).events_log() == old(self).events_log().push(
                        Event::KittyCreatedByBreeding(caller, id, child),
                    )
                }),
                Err(e) => ({
                    &&& *final(self) == *old(self)
                    &&& (if !old(self).owns(caller, kitty1_id) || !old(self).owns(
                        caller,
                        kitty2_id,
                    ) {
                        e == Error::InvalidKittyId
                    } else if gender_of(old(self).kitties_map()[kitty1_id].1.0@) == gender_of(
                        old(self).kitties_map()[kitty2_id].1.0@,
                    ) {
                        e == Error::SameGender
                    } else {
                        e == Error::Overflow
                    })
                }),
            }),
            old(self).wf() ==> final(self).wf(),
    {
        let kitty1 = match self.kitties.get(&kitty1_id) {
            Some(entry) => {
                if entry.0 == caller {
                    entry.1
                } else {
                    return Err(Error::InvalidKittyId);
                }
            },
            None => return Err(Error::InvalidKittyId),
        };
        let kitty2 = match self.kitties.get(&kitty2_id) {
            Some(entry) => {
                if entry.0 == caller {
                    entry.1
                } else {
                    return Err(Error::InvalidKittyId);
                }
            },
            None => return Err(Error::InvalidKittyId),
        };
        if kitty1.gender() == kitty2.gender() {
            return Err(Error::SameGender);
        }
        let kitty_id = match self.get_kitty_id() {
            Ok(id) => id,
            Err(e) => return Err(e),
        };
        let dna = combine_kitties_dna(caller, kitty1.dna(), kitty2.dna(), seed, index);
        let kitty = Kitty(dna);
        self.kitties.insert(kitty_id, (caller, kitty));
        self.events.push(Event::KittyCreatedByBreeding(caller, kitty_id, kitty));
        Ok(())
    }

    /// Move the kitty `kitty_id` from `caller` to `to`. A transfer to oneself
    /// is a specified no-op: it still validates ownership, but mutates
    /// nothing and notes no event. On failure the registry is unchanged.
    pub fn transfer(&mut self, caller: u64, to: u64, kitty_id: u32) -> (r: Result<(), Error>)
        ensures
            r is Ok <==> old(self).owns(caller, kitty_id),
            (match r {
                Ok(()) => {
                    if to == caller {
                        *final(self) == *old(self)
                    } else {
                        ({
                            let kitty = old(self).kitties_map()[kitty_id].1;
                            &&& final(self).spec_next_kitty_id() == old(
                                self,
                            ).spec_next_kitty_id()
                            &&& final(self).kitties_map() == old(self).kitties_map().insert(
                                kitty_id,
                                (to, kitty),
                            )
                            &&& final(self).prices_map() == old(self).prices_map()
                            &&& final(self).events_log() == old(self).events_log().push(
                                Event::KittyTransferred(caller, to, kitty_id),
                            )
                        })
                    }
                },
                Err(e) => e == Error::InvalidKittyId && *final(self) == *old(self),
            }),
            old(self).wf() ==> final(self).wf(),
    {
        let kitty = match self.kitties.get(&kitty_id) {
            Some(entry) => {
                if entry.0 == caller {
                    entry.1
                } else {
                    return Err(Error::InvalidKittyId);
                }
            },
            None => return Err(Error::InvalidKittyId),
        };
        if to == caller {
            return Ok(());
        }
        self.kitties.insert(kitty_id, (to, kitty));
        self.events.push(Event::KittyTransferred(caller, to, kitty_id));
        proof {
            if old(self).wf() {
                assert forall|id: u32| #[trigger] self.kitties_map().contains_key(id)
                    implies id < self.spec_next_kitty_id() by {
                    assert(old(self).kitties_map().contains_key(id));
                }
                assert forall|id: u32| #[trigger] self.prices_map().contains_key(id)
                    implies self.kitties_map().contains_key(id) by {
                    assert(old(self).prices_map().contains_key(id));
                    assert(old(self).kitties_map().contains_key(id));
                }
            }
        }
        Ok(())
    }

    /// Set or clear the listing for a kitty the caller owns: `Some(price)`
    /// lists it, `None` delists it, unconditionally overwriting any earlier
    /// listing. Fails with `NotOwner` (registry unchanged) if the caller does
    /// not own the kitty.
    pub fn set_price(&mut self, caller: u64, kitty_id: u32, new_price: Option<u64>) -> (r: Result<
        (),
        Error,
    >)
        ensures
            r is Ok <==> old(self).owns(caller, kitty_id),
            (match r {
                Ok(()) => {
                    &&& final(self).spec_next_kitty_id() == old(self).spec_next_kitty_id()
                    &&& final(self).kitties_map() == old(self).kitties_map()
                    &&& final(self).prices_map() == (match new_price {
                        Some(p) => old(self).prices_map().insert(kitty_id, p),
                        None => old(self).prices_map().remove(kitty_id),
                    })
                    &&& final(self).events_log() == old(self).events_log().push(
                        Event::KittyPriceUpdated(caller, kitty_id, new_price),
                    )
                },
                Err(e) => e == Error::NotOwner && *final(self) == *old(self),
            }),
            old(self).wf() ==> final(self).wf(),
    {
        let owned = match self.kitties.get(&kitty_id) {
            Some(entry) => entry.0 == caller,
            None => false,
        };
        if !owned {
            return Err(Error::NotOwner);
        }
        match new_price {
            Some(p) => {
                self.prices.insert(kitty_id, p);
            },
            None => {
                self.prices.remove(&kitty_id);
            },
        }
        self.events.push(Event::KittyPriceUpdated(caller, kitty_id, new_price));
        Ok(())
    }

    /// Buy a listed kitty from `seller`: the buyer must differ from the
    /// seller, the kitty must be listed at a price no higher than
    /// `max_price`, the seller must own it, and the buyer must be able to pay
    /// the listed price (not the bid) through the balance ledger. On success
    /// the listing is cleared, the kitty moves to the buyer, the price moves
    /// to the seller, and `KittyTransferred` then `KittySold` are noted. On
    /// any failure — the balance service's refusal included — both the
    /// registry and the balance ledger are unchanged.
    pub fn buy(
        &mut self,
        balances: &mut Balances,
        buyer: u64,
        seller: u64,
        kitty_id: u32,
        max_price: u64,
    ) -> (r: Result<(), Error>)
        ensures
            r is Ok <==> ({
                &&& buyer != seller
                &&& old(self).spec_price(kitty_id) is Some
                &&& max_price >= old(self).prices_map()[kitty_id]
                &&& old(self).owns(seller, kitty_id)
                &&& old(balances).can_transfer(buyer, seller, old(self).prices_map()[kitty_id])
            }),
            (match r {
                Ok(()) => ({
                    let price = old(self).prices_map()[kitty_id];
                    let kitty = old(self).kitties_map()[kitty_id].1;
                    &&& final(self).spec_next_kitty_id() == old(self).spec_next_kitty_id()
                    &&& final(self).kitties_map() == old(self).kitties_map().insert(
                        kitty_id,
                        (buyer, kitty),
                    )
                    &&& final(self).prices_map() == old(self).prices_map().remove(kitty_id)
                    &&& final(self).events_log() == old(self).events_log().push(
                        Event::KittyTransferred(seller, buyer, kitty_id),
                    ).push(Event::KittySold(seller, buyer, kitty_id, price))
                    &&& Balances::transfer_updates(
                        *old(balances),
                        *final(balances),
                        buyer,
                        seller,
                        price,
                    )
                }),
                Err(e) => ({
                    let price = old(self).prices_map()[kitty_id];
                    &&& *final(self) == *old(self)
                    &&& *final(balances) == *old(balances)
                    &&& (if buyer == seller {
                        e == Error::BuyerIsSeller
                    } else if old(self).spec_price(kitty_id) is None {
                        e == Error::NotForSale
                    } else if max_price < price {
                        e == Error::BidPriceTooLow
                    } else if !old(self).owns(seller, kitty_id) {
                        e == Error::InvalidKittyId
                    } else if price > old(balances).spec_balance_of(buyer) {
                        e == Error::BalanceTransfer(BalanceError::InsufficientBalance)
                    } else if old(balances).spec_balance_of(buyer) - price < old(
                        balances,
                    ).spec_minimum_balance() {
                        e == Error::BalanceTransfer(BalanceError::KeepAlive)
                    } else {
                        e == Error::BalanceTransfer(BalanceError::Overflow)
                    })
                }),
            }),
            old(self).wf() ==> final(self).wf(),
    {
        if buyer == seller {
            return Err(Error::BuyerIsSeller);
        }
        let price = match self.prices.get(&kitty_id) {
            Some(p) => *p,
            None => return Err(Error::NotForSale),
        };
        if max_price < price {
            return Err(Error::BidPriceTooLow);
        }
        let kitty = match self.kitties.get(&kitty_id) {
            Some(entry) => {
                if entry.0 == seller {
                    entry.1
                } else {
                    return Err(Error::InvalidKittyId);
                }
            },
            None => return Err(Error::InvalidKittyId),
        };
        match balances.transfer(buyer, seller, price) {
            Ok(()) => {},
            Err(e) => return Err(Error::BalanceTransfer(e)),
        }
        self.prices.remove(&kitty_id);
        self.kitties.insert(kitty_id, (buyer, kitty));
        self.events.push(Event::KittyTransferred(seller, buyer, kitty_id));
        self.events.push(Event::KittySold(seller, buyer, kitty_id, price));
        Ok(())
    }

    /// The id the next mint will receive.
    pub fn next_kitty_id(&self) -> (r: u32)
        ensures
            r == self.spec_next_kitty_id(),
    {
        self.next_kitty_id
    }

    /// The kitty stored under `(owner, kitty_id)`, if any.
    pub fn kitties(&self, owner: u64, kitty_id: u32) -> (r: Option<Kitty>)
        ensures
            r == self.spec_kitty(owner, kitty_id),
    {
        match self.kitties.get(&kitty_id) {
            Some(entry) => {
                if entry.0 == owner {
                    Some(entry.1)
                } else {
                    None
                }
            },
            None => None,
        }
    }

    /// The active listing for `kitty_id`, if any.
    pub fn kitty_prices(&self, kitty_id: u32) -> (r: Option<u64>)
        ensures
            r == self.spec_price(kitty_id),
    {
        match self.prices.get(&kitty_id) {
            Some(p) => Some(*p),
            None => None,
        }
    }

    /// The events noted so far, oldest first.
    pub fn events(&self) -> (r: &Vec<Event>)
        ensures
            r@ == self.events_log(),
    {
        &self.events
    }

    /// Forget the events noted so far, as a host does once it has drained
    /// them. The ledgers and the counter are untouched.
    pub fn reset_events(&mut self)
        ensures
            final(self).events_log() == Seq::<Event>::empty(),
            final(self).kitties_map() == old(self).kitties_map(),
            final(self).prices_map() == old(self).prices_map(),
            final(self).spec_next_kitty_id() == old(self).spec_next_kitty_id(),
            old(self).wf() ==> final(self).wf(),
    {
        self.events.clear();
        proof {
            if old(self).wf() {
                assert forall|id: u32| #[trigger] self.kitties_map().contains_key(id)
                    implies id < self.spec_next_kitty_id() by {
                    assert(old(self).kitties_map().contains_key(id));
                }
                assert forall|id: u32| #[trigger] self.prices_map().contains_key(id)
                    implies self.kitties_map().contains_key(id) by {
                    assert(old(self).prices_map().contains_key(id));
                }
            }
        }
    }
}

/// Allocator monotonicity: across two successive allocation steps the ids
/// handed out strictly increase, with no gap — the second id is exactly one
/// more than the first.
pub proof fn lemma_allocator_monotonic(c0: u32, id0: u32, c1: u32, id1: u32, c2: u32)
    requires
        alloc_step(c0, id0, c1),
        alloc_step(c1, id1, c2),
    ensures
        id0 < id1,
        id1 == id0 + 1,
{
}

/// Ownership exclusivity: a kitty id never has two owners — whoever the
/// registry says owns it is its only owner.
pub proof fn lemma_ownership_exclusive(p: Pallet, kitty_id: u32, owner1: u64, owner2: u64)
    requires
        p.owns(owner1, kitty_id),
        p.owns(owner2, kitty_id),
    ensures
        owner1 == owner2,
{
}

} // verus!
