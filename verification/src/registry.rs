use vstd::prelude::*;

use crate::commitment::CommitmentLevel;
use dashmap::DashMap;

verus! {

/// What a client watches: a transaction signature at a minimum confirmation
/// strength, or the shared slot-advancement stream.
pub enum SubscriptionKey {
    Signature { signature: String, commitment: CommitmentLevel },
    Slot,
}

/// Specification-level image of a `SubscriptionKey`.
pub enum SubscriptionKeyV {
    Signature(Seq<char>, CommitmentLevel),
    Slot,
}

impl View for SubscriptionKey {
    type V = SubscriptionKeyV;

    open spec fn view(&self) -> SubscriptionKeyV {
        match self {
            SubscriptionKey::Signature { signature, commitment } => SubscriptionKeyV::Signature(
                signature@,
                *commitment,
            ),
            SubscriptionKey::Slot => SubscriptionKeyV::Slot,
        }
    }
}

/// A concurrent table from signature text to subscription identifier.
pub type IdMap = DashMap<String, u64>;

/// A table with nothing in it.
pub open spec fn empty_id_map() -> Map<Seq<char>, u64> {
    Map::empty()
}

/// A registry image with nothing registered.
pub open spec fn empty_registry_map() -> Map<SubscriptionKeyV, u64> {
    Map::empty()
}

/// The key/value contents of an `IdMap`, as a map from the key's characters
/// to the stored identifier.
pub uninterp spec fn id_map_of(m: IdMap) -> Map<Seq<char>, u64>;

/// Relies on `dashmap::DashMap::new`: the fresh map is empty.
#[verifier::external_body]
fn id_map_new() -> (m: IdMap)
    ensures
        id_map_of(m) == empty_id_map(),
{
    DashMap::new()
}

/// Relies on `dashmap::DashMap::get`: returns the value stored under a key
/// equal to `k`, if there is one.
#[verifier::external_body]
fn id_map_get(m: &IdMap, k: &String) -> (r: Option<u64>)
    ensures
        r == (if id_map_of(*m).contains_key(k@) {
            Some(id_map_of(*m)[k@])
        } else {
            None::<u64>
        }),
{
    match m.get(k) {
        Some(entry) => Some(*entry),
        None => None,
    }
}

/// Relies on `dashmap::DashMap::insert`: afterwards the map holds `v` under
/// `k` and every other key is unchanged.
#[verifier::external_body]
fn id_map_insert(m: &mut IdMap, k: String, v: u64)
    ensures
        id_map_of(*final(m)) == id_map_of(*old(m)).insert(k@, v),
{
    m.insert(k, v);
}

/// Tells `id_map_retain_not` which entries to keep.
fn keeps_other_id(v: u64, id: u64) -> (r: bool)
    ensures
        r == (v != id),
{
    v != id
}

/// Relies on `dashmap::DashMap::retain`: exactly the entries the predicate
/// accepts remain, with their values unchanged.
#[verifier::external_body]
fn id_map_retain_not(m: &mut IdMap, id: u64)
    ensures
        forall|k: Seq<char>|
            #[trigger] id_map_of(*final(m)).contains_key(k) <==> (id_map_of(
                *old(m),
            ).contains_key(k) && id_map_of(*old(m))[k] != id),
        forall|k: Seq<char>|
            id_map_of(*final(m)).contains_key(k) ==> #[trigger] id_map_of(*final(m))[k]
                == id_map_of(*old(m))[k],
{
    m.retain(|_k, v| keeps_other_id(*v, id));
}

/// The identifier a registry image yields for a key: the stored one, or
/// nothing while the key is unregistered.
pub open spec fn spec_lookup(m: Map<SubscriptionKeyV, u64>, k: SubscriptionKeyV) -> Option<u64> {
    if m.contains_key(k) {
        Some(m[k])
    } else {
        None
    }
}

/// Law: each distinct key maps to at most one identifier at any point: any
/// two identifiers the same registry image yields for one key are equal,
/// whatever sequence of registrations and unregistrations built the image.
pub proof fn lemma_at_most_one_id(
    m: Map<SubscriptionKeyV, u64>,
    k: SubscriptionKeyV,
    id1: u64,
    id2: u64,
)
    requires
        spec_lookup(m, k) == Some(id1),
        spec_lookup(m, k) == Some(id2),
    ensures
        id1 == id2,
{
}

/// A key registered in `m` resolves to the stored identifier; for a terminal
/// signature observation the weaker tier is consulted as well, since a
/// subscription names the minimum strength it waits for.
pub open spec fn event_match(
    m: Map<SubscriptionKeyV, u64>,
    sig: Seq<char>,
    c: CommitmentLevel,
) -> Option<u64> {
    if m.contains_key(SubscriptionKeyV::Signature(sig, c)) {
        Some(m[SubscriptionKeyV::Signature(sig, c)])
    } else if c.is_terminal() && m.contains_key(
        SubscriptionKeyV::Signature(sig, CommitmentLevel::Confirmed),
    ) {
        Some(m[SubscriptionKeyV::Signature(sig, CommitmentLevel::Confirmed)])
    } else {
        None
    }
}

/// Registering a key returns the identifier already stored for it and leaves
/// the map as it was; an absent key is bound to the offered fresh identifier.
pub open spec fn spec_register(
    m: Map<SubscriptionKeyV, u64>,
    fresh: u64,
    k: SubscriptionKeyV,
) -> (Map<SubscriptionKeyV, u64>, u64) {
    if m.contains_key(k) {
        (m, m[k])
    } else {
        (m.insert(k, fresh), fresh)
    }
}

/// Unregistering an identifier drops every key bound to it and nothing else.
pub open spec fn spec_unregister(m: Map<SubscriptionKeyV, u64>, id: u64) -> Map<
    SubscriptionKeyV,
    u64,
> {
    Map::new(|k: SubscriptionKeyV| m.contains_key(k) && m[k] != id, |k: SubscriptionKeyV| m[k])
}

/// Law: a key maps to at most one identifier at a time, and registering a key
/// twice, with no unregistration in between, returns the same identifier the
/// second time and leaves the registry unchanged.
pub proof fn lemma_register_repeat(
    m: Map<SubscriptionKeyV, u64>,
    fresh1: u64,
    fresh2: u64,
    k: SubscriptionKeyV,
)
    ensures
        ({
            let (m1, id1) = spec_register(m, fresh1, k);
            let (m2, id2) = spec_register(m1, fresh2, k);
            m2 == m1 && id2 == id1 && m1[k] == id1
        }),
{
}

/// Law: after an identifier is unregistered, no key resolves to it any more,
/// and every key bound to another identifier keeps that binding.
pub proof fn lemma_unregister_removes(m: Map<SubscriptionKeyV, u64>, id: u64, k: SubscriptionKeyV)
    ensures
        spec_unregister(m, id).contains_key(k) ==> spec_unregister(m, id)[k] != id,
        m.contains_key(k) && m[k] == id ==> !spec_unregister(m, id).contains_key(k),
        m.contains_key(k) && m[k] != id ==> spec_unregister(m, id).contains_key(k)
            && spec_unregister(m, id)[k] == m[k],
{
}

/// Bidirectional subscription bookkeeping: a logical key maps to at most one
/// live identifier, and identifiers are minted once and never reused.
pub struct SubscriptionRegistry {
    confirmed_ids: IdMap,
    finalized_ids: IdMap,
    slot_id: Option<u64>,
    next_id: u64,
}

impl SubscriptionRegistry {
    /// The identifier currently registered for `k`, if any.
    pub closed spec fn id_of(self, k: SubscriptionKeyV) -> Option<u64> {
        match k {
            SubscriptionKeyV::Signature(sig, c) => {
                let m = if c == CommitmentLevel::Confirmed {
                    id_map_of(self.confirmed_ids)
                } else {
                    id_map_of(self.finalized_ids)
                };
                if m.contains_key(sig) {
                    Some(m[sig])
                } else {
                    None
                }
            },
            SubscriptionKeyV::Slot => self.slot_id,
        }
    }

    /// Every identifier handed out so far lies below the mint counter.
    pub closed spec fn wf(self) -> bool {
        forall|k: SubscriptionKeyV|
            (#[trigger] self.id_of(k)) matches Some(i) ==> i < self.next_id
    }

    /// How many identifiers have been spoken for, the reserved floor
    /// included; it only ever grows.
    pub closed spec fn minted(self) -> u64 {
        self.next_id
    }

    /// The mint counter has room for one more identifier.
    pub open spec fn unsaturated(self) -> bool {
        self.minted() < u64::MAX
    }

    proof fn lemma_view_id_of(self, k: SubscriptionKeyV)
        ensures
            self@.contains_key(k) == (self.id_of(k) is Some),
            self.id_of(k) matches Some(i) ==> self@[k] == i,
    {
    }

    /// Builds an empty registry.
    pub fn new() -> (r: Self)
        ensures
            r@ == empty_registry_map(),
            r.wf(),
            r.minted() == 1,
    {
        let r = SubscriptionRegistry {
            confirmed_ids: id_map_new(),
            finalized_ids: id_map_new(),
            slot_id: None,
            next_id: 1,
        };
        proof {
            assert(r@ =~= empty_registry_map());
        }
        r
    }

    /// Whether a fresh identifier can still be minted; `register` asks for it.
    pub fn has_capacity(&self) -> (r: bool)
        ensures
            r == self.unsaturated(),
    {
        self.next_id < u64::MAX
    }

    /// Returns the identifier for `key`, minting a fresh one the first time:
    /// a key already present keeps its identifier and nothing changes.
    pub fn register(&mut self, key: &SubscriptionKey) -> (r: u64)
        requires
            old(self).wf(),
            old(self).unsaturated(),
        ensures
            final(self).wf(),
            (final(self)@, r) == spec_register(old(self)@, r, key@),
            old(self)@.contains_key(key@) ==> final(self).minted() == old(self).minted(),
            !old(self)@.contains_key(key@) ==> r == old(self).minted() && final(self).minted()
                == old(self).minted() + 1,
            !old(self)@.contains_key(key@) ==> forall|k2: SubscriptionKeyV|
                #[trigger] old(self)@.contains_key(k2) ==> old(self)@[k2] != r,
    {
        proof {
            old(self).lemma_view_id_of(key@);
        }
        let r = match key {
            SubscriptionKey::Slot => {
                match self.slot_id {
                    Some(id) => id,
                    None => {
                        let id = self.next_id;
                        self.next_id = self.next_id + 1;
                        self.slot_id = Some(id);
                        id
                    },
                }
            },
            SubscriptionKey::Signature { signature, commitment } => {
                let use_confirmed = *commitment == CommitmentLevel::Confirmed;
                let existing = if use_confirmed {
                    id_map_get(&self.confirmed_ids, signature)
                } else {
                    id_map_get(&self.finalized_ids, signature)
                };
                match existing {
                    Some(id) => id,
                    None => {
                        let id = self.next_id;
                        self.next_id = self.next_id + 1;
                        if use_confirmed {
                            id_map_insert(&mut self.confirmed_ids, signature.clone(), id);
                        } else {
                            id_map_insert(&mut self.finalized_ids, signature.clone(), id);
                        }
                        id
                    },
                }
            },
        };
        proof {
            assert forall|k2: SubscriptionKeyV| true implies #[trigger] self@.contains_key(k2)
                == spec_register(old(self)@, r, key@).0.contains_key(k2) && (self@.contains_key(k2)
                ==> self@[k2] == spec_register(old(self)@, r, key@).0[k2]) by {
                self.lemma_view_id_of(k2);
                old(self).lemma_view_id_of(k2);
                old(self).lemma_view_id_of(key@);
            }
            assert(self@ =~= spec_register(old(self)@, r, key@).0);
            assert forall|k2: SubscriptionKeyV|
                (#[trigger] self.id_of(k2)) is Some implies self.id_of(k2).unwrap()
                < self.next_id by {
                old(self).lemma_view_id_of(k2);
            }
            assert forall|k2: SubscriptionKeyV|
                !old(self)@.contains_key(key@) && #[trigger] old(self)@.contains_key(k2) implies old(
                self,
            )@[k2] != r by {
                old(self).lemma_view_id_of(k2);
            }
        }
        r
    }

    /// The identifier currently watching `key`, without touching anything.
    pub fn lookup(&self, key: &SubscriptionKey) -> (r: Option<u64>)
        ensures
            r == spec_lookup(self@, key@),
    {
        proof {
            self.lemma_view_id_of(key@);
        }
        match key {
            SubscriptionKey::Slot => self.slot_id,
            SubscriptionKey::Signature { signature, commitment } => {
                if *commitment == CommitmentLevel::Confirmed {
                    id_map_get(&self.confirmed_ids, signature)
                } else {
                    id_map_get(&self.finalized_ids, signature)
                }
            },
        }
    }

    /// Resolves an observed signature at `commitment` strength, consulting
    /// the weaker tier as well when the observation is terminal.
    pub fn lookup_signature_event(&self, signature: &String, commitment: CommitmentLevel) -> (r:
        Option<u64>)
        ensures
            r == event_match(self@, signature@, commitment),
    {
        proof {
            self.lemma_view_id_of(SubscriptionKeyV::Signature(signature@, commitment));
            self.lemma_view_id_of(
                SubscriptionKeyV::Signature(signature@, CommitmentLevel::Confirmed),
            );
        }
        let exact = if commitment == CommitmentLevel::Confirmed {
            id_map_get(&self.confirmed_ids, signature)
        } else {
            id_map_get(&self.finalized_ids, signature)
        };
        match exact {
            Some(id) => Some(id),
            None => {
                if commitment == CommitmentLevel::Finalized {
                    id_map_get(&self.confirmed_ids, signature)
                } else {
                    None
                }
            },
        }
    }

    /// Removes every key bound to `id`; an identifier nobody holds is a no-op.
    pub fn unregister(&mut self, id: u64)
        requires
            old(self).wf(),
        ensures
            final(self).wf(),
            final(self).minted() == old(self).minted(),
            final(self)@ == spec_unregister(old(self)@, id),
    {
        id_map_retain_not(&mut self.confirmed_ids, id);
        id_map_retain_not(&mut self.finalized_ids, id);
        match self.slot_id {
            Some(held) => {
                if held == id {
                    self.slot_id = None;
                }
            },
            None => {},
        }
        proof {
            assert forall|k2: SubscriptionKeyV| true implies #[trigger] self@.contains_key(k2)
                == spec_unregister(old(self)@, id).contains_key(k2) && (self@.contains_key(k2)
                ==> self@[k2] == spec_unregister(old(self)@, id)[k2]) by {
                self.lemma_view_id_of(k2);
                old(self).lemma_view_id_of(k2);
            }
            assert(self@ =~= spec_unregister(old(self)@, id));
            assert forall|k2: SubscriptionKeyV|
                (#[trigger] self.id_of(k2)) is Some implies self.id_of(k2).unwrap()
                < self.next_id by {
                old(self).lemma_view_id_of(k2);
            }
        }
    }
}

impl View for SubscriptionRegistry {
    type V = Map<SubscriptionKeyV, u64>;

    /// The registry as a map from logical keys to identifiers.
    closed spec fn view(&self) -> Map<SubscriptionKeyV, u64> {
        Map::new(
            |k: SubscriptionKeyV| self.id_of(k) is Some,
            |k: SubscriptionKeyV| self.id_of(k).unwrap(),
        )
    }
}

} // verus!
