use vstd::prelude::*;

use crate::commitment::CommitmentLevel;
use dashmap::DashMap;

verus! {

/// A concurrent table from signature text to an encoded confirmation status.
pub type StatusMap = DashMap<String, u8>;

/// The key/value contents of a `StatusMap`, as a map from the signature's
/// characters to the stored status code.
pub uninterp spec fn status_map_of(m: StatusMap) -> Map<Seq<char>, u8>;

/// A status table with nothing in it.
pub open spec fn empty_status_map() -> Map<Seq<char>, Option<CommitmentLevel>> {
    Map::empty()
}

/// A code table with nothing in it.
pub open spec fn empty_status_codes() -> Map<Seq<char>, u8> {
    Map::empty()
}

/// The confirmation status a stored code stands for: zero is "tracked, not
/// yet confirmed", one is confirmed, anything above is finalized.
pub open spec fn decode_status(v: u8) -> Option<CommitmentLevel> {
    if v == 0 {
        None
    } else if v == 1 {
        Some(CommitmentLevel::Confirmed)
    } else {
        Some(CommitmentLevel::Finalized)
    }
}

/// Ordering weight of a stored status: confirmation levels by strength,
/// "not yet confirmed" below both.
pub open spec fn opt_strength(a: Option<CommitmentLevel>) -> nat {
    match a {
        None => 0,
        Some(level) => level.strength(),
    }
}

/// The stronger of two statuses, the stored one winning a tie.
pub open spec fn stronger_of(
    stored: Option<CommitmentLevel>,
    seen: Option<CommitmentLevel>,
) -> Option<CommitmentLevel> {
    if opt_strength(stored) >= opt_strength(seen) {
        stored
    } else {
        seen
    }
}

/// Observing `c` for signature `s` inserts it if the signature is new and
/// otherwise strengthens the stored status, never weakening it.
pub open spec fn spec_observe(
    m: Map<Seq<char>, Option<CommitmentLevel>>,
    s: Seq<char>,
    c: CommitmentLevel,
) -> Map<Seq<char>, Option<CommitmentLevel>> {
    let stored = if m.contains_key(s) {
        m[s]
    } else {
        None
    };
    m.insert(s, stronger_of(stored, Some(c)))
}

/// Law: an observation never weakens a stored status, and afterwards the
/// status is at least as strong as the level just observed.
pub proof fn lemma_observe_never_weakens(
    m: Map<Seq<char>, Option<CommitmentLevel>>,
    s: Seq<char>,
    c: CommitmentLevel,
)
    ensures
        m.contains_key(s) ==> opt_strength(spec_observe(m, s, c)[s]) >= opt_strength(m[s]),
        opt_strength(spec_observe(m, s, c)[s]) >= c.strength(),
{
}

/// Law: once a signature is recorded as finalized, a later observation at
/// any level leaves it finalized.
pub proof fn lemma_observe_monotonic(
    m: Map<Seq<char>, Option<CommitmentLevel>>,
    s: Seq<char>,
    c: CommitmentLevel,
)
    requires
        m.contains_key(s),
        m[s] == Some(CommitmentLevel::Finalized),
    ensures
        spec_observe(m, s, c)[s] == Some(CommitmentLevel::Finalized),
{
}

/// Relies on `dashmap::DashMap::new`: the fresh map is empty.
#[verifier::external_body]
fn status_map_new() -> (m: StatusMap)
    ensures
        status_map_of(m) == empty_status_codes(),
{
    DashMap::new()
}

/// Relies on `dashmap::DashMap::get`: returns the code stored under a key
/// equal to `k`, if there is one.
#[verifier::external_body]
fn status_map_get(m: &StatusMap, k: &String) -> (r: Option<u8>)
    ensures
        r == (if status_map_of(*m).contains_key(k@) {
            Some(status_map_of(*m)[k@])
        } else {
            None::<u8>
        }),
{
    match m.get(k) {
        Some(entry) => Some(*entry),
        None => None,
    }
}

/// Relies on `dashmap::DashMap::insert`: afterwards the map holds `v` under
/// `k` and every other key is unchanged.
#[verifier::external_body]
fn status_map_insert(m: &mut StatusMap, k: String, v: u8)
    ensures
        status_map_of(*final(m)) == status_map_of(*old(m)).insert(k@, v),
{
    m.insert(k, v);
}

/// Per submitted transaction signature, the strongest confirmation level
/// observed so far; `None` marks a signature that is tracked but has not
/// been confirmed at any level yet.
pub struct SignatureStatusTable {
    levels: StatusMap,
}

impl SignatureStatusTable {
    /// Builds an empty table.
    pub fn new() -> (r: Self)
        ensures
            r@ == empty_status_map(),
    {
        let r = SignatureStatusTable { levels: status_map_new() };
        proof {
            assert(r@ =~= empty_status_map());
        }
        r
    }

    /// Starts tracking a signature with no confirmation yet; a signature
    /// already present keeps its status.
    pub fn track(&mut self, signature: &String)
        ensures
            final(self)@ == (if old(self)@.contains_key(signature@) {
                old(self)@
            } else {
                old(self)@.insert(signature@, None)
            }),
    {
        let present = match status_map_get(&self.levels, signature) {
            Some(_) => true,
            None => false,
        };
        if !present {
            status_map_insert(&mut self.levels, signature.clone(), 0);
        }
        proof {
            if !old(self)@.contains_key(signature@) {
                assert(self@ =~= old(self)@.insert(signature@, None));
            } else {
                assert(self@ =~= old(self)@);
            }
        }
    }

    /// Records that `level` was observed for `signature`, strengthening the
    /// stored status monotonically: a stronger stored level stays.
    pub fn observe(&mut self, signature: &String, level: CommitmentLevel)
        ensures
            final(self)@ == spec_observe(old(self)@, signature@, level),
    {
        let stored_code: u8 = match status_map_get(&self.levels, signature) {
            Some(code) => code,
            None => 0,
        };
        let seen_code: u8 = match level {
            CommitmentLevel::Confirmed => 1,
            CommitmentLevel::Finalized => 2,
        };
        let new_code: u8 = if stored_code >= seen_code {
            stored_code
        } else {
            seen_code
        };
        status_map_insert(&mut self.levels, signature.clone(), new_code);
        proof {
            assert(self@ =~= spec_observe(old(self)@, signature@, level));
        }
    }

    /// The strongest confirmation level observed for `signature`, `None` when
    /// the signature is unknown or not yet confirmed.
    pub fn get(&self, signature: &String) -> (r: Option<CommitmentLevel>)
        ensures
            r == (if self@.contains_key(signature@) {
                self@[signature@]
            } else {
                None::<CommitmentLevel>
            }),
    {
        match status_map_get(&self.levels, signature) {
            Some(code) => {
                if code == 0 {
                    None
                } else if code == 1 {
                    Some(CommitmentLevel::Confirmed)
                } else {
                    Some(CommitmentLevel::Finalized)
                }
            },
            None => None,
        }
    }
}

impl View for SignatureStatusTable {
    type V = Map<Seq<char>, Option<CommitmentLevel>>;

    /// The table as a map from signature characters to the status observed.
    closed spec fn view(&self) -> Map<Seq<char>, Option<CommitmentLevel>> {
        Map::new(
            |s: Seq<char>| status_map_of(self.levels).contains_key(s),
            |s: Seq<char>| decode_status(status_map_of(self.levels)[s]),
        )
    }
}

} // verus!
