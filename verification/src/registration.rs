//! The registrations that validators have sent, the latest of each.

use crate::bytes::PublicKey;
use crate::error::BuilderError;
use crate::messages::{CheckedRegistration, SignedValidatorRegistration};
use vstd::prelude::*;

verus! {

/// Whether the entry at `i` is the registration of `key`.
spec fn holds_at(entries: Seq<SignedValidatorRegistration>, key: PublicKey, i: int) -> bool {
    0 <= i < entries.len() && entries[i].message.public_key == key
}

/// Whether some entry is the registration of `key`.
spec fn has_key(entries: Seq<SignedValidatorRegistration>, key: PublicKey) -> bool {
    exists|i: int| holds_at(entries, key, i)
}

/// Where the registration of `key` stands.
spec fn index_of(entries: Seq<SignedValidatorRegistration>, key: PublicKey) -> int {
    choose|i: int| holds_at(entries, key, i)
}

/// No two entries are registrations of one key.
spec fn distinct_keys(entries: Seq<SignedValidatorRegistration>) -> bool {
    forall|i: int, j: int|
        0 <= i < j < entries.len() ==> entries[i].message.public_key
            != entries[j].message.public_key
}

/// The entries as a map from public key to registration.
spec fn map_of(entries: Seq<SignedValidatorRegistration>) -> Map<
    PublicKey,
    SignedValidatorRegistration,
> {
    Map::new(|key: PublicKey| has_key(entries, key), |key: PublicKey| entries[index_of(entries, key)])
}

proof fn lemma_map_of_push(
    entries: Seq<SignedValidatorRegistration>,
    registration: SignedValidatorRegistration,
)
    requires
        distinct_keys(entries),
        !has_key(entries, registration.message.public_key),
    ensures
        distinct_keys(entries.push(registration)),
        map_of(entries.push(registration)) == map_of(entries).insert(
            registration.message.public_key,
            registration,
        ),
{
    let after = entries.push(registration);
    let new_key = registration.message.public_key;
    assert forall|i: int, j: int| 0 <= i < j < after.len() implies after[i].message.public_key
        != after[j].message.public_key by {
        if j == entries.len() {
            assert(!holds_at(entries, new_key, i));
        }
    }
    assert forall|key: PublicKey| has_key(after, key) <==> (key == new_key || has_key(entries, key)) by {
        if has_key(after, key) {
            let i = index_of(after, key);
            if i < entries.len() {
                assert(holds_at(entries, key, i));
            }
        }
        if key == new_key {
            assert(holds_at(after, key, entries.len() as int));
        }
        if has_key(entries, key) {
            assert(holds_at(after, key, index_of(entries, key)));
        }
    }
    assert forall|key: PublicKey| has_key(after, key) implies #[trigger] map_of(after)[key]
        == map_of(entries).insert(new_key, registration)[key] by {
        let i = index_of(after, key);
        if key == new_key {
            if i < entries.len() {
                assert(holds_at(entries, new_key, i));
            }
        } else {
            assert(holds_at(entries, key, i));
            let j = index_of(entries, key);
            assert(i == j);
        }
    }
    assert(map_of(after) =~= map_of(entries).insert(new_key, registration));
}

proof fn lemma_map_of_update(
    entries: Seq<SignedValidatorRegistration>,
    at: int,
    registration: SignedValidatorRegistration,
)
    requires
        distinct_keys(entries),
        holds_at(entries, registration.message.public_key, at),
    ensures
        distinct_keys(entries.update(at, registration)),
        map_of(entries.update(at, registration)) == map_of(entries).insert(
            registration.message.public_key,
            registration,
        ),
{
    let after = entries.update(at, registration);
    let new_key = registration.message.public_key;
    assert forall|key: PublicKey| has_key(after, key) <==> (key == new_key || has_key(entries, key)) by {
        if has_key(after, key) {
            let i = index_of(after, key);
            assert(holds_at(entries, key, i));
        }
        if key == new_key {
            assert(holds_at(after, key, at));
        }
        if has_key(entries, key) {
            assert(holds_at(after, key, index_of(entries, key)));
        }
    }
    assert forall|key: PublicKey| has_key(after, key) implies #[trigger] map_of(after)[key]
        == map_of(entries).insert(new_key, registration)[key] by {
        let i = index_of(after, key);
        if key == new_key {
            assert(i == at);
        } else {
            assert(holds_at(entries, key, i));
            let j = index_of(entries, key);
            assert(i == j);
        }
    }
    assert(map_of(after) =~= map_of(entries).insert(new_key, registration));
}

/// The cache after the first `count` registrations of a batch have been
/// stored in it, one after the other.
pub open spec fn registered(
    cache: Map<PublicKey, SignedValidatorRegistration>,
    batch: Seq<CheckedRegistration>,
    count: int,
) -> Map<PublicKey, SignedValidatorRegistration>
    decreases count,
{
    if count <= 0 {
        cache
    } else {
        registered(cache, batch, count - 1).insert(
            batch[count - 1].registration.message.public_key,
            batch[count - 1].registration,
        )
    }
}

/// Whether `count` registrations of a batch are stored before the call
/// returns: all of them, or those in front of the first whose signature does
/// not verify.
pub open spec fn stops_at(batch: Seq<CheckedRegistration>, count: int) -> bool {
    &&& 0 <= count <= batch.len()
    &&& forall|i: int| 0 <= i < count ==> #[trigger] batch[i].signature_valid
    &&& count < batch.len() ==> !batch[count].signature_valid
}

/// A batch stops at one place only: the number of registrations that are
/// stored is fixed by the batch.
pub proof fn lemma_stops_at_unique(batch: Seq<CheckedRegistration>, a: int, b: int)
    requires
        stops_at(batch, a),
        stops_at(batch, b),
    ensures
        a == b,
{
    if a < b {
        assert(batch[a].signature_valid);
    } else if b < a {
        assert(batch[b].signature_valid);
    }
}

/// A batch is not stored as a whole or not at all: where the second of three
/// registrations fails, the first is stored, and the third is stored no more
/// than it was before.
pub proof fn lemma_batch_stops_at_invalid(
    cache: Map<PublicKey, SignedValidatorRegistration>,
    batch: Seq<CheckedRegistration>,
)
    requires
        batch.len() == 3,
        batch[0].signature_valid,
        !batch[1].signature_valid,
    ensures
        stops_at(batch, 1),
        registered(cache, batch, 1).dom().contains(batch[0].registration.message.public_key),
        registered(cache, batch, 1)[batch[0].registration.message.public_key]
            == batch[0].registration,
        batch[2].registration.message.public_key != batch[0].registration.message.public_key
            ==> (registered(cache, batch, 1).dom().contains(
            batch[2].registration.message.public_key,
        ) <==> cache.dom().contains(batch[2].registration.message.public_key)),
{
    reveal_with_fuel(registered, 2);
}

/// Registering the same public key twice keeps the second registration
/// only: the cache is as if the first had never been stored.
pub proof fn lemma_registration_overwrite(
    cache: Map<PublicKey, SignedValidatorRegistration>,
    first: SignedValidatorRegistration,
    second: SignedValidatorRegistration,
)
    requires
        first.message.public_key == second.message.public_key,
    ensures
        cache.insert(first.message.public_key, first).insert(second.message.public_key, second)
            == cache.insert(second.message.public_key, second),
        cache.insert(first.message.public_key, first).insert(second.message.public_key, second)[
            first.message.public_key] == second,
{
    let key = first.message.public_key;
    assert(cache.insert(key, first).insert(key, second) =~= cache.insert(key, second));
}

/// The latest registration of each validator, by public key.
pub struct RegistrationCache {
    entries: Vec<SignedValidatorRegistration>,
}

impl View for RegistrationCache {
    type V = Map<PublicKey, SignedValidatorRegistration>;

    closed spec fn view(&self) -> Map<PublicKey, SignedValidatorRegistration> {
        map_of(self.entries@)
    }
}

impl RegistrationCache {
    /// No two stored registrations are of one public key.
    pub closed spec fn wf(&self) -> bool {
        distinct_keys(self.entries@)
    }

    /// Every registration is stored under its own public key.
    pub proof fn lemma_stored_under_own_key(self, key: PublicKey)
        requires
            self@.dom().contains(key),
        ensures
            self@[key].message.public_key == key,
    {
        assert(holds_at(self.entries@, key, index_of(self.entries@, key)));
    }

    /// An empty cache.
    pub fn new() -> (out: Self)
        ensures
            out.wf(),
            out@ == Map::<PublicKey, SignedValidatorRegistration>::empty(),
    {
        let out = RegistrationCache { entries: Vec::new() };
        assert(out@ =~= Map::<PublicKey, SignedValidatorRegistration>::empty()) by {
            assert forall|key: PublicKey| !has_key(out.entries@, key) by {
                if has_key(out.entries@, key) {
                    assert(holds_at(out.entries@, key, index_of(out.entries@, key)));
                }
            }
        }
        out
    }

    /// Where the registration of `key` stands, if there is one.
    fn position(&self, key: &PublicKey) -> (at: Option<usize>)
        ensures
            match at {
                Some(i) => holds_at(self.entries@, *key, i as int),
                None => !has_key(self.entries@, *key),
            },
    {
        let mut i: usize = 0;
        while i < self.entries.len()
            invariant
                i <= self.entries@.len(),
                forall|j: int| 0 <= j < i ==> !holds_at(self.entries@, *key, j),
            decreases self.entries@.len() - i,
        {
            if self.entries[i].message.public_key == *key {
                return Some(i);
            }
            i += 1;
        }
        assert(!has_key(self.entries@, *key)) by {
            if has_key(self.entries@, *key) {
                assert(holds_at(self.entries@, *key, index_of(self.entries@, *key)));
            }
        }
        None
    }

    /// The registration stored for a public key.
    pub fn lookup(&self, public_key: &PublicKey) -> (found: Option<SignedValidatorRegistration>)
        requires
            self.wf(),
        ensures
            found is Some <==> self@.dom().contains(*public_key),
            found matches Some(registration) ==> registration == self@[*public_key]
                && registration.message.public_key == *public_key,
    {
        match self.position(public_key) {
            None => None,
            Some(i) => {
                assert(holds_at(self.entries@, *public_key, index_of(self.entries@, *public_key)));
                Some(self.entries[i])
            },
        }
    }

    /// Stores a registration under its public key, in place of the one that
    /// was stored for that key, if any.
    pub fn insert(&mut self, registration: SignedValidatorRegistration)
        requires
            old(self).wf(),
        ensures
            final(self).wf(),
            final(self)@ == old(self)@.insert(registration.message.public_key, registration),
    {
        match self.position(&registration.message.public_key) {
            Some(i) => {
                proof {
                    lemma_map_of_update(self.entries@, i as int, registration);
                }
                self.entries[i] = registration;
            },
            None => {
                proof {
                    lemma_map_of_push(self.entries@, registration);
                }
                self.entries.push(registration);
            },
        }
    }

    /// Stores the registrations of a batch in order, up to the first whose
    /// signature does not verify. That one fails the call; those in front of
    /// it stay stored, and those behind it are not looked at.
    pub fn register(&mut self, batch: &[CheckedRegistration]) -> (r: Result<(), BuilderError>)
        requires
            old(self).wf(),
        ensures
            final(self).wf(),
            match r {
                Ok(()) => stops_at(batch@, batch@.len() as int) && final(self)@ == registered(
                    old(self)@,
                    batch@,
                    batch@.len() as int,
                ),
                Err(e) => e matches BuilderError::SignatureInvalid { index } && index
                    < batch@.len() && stops_at(batch@, index as int) && final(self)@
                    == registered(old(self)@, batch@, index as int),
            },
    {
        let mut i: usize = 0;
        while i < batch.len()
            invariant
                i <= batch@.len(),
                self.wf(),
                forall|j: int| 0 <= j < i ==> #[trigger] batch@[j].signature_valid,
                self@ == registered(old(self)@, batch@, i as int),
            decreases batch@.len() - i,
        {
            if !batch[i].signature_valid {
                return Err(BuilderError::SignatureInvalid { index: i });
            }
            self.insert(batch[i].registration);
            i += 1;
        }
        Ok(())
    }
}

} // verus!
