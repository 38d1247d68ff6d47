//! The roster: the providers that a detection probes for, in a fixed order.

use vstd::prelude::*;
use crate::provider_id::{
    is_lowercase_letter, lemma_name_identifies, lemma_name_is_lowercase, ProviderId,
};

verus! {

/// Whether `entries` can be a roster: no identity stands twice, and `Unknown`,
/// which is the result when nothing matched, is no entry.
pub open spec fn valid_roster(entries: Seq<ProviderId>) -> bool {
    &&& entries.no_duplicates()
    &&& !entries.contains(ProviderId::Unknown)
}

/// The entries of the standard roster: every provider, in the order of their
/// names.
pub open spec fn standard_entries() -> Seq<ProviderId> {
    seq![
        ProviderId::Akamai,
        ProviderId::Alibaba,
        ProviderId::AWS,
        ProviderId::Azure,
        ProviderId::DigitalOcean,
        ProviderId::GCP,
        ProviderId::OCI,
        ProviderId::OpenStack,
        ProviderId::Vultr,
    ]
}

/// Whether `names` are the canonical names of `entries`, one for one.
pub open spec fn names_match(names: Seq<String>, entries: Seq<ProviderId>) -> bool {
    &&& names.len() == entries.len()
    &&& forall|i: int| 0 <= i < names.len() ==> (#[trigger] names[i])@ == entries[i].name()
}

/// An ordered collection of provider identities, built once and then only
/// read.
pub struct Roster {
    entries: Vec<ProviderId>,
}

impl View for Roster {
    type V = Seq<ProviderId>;

    closed spec fn view(&self) -> Seq<ProviderId> {
        self.entries@
    }
}

impl Roster {
    #[verifier::type_invariant]
    spec fn well_formed(self) -> bool {
        valid_roster(self.entries@)
    }

    /// The empty roster.
    pub fn new() -> (roster: Roster)
        ensures
            roster@ == Seq::<ProviderId>::empty(),
    {
        Roster { entries: Vec::new() }
    }

    /// The standard roster, which holds every provider.
    pub fn standard() -> (roster: Roster)
        ensures
            roster@ == standard_entries(),
            valid_roster(roster@),
    {
        let mut entries: Vec<ProviderId> = Vec::new();
        entries.push(ProviderId::Akamai);
        entries.push(ProviderId::Alibaba);
        entries.push(ProviderId::AWS);
        entries.push(ProviderId::Azure);
        entries.push(ProviderId::DigitalOcean);
        entries.push(ProviderId::GCP);
        entries.push(ProviderId::OCI);
        entries.push(ProviderId::OpenStack);
        entries.push(ProviderId::Vultr);
        assert(entries@ =~= standard_entries());
        Roster { entries }
    }

    /// The roster with `id` added at the end. `Unknown` and an identity that
    /// is already an entry are not added: the roster comes back as it was.
    pub fn register(self, id: ProviderId) -> (roster: Roster)
        ensures
            roster@ == if id != ProviderId::Unknown && !self@.contains(id) {
                self@.push(id)
            } else {
                self@
            },
            valid_roster(roster@),
    {
        proof {
            use_type_invariant(&self);
        }
        if id == ProviderId::Unknown || self.contains(id) {
            self
        } else {
            let ghost before = self.entries@;
            let mut entries = self.entries;
            entries.push(id);
            assert(valid_roster(entries@)) by {
                assert forall|i: int, j: int|
                    0 <= i < entries@.len() && 0 <= j < entries@.len() && i != j
                    implies entries@[i] != entries@[j] by {
                    if i < before.len() {
                        assert(before.contains(before[i]));
                    }
                    if j < before.len() {
                        assert(before.contains(before[j]));
                    }
                }
                assert forall|i: int| 0 <= i < entries@.len()
                    implies entries@[i] != ProviderId::Unknown by {
                    if i < before.len() {
                        assert(before.contains(before[i]));
                    }
                }
            }
            Roster { entries }
        }
    }

    /// The number of entries.
    pub fn len(&self) -> (n: usize)
        ensures
            n == self@.len(),
    {
        self.entries.len()
    }

    /// Whether the roster has no entry.
    pub fn is_empty(&self) -> (empty: bool)
        ensures
            empty == (self@.len() == 0),
    {
        self.entries.len() == 0
    }

    /// The entry at `index`, if there is one.
    pub fn get(&self, index: usize) -> (entry: Option<ProviderId>)
        ensures
            entry == if index < self@.len() { Some(self@[index as int]) } else { None },
    {
        if index < self.entries.len() {
            Some(self.entries[index])
        } else {
            None
        }
    }

    /// Whether `id` is an entry.
    pub fn contains(&self, id: ProviderId) -> (found: bool)
        ensures
            found == self@.contains(id),
    {
        let mut i: usize = 0;
        while i < self.entries.len()
            invariant
                i <= self.entries@.len(),
                forall|k: int| 0 <= k < i ==> self.entries@[k] != id,
            decreases self.entries@.len() - i,
        {
            if self.entries[i] == id {
                return true;
            }
            i += 1;
        }
        false
    }

    /// The canonical names of the entries, in roster order. No name stands
    /// twice, and each is made of lowercase letters.
    pub fn names(&self) -> (names: Vec<String>)
        ensures
            names_match(names@, self@),
            distinct_lowercase(names@),
    {
        proof {
            use_type_invariant(self);
        }
        let mut names: Vec<String> = Vec::new();
        let mut i: usize = 0;
        while i < self.entries.len()
            invariant
                i <= self.entries@.len(),
                names@.len() == i,
                forall|k: int| 0 <= k < i ==> (#[trigger] names@[k])@ == self.entries@[k].name(),
            decreases self.entries@.len() - i,
        {
            names.push(self.entries[i].to_string());
            i += 1;
        }
        proof {
            law_names_are_distinct_and_lowercase(names@, self.entries@);
        }
        names
    }
}

/// Whether no two of `names` are the same text and each is a non-empty run of
/// lowercase letters.
pub open spec fn distinct_lowercase(names: Seq<String>) -> bool {
    &&& forall|i: int, j: int|
        0 <= i < names.len() && 0 <= j < names.len() && i != j ==> (#[trigger] names[i])@ != (
        #[trigger] names[j])@
    &&& forall|i: int| 0 <= i < names.len() ==> (#[trigger] names[i])@.len() > 0
    &&& forall|i: int, k: int|
        0 <= i < names.len() && 0 <= k < names[i]@.len() ==> is_lowercase_letter(
            #[trigger] names[i]@[k],
        )
}

/// The names of a roster are as many as its entries, no two of them are the
/// same, and each is a non-empty run of lowercase letters.
pub proof fn law_names_are_distinct_and_lowercase(names: Seq<String>, entries: Seq<ProviderId>)
    requires
        valid_roster(entries),
        names_match(names, entries),
    ensures
        distinct_lowercase(names),
{
    assert forall|i: int, j: int|
        0 <= i < names.len() && 0 <= j < names.len() && i != j implies (#[trigger] names[i])@ != (
    #[trigger] names[j])@ by {
        lemma_name_identifies(entries[i], entries[j]);
    }
    assert forall|i: int| 0 <= i < names.len() implies (#[trigger] names[i])@.len() > 0 by {
        lemma_name_is_lowercase(entries[i]);
    }
    assert forall|i: int, k: int|
        0 <= i < names.len() && 0 <= k < names[i]@.len() implies is_lowercase_letter(
        #[trigger] names[i]@[k],
    ) by {
        lemma_name_is_lowercase(entries[i]);
    }
}

/// The names of the providers that a detection with the standard roster
/// probes for, in roster order.
pub fn supported_providers() -> (names: Vec<String>)
    ensures
        names_match(names@, standard_entries()),
        distinct_lowercase(names@),
{
    Roster::standard().names()
}

} // verus!
