//! Retrieval of a round: from the records found under the round's tag to
//! the payloads that count as contributions.
use vstd::prelude::*;
use crate::bytes::to_vec;
use crate::chain::{check_record, verdict, Evidence, EvidenceView};
use crate::clock::clock_unix;
use crate::error::Rejection;
use crate::ledger::{contains_id, ids_view, take_new};

verus! {

/// One record found under a round's tag: the identifier that the ledger
/// gave it, and what the collaborators say about it.
#[derive(Clone, Debug, PartialEq, Eq)]
pub struct Entry {
    pub id: Vec<u8>,
    pub evidence: Evidence,
}

/// Mathematical content of an [`Entry`].
pub struct EntryView {
    pub id: Seq<u8>,
    pub evidence: EvidenceView,
}

impl View for Entry {
    type V = EntryView;

    open spec fn view(&self) -> EntryView {
        EntryView { id: self.id@, evidence: self.evidence@ }
    }
}

/// The views of a list of entries.
pub open spec fn entry_views(entries: Seq<Entry>) -> Seq<EntryView> {
    Seq::new(entries.len(), |i: int| entries[i]@)
}

/// The views of a list of payloads.
pub open spec fn payload_views(payloads: Seq<Vec<u8>>) -> Seq<Seq<u8>> {
    Seq::new(payloads.len(), |i: int| payloads[i]@)
}

/// The payloads that a reader accepts from `entries`, having seen the
/// identifiers `seen`: entries are taken in order, one whose identifier was
/// seen is passed over, and reading stops once `target` identifiers are
/// seen. Each entry that is taken contributes its payload if its check
/// accepts it.
pub open spec fn collected(
    seen: Seq<Seq<u8>>,
    entries: Seq<EntryView>,
    target: nat,
    issuer: Seq<u8>,
    now: int,
) -> Seq<Seq<u8>>
    decreases entries.len(),
{
    if entries.len() == 0 || seen.len() >= target {
        Seq::empty()
    } else if seen.contains(entries[0].id) {
        collected(seen, entries.drop_first(), target, issuer, now)
    } else {
        let rest = collected(seen.push(entries[0].id), entries.drop_first(), target, issuer, now);
        match verdict(issuer, entries[0].evidence, now) {
            Ok(payload) => seq![payload] + rest,
            Err(_) => rest,
        }
    }
}

/// The contributions of a round, from the records found under its tag, as
/// of `now`.
///
/// `entries` are the records in the order in which the ledger listed them,
/// over as many queries as were made. The first `clients_number` distinct
/// identifiers are checked, each once; the payloads of those that pass the
/// integrity chain against `issuer` are returned in that order.
///
/// This is for a reader that has the evidence at hand. One that reads the
/// ledger as it goes asks step by step, with `Poller` and `RecordCheck`,
/// and fetches nothing for a record that has already failed; the
/// identifiers taken and the verdicts are the same.
pub fn get_models_at(entries: &Vec<Entry>, clients_number: usize, issuer: &[u8], now: i64) -> (models:
    Vec<Vec<u8>>)
    ensures
        payload_views(models@) == collected(
            Seq::empty(),
            entry_views(entries@),
            clients_number as nat,
            issuer@,
            now as int,
        ),
{
    let ghost all = entry_views(entries@);
    let ghost goal = collected(Seq::empty(), all, clients_number as nat, issuer@, now as int);
    let mut models: Vec<Vec<u8>> = Vec::new();
    let mut seen: Vec<Vec<u8>> = Vec::new();
    let mut i: usize = 0;
    assert(all.skip(0) =~= all);
    assert(ids_view(seen@) =~= Seq::empty());
    assert(payload_views(models@) + goal =~= goal);
    while i < entries.len() && seen.len() < clients_number
        invariant
            i <= entries.len(),
            all == entry_views(entries@),
            goal == payload_views(models@) + collected(
                ids_view(seen@),
                all.skip(i as int),
                clients_number as nat,
                issuer@,
                now as int,
            ),
        decreases entries.len() - i,
    {
        let ghost rest = all.skip(i as int);
        let ghost before = ids_view(seen@);
        let ghost got = payload_views(models@);
        assert(rest[0] == entries@[i as int]@);
        assert(rest.drop_first() =~= all.skip(i + 1));
        let entry = &entries[i];
        if !contains_id(&seen, entry.id.as_slice()) {
            seen.push(to_vec(entry.id.as_slice()));
            assert(ids_view(seen@) =~= before.push(rest[0].id));
            let ghost tail = collected(
                ids_view(seen@),
                all.skip(i + 1),
                clients_number as nat,
                issuer@,
                now as int,
            );
            match check_record(&entry.evidence, issuer, now) {
                Ok(payload) => {
                    models.push(payload);
                    assert(payload_views(models@) =~= got.push(payload@));
                    assert(got.push(payload@) + tail =~= got + (seq![payload@] + tail));
                },
                Err(_) => {},
            }
        }
        i = i + 1;
    }
    proof {
        let tail = collected(
            ids_view(seen@),
            all.skip(i as int),
            clients_number as nat,
            issuer@,
            now as int,
        );
        assert(tail =~= Seq::empty());
        assert(payload_views(models@) + tail =~= payload_views(models@));
    }
    models
}

/// The contributions of a round, from the records found under its tag, as
/// of the moment of the call. The clock is read once; the outcome is the
/// one that [`collected`] gives for that reading.
pub fn get_models(entries: &Vec<Entry>, clients_number: usize, issuer: &[u8]) -> (models: Vec<Vec<u8>>)
    ensures
        exists|now: int|
            payload_views(models@) == #[trigger] collected(
                Seq::empty(),
                entry_views(entries@),
                clients_number as nat,
                issuer@,
                now,
            ),
{
    let now = clock_unix();
    get_models_at(entries, clients_number, issuer, now)
}

/// A reader accepts at most one payload for each identifier it still has
/// room for: never more than the round's target allows.
pub proof fn lemma_collected_bounded(
    seen: Seq<Seq<u8>>,
    entries: Seq<EntryView>,
    target: nat,
    issuer: Seq<u8>,
    now: int,
)
    ensures
        seen.len() <= target ==> collected(seen, entries, target, issuer, now).len() + seen.len()
            <= target,
        seen.len() > target ==> collected(seen, entries, target, issuer, now).len() == 0,
    decreases entries.len(),
{
    if entries.len() == 0 || seen.len() >= target {
    } else if seen.contains(entries[0].id) {
        lemma_collected_bounded(seen, entries.drop_first(), target, issuer, now);
    } else {
        lemma_collected_bounded(
            seen.push(entries[0].id),
            entries.drop_first(),
            target,
            issuer,
            now,
        );
    }
}

/// Every payload that a reader accepts is the payload of an entry whose
/// check accepted it.
pub proof fn lemma_collected_are_accepted(
    seen: Seq<Seq<u8>>,
    entries: Seq<EntryView>,
    target: nat,
    issuer: Seq<u8>,
    now: int,
)
    ensures
        forall|k: int|
            0 <= k < collected(seen, entries, target, issuer, now).len() ==> exists|j: int|
                0 <= j < entries.len() && verdict(issuer, entries[j].evidence, now) == Ok::<
                    Seq<u8>,
                    Rejection,
                >(#[trigger] collected(seen, entries, target, issuer, now)[k]),
    decreases entries.len(),
{
    let out = collected(seen, entries, target, issuer, now);
    if entries.len() == 0 || seen.len() >= target {
    } else {
        let rest = entries.drop_first();
        let next = if seen.contains(entries[0].id) {
            seen
        } else {
            seen.push(entries[0].id)
        };
        let tail = collected(next, rest, target, issuer, now);
        lemma_collected_are_accepted(next, rest, target, issuer, now);
        assert forall|k: int| 0 <= k < out.len() implies exists|j: int|
            0 <= j < entries.len() && verdict(issuer, entries[j].evidence, now) == Ok::<
                Seq<u8>,
                Rejection,
            >(#[trigger] out[k]) by {
            let shift: int = out.len() - tail.len();
            if k < shift {
                assert(verdict(issuer, entries[0].evidence, now) == Ok::<Seq<u8>, Rejection>(out[k]));
            } else {
                assert(out[k] == tail[k - shift]);
                let j = choose|j: int|
                    0 <= j < rest.len() && verdict(issuer, rest[j].evidence, now) == Ok::<
                        Seq<u8>,
                        Rejection,
                    >(tail[k - shift]);
                assert(entries[j + 1] == rest[j]);
            }
        }
    }
}

/// The identifiers of a list of entries.
pub open spec fn entry_ids(entries: Seq<EntryView>) -> Seq<Seq<u8>> {
    Seq::new(entries.len(), |i: int| entries[i].id)
}

/// A reader checks exactly the records that a poller would newly take from
/// the same listing: it accepts no more payloads than identifiers are newly
/// seen, and as many where every check passes. So where the listing holds
/// at least the target number of distinct identifiers and every record
/// passes, exactly the target number of payloads is returned.
pub proof fn lemma_collected_follows_poller(
    seen: Seq<Seq<u8>>,
    entries: Seq<EntryView>,
    target: nat,
    issuer: Seq<u8>,
    now: int,
)
    ensures
        collected(seen, entries, target, issuer, now).len() + seen.len() <= take_new(
            seen,
            entry_ids(entries),
            target,
        ).len(),
        (forall|j: int| 0 <= j < entries.len() ==> verdict(issuer, #[trigger] entries[j].evidence, now) is Ok)
            ==> collected(seen, entries, target, issuer, now).len() + seen.len() == take_new(
            seen,
            entry_ids(entries),
            target,
        ).len(),
    decreases entries.len(),
{
    let ids = entry_ids(entries);
    if entries.len() == 0 || seen.len() >= target {
    } else {
        let rest = entries.drop_first();
        assert(entry_ids(rest) =~= ids.drop_first());
        assert(ids[0] == entries[0].id);
        let next = if seen.contains(entries[0].id) {
            seen
        } else {
            seen.push(entries[0].id)
        };
        lemma_collected_follows_poller(next, rest, target, issuer, now);
        if forall|j: int| 0 <= j < entries.len() ==> verdict(issuer, #[trigger] entries[j].evidence, now) is Ok {
            assert forall|j: int| 0 <= j < rest.len() implies verdict(
                issuer,
                #[trigger] rest[j].evidence,
                now,
            ) is Ok by {
                assert(rest[j] == entries[j + 1]);
            }
            assert(verdict(issuer, entries[0].evidence, now) is Ok);
        }
    }
}

} // verus!
