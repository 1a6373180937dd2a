//! The ledger as a broadcast channel: what is anchored under a round's tag,
//! and the rule by which a reader collects a round's records.
use vstd::prelude::*;
use vstd::seq_lib::*;
use vstd::set_lib::*;
use crate::bytes::{ascii, bytes_eq, literal, to_vec};

verus! {

/// What every round's tag starts with.
pub open spec fn tag_prefix() -> Seq<u8> {
    ascii("IOTAFederatedLearning#"@)
}

/// The tag under which the records of round `index` are anchored.
pub open spec fn tag_of(index: Seq<u8>) -> Seq<u8> {
    tag_prefix() + index
}

/// Builds the tag of round `index`.
pub fn round_tag(index: &[u8]) -> (r: Vec<u8>)
    ensures
        r@ == tag_of(index@),
{
    proof {
        reveal_strlit("IOTAFederatedLearning#");
    }
    let mut r = literal("IOTAFederatedLearning#");
    r.extend_from_slice(index);
    r
}

/// The identifiers in a list, as byte sequences.
pub open spec fn ids_view(ids: Seq<Vec<u8>>) -> Seq<Seq<u8>> {
    Seq::new(ids.len(), |i: int| ids[i]@)
}

/// The identifiers seen after a query answered `fetched`: those seen before,
/// then each identifier of `fetched` that was not yet seen, in the order of
/// the answer, until `target` identifiers are seen.
pub open spec fn take_new(seen: Seq<Seq<u8>>, fetched: Seq<Seq<u8>>, target: nat) -> Seq<Seq<u8>>
    decreases fetched.len(),
{
    if fetched.len() == 0 || seen.len() >= target {
        seen
    } else if seen.contains(fetched[0]) {
        take_new(seen, fetched.drop_first(), target)
    } else {
        take_new(seen.push(fetched[0]), fetched.drop_first(), target)
    }
}

/// What a reader of a round does next.
#[derive(Clone, Copy, Debug, PartialEq, Eq, Structural)]
pub enum PollAction {
    /// Wait for `pause_ms` milliseconds, query the ledger for the tag, and
    /// hand the answer to [`Poller::absorb`].
    Query { pause_ms: u32 },
    /// The target number of distinct records has been seen.
    Done,
    /// Records are still missing, and the allowed number of queries is used
    /// up or the deadline has passed.
    GiveUp,
}

/// How long and how often a reader keeps asking.
#[derive(Clone, Copy, Debug, PartialEq, Eq)]
pub struct RetryPolicy {
    /// How many queries may be made.
    pub max_polls: u32,
    /// Unix seconds after which no query is made.
    pub deadline: i64,
    /// Milliseconds to wait before the second query; the wait doubles with
    /// each further query.
    pub first_pause_ms: u32,
    /// The longest wait between two queries, in milliseconds.
    pub max_pause_ms: u32,
}

/// Collects the identifiers of a round's records until a target number of
/// distinct ones has been seen, within a bounded number of queries and
/// before a deadline, pausing longer between queries as they go on.
#[derive(Clone, Debug, PartialEq, Eq)]
pub struct Poller {
    /// The identifiers seen so far, in the order in which they were seen.
    pub seen: Vec<Vec<u8>>,
    /// How many distinct records the round needs.
    pub target: usize,
    /// How many queries may still be made.
    pub polls_left: u32,
    /// Milliseconds to wait before the next query.
    pub pause_ms: u32,
    pub policy: RetryPolicy,
}

/// Mathematical content of a [`Poller`].
pub struct PollerView {
    pub seen: Seq<Seq<u8>>,
    pub target: nat,
    pub polls_left: nat,
    pub pause_ms: nat,
    pub policy: RetryPolicy,
}

impl View for Poller {
    type V = PollerView;

    open spec fn view(&self) -> PollerView {
        PollerView {
            seen: ids_view(self.seen@),
            target: self.target as nat,
            polls_left: self.polls_left as nat,
            pause_ms: self.pause_ms as nat,
            policy: self.policy,
        }
    }
}

/// The wait that follows a wait of `pause_ms` milliseconds: the first pause
/// after none, else twice as long, and never longer than the longest pause.
pub open spec fn next_pause(pause_ms: nat, policy: RetryPolicy) -> nat {
    let grown = if pause_ms == 0 {
        policy.first_pause_ms as nat
    } else {
        2 * pause_ms
    };
    if grown > policy.max_pause_ms {
        policy.max_pause_ms as nat
    } else {
        grown
    }
}

/// The wait of `pause_ms` milliseconds, cut down to the `left` seconds
/// that remain before the deadline.
pub open spec fn capped_pause(pause_ms: nat, left: int) -> u32 {
    if pause_ms <= left * 1000 {
        pause_ms as u32
    } else {
        (left * 1000) as u32
    }
}

impl RetryPolicy {
    /// A policy that bounds the reader and makes it pause: at least one
    /// query, a first pause that is not zero, and a longest pause no
    /// shorter than the first.
    pub open spec fn sound(self) -> bool {
        self.max_polls > 0 && 0 < self.first_pause_ms <= self.max_pause_ms
    }

    /// Whether the policy bounds the reader and makes it pause.
    pub fn is_sound(&self) -> (r: bool)
        ensures
            r == self.sound(),
    {
        self.max_polls > 0 && 0 < self.first_pause_ms && self.first_pause_ms <= self.max_pause_ms
    }
}

impl PollerView {
    /// No identifier is counted twice, no more than the target are held,
    /// and the reader stays within its policy.
    pub open spec fn well_formed(self) -> bool {
        &&& self.seen.no_duplicates()
        &&& self.seen.len() <= self.target
        &&& self.polls_left <= self.policy.max_polls
        &&& self.pause_ms <= self.policy.max_pause_ms
    }

    /// What the reader does next, at the time `now`. The wait before a
    /// query is cut short where the deadline comes first, so that no query
    /// is begun after it.
    pub open spec fn next(self, now: int) -> PollAction {
        if self.seen.len() >= self.target {
            PollAction::Done
        } else if self.polls_left == 0 || now > self.policy.deadline {
            PollAction::GiveUp
        } else {
            PollAction::Query { pause_ms: capped_pause(self.pause_ms, self.policy.deadline - now) }
        }
    }

    /// The poller after a query answered `fetched`.
    pub open spec fn absorbed(self, fetched: Seq<Seq<u8>>) -> PollerView {
        PollerView {
            seen: take_new(self.seen, fetched, self.target),
            target: self.target,
            polls_left: if self.polls_left > 0 {
                (self.polls_left - 1) as nat
            } else {
                0
            },
            pause_ms: next_pause(self.pause_ms, self.policy),
            policy: self.policy,
        }
    }
}

/// Whether `id` is among `ids`.
pub fn contains_id(ids: &Vec<Vec<u8>>, id: &[u8]) -> (r: bool)
    ensures
        r == ids_view(ids@).contains(id@),
{
    let mut i: usize = 0;
    while i < ids.len()
        invariant
            i <= ids.len(),
            forall|k: int| 0 <= k < i ==> ids_view(ids@)[k] != id@,
        decreases ids.len() - i,
    {
        if bytes_eq(ids[i].as_slice(), id) {
            assert(ids_view(ids@)[i as int] == id@);
            return true;
        }
        i = i + 1;
    }
    false
}

impl Poller {
    /// A poller that has seen nothing, for a round of `target` records,
    /// under the retry policy `policy`. There is none under a policy that
    /// does not bound the reader or does not make it pause.
    pub fn new(target: usize, policy: RetryPolicy) -> (r: Option<Poller>)
        ensures
            r is Some <==> policy.sound(),
            r matches Some(p) ==> p@ == (PollerView {
                seen: Seq::empty(),
                target: target as nat,
                polls_left: policy.max_polls as nat,
                pause_ms: 0,
                policy,
            }) && p@.well_formed(),
    {
        if !policy.is_sound() {
            return None;
        }
        let p = Poller { seen: Vec::new(), target, polls_left: policy.max_polls, pause_ms: 0, policy };
        assert(p@.seen =~= Seq::empty());
        Some(p)
    }

    /// What the reader does next, at the time `now`.
    pub fn next(&self, now: i64) -> (r: PollAction)
        ensures
            r == self@.next(now as int),
    {
        if self.seen.len() >= self.target {
            PollAction::Done
        } else if self.polls_left == 0 || now > self.policy.deadline {
            PollAction::GiveUp
        } else {
            let left_ms: i128 = (self.policy.deadline as i128 - now as i128) * 1000;
            if self.pause_ms as i128 <= left_ms {
                PollAction::Query { pause_ms: self.pause_ms }
            } else {
                PollAction::Query { pause_ms: left_ms as u32 }
            }
        }
    }

    fn grow_pause(&mut self)
        ensures
            final(self).pause_ms == next_pause(old(self).pause_ms as nat, old(self).policy),
            final(self).seen == old(self).seen,
            final(self).target == old(self).target,
            final(self).polls_left == old(self).polls_left,
            final(self).policy == old(self).policy,
    {
        let cap = self.policy.max_pause_ms;
        let grown: u32 = if self.pause_ms == 0 {
            self.policy.first_pause_ms
        } else if self.pause_ms > cap / 2 {
            cap
        } else {
            2 * self.pause_ms
        };
        self.pause_ms = if grown > cap {
            cap
        } else {
            grown
        };
    }

    /// Takes in the answer to one query. Identifiers already seen are passed
    /// over; the others are recorded in the order of the answer until the
    /// target is reached. Returns the identifiers that were newly recorded:
    /// the records to fetch and verify.
    pub fn absorb(&mut self, fetched: &Vec<Vec<u8>>) -> (fresh: Vec<Vec<u8>>)
        ensures
            final(self)@ == old(self)@.absorbed(ids_view(fetched@)),
            old(self)@.seen.len() <= final(self)@.seen.len(),
            ids_view(fresh@) == final(self)@.seen.skip(old(self)@.seen.len() as int),
    {
        let ghost before = self@;
        let ghost answer = ids_view(fetched@);
        let mut fresh: Vec<Vec<u8>> = Vec::new();
        let mut i: usize = 0;
        assert(answer.skip(0) =~= answer);
        assert(ids_view(fresh@) =~= self@.seen.skip(before.seen.len() as int));
        while i < fetched.len() && self.seen.len() < self.target
            invariant
                i <= fetched.len(),
                answer == ids_view(fetched@),
                self.target == before.target,
                self.polls_left == before.polls_left,
                self.pause_ms == before.pause_ms,
                self.policy == before.policy,
                before.seen.len() <= self@.seen.len(),
                take_new(before.seen, answer, before.target) == take_new(
                    self@.seen,
                    answer.skip(i as int),
                    before.target,
                ),
                ids_view(fresh@) == self@.seen.skip(before.seen.len() as int),
            decreases fetched.len() - i,
        {
            let ghost cur = self@.seen;
            let ghost rest = answer.skip(i as int);
            assert(rest[0] == fetched@[i as int]@);
            assert(rest.drop_first() =~= answer.skip(i + 1));
            if !contains_id(&self.seen, fetched[i].as_slice()) {
                let id = to_vec(fetched[i].as_slice());
                let copy = to_vec(fetched[i].as_slice());
                let ghost old_fresh = ids_view(fresh@);
                self.seen.push(id);
                fresh.push(copy);
                assert(self@.seen =~= cur.push(rest[0]));
                assert(ids_view(fresh@) =~= old_fresh.push(rest[0]));
                assert(ids_view(fresh@) =~= self@.seen.skip(before.seen.len() as int));
            }
            i = i + 1;
        }
        if self.polls_left > 0 {
            self.polls_left = self.polls_left - 1;
        }
        self.grow_pause();
        fresh
    }

    /// How many distinct records have been seen.
    pub fn count(&self) -> (n: usize)
        ensures
            n == self@.seen.len(),
    {
        self.seen.len()
    }
}

/// Identifiers are taken from the answer only: whatever is seen after a
/// query was seen before or stands in the answer, and what was seen before
/// stays, in place.
pub proof fn lemma_take_new_extends(seen: Seq<Seq<u8>>, fetched: Seq<Seq<u8>>, target: nat)
    ensures
        seen.len() <= take_new(seen, fetched, target).len(),
        take_new(seen, fetched, target).subrange(0, seen.len() as int) == seen,
        forall|id: Seq<u8>| #[trigger]
            take_new(seen, fetched, target).contains(id) ==> seen.contains(id) || fetched.contains(
                id,
            ),
    decreases fetched.len(),
{
    let out = take_new(seen, fetched, target);
    if fetched.len() == 0 || seen.len() >= target {
        assert(out.subrange(0, seen.len() as int) =~= seen);
    } else {
        let rest = fetched.drop_first();
        let next = if seen.contains(fetched[0]) {
            seen
        } else {
            seen.push(fetched[0])
        };
        lemma_take_new_extends(next, rest, target);
        assert(out.subrange(0, seen.len() as int) =~= out.subrange(0, next.len() as int).subrange(
            0,
            seen.len() as int,
        ));
        assert(next.subrange(0, seen.len() as int) =~= seen);
        assert forall|id: Seq<u8>| #[trigger] out.contains(id) implies seen.contains(id)
            || fetched.contains(id) by {
            if next.contains(id) {
                if !seen.contains(id) {
                    let k = choose|k: int| 0 <= k < next.len() && next[k] == id;
                    assert(k == seen.len());
                    assert(fetched[0] == id);
                }
            } else {
                assert(rest.contains(id));
                let k = choose|k: int| 0 <= k < rest.len() && rest[k] == id;
                assert(fetched[k + 1] == id);
            }
        }
    }
}

/// No identifier is counted twice: a list without repetitions stays so, and
/// within the target.
pub proof fn lemma_take_new_distinct(seen: Seq<Seq<u8>>, fetched: Seq<Seq<u8>>, target: nat)
    requires
        seen.no_duplicates(),
        seen.len() <= target,
    ensures
        take_new(seen, fetched, target).no_duplicates(),
        take_new(seen, fetched, target).len() <= target,
    decreases fetched.len(),
{
    if fetched.len() == 0 || seen.len() >= target {
    } else if seen.contains(fetched[0]) {
        lemma_take_new_distinct(seen, fetched.drop_first(), target);
    } else {
        let next = seen.push(fetched[0]);
        assert forall|i: int, j: int| 0 <= i < next.len() && 0 <= j < next.len() && i != j implies next[i]
            != next[j] by {
            if i == seen.len() {
                assert(seen[j] == next[j]);
            } else if j == seen.len() {
                assert(seen[i] == next[i]);
            }
        }
        lemma_take_new_distinct(next, fetched.drop_first(), target);
    }
}

/// The identifiers that were seen before or stand in the answer.
pub open spec fn known(seen: Seq<Seq<u8>>, fetched: Seq<Seq<u8>>) -> Set<Seq<u8>> {
    seen.to_set().union(fetched.to_set())
}

/// The count after a query: as many identifiers as are known, but no more
/// than the target. So a reader that starts with nothing and is answered at
/// least `target` distinct identifiers holds exactly `target` of them.
pub proof fn lemma_take_new_count(seen: Seq<Seq<u8>>, fetched: Seq<Seq<u8>>, target: nat)
    requires
        seen.no_duplicates(),
        seen.len() <= target,
    ensures
        known(seen, fetched).finite(),
        take_new(seen, fetched, target).len() == if known(seen, fetched).len() <= target {
            known(seen, fetched).len()
        } else {
            target
        },
    decreases fetched.len(),
{
    seq_to_set_is_finite(seen);
    seq_to_set_is_finite(fetched);
    seen.unique_seq_to_set();
    if fetched.len() == 0 {
        assert(known(seen, fetched) =~= seen.to_set());
    } else if seen.len() >= target {
        lemma_len_subset(seen.to_set(), known(seen, fetched));
    } else {
        let rest = fetched.drop_first();
        assert(fetched.to_set() =~= rest.to_set().insert(fetched[0])) by {
            assert forall|id: Seq<u8>| fetched.to_set().contains(id) implies rest.to_set().insert(
                fetched[0],
            ).contains(id) by {
                let k = choose|k: int| 0 <= k < fetched.len() && fetched[k] == id;
                if k > 0 {
                    assert(rest[k - 1] == id);
                }
            }
            assert forall|id: Seq<u8>| rest.to_set().insert(fetched[0]).contains(id) implies fetched.to_set().contains(
                id,
            ) by {
                if id != fetched[0] {
                    let k = choose|k: int| 0 <= k < rest.len() && rest[k] == id;
                    assert(fetched[k + 1] == id);
                } else {
                    assert(fetched[0] == id);
                }
            }
        }
        if seen.contains(fetched[0]) {
            assert(known(seen, fetched) =~= known(seen, rest));
            lemma_take_new_count(seen, rest, target);
        } else {
            let next = seen.push(fetched[0]);
            assert(next.to_set() =~= seen.to_set().insert(fetched[0])) by {
                assert forall|id: Seq<u8>| next.to_set().contains(id) implies seen.to_set().insert(
                    fetched[0],
                ).contains(id) by {
                    let k = choose|k: int| 0 <= k < next.len() && next[k] == id;
                    if k < seen.len() {
                        assert(seen[k] == id);
                    }
                }
                assert forall|id: Seq<u8>| seen.to_set().insert(fetched[0]).contains(id) implies next.to_set().contains(
                    id,
                ) by {
                    if id == fetched[0] {
                        assert(next[seen.len() as int] == id);
                    } else {
                        let k = choose|k: int| 0 <= k < seen.len() && seen[k] == id;
                        assert(next[k] == id);
                    }
                }
            }
            assert(known(seen, fetched) =~= known(next, rest));
            assert forall|i: int, j: int| 0 <= i < next.len() && 0 <= j < next.len() && i != j implies next[i]
                != next[j] by {
                if i == seen.len() {
                    assert(seen[j] == next[j]);
                } else if j == seen.len() {
                    assert(seen[i] == next[i]);
                }
            }
            lemma_take_new_count(next, rest, target);
        }
    }
}

/// Where the target is not exceeded, the reader ends up holding exactly the
/// known identifiers, in whatever order the answer lists them.
pub proof fn lemma_take_new_any_order(seen: Seq<Seq<u8>>, fetched: Seq<Seq<u8>>, target: nat)
    requires
        seen.no_duplicates(),
        known(seen, fetched).len() <= target,
    ensures
        take_new(seen, fetched, target).to_set() == known(seen, fetched),
    decreases fetched.len(),
{
    seq_to_set_is_finite(seen);
    seq_to_set_is_finite(fetched);
    seen.unique_seq_to_set();
    lemma_len_subset(seen.to_set(), known(seen, fetched));
    lemma_take_new_count(seen, fetched, target);
    lemma_take_new_distinct(seen, fetched, target);
    lemma_take_new_extends(seen, fetched, target);
    let out = take_new(seen, fetched, target);
    out.unique_seq_to_set();
    seq_to_set_is_finite(out);
    assert(out.to_set().subset_of(known(seen, fetched))) by {
        assert forall|id: Seq<u8>| out.to_set().contains(id) implies known(seen, fetched).contains(
            id,
        ) by {
            assert(out.contains(id));
        }
    }
    lemma_subset_equality(out.to_set(), known(seen, fetched));
}

/// A well-formed poller stays well formed over a query, and once the
/// known identifiers reach the target it is done with exactly the target
/// number of distinct identifiers.
pub proof fn lemma_absorbed(p: PollerView, fetched: Seq<Seq<u8>>, now: int)
    requires
        p.well_formed(),
    ensures
        p.absorbed(fetched).well_formed(),
        known(p.seen, fetched).finite(),
        known(p.seen, fetched).len() >= p.target ==> p.absorbed(fetched).seen.len() == p.target
            && p.absorbed(fetched).next(now) == PollAction::Done,
        known(p.seen, fetched).len() < p.target ==> p.absorbed(fetched).seen.len() == known(
            p.seen,
            fetched,
        ).len(),
{
    lemma_take_new_distinct(p.seen, fetched, p.target);
    lemma_take_new_count(p.seen, fetched, p.target);
}

/// No query is begun after the deadline: the wait before a query is never
/// longer than the reader's own pause nor than the time left.
pub proof fn lemma_pause_within_deadline(p: PollerView, now: int)
    requires
        p.well_formed(),
    ensures
        p.next(now) matches PollAction::Query { pause_ms } ==> pause_ms <= p.pause_ms && pause_ms
            <= (p.policy.deadline - now) * 1000,
{
}

/// Polling ends: each query uses up one of the allowed queries, and a
/// reader with none left, or past its deadline, does not query again.
pub proof fn lemma_polling_is_bounded(p: PollerView, fetched: Seq<Seq<u8>>, now: int)
    ensures
        p.next(now) is Query ==> p.absorbed(fetched).polls_left < p.polls_left,
        p.polls_left == 0 || now > p.policy.deadline ==> !(p.next(now) is Query),
{
}

} // verus!
