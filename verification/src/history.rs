//! The audit-history side of the service: timestamped entries, the filter
//! vocabulary of the read path, the interface every history store offers,
//! and an in-memory store that implements it.

use vstd::prelude::*;

use crate::identity::{AccessResponse, AccessResponseView, Outcome};

verus! {

/// The audit log cannot currently serve a read or a write.
#[derive(Clone, Copy, PartialEq, Eq, Structural, Debug)]
pub struct StoreError;

/// One immutable record of a past access attempt: when it was decided,
/// which raw credential was submitted, and what the verifier answered.
#[derive(Debug)]
pub struct HistoryEntry {
    pub time: u64,
    pub token: String,
    pub response: AccessResponse,
}

/// Mathematical value of a `HistoryEntry`.
#[verifier::ext_equal]
pub struct HistoryEntryView {
    pub time: u64,
    pub token: Seq<char>,
    pub response: AccessResponseView,
}

impl View for HistoryEntry {
    type V = HistoryEntryView;

    open spec fn view(&self) -> HistoryEntryView {
        HistoryEntryView { time: self.time, token: self.token@, response: self.response@ }
    }
}

impl Clone for HistoryEntry {
    fn clone(&self) -> (r: Self)
        ensures
            r@ == self@,
    {
        HistoryEntry {
            time: self.time,
            token: self.token.clone(),
            response: self.response.clone(),
        }
    }
}

/// The filters of a history read. An absent filter matches every entry on
/// that dimension; `only_latest` keeps, per distinct token, only the most
/// recent qualifying entry.
#[derive(Debug)]
pub struct HistoryQuery {
    pub time_min: Option<u64>,
    pub time_max: Option<u64>,
    pub token: Option<String>,
    pub name: Option<String>,
    pub outcome: Option<Outcome>,
    pub only_latest: bool,
}

/// Mathematical value of a `HistoryQuery`.
#[verifier::ext_equal]
pub struct HistoryQueryView {
    pub time_min: Option<u64>,
    pub time_max: Option<u64>,
    pub token: Option<Seq<char>>,
    pub name: Option<Seq<char>>,
    pub outcome: Option<Outcome>,
    pub only_latest: bool,
}

impl View for HistoryQuery {
    type V = HistoryQueryView;

    open spec fn view(&self) -> HistoryQueryView {
        HistoryQueryView {
            time_min: self.time_min,
            time_max: self.time_max,
            token: match self.token {
                Some(s) => Some(s@),
                None => None,
            },
            name: match self.name {
                Some(s) => Some(s@),
                None => None,
            },
            outcome: self.outcome,
            only_latest: self.only_latest,
        }
    }
}

impl HistoryQuery {
    /// The query with no filters at all: it matches every entry.
    pub fn unfiltered() -> (r: Self)
        ensures
            r@ == HistoryQueryView::unfiltered(),
    {
        HistoryQuery {
            time_min: None,
            time_max: None,
            token: None,
            name: None,
            outcome: None,
            only_latest: false,
        }
    }
}

impl HistoryQueryView {
    /// The view of the query with no filters.
    pub open spec fn unfiltered() -> HistoryQueryView {
        HistoryQueryView {
            time_min: None,
            time_max: None,
            token: None,
            name: None,
            outcome: None,
            only_latest: false,
        }
    }
}

/// Whether one entry passes every filter of a query. Both time bounds are
/// inclusive; the token filter asks for equality with the recorded
/// credential; the name filter asks for the verifier-attached identity
/// metadata, so an entry whose response carries no name never matches a
/// name filter; the outcome filter asks for equality with the recorded
/// outcome. `only_latest` plays no part here: it acts across entries.
pub open spec fn entry_matches(e: HistoryEntryView, q: HistoryQueryView) -> bool {
    &&& (q.time_min matches Some(t) ==> t <= e.time)
    &&& (q.time_max matches Some(t) ==> e.time <= t)
    &&& (q.token matches Some(tok) ==> e.token == tok)
    &&& (q.name matches Some(n) ==> e.response.name matches Some(m) && m == n)
    &&& (q.outcome matches Some(o) ==> e.response.outcome == o)
}

/// The entries of `entries` that pass every filter of `q`, in their
/// original order.
pub open spec fn matching(entries: Seq<HistoryEntryView>, q: HistoryQueryView) -> Seq<
    HistoryEntryView,
>
    decreases entries.len(),
{
    if entries.len() == 0 {
        Seq::empty()
    } else if entry_matches(entries.last(), q) {
        matching(entries.drop_last(), q).push(entries.last())
    } else {
        matching(entries.drop_last(), q)
    }
}

/// Whether the entry at position `i` of `s` is the most recent one for its
/// token: every other entry of `s` with the same token either has a
/// strictly smaller time, or has the same time and stands earlier. Ties on
/// time therefore keep the latest-recorded entry, so exactly one entry per
/// distinct token is the latest.
pub open spec fn is_latest_at(s: Seq<HistoryEntryView>, i: int) -> bool {
    forall|j: int|
        0 <= j < s.len() && j != i && (#[trigger] s[j]).token == s[i].token ==> s[j].time
            < s[i].time || (s[j].time == s[i].time && j < i)
}

/// The entries among the first `n` of `s` that are the most recent for
/// their token within all of `s`, in their original order.
pub open spec fn latest_prefix(s: Seq<HistoryEntryView>, n: int) -> Seq<HistoryEntryView>
    decreases n,
{
    if n <= 0 {
        Seq::empty()
    } else if is_latest_at(s, n - 1) {
        latest_prefix(s, n - 1).push(s[n - 1])
    } else {
        latest_prefix(s, n - 1)
    }
}

/// The entries of `s` that are the most recent for their token, in their
/// original order.
pub open spec fn latest_of(s: Seq<HistoryEntryView>) -> Seq<HistoryEntryView> {
    latest_prefix(s, s.len() as int)
}

/// What a history read returns over the recorded entries `entries`: the
/// matching entries in recording order, restricted to the most recent one
/// per token when `only_latest` is set. A function of the store's state and
/// the filters alone, so identical reads of an unchanged store return
/// identical sequences.
pub open spec fn query_result(entries: Seq<HistoryEntryView>, q: HistoryQueryView) -> Seq<
    HistoryEntryView,
> {
    if q.only_latest {
        latest_of(matching(entries, q))
    } else {
        matching(entries, q)
    }
}

/// Interface of the audit-history collaborator: an append-only log with a
/// filtered read. `entries` is the recorded log, oldest first; `available`
/// says whether the store can currently serve at all, and a store fails a
/// read or a write exactly when it is unavailable.
pub trait History {
    /// The recorded entries, oldest first.
    spec fn entries(&self) -> Seq<HistoryEntryView>;

    /// Whether the store can currently serve reads and writes.
    spec fn available(&self) -> bool;

    /// Append one entry to the log. Nothing already recorded is ever
    /// changed or dropped, and a failed append records nothing.
    fn insert(&mut self, entry: HistoryEntry) -> (r: Result<(), StoreError>)
        ensures
            r is Ok <==> old(self).available(),
            r is Ok ==> final(self).entries() == old(self).entries().push(entry@),
            r is Err ==> final(self).entries() == old(self).entries(),
            final(self).available() == old(self).available(),
    ;

    /// Read the filtered, ordered projection of the log that `q` asks for.
    /// An empty result is a normal success, not an error.
    fn query(&self, q: &HistoryQuery) -> (r: Result<Vec<HistoryEntry>, StoreError>)
        ensures
            r is Ok <==> self.available(),
            r matches Ok(v) ==> v@.map_values(|e: HistoryEntry| e@) == query_result(
                self.entries(),
                q@,
            ),
    ;
}

/// An in-memory, append-only history store. `set_available` simulates the
/// store losing and regaining its backing service: while unavailable it
/// refuses reads and writes but keeps everything already recorded.
pub struct MemoryHistory {
    log: Vec<HistoryEntry>,
    online: bool,
}

impl MemoryHistory {
    /// An empty, available store.
    pub fn new() -> (r: Self)
        ensures
            r.entries() == Seq::<HistoryEntryView>::empty(),
            r.available(),
    {
        MemoryHistory { log: Vec::new(), online: true }
    }

    /// Make the store serve, or refuse, all further reads and writes.
    pub fn set_available(&mut self, on: bool)
        ensures
            final(self).entries() == old(self).entries(),
            final(self).available() == on,
    {
        self.online = on;
    }
}

impl History for MemoryHistory {
    closed spec fn entries(&self) -> Seq<HistoryEntryView> {
        self.log@.map_values(|e: HistoryEntry| e@)
    }

    closed spec fn available(&self) -> bool {
        self.online
    }

    fn insert(&mut self, entry: HistoryEntry) -> (r: Result<(), StoreError>) {
        if !self.online {
            return Err(StoreError);
        }
        self.log.push(entry);
        proof {
            assert(self.log@.map_values(|e: HistoryEntry| e@) =~= old(
                self,
            ).log@.map_values(|e: HistoryEntry| e@).push(self.log@.last()@));
        }
        Ok(())
    }

    fn query(&self, q: &HistoryQuery) -> (r: Result<Vec<HistoryEntry>, StoreError>) {
        if !self.online {
            return Err(StoreError);
        }
        let ghost all = self.entries();
        let mut found: Vec<HistoryEntry> = Vec::new();
        let mut i: usize = 0;
        while i < self.log.len()
            invariant
                i <= self.log.len(),
                all == self.log@.map_values(|e: HistoryEntry| e@),
                found@.map_values(|e: HistoryEntry| e@) == matching(all.take(i as int), q@),
            decreases self.log.len() - i,
        {
            let ghost prev = found@.map_values(|e: HistoryEntry| e@);
            if entry_matches_exec(&self.log[i], q) {
                found.push(self.log[i].clone());
            }
            proof {
                assert(all.take(i + 1).drop_last() =~= all.take(i as int));
                assert(all.take(i + 1).last() == self.log@[i as int]@);
                if entry_matches(self.log@[i as int]@, q@) {
                    assert(found@.map_values(|e: HistoryEntry| e@) =~= prev.push(
                        self.log@[i as int]@,
                    ));
                }
            }
            i = i + 1;
        }
        proof {
            assert(all.take(self.log@.len() as int) =~= all);
        }
        if !q.only_latest {
            return Ok(found);
        }
        let ghost m = matching(all, q@);
        let mut kept: Vec<HistoryEntry> = Vec::new();
        let mut i: usize = 0;
        while i < found.len()
            invariant
                i <= found.len(),
                m == found@.map_values(|e: HistoryEntry| e@),
                kept@.map_values(|e: HistoryEntry| e@) == latest_prefix(m, i as int),
            decreases found.len() - i,
        {
            let ghost prev = kept@.map_values(|e: HistoryEntry| e@);
            if is_latest_exec(&found, i) {
                kept.push(found[i].clone());
                proof {
                    assert(kept@.map_values(|e: HistoryEntry| e@) =~= prev.push(m[i as int]));
                }
            }
            i = i + 1;
        }
        Ok(kept)
    }
}

/// A history read with no filters at all returns every recorded entry, in
/// recording order — so nothing ever drops out of the audit log, and
/// identical reads return identical sequences.
pub proof fn lemma_query_unfiltered(entries: Seq<HistoryEntryView>)
    ensures
        query_result(entries, HistoryQueryView::unfiltered()) == entries,
    decreases entries.len(),
{
    if entries.len() == 0 {
        assert(matching(entries, HistoryQueryView::unfiltered()) =~= entries);
    } else {
        lemma_query_unfiltered(entries.drop_last());
        assert(matching(entries, HistoryQueryView::unfiltered()) =~= entries);
    }
}

/// With `only_latest` set, a read over two qualifying entries for the same
/// token returns only the entry with the larger time.
pub proof fn lemma_only_latest_pair(
    e1: HistoryEntryView,
    e2: HistoryEntryView,
    q: HistoryQueryView,
)
    requires
        q.only_latest,
        e1.token == e2.token,
        e1.time < e2.time,
        entry_matches(e1, q),
        entry_matches(e2, q),
    ensures
        query_result(seq![e1, e2], q) == seq![e2],
{
    let s = seq![e1, e2];
    assert(s.drop_last() =~= seq![e1]);
    assert(seq![e1].drop_last() =~= Seq::<HistoryEntryView>::empty());
    assert(matching(Seq::<HistoryEntryView>::empty(), q) =~= Seq::<HistoryEntryView>::empty());
    assert(matching(seq![e1], q) =~= seq![e1]);
    assert(matching(s, q) =~= s);
    assert(!is_latest_at(s, 0)) by {
        assert(s[1].token == s[0].token);
        assert(!(s[1].time < s[0].time || (s[1].time == s[0].time && 1int < 0)));
    }
    assert(is_latest_at(s, 1)) by {
        assert forall|j: int|
            0 <= j < s.len() && j != 1 && (#[trigger] s[j]).token == s[1].token implies s[j].time
            < s[1].time || (s[j].time == s[1].time && j < 1) by {
            assert(j == 0);
        }
    }
    assert(latest_prefix(s, 0) =~= Seq::<HistoryEntryView>::empty());
    assert(latest_prefix(s, 1) =~= Seq::<HistoryEntryView>::empty());
    assert(latest_prefix(s, 2) =~= seq![e2]);
    assert(latest_of(s) =~= seq![e2]);
}

/// Executable form of `entry_matches`.
fn entry_matches_exec(e: &HistoryEntry, q: &HistoryQuery) -> (r: bool)
    ensures
        r == entry_matches(e@, q@),
{
    let time_ok = (match &q.time_min {
        Some(t) => *t <= e.time,
        None => true,
    }) && (match &q.time_max {
        Some(t) => e.time <= *t,
        None => true,
    });
    let token_ok = match &q.token {
        Some(tok) => *tok == e.token,
        None => true,
    };
    let name_ok = match &q.name {
        Some(n) => match &e.response.name {
            Some(m) => *m == *n,
            None => false,
        },
        None => true,
    };
    let outcome_ok = match &q.outcome {
        Some(o) => match (o, &e.response.outcome) {
            (Outcome::Success, Outcome::Success) => true,
            (Outcome::Failure, Outcome::Failure) => true,
            _ => false,
        },
        None => true,
    };
    time_ok && token_ok && name_ok && outcome_ok
}

/// Executable form of `is_latest_at` over the views of `v`.
fn is_latest_exec(v: &Vec<HistoryEntry>, i: usize) -> (r: bool)
    requires
        i < v.len(),
    ensures
        r == is_latest_at(v@.map_values(|e: HistoryEntry| e@), i as int),
{
    let ghost s = v@.map_values(|e: HistoryEntry| e@);
    let mut j: usize = 0;
    while j < v.len()
        invariant
            j <= v.len(),
            i < v.len(),
            s == v@.map_values(|e: HistoryEntry| e@),
            forall|k: int|
                0 <= k < j && k != i && (#[trigger] s[k]).token == s[i as int].token ==> s[k].time
                    < s[i as int].time || (s[k].time == s[i as int].time && k < i as int),
        decreases v.len() - j,
    {
        if j != i && v[j].token == v[i].token {
            let later = v[j].time > v[i].time || (v[j].time == v[i].time && j > i);
            if later {
                proof {
                    assert(s[j as int] == v@[j as int]@);
                    assert(s[i as int] == v@[i as int]@);
                    let ii = i as int;
                    let jj = j as int;
                    assert(!(s[jj].time < s[ii].time || (s[jj].time == s[ii].time && jj < ii)));
                }
                return false;
            }
        }
        j = j + 1;
    }
    true
}

} // verus!
