use vstd::prelude::*;

use crate::ethereum_types::{Header, HeaderId, HeaderStatus, QueuedHeader, Receipt};

verus! {

/// A header that the relay knows of, with the status it has.
#[derive(Debug)]
pub struct KnownHeader {
    /// Id of the header.
    pub id: HeaderId,
    /// Status of the header.
    pub status: HeaderStatus,
    /// The header itself, kept while it waits in one of the queues.
    pub header: Option<QueuedHeader>,
}

/// Statuses of headers that wait in one of the queues.
pub open spec fn is_queued_status(status: HeaderStatus) -> bool {
    !(status == HeaderStatus::Unknown || status == HeaderStatus::Synced)
}

/// Statuses of headers whose ancestry is not established yet.
pub open spec fn is_orphan_status(status: HeaderStatus) -> bool {
    status == HeaderStatus::MaybeOrphan || status == HeaderStatus::Orphan
}

/// Status that a newly received header gets, given the status of its parent.
pub open spec fn new_header_status(parent_status: HeaderStatus) -> HeaderStatus {
    match parent_status {
        HeaderStatus::Unknown | HeaderStatus::MaybeOrphan => HeaderStatus::MaybeOrphan,
        HeaderStatus::Orphan => HeaderStatus::Orphan,
        _ => HeaderStatus::MaybeReceipts,
    }
}

/// An entry of the queues is consistent: a known status, a header exactly while it is
/// queued, and then a header with the entry's id and a parent.
pub open spec fn known_header_wf(entry: KnownHeader) -> bool {
    &&& entry.status != HeaderStatus::Unknown
    &&& (is_queued_status(entry.status) <==> entry.header is Some)
    &&& (entry.header is Some ==> entry.header->0.has_parent() && entry.header->0.spec_id()
        == entry.id)
}

/// Parent of a queued entry.
pub open spec fn parent_of(entry: KnownHeader) -> HeaderId {
    entry.header->0.spec_parent_id()
}

/// Number of the highest queued header of `entries`, or 0 when none is queued.
pub open spec fn max_queued_number(entries: Seq<KnownHeader>) -> u64
    decreases entries.len(),
{
    if entries.len() == 0 {
        0
    } else {
        let rest = max_queued_number(entries.drop_last());
        if is_queued_status(entries.last().status) && entries.last().id.0 > rest {
            entries.last().id.0
        } else {
            rest
        }
    }
}

/// Index of the entry with `status` that has the lowest number (the first one among equals).
pub open spec fn oldest_index(entries: Seq<KnownHeader>, status: HeaderStatus) -> Option<int>
    decreases entries.len(),
{
    if entries.len() == 0 {
        None
    } else {
        let rest = oldest_index(entries.drop_last(), status);
        let last = entries.len() - 1;
        if entries[last].status == status && (rest is None || entries[last].id.0
            < entries[rest->0].id.0) {
            Some(last)
        } else {
            rest
        }
    }
}

/// `entries` with the entry of `id`, if it has status `from`, moved to status `to`.
pub open spec fn moved_status(
    entries: Seq<KnownHeader>,
    id: HeaderId,
    from: HeaderStatus,
    to: HeaderStatus,
) -> Seq<KnownHeader> {
    Seq::new(
        entries.len(),
        |i: int|
            if entries[i].id == id && entries[i].status == from {
                KnownHeader { id: entries[i].id, status: to, header: entries[i].header }
            } else {
                entries[i]
            },
    )
}

/// Entry of a header known to the Substrate runtime and no longer queued.
pub open spec fn synced_entry(id: HeaderId) -> KnownHeader {
    KnownHeader { id, status: HeaderStatus::Synced, header: None }
}

/// `entries` with the possible orphans whose parent is `id` made orphans.
pub open spec fn orphaned_children(entries: Seq<KnownHeader>, id: HeaderId) -> Seq<KnownHeader> {
    Seq::new(
        entries.len(),
        |i: int|
            if entries[i].status == HeaderStatus::MaybeOrphan && parent_of(entries[i]) == id {
                KnownHeader {
                    id: entries[i].id,
                    status: HeaderStatus::Orphan,
                    header: entries[i].header,
                }
            } else {
                entries[i]
            },
    )
}

/// The entry `i` has been adopted between `before` and `after`.
pub open spec fn adopted(before: Seq<KnownHeader>, after: Seq<KnownHeader>, i: int) -> bool {
    after[i].status != before[i].status
}

/// `after` is `before` with the descendants of `id` among the (possible) orphans moved to
/// the MaybeReceipts queue: every moved header is a child of `id` or of another moved header,
/// and no header that stays an (possible) orphan is such a child.
pub open spec fn adopted_descendants(
    before: Seq<KnownHeader>,
    after: Seq<KnownHeader>,
    id: HeaderId,
) -> bool {
    &&& after.len() == before.len()
    &&& forall|i: int|
        0 <= i < before.len() ==> #[trigger] after[i].id == before[i].id && after[i].header
            == before[i].header
    &&& forall|i: int|
        0 <= i < before.len() ==> (#[trigger] after[i].status == before[i].status || (
        is_orphan_status(before[i].status) && after[i].status == HeaderStatus::MaybeReceipts))
    &&& forall|i: int|
        0 <= i < before.len() && #[trigger] adopted(before, after, i) ==> (parent_of(before[i])
            == id || exists|j: int|
            0 <= j < before.len() && #[trigger] adopted(before, after, j) && before[j].id
                == parent_of(before[i]))
    &&& forall|i: int|
        0 <= i < before.len() && #[trigger] is_orphan_status(after[i].status) ==> parent_of(
            after[i],
        ) != id && forall|j: int|
            0 <= j < before.len() && #[trigger] adopted(before, after, j) ==> before[j].id
                != parent_of(after[i])
}

/// Progress of the adoption of the descendants of `id`: `parents` starts with `id` and
/// holds the ids of the headers adopted so far, every adopted header was a (possible) orphan
/// whose parent is in `parents`, and nothing else changed.
pub open spec fn adoption_progress(
    before: Seq<KnownHeader>,
    now: Seq<KnownHeader>,
    parents: Seq<HeaderId>,
    id: HeaderId,
) -> bool {
    &&& now.len() == before.len()
    &&& forall|n: int|
        0 <= n < before.len() ==> #[trigger] now[n].id == before[n].id && now[n].header
            == before[n].header
    &&& forall|n: int|
        0 <= n < before.len() ==> (#[trigger] now[n].status == before[n].status || (
        is_orphan_status(before[n].status) && now[n].status == HeaderStatus::MaybeReceipts))
    &&& parents.len() >= 1
    &&& parents[0] == id
    &&& forall|k: int|
        1 <= k < parents.len() ==> exists|j: int|
            0 <= j < before.len() && #[trigger] adopted(before, now, j) && before[j].id
                == #[trigger] parents[k]
    &&& forall|j: int|
        0 <= j < before.len() && #[trigger] adopted(before, now, j) ==> exists|k: int|
            0 <= k < parents.len() && #[trigger] parents[k] == before[j].id
    &&& forall|j: int|
        0 <= j < before.len() && #[trigger] adopted(before, now, j) ==> exists|k: int|
            0 <= k < parents.len() && #[trigger] parents[k] == parent_of(before[j])
}

/// No (possible) orphan of `now` has its parent in `parents`.
pub open spec fn no_adoptable_left(now: Seq<KnownHeader>, parents: Seq<HeaderId>) -> bool {
    forall|l: int|
        0 <= l < now.len() && #[trigger] is_orphan_status(now[l].status) ==> forall|k: int|
            0 <= k < parents.len() ==> #[trigger] parents[k] != parent_of(now[l])
}

proof fn lemma_adoption_step(
    before: Seq<KnownHeader>,
    prev: Seq<KnownHeader>,
    now: Seq<KnownHeader>,
    prev_parents: Seq<HeaderId>,
    parents: Seq<HeaderId>,
    id: HeaderId,
    i: int,
    k: int,
)
    requires
        adoption_progress(before, prev, prev_parents, id),
        0 <= i < prev.len(),
        is_orphan_status(prev[i].status),
        0 <= k < prev_parents.len(),
        prev_parents[k] == parent_of(prev[i]),
        now == prev.update(
            i,
            KnownHeader {
                id: prev[i].id,
                status: HeaderStatus::MaybeReceipts,
                header: prev[i].header,
            },
        ),
        parents == prev_parents.push(prev[i].id),
    ensures
        adoption_progress(before, now, parents, id),
{
    assert(prev[i].status == before[i].status);
    assert(adopted(before, now, i));
    assert forall|n: int|
        0 <= n < before.len() implies #[trigger] now[n].id == before[n].id && now[n].header
        == before[n].header by {
        assert(prev[n].id == before[n].id);
    }
    assert forall|n: int|
        0 <= n < before.len() implies (#[trigger] now[n].status == before[n].status || (
    is_orphan_status(before[n].status) && now[n].status == HeaderStatus::MaybeReceipts)) by {
        assert(prev[n].status == before[n].status || (is_orphan_status(before[n].status)
            && prev[n].status == HeaderStatus::MaybeReceipts));
    }
    assert forall|q: int| 1 <= q < parents.len() implies exists|j: int|
        0 <= j < before.len() && #[trigger] adopted(before, now, j) && before[j].id
            == #[trigger] parents[q] by {
        if q < parents.len() - 1 {
            assert(parents[q] == prev_parents[q]);
            let j = choose|j: int|
                0 <= j < before.len() && #[trigger] adopted(before, prev, j) && before[j].id
                    == #[trigger] prev_parents[q];
            assert(adopted(before, now, j));
        } else {
            assert(before[i].id == parents[q]);
        }
    }
    assert forall|j: int| 0 <= j < before.len() && #[trigger] adopted(before, now, j) implies exists|
        q: int,
    |
        0 <= q < parents.len() && #[trigger] parents[q] == before[j].id by {
        if j == i {
            assert(parents[parents.len() - 1] == before[j].id);
        } else {
            assert(adopted(before, prev, j));
            let q = choose|q: int|
                0 <= q < prev_parents.len() && #[trigger] prev_parents[q] == before[j].id;
            assert(parents[q] == prev_parents[q]);
        }
    }
    assert forall|j: int| 0 <= j < before.len() && #[trigger] adopted(before, now, j) implies exists|
        q: int,
    |
        0 <= q < parents.len() && #[trigger] parents[q] == parent_of(before[j]) by {
        if j == i {
            assert(parents[k] == prev_parents[k]);
            assert(parent_of(before[j]) == parent_of(prev[i]));
        } else {
            assert(adopted(before, prev, j));
            let q = choose|q: int|
                0 <= q < prev_parents.len() && #[trigger] prev_parents[q] == parent_of(before[j]);
            assert(parents[q] == prev_parents[q]);
        }
    }
}

proof fn lemma_adoption_done(
    before: Seq<KnownHeader>,
    now: Seq<KnownHeader>,
    parents: Seq<HeaderId>,
    id: HeaderId,
)
    requires
        adoption_progress(before, now, parents, id),
        no_adoptable_left(now, parents),
    ensures
        adopted_descendants(before, now, id),
{
    assert forall|i: int|
        0 <= i < before.len() && #[trigger] adopted(before, now, i) implies (parent_of(before[i])
        == id || exists|j: int|
        0 <= j < before.len() && #[trigger] adopted(before, now, j) && before[j].id
            == parent_of(before[i])) by {
        let k = choose|k: int| 0 <= k < parents.len() && #[trigger] parents[k] == parent_of(before[i]);
        if k >= 1 {
            let j = choose|j: int|
                0 <= j < before.len() && #[trigger] adopted(before, now, j) && before[j].id
                    == #[trigger] parents[k];
        }
    }
    assert forall|i: int|
        0 <= i < before.len() && #[trigger] is_orphan_status(now[i].status) implies parent_of(
        now[i],
    ) != id && forall|j: int|
        0 <= j < before.len() && #[trigger] adopted(before, now, j) ==> before[j].id
            != parent_of(now[i]) by {
        assert(parents[0] != parent_of(now[i]));
        assert forall|j: int|
            0 <= j < before.len() && #[trigger] adopted(before, now, j) implies before[j].id
            != parent_of(now[i]) by {
            let k = choose|k: int| 0 <= k < parents.len() && #[trigger] parents[k] == before[j].id;
            assert(parents[k] != parent_of(now[i]));
        }
    }
}

/// Number of (possible) orphans among `entries`.
pub open spec fn count_orphans(entries: Seq<KnownHeader>) -> nat
    decreases entries.len(),
{
    if entries.len() == 0 {
        0
    } else {
        count_orphans(entries.drop_last()) + if is_orphan_status(entries.last().status) {
            1nat
        } else {
            0nat
        }
    }
}

proof fn lemma_count_orphans_update(entries: Seq<KnownHeader>, i: int, entry: KnownHeader)
    requires
        0 <= i < entries.len(),
    ensures
        count_orphans(entries.update(i, entry)) as int == count_orphans(entries) as int - (if is_orphan_status(
            entries[i].status,
        ) {
            1int
        } else {
            0int
        }) + (if is_orphan_status(entry.status) {
            1int
        } else {
            0int
        }),
    decreases entries.len(),
{
    if i == entries.len() - 1 {
        assert(entries.update(i, entry).drop_last() =~= entries.drop_last());
    } else {
        lemma_count_orphans_update(entries.drop_last(), i, entry);
        assert(entries.update(i, entry).drop_last() =~= entries.drop_last().update(i, entry));
    }
}

/// Position of `id` in `ids`, if it occurs there.
fn position(ids: &Vec<HeaderId>, id: &HeaderId) -> (r: Option<usize>)
    ensures
        r is Some ==> r->0 < ids@.len() && ids@[r->0 as int] == *id,
        r is None ==> forall|k: int| 0 <= k < ids@.len() ==> ids@[k] != *id,
{
    let mut k: usize = 0;
    while k < ids.len()
        invariant
            0 <= k <= ids@.len(),
            forall|l: int| 0 <= l < k ==> ids@[l] != *id,
        decreases ids@.len() - k,
    {
        if ids[k] == *id {
            return Some(k);
        }
        k = k + 1;
    }
    None
}

/// The oldest entry with a status is one with that status and the lowest number among them,
/// and there is one exactly when some entry has that status.
pub proof fn lemma_oldest_index(entries: Seq<KnownHeader>, status: HeaderStatus)
    ensures
        oldest_index(entries, status) is None <==> forall|j: int|
            0 <= j < entries.len() ==> #[trigger] entries[j].status != status,
        oldest_index(entries, status) is Some ==> {
            let i = oldest_index(entries, status)->0;
            &&& 0 <= i < entries.len()
            &&& entries[i].status == status
            &&& forall|j: int|
                0 <= j < entries.len() && #[trigger] entries[j].status == status ==> entries[i].id.0
                    <= entries[j].id.0
        },
    decreases entries.len(),
{
    if entries.len() > 0 {
        let rest = entries.drop_last();
        lemma_oldest_index(rest, status);
        assert forall|j: int| 0 <= j < rest.len() implies rest[j] == entries[j] by {}
    }
}

/// The best queued number is at least the number of every queued header, and it is the
/// number of one of them unless nothing is queued.
pub proof fn lemma_max_queued_number(entries: Seq<KnownHeader>)
    ensures
        forall|j: int|
            0 <= j < entries.len() && is_queued_status(#[trigger] entries[j].status)
                ==> entries[j].id.0 <= max_queued_number(entries),
        max_queued_number(entries) == 0 || exists|j: int|
            0 <= j < entries.len() && is_queued_status(#[trigger] entries[j].status)
                && entries[j].id.0 == max_queued_number(entries),
    decreases entries.len(),
{
    if entries.len() > 0 {
        let rest = entries.drop_last();
        lemma_max_queued_number(rest);
        assert forall|j: int| 0 <= j < rest.len() implies rest[j] == entries[j] by {}
        if max_queued_number(entries) != 0 && max_queued_number(entries) == max_queued_number(rest) {
            let j = choose|j: int|
                0 <= j < rest.len() && is_queued_status(#[trigger] rest[j].status) && rest[j].id.0
                    == max_queued_number(rest);
            assert(entries[j] == rest[j]);
        }
    }
}

/// Every entry is consistent and no two entries share an id.
pub open spec fn entries_wf(entries: Seq<KnownHeader>) -> bool {
    &&& forall|i: int| 0 <= i < entries.len() ==> #[trigger] known_header_wf(entries[i])
    &&& forall|i: int, j: int|
        0 <= i < j < entries.len() ==> #[trigger] entries[i].id != #[trigger] entries[j].id
}

/// Some entry is the header `id`.
pub open spec fn entries_know(entries: Seq<KnownHeader>, id: HeaderId) -> bool {
    exists|i: int| 0 <= i < entries.len() && #[trigger] entries[i].id == id
}

/// Index of the entry of a known header.
pub open spec fn entry_index(entries: Seq<KnownHeader>, id: HeaderId) -> int {
    choose|i: int| 0 <= i < entries.len() && #[trigger] entries[i].id == id
}

/// `entries` once the Substrate runtime has reported `id` as its best header: the entry of
/// `id` and, along the parents of the queued headers, of each of its queued ancestors
/// becomes synced and leaves the queues, since the runtime's chain holds them all. The walk
/// stops at the first ancestor that is not known or no longer queued.
pub open spec fn synced_ancestry(entries: Seq<KnownHeader>, id: HeaderId) -> Seq<KnownHeader>
    decreases id.0,
{
    if entries_know(entries, id) {
        let k = entry_index(entries, id);
        let updated = entries.update(k, synced_entry(id));
        if entries[k].header is Some && parent_of(entries[k]).0 < id.0 {
            synced_ancestry(updated, parent_of(entries[k]))
        } else {
            updated
        }
    } else {
        entries
    }
}

/// Status of the header `id` among `entries`.
pub open spec fn entries_status(entries: Seq<KnownHeader>, id: HeaderId) -> HeaderStatus {
    if entries_know(entries, id) {
        entries[entry_index(entries, id)].status
    } else {
        HeaderStatus::Unknown
    }
}

/// Queues of Ethereum headers, by status, together with the headers known to the Substrate
/// runtime.
#[derive(Debug)]
pub struct QueuedHeaders {
    known: Vec<KnownHeader>,
}

impl View for QueuedHeaders {
    type V = Seq<KnownHeader>;

    closed spec fn view(&self) -> Seq<KnownHeader> {
        self.known@
    }
}

impl QueuedHeaders {
    /// Every entry is consistent and no two entries share an id; the queues keep this
    /// whatever is done with them.
    #[verifier::type_invariant]
    pub open spec fn wf(&self) -> bool {
        entries_wf(self@)
    }

    /// The header `id` is known.
    pub open spec fn knows(&self, id: HeaderId) -> bool {
        entries_know(self@, id)
    }

    /// Index of the entry of a known header.
    pub open spec fn index_of(&self, id: HeaderId) -> int {
        entry_index(self@, id)
    }

    /// Status of the header `id`.
    pub open spec fn spec_status(&self, id: HeaderId) -> HeaderStatus {
        entries_status(self@, id)
    }

    /// Number of headers with `status`.
    pub open spec fn spec_headers_in_status(&self, status: HeaderStatus) -> nat {
        self@.filter(|e: KnownHeader| e.status == status).len()
    }

    /// Number of queued headers.
    pub open spec fn spec_total_headers(&self) -> nat {
        self@.filter(|e: KnownHeader| is_queued_status(e.status)).len()
    }

    /// Number of the highest queued header, or 0 when nothing is queued.
    pub open spec fn spec_best_queued_number(&self) -> u64 {
        max_queued_number(self@)
    }

    /// The queued header with `status` that has the lowest number.
    pub open spec fn spec_header(&self, status: HeaderStatus) -> Option<QueuedHeader> {
        match oldest_index(self@, status) {
            Some(i) => self@[i].header,
            None => None,
        }
    }

    /// Creates empty queues.
    pub fn new() -> (r: Self)
        ensures
            r.wf(),
            r@ == Seq::<KnownHeader>::empty(),
    {
        QueuedHeaders { known: Vec::new() }
    }

    /// Index of the entry of `id`, if the header is known.
    fn find(&self, id: &HeaderId) -> (r: Option<usize>)
        requires
            self.wf(),
        ensures
            r is Some <==> self.knows(*id),
            r is Some ==> r->0 == self.index_of(*id) && r->0 < self@.len(),
    {
        find_entry(&self.known, id)
    }

    /// Returns the status of the header `id`.
    pub fn status(&self, id: &HeaderId) -> (r: HeaderStatus)
        ensures
            r == self.spec_status(*id),
    {
        proof {
            use_type_invariant(self);
        }
        match self.find(id) {
            Some(i) => self.known[i].status,
            None => HeaderStatus::Unknown,
        }
    }

    /// Returns the number of headers with `status`.
    pub fn headers_in_status(&self, status: HeaderStatus) -> (r: usize)
        ensures
            r == self.spec_headers_in_status(status),
    {
        proof {
            use_type_invariant(self);
        }
        let ghost pred = |e: KnownHeader| e.status == status;
        let mut count: usize = 0;
        let mut i: usize = 0;
        while i < self.known.len()
            invariant
                0 <= i <= self@.len(),
                count == self@.take(i as int).filter(pred).len(),
                pred == (|e: KnownHeader| e.status == status),
            decreases self@.len() - i,
        {
            proof {
                assert(self@.take(i + 1) =~= self@.take(i as int).push(self@[i as int]));
                self@.take(i as int).lemma_filter_len_push(pred, self@[i as int]);
                self@.take(i as int).lemma_filter_len(pred);
            }
            if self.known[i].status == status {
                count = count + 1;
            }
            i = i + 1;
        }
        assert(self@.take(self@.len() as int) =~= self@);
        count
    }

    /// Returns the number of headers that have been submitted and are not yet known to be
    /// imported.
    pub fn headers_in_submit_status(&self) -> (r: usize)
        ensures
            r == self.spec_headers_in_status(HeaderStatus::Submitted),
    {
        proof {
            use_type_invariant(self);
        }
        self.headers_in_status(HeaderStatus::Submitted)
    }

    /// Returns the number of queued headers.
    pub fn total_headers(&self) -> (r: usize)
        ensures
            r == self.spec_total_headers(),
            r == self@.filter(|e: KnownHeader| waits_in_queue(e.status)).len(),
    {
        proof {
            use_type_invariant(self);
            lemma_total_headers_counts_every_queue(self);
        }
        let ghost pred = |e: KnownHeader| is_queued_status(e.status);
        let mut count: usize = 0;
        let mut i: usize = 0;
        while i < self.known.len()
            invariant
                0 <= i <= self@.len(),
                count == self@.take(i as int).filter(pred).len(),
                pred == (|e: KnownHeader| is_queued_status(e.status)),
            decreases self@.len() - i,
        {
            proof {
                assert(self@.take(i + 1) =~= self@.take(i as int).push(self@[i as int]));
                self@.take(i as int).lemma_filter_len_push(pred, self@[i as int]);
                self@.take(i as int).lemma_filter_len(pred);
            }
            let status = self.known[i].status;
            if !(status == HeaderStatus::Unknown || status == HeaderStatus::Synced) {
                count = count + 1;
            }
            i = i + 1;
        }
        assert(self@.take(self@.len() as int) =~= self@);
        count
    }

    /// Returns the number of the highest queued header, or 0 when nothing is queued.
    pub fn best_queued_number(&self) -> (r: u64)
        ensures
            r == self.spec_best_queued_number(),
    {
        proof {
            use_type_invariant(self);
        }
        let mut best: u64 = 0;
        let mut i: usize = 0;
        while i < self.known.len()
            invariant
                0 <= i <= self@.len(),
                best == max_queued_number(self@.take(i as int)),
            decreases self@.len() - i,
        {
            assert(self@.take(i + 1).drop_last() =~= self@.take(i as int));
            let status = self.known[i].status;
            if !(status == HeaderStatus::Unknown || status == HeaderStatus::Synced)
                && self.known[i].id.0 > best {
                best = self.known[i].id.0;
            }
            i = i + 1;
        }
        assert(self@.take(self@.len() as int) =~= self@);
        best
    }

    /// Returns the queued header with `status` that has the lowest number.
    pub fn header(&self, status: HeaderStatus) -> (r: Option<&QueuedHeader>)
        ensures
            r is Some <==> self.spec_header(status) is Some,
            r is Some ==> *r->0 == self.spec_header(status)->0,
    {
        proof {
            use_type_invariant(self);
        }
        let mut oldest: Option<usize> = None;
        let mut i: usize = 0;
        while i < self.known.len()
            invariant
                0 <= i <= self@.len(),
                oldest is Some ==> oldest->0 < i,
                oldest_index(self@.take(i as int), status) == match oldest {
                    Some(k) => Some(k as int),
                    None => None::<int>,
                },
            decreases self@.len() - i,
        {
            assert(self@.take(i + 1).drop_last() =~= self@.take(i as int));
            if self.known[i].status == status {
                match oldest {
                    Some(k) => {
                        if self.known[i].id.0 < self.known[k].id.0 {
                            oldest = Some(i);
                        }
                    },
                    None => {
                        oldest = Some(i);
                    },
                }
            }
            i = i + 1;
        }
        assert(self@.take(self@.len() as int) =~= self@);
        match oldest {
            Some(k) => match &self.known[k].header {
                Some(header) => Some(header),
                None => None,
            },
            None => None,
        }
    }

    /// Receives a header from the Ethereum node. A header that is already known is ignored;
    /// a new one is queued with a status that follows from the status of its parent.
    pub fn header_response(&mut self, header: Header)
        requires
            header.number is Some,
            header.number->0 >= 1,
            header.hash is Some,
        ensures
            ({
                let id = HeaderId(header.number->0, header.hash->0);
                let parent = HeaderId((header.number->0 - 1) as u64, header.parent_hash);
                let parent_status = old(self).spec_status(parent);
                if old(self).knows(id) {
                    final(self)@ == old(self)@
                } else {
                    &&& final(self)@.len() == old(self)@.len() + 1
                    &&& final(self)@.drop_last() == old(self)@
                    &&& final(self)@.last().id == id
                    &&& final(self)@.last().status == new_header_status(
                        old(self).spec_status(parent),
                    )
                    &&& (parent_status == HeaderStatus::Unknown || parent_status
                        == HeaderStatus::MaybeOrphan) ==> final(self)@.last().status
                        == HeaderStatus::MaybeOrphan
                    &&& parent_status == HeaderStatus::Orphan ==> final(self)@.last().status
                        == HeaderStatus::Orphan
                    &&& (parent_status == HeaderStatus::MaybeReceipts || parent_status
                        == HeaderStatus::Receipts || parent_status == HeaderStatus::Ready
                        || parent_status == HeaderStatus::Submitted || parent_status
                        == HeaderStatus::Synced) ==> final(self)@.last().status
                        == HeaderStatus::MaybeReceipts
                    &&& final(self)@.last().header is Some
                    &&& final(self)@.last().header->0.spec_header() == header
                    &&& final(self)@.last().header->0.spec_receipts() is None
                }
            }),
    {
        proof {
            use_type_invariant(&*self);
        }
        let mut known: Vec<KnownHeader> = Vec::new();
        std::mem::swap(&mut known, &mut self.known);
        header_response_in(&mut known, header);
        self.known = known;
    }

    /// Receives the answer whether the Substrate runtime knows the header `id`, the parent of
    /// headers whose ancestry is not established.
    ///
    /// When it does not (`false`), its children that may be orphans become orphans. When it
    /// does (`true`), its children and their descendants among the possible or known orphans
    /// become ready to be checked for receipts.
    pub fn maybe_orphan_response(&mut self, id: &HeaderId, response: bool)
        ensures
            !response ==> final(self)@ == orphaned_children(old(self)@, *id),
            response ==> adopted_descendants(old(self)@, final(self)@, *id),
    {
        proof {
            use_type_invariant(&*self);
        }
        let mut known: Vec<KnownHeader> = Vec::new();
        std::mem::swap(&mut known, &mut self.known);
        maybe_orphan_response_in(&mut known, id, response);
        self.known = known;
    }

    /// Receives the answer whether importing the header `id` needs the receipts of its
    /// transactions: the header moves from the MaybeReceipts queue to the Receipts queue when
    /// it does, and to the Ready queue when it does not.
    pub fn maybe_receipts_response(&mut self, id: &HeaderId, receipts_required: bool)
        ensures
            final(self)@ == moved_status(
                old(self)@,
                *id,
                HeaderStatus::MaybeReceipts,
                if receipts_required {
                    HeaderStatus::Receipts
                } else {
                    HeaderStatus::Ready
                },
            ),
    {
        proof {
            use_type_invariant(&*self);
        }
        let mut known: Vec<KnownHeader> = Vec::new();
        std::mem::swap(&mut known, &mut self.known);
        maybe_receipts_response_in(&mut known, id, receipts_required);
        self.known = known;
    }

    /// Receives the receipts of the transactions of the header `id`: a header in the Receipts
    /// queue gets them and moves to the Ready queue.
    pub fn receipts_response(&mut self, id: &HeaderId, receipts: Vec<Receipt>)
        ensures
            final(self)@.len() == old(self)@.len(),
            forall|i: int|
                0 <= i < old(self)@.len() ==> if old(self)@[i].id == *id && old(self)@[i].status
                    == HeaderStatus::Receipts {
                    &&& (#[trigger] final(self)@[i]).id == old(self)@[i].id
                    &&& final(self)@[i].status == HeaderStatus::Ready
                    &&& final(self)@[i].header is Some
                    &&& final(self)@[i].header->0.spec_header()
                        == old(self)@[i].header->0.spec_header()
                    &&& final(self)@[i].header->0.spec_receipts() == Some(receipts)
                } else {
                    final(self)@[i] == old(self)@[i]
                },
    {
        proof {
            use_type_invariant(&*self);
        }
        let mut known: Vec<KnownHeader> = Vec::new();
        std::mem::swap(&mut known, &mut self.known);
        receipts_response_in(&mut known, id, receipts);
        self.known = known;
    }

    /// Receives the confirmation that the header `id` has been submitted to the Substrate
    /// runtime: it moves from the Ready queue to the Submitted status.
    pub fn header_submitted(&mut self, id: &HeaderId)
        ensures
            final(self)@ == moved_status(
                old(self)@,
                *id,
                HeaderStatus::Ready,
                HeaderStatus::Submitted,
            ),
    {
        proof {
            use_type_invariant(&*self);
        }
        let mut known: Vec<KnownHeader> = Vec::new();
        std::mem::swap(&mut known, &mut self.known);
        header_submitted_in(&mut known, id);
        self.known = known;
    }

    /// Receives the best header known to the Substrate runtime: it and its queued ancestors
    /// become synced and leave the queues. A header that was never queued is only recorded as
    /// synced: without it, the queues cannot tell which of their headers are its ancestors,
    /// and leave them as they are.
    pub fn substrate_best_header_response(&mut self, id: &HeaderId)
        ensures
            final(self)@ == if old(self).knows(*id) {
                synced_ancestry(old(self)@, *id)
            } else {
                old(self)@.push(synced_entry(*id))
            },
    {
        proof {
            use_type_invariant(&*self);
        }
        let mut known: Vec<KnownHeader> = Vec::new();
        std::mem::swap(&mut known, &mut self.known);
        substrate_best_header_response_in(&mut known, id);
        self.known = known;
    }
}

/// Status of the header `id` among `known`.
fn entry_status(known: &Vec<KnownHeader>, id: &HeaderId) -> (r: HeaderStatus)
    requires
        entries_wf(known@),
    ensures
        r == entries_status(known@, *id),
{
    match find_entry(known, id) {
        Some(i) => known[i].status,
        None => HeaderStatus::Unknown,
    }
}

/// Index of the entry of `id`, if the header is known.
fn find_entry(known: &Vec<KnownHeader>, id: &HeaderId) -> (r: Option<usize>)
    requires
        entries_wf(known@),
    ensures
        r is Some <==> entries_know(known@, *id),
        r is Some ==> r->0 == entry_index(known@, *id) && r->0 < known@.len(),
{
    let mut i: usize = 0;
    while i < known.len()
        invariant
            entries_wf(known@),
            0 <= i <= known@.len(),
            forall|j: int| 0 <= j < i ==> known@[j].id != *id,
        decreases known@.len() - i,
    {
        if known[i].id == *id {
            assert(known@[i as int].id == *id);
            let ghost k = entry_index(known@, *id);
            assert(known@[k].id == *id);
            assert(k == i);
            return Some(i);
        }
        i = i + 1;
    }
    None
}

/// Moves the header `id` from status `from` to status `to`, when it has status `from`.
fn move_entry(known: &mut Vec<KnownHeader>, id: &HeaderId, from: HeaderStatus, to: HeaderStatus)
    requires
        entries_wf(old(known)@),
        is_queued_status(from),
        is_queued_status(to),
    ensures
        entries_wf(final(known)@),
        final(known)@ == moved_status(old(known)@, *id, from, to),
{
    match find_entry(known, id) {
        Some(i) => {
            if known[i].status == from {
                known[i].status = to;
            }
            proof {
                assert forall|j: int| 0 <= j < old(known)@.len() && j != i implies !(
                old(known)@[j].id == *id) by {
                    if j < i {
                        assert(old(known)@[j].id != old(known)@[i as int].id);
                    } else {
                        assert(old(known)@[i as int].id != old(known)@[j].id);
                    }
                }
                assert(known@ =~= moved_status(old(known)@, *id, from, to));
                assert forall|a: int, b: int|
                    0 <= a < b < known@.len() implies #[trigger] known@[a].id
                    != #[trigger] known@[b].id by {
                    assert(old(known)@[a].id != old(known)@[b].id);
                }
                assert forall|j: int| 0 <= j < known@.len() implies #[trigger] known_header_wf(
                    known@[j],
                ) by {
                    assert(known_header_wf(old(known)@[j]));
                }
            }
        },
        None => {
            assert(known@ =~= moved_status(old(known)@, *id, from, to));
        },
    }
}

/// Makes orphans of the possible orphans whose parent is `id`.
fn orphan_children(known: &mut Vec<KnownHeader>, id: &HeaderId)
    requires
        entries_wf(old(known)@),
    ensures
        entries_wf(final(known)@),
        final(known)@ == orphaned_children(old(known)@, *id),
{
    let ghost target = orphaned_children(old(known)@, *id);
    let mut i: usize = 0;
    while i < known.len()
        invariant
            entries_wf(known@),
            entries_wf(old(known)@),
            known@.len() == old(known)@.len(),
            target == orphaned_children(old(known)@, *id),
            0 <= i <= known@.len(),
            forall|j: int| 0 <= j < i ==> known@[j] == target[j],
            forall|j: int| i <= j < known@.len() ==> known@[j] == old(known)@[j],
        decreases known@.len() - i,
    {
        if known[i].status == HeaderStatus::MaybeOrphan {
            assert(known_header_wf(known@[i as int]));
            let parent = known[i].header.as_ref().unwrap().parent_id();
            if parent == *id {
                known[i].status = HeaderStatus::Orphan;
            }
        }
        proof {
            assert forall|a: int, b: int|
                0 <= a < b < known@.len() implies #[trigger] known@[a].id
                != #[trigger] known@[b].id by {
                assert(old(known)@[a].id != old(known)@[b].id);
            }
            assert forall|j: int| 0 <= j < known@.len() implies #[trigger] known_header_wf(
                known@[j],
            ) by {
                assert(known_header_wf(old(known)@[j]));
            }
        }
        i = i + 1;
    }
    assert(known@ =~= target);
}

/// Moves the (possible) orphans descending from `id` to the MaybeReceipts queue.
fn adopt_descendants(known: &mut Vec<KnownHeader>, id: &HeaderId)
    requires
        entries_wf(old(known)@),
    ensures
        entries_wf(final(known)@),
        adopted_descendants(old(known)@, final(known)@, *id),
{
    let ghost before = old(known)@;
    let mut parents: Vec<HeaderId> = Vec::new();
    parents.push(*id);
    let mut changed = true;
    proof {
        assert(adoption_progress(before, known@, parents@, *id)) by {
            assert forall|n: int|
                0 <= n < before.len() && #[trigger] adopted(before, known@, n) implies false by {
            }
        }
    }
    while changed
        invariant
            entries_wf(known@),
            before == old(known)@,
            entries_wf(old(known)@),
            adoption_progress(before, known@, parents@, *id),
            !changed ==> no_adoptable_left(known@, parents@),
        decreases count_orphans(known@) + if changed {
            1nat
        } else {
            0nat
        },
    {
        let ghost start = known@;
        let mut moved = false;
        let mut i: usize = 0;
        while i < known.len()
            invariant
                entries_wf(known@),
                before == old(known)@,
                entries_wf(old(known)@),
                0 <= i <= known@.len(),
                adoption_progress(before, known@, parents@, *id),
                moved ==> count_orphans(known@) < count_orphans(start),
                !moved ==> known@ == start,
                !moved ==> forall|l: int|
                    0 <= l < i && #[trigger] is_orphan_status(known@[l].status) ==> forall|
                        k: int,
                    |
                        0 <= k < parents@.len() ==> #[trigger] parents@[k] != parent_of(
                            known@[l],
                        ),
            decreases known@.len() - i,
        {
            let status = known[i].status;
            if status == HeaderStatus::MaybeOrphan || status == HeaderStatus::Orphan {
                assert(known_header_wf(known@[i as int]));
                let parent = known[i].header.as_ref().unwrap().parent_id();
                match position(&parents, &parent) {
                    Some(k) => {
                        let ghost prev = known@;
                        let ghost prev_parents = parents@;
                        let child = known[i].id;
                        known[i].status = HeaderStatus::MaybeReceipts;
                        parents.push(child);
                        proof {
                            let e = KnownHeader {
                                id: prev[i as int].id,
                                status: HeaderStatus::MaybeReceipts,
                                header: prev[i as int].header,
                            };
                            assert(known@ == prev.update(i as int, e));
                            lemma_count_orphans_update(prev, i as int, e);
                            lemma_adoption_step(
                                before,
                                prev,
                                known@,
                                prev_parents,
                                parents@,
                                *id,
                                i as int,
                                k as int,
                            );
                            assert forall|a: int, b: int|
                                0 <= a < b < known@.len() implies #[trigger] known@[a].id
                                != #[trigger] known@[b].id by {
                                assert(prev[a].id != prev[b].id);
                            }
                            assert forall|j: int|
                                0 <= j < known@.len() implies #[trigger] known_header_wf(
                                    known@[j],
                                ) by {
                                assert(known_header_wf(prev[j]));
                            }
                        }
                        moved = true;
                    },
                    None => {},
                }
            }
            i = i + 1;
        }
        changed = moved;
    }
    proof {
        lemma_adoption_done(before, known@, parents@, *id);
    }
}

fn header_response_in(known: &mut Vec<KnownHeader>, header: Header)
    requires
        entries_wf(old(known)@),
        header.number is Some,
        header.number->0 >= 1,
        header.hash is Some,
    ensures
        entries_wf(final(known)@),
        ({
            let id = HeaderId(header.number->0, header.hash->0);
            let parent = HeaderId((header.number->0 - 1) as u64, header.parent_hash);
            if entries_know(old(known)@, id) {
                final(known)@ == old(known)@
            } else {
                &&& final(known)@.len() == old(known)@.len() + 1
                &&& final(known)@.drop_last() == old(known)@
                &&& final(known)@.last().id == id
                &&& final(known)@.last().status == new_header_status(
                    entries_status(old(known)@, parent),
                )
                &&& final(known)@.last().header is Some
                &&& final(known)@.last().header->0.spec_header() == header
                &&& final(known)@.last().header->0.spec_receipts() is None
            }
        }),
{
    let header = QueuedHeader::new(header);
    let id = header.id();
    if find_entry(known, &id).is_some() {
        return;
    }
    let parent_status = entry_status(known, &header.parent_id());
    let status = match parent_status {
        HeaderStatus::Unknown | HeaderStatus::MaybeOrphan => HeaderStatus::MaybeOrphan,
        HeaderStatus::Orphan => HeaderStatus::Orphan,
        _ => HeaderStatus::MaybeReceipts,
    };
    let ghost before = known@;
    known.push(KnownHeader { id, status, header: Some(header) });
    proof {
        assert(known@.drop_last() =~= before);
        assert forall|i: int, j: int|
            0 <= i < j < known@.len() implies #[trigger] known@[i].id != #[trigger] known@[j].id by {
            if j == known@.len() - 1 {
                assert(before[i].id == known@[i].id);
                if known@[i].id == id {
                    assert(entries_know(old(known)@, id));
                }
            }
        }
        assert forall|i: int| 0 <= i < known@.len() implies #[trigger] known_header_wf(
            known@[i],
        ) by {
            if i < before.len() {
                assert(known_header_wf(before[i]));
            }
        }
    }
}

fn maybe_orphan_response_in(known: &mut Vec<KnownHeader>, id: &HeaderId, response: bool)
    requires
        entries_wf(old(known)@),
    ensures
        entries_wf(final(known)@),
        !response ==> final(known)@ == orphaned_children(old(known)@, *id),
        response ==> adopted_descendants(old(known)@, final(known)@, *id),
{
    if !response {
        orphan_children(known, id);
    } else {
        adopt_descendants(known, id);
    }
}

fn maybe_receipts_response_in(known: &mut Vec<KnownHeader>, id: &HeaderId, receipts_required: bool)
    requires
        entries_wf(old(known)@),
    ensures
        entries_wf(final(known)@),
        final(known)@ == moved_status(
            old(known)@,
            *id,
            HeaderStatus::MaybeReceipts,
            if receipts_required {
                HeaderStatus::Receipts
            } else {
                HeaderStatus::Ready
            },
        ),
{
    let destination = if receipts_required {
        HeaderStatus::Receipts
    } else {
        HeaderStatus::Ready
    };
    move_entry(known, id, HeaderStatus::MaybeReceipts, destination);
}

fn receipts_response_in(known: &mut Vec<KnownHeader>, id: &HeaderId, receipts: Vec<Receipt>)
    requires
        entries_wf(old(known)@),
    ensures
        entries_wf(final(known)@),
        final(known)@.len() == old(known)@.len(),
        forall|i: int|
            0 <= i < old(known)@.len() ==> if old(known)@[i].id == *id && old(known)@[i].status
                == HeaderStatus::Receipts {
                &&& (#[trigger] final(known)@[i]).id == old(known)@[i].id
                &&& final(known)@[i].status == HeaderStatus::Ready
                &&& final(known)@[i].header is Some
                &&& final(known)@[i].header->0.spec_header()
                    == old(known)@[i].header->0.spec_header()
                &&& final(known)@[i].header->0.spec_receipts() == Some(receipts)
            } else {
                final(known)@[i] == old(known)@[i]
            },
{
    match find_entry(known, id) {
        Some(i) => {
            if known[i].status == HeaderStatus::Receipts {
                assert(known_header_wf(known@[i as int]));
                let header = known[i].header.take().unwrap();
                known[i].header = Some(header.set_receipts(receipts));
                known[i].status = HeaderStatus::Ready;
            }
            proof {
                assert forall|j: int| 0 <= j < old(known)@.len() && j != i implies !(
                old(known)@[j].id == *id) by {
                    if j < i {
                        assert(old(known)@[j].id != old(known)@[i as int].id);
                    } else {
                        assert(old(known)@[i as int].id != old(known)@[j].id);
                    }
                }
                assert forall|a: int, b: int|
                    0 <= a < b < known@.len() implies #[trigger] known@[a].id
                    != #[trigger] known@[b].id by {
                    assert(old(known)@[a].id != old(known)@[b].id);
                }
                assert forall|j: int| 0 <= j < known@.len() implies #[trigger] known_header_wf(
                    known@[j],
                ) by {
                    assert(known_header_wf(old(known)@[j]));
                }
            }
        },
        None => {},
    }
}

fn header_submitted_in(known: &mut Vec<KnownHeader>, id: &HeaderId)
    requires
        entries_wf(old(known)@),
    ensures
        entries_wf(final(known)@),
        final(known)@ == moved_status(
            old(known)@,
            *id,
            HeaderStatus::Ready,
            HeaderStatus::Submitted,
        ),
{
    move_entry(known, id, HeaderStatus::Ready, HeaderStatus::Submitted);
}

fn substrate_best_header_response_in(known: &mut Vec<KnownHeader>, id: &HeaderId)
    requires
        entries_wf(old(known)@),
    ensures
        entries_wf(final(known)@),
        final(known)@ == if entries_know(old(known)@, *id) {
            synced_ancestry(old(known)@, *id)
        } else {
            old(known)@.push(synced_entry(*id))
        },
{
    match find_entry(known, id) {
        Some(i) => {
            let ghost target = synced_ancestry(old(known)@, *id);
            let mut current = *id;
            let mut index = i;
            let mut done = false;
            while !done
                invariant
                    entries_wf(known@),
                    target == synced_ancestry(old(known)@, *id),
                    !done ==> index < known@.len() && known@[index as int].id == current
                        && synced_ancestry(known@, current) == target,
                    done ==> known@ == target,
                decreases current.0 + if done {
                    0nat
                } else {
                    1nat
                },
            {
                let ghost before = known@;
                let ghost start = current;
                proof {
                    lemma_entry_index(before, index as int);
                    assert(known_header_wf(before[index as int]));
                }
                let parent = match &known[index].header {
                    Some(header) => Some(header.parent_id()),
                    None => None,
                };
                known.set(index, KnownHeader { id: current, status: HeaderStatus::Synced, header: None });
                proof {
                    assert forall|a: int, b: int|
                        0 <= a < b < known@.len() implies #[trigger] known@[a].id
                        != #[trigger] known@[b].id by {
                        assert(before[a].id != before[b].id);
                    }
                    assert forall|j: int| 0 <= j < known@.len() implies #[trigger] known_header_wf(
                        known@[j],
                    ) by {
                        assert(known_header_wf(before[j]));
                    }
                    assert(known@ == before.update(index as int, synced_entry(current)));
                    assert(synced_ancestry(before, start) == if before[index as int].header is Some
                        && parent_of(before[index as int]).0 < start.0 {
                        synced_ancestry(known@, parent_of(before[index as int]))
                    } else {
                        known@
                    });
                }
                match parent {
                    Some(parent) => {
                        if parent.0 < current.0 {
                            match find_entry(known, &parent) {
                                Some(j) => {
                                    current = parent;
                                    index = j;
                                },
                                None => {
                                    assert(synced_ancestry(known@, parent) == known@);
                                    done = true;
                                },
                            }
                        } else {
                            done = true;
                        }
                    },
                    None => {
                        done = true;
                    },
                }

            }
        },
        None => {
            known.push(KnownHeader { id: *id, status: HeaderStatus::Synced, header: None });
            proof {
                assert forall|a: int, b: int|
                    0 <= a < b < known@.len() implies #[trigger] known@[a].id
                    != #[trigger] known@[b].id by {
                    if b == known@.len() - 1 {
                        assert(old(known)@[a].id == known@[a].id);
                    } else {
                        assert(old(known)@[a].id != old(known)@[b].id);
                    }
                }
                assert forall|j: int| 0 <= j < known@.len() implies #[trigger] known_header_wf(
                    known@[j],
                ) by {
                    if j < old(known)@.len() {
                        assert(known_header_wf(old(known)@[j]));
                    }
                }
            }
        },
    }
}

/// Marking a header's ancestry synced keeps the ids and the consistency of the entries, turns
/// every changed entry into a synced one, and makes the header's own entry synced.
pub proof fn lemma_synced_ancestry(entries: Seq<KnownHeader>, id: HeaderId)
    requires
        entries_wf(entries),
    ensures
        synced_ancestry(entries, id).len() == entries.len(),
        entries_wf(synced_ancestry(entries, id)),
        forall|i: int|
            0 <= i < entries.len() ==> (#[trigger] synced_ancestry(entries, id)[i]).id
                == entries[i].id && (synced_ancestry(entries, id)[i] == entries[i]
                || synced_ancestry(entries, id)[i] == synced_entry(entries[i].id)),
        entries_know(entries, id) ==> synced_ancestry(entries, id)[entry_index(entries, id)]
            == synced_entry(id),
    decreases id.0,
{
    if entries_know(entries, id) {
        let k = entry_index(entries, id);
        let updated = entries.update(k, synced_entry(id));
        assert forall|a: int, b: int|
            0 <= a < b < updated.len() implies #[trigger] updated[a].id != #[trigger] updated[b].id by {
            assert(entries[a].id != entries[b].id);
        }
        assert forall|j: int| 0 <= j < updated.len() implies #[trigger] known_header_wf(updated[j]) by {
            assert(known_header_wf(entries[j]));
        }
        if entries[k].header is Some && parent_of(entries[k]).0 < id.0 {
            let parent = parent_of(entries[k]);
            lemma_synced_ancestry(updated, parent);
            let result = synced_ancestry(updated, parent);
            assert(result[k] == updated[k] || result[k] == synced_entry(updated[k].id));
        }
    }
}

/// The entry at `index` is the one that `entry_index` finds for its id.
pub proof fn lemma_entry_index(entries: Seq<KnownHeader>, index: int)
    requires
        entries_wf(entries),
        0 <= index < entries.len(),
    ensures
        entries_know(entries, entries[index].id),
        entry_index(entries, entries[index].id) == index,
{
    let id = entries[index].id;
    assert(entries[index].id == id);
    let k = entry_index(entries, id);
    if k != index {
        if k < index {
            assert(entries[k].id != entries[index].id);
        } else {
            assert(entries[index].id != entries[k].id);
        }
    }
}


/// Statuses of the queues in which a header waits for the relay: every status but the
/// unknown and the synced one.
pub open spec fn waits_in_queue(status: HeaderStatus) -> bool {
    ||| status == HeaderStatus::MaybeOrphan
    ||| status == HeaderStatus::Orphan
    ||| status == HeaderStatus::MaybeReceipts
    ||| status == HeaderStatus::Receipts
    ||| status == HeaderStatus::Ready
    ||| status == HeaderStatus::Submitted
}

/// A new header may be an orphan only while its parent's status is not known or the parent
/// may be an orphan itself; it is an orphan when its parent is; under any other parent (one
/// that waits for its receipts, is ready, submitted or synced) its ancestry is established
/// and it goes on to the receipts check.
pub proof fn lemma_new_header_status(parent_status: HeaderStatus)
    ensures
        parent_status == HeaderStatus::Unknown ==> new_header_status(parent_status)
            == HeaderStatus::MaybeOrphan,
        parent_status == HeaderStatus::MaybeOrphan ==> new_header_status(parent_status)
            == HeaderStatus::MaybeOrphan,
        parent_status == HeaderStatus::Orphan ==> new_header_status(parent_status)
            == HeaderStatus::Orphan,
        parent_status == HeaderStatus::MaybeReceipts ==> new_header_status(parent_status)
            == HeaderStatus::MaybeReceipts,
        parent_status == HeaderStatus::Receipts ==> new_header_status(parent_status)
            == HeaderStatus::MaybeReceipts,
        parent_status == HeaderStatus::Ready ==> new_header_status(parent_status)
            == HeaderStatus::MaybeReceipts,
        parent_status == HeaderStatus::Submitted ==> new_header_status(parent_status)
            == HeaderStatus::MaybeReceipts,
        parent_status == HeaderStatus::Synced ==> new_header_status(parent_status)
            == HeaderStatus::MaybeReceipts,
{
}

/// The total of the queues counts every header that waits in any of them: possible orphans,
/// orphans, headers waiting for the receipts check or for their receipts, ready headers and
/// submitted ones.
pub proof fn lemma_total_headers_counts_every_queue(headers: &QueuedHeaders)
    ensures
        headers.spec_total_headers() == headers@.filter(
            |e: KnownHeader| waits_in_queue(e.status),
        ).len(),
{
    let counted = |e: KnownHeader| is_queued_status(e.status);
    let waiting = |e: KnownHeader| waits_in_queue(e.status);
    assert(counted =~= waiting);
    assert(headers@.filter(counted) == headers@.filter(waiting));
}

/// Step `t` of a walk from a header to its parents: the entry at `chain[t]` is queued and
/// the entry at `chain[t + 1]` is its parent.
pub open spec fn parent_link(entries: Seq<KnownHeader>, chain: Seq<int>, t: int) -> bool {
    &&& entries[chain[t]].header is Some
    &&& entries[chain[t + 1]].id == entries[chain[t]].header->0.spec_parent_id()
}

/// `chain` holds the indices of entries that lead from the header `id` to its ancestors:
/// it starts at the entry of `id`, and each of its entries but the last is queued and is
/// followed by the entry of its parent.
pub open spec fn queued_parent_chain(entries: Seq<KnownHeader>, id: HeaderId, chain: Seq<int>) -> bool {
    &&& chain.len() >= 1
    &&& forall|t: int| 0 <= t < chain.len() ==> 0 <= #[trigger] chain[t] < entries.len()
    &&& entries[chain[0]].id == id
    &&& forall|t: int| 0 <= t < chain.len() - 1 ==> #[trigger] parent_link(entries, chain, t)
}

/// Along such a chain each entry is the header one below the previous one.
proof fn lemma_chain_numbers(entries: Seq<KnownHeader>, id: HeaderId, chain: Seq<int>)
    requires
        entries_wf(entries),
        queued_parent_chain(entries, id, chain),
    ensures
        forall|t: int| 0 <= t < chain.len() ==> entries[#[trigger] chain[t]].id.0 + t == id.0,
    decreases chain.len(),
{
    if chain.len() > 1 {
        let n = chain.len() - 1;
        let prefix = chain.drop_last();
        assert forall|t: int| 0 <= t < prefix.len() - 1 implies #[trigger] parent_link(
            entries,
            prefix,
            t,
        ) by {
            assert(parent_link(entries, chain, t));
        }
        lemma_chain_numbers(entries, id, prefix);
        assert(parent_link(entries, chain, n - 1));
        assert(known_header_wf(entries[chain[n - 1]]));
        assert(entries[prefix[n - 1]].id.0 + (n - 1) == id.0);
        assert forall|t: int| 0 <= t < chain.len() implies entries[#[trigger] chain[t]].id.0 + t
            == id.0 by {
            if t < n {
                assert(prefix[t] == chain[t]);
            }
        }
    }
}

/// Once the Substrate runtime reports the header `id` as its best, every entry on a walk from
/// `id` through the parents of queued headers is synced: the header itself and each of its
/// queued ancestors, at any depth, and the first ancestor that is no longer queued.
pub proof fn lemma_synced_ancestry_chain(entries: Seq<KnownHeader>, id: HeaderId, chain: Seq<int>)
    requires
        entries_wf(entries),
        queued_parent_chain(entries, id, chain),
    ensures
        forall|t: int|
            0 <= t < chain.len() ==> synced_ancestry(entries, id)[#[trigger] chain[t]]
                == synced_entry(entries[chain[t]].id),
    decreases chain.len(),
{
    let k = chain[0];
    lemma_entry_index(entries, k);
    lemma_synced_ancestry(entries, id);
    lemma_chain_numbers(entries, id, chain);
    if chain.len() > 1 {
        let updated = entries.update(k, synced_entry(id));
        assert forall|a: int, b: int|
            0 <= a < b < updated.len() implies #[trigger] updated[a].id != #[trigger] updated[b].id by {
            assert(entries[a].id != entries[b].id);
        }
        assert forall|j: int| 0 <= j < updated.len() implies #[trigger] known_header_wf(updated[j]) by {
            assert(known_header_wf(entries[j]));
        }
        assert(parent_link(entries, chain, 0));
        assert(known_header_wf(entries[k]));
        let parent = parent_of(entries[k]);
        assert(parent.0 < id.0);
        assert(synced_ancestry(entries, id) == synced_ancestry(updated, parent));
        let tail = chain.subrange(1, chain.len() as int);
        assert forall|s: int| 0 <= s < tail.len() implies #[trigger] tail[s] != k
            && updated[tail[s]] == entries[tail[s]] by {
            assert(tail[s] == chain[s + 1]);
            assert(entries[chain[s + 1]].id.0 + (s + 1) == id.0);
        }
        assert forall|s: int| 0 <= s < tail.len() - 1 implies #[trigger] parent_link(
            updated,
            tail,
            s,
        ) by {
            assert(parent_link(entries, chain, s + 1));
            assert(tail[s] == chain[s + 1]);
            assert(tail[s + 1] == chain[s + 2]);
            assert(tail[s] != k && updated[tail[s]] == entries[tail[s]]);
            assert(tail[s + 1] != k && updated[tail[s + 1]] == entries[tail[s + 1]]);
        }
        assert(tail[0] != k && updated[tail[0]] == entries[tail[0]]);
        assert(queued_parent_chain(updated, parent, tail));
        lemma_synced_ancestry_chain(updated, parent, tail);
        lemma_synced_ancestry(updated, parent);
        assert forall|t: int| 0 <= t < chain.len() implies synced_ancestry(
            entries,
            id,
        )[#[trigger] chain[t]] == synced_entry(entries[chain[t]].id) by {
            if t == 0 {
                assert(synced_ancestry(updated, parent)[k].id == updated[k].id);
            } else {
                assert(chain[t] == tail[t - 1]);
                assert(tail[t - 1] != k && updated[tail[t - 1]] == entries[tail[t - 1]]);
            }
        }
    }
}

} // verus!
