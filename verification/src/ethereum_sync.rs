use vstd::prelude::*;

use crate::ethereum_headers::{
    is_queued_status, known_header_wf, lemma_entry_index, lemma_max_queued_number,
    lemma_oldest_index, lemma_synced_ancestry, lemma_synced_ancestry_chain,
    lemma_total_headers_counts_every_queue, oldest_index, queued_parent_chain, synced_ancestry,
    synced_entry, waits_in_queue, KnownHeader, QueuedHeaders,
};
use crate::ethereum_types::{HeaderId, HeaderStatus, QueuedHeader};

verus! {

/// Ethereum synchronization parameters.
#[derive(Debug)]
pub struct HeadersSyncParams {
    /// Maximal number of ethereum headers to pre-download.
    pub max_future_headers_to_download: usize,
    /// Maximal number of active (we believe) submit header transactions.
    pub max_headers_in_submitted_status: usize,
}

impl Default for HeadersSyncParams {
    fn default() -> (r: Self)
        ensures
            r.max_future_headers_to_download == 128,
            r.max_headers_in_submitted_status == 8,
    {
        HeadersSyncParams { max_future_headers_to_download: 128, max_headers_in_submitted_status: 8 }
    }
}

/// Ethereum headers synchronization context.
#[derive(Debug)]
pub struct HeadersSync {
    /// Synchronization parameters.
    pub params: HeadersSyncParams,
    /// Best header number known to Ethereum node.
    pub target_header_number: Option<u64>,
    /// Best header known to Substrate node.
    pub best_header: Option<HeaderId>,
    /// The number of header that we have submitted recently.
    pub unconfirmed_best_header_number: u64,
    /// Headers queue.
    pub headers: QueuedHeaders,
}

impl Default for HeadersSync {
    fn default() -> (r: Self)
        ensures
            r.wf(),
            r.params.max_future_headers_to_download == 128,
            r.params.max_headers_in_submitted_status == 8,
            r.target_header_number is None,
            r.best_header is None,
            r.unconfirmed_best_header_number == 0,
            r.headers@ == Seq::<crate::ethereum_headers::KnownHeader>::empty(),
    {
        HeadersSync {
            params: HeadersSyncParams::default(),
            target_header_number: None,
            best_header: None,
            unconfirmed_best_header_number: 0,
            headers: QueuedHeaders::new(),
        }
    }
}

/// Number of `target` minus `best`, or 0 when `best` is higher.
pub open spec fn headers_behind(target: u64, best: u64) -> int {
    if target > best {
        target - best
    } else {
        0
    }
}

/// The larger of two numbers.
pub open spec fn max_number(a: u64, b: u64) -> u64 {
    if a >= b {
        a
    } else {
        b
    }
}

/// `after` is `before` once the Substrate node has reported `best` as its best header: the
/// best header is `best`, and unless it already was, the queues have marked it synced.
pub open spec fn substrate_best_header_applied(
    before: &HeadersSync,
    after: &HeadersSync,
    best: HeaderId,
) -> bool {
    &&& after.best_header == Some(best)
    &&& after.target_header_number == before.target_header_number
    &&& after.unconfirmed_best_header_number == before.unconfirmed_best_header_number
    &&& after.params == before.params
    &&& after.headers@ == if before.best_header == Some(best) {
        before.headers@
    } else if before.headers.knows(best) {
        synced_ancestry(before.headers@, best)
    } else {
        before.headers@.push(synced_entry(best))
    }
}

/// A header selected for download is one that the Ethereum node has and that is new: its
/// number is at most the node's best, follows the best downloaded header, and so is above
/// every queued header and above the best header known to Substrate.
pub proof fn lemma_selected_download_is_new(sync: &HeadersSync)
    requires
        sync.wf(),
    ensures
        sync.spec_select_new_header_to_download() is Some ==> {
            let number = sync.spec_select_new_header_to_download()->0;
            &&& number <= sync.target_header_number->0
            &&& number == sync.best_downloaded_number() + 1
            &&& (sync.best_header->0).0 < number
            &&& forall|i: int|
                0 <= i < sync.headers@.len() && is_queued_status(
                    #[trigger] sync.headers@[i].status,
                ) ==> sync.headers@[i].id.0 < number
        },
{
    lemma_max_queued_number(sync.headers@);
}

/// A header selected for submission is in the Ready queue and is the oldest there, and it is
/// only selected while fewer headers than allowed are submitted.
pub proof fn lemma_selected_submission_is_ready(sync: &HeadersSync)
    requires
        sync.wf(),
    ensures
        sync.headers.spec_header(HeaderStatus::Ready) is Some ==> {
            let i = oldest_index(sync.headers@, HeaderStatus::Ready)->0;
            &&& 0 <= i < sync.headers@.len()
            &&& sync.headers@[i].status == HeaderStatus::Ready
            &&& sync.headers@[i].header == sync.headers.spec_header(HeaderStatus::Ready)
            &&& forall|j: int|
                0 <= j < sync.headers@.len() && #[trigger] sync.headers@[j].status
                    == HeaderStatus::Ready ==> sync.headers@[i].id.0 <= sync.headers@[j].id.0
        },
        (exists|j: int|
            0 <= j < sync.headers@.len() && #[trigger] sync.headers@[j].status
                == HeaderStatus::Ready) ==> sync.headers.spec_header(HeaderStatus::Ready) is Some,
{
    lemma_oldest_index(sync.headers@, HeaderStatus::Ready);
    if oldest_index(sync.headers@, HeaderStatus::Ready) is Some {
        let i = oldest_index(sync.headers@, HeaderStatus::Ready)->0;
        assert(known_header_wf(sync.headers@[i]));
    }
}

/// Once the Substrate node has reported a new best header, the queues know that header as
/// synced.
pub proof fn lemma_reported_best_header_is_synced(
    before: &HeadersSync,
    after: &HeadersSync,
    best: HeaderId,
)
    requires
        before.wf(),
        substrate_best_header_applied(before, after, best),
        before.best_header != Some(best),
    ensures
        after.headers.spec_status(best) == HeaderStatus::Synced,
{
    let k = if before.headers.knows(best) {
        lemma_synced_ancestry(before.headers@, best);
        before.headers.index_of(best)
    } else {
        let n = before.headers@.len() as int;
        assert forall|a: int, b: int|
            0 <= a < b < after.headers@.len() implies #[trigger] after.headers@[a].id
            != #[trigger] after.headers@[b].id by {
            if b == n {
                assert(before.headers@[a].id == after.headers@[a].id);
                assert(before.headers@[a].id != best) by {
                    if before.headers@[a].id == best {
                        assert(before.headers.knows(best));
                    }
                }
            } else {
                assert(before.headers@[a].id != before.headers@[b].id);
            }
        }
        assert forall|j: int| 0 <= j < after.headers@.len() implies #[trigger] known_header_wf(
            after.headers@[j],
        ) by {
            if j < n {
                assert(known_header_wf(before.headers@[j]));
            }
        }
        n
    };
    lemma_entry_index(after.headers@, k);
}

/// Once the Substrate node has reported a new best header, that header and every queued
/// ancestor reachable from it through the parents of queued headers, at any depth, is synced
/// and has left the queues.
pub proof fn lemma_reported_best_header_syncs_queued_ancestors(
    before: &HeadersSync,
    after: &HeadersSync,
    best: HeaderId,
    chain: Seq<int>,
)
    requires
        before.wf(),
        substrate_best_header_applied(before, after, best),
        before.best_header != Some(best),
        queued_parent_chain(before.headers@, best, chain),
    ensures
        forall|t: int|
            0 <= t < chain.len() ==> after.headers@[#[trigger] chain[t]] == synced_entry(
                before.headers@[chain[t]].id,
            ),
        forall|t: int|
            0 <= t < chain.len() ==> after.headers.spec_status(
                before.headers@[#[trigger] chain[t]].id,
            ) == HeaderStatus::Synced,
{
    assert(0 <= chain[0] < before.headers@.len());
    assert(before.headers@[chain[0]].id == best);
    assert(before.headers.knows(best));
    lemma_synced_ancestry_chain(before.headers@, best, chain);
    lemma_synced_ancestry(before.headers@, best);
    assert forall|t: int| 0 <= t < chain.len() implies after.headers.spec_status(
        before.headers@[#[trigger] chain[t]].id,
    ) == HeaderStatus::Synced by {
        assert(0 <= chain[t] < before.headers@.len());
        assert(after.headers@[chain[t]].id == before.headers@[chain[t]].id);
        lemma_entry_index(after.headers@, chain[t]);
    }
}

/// While the Ethereum and the Substrate best headers are known and the queues hold fewer
/// headers than allowed, the header to download next is the one above both the Substrate
/// best header and every queued header, unless the Ethereum node has no such header yet;
/// the Substrate best header may be any header, the genesis one included. Nothing is
/// downloaded while either best header is unknown or the queues are full.
pub proof fn lemma_download_selection(sync: &HeadersSync)
    requires
        sync.wf(),
    ensures
        sync.target_header_number is None || sync.best_header is None
            ==> sync.spec_select_new_header_to_download() is None,
        sync.headers@.filter(|e: KnownHeader| waits_in_queue(e.status)).len()
            >= sync.params.max_future_headers_to_download
            ==> sync.spec_select_new_header_to_download() is None,
        sync.target_header_number is Some && sync.best_header is Some && sync.headers@.filter(
            |e: KnownHeader| waits_in_queue(e.status),
        ).len() < sync.params.max_future_headers_to_download ==> ({
            let target = sync.target_header_number->0;
            let best = (sync.best_header->0).0;
            let reached = best >= target || exists|i: int|
                0 <= i < sync.headers@.len() && waits_in_queue(
                    #[trigger] sync.headers@[i].status,
                ) && sync.headers@[i].id.0 >= target;
            &&& reached ==> sync.spec_select_new_header_to_download() is None
            &&& !reached ==> sync.spec_select_new_header_to_download() is Some
            &&& !reached ==> ({
                let last = sync.spec_select_new_header_to_download()->0 - 1;
                &&& best <= last
                &&& forall|i: int|
                    0 <= i < sync.headers@.len() && waits_in_queue(
                        #[trigger] sync.headers@[i].status,
                    ) ==> sync.headers@[i].id.0 <= last
                &&& last == best || exists|i: int|
                    0 <= i < sync.headers@.len() && waits_in_queue(
                        #[trigger] sync.headers@[i].status,
                    ) && sync.headers@[i].id.0 == last
            })
        }),
{
    lemma_total_headers_counts_every_queue(&sync.headers);
    lemma_max_queued_number(sync.headers@);
}

/// Reporting the same best header of Substrate twice changes nothing the second time.
pub proof fn lemma_substrate_best_header_idempotent(
    first: &HeadersSync,
    second: &HeadersSync,
    third: &HeadersSync,
    best: HeaderId,
)
    requires
        substrate_best_header_applied(first, second, best),
        substrate_best_header_applied(second, third, best),
    ensures
        third.best_header == second.best_header,
        third.target_header_number == second.target_header_number,
        third.unconfirmed_best_header_number == second.unconfirmed_best_header_number,
        third.params == second.params,
        third.headers@ == second.headers@,
{
}

/// The header that the queues select for a queued status has an id and a parent.
pub proof fn lemma_queued_header_has_parent(headers: &QueuedHeaders, status: HeaderStatus)
    requires
        headers.wf(),
        is_queued_status(status),
    ensures
        headers.spec_header(status) is Some ==> headers.spec_header(status)->0.has_parent(),
{
    lemma_oldest_index(headers@, status);
    if oldest_index(headers@, status) is Some {
        assert(known_header_wf(headers@[oldest_index(headers@, status)->0]));
    }
}

impl HeadersSync {
    /// The headers queue is consistent.
    pub open spec fn wf(&self) -> bool {
        self.headers.wf()
    }

    /// Number of the best header that is downloaded already: the best queued header, or the
    /// best header known to Substrate when it is higher.
    pub open spec fn best_downloaded_number(&self) -> u64 {
        max_number(self.headers.spec_best_queued_number(), (self.best_header->0).0)
    }

    /// The number of the header to download next from the Ethereum node, if any: the one above
    /// the best downloaded header, as long as the Ethereum node has it.
    pub open spec fn spec_select_new_header_to_download(&self) -> Option<u64> {
        if self.target_header_number is None || self.best_header is None {
            None
        } else if self.headers.spec_total_headers() >= self.params.max_future_headers_to_download {
            None
        } else if self.best_downloaded_number() >= self.target_header_number->0 {
            None
        } else {
            Some((self.best_downloaded_number() + 1) as u64)
        }
    }

    /// Returns true if we have submitted header recently.
    pub fn is_header_submitted_recently(&self) -> (r: bool)
        ensures
            r,
    {
        true
    }

    /// Returns true if we have synced almost all known headers.
    pub fn is_almost_synced(&self) -> (r: bool)
        ensures
            r == (self.best_header is Some && self.target_header_number is Some && headers_behind(
                self.target_header_number->0,
                (self.best_header->0).0,
            ) < 4),
    {
        match (self.best_header, self.target_header_number) {
            (Some(best), Some(target)) => target.saturating_sub(best.0) < 4,
            _ => false,
        }
    }

    /// Returns reference to the headers queue.
    pub fn headers(&self) -> (r: &QueuedHeaders)
        ensures
            *r == self.headers,
    {
        &self.headers
    }

    /// Returns mutable reference to the headers queue.
    pub fn headers_mut(&mut self) -> (r: &mut QueuedHeaders)
        ensures
            *r == old(self).headers,
            final(self).headers == *final(r),
            final(self).params == old(self).params,
            final(self).target_header_number == old(self).target_header_number,
            final(self).best_header == old(self).best_header,
            final(self).unconfirmed_best_header_number == old(
                self,
            ).unconfirmed_best_header_number,
    {
        &mut self.headers
    }

    /// Select header that needs to be downloaded from the Ethereum node.
    pub fn select_new_header_to_download(&self) -> (r: Option<u64>)
        ensures
            r == self.spec_select_new_header_to_download(),
    {
        proof {
            use_type_invariant(&self.headers);
        }
        // if we haven't received best header from Ethereum node yet, there's nothing we can download
        let target_header_number = match self.target_header_number {
            Some(target_header_number) => target_header_number,
            None => return None,
        };

        // if we haven't received known best header from Substrate node yet, there's nothing we can download
        let best_header = match &self.best_header {
            Some(best_header) => best_header,
            None => return None,
        };

        // if there's too many headers in the queue, stop downloading
        let in_memory_headers = self.headers.total_headers();
        if in_memory_headers >= self.params.max_future_headers_to_download {
            return None;
        }

        // we assume that there were no reorgs if we have already downloaded best header
        // the Ethereum node has no header above its best one
        let best_downloaded_number = self.headers.best_queued_number().max(best_header.0);
        if best_downloaded_number >= target_header_number {
            return None;
        }

        // download new header
        Some(best_downloaded_number + 1)
    }

    /// Select header that needs to be submitted to the Substrate node.
    pub fn select_header_to_submit(&self) -> (r: Option<&QueuedHeader>)
        ensures
            self.headers.spec_headers_in_status(HeaderStatus::Submitted)
                >= self.params.max_headers_in_submitted_status ==> r is None,
            self.headers.spec_headers_in_status(HeaderStatus::Submitted)
                < self.params.max_headers_in_submitted_status ==> (r is Some <==> self.headers.spec_header(
                HeaderStatus::Ready,
            ) is Some),
            r is Some ==> *r->0 == self.headers.spec_header(HeaderStatus::Ready)->0,
    {
        proof {
            use_type_invariant(&self.headers);
        }
        if self.headers.headers_in_submit_status() >= self.params.max_headers_in_submitted_status {
            return None;
        }
        self.headers.header(HeaderStatus::Ready)
    }

    /// Select the header whose presence in the Substrate runtime needs checking: the parent of
    /// the oldest header that may be an orphan.
    pub fn select_orphan_parent_to_check(&self) -> (r: Option<HeaderId>)
        ensures
            r == match self.headers.spec_header(HeaderStatus::MaybeOrphan) {
                Some(header) => Some(header.spec_parent_id()),
                None => None::<HeaderId>,
            },
    {
        proof {
            use_type_invariant(&self.headers);
        }
        proof {
            lemma_queued_header_has_parent(&self.headers, HeaderStatus::MaybeOrphan);
        }
        match self.headers.header(HeaderStatus::MaybeOrphan) {
            Some(header) => Some(header.parent_id()),
            None => None,
        }
    }

    /// Select the number of the header that needs to be downloaded because its child is an
    /// orphan: the parent of the oldest orphan.
    pub fn select_orphan_parent_to_download(&self) -> (r: Option<u64>)
        ensures
            r == match self.headers.spec_header(HeaderStatus::Orphan) {
                Some(header) => Some(header.spec_parent_id().0),
                None => None::<u64>,
            },
    {
        proof {
            use_type_invariant(&self.headers);
        }
        proof {
            lemma_queued_header_has_parent(&self.headers, HeaderStatus::Orphan);
        }
        match self.headers.header(HeaderStatus::Orphan) {
            Some(header) => Some(header.parent_id().0),
            None => None,
        }
    }

    /// Select the header for which the runtime needs asking whether its import needs the
    /// receipts of its transactions: the oldest of the MaybeReceipts queue.
    pub fn select_header_to_check_receipts(&self) -> (r: Option<&QueuedHeader>)
        ensures
            r is Some <==> self.headers.spec_header(HeaderStatus::MaybeReceipts) is Some,
            r is Some ==> *r->0 == self.headers.spec_header(HeaderStatus::MaybeReceipts)->0,
    {
        proof {
            use_type_invariant(&self.headers);
        }
        self.headers.header(HeaderStatus::MaybeReceipts)
    }

    /// Select the header whose transactions receipts need downloading from the Ethereum node:
    /// the oldest of the Receipts queue.
    pub fn select_receipts_to_download(&self) -> (r: Option<HeaderId>)
        ensures
            r == match self.headers.spec_header(HeaderStatus::Receipts) {
                Some(header) => Some(header.spec_id()),
                None => None::<HeaderId>,
            },
    {
        proof {
            use_type_invariant(&self.headers);
        }
        proof {
            lemma_queued_header_has_parent(&self.headers, HeaderStatus::Receipts);
        }
        match self.headers.header(HeaderStatus::Receipts) {
            Some(header) => Some(header.id()),
            None => None,
        }
    }

    /// Receive new target header number from the Ethereum node.
    pub fn ethereum_best_header_number_response(&mut self, best_header_number: u64)
        ensures
            final(self).target_header_number == Some(best_header_number),
            final(self).params == old(self).params,
            final(self).best_header == old(self).best_header,
            final(self).unconfirmed_best_header_number == old(
                self,
            ).unconfirmed_best_header_number,
            final(self).headers == old(self).headers,
    {
        self.target_header_number = Some(best_header_number);
    }

    /// Receive new best header from the Substrate node.
    pub fn substrate_best_header_response(&mut self, best_header: HeaderId)
        ensures
            substrate_best_header_applied(old(self), final(self), best_header),
    {
        proof {
            use_type_invariant(&self.headers);
        }
        // early return if it is still the same
        if self.best_header == Some(best_header) {
            return;
        }

        // remember that this header is now known to the Substrate runtime
        self.headers.substrate_best_header_response(&best_header);

        // finally remember the best header itself
        self.best_header = Some(best_header);
    }

    /// Synchronization tick (called periodically).
    pub fn tick(&mut self)
        ensures
            *final(self) == *old(self),
    {
    }
}

} // verus!
