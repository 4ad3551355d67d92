//! The iterator over the discovery process: backends are consumed in turn.
//!
//! Some backends interact with external systems while iterating, and these may
//! fail, so the iterator returns a `Result`. In case of error the error is
//! returned and the iterator moves on with the discovery process. A backend
//! that stops once is never asked again.
use vstd::prelude::*;

use crate::discovery::error::Error;
use crate::discovery::model::ClusterDiscovery;

use super::http;
use super::http::DiscoveryRequest;
use super::http::DiscoveryResponse;
use super::http::HttpRequestMethod;
use super::http::PagerStep;

verus! {

/// What discovery yields: a cluster, or the error a backend ran into.
pub type DiscoveryResult = Result<ClusterDiscovery, Error>;

/// A backend whose results are known up front.
pub struct Listed {
    items: Vec<DiscoveryResult>,
}

impl Listed {
    /// The results still to yield, in order.
    pub closed spec fn spec_pending(&self) -> Seq<DiscoveryResult> {
        self.items@
    }

    /// A backend that yields the given results in order.
    pub fn new(items: Vec<DiscoveryResult>) -> (r: Listed)
        ensures
            r.spec_pending() == items@,
    {
        Listed { items }
    }

    /// The next result, if any.
    pub fn next(&mut self) -> (r: Option<DiscoveryResult>)
        ensures
            old(self).spec_pending().len() == 0 ==> r is None && final(self).spec_pending().len() == 0,
            old(self).spec_pending().len() > 0 ==> r == Some(old(self).spec_pending()[0])
                && final(self).spec_pending() == old(self).spec_pending().drop_first(),
    {
        if self.items.len() == 0 {
            return None;
        }
        let item = self.items.remove(0);
        assert(self.items@ =~= old(self).spec_pending().drop_first());
        Some(item)
    }
}

/// A discovery backend.
pub enum Backend {
    /// Clusters fetched from an HTTP server.
    Http(http::Iter),
    /// Results known up front.
    Listed(Listed),
}

/// The results of a listed backend; an HTTP backend contributes none.
pub open spec fn listed_items(b: Backend) -> Seq<DiscoveryResult> {
    match b {
        Backend::Listed(l) => l.spec_pending(),
        Backend::Http(_) => Seq::empty(),
    }
}

/// The results of listed backends, backend after backend.
pub open spec fn items_in_order(bs: Seq<Backend>) -> Seq<DiscoveryResult>
    decreases bs.len(),
{
    if bs.len() == 0 {
        Seq::empty()
    } else {
        listed_items(bs[0]) + items_in_order(bs.drop_first())
    }
}

/// Whether every backend is a listed one.
pub open spec fn only_listed(bs: Seq<Backend>) -> bool {
    forall|i: int| 0 <= i < bs.len() ==> (#[trigger] bs[i]) is Listed
}

/// An HTTP backend is consistent, and idle unless it is the active one.
pub open spec fn backend_ok(b: Backend, active: bool) -> bool {
    match b {
        Backend::Http(h) => h.wf() && (!active ==> !h.spec_awaiting()),
        Backend::Listed(_) => true,
    }
}

/// Whether a page leaves its HTTP backend asking for more: it came with a
/// cursor, and the backend uses `POST`, which can send it.
pub open spec fn page_continues(h: http::Iter, page: DiscoveryResponse) -> bool {
    page.cursor is Some && h.spec_method() is Post
}

/// The request for the page after `page` of the HTTP backend `h`.
pub open spec fn next_page_request(h: http::Iter, page: DiscoveryResponse, q: DiscoveryRequest) -> bool {
    &&& q.backend == h.spec_backend()
    &&& q.method == h.spec_method()
    &&& q.url@ == h.spec_url()
    &&& q.cursor == page.cursor
}

/// After an empty page that leaves its HTTP backend asking for more, the
/// request for the next page is handed out.
pub open spec fn empty_page_asks_more(active: Option<Backend>, page: DiscoveryResponse, r: ChainStep) -> bool {
    match active {
        Some(Backend::Http(h)) => (page.clusters@.len() == 0 && page_continues(h, page)) ==> (
        r matches ChainStep::Request(q) && next_page_request(h, page, q)),
        _ => true,
    }
}

/// Whether the active backend is an HTTP one waiting to ask for its next page.
pub open spec fn pager_wants_page(active: Option<Backend>) -> bool {
    active matches Some(Backend::Http(h)) && h.spec_pending().len() == 0 && !h.spec_finished()
}

/// An active HTTP backend with no page left to yield that is not done hands
/// out the request for its next page.
pub open spec fn pager_requests(active: Option<Backend>, r: ChainStep) -> bool {
    match active {
        Some(Backend::Http(h)) => (h.spec_pending().len() == 0 && !h.spec_finished()) ==> (
        r matches ChainStep::Request(q) && q.backend == h.spec_backend() && q.method == h.spec_method()
            && q.url@ == h.spec_url() && q.cursor == h.spec_cursor()),
        _ => true,
    }
}

/// The next thing the discovery iterator does.
#[derive(Debug)]
pub enum ChainStep {
    /// Yield this result.
    Item(DiscoveryResult),
    /// Send this request and hand the outcome to [`Iter::receive`].
    Request(DiscoveryRequest),
    /// The discovery process is over.
    End,
}

/// Iterator over the discovery process.
pub struct Iter {
    active: Option<Backend>,
    backends: Vec<Backend>,
}

impl Iter {
    /// The backend being consumed, if any.
    pub closed spec fn spec_active(&self) -> Option<Backend> {
        self.active
    }

    /// The backends still to consume, in order.
    pub closed spec fn spec_backends(&self) -> Seq<Backend> {
        self.backends@
    }

    /// Whether the iterator waits for the outcome of a request.
    pub open spec fn awaiting(&self) -> bool {
        self.spec_active() matches Some(Backend::Http(h)) && h.spec_awaiting()
    }

    /// Whether every backend left is a listed one.
    pub open spec fn all_listed(&self) -> bool {
        &&& (self.spec_active() matches Some(b) ==> b is Listed)
        &&& only_listed(self.spec_backends())
    }

    /// The results still to yield, when all backends left are listed ones.
    pub open spec fn spec_pending(&self) -> Seq<DiscoveryResult> {
        match self.spec_active() {
            Some(b) => listed_items(b) + items_in_order(self.spec_backends()),
            None => items_in_order(self.spec_backends()),
        }
    }

    /// Whether every backend was consumed.
    pub open spec fn ended(&self) -> bool {
        self.spec_active() is None && self.spec_backends().len() == 0
    }

    /// The backends are consistent.
    pub open spec fn wf(&self) -> bool {
        &&& (self.spec_active() matches Some(b) ==> backend_ok(b, true))
        &&& forall|i: int| 0 <= i < self.spec_backends().len() ==> backend_ok(#[trigger] self.spec_backends()[i], false)
    }

    /// Returns an iterator that consumes all the given backends in turn.
    pub fn new(backends: Vec<Backend>) -> (r: Iter)
        requires
            forall|i: int| 0 <= i < backends@.len() ==> backend_ok(#[trigger] backends@[i], false),
        ensures
            r.wf(),
            !r.awaiting(),
            r.spec_active() is None,
            r.spec_backends() == backends@,
    {
        Iter { active: None, backends }
    }

    /// Mock cluster discovery by iterating over the given results.
    pub fn mock(results: Vec<DiscoveryResult>) -> (r: Iter)
        ensures
            r.wf(),
            !r.awaiting(),
            r.all_listed(),
            r.spec_pending() == results@,
    {
        let mut backends: Vec<Backend> = Vec::new();
        backends.push(Backend::Listed(Listed::new(results)));
        let r = Iter::new(backends);
        proof {
            assert(r.spec_backends().drop_first() =~= Seq::<Backend>::empty());
            assert(items_in_order(r.spec_backends().drop_first()) == Seq::<DiscoveryResult>::empty());
            assert(listed_items(r.spec_backends()[0]) == results@);
            assert(items_in_order(r.spec_backends()) =~= results@);
        }
        r
    }

    /// Hand out the next result, or a request to send, or the end of discovery.
    pub fn next(&mut self) -> (r: ChainStep)
        requires
            old(self).wf(),
            !old(self).awaiting(),
        ensures
            final(self).wf(),
            final(self).awaiting() == (r is Request),
            r is End ==> final(self).ended(),
            old(self).ended() ==> r is End,
            pager_requests(old(self).spec_active(), r),
            old(self).all_listed() ==> {
                &&& final(self).all_listed()
                &&& !(r is Request)
                &&& r is End <==> old(self).spec_pending().len() == 0
                &&& r matches ChainStep::Item(x) ==> x == old(self).spec_pending()[0]
                    && final(self).spec_pending() == old(self).spec_pending().drop_first()
            },
    {
        let ghost mut first = true;
        loop
            invariant
                first ==> *self == *old(self),
                !first ==> !pager_wants_page(old(self).spec_active()),
                self.wf(),
                !self.awaiting(),
                old(self).ended() ==> self.ended(),
                old(self).all_listed() ==> self.all_listed() && self.spec_pending() == old(self).spec_pending(),
            decreases 2 * self.backends@.len() + if self.active is Some { 1int } else { 0int },
        {
            let ghost pre = *self;
            assert(forall|i: int| 0 <= i < self.spec_backends().len() ==> backend_ok(#[trigger] self.spec_backends()[i], false));
            let active = self.active.take();
            assert(self.backends@ == pre.backends@);
            assert(active == pre.active);
            match active {
                Some(Backend::Listed(listed)) => {
                    let mut listed = listed;
                    match listed.next() {
                        Some(item) => {
                            self.active = Some(Backend::Listed(listed));
                            return ChainStep::Item(item);
                        },
                        None => {},
                    }
                    proof {
                        first = false;
                    }
                },
                Some(Backend::Http(pager)) => {
                    let mut pager = pager;
                    match pager.next_step() {
                        PagerStep::Yield(cluster) => {
                            self.active = Some(Backend::Http(pager));
                            return ChainStep::Item(Ok(cluster));
                        },
                        PagerStep::Request(request) => {
                            self.active = Some(Backend::Http(pager));
                            return ChainStep::Request(request);
                        },
                        PagerStep::Stop => {},
                    }
                    proof {
                        first = false;
                    }
                },
                None => {
                    if self.backends.len() == 0 {
                        assert(self.spec_pending() =~= Seq::<DiscoveryResult>::empty());
                        assert(pre.spec_pending() =~= Seq::<DiscoveryResult>::empty());
                        return ChainStep::End;
                    }
                    let ghost before = self.backends@;
                    let backend = self.backends.remove(0);
                    proof {
                        assert(self.backends@ =~= before.drop_first());
                        assert forall|i: int| 0 <= i < self.backends@.len() implies backend_ok(
                            #[trigger] self.backends@[i],
                            false,
                        ) by {
                            assert(self.backends@[i] == before[i + 1]);
                        }
                        assert(backend_ok(before[0], false));
                        if old(self).all_listed() {
                            assert(before[0] is Listed);
                            assert forall|i: int| 0 <= i < self.backends@.len() implies (
                            #[trigger] self.backends@[i]) is Listed by {
                                assert(self.backends@[i] == before[i + 1]);
                            }
                        }
                    }
                    self.active = Some(backend);
                    proof {
                        first = false;
                    }
                },
            }
        }
    }

    /// Consume a discovery made of listed backends: the results of the
    /// backends, backend after backend, in order (empty backends add nothing).
    /// Afterwards every call of [`Iter::next`] ends the discovery.
    pub fn drain(&mut self) -> (r: Vec<DiscoveryResult>)
        requires
            old(self).wf(),
            !old(self).awaiting(),
            old(self).all_listed(),
        ensures
            r@ == old(self).spec_pending(),
            final(self).wf(),
            !final(self).awaiting(),
            final(self).all_listed(),
            final(self).spec_pending().len() == 0,
    {
        let mut out: Vec<DiscoveryResult> = Vec::new();
        loop
            invariant
                self.wf(),
                !self.awaiting(),
                self.all_listed(),
                out@ + self.spec_pending() == old(self).spec_pending(),
            decreases self.spec_pending().len(),
        {
            let ghost before = self.spec_pending();
            match self.next() {
                ChainStep::Item(item) => {
                    proof {
                        assert(before =~= seq![item] + self.spec_pending());
                    }
                    out.push(item);
                    proof {
                        assert(out@ + self.spec_pending() =~= old(self).spec_pending());
                    }
                },
                _ => {
                    assert(out@ =~= old(self).spec_pending());
                    return out;
                },
            }
        }
    }

    /// Hand the outcome of the request handed out last to the active backend,
    /// then carry on with the discovery process.
    pub fn receive(&mut self, outcome: Result<DiscoveryResponse, Error>) -> (r: ChainStep)
        requires
            old(self).wf(),
            old(self).awaiting(),
        ensures
            final(self).wf(),
            final(self).awaiting() == (r is Request),
            r is End ==> final(self).ended(),
            match outcome {
                Err(e) => r == ChainStep::Item(Err(e)),
                Ok(page) => {
                    &&& page.clusters@.len() > 0 ==> r == ChainStep::Item(Ok(page.clusters@[0]))
                    &&& empty_page_asks_more(old(self).spec_active(), page, r)
                },
            },
    {
        assert(forall|i: int| 0 <= i < self.spec_backends().len() ==> backend_ok(#[trigger] self.spec_backends()[i], false));
        let active = self.active.take();
        match active {
            Some(Backend::Http(pager)) => {
                let mut pager = pager;
                let ghost out = outcome;
                let ghost h0 = pager;
                match pager.receive(outcome) {
                    Some(item) => {
                        self.active = Some(Backend::Http(pager));
                        ChainStep::Item(item)
                    },
                    None => {
                        // An empty page: the pager asks for the next one, unless it is done.
                        assert(out is Ok);
                        self.active = Some(Backend::Http(pager));
                        let r = self.next();
                        proof {
                            if page_continues(h0, out->Ok_0) {
                                assert(!pager.spec_finished());
                            }
                        }
                        r
                    },
                }
            },
            _ => {
                proof {
                    assert(false);
                }
                ChainStep::End
            },
        }
    }
}

/// Start the discovery process over the given HTTP discoveries, in order: the
/// `i`-th request handed out for backend `i` goes to the `i`-th server.
pub fn discover(remotes: Vec<(HttpRequestMethod, String)>) -> (r: Iter)
    requires
        remotes@.len() <= usize::MAX,
    ensures
        r.wf(),
        !r.awaiting(),
        r.spec_active() is None,
        r.spec_backends().len() == remotes@.len(),
        forall|i: int|
            0 <= i < remotes@.len() ==> (#[trigger] r.spec_backends()[i] matches Backend::Http(h) && h.spec_backend()
                == i && h.spec_method() == remotes@[i].0 && h.spec_url() == remotes@[i].1@
                && h.spec_pending().len() == 0 && h.spec_cursor() is None && !h.spec_finished()),
{
    let mut backends: Vec<Backend> = Vec::new();
    let mut remotes = remotes;
    let ghost all = remotes@;
    let mut i: usize = 0;
    while remotes.len() > 0
        invariant
            i + remotes@.len() == all.len(),
            all.len() <= usize::MAX,
            remotes@ == all.skip(i as int),
            backends@.len() == i,
            forall|k: int| 0 <= k < i ==> backend_ok(#[trigger] backends@[k], false),
            forall|k: int|
                0 <= k < i ==> (#[trigger] backends@[k] matches Backend::Http(h) && h.spec_backend() == k
                    && h.spec_method() == all[k].0 && h.spec_url() == all[k].1@ && h.spec_pending().len() == 0
                    && h.spec_cursor() is None && !h.spec_finished()),
        decreases remotes@.len(),
    {
        let ghost before = remotes@;
        let (method, url) = remotes.remove(0);
        assert(remotes@ =~= all.skip(i + 1));
        assert(before[0] == all[i as int]);
        backends.push(Backend::Http(http::Iter::new(i, method, url)));
        i = i + 1;
    }
    Iter::new(backends)
}

} // verus!
