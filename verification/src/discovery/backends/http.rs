//! HTTP discovery: cluster records fetched from a remote server, page by page.
//!
//! The server is asked for clusters with a request carrying a cursor, `null` at
//! first. While the server answers with a non-null cursor, further requests
//! carry it to fetch the next page. `GET` requests carry no body, so they can't
//! send the cursor: pagination is disabled for them and their first page is
//! the last one. The iterator yields the clusters of each page in order;
//! once a request fails or a page comes without a cursor, no further request
//! is made.
use vstd::prelude::*;

use crate::discovery::error::Error;
use crate::discovery::model::ClusterDiscovery;

verus! {

/// HTTP method used to contact a discovery server.
#[derive(PartialEq, Eq, Structural, Clone, Copy, Debug)]
pub enum HttpRequestMethod {
    Get,
    Post,
}

/// A request to send to a discovery server.
#[derive(Debug)]
pub struct DiscoveryRequest {
    /// Which configured discovery to send the request with.
    pub backend: usize,
    pub method: HttpRequestMethod,
    pub url: String,
    /// The cursor to send, `null` when `None`.
    pub cursor: Option<String>,
}

/// The response expected from a discovery server.
#[derive(Debug)]
pub struct DiscoveryResponse {
    pub clusters: Vec<ClusterDiscovery>,
    pub cursor: Option<String>,
}

/// The next thing an HTTP discovery iterator does.
#[derive(Debug)]
pub enum PagerStep {
    /// Yield this cluster.
    Yield(ClusterDiscovery),
    /// Send this request and hand the outcome to [`Iter::receive`].
    Request(DiscoveryRequest),
    /// No more clusters.
    Stop,
}

/// HTTP discovery iterator.
pub struct Iter {
    backend: usize,
    /// The clusters of the current page still to yield, last first.
    buffer: Vec<ClusterDiscovery>,
    cursor: Option<String>,
    failed_or_done: bool,
    awaiting: bool,
    method: HttpRequestMethod,
    url: String,
}

impl Iter {
    /// The clusters of the current page still to yield, in order.
    pub closed spec fn spec_pending(&self) -> Seq<ClusterDiscovery> {
        self.buffer@.reverse()
    }

    /// The cursor the next request sends.
    pub closed spec fn spec_cursor(&self) -> Option<String> {
        self.cursor
    }

    /// Whether no further request will be made.
    pub closed spec fn spec_finished(&self) -> bool {
        self.failed_or_done
    }

    /// Whether a request was handed out and its outcome is awaited.
    pub closed spec fn spec_awaiting(&self) -> bool {
        self.awaiting
    }

    /// The configured discovery this iterator reads.
    pub closed spec fn spec_backend(&self) -> usize {
        self.backend
    }

    /// The request method.
    pub closed spec fn spec_method(&self) -> HttpRequestMethod {
        self.method
    }

    /// The server address.
    pub closed spec fn spec_url(&self) -> Seq<char> {
        self.url@
    }

    /// A request is only awaited with no page left to yield.
    pub closed spec fn wf(&self) -> bool {
        self.awaiting ==> self.buffer@.len() == 0 && !self.failed_or_done
    }

    /// An iterator over the clusters of a discovery server; no request is made yet.
    pub fn new(backend: usize, method: HttpRequestMethod, url: String) -> (r: Iter)
        ensures
            r.wf(),
            r.spec_backend() == backend,
            r.spec_method() == method,
            r.spec_url() == url@,
            r.spec_pending().len() == 0,
            r.spec_cursor() is None,
            !r.spec_finished(),
            !r.spec_awaiting(),
    {
        Iter {
            backend,
            buffer: Vec::new(),
            cursor: None,
            failed_or_done: false,
            awaiting: false,
            method,
            url,
        }
    }

    /// Yield the next buffered cluster, or ask for the next page, or stop.
    pub fn next_step(&mut self) -> (r: PagerStep)
        requires
            old(self).wf(),
            !old(self).spec_awaiting(),
        ensures
            final(self).wf(),
            final(self).spec_backend() == old(self).spec_backend(),
            final(self).spec_method() == old(self).spec_method(),
            final(self).spec_url() == old(self).spec_url(),
            final(self).spec_cursor() == old(self).spec_cursor(),
            final(self).spec_finished() == old(self).spec_finished(),
            old(self).spec_pending().len() > 0 ==> {
                &&& r == PagerStep::Yield(old(self).spec_pending()[0])
                &&& final(self).spec_pending() == old(self).spec_pending().drop_first()
                &&& !final(self).spec_awaiting()
            },
            old(self).spec_pending().len() == 0 && old(self).spec_finished() ==> {
                &&& r is Stop
                &&& final(self).spec_pending().len() == 0
                &&& !final(self).spec_awaiting()
            },
            old(self).spec_pending().len() == 0 && !old(self).spec_finished() ==> {
                &&& r matches PagerStep::Request(q) && q.backend == old(self).spec_backend() && q.method
                    == old(self).spec_method() && q.url@ == old(self).spec_url() && q.cursor
                    == old(self).spec_cursor()
                &&& final(self).spec_pending().len() == 0
                &&& final(self).spec_awaiting()
            },
    {
        let ghost before = self.buffer@;
        match self.buffer.pop() {
            Some(cluster) => {
                proof {
                    assert(before.reverse()[0] == before.last());
                    assert(self.buffer@.reverse() =~= before.reverse().drop_first());
                }
                return PagerStep::Yield(cluster);
            },
            None => {},
        }
        if self.failed_or_done {
            return PagerStep::Stop;
        }
        self.awaiting = true;
        let cursor = match &self.cursor {
            Some(c) => Some(c.clone()),
            None => None,
        };
        PagerStep::Request(DiscoveryRequest {
            backend: self.backend,
            method: self.method,
            url: self.url.clone(),
            cursor,
        })
    }

    /// Handle the outcome of the request handed out last.
    ///
    /// A failed request is reported and ends the iteration. A page replaces the
    /// buffer and its cursor is kept for the next request; a page without a
    /// cursor, or any page of a `GET` discovery, is the last one. The first
    /// cluster of the page, if any, is returned; after an empty page nothing
    /// is returned and [`Iter::next_step`] asks for the next page, unless that
    /// page was the last one.
    pub fn receive(&mut self, outcome: Result<DiscoveryResponse, Error>) -> (r: Option<Result<ClusterDiscovery, Error>>)
        requires
            old(self).wf(),
            old(self).spec_awaiting(),
        ensures
            final(self).wf(),
            !final(self).spec_awaiting(),
            final(self).spec_backend() == old(self).spec_backend(),
            final(self).spec_method() == old(self).spec_method(),
            final(self).spec_url() == old(self).spec_url(),
            match outcome {
                Err(e) => {
                    &&& r == Some(Err::<ClusterDiscovery, Error>(e))
                    &&& final(self).spec_finished()
                    &&& final(self).spec_pending().len() == 0
                    &&& final(self).spec_cursor() == old(self).spec_cursor()
                },
                Ok(page) => {
                    &&& final(self).spec_cursor() == page.cursor
                    &&& final(self).spec_finished() == (page.cursor is None || old(self).spec_method() is Get)
                    &&& if page.clusters@.len() > 0 {
                        &&& r == Some(Ok::<ClusterDiscovery, Error>(page.clusters@[0]))
                        &&& final(self).spec_pending() == page.clusters@.drop_first()
                    } else {
                        r is None && final(self).spec_pending().len() == 0
                    }
                },
            },
    {
        self.awaiting = false;
        let page = match outcome {
            Err(e) => {
                self.failed_or_done = true;
                return Some(Err(e));
            },
            Ok(page) => page,
        };
        let DiscoveryResponse { clusters, cursor } = page;
        let ghost items = clusters@;
        let mut clusters = clusters;
        let mut buffer: Vec<ClusterDiscovery> = Vec::new();
        while clusters.len() > 0
            invariant
                items == clusters@ + buffer@.reverse(),
            decreases clusters@.len(),
        {
            let ghost c0 = clusters@;
            let ghost b0 = buffer@;
            let cluster = clusters.pop().unwrap();
            buffer.push(cluster);
            proof {
                assert(buffer@.reverse() =~= seq![cluster] + b0.reverse());
                assert(c0 =~= clusters@.push(cluster));
                assert(items =~= clusters@ + buffer@.reverse());
            }
        }
        assert(items =~= buffer@.reverse());
        self.buffer = buffer;
        self.failed_or_done = match self.method {
            HttpRequestMethod::Get => true,
            HttpRequestMethod::Post => cursor.is_none(),
        };
        self.cursor = cursor;
        let ghost full = self.buffer@;
        match self.buffer.pop() {
            Some(cluster) => {
                proof {
                    assert(full.reverse()[0] == full.last());
                    assert(self.buffer@.reverse() =~= full.reverse().drop_first());
                }
                Some(Ok(cluster))
            },
            None => None,
        }
    }
}

} // verus!
