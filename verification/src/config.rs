//! Run configuration, immutable once built and shared read-only by all
//! workers.

use vstd::prelude::*;
use crate::distributor::{quota_spec, worker_quota};

verus! {

/// Wire protocol the transport is asked to speak.
#[derive(Clone, Copy, Debug, PartialEq, Eq, Structural)]
pub enum Protocol {
    /// HTTP/2 over cleartext, by prior knowledge
    H2Cleartext,
    /// HTTP/2 negotiated over TLS
    H2Tls,
    /// HTTP/3 over QUIC, by prior knowledge
    H3Quic,
}

/// Immutable run configuration.
pub struct Config {
    /// number of logical connections, each driven by one worker (>= 1)
    pub connections: u64,
    /// total number of requests across all workers
    pub requests: u64,
    /// pipeline depth: bound on in-flight requests per worker (>= 1)
    pub pipeline: usize,
    /// optional POST body; absent means GET
    pub body: Option<String>,
    pub protocol: Protocol,
    /// skip TLS certificate verification
    pub insecure: bool,
    /// abort the whole run on the first fatal error
    pub fail_fast: bool,
    pub url: String,
}

impl Config {
    pub open spec fn wf(&self) -> bool {
        self.connections >= 1 && self.pipeline >= 1
    }

    pub fn new(
        connections: u64,
        requests: u64,
        pipeline: usize,
        body: Option<String>,
        protocol: Protocol,
        insecure: bool,
        fail_fast: bool,
        url: String,
    ) -> (r: Config)
        requires
            connections >= 1,
            pipeline >= 1,
        ensures
            r.wf(),
            r.connections == connections,
            r.requests == requests,
            r.pipeline == pipeline,
            r.body == body,
            r.protocol == protocol,
            r.insecure == insecure,
            r.fail_fast == fail_fast,
            r.url == url,
    {
        Config { connections, requests, pipeline, body, protocol, insecure, fail_fast, url }
    }

    /// The request quota of worker `i`.
    pub fn quota_for(&self, i: u64) -> (q: u64)
        requires
            self.wf(),
            i < self.connections,
        ensures
            q as int == quota_spec(self.requests, self.connections, i),
    {
        worker_quota(self.requests, self.connections, i)
    }
}

} // verus!
