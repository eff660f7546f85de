//! The client session: endpoint configuration and the nonce counter.
//!
//! A [`Client`] owns the target URL, the optional bearer token, and the
//! monotonically increasing nonce from which request ids are drawn. The
//! URL and token are set at construction and never change. The nonce
//! starts at 0, and 0 itself is never issued: the first request gets id
//! 1. Building a request increments the nonce and reads it in one step;
//! exclusive access (`&mut self`) serializes concurrent builders, so the
//! increment-and-read is indivisible. The ghost sequence of issued ids
//! witnesses that the ids handed out are exactly 1, 2, ..., nonce, in
//! order — no gaps, no duplicates, no reuse.

use vstd::prelude::*;
use crate::envelope::Request;

verus! {

/// A handle to a remote JSON-RPC server: where to send requests, how to
/// authenticate, and the nonce that correlates each request with its
/// response. The embedding program owns the HTTP transport; this type
/// owns everything the protocol core decides on.
pub struct Client {
    url: String,
    token: Option<String>,
    nonce: u64,
    issued: Ghost<Seq<u64>>,
}

impl Client {
    /// The endpoint URL, as configured at construction.
    pub closed spec fn spec_url(&self) -> Seq<char> {
        self.url@
    }

    /// The bearer token, as configured at construction.
    pub closed spec fn spec_token(&self) -> Option<String> {
        self.token
    }

    /// The current nonce: the id most recently issued, or 0 before any.
    pub closed spec fn spec_nonce(&self) -> u64 {
        self.nonce
    }

    /// The ids issued so far, in the order they were issued.
    pub closed spec fn issued_ids(&self) -> Seq<u64> {
        self.issued@
    }

    /// The session invariant: the nonce counts the issued ids, and the
    /// id issued k-th (counting from 0) is k + 1. Constructors establish
    /// it and every method preserves it.
    pub closed spec fn wf(&self) -> bool {
        &&& self.issued@.len() == self.nonce
        &&& forall|i: int| 0 <= i < self.issued@.len() ==> self.issued@[i] == i + 1
    }

    /// Creates a new session for the given endpoint, unauthenticated when
    /// `token` is `None`. No id has been issued yet.
    pub fn new(url: String, token: Option<String>) -> (r: Client)
        ensures
            r.wf(),
            r.spec_url() == url@,
            r.spec_token() == token,
            r.spec_nonce() == 0,
            r.issued_ids() == Seq::<u64>::empty(),
    {
        let c = Client { url, token, nonce: 0, issued: Ghost(Seq::empty()) };
        proof {
            assert(c.issued@ =~= Seq::<u64>::empty());
        }
        c
    }

    /// Builds a fresh request envelope: draws the next id by incrementing
    /// the nonce and reading it in one indivisible step, and wraps the
    /// given method name and params (carried verbatim, shape unread) with
    /// that id and the fixed "2.0" protocol-version marker.
    ///
    /// The nonce is a `u64` and is never reused, so it must not yet have
    /// reached the machine limit.
    pub fn build_request(&mut self, name: &str, params: serde_json::Value) -> (r: Request)
        requires
            old(self).wf(),
            old(self).spec_nonce() < u64::MAX,
        ensures
            final(self).wf(),
            final(self).spec_nonce() == old(self).spec_nonce() + 1,
            final(self).issued_ids() == old(self).issued_ids().push(r.id),
            final(self).spec_url() == old(self).spec_url(),
            final(self).spec_token() == old(self).spec_token(),
            r.id == old(self).spec_nonce() + 1,
            r.method@ == name@,
            r.params == params,
            r.jsonrpc matches Some(v) && v@ == "2.0"@,
    {
        self.nonce = self.nonce + 1;
        let id = self.nonce;
        proof {
            self.issued@ = self.issued@.push(id);
        }
        Request { method: name.to_owned(), params, id, jsonrpc: Some("2.0".to_owned()) }
    }

    /// The nonce most recently issued as an id: 0 before any build, k
    /// after k builds. Purely observational.
    pub fn last_nonce(&self) -> (r: u64)
        ensures
            r == self.spec_nonce(),
    {
        self.nonce
    }

    /// The endpoint URL.
    pub fn url(&self) -> (r: &str)
        ensures
            r@ == self.spec_url(),
    {
        self.url.as_str()
    }

    /// The bearer token, if one is configured.
    pub fn token(&self) -> (r: &Option<String>)
        ensures
            *r == self.spec_token(),
    {
        &self.token
    }
}

/// The ids a session has issued are exactly the consecutive run
/// 1, 2, ..., nonce: the nonce counts them, each is one more than its
/// position, an id is issued exactly when it lies in that run, and no id
/// is ever issued twice. This holds however many builds were made and
/// however callers interleaved, since every build goes through the one
/// indivisible increment-and-read.
pub proof fn lemma_issued_ids_are_initial_run(c: Client)
    requires
        c.wf(),
    ensures
        c.issued_ids().len() == c.spec_nonce(),
        forall|i: int| 0 <= i < c.issued_ids().len() ==> c.issued_ids()[i] == i + 1,
        forall|x: u64| c.issued_ids().contains(x) <==> 1 <= x <= c.spec_nonce(),
        forall|i: int, j: int|
            0 <= i < j < c.issued_ids().len() ==> c.issued_ids()[i] != c.issued_ids()[j],
{
    assert forall|x: u64| c.issued_ids().contains(x) <==> 1 <= x <= c.spec_nonce() by {
        if 1 <= x <= c.spec_nonce() {
            assert(c.issued_ids()[x - 1] == x);
            assert(c.issued_ids().contains(x));
        }
        if c.issued_ids().contains(x) {
            let i = choose|i: int| 0 <= i < c.issued_ids().len() && c.issued_ids()[i] == x;
            assert(x == i + 1);
        }
    }
}

/// Requests issued at different times by one session compare unequal:
/// their positions in the issued run differ, so their ids differ, so the
/// envelopes differ — whatever their methods and params.
pub proof fn lemma_distinct_builds_compare_unequal(c: Client, i: int, j: int, r1: Request, r2: Request)
    requires
        c.wf(),
        0 <= i < c.issued_ids().len(),
        0 <= j < c.issued_ids().len(),
        i != j,
        r1.id == c.issued_ids()[i],
        r2.id == c.issued_ids()[j],
    ensures
        r1.id != r2.id,
        r1 != r2,
{
    assert(c.issued_ids()[i] == i + 1);
    assert(c.issued_ids()[j] == j + 1);
}

} // verus!
