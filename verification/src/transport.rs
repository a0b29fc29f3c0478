//! What every request shares: the credential cell that picks the
//! authentication header, the success/failure split on HTTP status codes,
//! and the normalization of list-endpoint envelopes onto the primary
//! records.

use vstd::prelude::*;
use vstd::string::StringExecFns;
use crate::error::MalError;
use crate::models::{ListStatus, MalAnimeData, MalAnimeSearch};

verus! {

/// The process credential cell: one immutable client identifier and one
/// bearer token, empty meaning "unauthenticated". The caller loads it at
/// startup and passes it to every operation that needs authentication.
pub struct Credentials {
    client_id: String,
    token: String,
}

impl Credentials {
    /// The client identifier.
    pub closed spec fn client_id_spec(&self) -> Seq<char> {
        self.client_id@
    }

    /// The bearer token; empty when nobody is logged in.
    pub closed spec fn token_spec(&self) -> Seq<char> {
        self.token@
    }

    /// Builds the cell from a client identifier and a (possibly empty)
    /// persisted token.
    pub fn new(client_id: String, token: String) -> (r: Self)
        ensures
            r.client_id_spec() == client_id@,
            r.token_spec() == token@,
    {
        Credentials { client_id, token }
    }

    /// The stored token.
    pub fn token(&self) -> (r: &String)
        ensures
            r@ == self.token_spec(),
    {
        &self.token
    }

    /// The stored client identifier.
    pub fn client_id(&self) -> (r: &String)
        ensures
            r@ == self.client_id_spec(),
    {
        &self.client_id
    }

    /// Whether a token is stored.
    pub fn is_logged_in(&self) -> (r: bool)
        ensures
            r == (self.token_spec().len() != 0),
    {
        !self.token.as_str().is_empty()
    }

    /// Replaces the stored token; the login flow calls this once a token
    /// is acquired.
    pub fn set_token(&mut self, token: String)
        ensures
            final(self).token_spec() == token@,
            final(self).client_id_spec() == old(self).client_id_spec(),
    {
        self.token = token;
    }

    /// The header every read request carries: the client-identifier header
    /// while unauthenticated, the bearer header once a token is stored.
    pub fn auth_header(&self) -> (r: (String, String))
        ensures
            self.token_spec().len() == 0 ==> r.0@ == "X-MAL-CLIENT-ID"@ && r.1@
                == self.client_id_spec(),
            self.token_spec().len() != 0 ==> r.0@ == "Authorization"@ && r.1@ == "Bearer "@
                + self.token_spec(),
    {
        if self.token.as_str().is_empty() {
            (String::from_str("X-MAL-CLIENT-ID"), self.client_id.clone())
        } else {
            let mut v = String::from_str("Bearer ");
            v.append(self.token.as_str());
            (String::from_str("Authorization"), v)
        }
    }
}

/// Whether an HTTP status code counts as success.
pub open spec fn is_success_status(status: u16) -> bool {
    200 <= status < 300
}

/// Splits an HTTP status code into success and the uniform request-failure
/// error that carries the code.
pub fn check_status(status: u16) -> (r: Result<(), MalError>)
    ensures
        r is Ok <==> is_success_status(status),
        !is_success_status(status) ==> r == Err::<(), MalError>(MalError::RequestFailed(status)),
{
    if 200 <= status && status < 300 {
        Ok(())
    } else {
        Err(MalError::RequestFailed(status))
    }
}

/// One undecoded item of a list-endpoint response: the primary record and
/// the two sibling fields that some endpoints place beside it.
pub struct RawSearchEntry {
    /// The primary record under the item's `node` key.
    pub node: MalAnimeData,
    /// The `rank` of a sibling `ranking` object, where the endpoint sends
    /// one.
    pub ranking_rank: Option<u32>,
    /// The sibling `list_status` object, where the endpoint sends one.
    pub list_status: Option<ListStatus>,
}

/// The record an envelope item decodes to: the primary record, with a
/// sibling rank or list status hoisted onto it when present.
pub open spec fn merged(e: RawSearchEntry) -> MalAnimeData {
    MalAnimeData {
        rank: if e.ranking_rank is Some {
            e.ranking_rank
        } else {
            e.node.rank
        },
        list_status: if e.list_status is Some {
            e.list_status
        } else {
            e.node.list_status
        },
        ..e.node
    }
}

/// A whole list response, normalized item by item, order preserved.
pub open spec fn normalized_of(s: Seq<RawSearchEntry>) -> Seq<MalAnimeData> {
    s.map_values(|e: RawSearchEntry| merged(e))
}

fn merge_entry(e: RawSearchEntry) -> (r: MalAnimeData)
    ensures
        r == merged(e),
{
    let RawSearchEntry { node, ranking_rank, list_status } = e;
    let mut out = node;
    match ranking_rank {
        Some(x) => {
            out.rank = Some(x);
        },
        None => {},
    }
    match list_status {
        Some(x) => {
            out.list_status = Some(x);
        },
        None => {},
    }
    out
}

/// Normalizes the items of a list-endpoint response in order: each item
/// becomes its primary record, with the sibling `rank` of a ranking
/// endpoint, or the sibling `list_status` of a user-list endpoint, hoisted
/// onto the record.
pub fn normalize_search(entries: Vec<RawSearchEntry>) -> (r: MalAnimeSearch)
    ensures
        r.data@ == normalized_of(entries@),
{
    let ghost all = entries@;
    let mut entries = entries;
    let mut data: Vec<MalAnimeData> = Vec::new();
    while entries.len() > 0
        invariant
            data@.len() + entries@.len() == all.len(),
            entries@ =~= all.subrange(data@.len() as int, all.len() as int),
            data@ =~= normalized_of(all.subrange(0, data@.len() as int)),
        decreases entries@.len(),
    {
        let e = entries.remove(0);
        proof {
            assert(e == all[data@.len() as int]);
        }
        data.push(merge_entry(e));
        proof {
            let k = data@.len() as int;
            assert(all.subrange(0, k).drop_last() =~= all.subrange(0, k - 1));
            assert(data@ =~= normalized_of(all.subrange(0, k)));
            assert(entries@ =~= all.subrange(k, all.len() as int));
        }
    }
    proof {
        assert(all.subrange(0, all.len() as int) =~= all);
    }
    MalAnimeSearch::new(data)
}

/// Reads are deterministic at the decoding boundary: one envelope has one
/// normalization, so two reads that return the same envelope decode to
/// structurally identical records.
pub proof fn lemma_normalize_deterministic(
    e: Seq<RawSearchEntry>,
    r1: Seq<MalAnimeData>,
    r2: Seq<MalAnimeData>,
)
    requires
        r1 == normalized_of(e),
        r2 == normalized_of(e),
    ensures
        r1 == r2,
{
}

/// On an unfiltered ranking read the envelope carries the 1-based position
/// of every item as its sibling rank; the normalized record at each
/// position then carries exactly that position as its `rank`.
pub proof fn lemma_ranking_positions(e: Seq<RawSearchEntry>)
    requires
        e.len() <= u32::MAX,
        forall|i: int| 0 <= i < e.len() ==> e[i].ranking_rank == Some((i + 1) as u32),
    ensures
        forall|i: int| 0 <= i < e.len() ==> normalized_of(e)[i].rank == Some((i + 1) as u32),
{
    assert forall|i: int| 0 <= i < e.len() implies normalized_of(e)[i].rank == Some(
        (i + 1) as u32,
    ) by {
        assert(normalized_of(e)[i] == merged(e[i]));
    }
}

} // verus!
