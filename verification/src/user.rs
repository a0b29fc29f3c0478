//! The list-entry update command: a pending update accumulates validated
//! field values for one entry, and one terminal call turns it into the
//! exact authenticated request to send. A companion function prepares the
//! delete request.

use vstd::prelude::*;
use vstd::string::StringExecFns;
use crate::error::MalError;
use crate::models::{MalAnimeData, Status, status_name, status_str};
use crate::text::{bool_of, bool_to_string, date_of, date_string, dec_of, form_encoded_of,
    pairs_view, form_encode_pairs, u32_to_string};
use crate::transport::Credentials;

verus! {

// ---------- the pending-update mapping ----------

/// The index of the first pair at or after `i` whose key is `k`, or `-1`.
pub open spec fn find_key_from(s: Seq<(Seq<char>, Seq<char>)>, k: Seq<char>, i: int) -> int
    decreases s.len() - i,
{
    if i < 0 || i >= s.len() {
        -1
    } else if s[i].0 == k {
        i
    } else {
        find_key_from(s, k, i + 1)
    }
}

/// The index of the first pair whose key is `k`, or `-1`.
pub open spec fn find_key(s: Seq<(Seq<char>, Seq<char>)>, k: Seq<char>) -> int {
    find_key_from(s, k, 0)
}

/// Insert-or-replace: a present key keeps its place and gets the new
/// value; an absent key is appended at the end.
pub open spec fn upsert(
    s: Seq<(Seq<char>, Seq<char>)>,
    k: Seq<char>,
    v: Seq<char>,
) -> Seq<(Seq<char>, Seq<char>)> {
    let i = find_key(s, k);
    if i >= 0 {
        s.update(i, (k, v))
    } else {
        s.push((k, v))
    }
}

/// No key occurs twice.
pub open spec fn keys_unique(s: Seq<(Seq<char>, Seq<char>)>) -> bool {
    forall|i: int, j: int| 0 <= i < j < s.len() ==> s[i].0 != s[j].0
}

proof fn lemma_find_key_none(s: Seq<(Seq<char>, Seq<char>)>, k: Seq<char>, i: int)
    requires
        0 <= i <= s.len(),
        find_key_from(s, k, i) < 0,
    ensures
        forall|j: int| i <= j < s.len() ==> s[j].0 != k,
    decreases s.len() - i,
{
    if i < s.len() {
        lemma_find_key_none(s, k, i + 1);
    }
}

proof fn lemma_find_key_found(s: Seq<(Seq<char>, Seq<char>)>, k: Seq<char>, i: int)
    requires
        0 <= i <= s.len(),
        find_key_from(s, k, i) >= 0,
    ensures
        i <= find_key_from(s, k, i) < s.len(),
        s[find_key_from(s, k, i)].0 == k,
    decreases s.len() - i,
{
    if i < s.len() && s[i].0 != k {
        lemma_find_key_found(s, k, i + 1);
    }
}

/// An upsert never breaks key uniqueness: replacing keeps the key set,
/// appending adds a key that was absent.
pub proof fn lemma_upsert_keys_unique(s: Seq<(Seq<char>, Seq<char>)>, k: Seq<char>, v: Seq<char>)
    requires
        keys_unique(s),
    ensures
        keys_unique(upsert(s, k, v)),
{
    let i = find_key(s, k);
    if i >= 0 {
        lemma_find_key_found(s, k, 0);
        let t = s.update(i, (k, v));
        assert forall|a: int, b: int| 0 <= a < b < t.len() implies t[a].0 != t[b].0 by {
            assert(s[a].0 != s[b].0);
        }
    } else {
        lemma_find_key_none(s, k, 0);
    }
}

// ---------- the update command ----------

/// A pending update of one user's list entry: the target identifier and
/// the mapping from field name to string-encoded new value, built by the
/// setters and consumed by the terminal call.
pub struct UpdateAnime {
    id: u32,
    params: Vec<(String, String)>,
}

/// The prepared update request: the exact URL, bearer header value and
/// form-urlencoded body to send as one PUT.
pub struct UpdateRequest {
    pub url: String,
    pub bearer: String,
    pub body: Vec<u8>,
}

impl UpdateAnime {
    /// The identifier of the entry the update targets.
    pub closed spec fn id_spec(&self) -> u32 {
        self.id
    }

    /// The accumulated field mapping, in insertion order.
    pub closed spec fn params_seq(&self) -> Seq<(Seq<char>, Seq<char>)> {
        pairs_view(self.params@)
    }

    /// The mapping never holds a field name twice.
    pub open spec fn wf(&self) -> bool {
        keys_unique(self.params_seq())
    }

    /// Takes an entry identifier and initializes an empty update for it.
    pub fn new(id: u32) -> (r: Self)
        ensures
            r.id_spec() == id,
            r.params_seq() == Seq::<(Seq<char>, Seq<char>)>::empty(),
            r.wf(),
    {
        let r = UpdateAnime { id, params: Vec::new() };
        proof {
            assert(r.params_seq() =~= Seq::<(Seq<char>, Seq<char>)>::empty());
        }
        r
    }

    /// Takes an already retrieved record and initializes an empty update
    /// for the entry it describes.
    pub fn from_malanimedata(mal_data: &MalAnimeData) -> (r: Self)
        ensures
            r.id_spec() == mal_data.id,
            r.params_seq() == Seq::<(Seq<char>, Seq<char>)>::empty(),
            r.wf(),
    {
        Self::new(mal_data.id)
    }

    /// The target identifier.
    pub fn id(&self) -> (r: u32)
        ensures
            r == self.id_spec(),
    {
        self.id
    }

    /// The accumulated field pairs, in insertion order.
    pub fn params(&self) -> (r: &Vec<(String, String)>)
        ensures
            pairs_view(r@) == self.params_seq(),
    {
        &self.params
    }

    fn find_param_index(&self, key: &String) -> (r: usize)
        ensures
            r <= self.params@.len(),
            r < self.params@.len() ==> find_key(self.params_seq(), key@) == r as int,
            r == self.params@.len() ==> find_key(self.params_seq(), key@) == -1,
    {
        let n: usize = self.params.len();
        let mut i: usize = 0;
        while i < n
            invariant
                n == self.params@.len(),
                0 <= i <= n,
                find_key(self.params_seq(), key@) == find_key_from(
                    self.params_seq(),
                    key@,
                    i as int,
                ),
            decreases n - i,
        {
            proof {
                assert(self.params_seq()[i as int] == (self.params@[i as int].0@,
                self.params@[i as int].1@));
            }
            if self.params[i].0 == *key {
                proof {
                    assert(find_key_from(self.params_seq(), key@, i as int) == i as int);
                }
                return i;
            }
            proof {
                assert(find_key_from(self.params_seq(), key@, i as int) == find_key_from(
                    self.params_seq(),
                    key@,
                    i + 1 as int,
                ));
            }
            i = i + 1;
        }
        n
    }

    fn set_param(&mut self, key: &str, value: String)
        ensures
            final(self).params_seq() == upsert(old(self).params_seq(), key@, value@),
            final(self).id_spec() == old(self).id_spec(),
            old(self).wf() ==> final(self).wf(),
    {
        let key_s: String = key.to_owned();
        let i: usize = self.find_param_index(&key_s);
        if i < self.params.len() {
            self.params.remove(i);
            self.params.insert(i, (key_s, value));
            proof {
                assert(final(self).params_seq() =~= upsert(
                    old(self).params_seq(),
                    key@,
                    value@,
                ));
                if old(self).wf() {
                    lemma_upsert_keys_unique(old(self).params_seq(), key@, value@);
                }
            }
        } else {
            self.params.push((key_s, value));
            proof {
                assert(final(self).params_seq() =~= upsert(
                    old(self).params_seq(),
                    key@,
                    value@,
                ));
                if old(self).wf() {
                    lemma_upsert_keys_unique(old(self).params_seq(), key@, value@);
                }
            }
        }
    }

    /// Sets the user's watching status for the entry.
    pub fn update_status(&mut self, new_status: Status) -> (r: &mut Self)
        ensures
            r.params_seq() == upsert(old(self).params_seq(), "status"@, status_name(new_status)),
            r.id_spec() == old(self).id_spec(),
            old(self).wf() ==> r.wf(),
            *final(self) == *final(r),
    {
        let s: &str = status_str(new_status);
        self.set_param("status", s.to_owned());
        self
    }

    /// Sets whether the user is rewatching the entry.
    pub fn update_is_rewatching(&mut self, new_is_rewatching: bool) -> (r: &mut Self)
        ensures
            r.params_seq() == upsert(
                old(self).params_seq(),
                "is_rewatching"@,
                bool_of(new_is_rewatching),
            ),
            r.id_spec() == old(self).id_spec(),
            old(self).wf() ==> r.wf(),
            *final(self) == *final(r),
    {
        let v = bool_to_string(new_is_rewatching);
        self.set_param("is_rewatching", v);
        self
    }

    /// Sets the user's score. A score above 10 is rejected and the pending
    /// update is left exactly as it was.
    pub fn update_score(&mut self, new_score: u32) -> (r: Result<(), MalError>)
        ensures
            new_score > 10 ==> r == Err::<(), MalError>(MalError::ScoreOutOfRange) && *final(self)
                == *old(self),
            new_score <= 10 ==> r is Ok && final(self).params_seq() == upsert(
                old(self).params_seq(),
                "score"@,
                dec_of(new_score as nat),
            ) && final(self).id_spec() == old(self).id_spec() && (old(self).wf()
                ==> final(self).wf()),
    {
        if new_score > 10 {
            return Err(MalError::ScoreOutOfRange);
        }
        let v = u32_to_string(new_score);
        self.set_param("score", v);
        Ok(())
    }

    /// Sets how many episodes the user has watched.
    pub fn update_num_watched_episodes(&mut self, new_num_watched_episodes: u32) -> (r: &mut Self)
        ensures
            r.params_seq() == upsert(
                old(self).params_seq(),
                "num_watched_episodes"@,
                dec_of(new_num_watched_episodes as nat),
            ),
            r.id_spec() == old(self).id_spec(),
            old(self).wf() ==> r.wf(),
            *final(self) == *final(r),
    {
        let v = u32_to_string(new_num_watched_episodes);
        self.set_param("num_watched_episodes", v);
        self
    }

    /// Sets the user's priority. A priority above 2 is rejected and the
    /// pending update is left exactly as it was.
    pub fn update_priority(&mut self, new_priority: u32) -> (r: Result<(), MalError>)
        ensures
            new_priority > 2 ==> r == Err::<(), MalError>(MalError::PriorityOutOfRange)
                && *final(self) == *old(self),
            new_priority <= 2 ==> r is Ok && final(self).params_seq() == upsert(
                old(self).params_seq(),
                "priority"@,
                dec_of(new_priority as nat),
            ) && final(self).id_spec() == old(self).id_spec() && (old(self).wf()
                ==> final(self).wf()),
    {
        if new_priority > 2 {
            return Err(MalError::PriorityOutOfRange);
        }
        let v = u32_to_string(new_priority);
        self.set_param("priority", v);
        Ok(())
    }

    /// Sets how many times the user has rewatched the entry.
    pub fn update_num_times_rewatched(&mut self, new_num_times_rewatched: u32) -> (r: &mut Self)
        ensures
            r.params_seq() == upsert(
                old(self).params_seq(),
                "num_times_rewatched"@,
                dec_of(new_num_times_rewatched as nat),
            ),
            r.id_spec() == old(self).id_spec(),
            old(self).wf() ==> r.wf(),
            *final(self) == *final(r),
    {
        let v = u32_to_string(new_num_times_rewatched);
        self.set_param("num_times_rewatched", v);
        self
    }

    /// Sets the user's rewatch value. A value above 5 is rejected and the
    /// pending update is left exactly as it was.
    pub fn update_rewatch_value(&mut self, new_rewatch_value: u32) -> (r: Result<(), MalError>)
        ensures
            new_rewatch_value > 5 ==> r == Err::<(), MalError>(MalError::RewatchValueOutOfRange)
                && *final(self) == *old(self),
            new_rewatch_value <= 5 ==> r is Ok && final(self).params_seq() == upsert(
                old(self).params_seq(),
                "rewatch_value"@,
                dec_of(new_rewatch_value as nat),
            ) && final(self).id_spec() == old(self).id_spec() && (old(self).wf()
                ==> final(self).wf()),
    {
        if new_rewatch_value > 5 {
            return Err(MalError::RewatchValueOutOfRange);
        }
        let v = u32_to_string(new_rewatch_value);
        self.set_param("rewatch_value", v);
        Ok(())
    }

    /// Replaces the tags of the entry with exactly the given ones, joined
    /// by commas.
    pub fn update_tags(&mut self, new_tags: Vec<&str>) -> (r: &mut Self)
        ensures
            r.params_seq() == upsert(
                old(self).params_seq(),
                "tags"@,
                joined_tags(strs_view(new_tags@)),
            ),
            r.id_spec() == old(self).id_spec(),
            old(self).wf() ==> r.wf(),
            *final(self) == *final(r),
    {
        let v = join_tags(&new_tags);
        self.set_param("tags", v);
        self
    }

    /// Replaces the comment of the entry.
    pub fn update_comments(&mut self, new_comments: &str) -> (r: &mut Self)
        ensures
            r.params_seq() == upsert(old(self).params_seq(), "comments"@, new_comments@),
            r.id_spec() == old(self).id_spec(),
            old(self).wf() ==> r.wf(),
            *final(self) == *final(r),
    {
        self.set_param("comments", new_comments.to_owned());
        self
    }

    /// Sets the date the user started the entry, as `YYYY-MM-DD`.
    pub fn update_start_date(&mut self, new_year: u32, new_month: u32, new_day: u32) -> (r:
        &mut Self)
        ensures
            r.params_seq() == upsert(
                old(self).params_seq(),
                "start_date"@,
                date_of(new_year as nat, new_month as nat, new_day as nat),
            ),
            r.id_spec() == old(self).id_spec(),
            old(self).wf() ==> r.wf(),
            *final(self) == *final(r),
    {
        let v = date_string(new_year, new_month, new_day);
        self.set_param("start_date", v);
        self
    }

    /// Sets the date the user finished the entry, as `YYYY-MM-DD`.
    pub fn update_finish_date(&mut self, new_year: u32, new_month: u32, new_day: u32) -> (r:
        &mut Self)
        ensures
            r.params_seq() == upsert(
                old(self).params_seq(),
                "finish_date"@,
                date_of(new_year as nat, new_month as nat, new_day as nat),
            ),
            r.id_spec() == old(self).id_spec(),
            old(self).wf() ==> r.wf(),
            *final(self) == *final(r),
    {
        let v = date_string(new_year, new_month, new_day);
        self.set_param("finish_date", v);
        self
    }

    /// Turns the pending update into the exact PUT request to send:
    /// refused without a stored token, before anything is built; otherwise
    /// the entry's list-status URL, the bearer header value, and the
    /// accumulated fields as one form-urlencoded body.
    pub fn prepare_update(&self, creds: &Credentials) -> (r: Result<UpdateRequest, MalError>)
        ensures
            creds.token_spec().len() == 0 ==> r == Err::<UpdateRequest, MalError>(
                MalError::NotLoggedIn,
            ),
            creds.token_spec().len() != 0 ==> r is Ok && (r->Ok_0).url@
                == "https://api.myanimelist.net/v2/anime/"@ + dec_of(self.id_spec() as nat)
                + "/my_list_status"@ && (r->Ok_0).bearer@ == "Bearer "@ + creds.token_spec() && (
            r->Ok_0).body@ == form_encoded_of(self.params_seq()),
    {
        if !creds.is_logged_in() {
            return Err(MalError::NotLoggedIn);
        }
        let url = my_list_status_url(self.id);
        let mut bearer = String::from_str("Bearer ");
        bearer.append(creds.token().as_str());
        let body = form_encode_pairs(&self.params);
        Ok(UpdateRequest { url, bearer, body })
    }
}

fn my_list_status_url(id: u32) -> (r: String)
    ensures
        r@ == "https://api.myanimelist.net/v2/anime/"@ + dec_of(id as nat) + "/my_list_status"@,
{
    let mut url = String::from_str("https://api.myanimelist.net/v2/anime/");
    let ds = u32_to_string(id);
    url.append(ds.as_str());
    url.append("/my_list_status");
    url
}

/// Prepares the delete of one list entry: refused without a stored token;
/// otherwise the entry's list-status URL and the bearer header value for
/// one DELETE.
pub fn delete_anime_request(id: u32, creds: &Credentials) -> (r: Result<
    (String, String),
    MalError,
>)
    ensures
        creds.token_spec().len() == 0 ==> r == Err::<(String, String), MalError>(
            MalError::NotLoggedIn,
        ),
        creds.token_spec().len() != 0 ==> r is Ok && (r->Ok_0).0@
            == "https://api.myanimelist.net/v2/anime/"@ + dec_of(id as nat) + "/my_list_status"@
            && (r->Ok_0).1@ == "Bearer "@ + creds.token_spec(),
{
    if !creds.is_logged_in() {
        return Err(MalError::NotLoggedIn);
    }
    let url = my_list_status_url(id);
    let mut bearer = String::from_str("Bearer ");
    bearer.append(creds.token().as_str());
    Ok((url, bearer))
}

// ---------- tag joining ----------

/// The views of a list of borrowed strings.
pub open spec fn strs_view(ts: Seq<&str>) -> Seq<Seq<char>> {
    ts.map_values(|t: &str| t@)
}

/// The tags joined by commas, in order, with no trailing separator.
pub open spec fn joined_tags(ts: Seq<Seq<char>>) -> Seq<char>
    decreases ts.len(),
{
    if ts.len() == 0 {
        Seq::empty()
    } else if ts.len() == 1 {
        ts[0]
    } else {
        joined_tags(ts.drop_last()) + ","@ + ts.last()
    }
}

fn join_tags(tags: &Vec<&str>) -> (s: String)
    ensures
        s@ == joined_tags(strs_view(tags@)),
{
    let mut s = String::new();
    let n: usize = tags.len();
    let mut i: usize = 0;
    while i < n
        invariant
            n == tags@.len(),
            0 <= i <= n,
            s@ == joined_tags(strs_view(tags@).subrange(0, i as int)),
        decreases n - i,
    {
        if i > 0 {
            s.append(",");
        }
        s.append(tags[i]);
        proof {
            let tv = strs_view(tags@);
            let p = tv.subrange(0, i + 1 as int);
            assert(p.drop_last() =~= tv.subrange(0, i as int));
            assert(p.last() == tv[i as int]);
            assert(s@ =~= joined_tags(p));
        }
        i = i + 1;
    }
    proof {
        assert(strs_view(tags@).subrange(0, n as int) =~= strs_view(tags@));
    }
    s
}

} // verus!
