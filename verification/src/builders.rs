//! The fluent query builders: each accumulates a request URL by pure
//! string concatenation and never issues a request itself. The terminal
//! calls live with the caller, which sends the accumulated URL.
//!
//! The view of a builder is the accumulated URL, as a sequence of
//! characters.

use vstd::prelude::*;
use vstd::string::StringExecFns;
use crate::models::{Season, Sort, Status, season_name, season_str, sort_name, sort_str,
    status_name, status_str};
use crate::text::{dec_of, u32_to_string};

verus! {

/// Chainable field-inclusion flags shared by the entry, search and seasonal
/// builders. Each call appends one field name and a trailing comma to the
/// requested-fields list; duplicates are permitted and preserved.
pub trait AddFields: Sized + View<V = Seq<char>> {
    /// Requests the `id` field of the result.
    fn add_id(&mut self) -> (r: &mut Self)
        ensures
            r@ == old(self)@ + "id,"@,
            *final(self) == *final(r),
    ;

    /// Requests the `title` field of the result.
    fn add_title(&mut self) -> (r: &mut Self)
        ensures
            r@ == old(self)@ + "title,"@,
            *final(self) == *final(r),
    ;

    /// Requests the `main_picture` field of the result.
    fn add_main_picture(&mut self) -> (r: &mut Self)
        ensures
            r@ == old(self)@ + "main_picture,"@,
            *final(self) == *final(r),
    ;

    /// Requests the `alternative_titles` field of the result.
    fn add_alt_titles(&mut self) -> (r: &mut Self)
        ensures
            r@ == old(self)@ + "alternative_titles,"@,
            *final(self) == *final(r),
    ;

    /// Requests the `start_date` field of the result.
    fn add_start_date(&mut self) -> (r: &mut Self)
        ensures
            r@ == old(self)@ + "start_date,"@,
            *final(self) == *final(r),
    ;

    /// Requests the `end_date` field of the result.
    fn add_end_date(&mut self) -> (r: &mut Self)
        ensures
            r@ == old(self)@ + "end_date,"@,
            *final(self) == *final(r),
    ;

    /// Requests the `synopsis` field of the result.
    fn add_synopsis(&mut self) -> (r: &mut Self)
        ensures
            r@ == old(self)@ + "synopsis,"@,
            *final(self) == *final(r),
    ;

    /// Requests the `mean` field of the result.
    fn add_mean(&mut self) -> (r: &mut Self)
        ensures
            r@ == old(self)@ + "mean,"@,
            *final(self) == *final(r),
    ;

    /// Requests the `rank` field of the result.
    fn add_rank(&mut self) -> (r: &mut Self)
        ensures
            r@ == old(self)@ + "rank,"@,
            *final(self) == *final(r),
    ;

    /// Requests the `popularity` field of the result.
    fn add_popularity(&mut self) -> (r: &mut Self)
        ensures
            r@ == old(self)@ + "popularity,"@,
            *final(self) == *final(r),
    ;

    /// Requests the `num_list_users` field of the result.
    fn add_num_list_users(&mut self) -> (r: &mut Self)
        ensures
            r@ == old(self)@ + "num_list_users,"@,
            *final(self) == *final(r),
    ;

    /// Requests the `num_scoring_users` field of the result.
    fn add_num_scoring_users(&mut self) -> (r: &mut Self)
        ensures
            r@ == old(self)@ + "num_scoring_users,"@,
            *final(self) == *final(r),
    ;

    /// Requests the `nsfw` field of the result.
    fn add_nsfw(&mut self) -> (r: &mut Self)
        ensures
            r@ == old(self)@ + "nsfw,"@,
            *final(self) == *final(r),
    ;

    /// Requests the `created_at` field of the result.
    fn add_created_at(&mut self) -> (r: &mut Self)
        ensures
            r@ == old(self)@ + "created_at,"@,
            *final(self) == *final(r),
    ;

    /// Requests the `updated_at` field of the result.
    fn add_updated_at(&mut self) -> (r: &mut Self)
        ensures
            r@ == old(self)@ + "updated_at,"@,
            *final(self) == *final(r),
    ;

    /// Requests the `media_type` field of the result.
    fn add_media_type(&mut self) -> (r: &mut Self)
        ensures
            r@ == old(self)@ + "media_type,"@,
            *final(self) == *final(r),
    ;

    /// Requests the `status` field of the result.
    fn add_status(&mut self) -> (r: &mut Self)
        ensures
            r@ == old(self)@ + "status,"@,
            *final(self) == *final(r),
    ;

    /// Requests the `genres` field of the result.
    fn add_genres(&mut self) -> (r: &mut Self)
        ensures
            r@ == old(self)@ + "genres,"@,
            *final(self) == *final(r),
    ;

    /// Requests the `my_list_status` field of the result.
    fn add_my_list_status(&mut self) -> (r: &mut Self)
        ensures
            r@ == old(self)@ + "my_list_status,"@,
            *final(self) == *final(r),
    ;

    /// Requests the `start_season` field of the result.
    fn add_start_season(&mut self) -> (r: &mut Self)
        ensures
            r@ == old(self)@ + "start_season,"@,
            *final(self) == *final(r),
    ;

    /// Requests the `num_episodes` field of the result.
    fn add_num_episodes(&mut self) -> (r: &mut Self)
        ensures
            r@ == old(self)@ + "num_episodes,"@,
            *final(self) == *final(r),
    ;

    /// Requests the `broadcast` field of the result.
    fn add_broadcast(&mut self) -> (r: &mut Self)
        ensures
            r@ == old(self)@ + "broadcast,"@,
            *final(self) == *final(r),
    ;

    /// Requests the `source` field of the result.
    fn add_source(&mut self) -> (r: &mut Self)
        ensures
            r@ == old(self)@ + "source,"@,
            *final(self) == *final(r),
    ;

    /// Requests the `average_episode_duration` field of the result.
    fn add_average_episode_duration(&mut self) -> (r: &mut Self)
        ensures
            r@ == old(self)@ + "average_episode_duration,"@,
            *final(self) == *final(r),
    ;

    /// Requests the `rating` field of the result.
    fn add_rating(&mut self) -> (r: &mut Self)
        ensures
            r@ == old(self)@ + "rating,"@,
            *final(self) == *final(r),
    ;

    /// Requests the `pictures` field of the result.
    fn add_pictures(&mut self) -> (r: &mut Self)
        ensures
            r@ == old(self)@ + "pictures,"@,
            *final(self) == *final(r),
    ;

    /// Requests the `background` field of the result.
    fn add_background(&mut self) -> (r: &mut Self)
        ensures
            r@ == old(self)@ + "background,"@,
            *final(self) == *final(r),
    ;

    /// Requests the `related_anime` field of the result.
    fn add_related_anime(&mut self) -> (r: &mut Self)
        ensures
            r@ == old(self)@ + "related_anime,"@,
            *final(self) == *final(r),
    ;

    /// Requests the `related_manga` field of the result.
    fn add_related_manga(&mut self) -> (r: &mut Self)
        ensures
            r@ == old(self)@ + "related_manga,"@,
            *final(self) == *final(r),
    ;

    /// Requests the `recommendations` field of the result.
    fn add_recommendations(&mut self) -> (r: &mut Self)
        ensures
            r@ == old(self)@ + "recommendations,"@,
            *final(self) == *final(r),
    ;

    /// Requests the `studios` field of the result.
    fn add_studios(&mut self) -> (r: &mut Self)
        ensures
            r@ == old(self)@ + "studios,"@,
            *final(self) == *final(r),
    ;

    /// Requests the `statistics` field of the result.
    fn add_statistics(&mut self) -> (r: &mut Self)
        ensures
            r@ == old(self)@ + "statistics,"@,
            *final(self) == *final(r),
    ;

}

/// Retrieves one catalog entry by identifier.
pub struct Builder {
    url: String,
}

impl View for Builder {
    type V = Seq<char>;

    closed spec fn view(&self) -> Seq<char> {
        self.url@
    }
}

impl Builder {
    /// Takes an entry identifier and initializes a single-entry retriever
    /// for it.
    pub fn new(id: u32) -> (r: Self)
        ensures
            r@ == "https://api.myanimelist.net/v2/anime/"@ + dec_of(id as nat)
                + "?fields="@,
    {
        let mut url = String::from_str("https://api.myanimelist.net/v2/anime/");
        let ds = u32_to_string(id);
        url.append(ds.as_str());
        url.append("?fields=");
        Builder { url }
    }

    /// The request URL accumulated so far.
    pub fn url(&self) -> (r: &String)
        ensures
            r@ == self@,
    {
        &self.url
    }
}

/// Searches entries by free text, with a result-count limit.
pub struct SearchBuilder {
    url: String,
}

impl View for SearchBuilder {
    type V = Seq<char>;

    closed spec fn view(&self) -> Seq<char> {
        self.url@
    }
}

impl SearchBuilder {
    /// Takes a search string and a result-count limit, and initializes a
    /// search retriever for them.
    pub fn new(name: &str, limit: u32) -> (r: Self)
        ensures
            r@ == "https://api.myanimelist.net/v2/anime?q="@ + name@ + "&limit="@
                + dec_of(limit as nat) + "&fields="@,
    {
        let mut url = String::from_str("https://api.myanimelist.net/v2/anime?q=");
        url.append(name);
        url.append("&limit=");
        let ds = u32_to_string(limit);
        url.append(ds.as_str());
        url.append("&fields=");
        SearchBuilder { url }
    }

    /// The request URL accumulated so far.
    pub fn url(&self) -> (r: &String)
        ensures
            r@ == self@,
    {
        &self.url
    }
}

/// Lists the entries of one season of one year.
pub struct SeasonalBuilder {
    url: String,
}

impl View for SeasonalBuilder {
    type V = Seq<char>;

    closed spec fn view(&self) -> Seq<char> {
        self.url@
    }
}

impl SeasonalBuilder {
    /// Takes a year and a season, and initializes a seasonal listing
    /// retriever for them.
    pub fn new(year: u32, season: Season) -> (r: Self)
        ensures
            r@ == "https://api.myanimelist.net/v2/anime/season/"@ + dec_of(year as nat)
                + "/"@ + season_name(season) + "?fields="@,
    {
        let s: &str = season_str(season);
        let mut url = String::from_str("https://api.myanimelist.net/v2/anime/season/");
        let ds = u32_to_string(year);
        url.append(ds.as_str());
        url.append("/");
        url.append(s);
        url.append("?fields=");
        SeasonalBuilder { url }
    }

    /// The request URL accumulated so far.
    pub fn url(&self) -> (r: &String)
        ensures
            r@ == self@,
    {
        &self.url
    }
}

/// Retrieves a user's list, with optional filter, sort, pagination and
/// detail flags.
pub struct UserListBuilder {
    url: String,
}

impl View for UserListBuilder {
    type V = Seq<char>;

    closed spec fn view(&self) -> Seq<char> {
        self.url@
    }
}

impl UserListBuilder {
    /// Takes a username and initializes a user-list retriever for it.
    pub fn new(username: &str) -> (r: Self)
        ensures
            r@ == "https://api.myanimelist.net/v2/users/"@ + username@ + "/animelist?"@,
    {
        let mut url = String::from_str("https://api.myanimelist.net/v2/users/");
        url.append(username);
        url.append("/animelist?");
        UserListBuilder { url }
    }

    /// Filters the list by the user's listed status.
    pub fn status(&mut self, status: Status) -> (r: &mut Self)
        ensures
            r@ == old(self)@ + "status="@ + status_name(status) + "&"@,
            *final(self) == *final(r),
    {
        let s: &str = status_str(status);
        self.url.append("status=");
        self.url.append(s);
        self.url.append("&");
        self
    }

    /// Sorts the list by the given sort key.
    pub fn sort(&mut self, sort: Sort) -> (r: &mut Self)
        ensures
            r@ == old(self)@ + "sort="@ + sort_name(sort) + "&"@,
            *final(self) == *final(r),
    {
        let s: &str = sort_str(sort);
        self.url.append("sort=");
        self.url.append(s);
        self.url.append("&");
        self
    }

    /// Limits how many entries the list request returns.
    pub fn limit(&mut self, limit: u32) -> (r: &mut Self)
        ensures
            r@ == old(self)@ + "limit="@ + dec_of(limit as nat) + "&"@,
            *final(self) == *final(r),
    {
        self.url.append("limit=");
        let ds = u32_to_string(limit);
        self.url.append(ds.as_str());
        self.url.append("&");
        self
    }

    /// Offsets the starting point of the returned list, for pagination.
    pub fn offset(&mut self, offset: u32) -> (r: &mut Self)
        ensures
            r@ == old(self)@ + "offset="@ + dec_of(offset as nat) + "&"@,
            *final(self) == *final(r),
    {
        self.url.append("offset=");
        let ds = u32_to_string(offset);
        self.url.append(ds.as_str());
        self.url.append("&");
        self
    }

    /// Asks the list request for the nested per-entry list-status detail
    /// fields.
    pub fn include_list_status(&mut self) -> (r: &mut Self)
        ensures
            r@ == old(self)@
                + "fields=list_status{is_rewatching,num_times_rewatched,rewatch_value,priority,tags,comments,start_date,end_date}&"@,
            *final(self) == *final(r),
    {
        self.url.append(
            "fields=list_status{is_rewatching,num_times_rewatched,rewatch_value,priority,tags,comments,start_date,end_date}&",
        );
        self
    }

    /// The request URL accumulated so far.
    pub fn url(&self) -> (r: &String)
        ensures
            r@ == self@,
    {
        &self.url
    }
}

/// Appending the same field name twice keeps both copies: after two equal
/// appends the URL carries the field name at two adjacent places, and is
/// nothing but the old URL followed by the two copies.
pub proof fn lemma_field_added_twice(u0: Seq<char>, f: Seq<char>, u1: Seq<char>, u2: Seq<char>)
    requires
        u1 == u0 + f,
        u2 == u1 + f,
    ensures
        u2 == u0 + f + f,
        u2.len() == u0.len() + 2 * f.len(),
        u2.subrange(u0.len() as int, (u0.len() + f.len()) as int) == f,
        u2.subrange((u0.len() + f.len()) as int, u2.len() as int) == f,
{
    assert(u2 =~= u0 + f + f);
    assert(u2.subrange(u0.len() as int, (u0.len() + f.len()) as int) =~= f);
    assert(u2.subrange((u0.len() + f.len()) as int, u2.len() as int) =~= f);
}

impl AddFields for Builder {
    fn add_id(&mut self) -> (r: &mut Self) {
        self.url.append("id,");
        self
    }

    fn add_title(&mut self) -> (r: &mut Self) {
        self.url.append("title,");
        self
    }

    fn add_main_picture(&mut self) -> (r: &mut Self) {
        self.url.append("main_picture,");
        self
    }

    fn add_alt_titles(&mut self) -> (r: &mut Self) {
        self.url.append("alternative_titles,");
        self
    }

    fn add_start_date(&mut self) -> (r: &mut Self) {
        self.url.append("start_date,");
        self
    }

    fn add_end_date(&mut self) -> (r: &mut Self) {
        self.url.append("end_date,");
        self
    }

    fn add_synopsis(&mut self) -> (r: &mut Self) {
        self.url.append("synopsis,");
        self
    }

    fn add_mean(&mut self) -> (r: &mut Self) {
        self.url.append("mean,");
        self
    }

    fn add_rank(&mut self) -> (r: &mut Self) {
        self.url.append("rank,");
        self
    }

    fn add_popularity(&mut self) -> (r: &mut Self) {
        self.url.append("popularity,");
        self
    }

    fn add_num_list_users(&mut self) -> (r: &mut Self) {
        self.url.append("num_list_users,");
        self
    }

    fn add_num_scoring_users(&mut self) -> (r: &mut Self) {
        self.url.append("num_scoring_users,");
        self
    }

    fn add_nsfw(&mut self) -> (r: &mut Self) {
        self.url.append("nsfw,");
        self
    }

    fn add_created_at(&mut self) -> (r: &mut Self) {
        self.url.append("created_at,");
        self
    }

    fn add_updated_at(&mut self) -> (r: &mut Self) {
        self.url.append("updated_at,");
        self
    }

    fn add_media_type(&mut self) -> (r: &mut Self) {
        self.url.append("media_type,");
        self
    }

    fn add_status(&mut self) -> (r: &mut Self) {
        self.url.append("status,");
        self
    }

    fn add_genres(&mut self) -> (r: &mut Self) {
        self.url.append("genres,");
        self
    }

    fn add_my_list_status(&mut self) -> (r: &mut Self) {
        self.url.append("my_list_status,");
        self
    }

    fn add_start_season(&mut self) -> (r: &mut Self) {
        self.url.append("start_season,");
        self
    }

    fn add_num_episodes(&mut self) -> (r: &mut Self) {
        self.url.append("num_episodes,");
        self
    }

    fn add_broadcast(&mut self) -> (r: &mut Self) {
        self.url.append("broadcast,");
        self
    }

    fn add_source(&mut self) -> (r: &mut Self) {
        self.url.append("source,");
        self
    }

    fn add_average_episode_duration(&mut self) -> (r: &mut Self) {
        self.url.append("average_episode_duration,");
        self
    }

    fn add_rating(&mut self) -> (r: &mut Self) {
        self.url.append("rating,");
        self
    }

    fn add_pictures(&mut self) -> (r: &mut Self) {
        self.url.append("pictures,");
        self
    }

    fn add_background(&mut self) -> (r: &mut Self) {
        self.url.append("background,");
        self
    }

    fn add_related_anime(&mut self) -> (r: &mut Self) {
        self.url.append("related_anime,");
        self
    }

    fn add_related_manga(&mut self) -> (r: &mut Self) {
        self.url.append("related_manga,");
        self
    }

    fn add_recommendations(&mut self) -> (r: &mut Self) {
        self.url.append("recommendations,");
        self
    }

    fn add_studios(&mut self) -> (r: &mut Self) {
        self.url.append("studios,");
        self
    }

    fn add_statistics(&mut self) -> (r: &mut Self) {
        self.url.append("statistics,");
        self
    }

}

impl AddFields for SearchBuilder {
    fn add_id(&mut self) -> (r: &mut Self) {
        self.url.append("id,");
        self
    }

    fn add_title(&mut self) -> (r: &mut Self) {
        self.url.append("title,");
        self
    }

    fn add_main_picture(&mut self) -> (r: &mut Self) {
        self.url.append("main_picture,");
        self
    }

    fn add_alt_titles(&mut self) -> (r: &mut Self) {
        self.url.append("alternative_titles,");
        self
    }

    fn add_start_date(&mut self) -> (r: &mut Self) {
        self.url.append("start_date,");
        self
    }

    fn add_end_date(&mut self) -> (r: &mut Self) {
        self.url.append("end_date,");
        self
    }

    fn add_synopsis(&mut self) -> (r: &mut Self) {
        self.url.append("synopsis,");
        self
    }

    fn add_mean(&mut self) -> (r: &mut Self) {
        self.url.append("mean,");
        self
    }

    fn add_rank(&mut self) -> (r: &mut Self) {
        self.url.append("rank,");
        self
    }

    fn add_popularity(&mut self) -> (r: &mut Self) {
        self.url.append("popularity,");
        self
    }

    fn add_num_list_users(&mut self) -> (r: &mut Self) {
        self.url.append("num_list_users,");
        self
    }

    fn add_num_scoring_users(&mut self) -> (r: &mut Self) {
        self.url.append("num_scoring_users,");
        self
    }

    fn add_nsfw(&mut self) -> (r: &mut Self) {
        self.url.append("nsfw,");
        self
    }

    fn add_created_at(&mut self) -> (r: &mut Self) {
        self.url.append("created_at,");
        self
    }

    fn add_updated_at(&mut self) -> (r: &mut Self) {
        self.url.append("updated_at,");
        self
    }

    fn add_media_type(&mut self) -> (r: &mut Self) {
        self.url.append("media_type,");
        self
    }

    fn add_status(&mut self) -> (r: &mut Self) {
        self.url.append("status,");
        self
    }

    fn add_genres(&mut self) -> (r: &mut Self) {
        self.url.append("genres,");
        self
    }

    fn add_my_list_status(&mut self) -> (r: &mut Self) {
        self.url.append("my_list_status,");
        self
    }

    fn add_start_season(&mut self) -> (r: &mut Self) {
        self.url.append("start_season,");
        self
    }

    fn add_num_episodes(&mut self) -> (r: &mut Self) {
        self.url.append("num_episodes,");
        self
    }

    fn add_broadcast(&mut self) -> (r: &mut Self) {
        self.url.append("broadcast,");
        self
    }

    fn add_source(&mut self) -> (r: &mut Self) {
        self.url.append("source,");
        self
    }

    fn add_average_episode_duration(&mut self) -> (r: &mut Self) {
        self.url.append("average_episode_duration,");
        self
    }

    fn add_rating(&mut self) -> (r: &mut Self) {
        self.url.append("rating,");
        self
    }

    fn add_pictures(&mut self) -> (r: &mut Self) {
        self.url.append("pictures,");
        self
    }

    fn add_background(&mut self) -> (r: &mut Self) {
        self.url.append("background,");
        self
    }

    fn add_related_anime(&mut self) -> (r: &mut Self) {
        self.url.append("related_anime,");
        self
    }

    fn add_related_manga(&mut self) -> (r: &mut Self) {
        self.url.append("related_manga,");
        self
    }

    fn add_recommendations(&mut self) -> (r: &mut Self) {
        self.url.append("recommendations,");
        self
    }

    fn add_studios(&mut self) -> (r: &mut Self) {
        self.url.append("studios,");
        self
    }

    fn add_statistics(&mut self) -> (r: &mut Self) {
        self.url.append("statistics,");
        self
    }

}

impl AddFields for SeasonalBuilder {
    fn add_id(&mut self) -> (r: &mut Self) {
        self.url.append("id,");
        self
    }

    fn add_title(&mut self) -> (r: &mut Self) {
        self.url.append("title,");
        self
    }

    fn add_main_picture(&mut self) -> (r: &mut Self) {
        self.url.append("main_picture,");
        self
    }

    fn add_alt_titles(&mut self) -> (r: &mut Self) {
        self.url.append("alternative_titles,");
        self
    }

    fn add_start_date(&mut self) -> (r: &mut Self) {
        self.url.append("start_date,");
        self
    }

    fn add_end_date(&mut self) -> (r: &mut Self) {
        self.url.append("end_date,");
        self
    }

    fn add_synopsis(&mut self) -> (r: &mut Self) {
        self.url.append("synopsis,");
        self
    }

    fn add_mean(&mut self) -> (r: &mut Self) {
        self.url.append("mean,");
        self
    }

    fn add_rank(&mut self) -> (r: &mut Self) {
        self.url.append("rank,");
        self
    }

    fn add_popularity(&mut self) -> (r: &mut Self) {
        self.url.append("popularity,");
        self
    }

    fn add_num_list_users(&mut self) -> (r: &mut Self) {
        self.url.append("num_list_users,");
        self
    }

    fn add_num_scoring_users(&mut self) -> (r: &mut Self) {
        self.url.append("num_scoring_users,");
        self
    }

    fn add_nsfw(&mut self) -> (r: &mut Self) {
        self.url.append("nsfw,");
        self
    }

    fn add_created_at(&mut self) -> (r: &mut Self) {
        self.url.append("created_at,");
        self
    }

    fn add_updated_at(&mut self) -> (r: &mut Self) {
        self.url.append("updated_at,");
        self
    }

    fn add_media_type(&mut self) -> (r: &mut Self) {
        self.url.append("media_type,");
        self
    }

    fn add_status(&mut self) -> (r: &mut Self) {
        self.url.append("status,");
        self
    }

    fn add_genres(&mut self) -> (r: &mut Self) {
        self.url.append("genres,");
        self
    }

    fn add_my_list_status(&mut self) -> (r: &mut Self) {
        self.url.append("my_list_status,");
        self
    }

    fn add_start_season(&mut self) -> (r: &mut Self) {
        self.url.append("start_season,");
        self
    }

    fn add_num_episodes(&mut self) -> (r: &mut Self) {
        self.url.append("num_episodes,");
        self
    }

    fn add_broadcast(&mut self) -> (r: &mut Self) {
        self.url.append("broadcast,");
        self
    }

    fn add_source(&mut self) -> (r: &mut Self) {
        self.url.append("source,");
        self
    }

    fn add_average_episode_duration(&mut self) -> (r: &mut Self) {
        self.url.append("average_episode_duration,");
        self
    }

    fn add_rating(&mut self) -> (r: &mut Self) {
        self.url.append("rating,");
        self
    }

    fn add_pictures(&mut self) -> (r: &mut Self) {
        self.url.append("pictures,");
        self
    }

    fn add_background(&mut self) -> (r: &mut Self) {
        self.url.append("background,");
        self
    }

    fn add_related_anime(&mut self) -> (r: &mut Self) {
        self.url.append("related_anime,");
        self
    }

    fn add_related_manga(&mut self) -> (r: &mut Self) {
        self.url.append("related_manga,");
        self
    }

    fn add_recommendations(&mut self) -> (r: &mut Self) {
        self.url.append("recommendations,");
        self
    }

    fn add_studios(&mut self) -> (r: &mut Self) {
        self.url.append("studios,");
        self
    }

    fn add_statistics(&mut self) -> (r: &mut Self) {
        self.url.append("statistics,");
        self
    }

}

} // verus!
