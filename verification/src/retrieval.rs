//! The one-call read operations: each builds the exact request URL for one
//! endpoint, and the URL-based lookups extract the numeric identifier from
//! a catalog page URL.

use vstd::prelude::*;
use vstd::string::StringExecFns;
use crate::error::MalError;
use crate::models::{MangaRankingType, RankingType, Season, manga_ranking_type_name,
    manga_ranking_type_str, ranking_type_name, ranking_type_str, season_name, season_str};
use crate::text::{dec_of, parse_u32, parse_u32_spec, u32_to_string};

verus! {

// ---------- the url crate behind one trusted wrapper ----------

/// What splitting a URL into path segments returns: nothing when the
/// string is not a parsable URL or the URL cannot be a base; otherwise the
/// `/`-separated segments of its path, in order.
pub uninterp spec fn path_segments_of(s: Seq<char>) -> Option<Seq<Seq<char>>>;

/// Relies on `url::Url::parse` and `url::Url::path_segments`: both consume
/// their input alone, so the segment list is a function of the URL string.
/// Returns `None` when the string does not parse as a URL or the URL
/// cannot be a base.
#[verifier::external_body]
fn url_path_segments(url: &str) -> (r: Option<Vec<String>>)
    ensures
        r is Some <==> path_segments_of(url@) is Some,
        r matches Some(v) ==> Some(v.deep_view()) == path_segments_of(url@),
{
    let parsed = url::Url::parse(url).ok()?;
    let segments = parsed.path_segments()?;
    Some(segments.map(|s| s.to_string()).collect())
}

/// The value of the first path segment at or after `i` that parses as a
/// decimal identifier.
pub open spec fn first_numeric_segment(segs: Seq<Seq<char>>, i: int) -> Option<u32>
    decreases segs.len() - i,
{
    if i < 0 || i >= segs.len() {
        None
    } else if parse_u32_spec(segs[i]) is Some {
        parse_u32_spec(segs[i])
    } else {
        first_numeric_segment(segs, i + 1)
    }
}

/// Extracts the numeric catalog identifier from a catalog page URL: the
/// first path segment that parses as a decimal number. An unparsable URL
/// and a URL without a numeric segment are distinct failures.
pub fn extract_id_from_url(url: &str) -> (r: Result<u32, MalError>)
    ensures
        path_segments_of(url@) is None ==> r == Err::<u32, MalError>(MalError::UrlNotParsable),
        path_segments_of(url@) matches Some(segs) ==> match first_numeric_segment(segs, 0) {
            Some(id) => r == Ok::<u32, MalError>(id),
            None => r == Err::<u32, MalError>(MalError::NoIdInUrl),
        },
{
    let segments = url_path_segments(url);
    match segments {
        None => Err(MalError::UrlNotParsable),
        Some(v) => {
            let ghost sv = v.deep_view();
            let n: usize = v.len();
            let mut i: usize = 0;
            while i < n
                invariant
                    n == v@.len(),
                    sv == v.deep_view(),
                    Some(sv) == path_segments_of(url@),
                    0 <= i <= n,
                    first_numeric_segment(sv, 0) == first_numeric_segment(sv, i as int),
                decreases n - i,
            {
                proof {
                    assert(sv[i as int] == v@[i as int]@);
                }
                match parse_u32(v[i].as_str()) {
                    Some(id) => {
                        proof {
                            assert(first_numeric_segment(sv, i as int) == Some(id));
                        }
                        return Ok(id);
                    },
                    None => {
                        proof {
                            assert(first_numeric_segment(sv, i as int)
                                == first_numeric_segment(sv, i + 1 as int));
                        }
                    },
                }
                i = i + 1;
            }
            Err(MalError::NoIdInUrl)
        },
    }
}

// ---------- request URLs of the read endpoints ----------

/// The search URL for a free-text query with a result-count limit.
pub fn search_anime_url(name: &str, limit: u32) -> (r: String)
    ensures
        r@ == "https://api.myanimelist.net/v2/anime?q="@ + name@ + "&limit="@ + dec_of(
            limit as nat,
        ),
{
    let mut url = String::from_str("https://api.myanimelist.net/v2/anime?q=");
    url.append(name);
    url.append("&limit=");
    let ds = u32_to_string(limit);
    url.append(ds.as_str());
    url
}

/// The seasonal listing URL for one season of one year, capped at 500
/// entries as the reference listing is.
pub fn get_season_url(year: u32, season: Season) -> (r: String)
    ensures
        r@ == "https://api.myanimelist.net/v2/anime/season/"@ + dec_of(year as nat) + "/"@
            + season_name(season) + "?limit=500"@,
{
    let s: &str = season_str(season);
    let mut url = String::from_str("https://api.myanimelist.net/v2/anime/season/");
    let ds = u32_to_string(year);
    url.append(ds.as_str());
    url.append("/");
    url.append(s);
    url.append("?limit=500");
    url
}

/// The single-entry URL that requests every field of one catalog entry.
pub fn get_anime_url(id: u32) -> (r: String)
    ensures
        r@ == "https://api.myanimelist.net/v2/anime/"@ + dec_of(id as nat)
            + "?fields=id,title,main_picture,alternative_titles,start_date,end_date,synopsis,mean,rank,popularity,num_list_users,num_scoring_users,nsfw,created_at,updated_at,media_type,status,genres,my_list_status,num_episodes,start_season,broadcast,source,average_episode_duration,rating,pictures,background,related_anime,related_manga,recommendations,studios,statistics"@,
{
    let mut url = String::from_str("https://api.myanimelist.net/v2/anime/");
    let ds = u32_to_string(id);
    url.append(ds.as_str());
    url.append(
        "?fields=id,title,main_picture,alternative_titles,start_date,end_date,synopsis,mean,rank,popularity,num_list_users,num_scoring_users,nsfw,created_at,updated_at,media_type,status,genres,my_list_status,num_episodes,start_season,broadcast,source,average_episode_duration,rating,pictures,background,related_anime,related_manga,recommendations,studios,statistics",
    );
    url
}

/// The ranking URL for one ranking category with a result-count limit.
pub fn get_anime_rankings_url(ranking_type: RankingType, limit: u32) -> (r: String)
    ensures
        r@ == "https://api.myanimelist.net/v2/anime/ranking?ranking_type="@ + ranking_type_name(
            ranking_type,
        ) + "&limit="@ + dec_of(limit as nat),
{
    let s: &str = ranking_type_str(ranking_type);
    let mut url = String::from_str("https://api.myanimelist.net/v2/anime/ranking?ranking_type=");
    url.append(s);
    url.append("&limit=");
    let ds = u32_to_string(limit);
    url.append(ds.as_str());
    url
}

/// The user-list URL that asks for the nested list-status detail fields,
/// with a result-count limit.
pub fn get_user_animelist_url(username: &str, limit: u32) -> (r: String)
    ensures
        r@ == "https://api.myanimelist.net/v2/users/"@ + username@
            + "/animelist?fields=list_status{is_rewatching,num_times_rewatched,rewatch_value,priority,tags,comments,start_date,end_date}&limit="@
            + dec_of(limit as nat),
{
    let mut url = String::from_str("https://api.myanimelist.net/v2/users/");
    url.append(username);
    url.append(
        "/animelist?fields=list_status{is_rewatching,num_times_rewatched,rewatch_value,priority,tags,comments,start_date,end_date}&limit=",
    );
    let ds = u32_to_string(limit);
    url.append(ds.as_str());
    url
}

/// The manga search URL for a free-text query with a result-count limit.
pub fn search_manga_url(name: &str, limit: u32) -> (r: String)
    ensures
        r@ == "https://api.myanimelist.net/v2/manga?q="@ + name@ + "&limit="@ + dec_of(
            limit as nat,
        ),
{
    let mut url = String::from_str("https://api.myanimelist.net/v2/manga?q=");
    url.append(name);
    url.append("&limit=");
    let ds = u32_to_string(limit);
    url.append(ds.as_str());
    url
}

/// The single-entry URL that requests every field of one manga entry.
pub fn get_manga_url(id: u32) -> (r: String)
    ensures
        r@ == "https://api.myanimelist.net/v2/manga/"@ + dec_of(id as nat)
            + "?fields=id,title,main_picture,alternative_titles,start_date,end_date,synopsis,mean,rank,popularity,num_list_users,num_scoring_users,nsfw,created_at,updated_at,media_type,status,genres,my_list_status,,num_volumes,num_chapters,authors{first_name,last_name},pictures,background,related_anime,related_manga,recommendations,serialization{name}"@,
{
    let mut url = String::from_str("https://api.myanimelist.net/v2/manga/");
    let ds = u32_to_string(id);
    url.append(ds.as_str());
    url.append(
        "?fields=id,title,main_picture,alternative_titles,start_date,end_date,synopsis,mean,rank,popularity,num_list_users,num_scoring_users,nsfw,created_at,updated_at,media_type,status,genres,my_list_status,,num_volumes,num_chapters,authors{first_name,last_name},pictures,background,related_anime,related_manga,recommendations,serialization{name}",
    );
    url
}

/// The manga ranking URL for one ranking category with a result-count
/// limit.
pub fn get_manga_rankings_url(ranking_type: MangaRankingType, limit: u32) -> (r: String)
    ensures
        r@ == "https://api.myanimelist.net/v2/manga/ranking?ranking_type="@
            + manga_ranking_type_name(ranking_type) + "&limit="@ + dec_of(limit as nat),
{
    let s: &str = manga_ranking_type_str(ranking_type);
    let mut url = String::from_str("https://api.myanimelist.net/v2/manga/ranking?ranking_type=");
    url.append(s);
    url.append("&limit=");
    let ds = u32_to_string(limit);
    url.append(ds.as_str());
    url
}

/// The user manga-list URL that asks for the nested list-status detail
/// fields, with a result-count limit.
pub fn get_user_mangalist_url(username: &str, limit: u32) -> (r: String)
    ensures
        r@ == "https://api.myanimelist.net/v2/users/"@ + username@
            + "/mangalist?fields=list_status{is_rewatching,num_times_rewatched,rewatch_value,priority,tags,comments,start_date,end_date}&limit="@
            + dec_of(limit as nat),
{
    let mut url = String::from_str("https://api.myanimelist.net/v2/users/");
    url.append(username);
    url.append(
        "/mangalist?fields=list_status{is_rewatching,num_times_rewatched,rewatch_value,priority,tags,comments,start_date,end_date}&limit=",
    );
    let ds = u32_to_string(limit);
    url.append(ds.as_str());
    url
}

} // verus!
