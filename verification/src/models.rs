//! Passive records for the decoded API responses, and the closed enums the
//! requests and responses use, together with the exact query-string name of
//! each enum value.

use vstd::prelude::*;

verus! {

// -------- enums --------

/// The ranking categories the ranking endpoint accepts.
#[derive(Clone, Copy, Debug, PartialEq, Eq, Structural)]
pub enum RankingType {
    All,
    Airing,
    Upcoming,
    TV,
    OVA,
    Movie,
    Special,
    ByPopularity,
    Favorite,
    Unspecified,
}

/// The ranking categories the manga ranking endpoint accepts.
#[derive(Clone, Copy, Debug, PartialEq, Eq, Structural)]
pub enum MangaRankingType {
    All,
    Manga,
    Novel,
    LightNovel,
    OneShot,
    Doujin,
    Manhwa,
    Manhua,
    ByPopularity,
    Favorite,
    Unspecified,
}

/// The four seasons of the seasonal listing endpoint.
#[derive(Clone, Copy, Debug, PartialEq, Eq, Structural)]
pub enum Season {
    Winter,
    Spring,
    Summer,
    Fall,
}

/// The audience classification of an entry.
#[derive(Clone, Copy, Debug, PartialEq, Eq, Structural)]
pub enum Nsfw {
    White,
    Gray,
    Black,
}

/// The media format of an entry.
#[derive(Clone, Copy, Debug, PartialEq, Eq, Structural)]
pub enum MediaType {
    Unknown,
    TV,
    OVA,
    Movie,
    Special,
    ONA,
    Music,
}

/// Whether an entry has finished airing.
#[derive(Clone, Copy, Debug, PartialEq, Eq, Structural)]
pub enum AiringStatus {
    FinishedAiring,
    CurrentlyAiring,
    NotYetAired,
}

/// A user's watching status for one entry.
#[derive(Clone, Copy, Debug, PartialEq, Eq, Structural)]
pub enum Status {
    Watching,
    Completed,
    OnHold,
    Dropped,
    PlanToWatch,
}

/// The source material of an entry.
#[derive(Clone, Copy, Debug, PartialEq, Eq, Structural)]
pub enum Source {
    Other,
    Original,
    Manga,
    FourKomaManga,
    WebManga,
    DigitalManga,
    Novel,
    LightNovel,
    VisualNovel,
    Game,
    CardGame,
    Book,
    PictureBook,
    Radio,
    Music,
}

/// The age rating of an entry.
#[derive(Clone, Copy, Debug, PartialEq, Eq, Structural)]
pub enum Rating {
    G,
    PG,
    PG13,
    R,
    RPlus,
    RX,
}

/// The sort keys the user-list endpoint accepts.
#[derive(Clone, Copy, Debug, PartialEq, Eq, Structural)]
pub enum Sort {
    ListScore,
    ListUpdatedAt,
    AnimeTitle,
    AnimeStartDate,
    AnimeId,
}

// -------- wire names of the enums --------

/// The query-string name of a season.
pub open spec fn season_name(s: Season) -> Seq<char> {
    match s {
        Season::Winter => "winter"@,
        Season::Spring => "spring"@,
        Season::Summer => "summer"@,
        Season::Fall => "fall"@,
    }
}

/// Renders a season as the query-string name the API expects.
pub fn season_str(s: Season) -> (r: &'static str)
    ensures
        r@ == season_name(s),
{
    match s {
        Season::Winter => "winter",
        Season::Spring => "spring",
        Season::Summer => "summer",
        Season::Fall => "fall",
    }
}

/// The query-string name of a watching status.
pub open spec fn status_name(s: Status) -> Seq<char> {
    match s {
        Status::Watching => "watching"@,
        Status::Completed => "completed"@,
        Status::OnHold => "on_hold"@,
        Status::Dropped => "dropped"@,
        Status::PlanToWatch => "plan_to_watch"@,
    }
}

/// Renders a watching status as the query-string name the API expects.
pub fn status_str(s: Status) -> (r: &'static str)
    ensures
        r@ == status_name(s),
{
    match s {
        Status::Watching => "watching",
        Status::Completed => "completed",
        Status::OnHold => "on_hold",
        Status::Dropped => "dropped",
        Status::PlanToWatch => "plan_to_watch",
    }
}

/// The query-string name of a sort key.
pub open spec fn sort_name(s: Sort) -> Seq<char> {
    match s {
        Sort::ListScore => "list_score"@,
        Sort::ListUpdatedAt => "list_updated_at"@,
        Sort::AnimeTitle => "anime_title"@,
        Sort::AnimeStartDate => "anime_start_date"@,
        Sort::AnimeId => "anime_id"@,
    }
}

/// Renders a sort key as the query-string name the API expects.
pub fn sort_str(s: Sort) -> (r: &'static str)
    ensures
        r@ == sort_name(s),
{
    match s {
        Sort::ListScore => "list_score",
        Sort::ListUpdatedAt => "list_updated_at",
        Sort::AnimeTitle => "anime_title",
        Sort::AnimeStartDate => "anime_start_date",
        Sort::AnimeId => "anime_id",
    }
}

/// The query-string name of a ranking category.
pub open spec fn ranking_type_name(r: RankingType) -> Seq<char> {
    match r {
        RankingType::All => "all"@,
        RankingType::Airing => "airing"@,
        RankingType::Upcoming => "upcoming"@,
        RankingType::TV => "tv"@,
        RankingType::OVA => "ova"@,
        RankingType::Movie => "movie"@,
        RankingType::Special => "special"@,
        RankingType::ByPopularity => "bypopularity"@,
        RankingType::Favorite => "favorite"@,
        RankingType::Unspecified => ""@,
    }
}

/// Renders a ranking category as the query-string name the API expects.
pub fn ranking_type_str(r: RankingType) -> (s: &'static str)
    ensures
        s@ == ranking_type_name(r),
{
    match r {
        RankingType::All => "all",
        RankingType::Airing => "airing",
        RankingType::Upcoming => "upcoming",
        RankingType::TV => "tv",
        RankingType::OVA => "ova",
        RankingType::Movie => "movie",
        RankingType::Special => "special",
        RankingType::ByPopularity => "bypopularity",
        RankingType::Favorite => "favorite",
        RankingType::Unspecified => "",
    }
}

/// The query-string name of a manga ranking category.
pub open spec fn manga_ranking_type_name(r: MangaRankingType) -> Seq<char> {
    match r {
        MangaRankingType::All => "all"@,
        MangaRankingType::Manga => "manga"@,
        MangaRankingType::Novel => "novels"@,
        MangaRankingType::LightNovel => "light_novels"@,
        MangaRankingType::OneShot => "oneshots"@,
        MangaRankingType::Doujin => "doujin"@,
        MangaRankingType::Manhwa => "manhwa"@,
        MangaRankingType::Manhua => "manhua"@,
        MangaRankingType::ByPopularity => "bypopularity"@,
        MangaRankingType::Favorite => "favorite"@,
        MangaRankingType::Unspecified => ""@,
    }
}

/// Renders a manga ranking category as the query-string name the API
/// expects.
pub fn manga_ranking_type_str(r: MangaRankingType) -> (s: &'static str)
    ensures
        s@ == manga_ranking_type_name(r),
{
    match r {
        MangaRankingType::All => "all",
        MangaRankingType::Manga => "manga",
        MangaRankingType::Novel => "novels",
        MangaRankingType::LightNovel => "light_novels",
        MangaRankingType::OneShot => "oneshots",
        MangaRankingType::Doujin => "doujin",
        MangaRankingType::Manhwa => "manhwa",
        MangaRankingType::Manhua => "manhua",
        MangaRankingType::ByPopularity => "bypopularity",
        MangaRankingType::Favorite => "favorite",
        MangaRankingType::Unspecified => "",
    }
}

// -------- records --------

/// A pair of cover-image URLs.
#[derive(Clone, Debug, PartialEq)]
pub struct Picture {
    pub large: String,
    pub medium: String,
}

/// The alternative titles of an entry.
#[derive(Clone, Debug, PartialEq)]
pub struct AlternativeTitles {
    pub synonyms: Vec<String>,
    pub en: String,
    pub ja: String,
}

/// One genre tag.
#[derive(Clone, Debug, PartialEq)]
pub struct Genres {
    pub id: u32,
    pub name: String,
}

/// A user's personal tracking state for one entry.
#[derive(Clone, Debug, PartialEq)]
pub struct ListStatus {
    pub status: Status,
    pub score: u32,
    pub num_episodes_watched: u32,
    pub is_rewatching: bool,
    pub start_date: Option<String>,
    pub finish_date: Option<String>,
    pub priority: Option<u32>,
    pub num_times_rewatched: Option<u32>,
    pub rewatch_value: Option<u32>,
    pub tags: Option<Vec<String>>,
    pub comments: Option<String>,
    pub updated_at: String,
}

/// The season an entry started airing in.
#[derive(Clone, Copy, Debug, PartialEq, Eq, Structural)]
pub struct StartSeason {
    pub year: u32,
    pub season: Season,
}

/// The weekly broadcast slot of an entry.
#[derive(Clone, Debug, PartialEq)]
pub struct Broadcast {
    pub day_of_the_week: String,
    pub start_time: String,
}

/// One producing studio.
#[derive(Clone, Debug, PartialEq)]
pub struct Studios {
    pub id: u32,
    pub name: String,
}

/// How many users hold an entry in each status. The counts arrive as
/// strings on the wire and are kept as such.
#[derive(Clone, Debug, PartialEq)]
pub struct StatisticsStatus {
    pub watching: String,
    pub completed: String,
    pub on_hold: String,
    pub dropped: String,
    pub plan_to_watch: String,
}

/// List-membership statistics of an entry.
#[derive(Clone, Debug, PartialEq)]
pub struct Statistics {
    pub num_list_users: u32,
    pub status: StatisticsStatus,
}

/// One catalog entry. Identifier, title and cover images are always
/// present; everything else is populated only when the request asked for
/// the field and the service had a value.
#[derive(Debug)]
pub struct MalAnimeData {
    pub id: u32,
    pub title: String,
    pub main_picture: Picture,
    pub alternative_titles: Option<AlternativeTitles>,
    pub start_date: Option<String>,
    pub end_date: Option<String>,
    pub synopsis: Option<String>,
    /// Mean score in hundredths of a point; the wire carries a fraction.
    pub mean: Option<u32>,
    pub rank: Option<u32>,
    pub popularity: Option<u32>,
    pub num_list_users: Option<u32>,
    pub num_scoring_users: Option<u32>,
    pub nsfw: Option<Nsfw>,
    pub genres: Option<Vec<Genres>>,
    pub created_at: Option<String>,
    pub updated_at: Option<String>,
    pub media_type: Option<MediaType>,
    pub status: Option<AiringStatus>,
    pub list_status: Option<ListStatus>,
    pub num_episodes: Option<u32>,
    pub start_season: Option<StartSeason>,
    pub broadcast: Option<Broadcast>,
    pub source: Option<Source>,
    pub average_episode_duration: Option<u32>,
    pub rating: Option<Rating>,
    pub studios: Option<Vec<Studios>>,
    pub pictures: Option<Vec<Picture>>,
    pub background: Option<String>,
    pub related_anime: Option<Vec<Related>>,
    pub related_manga: Option<Vec<Related>>,
    pub recommendations: Option<Vec<Recommended>>,
    pub statistics: Option<Statistics>,
}

/// One related entry and how it relates.
#[derive(Debug)]
pub struct Related {
    pub node: MalAnimeData,
    pub relation_type: String,
}

/// One recommended entry.
#[derive(Debug)]
pub struct Recommended {
    pub node: MalAnimeData,
}

/// An ordered list of catalog entries, as a list endpoint returned them.
/// The order is significant: it is the relevance, ranking or sort order
/// of the response.
#[derive(Debug)]
pub struct MalAnimeSearch {
    pub data: Vec<MalAnimeData>,
}

impl MalAnimeSearch {
    /// Wraps an ordered list of entries.
    pub fn new(data: Vec<MalAnimeData>) -> (r: Self)
        ensures
            r.data == data,
    {
        MalAnimeSearch { data }
    }

    /// The titles of the entries, in the same order.
    pub fn to_titles(self) -> (r: Vec<String>)
        ensures
            r@.len() == self.data@.len(),
            forall|i: int| 0 <= i < r@.len() ==> r@[i]@ == self.data@[i].title@,
    {
        let mut r: Vec<String> = Vec::new();
        let n: usize = self.data.len();
        let mut i: usize = 0;
        while i < n
            invariant
                n == self.data@.len(),
                0 <= i <= n,
                r@.len() == i,
                forall|k: int| 0 <= k < i ==> r@[k]@ == self.data@[k].title@,
            decreases n - i,
        {
            r.push(self.data[i].title.clone());
            i = i + 1;
        }
        r
    }

    /// The entry at `index`, if there is one.
    pub fn get(&self, index: usize) -> (r: Option<&MalAnimeData>)
        ensures
            index < self.data@.len() ==> r == Some(&self.data@[index as int]),
            index >= self.data@.len() ==> r is None,
    {
        if index < self.data.len() {
            Some(&self.data[index])
        } else {
            None
        }
    }
}

} // verus!
