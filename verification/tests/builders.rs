use mal_query::builders::{AddFields, Builder, SearchBuilder, SeasonalBuilder, UserListBuilder};
use mal_query::models::{Season, Sort, Status};

#[test]
fn single_entry_builder_url() {
    let b = Builder::new(33);
    assert_eq!(b.url().as_str(), "https://api.myanimelist.net/v2/anime/33?fields=");
}

#[test]
fn single_entry_builder_with_fields_url() {
    let mut b = Builder::new(6594);
    b.add_num_episodes().add_start_season();
    assert_eq!(
        b.url().as_str(),
        "https://api.myanimelist.net/v2/anime/6594?fields=num_episodes,start_season,"
    );
}

#[test]
fn duplicate_field_is_kept_twice() {
    let mut b = Builder::new(1);
    b.add_id().add_id();
    assert_eq!(b.url().as_str(), "https://api.myanimelist.net/v2/anime/1?fields=id,id,");
}

#[test]
fn full_field_chain_url() {
    let mut b = Builder::new(9756);
    b.add_id()
        .add_title()
        .add_main_picture()
        .add_alt_titles()
        .add_start_date()
        .add_end_date()
        .add_synopsis()
        .add_mean()
        .add_rank()
        .add_popularity()
        .add_num_list_users()
        .add_num_scoring_users()
        .add_nsfw()
        .add_created_at()
        .add_updated_at()
        .add_media_type()
        .add_status()
        .add_genres()
        .add_my_list_status()
        .add_start_season()
        .add_num_episodes()
        .add_broadcast()
        .add_source()
        .add_average_episode_duration()
        .add_rating()
        .add_pictures()
        .add_background()
        .add_related_anime()
        .add_related_manga()
        .add_recommendations()
        .add_studios()
        .add_statistics();
    let expected = "https://api.myanimelist.net/v2/anime/9756?fields=id,title,main_picture,\
alternative_titles,start_date,end_date,synopsis,mean,rank,popularity,num_list_users,\
num_scoring_users,nsfw,created_at,updated_at,media_type,status,genres,my_list_status,\
start_season,num_episodes,broadcast,source,average_episode_duration,rating,pictures,\
background,related_anime,related_manga,recommendations,studios,statistics,";
    assert_eq!(b.url().as_str(), expected);
}

#[test]
fn search_builder_url() {
    let mut b = SearchBuilder::new("gurashi", 5);
    b.add_nsfw().add_rank();
    assert_eq!(
        b.url().as_str(),
        "https://api.myanimelist.net/v2/anime?q=gurashi&limit=5&fields=nsfw,rank,"
    );
}

#[test]
fn seasonal_builder_url() {
    let mut b = SeasonalBuilder::new(2020, Season::Spring);
    b.add_start_season().add_start_date();
    assert_eq!(
        b.url().as_str(),
        "https://api.myanimelist.net/v2/anime/season/2020/spring?fields=start_season,start_date,"
    );
}

#[test]
fn seasonal_builder_each_season() {
    assert_eq!(
        SeasonalBuilder::new(2023, Season::Winter).url().as_str(),
        "https://api.myanimelist.net/v2/anime/season/2023/winter?fields="
    );
    assert_eq!(
        SeasonalBuilder::new(2023, Season::Summer).url().as_str(),
        "https://api.myanimelist.net/v2/anime/season/2023/summer?fields="
    );
    assert_eq!(
        SeasonalBuilder::new(2023, Season::Fall).url().as_str(),
        "https://api.myanimelist.net/v2/anime/season/2023/fall?fields="
    );
}

#[test]
fn user_list_builder_url() {
    let mut b = UserListBuilder::new("naginis_api");
    b.status(Status::Completed).sort(Sort::ListScore).limit(2).offset(1);
    assert_eq!(
        b.url().as_str(),
        "https://api.myanimelist.net/v2/users/naginis_api/animelist?\
status=completed&sort=list_score&limit=2&offset=1&"
    );
}

#[test]
fn user_list_builder_include_list_status_url() {
    let mut b = UserListBuilder::new("naginis_api");
    b.include_list_status();
    assert_eq!(
        b.url().as_str(),
        "https://api.myanimelist.net/v2/users/naginis_api/animelist?\
fields=list_status{is_rewatching,num_times_rewatched,rewatch_value,priority,tags,\
comments,start_date,end_date}&"
    );
}

#[test]
fn user_list_builder_each_status_and_sort() {
    let pairs = [
        (Status::Watching, "watching"),
        (Status::Completed, "completed"),
        (Status::OnHold, "on_hold"),
        (Status::Dropped, "dropped"),
        (Status::PlanToWatch, "plan_to_watch"),
    ];
    for (s, name) in pairs {
        let mut b = UserListBuilder::new("u");
        b.status(s);
        assert_eq!(
            b.url(),
            &format!("https://api.myanimelist.net/v2/users/u/animelist?status={name}&")
        );
    }
    let sorts = [
        (Sort::ListScore, "list_score"),
        (Sort::ListUpdatedAt, "list_updated_at"),
        (Sort::AnimeTitle, "anime_title"),
        (Sort::AnimeStartDate, "anime_start_date"),
        (Sort::AnimeId, "anime_id"),
    ];
    for (s, name) in sorts {
        let mut b = UserListBuilder::new("u");
        b.sort(s);
        assert_eq!(
            b.url(),
            &format!("https://api.myanimelist.net/v2/users/u/animelist?sort={name}&")
        );
    }
}
