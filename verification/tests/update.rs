use mal_query::error::MalError;
use mal_query::models::Status;
use mal_query::transport::Credentials;
use mal_query::user::{delete_anime_request, UpdateAnime};

fn params_of(u: &UpdateAnime) -> Vec<(String, String)> {
    u.params().clone()
}

#[test]
fn score_boundaries() {
    let mut u = UpdateAnime::new(1);
    assert!(u.update_score(0).is_ok());
    assert!(u.update_score(10).is_ok());
    assert_eq!(u.update_score(11), Err(MalError::ScoreOutOfRange));
    assert_eq!(
        params_of(&u),
        vec![("score".to_string(), "10".to_string())]
    );
}

#[test]
fn priority_boundaries() {
    let mut u = UpdateAnime::new(1);
    assert!(u.update_priority(0).is_ok());
    assert!(u.update_priority(2).is_ok());
    assert_eq!(u.update_priority(3), Err(MalError::PriorityOutOfRange));
    assert_eq!(
        params_of(&u),
        vec![("priority".to_string(), "2".to_string())]
    );
}

#[test]
fn rewatch_value_boundaries() {
    let mut u = UpdateAnime::new(1);
    assert!(u.update_rewatch_value(0).is_ok());
    assert!(u.update_rewatch_value(5).is_ok());
    assert_eq!(u.update_rewatch_value(6), Err(MalError::RewatchValueOutOfRange));
    assert_eq!(
        params_of(&u),
        vec![("rewatch_value".to_string(), "5".to_string())]
    );
}

#[test]
fn rejected_score_leaves_mapping_unchanged() {
    let mut u = UpdateAnime::new(28851);
    u.update_status(Status::Completed).update_is_rewatching(false);
    let before = params_of(&u);
    assert_eq!(u.update_score(11), Err(MalError::ScoreOutOfRange));
    assert_eq!(params_of(&u), before);
}

#[test]
fn setters_accumulate_in_insertion_order() {
    let mut u = UpdateAnime::new(28851);
    u.update_status(Status::Completed).update_is_rewatching(false);
    u.update_score(9).unwrap();
    u.update_num_watched_episodes(2000);
    u.update_priority(2).unwrap();
    u.update_num_times_rewatched(1000);
    u.update_rewatch_value(5).unwrap();
    assert_eq!(
        params_of(&u),
        vec![
            ("status".to_string(), "completed".to_string()),
            ("is_rewatching".to_string(), "false".to_string()),
            ("score".to_string(), "9".to_string()),
            ("num_watched_episodes".to_string(), "2000".to_string()),
            ("priority".to_string(), "2".to_string()),
            ("num_times_rewatched".to_string(), "1000".to_string()),
            ("rewatch_value".to_string(), "5".to_string()),
        ]
    );
}

#[test]
fn setting_a_field_twice_replaces_in_place() {
    let mut u = UpdateAnime::new(1);
    u.update_score(3).unwrap();
    u.update_status(Status::Watching);
    u.update_score(7).unwrap();
    assert_eq!(
        params_of(&u),
        vec![
            ("score".to_string(), "7".to_string()),
            ("status".to_string(), "watching".to_string()),
        ]
    );
}

#[test]
fn tags_join_and_dates_pad() {
    let mut u = UpdateAnime::new(1);
    u.update_tags(vec!["test1", "test2", "test3"]);
    u.update_comments("This is a test");
    u.update_start_date(2024, 1, 4);
    u.update_finish_date(988, 11, 3);
    assert_eq!(
        params_of(&u),
        vec![
            ("tags".to_string(), "test1,test2,test3".to_string()),
            ("comments".to_string(), "This is a test".to_string()),
            ("start_date".to_string(), "2024-01-04".to_string()),
            ("finish_date".to_string(), "0988-11-03".to_string()),
        ]
    );
}

#[test]
fn update_without_token_is_refused_before_any_request() {
    let creds = Credentials::new("cid".to_string(), String::new());
    let mut u = UpdateAnime::new(34881);
    u.update_status(Status::OnHold);
    assert!(matches!(u.prepare_update(&creds), Err(MalError::NotLoggedIn)));
}

#[test]
fn delete_without_token_is_refused_before_any_request() {
    let creds = Credentials::new("cid".to_string(), String::new());
    assert!(matches!(
        delete_anime_request(34881, &creds),
        Err(MalError::NotLoggedIn)
    ));
}

#[test]
fn prepared_update_request_is_exact() {
    let creds = Credentials::new("cid".to_string(), "tok123".to_string());
    let mut u = UpdateAnime::new(35413);
    u.update_status(Status::Watching);
    u.update_num_watched_episodes(4);
    let req = u.prepare_update(&creds).unwrap();
    assert_eq!(
        req.url.as_str(),
        "https://api.myanimelist.net/v2/anime/35413/my_list_status"
    );
    assert_eq!(req.bearer.as_str(), "Bearer tok123");
    assert_eq!(
        String::from_utf8(req.body).unwrap(),
        "status=watching&num_watched_episodes=4"
    );
}

#[test]
fn prepared_body_is_form_urlencoded() {
    let creds = Credentials::new("cid".to_string(), "t".to_string());
    let mut u = UpdateAnime::new(1);
    u.update_comments("a b+c&d=e\u{00e9}");
    let req = u.prepare_update(&creds).unwrap();
    assert_eq!(
        String::from_utf8(req.body).unwrap(),
        "comments=a+b%2Bc%26d%3De%C3%A9"
    );
}

#[test]
fn prepared_delete_request_is_exact() {
    let creds = Credentials::new("cid".to_string(), "tok123".to_string());
    let (url, bearer) = delete_anime_request(34881, &creds).unwrap();
    assert_eq!(
        url.as_str(),
        "https://api.myanimelist.net/v2/anime/34881/my_list_status"
    );
    assert_eq!(bearer.as_str(), "Bearer tok123");
}

#[test]
fn update_from_record_takes_its_identifier() {
    let creds = Credentials::new("cid".to_string(), "t".to_string());
    let data = mal_query::transport::RawSearchEntry {
        node: make_entry(37430, "x"),
        ranking_rank: None,
        list_status: None,
    };
    let search = mal_query::transport::normalize_search(vec![data]);
    let u = UpdateAnime::from_malanimedata(search.get(0).unwrap());
    assert_eq!(u.id(), 37430);
    let req = u.prepare_update(&creds).unwrap();
    assert_eq!(
        req.url.as_str(),
        "https://api.myanimelist.net/v2/anime/37430/my_list_status"
    );
}

fn make_entry(id: u32, title: &str) -> mal_query::models::MalAnimeData {
    mal_query::models::MalAnimeData {
        id,
        title: title.to_string(),
        main_picture: mal_query::models::Picture {
            large: String::new(),
            medium: String::new(),
        },
        alternative_titles: None,
        start_date: None,
        end_date: None,
        synopsis: None,
        mean: None,
        rank: None,
        popularity: None,
        num_list_users: None,
        num_scoring_users: None,
        nsfw: None,
        genres: None,
        created_at: None,
        updated_at: None,
        media_type: None,
        status: None,
        list_status: None,
        num_episodes: None,
        start_season: None,
        broadcast: None,
        source: None,
        average_episode_duration: None,
        rating: None,
        studios: None,
        pictures: None,
        background: None,
        related_anime: None,
        related_manga: None,
        recommendations: None,
        statistics: None,
    }
}
