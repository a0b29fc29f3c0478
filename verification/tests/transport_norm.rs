use mal_query::error::MalError;
use mal_query::models::{ListStatus, MalAnimeData, Picture, Status};
use mal_query::transport::{check_status, normalize_search, Credentials, RawSearchEntry};

fn entry_with(id: u32, title: &str, rank: Option<u32>) -> MalAnimeData {
    MalAnimeData {
        id,
        title: title.to_string(),
        main_picture: Picture { large: String::new(), medium: String::new() },
        alternative_titles: None,
        start_date: None,
        end_date: None,
        synopsis: None,
        mean: None,
        rank,
        popularity: None,
        num_list_users: None,
        num_scoring_users: None,
        nsfw: None,
        genres: None,
        created_at: None,
        updated_at: None,
        media_type: None,
        status: None,
        list_status: None,
        num_episodes: None,
        start_season: None,
        broadcast: None,
        source: None,
        average_episode_duration: None,
        rating: None,
        studios: None,
        pictures: None,
        background: None,
        related_anime: None,
        related_manga: None,
        recommendations: None,
        statistics: None,
    }
}

fn some_list_status(score: u32) -> ListStatus {
    ListStatus {
        status: Status::Watching,
        score,
        num_episodes_watched: 0,
        is_rewatching: false,
        start_date: None,
        finish_date: None,
        priority: None,
        num_times_rewatched: None,
        rewatch_value: None,
        tags: None,
        comments: None,
        updated_at: String::new(),
    }
}

#[test]
fn unauthenticated_header_is_the_client_id() {
    let creds = Credentials::new("f7e5c56e".to_string(), String::new());
    assert!(!creds.is_logged_in());
    let (k, v) = creds.auth_header();
    assert_eq!(k.as_str(), "X-MAL-CLIENT-ID");
    assert_eq!(v.as_str(), "f7e5c56e");
}

#[test]
fn authenticated_header_is_the_bearer_token() {
    let mut creds = Credentials::new("f7e5c56e".to_string(), String::new());
    creds.set_token("tok".to_string());
    assert!(creds.is_logged_in());
    let (k, v) = creds.auth_header();
    assert_eq!(k.as_str(), "Authorization");
    assert_eq!(v.as_str(), "Bearer tok");
}

#[test]
fn status_codes_split_at_the_2xx_range() {
    assert_eq!(check_status(200), Ok(()));
    assert_eq!(check_status(204), Ok(()));
    assert_eq!(check_status(299), Ok(()));
    assert_eq!(check_status(199), Err(MalError::RequestFailed(199)));
    assert_eq!(check_status(300), Err(MalError::RequestFailed(300)));
    assert_eq!(check_status(404), Err(MalError::RequestFailed(404)));
    assert!(check_status(404).unwrap_err().message().len() > 0);
}

#[test]
fn ranking_rank_is_hoisted_onto_each_record() {
    let entries = vec![
        RawSearchEntry { node: entry_with(5, "a", None), ranking_rank: Some(1), list_status: None },
        RawSearchEntry {
            node: entry_with(7, "b", Some(99)),
            ranking_rank: Some(2),
            list_status: None,
        },
        RawSearchEntry { node: entry_with(9, "c", None), ranking_rank: Some(3), list_status: None },
    ];
    let search = normalize_search(entries);
    assert_eq!(search.data.len(), 3);
    for (i, rec) in search.data.iter().enumerate() {
        // the n-th record of an unfiltered ranking carries rank n+1
        assert_eq!(rec.rank, Some(i as u32 + 1));
    }
    assert_eq!(search.data[0].id, 5);
    assert_eq!(search.data[1].id, 7);
    assert_eq!(search.data[2].id, 9);
}

#[test]
fn node_rank_is_kept_when_no_sibling_rank_arrives() {
    let entries = vec![RawSearchEntry {
        node: entry_with(7, "b", Some(99)),
        ranking_rank: None,
        list_status: None,
    }];
    let search = normalize_search(entries);
    assert_eq!(search.data[0].rank, Some(99));
}

#[test]
fn list_status_is_hoisted_onto_each_record() {
    let entries = vec![
        RawSearchEntry {
            node: entry_with(1, "a", None),
            ranking_rank: None,
            list_status: Some(some_list_status(9)),
        },
        RawSearchEntry { node: entry_with(2, "b", None), ranking_rank: None, list_status: None },
    ];
    let search = normalize_search(entries);
    assert_eq!(search.data[0].list_status, Some(some_list_status(9)));
    assert_eq!(search.data[1].list_status, None);
}

#[test]
fn normalization_is_deterministic() {
    let make = || {
        vec![
            RawSearchEntry {
                node: entry_with(1, "a", None),
                ranking_rank: Some(1),
                list_status: Some(some_list_status(3)),
            },
            RawSearchEntry { node: entry_with(2, "b", Some(4)), ranking_rank: None, list_status: None },
        ]
    };
    let s1 = normalize_search(make());
    let s2 = normalize_search(make());
    assert_eq!(s1.data.len(), s2.data.len());
    for (a, b) in s1.data.iter().zip(s2.data.iter()) {
        assert_eq!(a.id, b.id);
        assert_eq!(a.title, b.title);
        assert_eq!(a.rank, b.rank);
        assert_eq!(a.list_status, b.list_status);
    }
}

#[test]
fn titles_come_out_in_order() {
    let entries = vec![
        RawSearchEntry { node: entry_with(1, "first", None), ranking_rank: None, list_status: None },
        RawSearchEntry { node: entry_with(2, "second", None), ranking_rank: None, list_status: None },
    ];
    let search = normalize_search(entries);
    assert_eq!(search.to_titles(), vec!["first".to_string(), "second".to_string()]);
}

#[test]
fn get_returns_the_indexed_record_or_nothing() {
    let entries = vec![RawSearchEntry {
        node: entry_with(6594, "Katanagatari", None),
        ranking_rank: None,
        list_status: None,
    }];
    let search = normalize_search(entries);
    // reading back the identifier of the entry the request was built for
    assert_eq!(search.get(0).unwrap().id, 6594);
    assert!(search.get(1).is_none());
}
