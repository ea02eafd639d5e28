use game_library::{
    first_game, map_games, map_igdb_game_to_domain, CalendarDate, IgdbGame, IgdbGenre, IgdbImage,
    IgdbPlatformName, IgdbVideo,
};

fn image(id: i64, url: Option<&str>) -> IgdbImage {
    IgdbImage { id, url: url.map(|u| u.to_string()), image_id: None }
}

fn full_record() -> IgdbGame {
    IgdbGame {
        id: 1020,
        name: "Grand Theft Auto V".to_string(),
        summary: Some("A heist story.".to_string()),
        storyline: Some("Three criminals.".to_string()),
        first_release_date: Some(1379980800 + 3600 * 13 + 59),
        cover: Some(image(1, Some("//images.igdb.com/igdb/image/upload/t_thumb/co2lbd.jpg"))),
        platforms: Some(vec![
            IgdbPlatformName { id: 6, name: "PC".to_string() },
            IgdbPlatformName { id: 48, name: "PlayStation 4".to_string() },
        ]),
        genres: Some(vec![IgdbGenre { id: 31, name: "Adventure".to_string() }]),
        videos: Some(vec![IgdbVideo { id: 3, video_id: "QkkoHAzjnUs".to_string() }]),
        screenshots: Some(vec![
            image(10, Some("//images.igdb.com/igdb/image/upload/t_thumb/sc1.jpg")),
            image(11, None),
            image(12, Some("//x/t_thumb/sc3.jpg")),
        ]),
        artworks: Some(vec![image(20, Some("//x/t_thumb/ar1.png"))]),
    }
}

fn empty_record() -> IgdbGame {
    IgdbGame {
        id: 7,
        name: "Bare".to_string(),
        summary: None,
        storyline: None,
        first_release_date: None,
        cover: None,
        platforms: None,
        genres: None,
        videos: None,
        screenshots: None,
        artworks: None,
    }
}

#[test]
fn record_with_every_field_present() {
    let g = map_igdb_game_to_domain(&full_record());
    assert_eq!(g.id, 1020);
    assert_eq!(g.name, "Grand Theft Auto V");
    assert_eq!(g.summary.as_deref(), Some("A heist story."));
    assert_eq!(g.storyline.as_deref(), Some("Three criminals."));
    assert_eq!(g.release_date, Some(CalendarDate { year: 2013, month: 9, day: 24 }));
    assert_eq!(
        g.cover_image_url.as_deref(),
        Some("https://images.igdb.com/igdb/image/upload/t_cover_big/co2lbd.jpg")
    );
    assert_eq!(g.platforms, vec!["PC".to_string(), "PlayStation 4".to_string()]);
    assert_eq!(g.genres, vec!["Adventure".to_string()]);
    assert_eq!(g.videos, vec!["https://www.youtube.com/watch?v=QkkoHAzjnUs".to_string()]);
    assert_eq!(
        g.screenshots,
        vec![
            "https://images.igdb.com/igdb/image/upload/t_screenshot_big/sc1.jpg".to_string(),
            "https://x/t_screenshot_big/sc3.jpg".to_string(),
        ]
    );
    assert_eq!(g.artworks.len(), 1);
    assert_eq!(g.artworks[0].url, "https://x/t_1080p/ar1.png");
}

#[test]
fn record_with_every_field_absent() {
    let g = map_igdb_game_to_domain(&empty_record());
    assert_eq!(g.id, 7);
    assert_eq!(g.name, "Bare");
    assert!(g.summary.is_none());
    assert!(g.storyline.is_none());
    assert!(g.release_date.is_none());
    assert!(g.cover_image_url.is_none());
    assert!(g.platforms.is_empty());
    assert!(g.genres.is_empty());
    assert!(g.videos.is_empty());
    assert!(g.screenshots.is_empty());
    assert!(g.artworks.is_empty());
}

#[test]
fn release_date_drops_the_time_of_day() {
    let mut r = empty_record();
    r.first_release_date = Some(0);
    assert_eq!(map_igdb_game_to_domain(&r).release_date, Some(CalendarDate { year: 1970, month: 1, day: 1 }));
    r.first_release_date = Some(86399);
    assert_eq!(map_igdb_game_to_domain(&r).release_date, Some(CalendarDate { year: 1970, month: 1, day: 1 }));
    r.first_release_date = Some(-1);
    assert_eq!(map_igdb_game_to_domain(&r).release_date, Some(CalendarDate { year: 1969, month: 12, day: 31 }));
    r.first_release_date = Some(951782400);
    assert_eq!(map_igdb_game_to_domain(&r).release_date, Some(CalendarDate { year: 2000, month: 2, day: 29 }));
}

#[test]
fn release_date_out_of_range_is_absent() {
    let mut r = empty_record();
    r.first_release_date = Some(i64::MAX);
    assert_eq!(map_igdb_game_to_domain(&r).release_date, None);
}

#[test]
fn cover_without_link_is_absent() {
    let mut r = empty_record();
    r.cover = Some(image(1, None));
    assert!(map_igdb_game_to_domain(&r).cover_image_url.is_none());
}

#[test]
fn every_thumbnail_token_is_replaced() {
    let mut r = empty_record();
    r.cover = Some(image(1, Some("//a/t_thumb/t_thumb.jpg")));
    assert_eq!(map_igdb_game_to_domain(&r).cover_image_url.as_deref(), Some("https://a/t_cover_big/t_cover_big.jpg"));
}

#[test]
fn empty_lists_stay_empty() {
    let mut r = empty_record();
    r.platforms = Some(vec![]);
    r.screenshots = Some(vec![image(1, None)]);
    let g = map_igdb_game_to_domain(&r);
    assert!(g.platforms.is_empty());
    assert!(g.screenshots.is_empty());
}

#[test]
fn many_records_keep_their_order() {
    let games = map_games(&vec![full_record(), empty_record()]);
    assert_eq!(games.len(), 2);
    assert_eq!(games[0].id, 1020);
    assert_eq!(games[1].id, 7);
    assert!(map_games(&vec![]).is_empty());
}

#[test]
fn first_record_or_nothing() {
    assert!(first_game(&vec![]).is_none());
    assert_eq!(first_game(&vec![empty_record(), full_record()]).unwrap().id, 7);
}
