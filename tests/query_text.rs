use game_library::{
    by_id_query, by_ids_query, filter_query, filter_request_query, platform_query, search_query,
    GameFilterRequestDTO, GAME_FIELDS,
};

fn fields() -> String {
    GAME_FIELDS.to_string()
}

#[test]
fn filter_query_with_every_clause() {
    let q = filter_query("rating > 80", "rating desc", 10, 20);
    assert_eq!(q, format!("{} limit 10; offset 20; where rating > 80; sort rating desc;", fields()));
}

#[test]
fn filter_query_without_filter_or_sort() {
    let q = filter_query("", "", 5, 0);
    assert_eq!(q, format!("{} limit 5; offset 0;", fields()));
}

#[test]
fn filter_query_with_filter_only() {
    let q = filter_query("platforms = 6", "", 1, 2);
    assert_eq!(q, format!("{} limit 1; offset 2; where platforms = 6;", fields()));
}

#[test]
fn filter_query_with_sort_only() {
    let q = filter_query("", "name asc", 1, 2);
    assert_eq!(q, format!("{} limit 1; offset 2; sort name asc;", fields()));
}

#[test]
fn filter_query_clause_order_is_fixed() {
    let q = filter_query("a", "b", -3, 2147483647);
    let limit = q.find(" limit ").unwrap();
    let offset = q.find("; offset ").unwrap();
    let filter = q.find(" where ").unwrap();
    let sort = q.find(" sort ").unwrap();
    assert!(q.starts_with("fields "));
    assert!(limit < offset && offset < filter && filter < sort);
    assert!(q.contains(" limit -3; offset 2147483647;"));
}

#[test]
fn filter_query_names_the_full_projection() {
    assert_eq!(
        fields(),
        "fields name, summary, storyline, first_release_date, rating, cover.url, platforms.name, genres.name, videos.video_id, screenshots.url, artworks.url;"
    );
}

#[test]
fn by_id_query_text() {
    assert_eq!(by_id_query(1942), format!("{} where id = 1942;", fields()));
    assert_eq!(by_id_query(-7), format!("{} where id = -7;", fields()));
}

#[test]
fn batch_lookup_with_no_ids_needs_no_query() {
    assert_eq!(by_ids_query(&vec![]), None);
}

#[test]
fn batch_lookup_joins_ids_with_commas() {
    assert_eq!(by_ids_query(&vec![1, 22, 333]), Some(format!("{} where id = (1,22,333);", fields())));
    assert_eq!(by_ids_query(&vec![5]), Some(format!("{} where id = (5);", fields())));
}

#[test]
fn search_query_quotes_the_name_and_limits_to_twenty() {
    assert_eq!(search_query("zelda"), format!("{} search \"zelda\"; limit 20;", fields()));
}

#[test]
fn platform_query_text() {
    assert_eq!(platform_query(), "fields name, generation, platform_type; limit 500; sort name asc;");
}

#[test]
fn filter_request_uses_defaults() {
    let req = GameFilterRequestDTO { filter: "x = 1".to_string(), sort: None, limit: None, offset: None };
    assert_eq!(filter_request_query(&req), format!("{} limit 10; offset 0; where x = 1;", fields()));
    let req = GameFilterRequestDTO {
        filter: String::new(),
        sort: Some("name desc".to_string()),
        limit: Some(3),
        offset: Some(9),
    };
    assert_eq!(filter_request_query(&req), format!("{} limit 3; offset 9; sort name desc;", fields()));
}
