use vstd::prelude::*;
use chrono::Datelike;

verus! {

/// The size token of the thumbnails that the catalog links to.
pub const THUMB_SIZE: &'static str = "t_thumb";

/// The size token of cover images.
pub const COVER_SIZE: &'static str = "t_cover_big";

/// The size token of screenshots.
pub const SCREENSHOT_SIZE: &'static str = "t_screenshot_big";

/// The size token of artworks.
pub const ARTWORK_SIZE: &'static str = "t_1080p";

/// The scheme put in front of the catalog's scheme-relative image links.
pub const IMAGE_SCHEME: &'static str = "https:";

/// The page that plays a video, given its id.
pub const WATCH_PREFIX: &'static str = "https://www.youtube.com/watch?v=";

/// A day of the proleptic Gregorian calendar.
#[derive(Clone, Copy, Debug, PartialEq, Eq, Structural, Hash)]
pub struct CalendarDate {
    pub year: i32,
    pub month: u32,
    pub day: u32,
}

pub open spec fn is_leap_year(y: int) -> bool {
    y % 4 == 0 && (y % 100 != 0 || y % 400 == 0)
}

pub open spec fn days_in_month(y: int, m: int) -> int {
    if m == 2 {
        if is_leap_year(y) {
            29
        } else {
            28
        }
    } else if m == 4 || m == 6 || m == 9 || m == 11 {
        30
    } else {
        31
    }
}

pub open spec fn is_valid_date(d: CalendarDate) -> bool {
    1 <= d.month <= 12 && 1 <= d.day <= days_in_month(d.year as int, d.month as int)
}

/// The number of days from 1970-01-01 to the given day (negative before it).
pub open spec fn days_from_civil(y: int, m: int, d: int) -> int {
    let y1 = if m <= 2 {
        y - 1
    } else {
        y
    };
    let era = y1 / 400;
    let yoe = y1 - era * 400;
    let mp = if m > 2 {
        m - 3
    } else {
        m + 9
    };
    let doy = (153 * mp + 2) / 5 + d - 1;
    let doe = yoe * 365 + yoe / 4 - yoe / 100 + doy;
    era * 146097 + doe - 719468
}

/// The day of a Unix timestamp (UTC), time of day dropped: the day whose
/// number is the timestamp divided by 86400, rounded down.
pub open spec fn is_day_of(d: CalendarDate, timestamp: int) -> bool {
    is_valid_date(d) && days_from_civil(d.year as int, d.month as int, d.day as int) == timestamp
        / 86400
}

/// Relies on chrono's `DateTime::from_timestamp` and `date_naive`: the UTC
/// day of a Unix timestamp, `None` only outside the years chrono represents
/// (about 262 000 years either side of the epoch).
#[verifier::external_body]
fn day_of_timestamp(timestamp: i64) -> (r: Option<CalendarDate>)
    ensures
        r matches Some(d) ==> is_day_of(d, timestamp as int),
        -8_000_000_000_000 <= timestamp <= 8_000_000_000_000 ==> r is Some,
{
    match chrono::DateTime::from_timestamp(timestamp, 0) {
        Some(t) => {
            let d = t.date_naive();
            Some(CalendarDate { year: d.year(), month: d.month(), day: d.day() })
        },
        None => None,
    }
}

/// Every match of `from` in `s`, found left to right without overlap,
/// replaced by `to`.
pub open spec fn replaced(s: Seq<char>, from: Seq<char>, to: Seq<char>) -> Seq<char>
    decreases s.len(),
{
    if from.len() == 0 || s.len() < from.len() {
        s
    } else if s.subrange(0, from.len() as int) == from {
        to + replaced(s.subrange(from.len() as int, s.len() as int), from, to)
    } else {
        seq![s[0]] + replaced(s.subrange(1, s.len() as int), from, to)
    }
}

/// Relies on `str::replace`: every non-overlapping match, from the left,
/// replaced.
#[verifier::external_body]
fn replace_all(s: &str, from: &str, to: &str) -> (r: String)
    requires
        from@.len() > 0,
    ensures
        r@ == replaced(s@, from@, to@),
{
    s.replace(from, to)
}

/// The absolute link of an image at the wanted size.
pub open spec fn image_link(url: Seq<char>, size: Seq<char>) -> Seq<char> {
    IMAGE_SCHEME@ + replaced(url, THUMB_SIZE@, size)
}

/// The link that plays a video.
pub open spec fn video_link(video_id: Seq<char>) -> Seq<char> {
    WATCH_PREFIX@ + video_id
}

/// An image record as the catalog sends it.
#[derive(Clone, Debug)]
pub struct IgdbImage {
    pub id: i64,
    pub url: Option<String>,
    pub image_id: Option<String>,
}

/// A genre record as the catalog sends it.
#[derive(Clone, Debug)]
pub struct IgdbGenre {
    pub id: i64,
    pub name: String,
}

/// A video record as the catalog sends it.
#[derive(Clone, Debug)]
pub struct IgdbVideo {
    pub id: i64,
    pub video_id: String,
}

/// The platform part of a game record as the catalog sends it.
#[derive(Clone, Debug)]
pub struct IgdbPlatformName {
    pub id: i64,
    pub name: String,
}

/// A game record as the catalog sends it. The rating, a floating-point
/// number, is carried beside the record by the caller.
#[derive(Clone, Debug)]
pub struct IgdbGame {
    pub id: i64,
    pub name: String,
    pub summary: Option<String>,
    pub storyline: Option<String>,
    pub first_release_date: Option<i64>,
    pub cover: Option<IgdbImage>,
    pub platforms: Option<Vec<IgdbPlatformName>>,
    pub genres: Option<Vec<IgdbGenre>>,
    pub videos: Option<Vec<IgdbVideo>>,
    pub screenshots: Option<Vec<IgdbImage>>,
    pub artworks: Option<Vec<IgdbImage>>,
}

/// An artwork of a game.
#[derive(Clone, Debug)]
pub struct Artwork {
    pub url: String,
}

/// A game as the domain sees it.
#[derive(Clone, Debug)]
pub struct Game {
    pub id: i64,
    pub name: String,
    pub summary: Option<String>,
    pub storyline: Option<String>,
    pub release_date: Option<CalendarDate>,
    pub cover_image_url: Option<String>,
    pub platforms: Vec<String>,
    pub genres: Vec<String>,
    pub videos: Vec<String>,
    pub screenshots: Vec<String>,
    pub artworks: Vec<Artwork>,
}

pub open spec fn texts(v: Seq<String>) -> Seq<Seq<char>> {
    v.map_values(|s: String| s@)
}

pub open spec fn opt_text(o: Option<String>) -> Option<Seq<char>> {
    match o {
        Some(s) => Some(s@),
        None => None,
    }
}

/// The names of the platforms; none when the list is absent.
pub open spec fn platform_names(ps: Option<Vec<IgdbPlatformName>>) -> Seq<Seq<char>> {
    match ps {
        Some(v) => v@.map_values(|p: IgdbPlatformName| p.name@),
        None => Seq::empty(),
    }
}

/// The names of the genres; none when the list is absent.
pub open spec fn genre_names(gs: Option<Vec<IgdbGenre>>) -> Seq<Seq<char>> {
    match gs {
        Some(v) => v@.map_values(|g: IgdbGenre| g.name@),
        None => Seq::empty(),
    }
}

/// The watch links of the videos; none when the list is absent.
pub open spec fn video_links(vs: Option<Vec<IgdbVideo>>) -> Seq<Seq<char>> {
    match vs {
        Some(v) => v@.map_values(|x: IgdbVideo| video_link(x.video_id@)),
        None => Seq::empty(),
    }
}

/// The links of those images that have one, in order, at the wanted size.
pub open spec fn image_links(s: Seq<IgdbImage>, size: Seq<char>) -> Seq<Seq<char>>
    decreases s.len(),
{
    if s.len() == 0 {
        Seq::empty()
    } else {
        image_links(s.drop_last(), size) + match s.last().url {
            Some(u) => seq![image_link(u@, size)],
            None => Seq::empty(),
        }
    }
}

pub open spec fn image_list_links(images: Option<Vec<IgdbImage>>, size: Seq<char>) -> Seq<Seq<char>> {
    match images {
        Some(v) => image_links(v@, size),
        None => Seq::empty(),
    }
}

/// The cover link: present when the cover and its link are.
pub open spec fn cover_link(cover: Option<IgdbImage>) -> Option<Seq<char>> {
    match cover {
        Some(c) => match c.url {
            Some(u) => Some(image_link(u@, COVER_SIZE@)),
            None => None,
        },
        None => None,
    }
}

/// `r` is the domain form of the wire record `g`: the same id, name and texts;
/// the release day of the timestamp; absolute image links at the size of their
/// use; full video links; and an empty list for every absent list.
pub open spec fn maps_to(g: IgdbGame, r: Game) -> bool {
    &&& r.id == g.id
    &&& r.name@ == g.name@
    &&& opt_text(r.summary) == opt_text(g.summary)
    &&& opt_text(r.storyline) == opt_text(g.storyline)
    &&& (g.first_release_date is None ==> r.release_date is None)
    &&& (r.release_date matches Some(d) ==> g.first_release_date matches Some(t) && is_day_of(
        d,
        t as int,
    ))
    &&& (g.first_release_date matches Some(t) && -8_000_000_000_000 <= t <= 8_000_000_000_000
        ==> r.release_date is Some)
    &&& opt_text(r.cover_image_url) == cover_link(g.cover)
    &&& texts(r.platforms@) == platform_names(g.platforms)
    &&& texts(r.genres@) == genre_names(g.genres)
    &&& texts(r.videos@) == video_links(g.videos)
    &&& texts(r.screenshots@) == image_list_links(g.screenshots, SCREENSHOT_SIZE@)
    &&& r.artworks@.map_values(|a: Artwork| a.url@) == image_list_links(g.artworks, ARTWORK_SIZE@)
}

fn copy_text(o: &Option<String>) -> (r: Option<String>)
    ensures
        opt_text(r) == opt_text(*o),
{
    match o {
        Some(s) => Some(s.clone()),
        None => None,
    }
}

fn image_link_of(url: &str, size: &str) -> (r: String)
    requires
        size@ == COVER_SIZE@ || size@ == SCREENSHOT_SIZE@ || size@ == ARTWORK_SIZE@,
    ensures
        r@ == image_link(url@, size@),
{
    proof {
        reveal_strlit("t_thumb");
    }
    let sized = replace_all(url, THUMB_SIZE, size);
    let mut r = String::from_str(IMAGE_SCHEME);
    r.append(sized.as_str());
    r
}

fn collect_platform_names(ps: &Option<Vec<IgdbPlatformName>>) -> (r: Vec<String>)
    ensures
        texts(r@) == platform_names(*ps),
{
    let mut out: Vec<String> = Vec::new();
    match ps {
        None => {
            assert(texts(out@) =~= platform_names(*ps));
        },
        Some(v) => {
            let mut i: usize = 0;
            while i < v.len()
                invariant
                    i <= v@.len(),
                    texts(out@) =~= v@.subrange(0, i as int).map_values(
                        |p: IgdbPlatformName| p.name@,
                    ),
                decreases v@.len() - i,
            {
                let ghost before = out@;
                out.push(v[i].name.clone());
                assert(texts(out@) =~= texts(before).push(v@[i as int].name@));
                assert(v@.subrange(0, i as int + 1).map_values(|p: IgdbPlatformName| p.name@)
                    =~= v@.subrange(0, i as int).map_values(|p: IgdbPlatformName| p.name@).push(
                    v@[i as int].name@,
                ));
                i = i + 1;
            }
            assert(v@.subrange(0, v@.len() as int) =~= v@);
        },
    }
    out
}

fn collect_genre_names(gs: &Option<Vec<IgdbGenre>>) -> (r: Vec<String>)
    ensures
        texts(r@) == genre_names(*gs),
{
    let mut out: Vec<String> = Vec::new();
    match gs {
        None => {
            assert(texts(out@) =~= genre_names(*gs));
        },
        Some(v) => {
            let mut i: usize = 0;
            while i < v.len()
                invariant
                    i <= v@.len(),
                    texts(out@) =~= v@.subrange(0, i as int).map_values(|g: IgdbGenre| g.name@),
                decreases v@.len() - i,
            {
                let ghost before = out@;
                out.push(v[i].name.clone());
                assert(texts(out@) =~= texts(before).push(v@[i as int].name@));
                assert(v@.subrange(0, i as int + 1).map_values(|g: IgdbGenre| g.name@)
                    =~= v@.subrange(0, i as int).map_values(|g: IgdbGenre| g.name@).push(
                    v@[i as int].name@,
                ));
                i = i + 1;
            }
            assert(v@.subrange(0, v@.len() as int) =~= v@);
        },
    }
    out
}

fn collect_video_links(vs: &Option<Vec<IgdbVideo>>) -> (r: Vec<String>)
    ensures
        texts(r@) == video_links(*vs),
{
    let mut out: Vec<String> = Vec::new();
    match vs {
        None => {
            assert(texts(out@) =~= video_links(*vs));
        },
        Some(v) => {
            let mut i: usize = 0;
            while i < v.len()
                invariant
                    i <= v@.len(),
                    texts(out@) =~= v@.subrange(0, i as int).map_values(
                        |x: IgdbVideo| video_link(x.video_id@),
                    ),
                decreases v@.len() - i,
            {
                let mut link = String::from_str(WATCH_PREFIX);
                link.append(v[i].video_id.as_str());
                let ghost before = out@;
                out.push(link);
                assert(texts(out@) =~= texts(before).push(video_link(v@[i as int].video_id@)));
                assert(v@.subrange(0, i as int + 1).map_values(|x: IgdbVideo| video_link(x.video_id@))
                    =~= v@.subrange(0, i as int).map_values(
                    |x: IgdbVideo| video_link(x.video_id@),
                ).push(video_link(v@[i as int].video_id@)));
                i = i + 1;
            }
            assert(v@.subrange(0, v@.len() as int) =~= v@);
        },
    }
    out
}

fn collect_image_links(images: &Option<Vec<IgdbImage>>, size: &str) -> (r: Vec<String>)
    requires
        size@ == COVER_SIZE@ || size@ == SCREENSHOT_SIZE@ || size@ == ARTWORK_SIZE@,
    ensures
        texts(r@) == image_list_links(*images, size@),
{
    let mut out: Vec<String> = Vec::new();
    match images {
        None => {
            assert(texts(out@) =~= image_list_links(*images, size@));
        },
        Some(v) => {
            let mut i: usize = 0;
            while i < v.len()
                invariant
                    i <= v@.len(),
                    size@ == COVER_SIZE@ || size@ == SCREENSHOT_SIZE@ || size@ == ARTWORK_SIZE@,
                    texts(out@) =~= image_links(v@.subrange(0, i as int), size@),
                decreases v@.len() - i,
            {
                let ghost before = out@;
                match &v[i].url {
                    Some(u) => {
                        let link = image_link_of(u.as_str(), size);
                        out.push(link);
                        assert(texts(out@) =~= texts(before).push(link@));
                    },
                    None => {},
                }
                assert(v@.subrange(0, i as int + 1).drop_last() =~= v@.subrange(0, i as int));
                i = i + 1;
            }
            assert(v@.subrange(0, v@.len() as int) =~= v@);
        },
    }
    out
}

fn collect_artworks(images: &Option<Vec<IgdbImage>>) -> (r: Vec<Artwork>)
    ensures
        r@.map_values(|a: Artwork| a.url@) == image_list_links(*images, ARTWORK_SIZE@),
{
    let links = collect_image_links(images, ARTWORK_SIZE);
    let mut out: Vec<Artwork> = Vec::new();
    let mut i: usize = 0;
    while i < links.len()
        invariant
            i <= links@.len(),
            out@.map_values(|a: Artwork| a.url@) =~= texts(links@.subrange(0, i as int)),
        decreases links@.len() - i,
    {
        let ghost before = out@;
        out.push(Artwork { url: links[i].clone() });
        assert(out@.map_values(|a: Artwork| a.url@) =~= before.map_values(|a: Artwork| a.url@).push(
            links@[i as int]@,
        ));
        assert(texts(links@.subrange(0, i as int + 1)) =~= texts(links@.subrange(0, i as int)).push(
            links@[i as int]@,
        ));
        i = i + 1;
    }
    assert(links@.subrange(0, links@.len() as int) =~= links@);
    out
}

fn cover_image_url(cover: &Option<IgdbImage>) -> (r: Option<String>)
    ensures
        opt_text(r) == cover_link(*cover),
{
    match cover {
        Some(c) => match &c.url {
            Some(u) => Some(image_link_of(u.as_str(), COVER_SIZE)),
            None => None,
        },
        None => None,
    }
}

/// Maps a wire record into a domain game.
pub fn map_igdb_game_to_domain(g: &IgdbGame) -> (r: Game)
    ensures
        maps_to(*g, r),
{
    let release_date = match g.first_release_date {
        Some(t) => day_of_timestamp(t),
        None => None,
    };
    Game {
        id: g.id,
        name: g.name.clone(),
        summary: copy_text(&g.summary),
        storyline: copy_text(&g.storyline),
        release_date,
        cover_image_url: cover_image_url(&g.cover),
        platforms: collect_platform_names(&g.platforms),
        genres: collect_genre_names(&g.genres),
        videos: collect_video_links(&g.videos),
        screenshots: collect_image_links(&g.screenshots, SCREENSHOT_SIZE),
        artworks: collect_artworks(&g.artworks),
    }
}

/// Maps every wire record, in order.
pub fn map_games(records: &Vec<IgdbGame>) -> (r: Vec<Game>)
    ensures
        r@.len() == records@.len(),
        forall|i: int| 0 <= i < r@.len() ==> maps_to(#[trigger] records@[i], r@[i]),
{
    let mut out: Vec<Game> = Vec::new();
    let mut i: usize = 0;
    while i < records.len()
        invariant
            i <= records@.len(),
            out@.len() == i,
            forall|j: int| 0 <= j < i ==> maps_to(#[trigger] records@[j], out@[j]),
        decreases records@.len() - i,
    {
        let game = map_igdb_game_to_domain(&records[i]);
        out.push(game);
        i = i + 1;
    }
    out
}

/// The first record, mapped; `None` when there is none.
pub fn first_game(records: &Vec<IgdbGame>) -> (r: Option<Game>)
    ensures
        records@.len() == 0 <==> r is None,
        r matches Some(game) ==> maps_to(records@[0], game),
{
    if records.len() == 0 {
        None
    } else {
        Some(map_igdb_game_to_domain(&records[0]))
    }
}

/// A record whose optional fields are all absent maps to a game whose
/// optional fields are all absent and whose lists are all empty.
pub proof fn lemma_absent_fields_map_to_nothing(g: IgdbGame, r: Game)
    requires
        maps_to(g, r),
        g.summary is None,
        g.storyline is None,
        g.first_release_date is None,
        g.cover is None,
        g.platforms is None,
        g.genres is None,
        g.videos is None,
        g.screenshots is None,
        g.artworks is None,
    ensures
        r.summary is None,
        r.storyline is None,
        r.release_date is None,
        r.cover_image_url is None,
        r.platforms@.len() == 0,
        r.genres@.len() == 0,
        r.videos@.len() == 0,
        r.screenshots@.len() == 0,
        r.artworks@.len() == 0,
{
    assert(texts(r.platforms@).len() == 0);
    assert(texts(r.genres@).len() == 0);
    assert(texts(r.videos@).len() == 0);
    assert(texts(r.screenshots@).len() == 0);
    assert(r.artworks@.map_values(|a: Artwork| a.url@).len() == 0);
}

/// A record whose optional fields are all present keeps its texts, and its
/// release date is the UTC day of its timestamp, the time of day dropped.
pub proof fn lemma_present_fields_carried(g: IgdbGame, r: Game)
    requires
        maps_to(g, r),
        g.summary is Some,
        g.storyline is Some,
        g.first_release_date matches Some(t) && -8_000_000_000_000 <= t <= 8_000_000_000_000,
        g.cover matches Some(c) && c.url is Some,
    ensures
        r.summary matches Some(s) && s@ == g.summary->Some_0@,
        r.storyline matches Some(s) && s@ == g.storyline->Some_0@,
        r.release_date matches Some(d) && is_day_of(d, g.first_release_date->Some_0 as int),
        r.cover_image_url matches Some(u) && u@ == image_link(
            g.cover->Some_0.url->Some_0@,
            COVER_SIZE@,
        ),
{
}

} // verus!
