use vstd::prelude::*;
use crate::library::{GameStatus, Timestamp, UserGame};
use crate::page::{page_count, saturate_i32, total_pages_of};
use crate::platform::{Platform, PlatformType};
use crate::query::{filter_query, filter_query_text};
use crate::user::{User, LoginResult, hyphenated_uuid, uuid_text};

verus! {

/// The page size of a filtered listing when the request names none.
pub const DEFAULT_FILTER_LIMIT: i32 = 10;

/// The offset of a filtered listing when the request names none.
pub const DEFAULT_FILTER_OFFSET: i32 = 0;

#[derive(Clone, Copy, Debug, PartialEq, Eq, Structural)]
pub struct SortDTO {
    pub sorted: bool,
    pub unsorted: bool,
    pub empty: bool,
}

#[derive(Clone, Copy, Debug, PartialEq, Eq, Structural)]
pub struct PageableDTO {
    pub page_number: i32,
    pub page_size: i32,
    pub sort: SortDTO,
}

#[derive(Clone, Debug)]
pub struct ArtworkDTO {
    pub id: i64,
    pub alpha_channel: bool,
    pub animated: bool,
    pub artwork_type: i64,
    pub checksum: String,
    pub game: i64,
    pub height: i32,
    pub image_id: String,
    pub url: String,
    pub width: i32,
}

/// A request for a filtered listing of games.
#[derive(Clone, Debug)]
pub struct GameFilterRequestDTO {
    pub filter: String,
    pub sort: Option<String>,
    pub limit: Option<i32>,
    pub offset: Option<i32>,
}

#[derive(Clone, Debug)]
pub struct PlatformDTO {
    pub id: i64,
    pub name: String,
    pub generation: Option<i32>,
    pub platform_type: PlatformType,
}

#[derive(Clone, Debug)]
pub struct UserDTO {
    pub id: String,
    pub username: String,
    pub email: String,
}

#[derive(Clone, Debug)]
pub struct UserRegistrationRequestDTO {
    pub username: String,
    pub email: String,
    pub password: String,
}

#[derive(Clone, Debug)]
pub struct LoginRequestDTO {
    pub email: String,
    pub password: String,
}

#[derive(Clone, Debug)]
pub struct LoginResponseDTO {
    pub token: String,
    pub user_id: String,
    pub username: String,
}

#[derive(Clone, Debug)]
pub struct UserGameDTO {
    pub user_id: String,
    pub game_id: i64,
    pub status: GameStatus,
    pub added_at: String,
    pub is_favorite: bool,
}

#[derive(Clone, Copy, Debug, PartialEq, Eq, Structural)]
pub struct UpdateGameStatusRequestDTO {
    pub status: GameStatus,
}

#[derive(Clone, Debug)]
pub struct UserGamePageDTO {
    pub content: Vec<UserGameDTO>,
    pub pageable: PageableDTO,
    pub total_pages: i32,
    pub total_elements: i64,
    pub last: bool,
    pub first: bool,
    pub size: i32,
    pub number: i32,
    pub sort: SortDTO,
    pub number_of_elements: i32,
    pub empty: bool,
}

/// The page size that a filter request asks for.
pub open spec fn requested_limit(req: GameFilterRequestDTO) -> int {
    match req.limit {
        Some(l) => l as int,
        None => DEFAULT_FILTER_LIMIT as int,
    }
}

/// The offset that a filter request asks for.
pub open spec fn requested_offset(req: GameFilterRequestDTO) -> int {
    match req.offset {
        Some(o) => o as int,
        None => DEFAULT_FILTER_OFFSET as int,
    }
}

/// The sort order that a filter request asks for; empty when none.
pub open spec fn requested_sort(req: GameFilterRequestDTO) -> Seq<char> {
    match req.sort {
        Some(s) => s@,
        None => Seq::empty(),
    }
}

/// The catalog query of a filter request, with the default page size and
/// offset where it names none.
pub fn filter_request_query(req: &GameFilterRequestDTO) -> (r: String)
    ensures
        r@ == filter_query_text(
            req.filter@,
            requested_sort(*req),
            requested_limit(*req),
            requested_offset(*req),
        ),
{
    let limit: i32 = match req.limit {
        Some(l) => l,
        None => DEFAULT_FILTER_LIMIT,
    };
    let offset: i32 = match req.offset {
        Some(o) => o,
        None => DEFAULT_FILTER_OFFSET,
    };
    let q = match &req.sort {
        Some(s) => filter_query(req.filter.as_str(), s.as_str(), limit, offset),
        None => filter_query(req.filter.as_str(), "", limit, offset),
    };
    proof {
        reveal_strlit("");
    }
    q
}

pub fn to_platform_dto(platform: Platform) -> (r: PlatformDTO)
    ensures
        r.id == platform.id,
        r.name@ == platform.name@,
        r.generation == platform.generation,
        r.platform_type == platform.platform_type,
{
    PlatformDTO {
        id: platform.id,
        name: platform.name,
        generation: platform.generation,
        platform_type: platform.platform_type,
    }
}

pub fn to_user_dto(user: User) -> (r: UserDTO)
    ensures
        r.id@ == user.id@,
        r.username@ == user.username@,
        r.email@ == user.email@,
{
    UserDTO { id: user.id, username: user.username, email: user.email }
}

pub fn to_login_response_dto(login_result: LoginResult) -> (r: LoginResponseDTO)
    ensures
        r.token@ == login_result.token@,
        r.user_id@ == login_result.user.id@,
        r.username@ == login_result.username@,
{
    LoginResponseDTO {
        token: login_result.token,
        user_id: login_result.user.id,
        username: login_result.username,
    }
}

/// The text of an instant as chrono writes a naive date and time
/// (`2023-11-14 22:13:20`, with a fraction of a second when there is one).
pub uninterp spec fn naive_datetime_text(seconds: int, nanos: int) -> Seq<char>;

/// An instant that chrono represents and writes.
pub open spec fn is_writable_instant(t: Timestamp) -> bool {
    t.nanos < 1_000_000_000 && -8_000_000_000_000 <= t.seconds <= 8_000_000_000_000
}

/// Relies on chrono's `DateTime::from_timestamp`, `naive_utc` and the
/// `Display` of `NaiveDateTime`: the text depends on the instant alone;
/// `None` only outside chrono's range or for a fraction of two seconds or more.
#[verifier::external_body]
fn datetime_text(seconds: i64, nanos: u32) -> (r: Option<String>)
    ensures
        r matches Some(s) ==> s@ == naive_datetime_text(seconds as int, nanos as int),
        is_writable_instant(Timestamp { seconds, nanos }) ==> r is Some,
{
    match chrono::DateTime::from_timestamp(seconds, nanos) {
        Some(t) => Some(t.naive_utc().to_string()),
        None => None,
    }
}

/// `dto` is the transfer form of `entry`.
pub open spec fn user_game_dto_of(entry: UserGame, dto: UserGameDTO) -> bool {
    &&& dto.user_id@ == hyphenated_uuid(entry.user_id as nat)
    &&& dto.game_id == entry.game_id
    &&& dto.status == entry.status
    &&& dto.added_at@ == naive_datetime_text(entry.added_at.seconds as int, entry.added_at.nanos as int)
    &&& dto.is_favorite == entry.is_favorite
}

pub fn to_user_game_dto(user_game: UserGame) -> (r: UserGameDTO)
    requires
        is_writable_instant(user_game.added_at),
    ensures
        user_game_dto_of(user_game, r),
{
    let added_at = match datetime_text(user_game.added_at.seconds, user_game.added_at.nanos) {
        Some(t) => t,
        None => {
            proof {
                assert(false);
            }
            String::new()
        },
    };
    UserGameDTO {
        user_id: uuid_text(user_game.user_id),
        game_id: user_game.game_id,
        status: user_game.status,
        added_at,
        is_favorite: user_game.is_favorite,
    }
}

pub fn to_user_game_dto_list(user_games: Vec<UserGame>) -> (r: Vec<UserGameDTO>)
    requires
        forall|i: int| 0 <= i < user_games@.len() ==> is_writable_instant(
            #[trigger] user_games@[i].added_at,
        ),
    ensures
        r@.len() == user_games@.len(),
        forall|i: int| 0 <= i < r@.len() ==> user_game_dto_of(#[trigger] user_games@[i], r@[i]),
{
    let mut out: Vec<UserGameDTO> = Vec::new();
    let mut i: usize = 0;
    while i < user_games.len()
        invariant
            i <= user_games@.len(),
            out@.len() == i,
            forall|j: int| 0 <= j < user_games@.len() ==> is_writable_instant(
                #[trigger] user_games@[j].added_at,
            ),
            forall|j: int| 0 <= j < i ==> user_game_dto_of(#[trigger] user_games@[j], out@[j]),
        decreases user_games@.len() - i,
    {
        out.push(to_user_game_dto(user_games[i]));
        i = i + 1;
    }
    out
}

/// The sort description of an unsorted listing.
pub open spec fn unsorted() -> SortDTO {
    SortDTO { sorted: false, unsorted: true, empty: true }
}

/// A page of a user's games that holds the whole given list: the totals are
/// the list's length, and it is always the last page.
pub fn to_user_game_page_dto(user_games: Vec<UserGame>, page: i32, size: i32) -> (r: UserGamePageDTO)
    requires
        user_games@.len() <= i64::MAX,
        forall|i: int| 0 <= i < user_games@.len() ==> is_writable_instant(
            #[trigger] user_games@[i].added_at,
        ),
    ensures
        r.content@.len() == user_games@.len(),
        forall|i: int| 0 <= i < r.content@.len() ==> user_game_dto_of(
            #[trigger] user_games@[i],
            r.content@[i],
        ),
        r.total_elements == user_games@.len(),
        r.total_pages as int == total_pages_of(user_games@.len() as int, size as int),
        r.pageable == (PageableDTO { page_number: page, page_size: size, sort: unsorted() }),
        r.last,
        r.first == (page == 0),
        r.size == size,
        r.number == page,
        r.sort == unsorted(),
        r.number_of_elements as int == saturate_i32(user_games@.len() as int),
        r.empty == (user_games@.len() == 0),
{
    let total_elements = user_games.len() as i64;
    let total_pages = page_count(total_elements, size);
    let number_of_elements: i32 = if user_games.len() > i32::MAX as usize {
        i32::MAX
    } else {
        user_games.len() as i32
    };
    let content = to_user_game_dto_list(user_games);
    UserGamePageDTO {
        content,
        pageable: PageableDTO {
            page_number: page,
            page_size: size,
            sort: SortDTO { sorted: false, unsorted: true, empty: true },
        },
        total_pages,
        total_elements,
        last: true,
        first: page == 0,
        size,
        number: page,
        sort: SortDTO { sorted: false, unsorted: true, empty: true },
        number_of_elements,
        empty: total_elements == 0,
    }
}

} // verus!
