//! Video-game catalog gateway and per-user game library rules.
//!
//! The library holds the logic of the backend: the credential cache that
//! guards access to the upstream catalog, the query texts sent to it, the
//! mapping of its wire records into domain records, the library entry state
//! machine, and the page arithmetic and transfer objects around them.
//! Transport, storage and serialisation live outside it.

mod platform;
mod query;
mod library;
mod record;
mod credential;
mod page;
mod user;
mod dto;
mod error;
mod events;

pub use platform::{Platform, PlatformType, IgdbPlatform, map_platform, platform_type_of};

pub use query::{
    GAME_FIELDS, PLATFORM_QUERY, SEARCH_LIMIT, filter_query, by_id_query, by_ids_query, search_query,
    platform_query, decimal, digits, joined_ids, optional_clause, filter_query_text,
    by_id_query_text, by_ids_query_text, search_query_text,
};

pub use library::{
    GameStatus, Timestamp, UserGame, FavoriteGameEvent, LibraryAction, FavoriteChange, LibraryError,
    worth_keeping, stored_after, upsert_spec, add_favorite_spec, remove_favorite_spec,
    upsert_needs_game_check, upsert_game_in_library, add_favorite_needs_game_check,
    add_game_to_favorites, remove_game_from_favorites, lemma_add_favorite_idempotent,
    lemma_decisions_keep_entries_meaningful, status_text_of, status_of_text, status_text, parse_status,
    lemma_status_text_round_trip,
};

pub use record::{
    THUMB_SIZE, COVER_SIZE, SCREENSHOT_SIZE, ARTWORK_SIZE, IMAGE_SCHEME, WATCH_PREFIX, CalendarDate,
    IgdbImage, IgdbGenre, IgdbVideo, IgdbPlatformName, IgdbGame, Artwork, Game, is_leap_year,
    days_in_month, is_valid_date, days_from_civil, is_day_of, replaced, image_link, video_link,
    texts, opt_text, platform_names, genre_names, video_links, image_links, image_list_links,
    cover_link, maps_to, map_igdb_game_to_domain, map_games, first_game,
    lemma_absent_fields_map_to_nothing, lemma_present_fields_carried,
};

pub use credential::{
    EXPIRY_MARGIN_SECONDS, STATUS_UNAUTHORIZED, CatalogError, TwitchTokenResponse, CredentialCache,
    is_success, expiry_of, served_token, check_token_response, catalog_url,
    bearer_header, lemma_served_token_is_from_one_refresh,
};

pub use page::{ceil_div, saturate_i32, total_pages_of, page_count, Page, quotient_toward_zero, page_index};

pub use user::{
    SESSION_LIFETIME_SECONDS, PASSWORD_HASH_COST, User, Claims, LoginResult, UserError, hex_digit,
    hex_digits, hyphenated_uuid, register_user, login_claims, login_result,
};

pub use dto::{
    DEFAULT_FILTER_LIMIT, DEFAULT_FILTER_OFFSET, SortDTO, PageableDTO, ArtworkDTO,
    GameFilterRequestDTO, PlatformDTO, UserDTO, UserRegistrationRequestDTO, LoginRequestDTO,
    LoginResponseDTO, UserGameDTO, UpdateGameStatusRequestDTO, UserGamePageDTO, requested_limit,
    requested_offset, requested_sort, filter_request_query, to_platform_dto, to_user_dto,
    to_login_response_dto, naive_datetime_text, is_writable_instant, user_game_dto_of,
    to_user_game_dto, to_user_game_dto_list, unsorted, to_user_game_page_dto,
};
pub use error::{AppError, AuthError, INTERNAL_MESSAGE, check_authorization};

pub use events::KafkaFavoriteGameEventPublisher;
