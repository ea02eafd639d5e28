use game_library::{
    add_favorite_needs_game_check, add_game_to_favorites, remove_game_from_favorites,
    upsert_game_in_library, upsert_needs_game_check, FavoriteGameEvent, GameStatus, LibraryAction,
    LibraryError, Timestamp, UserGame,
};

const USER: u128 = 0x67e5_5044_10b1_426f_9247_bb68_0e5f_e0c8;
const GAME: i64 = 1942;

fn earlier() -> Timestamp {
    Timestamp { seconds: 1_600_000_000, nanos: 5 }
}

fn now() -> Timestamp {
    Timestamp { seconds: 1_700_000_000, nanos: 0 }
}

fn entry(status: GameStatus, is_favorite: bool) -> UserGame {
    UserGame { user_id: USER, game_id: GAME, status, added_at: earlier(), is_favorite }
}

fn stored(existing: Option<UserGame>, action: LibraryAction) -> Option<UserGame> {
    match action {
        LibraryAction::Keep => existing,
        LibraryAction::Save(e) | LibraryAction::Update(e) => Some(e),
        LibraryAction::Delete => None,
    }
}

#[test]
fn row_no_entry_no_status_is_a_no_op() {
    assert!(!upsert_needs_game_check(&None, GameStatus::Unset));
    let r = upsert_game_in_library(None, USER, GAME, GameStatus::Unset, false, now());
    assert_eq!(r, Ok(LibraryAction::Keep));
}

#[test]
fn row_no_entry_with_status_creates_entry() {
    assert!(upsert_needs_game_check(&None, GameStatus::Playing));
    let r = upsert_game_in_library(None, USER, GAME, GameStatus::Playing, true, now());
    assert_eq!(
        r,
        Ok(LibraryAction::Save(UserGame {
            user_id: USER,
            game_id: GAME,
            status: GameStatus::Playing,
            added_at: now(),
            is_favorite: false,
        }))
    );
}

#[test]
fn row_no_entry_with_status_needs_the_game() {
    let r = upsert_game_in_library(None, USER, GAME, GameStatus::WantToPlay, false, now());
    assert_eq!(r, Err(LibraryError::GameNotFound(GAME)));
}

#[test]
fn row_entry_cleared_and_not_favorite_is_deleted() {
    let existing = Some(entry(GameStatus::Completed, false));
    assert!(!upsert_needs_game_check(&existing, GameStatus::Unset));
    let r = upsert_game_in_library(existing, USER, GAME, GameStatus::Unset, false, now());
    assert_eq!(r, Ok(LibraryAction::Delete));
}

#[test]
fn row_entry_cleared_but_favorite_is_kept() {
    let r = upsert_game_in_library(Some(entry(GameStatus::Playing, true)), USER, GAME, GameStatus::Unset, false, now());
    assert_eq!(r, Ok(LibraryAction::Update(entry(GameStatus::Unset, true))));
}

#[test]
fn row_entry_with_new_status_is_updated() {
    let r = upsert_game_in_library(Some(entry(GameStatus::Playing, false)), USER, GAME, GameStatus::Completed, false, now());
    assert_eq!(r, Ok(LibraryAction::Update(entry(GameStatus::Completed, false))));
    let r = upsert_game_in_library(Some(entry(GameStatus::Playing, true)), USER, GAME, GameStatus::WantToPlay, true, now());
    assert_eq!(r, Ok(LibraryAction::Update(entry(GameStatus::WantToPlay, true))));
}

#[test]
fn upsert_without_status_on_new_pair_stores_nothing() {
    let r = upsert_game_in_library(None, USER, GAME, GameStatus::Unset, true, now()).unwrap();
    assert_eq!(stored(None, r), None);
}

#[test]
fn favorite_twice_is_idempotent_and_announced_twice() {
    assert!(add_favorite_needs_game_check(&None));
    let first = add_game_to_favorites(None, USER, GAME, true, now()).unwrap();
    let after_first = stored(None, first.action);
    assert!(!add_favorite_needs_game_check(&after_first));
    let second = add_game_to_favorites(after_first, USER, GAME, false, Timestamp { seconds: 1_800_000_000, nanos: 0 }).unwrap();
    let after_second = stored(after_first, second.action);
    assert_eq!(after_first, after_second);
    assert_eq!(
        after_first,
        Some(UserGame { user_id: USER, game_id: GAME, status: GameStatus::Unset, added_at: now(), is_favorite: true })
    );
    let event = Some(FavoriteGameEvent { user_id: USER, game_id: GAME, is_favorite: true });
    assert_eq!(first.event, event);
    assert_eq!(second.event, event);
}

#[test]
fn favorite_on_existing_entry_keeps_status_and_date() {
    let c = add_game_to_favorites(Some(entry(GameStatus::Playing, false)), USER, GAME, false, now()).unwrap();
    assert_eq!(c.action, LibraryAction::Update(entry(GameStatus::Playing, true)));
}

#[test]
fn favorite_on_missing_game_is_not_found() {
    assert_eq!(add_game_to_favorites(None, USER, GAME, false, now()), Err(LibraryError::GameNotFound(GAME)));
}

#[test]
fn unfavorite_absent_entry_is_not_found() {
    assert_eq!(remove_game_from_favorites(None, USER, GAME), Err(LibraryError::EntryNotFound(GAME)));
}

#[test]
fn unfavorite_without_status_deletes_after_event() {
    let c = remove_game_from_favorites(Some(entry(GameStatus::Unset, true)), USER, GAME).unwrap();
    assert_eq!(c.action, LibraryAction::Delete);
    assert_eq!(c.event, Some(FavoriteGameEvent { user_id: USER, game_id: GAME, is_favorite: false }));
}

#[test]
fn unfavorite_with_status_clears_the_flag() {
    let c = remove_game_from_favorites(Some(entry(GameStatus::Completed, true)), USER, GAME).unwrap();
    assert_eq!(c.action, LibraryAction::Update(entry(GameStatus::Completed, false)));
    assert!(c.event.is_some());
}

#[test]
fn unfavorite_on_non_favorite_sends_no_event() {
    let c = remove_game_from_favorites(Some(entry(GameStatus::Playing, false)), USER, GAME).unwrap();
    assert_eq!(c.event, None);
    assert_eq!(c.action, LibraryAction::Update(entry(GameStatus::Playing, false)));
}

#[test]
fn stored_status_texts_read_back() {
    for s in [GameStatus::Unset, GameStatus::WantToPlay, GameStatus::Playing, GameStatus::Completed] {
        assert_eq!(game_library::parse_status(&game_library::status_text(s)), s);
    }
    assert_eq!(game_library::status_text(GameStatus::WantToPlay), "WANT_TO_PLAY");
    assert_eq!(game_library::parse_status("PLAYING"), GameStatus::Playing);
    assert_eq!(game_library::parse_status("bogus"), GameStatus::Unset);
    assert_eq!(game_library::parse_status("NONE"), GameStatus::Unset);
}
