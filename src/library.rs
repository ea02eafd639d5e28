use vstd::prelude::*;

verus! {

/// Where a user stands with a game.
#[derive(Clone, Copy, Debug, PartialEq, Eq, Structural, Hash)]
pub enum GameStatus {
    Unset,
    WantToPlay,
    Playing,
    Completed,
}

/// An instant: whole seconds since the Unix epoch and the nanoseconds past them.
#[derive(Clone, Copy, Debug, PartialEq, Eq, Structural, Hash)]
pub struct Timestamp {
    pub seconds: i64,
    pub nanos: u32,
}

/// One game in one user's library. The user is identified by the 128-bit
/// value of their UUID.
#[derive(Clone, Copy, Debug, PartialEq, Eq, Structural, Hash)]
pub struct UserGame {
    pub user_id: u128,
    pub game_id: i64,
    pub status: GameStatus,
    pub added_at: Timestamp,
    pub is_favorite: bool,
}

/// The notification that a game's favorite flag was set or cleared.
#[derive(Clone, Copy, Debug, PartialEq, Eq, Structural, Hash)]
pub struct FavoriteGameEvent {
    pub user_id: u128,
    pub game_id: i64,
    pub is_favorite: bool,
}

/// What to do with the stored library entry of one user and one game.
#[derive(Clone, Copy, Debug, PartialEq, Eq, Structural)]
pub enum LibraryAction {
    /// Leave storage as it is.
    Keep,
    /// Store a new entry.
    Save(UserGame),
    /// Replace the existing entry.
    Update(UserGame),
    /// Remove the existing entry.
    Delete,
}

/// The outcome of a favorite toggle: the storage action and the event to
/// publish, if any.
#[derive(Clone, Copy, Debug, PartialEq, Eq, Structural)]
pub struct FavoriteChange {
    pub action: LibraryAction,
    pub event: Option<FavoriteGameEvent>,
}

/// Why a library operation was refused.
#[derive(Clone, Copy, Debug, PartialEq, Eq, Structural)]
pub enum LibraryError {
    /// The catalog has no game with this id.
    GameNotFound(i64),
    /// The user's library holds no entry for this game.
    EntryNotFound(i64),
}

/// An entry is worth storing when it has a status or is a favorite.
pub open spec fn worth_keeping(e: UserGame) -> bool {
    e.status != GameStatus::Unset || e.is_favorite
}

/// The stored entry after an action is carried out on `existing`.
pub open spec fn stored_after(existing: Option<UserGame>, action: LibraryAction) -> Option<UserGame> {
    match action {
        LibraryAction::Keep => existing,
        LibraryAction::Save(e) => Some(e),
        LibraryAction::Update(e) => Some(e),
        LibraryAction::Delete => None,
    }
}

/// Setting a status, row by row:
/// no entry and no status: nothing happens;
/// no entry and a status: the game must exist, and a new entry is created,
/// not a favorite, added now;
/// an entry, no status, not a favorite: the entry is deleted;
/// an entry otherwise: its status is replaced, favorite and added-at kept.
pub open spec fn upsert_spec(
    existing: Option<UserGame>,
    user_id: u128,
    game_id: i64,
    status: GameStatus,
    game_exists: bool,
    now: Timestamp,
) -> Result<LibraryAction, LibraryError> {
    match existing {
        None => if status == GameStatus::Unset {
            Ok(LibraryAction::Keep)
        } else if !game_exists {
            Err(LibraryError::GameNotFound(game_id))
        } else {
            Ok(
                LibraryAction::Save(
                    UserGame { user_id, game_id, status, added_at: now, is_favorite: false },
                ),
            )
        },
        Some(e) => if status == GameStatus::Unset && !e.is_favorite {
            Ok(LibraryAction::Delete)
        } else {
            Ok(
                LibraryAction::Update(
                    UserGame {
                        user_id,
                        game_id,
                        status,
                        added_at: e.added_at,
                        is_favorite: e.is_favorite,
                    },
                ),
            )
        },
    }
}

/// Marking a favorite: an existing entry becomes a favorite with its status
/// and added-at kept; otherwise the game must exist and a new favorite entry
/// without status is created. The event is published in either case.
pub open spec fn add_favorite_spec(
    existing: Option<UserGame>,
    user_id: u128,
    game_id: i64,
    game_exists: bool,
    now: Timestamp,
) -> Result<FavoriteChange, LibraryError> {
    let event = Some(FavoriteGameEvent { user_id, game_id, is_favorite: true });
    match existing {
        Some(e) => Ok(
            FavoriteChange {
                action: LibraryAction::Update(
                    UserGame {
                        user_id,
                        game_id,
                        status: e.status,
                        added_at: e.added_at,
                        is_favorite: true,
                    },
                ),
                event,
            },
        ),
        None => if !game_exists {
            Err(LibraryError::GameNotFound(game_id))
        } else {
            Ok(
                FavoriteChange {
                    action: LibraryAction::Save(
                        UserGame {
                            user_id,
                            game_id,
                            status: GameStatus::Unset,
                            added_at: now,
                            is_favorite: true,
                        },
                    ),
                    event,
                },
            )
        },
    }
}

/// Clearing a favorite: an absent entry is an error; a favorite entry
/// announces the change; then the entry is deleted if it has no status, and
/// otherwise kept with the flag cleared.
pub open spec fn remove_favorite_spec(
    existing: Option<UserGame>,
    user_id: u128,
    game_id: i64,
) -> Result<FavoriteChange, LibraryError> {
    match existing {
        None => Err(LibraryError::EntryNotFound(game_id)),
        Some(e) => Ok(
            FavoriteChange {
                action: if e.status == GameStatus::Unset {
                    LibraryAction::Delete
                } else {
                    LibraryAction::Update(
                        UserGame {
                            user_id,
                            game_id,
                            status: e.status,
                            added_at: e.added_at,
                            is_favorite: false,
                        },
                    )
                },
                event: if e.is_favorite {
                    Some(FavoriteGameEvent { user_id, game_id, is_favorite: false })
                } else {
                    None
                },
            },
        ),
    }
}

/// Whether setting `status` needs to know that the game exists: only when a
/// new entry would be created.
pub fn upsert_needs_game_check(existing: &Option<UserGame>, status: GameStatus) -> (r: bool)
    ensures
        r == (existing.is_none() && status != GameStatus::Unset),
{
    existing.is_none() && status != GameStatus::Unset
}

/// Decides what setting `status` on the pair (`user_id`, `game_id`) does,
/// given the stored entry for the pair. `game_exists` is read only when a new
/// entry would be created.
pub fn upsert_game_in_library(
    existing: Option<UserGame>,
    user_id: u128,
    game_id: i64,
    status: GameStatus,
    game_exists: bool,
    now: Timestamp,
) -> (r: Result<LibraryAction, LibraryError>)
    ensures
        r == upsert_spec(existing, user_id, game_id, status, game_exists, now),
{
    match existing {
        None => {
            if status == GameStatus::Unset {
                Ok(LibraryAction::Keep)
            } else if !game_exists {
                Err(LibraryError::GameNotFound(game_id))
            } else {
                Ok(
                    LibraryAction::Save(
                        UserGame { user_id, game_id, status, added_at: now, is_favorite: false },
                    ),
                )
            }
        },
        Some(e) => {
            if status == GameStatus::Unset && !e.is_favorite {
                Ok(LibraryAction::Delete)
            } else {
                Ok(
                    LibraryAction::Update(
                        UserGame {
                            user_id,
                            game_id,
                            status,
                            added_at: e.added_at,
                            is_favorite: e.is_favorite,
                        },
                    ),
                )
            }
        },
    }
}

/// Whether marking a favorite needs to know that the game exists: only when
/// the library holds no entry for it.
pub fn add_favorite_needs_game_check(existing: &Option<UserGame>) -> (r: bool)
    ensures
        r == existing.is_none(),
{
    existing.is_none()
}

/// Decides what marking the game as a favorite does, given the stored entry
/// for the pair. `game_exists` is read only when there is no entry.
pub fn add_game_to_favorites(
    existing: Option<UserGame>,
    user_id: u128,
    game_id: i64,
    game_exists: bool,
    now: Timestamp,
) -> (r: Result<FavoriteChange, LibraryError>)
    ensures
        r == add_favorite_spec(existing, user_id, game_id, game_exists, now),
{
    let event = Some(FavoriteGameEvent { user_id, game_id, is_favorite: true });
    match existing {
        Some(e) => Ok(
            FavoriteChange {
                action: LibraryAction::Update(
                    UserGame {
                        user_id,
                        game_id,
                        status: e.status,
                        added_at: e.added_at,
                        is_favorite: true,
                    },
                ),
                event,
            },
        ),
        None => {
            if !game_exists {
                Err(LibraryError::GameNotFound(game_id))
            } else {
                Ok(
                    FavoriteChange {
                        action: LibraryAction::Save(
                            UserGame {
                                user_id,
                                game_id,
                                status: GameStatus::Unset,
                                added_at: now,
                                is_favorite: true,
                            },
                        ),
                        event,
                    },
                )
            }
        },
    }
}

/// Decides what clearing the favorite flag does, given the stored entry for
/// the pair. The event, when there is one, is published before the action.
pub fn remove_game_from_favorites(existing: Option<UserGame>, user_id: u128, game_id: i64) -> (r:
    Result<FavoriteChange, LibraryError>)
    ensures
        r == remove_favorite_spec(existing, user_id, game_id),
{
    match existing {
        None => Err(LibraryError::EntryNotFound(game_id)),
        Some(e) => {
            let action = if e.status == GameStatus::Unset {
                LibraryAction::Delete
            } else {
                LibraryAction::Update(
                    UserGame {
                        user_id,
                        game_id,
                        status: e.status,
                        added_at: e.added_at,
                        is_favorite: false,
                    },
                )
            };
            let event = if e.is_favorite {
                Some(FavoriteGameEvent { user_id, game_id, is_favorite: false })
            } else {
                None
            };
            Ok(FavoriteChange { action, event })
        },
    }
}

/// Marking a favorite twice leaves storage as the first call left it, and
/// both calls publish the same event with the flag set.
pub proof fn lemma_add_favorite_idempotent(
    existing: Option<UserGame>,
    user_id: u128,
    game_id: i64,
    game_exists: bool,
    now: Timestamp,
    game_exists_again: bool,
    now_again: Timestamp,
)
    requires
        add_favorite_spec(existing, user_id, game_id, game_exists, now) is Ok,
    ensures
        ({
            let first = add_favorite_spec(existing, user_id, game_id, game_exists, now)->Ok_0;
            let stored = stored_after(existing, first.action);
            let second = add_favorite_spec(stored, user_id, game_id, game_exists_again, now_again);
            &&& second is Ok
            &&& stored_after(stored, second->Ok_0.action) == stored
            &&& stored matches Some(e) && e.is_favorite
            &&& first.event == Some(FavoriteGameEvent { user_id, game_id, is_favorite: true })
            &&& second->Ok_0.event == first.event
        }),
{
}

/// Every decision keeps storage free of entries that have neither a status
/// nor the favorite flag, and an update never moves an entry's added-at.
pub proof fn lemma_decisions_keep_entries_meaningful(
    existing: Option<UserGame>,
    user_id: u128,
    game_id: i64,
    status: GameStatus,
    game_exists: bool,
    now: Timestamp,
)
    ensures
        upsert_spec(existing, user_id, game_id, status, game_exists, now) matches Ok(a)
            ==> match a {
            LibraryAction::Save(e) => worth_keeping(e),
            LibraryAction::Update(e) => worth_keeping(e) && e.added_at == existing->Some_0.added_at,
            _ => true,
        },
        add_favorite_spec(existing, user_id, game_id, game_exists, now) matches Ok(c)
            ==> match c.action {
            LibraryAction::Save(e) => worth_keeping(e),
            LibraryAction::Update(e) => worth_keeping(e) && e.added_at == existing->Some_0.added_at,
            _ => true,
        },
        remove_favorite_spec(existing, user_id, game_id) matches Ok(c) ==> match c.action {
            LibraryAction::Save(e) => worth_keeping(e),
            LibraryAction::Update(e) => worth_keeping(e) && e.added_at == existing->Some_0.added_at,
            _ => true,
        },
{
}

/// The stored text of each status.
pub open spec fn status_text_of(status: GameStatus) -> Seq<char> {
    match status {
        GameStatus::Unset => "NONE"@,
        GameStatus::WantToPlay => "WANT_TO_PLAY"@,
        GameStatus::Playing => "PLAYING"@,
        GameStatus::Completed => "COMPLETED"@,
    }
}

/// The status that a stored text stands for; an unknown text reads as no status.
pub open spec fn status_of_text(s: Seq<char>) -> GameStatus {
    if s == "WANT_TO_PLAY"@ {
        GameStatus::WantToPlay
    } else if s == "PLAYING"@ {
        GameStatus::Playing
    } else if s == "COMPLETED"@ {
        GameStatus::Completed
    } else {
        GameStatus::Unset
    }
}

/// The text under which a status is stored.
pub fn status_text(status: GameStatus) -> (r: String)
    ensures
        r@ == status_text_of(status),
{
    match status {
        GameStatus::Unset => String::from_str("NONE"),
        GameStatus::WantToPlay => String::from_str("WANT_TO_PLAY"),
        GameStatus::Playing => String::from_str("PLAYING"),
        GameStatus::Completed => String::from_str("COMPLETED"),
    }
}

/// Reads a stored status text.
pub fn parse_status(status_str: &str) -> (r: GameStatus)
    ensures
        r == status_of_text(status_str@),
{
    let s = String::from_str(status_str);
    if s == String::from_str("WANT_TO_PLAY") {
        GameStatus::WantToPlay
    } else if s == String::from_str("PLAYING") {
        GameStatus::Playing
    } else if s == String::from_str("COMPLETED") {
        GameStatus::Completed
    } else {
        GameStatus::Unset
    }
}

/// Every status reads back as itself from its stored text.
pub proof fn lemma_status_text_round_trip(status: GameStatus)
    ensures
        status_of_text(status_text_of(status)) == status,
{
    reveal_strlit("NONE");
    reveal_strlit("WANT_TO_PLAY");
    reveal_strlit("PLAYING");
    reveal_strlit("COMPLETED");
    assert("NONE"@.len() == 4);
    assert("WANT_TO_PLAY"@.len() == 12);
    assert("PLAYING"@.len() == 7);
    assert("COMPLETED"@.len() == 9);
}

} // verus!
