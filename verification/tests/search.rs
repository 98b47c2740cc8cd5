use injection::rows::{MuseumRow, RowTable, EMPTY_COLUMN_ID};
use injection::visibility::{
    find_row_with_game, game_is_visible, is_visible, next_row, next_row_sentinel, GameRank,
    SaveState, SearchDirection,
};
use injection::PatchError;

const E: u16 = EMPTY_COLUMN_ID;

/// A row whose single active column holds `game_id`.
fn single_game_row(game_id: u16, high: u32, low: u32) -> MuseumRow {
    MuseumRow::new([game_id, E, E, E, E], 0x50_2000, high, low)
}

/// A table of `n` rows where row `i` holds exactly the game id `i`.
fn diagonal_table(n: u16) -> RowTable {
    let mut rows = Vec::new();
    for i in 0..n {
        rows.push(single_game_row(i, 0, 0));
    }
    RowTable::new(rows)
}

/// A save whose ranks make exactly the given game ids visible through the
/// rank path.
fn save_with_visible_games(len: usize, visible: &[u16]) -> SaveState {
    let mut ranks = vec![GameRank::Unknown; len];
    for &id in visible {
        ranks[id as usize] = GameRank::Perfect;
    }
    SaveState { ranks, gate_states: Vec::new() }
}

fn empty_save() -> SaveState {
    SaveState { ranks: Vec::new(), gate_states: Vec::new() }
}

#[test]
fn rank_path_visibility_threshold() {
    let table = diagonal_table(7);
    let ranks = vec![
        GameRank::Unknown,
        GameRank::UnfinishedStory,
        GameRank::UnfinishedShop,
        GameRank::NotGood,
        GameRank::Okay,
        GameRank::High,
        GameRank::Perfect,
    ];
    let save = SaveState { ranks, gate_states: Vec::new() };
    assert!(!game_is_visible(&table, &save, 0));
    assert!(!game_is_visible(&table, &save, 1));
    assert!(game_is_visible(&table, &save, 2));
    assert!(game_is_visible(&table, &save, 3));
    assert!(game_is_visible(&table, &save, 4));
    assert!(game_is_visible(&table, &save, 5));
    assert!(game_is_visible(&table, &save, 6));
}

#[test]
fn rank_path_untracked_game_is_unknown() {
    let table = diagonal_table(4);
    let save = save_with_visible_games(2, &[]);
    assert!(!game_is_visible(&table, &save, 3));
}

#[test]
fn gate_path_uses_owning_row_key_and_strict_threshold() {
    // Game 0x68 sits in a row keyed (1, 2); its gate byte must be strictly
    // greater than the threshold for the game to be visible.
    let rows = vec![single_game_row(0x20, 0, 0), single_game_row(0x68, 1, 2)];
    let table = RowTable::new(rows);
    let gates = |state: u8| SaveState {
        ranks: Vec::new(),
        gate_states: vec![vec![0, 0, 0], vec![0, 0, state]],
    };
    assert!(game_is_visible(&table, &gates(2), 0x68));
    assert!(game_is_visible(&table, &gates(0xFF), 0x68));
    assert!(!game_is_visible(&table, &gates(1), 0x68));
    assert!(!game_is_visible(&table, &gates(0), 0x68));
}

#[test]
fn gate_path_without_owning_row_is_invisible() {
    let table = diagonal_table(3);
    let save = SaveState {
        ranks: vec![GameRank::Perfect; 0x200],
        gate_states: vec![vec![0xFF; 8]; 8],
    };
    // 0x80 is at or above the id threshold but no row holds it.
    assert!(!game_is_visible(&table, &save, 0x80));
}

#[test]
fn find_row_with_game_returns_first_owner() {
    let rows = vec![
        single_game_row(5, 0, 0),
        single_game_row(9, 0, 1),
        single_game_row(9, 0, 2),
    ];
    let table = RowTable::new(rows);
    assert_eq!(find_row_with_game(&table, 9), Some(1));
    assert_eq!(find_row_with_game(&table, 5), Some(0));
    assert_eq!(find_row_with_game(&table, 7), None);
}

#[test]
fn find_row_ignores_inactive_columns() {
    // The sentinel cuts the row to one active column, so the id parked in an
    // inactive column is not owned by the row.
    let rows = vec![MuseumRow::new([3, E, 4, E, E], 0x50_2000, 0, 0)];
    let table = RowTable::new(rows);
    assert_eq!(find_row_with_game(&table, 4), None);
}

#[test]
fn empty_row_is_never_visible() {
    // A 29-row table whose row 5 claims no active columns: not visible even
    // with every rank perfect and every gate byte maxed.
    let mut rows = Vec::new();
    for i in 0..29u16 {
        rows.push(single_game_row(i, 0, i as u32));
    }
    rows[5] = MuseumRow {
        active_column_count: 0,
        column_game_ids: [5, 5, 5, 5, 5],
        label_reference: 0x50_2000,
        category_high: 0,
        category_low: 5,
    };
    let table = RowTable::new(rows);
    let generous = SaveState {
        ranks: vec![GameRank::Perfect; 0x200],
        gate_states: vec![vec![0xFF; 64]; 64],
    };
    assert!(!is_visible(&table, &generous, 5));
    assert!(!is_visible(&table, &empty_save(), 5));
    assert!(is_visible(&table, &generous, 4));
}

#[test]
fn next_row_rejects_index_past_sentinel() {
    let table = diagonal_table(29);
    let save = empty_save();
    assert_eq!(next_row(&table, &save, 30, SearchDirection::Up), Err(PatchError::OutOfRange));
    assert_eq!(next_row(&table, &save, 30, SearchDirection::Down), Err(PatchError::OutOfRange));
    // The table length itself is the valid "one past the last row" sentinel.
    assert!(next_row(&table, &save, 29, SearchDirection::Up).is_ok());
}

#[test]
fn next_row_up_finds_first_visible_above() {
    let table = diagonal_table(29);
    let save = save_with_visible_games(29, &[3, 7]);
    assert_eq!(next_row(&table, &save, 0, SearchDirection::Up), Ok(3));
    assert_eq!(next_row(&table, &save, 2, SearchDirection::Up), Ok(3));
    assert_eq!(next_row(&table, &save, 3, SearchDirection::Up), Ok(7));
    assert_eq!(next_row(&table, &save, 6, SearchDirection::Up), Ok(7));
}

#[test]
fn next_row_up_exhausted_falls_back_to_zero() {
    let table = diagonal_table(29);
    let save = save_with_visible_games(29, &[3]);
    // Nothing visible above 3: the fallback is 0 even though row 0 is itself
    // not visible.
    assert_eq!(next_row(&table, &save, 3, SearchDirection::Up), Ok(0));
    assert_eq!(next_row(&table, &save, 28, SearchDirection::Up), Ok(0));
    assert_eq!(next_row(&table, &save, 29, SearchDirection::Up), Ok(0));
    assert_eq!(next_row(&table, &empty_save(), 10, SearchDirection::Up), Ok(0));
}

#[test]
fn next_row_down_finds_first_visible_below() {
    let table = diagonal_table(29);
    let save = save_with_visible_games(29, &[3, 7]);
    assert_eq!(next_row(&table, &save, 29, SearchDirection::Down), Ok(7));
    assert_eq!(next_row(&table, &save, 7, SearchDirection::Down), Ok(3));
    assert_eq!(next_row(&table, &save, 4, SearchDirection::Down), Ok(3));
}

#[test]
fn next_row_down_from_zero_wraps_to_greatest_visible() {
    let table = diagonal_table(29);
    let save = save_with_visible_games(29, &[3, 7]);
    // Decrementing 0 exits the valid range at once; the fallback scan from the
    // top finds the greatest visible index.
    assert_eq!(next_row(&table, &save, 0, SearchDirection::Down), Ok(7));
    assert_eq!(next_row(&table, &save, 3, SearchDirection::Down), Ok(7));
}

#[test]
fn next_row_down_without_any_visible_row_yields_zero() {
    let table = diagonal_table(29);
    assert_eq!(next_row(&table, &empty_save(), 0, SearchDirection::Down), Ok(0));
    assert_eq!(next_row(&table, &empty_save(), 29, SearchDirection::Down), Ok(0));
}

#[test]
fn next_row_on_empty_table() {
    let table = RowTable::new(Vec::new());
    let save = empty_save();
    assert_eq!(next_row(&table, &save, 0, SearchDirection::Up), Ok(0));
    assert_eq!(next_row(&table, &save, 0, SearchDirection::Down), Ok(0));
    assert_eq!(next_row(&table, &save, 1, SearchDirection::Up), Err(PatchError::OutOfRange));
}

#[test]
fn next_row_sentinel_maps_errors_to_negative() {
    let table = diagonal_table(29);
    let save = save_with_visible_games(29, &[7]);
    assert_eq!(next_row_sentinel(&table, &save, 30, SearchDirection::Up), -1);
    assert_eq!(next_row_sentinel(&table, &save, 0, SearchDirection::Up), 7);
    assert_eq!(next_row_sentinel(&table, &save, 7, SearchDirection::Up), 0);
}

#[test]
fn rank_ordinals_follow_the_enumeration_order() {
    let order = [
        GameRank::Unknown,
        GameRank::UnfinishedStory,
        GameRank::UnfinishedShop,
        GameRank::NotGood,
        GameRank::Okay,
        GameRank::High,
        GameRank::Perfect,
    ];
    for (i, rank) in order.iter().enumerate() {
        assert_eq!(rank.ordinal() as usize, i);
    }
}
