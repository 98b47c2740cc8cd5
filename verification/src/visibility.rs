//! The directional row-visibility search installed as the replacement
//! algorithm, together with the read-only view of the externally owned save
//! state it consults. A row is visible when any of its active column entries
//! resolves to a visible game; a game resolves through one of two disjoint
//! paths, by its save-tracked rank or, at and above a fixed id threshold, by
//! its owning row's gate state under that row's composite category key.

use vstd::prelude::*;

use crate::rows::{MuseumRow, RowTable};
use crate::PatchError;

verus! {

/// First game id resolved through a gate state instead of the rank path.
pub const GATE_GAME_ID_THRESHOLD: u16 = 0x68;

/// A gate entry is visible only when its raw gate state is strictly greater
/// than this value. Only this boundary of the raw byte is understood; the
/// meaning of the values at or below it is an open question upstream.
pub const GATE_STATE_THRESHOLD: u8 = 1;

/// The per-save rank of one game, ordered from unknown to perfect.
#[derive(Clone, Copy, Debug, PartialEq, Eq, Structural)]
pub enum GameRank {
    Unknown,
    UnfinishedStory,
    UnfinishedShop,
    NotGood,
    Okay,
    High,
    Perfect,
}

impl GameRank {
    /// The rank's position in the enumeration order.
    pub open spec fn ordinal_spec(self) -> int {
        match self {
            GameRank::Unknown => 0,
            GameRank::UnfinishedStory => 1,
            GameRank::UnfinishedShop => 2,
            GameRank::NotGood => 3,
            GameRank::Okay => 4,
            GameRank::High => 5,
            GameRank::Perfect => 6,
        }
    }

    /// The rank's position in the enumeration order.
    pub fn ordinal(&self) -> (r: u32)
        ensures
            r as int == self.ordinal_spec(),
    {
        match self {
            GameRank::Unknown => 0,
            GameRank::UnfinishedStory => 1,
            GameRank::UnfinishedShop => 2,
            GameRank::NotGood => 3,
            GameRank::Okay => 4,
            GameRank::High => 5,
            GameRank::Perfect => 6,
        }
    }
}

/// The externally owned save state, read-only to this core: the tracked rank
/// of each game, indexed by game id, and the raw gate-state bytes, keyed by
/// the composite (high, low) category key. A game id or key the save does not
/// track resolves to the unknown rank and to a zero gate state.
pub struct SaveState {
    pub ranks: Vec<GameRank>,
    pub gate_states: Vec<Vec<u8>>,
}

impl SaveState {
    /// The save-tracked rank of `game_id`.
    pub open spec fn rank_spec(self, game_id: u16) -> GameRank {
        if game_id < self.ranks@.len() {
            self.ranks@[game_id as int]
        } else {
            GameRank::Unknown
        }
    }

    /// The raw gate state under the composite key `(high, low)`.
    pub open spec fn gate_state_spec(self, high: u32, low: u32) -> u8 {
        if high < self.gate_states@.len() && low < self.gate_states@[high as int]@.len() {
            self.gate_states@[high as int]@[low as int]
        } else {
            0
        }
    }

    /// Looks up the save-tracked rank of `game_id`.
    pub fn rank_of(&self, game_id: u16) -> (r: GameRank)
        ensures
            r == self.rank_spec(game_id),
    {
        if (game_id as usize) < self.ranks.len() {
            self.ranks[game_id as usize]
        } else {
            GameRank::Unknown
        }
    }

    /// Looks up the raw gate state under the composite key `(high, low)`.
    pub fn gate_state_of(&self, high: u32, low: u32) -> (r: u8)
        ensures
            r == self.gate_state_spec(high, low),
    {
        if (high as usize) < self.gate_states.len() {
            let states = &self.gate_states[high as usize];
            if (low as usize) < states.len() {
                states[low as usize]
            } else {
                0
            }
        } else {
            0
        }
    }
}

/// True when `game_id` stands among the row's active column entries.
pub open spec fn row_contains_game(row: MuseumRow, game_id: u16) -> bool {
    exists|j: int|
        0 <= j < row.active_column_count && row.column_game_ids@[j] == game_id
}

impl MuseumRow {
    /// Decides whether `game_id` stands among this row's active columns.
    pub fn contains_game(&self, game_id: u16) -> (b: bool)
        requires
            self.wf(),
        ensures
            b == row_contains_game(*self, game_id),
    {
        let mut j: usize = 0;
        while j < self.active_column_count
            invariant
                self.wf(),
                j <= self.active_column_count,
                forall|k: int| 0 <= k < j ==> self.column_game_ids@[k] != game_id,
            decreases self.active_column_count - j,
        {
            if self.column_game_ids[j] == game_id {
                return true;
            }
            j = j + 1;
        }
        false
    }
}

/// The first row at or after position `i` whose active columns hold
/// `game_id`, if any row does.
pub open spec fn find_row_from(t: RowTable, game_id: u16, i: int) -> Option<int>
    decreases t.rows@.len() - i,
{
    if i < 0 || i >= t.rows@.len() {
        None
    } else if row_contains_game(t.rows@[i], game_id) {
        Some(i)
    } else {
        find_row_from(t, game_id, i + 1)
    }
}

/// The owning row of `game_id`: the first row whose active columns hold it.
pub open spec fn find_row_spec(t: RowTable, game_id: u16) -> Option<int> {
    find_row_from(t, game_id, 0)
}

/// Resolves the owning row of `game_id`: the first row of the table whose
/// active columns hold it, or nothing when no row does.
pub fn find_row_with_game(table: &RowTable, game_id: u16) -> (r: Option<usize>)
    requires
        table.wf(),
    ensures
        r matches Some(i) ==> i < table.rows@.len() && find_row_spec(*table, game_id) == Some(
            i as int,
        ),
        r is None ==> find_row_spec(*table, game_id) == None::<int>,
{
    let mut i: usize = 0;
    while i < table.rows.len()
        invariant
            table.wf(),
            i <= table.rows@.len(),
            find_row_from(*table, game_id, 0) == find_row_from(*table, game_id, i as int),
        decreases table.rows@.len() - i,
    {
        if table.rows[i].contains_game(game_id) {
            return Some(i);
        }
        i = i + 1;
    }
    None
}

/// True when `game_id` resolves to a visible game: at and above the id
/// threshold, through its owning row's gate state (held against the strict
/// boundary), and below it, through its save-tracked rank.
pub open spec fn game_visible(t: RowTable, s: SaveState, game_id: u16) -> bool {
    if game_id >= GATE_GAME_ID_THRESHOLD {
        match find_row_spec(t, game_id) {
            Some(i) => s.gate_state_spec(t.rows@[i].category_high, t.rows@[i].category_low)
                > GATE_STATE_THRESHOLD,
            None => false,
        }
    } else {
        s.rank_spec(game_id).ordinal_spec() >= GameRank::UnfinishedShop.ordinal_spec()
    }
}

/// Decides whether `game_id` resolves to a visible game.
pub fn game_is_visible(table: &RowTable, save: &SaveState, game_id: u16) -> (b: bool)
    requires
        table.wf(),
    ensures
        b == game_visible(*table, *save, game_id),
{
    if game_id >= GATE_GAME_ID_THRESHOLD {
        match find_row_with_game(table, game_id) {
            Some(i) => {
                let row = &table.rows[i];
                save.gate_state_of(row.category_high, row.category_low) > GATE_STATE_THRESHOLD
            },
            None => false,
        }
    } else {
        save.rank_of(game_id).ordinal() >= 2
    }
}

/// True when the row at `i` is visible: never when it has no active columns,
/// and otherwise exactly when one of its active column entries resolves to a
/// visible game.
pub open spec fn row_visible(t: RowTable, s: SaveState, i: int) -> bool {
    exists|j: int|
        0 <= j < t.rows@[i].active_column_count && game_visible(
            t,
            s,
            t.rows@[i].column_game_ids@[j],
        )
}

/// Decides whether the row at `index` is visible.
pub fn is_visible(table: &RowTable, save: &SaveState, index: usize) -> (b: bool)
    requires
        table.wf(),
        index < table.rows@.len(),
    ensures
        b == row_visible(*table, *save, index as int),
{
    let count = table.rows[index].active_column_count;
    let mut j: usize = 0;
    while j < count
        invariant
            table.wf(),
            index < table.rows@.len(),
            count == table.rows@[index as int].active_column_count,
            j <= count,
            forall|k: int|
                0 <= k < j ==> !game_visible(
                    *table,
                    *save,
                    table.rows@[index as int].column_game_ids@[k],
                ),
        decreases count - j,
    {
        let id = table.rows[index].column_game_ids[j];
        if game_is_visible(table, save, id) {
            return true;
        }
        j = j + 1;
    }
    false
}

/// Law: a row with no active columns is never visible, whatever the external
/// save state holds.
pub proof fn lemma_empty_row_never_visible(t: RowTable, s: SaveState, i: int)
    requires
        0 <= i < t.rows@.len(),
        t.rows@[i].active_column_count == 0,
    ensures
        !row_visible(t, s, i),
{
}

/// The direction of one search step.
#[derive(Clone, Copy, Debug, PartialEq, Eq, Structural)]
pub enum SearchDirection {
    Up,
    Down,
}

/// The first visible row at or after position `j`, if any.
pub open spec fn first_visible_up(t: RowTable, s: SaveState, j: int) -> Option<int>
    decreases t.rows@.len() - j,
{
    if j < 0 || j >= t.rows@.len() {
        None
    } else if row_visible(t, s, j) {
        Some(j)
    } else {
        first_visible_up(t, s, j + 1)
    }
}

/// The last visible row at or before position `j`, if any.
pub open spec fn last_visible_down(t: RowTable, s: SaveState, j: int) -> Option<int>
    decreases j + 1,
{
    if j < 0 {
        None
    } else if j < t.rows@.len() && row_visible(t, s, j) {
        Some(j)
    } else {
        last_visible_down(t, s, j - 1)
    }
}

/// The index the directional search returns for the admissible input `i`:
/// upward, the first visible row strictly after `i`, with index zero as the
/// unconditional fallback; downward, the last visible row strictly before
/// `i`, falling back to the last visible row anywhere in the table, and to
/// index zero when no row at all is visible.
pub open spec fn next_row_index(t: RowTable, s: SaveState, i: int, d: SearchDirection) -> int {
    match d {
        SearchDirection::Up => match first_visible_up(t, s, i + 1) {
            Some(j) => j,
            None => 0,
        },
        SearchDirection::Down => match last_visible_down(t, s, i - 1) {
            Some(j) => j,
            None => match last_visible_down(t, s, t.rows@.len() - 1) {
                Some(j) => j,
                None => 0,
            },
        },
    }
}

/// The directional search over the row table. An index above the sentinel
/// (one past the last row) is rejected as out of range; any admissible index
/// resolves to the row `next_row_index` names.
pub fn next_row(
    table: &RowTable,
    save: &SaveState,
    current_index: usize,
    direction: SearchDirection,
) -> (r: Result<usize, PatchError>)
    requires
        table.wf(),
    ensures
        current_index > table.rows@.len() ==> r == Err::<usize, PatchError>(PatchError::OutOfRange),
        current_index <= table.rows@.len() ==> (r matches Ok(j) && j as int == next_row_index(
            *table,
            *save,
            current_index as int,
            direction,
        )),
{
    let n = table.rows.len();
    if current_index > n {
        return Err(PatchError::OutOfRange);
    }
    match direction {
        SearchDirection::Up => {
            if current_index >= n {
                return Ok(0);
            }
            let mut j = current_index + 1;
            while j < n
                invariant
                    direction == SearchDirection::Up,
                    table.wf(),
                    n == table.rows@.len(),
                    current_index < n,
                    current_index < j <= n,
                    first_visible_up(*table, *save, current_index as int + 1) == first_visible_up(
                        *table,
                        *save,
                        j as int,
                    ),
                decreases n - j,
            {
                if is_visible(table, save, j) {
                    return Ok(j);
                }
                j = j + 1;
            }
            Ok(0)
        },
        SearchDirection::Down => {
            let mut j = current_index;
            while j > 0
                invariant
                    direction == SearchDirection::Down,
                    table.wf(),
                    n == table.rows@.len(),
                    j <= current_index <= n,
                    last_visible_down(*table, *save, current_index as int - 1) == last_visible_down(
                        *table,
                        *save,
                        j as int - 1,
                    ),
                decreases j,
            {
                j = j - 1;
                if is_visible(table, save, j) {
                    return Ok(j);
                }
            }
            let mut k = n;
            while k > 0
                invariant
                    direction == SearchDirection::Down,
                    table.wf(),
                    n == table.rows@.len(),
                    current_index <= n,
                    k <= n,
                    last_visible_down(*table, *save, current_index as int - 1) == None::<int>,
                    last_visible_down(*table, *save, n as int - 1) == last_visible_down(
                        *table,
                        *save,
                        k as int - 1,
                    ),
                decreases k,
            {
                k = k - 1;
                if is_visible(table, save, k) {
                    return Ok(k);
                }
            }
            Ok(0)
        },
    }
}

/// Where the first visible row at or after `j0` stands: inside the table,
/// visible, and with nothing visible between `j0` and it; and when the scan
/// comes back empty, nothing at or after `j0` is visible.
pub proof fn lemma_first_visible_up_props(t: RowTable, s: SaveState, j0: int)
    requires
        0 <= j0,
    ensures
        match first_visible_up(t, s, j0) {
            Some(j) => j0 <= j < t.rows@.len() && row_visible(t, s, j) && (forall|k: int|
                j0 <= k < j ==> !row_visible(t, s, k)),
            None => forall|k: int| j0 <= k < t.rows@.len() ==> !row_visible(t, s, k),
        },
    decreases t.rows@.len() - j0,
{
    if j0 < t.rows@.len() && !row_visible(t, s, j0) {
        lemma_first_visible_up_props(t, s, j0 + 1);
    }
}

/// Where the last visible row at or before `j0` stands: inside the table,
/// visible, and with nothing visible between it and `j0`; and when the scan
/// comes back empty, nothing at or before `j0` is visible.
pub proof fn lemma_last_visible_down_props(t: RowTable, s: SaveState, j0: int)
    ensures
        match last_visible_down(t, s, j0) {
            Some(j) => 0 <= j <= j0 && j < t.rows@.len() && row_visible(t, s, j) && (forall|k: int|
                j < k <= j0 && k < t.rows@.len() ==> !row_visible(t, s, k)),
            None => forall|k: int| 0 <= k <= j0 && k < t.rows@.len() ==> !row_visible(t, s, k),
        },
    decreases j0 + 1,
{
    if j0 >= 0 && !(j0 < t.rows@.len() && row_visible(t, s, j0)) {
        lemma_last_visible_down_props(t, s, j0 - 1);
    }
}

/// Law: for every table length and every admissible index, the upward search
/// resolves either to a strictly greater index of a visible row inside the
/// table, or to exactly zero.
pub proof fn lemma_next_row_up_bounds(t: RowTable, s: SaveState, i: int)
    requires
        0 <= i <= t.rows@.len(),
    ensures
        ({
            let j = next_row_index(t, s, i, SearchDirection::Up);
            j == 0 || (i < j < t.rows@.len() && row_visible(t, s, j))
        }),
{
    lemma_first_visible_up_props(t, s, i + 1);
}

/// Law: the downward search from index zero exhausts its range at once and
/// falls back to the greatest visible index of the whole table, or to zero
/// when no row at all is visible.
pub proof fn lemma_next_row_down_from_zero(t: RowTable, s: SaveState)
    ensures
        ({
            let j = next_row_index(t, s, 0, SearchDirection::Down);
            if exists|k: int| 0 <= k < t.rows@.len() && row_visible(t, s, k) {
                &&& 0 <= j < t.rows@.len()
                &&& row_visible(t, s, j)
                &&& forall|k: int| j < k < t.rows@.len() ==> !row_visible(t, s, k)
            } else {
                j == 0
            }
        }),
{
    lemma_last_visible_down_props(t, s, t.rows@.len() - 1);
}

/// Bounds of the search result on every admissible input: it stays inside
/// the table, or is the zero fallback.
pub proof fn lemma_next_row_index_bounds(t: RowTable, s: SaveState, i: int, d: SearchDirection)
    requires
        0 <= i <= t.rows@.len(),
    ensures
        ({
            let j = next_row_index(t, s, i, d);
            0 <= j && (j == 0 || j < t.rows@.len())
        }),
{
    match d {
        SearchDirection::Up => {
            lemma_first_visible_up_props(t, s, i + 1);
        },
        SearchDirection::Down => {
            lemma_last_visible_down_props(t, s, i - 1);
            lemma_last_visible_down_props(t, s, t.rows@.len() - 1);
        },
    }
}

/// The raw boundary form of the search: the hooked call site in the host is
/// uninstrumented foreign code expecting a plain integer return value, so an
/// out-of-range input maps to a negative sentinel instead of a structured
/// error.
pub fn next_row_sentinel(
    table: &RowTable,
    save: &SaveState,
    current_index: usize,
    direction: SearchDirection,
) -> (r: i32)
    requires
        table.wf(),
        table.rows@.len() < 0x8000_0000,
    ensures
        current_index > table.rows@.len() ==> r == -1,
        current_index <= table.rows@.len() ==> r as int == next_row_index(
            *table,
            *save,
            current_index as int,
            direction,
        ),
{
    match next_row(table, save, current_index, direction) {
        Ok(j) => {
            proof {
                lemma_next_row_index_bounds(
                    *table,
                    *save,
                    current_index as int,
                    direction,
                );
            }
            j as i32
        },
        Err(_) => -1,
    }
}

} // verus!
