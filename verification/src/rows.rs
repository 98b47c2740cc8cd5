//! The row table and its companion color table: the data the relocated
//! pointers point at. A row is built once at process start from its column
//! entries; its active column count is derived from where the empty-column
//! sentinel first appears among the declared break positions.

use vstd::prelude::*;

verus! {

/// How many column entries one row can hold.
pub const ROW_CAPACITY: usize = 5;

/// The sentinel game id that marks an unused column entry.
pub const EMPTY_COLUMN_ID: u16 = 0x101;

/// The active column count derived from a row's column entries: the sentinel
/// can cut a row short after one, three or four columns; otherwise all five
/// are active.
pub open spec fn derived_column_count(column_game_ids: [u16; 5]) -> usize {
    if column_game_ids@[1] == EMPTY_COLUMN_ID {
        1
    } else if column_game_ids@[3] == EMPTY_COLUMN_ID {
        3
    } else if column_game_ids@[4] == EMPTY_COLUMN_ID {
        4
    } else {
        5
    }
}

/// One row of the gallery table: a set of unlockable entries displayed
/// together. `category_high` and `category_low` form the composite key that
/// resolves the unlock state of the row's gate entries.
#[derive(Clone, Copy, Debug)]
pub struct MuseumRow {
    pub active_column_count: usize,
    pub column_game_ids: [u16; 5],
    pub label_reference: u32,
    pub category_high: u32,
    pub category_low: u32,
}

impl MuseumRow {
    /// A row never claims more active columns than it can hold.
    pub open spec fn wf(self) -> bool {
        self.active_column_count <= ROW_CAPACITY
    }

    /// Builds a row from its column entries, deriving the active column count
    /// from where the empty-column sentinel stands.
    pub fn new(
        column_game_ids: [u16; 5],
        label_reference: u32,
        category_high: u32,
        category_low: u32,
    ) -> (row: MuseumRow)
        ensures
            row.active_column_count == derived_column_count(column_game_ids),
            row.column_game_ids == column_game_ids,
            row.label_reference == label_reference,
            row.category_high == category_high,
            row.category_low == category_low,
            row.wf(),
    {
        let active_column_count: usize = if column_game_ids[1] == EMPTY_COLUMN_ID {
            1
        } else if column_game_ids[3] == EMPTY_COLUMN_ID {
            3
        } else if column_game_ids[4] == EMPTY_COLUMN_ID {
            4
        } else {
            5
        };
        MuseumRow {
            active_column_count,
            column_game_ids,
            label_reference,
            category_high,
            category_low,
        }
    }
}

/// The ordered, fixed-length row table, built once at process start and
/// immutable thereafter. Index space is `0..len`, and `len` itself is a valid
/// sentinel search input meaning "one past the last row".
pub struct RowTable {
    pub rows: Vec<MuseumRow>,
}

impl RowTable {
    /// Every row of the table is well formed.
    pub open spec fn wf(self) -> bool {
        forall|i: int| 0 <= i < self.rows@.len() ==> (#[trigger] self.rows@[i]).wf()
    }

    /// Builds the table from its rows.
    pub fn new(rows: Vec<MuseumRow>) -> (t: RowTable)
        requires
            forall|i: int| 0 <= i < rows@.len() ==> (#[trigger] rows@[i]).wf(),
        ensures
            t.rows@ == rows@,
            t.wf(),
    {
        RowTable { rows }
    }

    /// The table length.
    pub fn len(&self) -> (n: usize)
        ensures
            n == self.rows@.len(),
    {
        self.rows.len()
    }
}

/// One RGBA color, a byte per channel.
#[derive(Clone, Copy, Debug, PartialEq, Eq, Structural)]
pub struct Color8 {
    pub r: u8,
    pub g: u8,
    pub b: u8,
    pub a: u8,
}

impl core::convert::From<[u8; 4]> for Color8 {
    /// Reads a color from its four channel bytes, in r, g, b, a order.
    fn from(array: [u8; 4]) -> (c: Color8) {
        Color8 { r: array[0], g: array[1], b: array[2], a: array[3] }
    }
}

impl vstd::std_specs::convert::FromSpecImpl<[u8; 4]> for Color8 {
    open spec fn obeys_from_spec() -> bool {
        true
    }

    open spec fn from_spec(array: [u8; 4]) -> Color8 {
        Color8 { r: array@[0], g: array@[1], b: array@[2], a: array@[3] }
    }
}

/// The fixed first color every row's color entry carries.
pub open spec fn fixed_leading_color() -> Color8 {
    Color8 { r: 0x00, g: 0x00, b: 0x00, a: 0x00 }
}

/// The fixed last color every row's color entry carries.
pub open spec fn fixed_trailing_color() -> Color8 {
    Color8 { r: 0xFF, g: 0xFF, b: 0xFF, a: 0x6E }
}

/// One entry of the companion color table, index-aligned with the row table:
/// two independently specified colors, between two colors every row shares.
#[derive(Clone, Copy, Debug, PartialEq, Eq, Structural)]
pub struct MuseumRowColor {
    pub leading: Color8,
    pub background: Color8,
    pub edge_fade: Color8,
    pub trailing: Color8,
}

impl MuseumRowColor {
    /// Builds a color entry from the row's own background and edge-fade
    /// colors; the leading and trailing colors are the shared constants.
    pub fn new(background: Color8, edge_fade: Color8) -> (c: MuseumRowColor)
        ensures
            c.background == background,
            c.edge_fade == edge_fade,
            c.leading == fixed_leading_color(),
            c.trailing == fixed_trailing_color(),
    {
        MuseumRowColor {
            leading: Color8 { r: 0x00, g: 0x00, b: 0x00, a: 0x00 },
            background,
            edge_fade,
            trailing: Color8 { r: 0xFF, g: 0xFF, b: 0xFF, a: 0x6E },
        }
    }
}

} // verus!
