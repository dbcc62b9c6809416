use vstd::prelude::*;

use crate::rng::{rand, rand_spec, reserved_color, lemma_redraw_ends, safe_add, add1, sub1};
use crate::screen::{
    Cell, CellKind, Screen, classify, kind_of, cell_at, cell_index, on_screen, blank_cell,
    lemma_cell_index, lemma_cell_index_injective, build_screen, col_of, row_of,
    lemma_index_coords, BUFFER_WIDTH, BUFFER_HEIGHT, BLACK, GREEN, CYAN,
    PINK, WHITE, COLLECTIBLE_COLOR, MARKER_COLOR,
};

verus! {

/// Number of colors in a level's palette.
pub const PALETTE_LEN: usize = 13;

/// Collections since the last level-up that trigger the next one.
pub const LEVEL_THRESHOLD: usize = 3;

/// Collectibles placed on each new level.
pub const COLLECTIBLES_PER_LEVEL: usize = 10;

/// Columns over which collectibles are scattered.
pub const PLACEMENT_COLUMNS: usize = BUFFER_WIDTH - 1;

/// Column and row of the screen's center, where the player starts.
pub const CENTER_COL: usize = BUFFER_WIDTH / 2;
pub const CENTER_ROW: usize = BUFFER_HEIGHT / 2;

/// The state of a game as plain mathematical values.
pub struct GameModel {
    pub colors: Seq<u8>,
    pub randv: usize,
    pub collection: usize,
    pub current_collection: usize,
    pub level: usize,
    pub col: usize,
    pub row: usize,
    pub dx: usize,
    pub dy: usize,
    pub active: bool,
    pub screen: Seq<Cell>,
}

/// A usable palette: thirteen colors, none of them one of the two colors that
/// carry meaning on the screen.
pub open spec fn palette_ok(colors: Seq<u8>) -> bool {
    &&& colors.len() == PALETTE_LEN
    &&& forall|k: int|
        0 <= k < PALETTE_LEN ==> #[trigger] colors[k] < 16 && !reserved_color(colors[k] as usize)
}

/// Well-formed game state: everything in range.
pub open spec fn game_wf(m: GameModel) -> bool {
    &&& palette_ok(m.colors)
    &&& m.screen.len() == BUFFER_WIDTH * BUFFER_HEIGHT
    &&& m.col < BUFFER_WIDTH
    &&& m.row < BUFFER_HEIGHT
    &&& m.dx < BUFFER_WIDTH
    &&& m.dy < BUFFER_HEIGHT
}

/// The counters are far enough from `usize::MAX` for one more tick.
pub open spec fn has_room(m: GameModel) -> bool {
    &&& m.collection <= usize::MAX - 16
    &&& m.current_collection <= usize::MAX - 16
    &&& m.level <= usize::MAX - 16
    &&& m.randv <= usize::MAX - 128
}

// ---------------------------------------------------------------- palette

/// The first color not reserved among the draws from seeds `s`, `s + 1`, `s + 2`.
pub open spec fn palette_color(s: usize) -> u8 {
    if !reserved_color(rand_spec(s, 16)) {
        rand_spec(s, 16) as u8
    } else if !reserved_color(rand_spec((s + 1) as usize, 16)) {
        rand_spec((s + 1) as usize, 16) as u8
    } else {
        rand_spec((s + 2) as usize, 16) as u8
    }
}

/// The palette that a level with offset `randv` uses.
pub open spec fn palette(randv: usize) -> Seq<u8> {
    Seq::new(PALETTE_LEN as nat, |i: int| palette_color((i + randv) as usize))
}

/// No palette built from an offset within range holds a reserved color.
pub proof fn lemma_palette_avoids_reserved(randv: usize)
    requires
        randv <= usize::MAX - 16,
    ensures
        palette_ok(palette(randv)),
{
    assert forall|k: int| 0 <= k < PALETTE_LEN implies #[trigger] palette(randv)[k] < 16
        && !reserved_color(palette(randv)[k] as usize) by {
        lemma_redraw_ends((k + randv) as usize);
    }
}

/// The state with its palette rebuilt.
pub open spec fn set_color_model(m: GameModel) -> GameModel {
    GameModel { colors: palette(m.randv), ..m }
}

// ---------------------------------------------------------------- decoration

/// How many palette slots a level draws from: one more every five levels.
pub open spec fn spread(level: usize) -> int {
    1 + level / 5
}

/// Seed of the decoration draw for cell `(i, j)`.
pub open spec fn decoration_seed(level: usize, randv: usize, i: usize, j: usize) -> usize {
    level.wrapping_add((j * i) as usize).wrapping_add(randv)
}

/// The decoration painted at `(i, j)`: a glyph and a foreground / background
/// pair of neighbouring palette slots, all drawn from one seed.
pub open spec fn decoration(colors: Seq<u8>, level: usize, randv: usize, i: usize, j: usize) -> Cell {
    let s = decoration_seed(level, randv, i, j);
    let l = rand_spec(s, 12) as int % spread(level);
    let chr = rand_spec(s, 94) as int % spread(level);
    Cell { glyph: (chr + 32) as u8, foreground: colors[l], background: colors[l + 1] }
}

/// The state with every cell below the top row painted with its decoration.
pub open spec fn clear_model(m: GameModel) -> GameModel {
    GameModel {
        screen: build_screen(
            |i: usize, j: usize|
                if j >= 1 {
                    decoration(m.colors, m.level, m.randv, i, j)
                } else {
                    cell_at(m.screen, i as int, j as int)
                },
        ),
        ..m
    }
}

// ---------------------------------------------------------------- collectibles

/// Seed of the slot drawn for the `i`-th collectible.
pub open spec fn placement_seed(level: usize, randv: usize, i: usize) -> usize {
    i.wrapping_add(level.wrapping_mul(10)).wrapping_add(randv)
}

/// Seed of the glyph and color of the `i`-th collectible.
pub open spec fn collectible_seed(level: usize, randv: usize, i: usize) -> usize {
    level.wrapping_add(i).wrapping_add(randv)
}

/// The cell written for the `i`-th collectible: collectible foreground, a
/// palette background, or the collectible color too when the glyph draw is 0.
pub open spec fn collectible_cell(colors: Seq<u8>, level: usize, randv: usize, i: usize) -> Cell {
    let s = collectible_seed(level, randv, i);
    let l = rand_spec(s, 12) as int % spread(level);
    let chr = rand_spec(s, 94) as int % spread(level);
    Cell {
        glyph: (chr + 32) as u8,
        foreground: PINK,
        background: if chr == 0 {
            PINK
        } else {
            colors[l]
        },
    }
}

/// The state after placing the `i`-th collectible. The slot `x` is looked up
/// at `(x mod 79, x mod 25)` first: a collectible there counts as collected.
/// The new one is written at `(rand(x) mod 79, rand(x | 25) mod 25)`.
pub open spec fn place_model(m: GameModel, i: usize) -> GameModel {
    let x = rand_spec(placement_seed(m.level, m.randv, i), PLACEMENT_COLUMNS);
    let hit = cell_at(m.screen, x as int % PLACEMENT_COLUMNS as int, x as int % BUFFER_HEIGHT as int).foreground == COLLECTIBLE_COLOR;
    let pc = rand_spec(x, PLACEMENT_COLUMNS);
    let pr = rand_spec(x | 25usize, BUFFER_HEIGHT);
    GameModel {
        screen: m.screen.update(
            cell_index(pc as int, pr as int),
            collectible_cell(m.colors, m.level, m.randv, i),
        ),
        collection: if hit {
            (m.collection + 1) as usize
        } else {
            m.collection
        },
        current_collection: if hit {
            (m.current_collection + 1) as usize
        } else {
            m.current_collection
        },
        ..m
    }
}

/// The state after placing the first `n` collectibles in turn.
pub open spec fn populate_model(m: GameModel, n: nat) -> GameModel
    decreases n,
{
    if n == 0 {
        m
    } else {
        place_model(populate_model(m, (n - 1) as nat), (n - 1) as usize)
    }
}

// ---------------------------------------------------------------- levels

/// The state with the player back at the center.
pub open spec fn center_model(m: GameModel) -> GameModel {
    GameModel { col: CENTER_COL, row: CENTER_ROW, ..m }
}

/// A full regeneration: new palette, repainted grid, new collectibles,
/// player at the center.
pub open spec fn reset_model(m: GameModel) -> GameModel {
    center_model(populate_model(clear_model(set_color_model(m)), COLLECTIBLES_PER_LEVEL as nat))
}

/// Seed of the draw that grows the offset at a level-up.
pub open spec fn level_up_seed(m: GameModel) -> usize {
    m.col.wrapping_mul(m.level).wrapping_add(m.collection)
}

/// The state after the level check at the start of a tick.
pub open spec fn inc_level_model(m: GameModel) -> GameModel {
    if m.current_collection >= LEVEL_THRESHOLD {
        reset_model(
            GameModel {
                randv: (m.randv + rand_spec(level_up_seed(m), 100)) as usize,
                current_collection: 0,
                level: (m.level + 1) as usize,
                ..m
            },
        )
    } else {
        m
    }
}

// ---------------------------------------------------------------- frame

/// The digit glyph for `n`, the way the score and level counters show it.
pub open spec fn digit_glyph(n: int) -> u8 {
    (48 + n) as u8
}

/// A white-on-black counter digit.
pub open spec fn hud_cell(n: int) -> Cell {
    Cell { glyph: digit_glyph(n), foreground: WHITE, background: BLACK }
}

/// The start marker drawn at the center every frame.
pub open spec fn start_cell() -> Cell {
    Cell { glyph: 83, foreground: GREEN, background: PINK }
}

/// The player marker.
pub open spec fn marker_cell() -> Cell {
    Cell { glyph: 32, foreground: MARKER_COLOR, background: MARKER_COLOR }
}

/// What the frame redraw leaves at `(i, j)`: counters on the top row, the
/// start marker at the center, and a fresh decoration on every other cell
/// that is neither the player's nor a collectible.
pub open spec fn frame_cell(m: GameModel, i: usize, j: usize) -> Cell {
    frame_cell_from(m, cell_at(m.screen, i as int, j as int), i, j)
}

/// `frame_cell`, given the cell that was there before the redraw.
pub open spec fn frame_cell_from(m: GameModel, old_cell: Cell, i: usize, j: usize) -> Cell {
    if j == 0 {
        if i == 0 {
            hud_cell(((m.collection / 100) % 10) as int)
        } else if i == 1 {
            hud_cell(((m.collection / 10) % 10) as int)
        } else if i == 2 {
            hud_cell((m.collection % 10) as int)
        } else if i == BUFFER_WIDTH - 3 {
            hud_cell(((m.level / 100) % 10) as int)
        } else if i == BUFFER_WIDTH - 2 {
            hud_cell(((m.level / 10) % 10) as int)
        } else if i == BUFFER_WIDTH - 1 {
            hud_cell((m.level % 10) as int)
        } else {
            old_cell
        }
    } else if i == CENTER_COL && j == CENTER_ROW {
        start_cell()
    } else if (i != m.col || j != m.row) && old_cell.foreground != COLLECTIBLE_COLOR {
        decoration(m.colors, m.level, m.randv, i, j)
    } else {
        old_cell
    }
}

/// The state after the frame redraw.
pub open spec fn update_current_model(m: GameModel) -> GameModel {
    GameModel { screen: build_screen(|i: usize, j: usize| frame_cell(m, i, j)), ..m }
}

/// The state with the player marker drawn at the player's cell.
pub open spec fn draw_current_model(m: GameModel) -> GameModel {
    GameModel {
        screen: m.screen.update(cell_index(m.col as int, m.row as int), marker_cell()),
        ..m
    }
}

// ---------------------------------------------------------------- movement

/// Where the pending step takes the player.
pub open spec fn destination(m: GameModel) -> (usize, usize) {
    (
        ((m.col + m.dx) % BUFFER_WIDTH as int) as usize,
        ((m.row + m.dy) % BUFFER_HEIGHT as int) as usize,
    )
}

/// What the cell at the destination is.
pub open spec fn destination_kind(m: GameModel) -> CellKind {
    kind_of(cell_at(m.screen, destination(m).0 as int, destination(m).1 as int))
}

/// All counters back to their start values, player at the center, palette
/// back to its start color.
pub open spec fn end_all_model(m: GameModel) -> GameModel {
    GameModel {
        colors: Seq::new(PALETTE_LEN as nat, |k: int| CYAN),
        collection: 0,
        current_collection: 0,
        level: 0,
        dx: 0,
        dy: 0,
        col: CENTER_COL,
        row: CENTER_ROW,
        ..m
    }
}

/// The glyphs of the game-over banner.
pub open spec fn banner() -> Seq<u8> {
    seq![112u8, 108u8, 97u8, 121u8, 32u8, 97u8, 103u8, 97u8, 105u8, 110u8]
}

/// The top row after the game-over banner is drawn on it.
pub open spec fn end_cell(m: GameModel, i: usize, j: usize) -> Cell {
    if j != 0 {
        cell_at(m.screen, i as int, j as int)
    } else if i < banner().len() {
        Cell { glyph: banner()[i as int], foreground: GREEN, background: BLACK }
    } else {
        Cell { glyph: 32, foreground: GREEN, background: GREEN }
    }
}

/// The state with the game-over banner drawn.
pub open spec fn end_model(m: GameModel) -> GameModel {
    GameModel { screen: build_screen(|i: usize, j: usize| end_cell(m, i, j)), ..m }
}

/// The state after the pending step is resolved: a collectible counts, a
/// hazard ends the session with every counter reset, and otherwise the
/// player moves. The pending step is cleared in every case.
pub open spec fn update_location_model(m: GameModel) -> GameModel {
    let (x, y) = destination(m);
    match destination_kind(m) {
        CellKind::Hazard => GameModel { active: false, ..end_model(end_all_model(m)) },
        CellKind::Collectible => GameModel {
            collection: (m.collection + 1) as usize,
            current_collection: (m.current_collection + 1) as usize,
            col: x,
            row: y,
            dx: 0,
            dy: 0,
            ..m
        },
        CellKind::Decoration => GameModel { col: x, row: y, dx: 0, dy: 0, ..m },
    }
}

/// One frame of play, in its fixed order.
pub open spec fn run_game_model(m: GameModel) -> GameModel {
    update_location_model(draw_current_model(update_current_model(inc_level_model(m))))
}

/// One timer tick: a frame of play while the session is active, nothing
/// once it has ended.
pub open spec fn tick_model(m: GameModel) -> GameModel {
    if m.active {
        run_game_model(m)
    } else {
        m
    }
}

// ---------------------------------------------------------------- input

/// A key of the keyboard that the game reads.
#[derive(Clone, Copy, PartialEq, Eq, Structural, Debug)]
pub enum KeyCode {
    ArrowLeft,
    ArrowRight,
    ArrowUp,
    ArrowDown,
    Other,
}

/// A decoded key event: a key without a character, or a typed character.
#[derive(Clone, Copy, PartialEq, Eq, Structural, Debug)]
pub enum KeyEvent {
    RawKey(KeyCode),
    Unicode(char),
}

/// The state after a key without a character: an arrow steps the pending
/// move one place around its axis; nothing else changes.
pub open spec fn handle_raw_model(m: GameModel, k: KeyCode) -> GameModel {
    match k {
        KeyCode::ArrowLeft => GameModel {
            dx: ((m.dx + BUFFER_WIDTH - 1) % BUFFER_WIDTH as int) as usize,
            ..m
        },
        KeyCode::ArrowRight => GameModel { dx: ((m.dx + 1) % BUFFER_WIDTH as int) as usize, ..m },
        KeyCode::ArrowUp => GameModel {
            dy: ((m.dy + BUFFER_HEIGHT - 1) % BUFFER_HEIGHT as int) as usize,
            ..m
        },
        KeyCode::ArrowDown => GameModel { dy: ((m.dy + 1) % BUFFER_HEIGHT as int) as usize, ..m },
        KeyCode::Other => m,
    }
}

/// The state after a key event; typed characters change nothing.
pub open spec fn key_model(m: GameModel, k: KeyEvent) -> GameModel {
    match k {
        KeyEvent::RawKey(code) => handle_raw_model(m, code),
        KeyEvent::Unicode(_) => m,
    }
}

// ---------------------------------------------------------------- the game

/// A game session: the player, the counters, the level's palette, and the
/// screen the game is drawn on and reads its cells back from.
#[derive(Clone, Copy, PartialEq, Eq, Debug)]
pub struct LetterMover {
    colors: [u8; 13],
    randv: usize,
    collection: usize,
    current_collection: usize,
    level: usize,
    col: usize,
    row: usize,
    dx: usize,
    dy: usize,
    active: bool,
    screen: Screen,
}

impl View for LetterMover {
    type V = GameModel;

    closed spec fn view(&self) -> GameModel {
        GameModel {
            colors: self.colors@,
            randv: self.randv,
            collection: self.collection,
            current_collection: self.current_collection,
            level: self.level,
            col: self.col,
            row: self.row,
            dx: self.dx,
            dy: self.dy,
            active: self.active,
            screen: self.screen@,
        }
    }
}

/// The state a session starts in.
pub open spec fn default_model(m: GameModel) -> bool {
    &&& m.colors == Seq::new(PALETTE_LEN as nat, |k: int| CYAN)
    &&& m.randv == 0
    &&& m.collection == 0
    &&& m.current_collection == 0
    &&& m.level == 0
    &&& m.col == CENTER_COL
    &&& m.row == CENTER_ROW
    &&& m.dx == 0
    &&& m.dy == 0
    &&& m.active
    &&& m.screen.len() == BUFFER_WIDTH * BUFFER_HEIGHT
    &&& forall|i: int, j: int| on_screen(i, j) ==> #[trigger] cell_at(m.screen, i, j) == blank_cell()
}

impl Default for LetterMover {
    fn default() -> (r: Self)
        ensures
            default_model(r@),
            r.wf(),
    {
        let r = LetterMover {
            colors: [CYAN; 13],
            randv: 0,
            collection: 0,
            current_collection: 0,
            level: 0,
            col: CENTER_COL,
            row: CENTER_ROW,
            dx: 0,
            dy: 0,
            active: true,
            screen: Screen::new(),
        };
        assert(r.colors@ =~= Seq::new(PALETTE_LEN as nat, |k: int| CYAN));
        r
    }
}

impl LetterMover {
    pub open spec fn wf(&self) -> bool {
        game_wf(self@)
    }

    /// Level reached in this session.
    pub fn level(&self) -> (r: usize)
        ensures
            r == self@.level,
    {
        self.level
    }

    /// Items collected in this session.
    pub fn score(&self) -> (r: usize)
        ensures
            r == self@.collection,
    {
        self.collection
    }

    /// Items collected since the last level-up.
    pub fn level_progress(&self) -> (r: usize)
        ensures
            r == self@.current_collection,
    {
        self.current_collection
    }

    /// The player's column and row.
    pub fn position(&self) -> (r: (usize, usize))
        ensures
            r == (self@.col, self@.row),
    {
        (self.col, self.row)
    }

    /// The pending step, as offsets around each axis.
    pub fn pending_delta(&self) -> (r: (usize, usize))
        ensures
            r == (self@.dx, self@.dy),
    {
        (self.dx, self.dy)
    }

    /// The offset folded into every seed.
    pub fn rng_offset(&self) -> (r: usize)
        ensures
            r == self@.randv,
    {
        self.randv
    }

    /// The current level's palette.
    pub fn palette(&self) -> (r: [u8; 13])
        ensures
            r@ == self@.colors,
    {
        self.colors
    }

    /// Whether the session is still running; false once a hazard was hit.
    pub fn is_active(&self) -> (r: bool)
        ensures
            r == self@.active,
    {
        self.active
    }

    /// Whether the counters leave room for another tick.
    pub fn has_headroom(&self) -> (r: bool)
        ensures
            r == has_room(self@),
    {
        self.collection <= usize::MAX - 16 && self.current_collection <= usize::MAX - 16
            && self.level <= usize::MAX - 16 && self.randv <= usize::MAX - 128
    }

    /// The screen the game is drawn on.
    pub fn screen(&self) -> (r: &Screen)
        ensures
            r@ == self@.screen,
    {
        &self.screen
    }

    /// Rebuilds the palette from the offset: thirteen draws over the sixteen
    /// colors, each redrawn from the next seed while it gives a reserved color.
    #[allow(non_snake_case)]
    pub fn setColor(&mut self)
        requires
            old(self).wf(),
            old(self)@.randv <= usize::MAX - 16,
        ensures
            final(self)@ == set_color_model(old(self)@),
            final(self).wf(),
    {
        let mut i: usize = 0;
        while i < PALETTE_LEN
            invariant
                i <= PALETTE_LEN,
                self.randv <= usize::MAX - 16,
                self@ == (GameModel { colors: self@.colors, ..old(self)@ }),
                self@.colors.len() == PALETTE_LEN,
                forall|k: int| 0 <= k < i ==> self@.colors[k] == #[trigger] palette(self.randv)[k],
            decreases PALETTE_LEN - i,
        {
            let s: usize = i + self.randv;
            let mut c = rand::<16>(s);
            let mut e: usize = 0;
            proof {
                lemma_redraw_ends(s);
            }
            while c == 0 || c == 13
                invariant
                    s + 2 <= usize::MAX,
                    e <= 3,
                    e == 0 ==> c == rand_spec(s, 16),
                    e > 0 ==> c == rand_spec((s + e - 1) as usize, 16),
                    e >= 2 ==> reserved_color(rand_spec(s, 16)),
                    e >= 3 ==> reserved_color(rand_spec((s + 1) as usize, 16)),
                    !(reserved_color(rand_spec(s, 16)) && reserved_color(
                        rand_spec((s + 1) as usize, 16),
                    ) && reserved_color(rand_spec((s + 2) as usize, 16))),
                decreases 3 - e,
            {
                c = rand::<16>(s + e);
                e += 1;
            }
            self.colors[i] = c as u8;
            i += 1;
        }
        proof {
            lemma_palette_avoids_reserved(self.randv);
        }
        assert(self@.colors =~= palette(self.randv));
    }

    /// All counters back to their start values, the player at the center and
    /// the palette back to its start color.
    #[allow(non_snake_case)]
    pub fn endAll(&mut self)
        requires
            old(self).wf(),
        ensures
            final(self)@ == end_all_model(old(self)@),
            final(self).wf(),
    {
        self.colors = [CYAN; 13];
        self.collection = 0;
        self.current_collection = 0;
        self.level = 0;
        self.dx = 0;
        self.dy = 0;
        self.col = CENTER_COL;
        self.row = CENTER_ROW;
        assert(self.colors@ =~= Seq::new(PALETTE_LEN as nat, |k: int| CYAN));
    }

    /// Applies a key event to the pending step.
    pub fn key(&mut self, key: KeyEvent)
        requires
            old(self).wf(),
        ensures
            final(self)@ == key_model(old(self)@, key),
            final(self).wf(),
    {
        match key {
            KeyEvent::RawKey(code) => self.handle_raw(code),
            KeyEvent::Unicode(c) => self.handle_unicode(c),
        }
    }

    fn handle_raw(&mut self, key: KeyCode)
        requires
            old(self).wf(),
        ensures
            final(self)@ == handle_raw_model(old(self)@, key),
            final(self).wf(),
    {
        match key {
            KeyCode::ArrowLeft => {
                self.dx = sub1::<BUFFER_WIDTH>(self.dx);
            },
            KeyCode::ArrowRight => {
                self.dx = add1::<BUFFER_WIDTH>(self.dx);
            },
            KeyCode::ArrowUp => {
                self.dy = sub1::<BUFFER_HEIGHT>(self.dy);
            },
            KeyCode::ArrowDown => {
                self.dy = add1::<BUFFER_HEIGHT>(self.dy);
            },
            KeyCode::Other => {},
        }
    }

    /// Paints every cell below the top row with its decoration for the
    /// current level.
    pub fn clear(&mut self)
        requires
            old(self).wf(),
        ensures
            final(self)@ == clear_model(old(self)@),
            final(self).wf(),
    {
        let ghost m = self@;
        let colors = self.colors;
        let level = self.level;
        let randv = self.randv;
        let mut i: usize = 0;
        while i < BUFFER_WIDTH
            invariant
                i <= BUFFER_WIDTH,
                game_wf(m),
                self@ == (GameModel { screen: self@.screen, ..m }),
                self.screen.wf(),
                colors@ == m.colors,
                level == m.level,
                randv == m.randv,
                forall|c: int, r: int|
                    on_screen(c, r) ==> #[trigger] cell_at(self@.screen, c, r) == if c < i && r
                        >= 1 {
                        decoration(m.colors, level, randv, c as usize, r as usize)
                    } else {
                        cell_at(m.screen, c, r)
                    },
            decreases BUFFER_WIDTH - i,
        {
            let mut j: usize = 1;
            while j < BUFFER_HEIGHT
                invariant
                    1 <= j <= BUFFER_HEIGHT,
                    i < BUFFER_WIDTH,
                    game_wf(m),
                    self@ == (GameModel { screen: self@.screen, ..m }),
                    self.screen.wf(),
                    colors@ == m.colors,
                    level == m.level,
                    randv == m.randv,
                    forall|c: int, r: int|
                        on_screen(c, r) ==> #[trigger] cell_at(self@.screen, c, r) == if (c < i
                            || (c == i && r < j)) && r >= 1 {
                            decoration(m.colors, level, randv, c as usize, r as usize)
                        } else {
                            cell_at(m.screen, c, r)
                        },
                decreases BUFFER_HEIGHT - j,
            {
                let cell = decoration_at(&colors, level, randv, i, j);
                let ghost before = self@.screen;
                self.screen.plot(cell.glyph, i, j, cell.foreground, cell.background);
                proof {
                    assert forall|c: int, r: int| on_screen(c, r) implies #[trigger] cell_at(
                        self@.screen,
                        c,
                        r,
                    ) == if (c < i || (c == i && r < j + 1)) && r >= 1 {
                        decoration(m.colors, level, randv, c as usize, r as usize)
                    } else {
                        cell_at(m.screen, c, r)
                    } by {
                        lemma_cell_index_injective(c, r, i as int, j as int);
                        lemma_cell_index(c, r);
                        let _ = cell_at(before, c, r);
                    }
                }
                j += 1;
            }
            i += 1;
        }
        proof {
            assert forall|k: int| 0 <= k < self@.screen.len() implies self@.screen[k]
                == clear_model(m).screen[k] by {
                lemma_index_coords(k);
                let _ = cell_at(self@.screen, col_of(k) as int, row_of(k) as int);
            }
            assert(self@.screen =~= clear_model(m).screen);
        }
    }

    /// Redraws the frame: a fresh decoration on every cell below the top row
    /// that is neither the player's, the center, nor a collectible; the start
    /// marker at the center; score and level counters on the top row.
    fn update_current(&mut self)
        requires
            old(self).wf(),
        ensures
            final(self)@ == update_current_model(old(self)@),
            final(self).wf(),
    {
        let ghost m = self@;
        let colors = self.colors;
        let mut i: usize = 0;
        while i < BUFFER_WIDTH
            invariant
                i <= BUFFER_WIDTH,
                game_wf(m),
                self@ == (GameModel { screen: self@.screen, ..m }),
                self.screen.wf(),
                colors@ == m.colors,
                forall|c: int, r: int|
                    on_screen(c, r) ==> #[trigger] cell_at(self@.screen, c, r) == if c < i {
                        frame_cell(m, c as usize, r as usize)
                    } else {
                        cell_at(m.screen, c, r)
                    },
            decreases BUFFER_WIDTH - i,
        {
            let mut j: usize = 0;
            while j < BUFFER_HEIGHT
                invariant
                    j <= BUFFER_HEIGHT,
                    i < BUFFER_WIDTH,
                    game_wf(m),
                    self@ == (GameModel { screen: self@.screen, ..m }),
                    self.screen.wf(),
                    colors@ == m.colors,
                    forall|c: int, r: int|
                        on_screen(c, r) ==> #[trigger] cell_at(self@.screen, c, r) == if c < i
                            || (c == i && r < j) {
                            frame_cell(m, c as usize, r as usize)
                        } else {
                            cell_at(m.screen, c, r)
                        },
                decreases BUFFER_HEIGHT - j,
            {
                let ghost before = self@.screen;
                let old_cell = self.screen.peek(i, j);
                let cell = frame_cell_at(
                    old_cell,
                    &colors,
                    self.randv,
                    self.collection,
                    self.level,
                    self.col,
                    self.row,
                    i,
                    j,
                    Ghost(m),
                );
                self.screen.plot(cell.glyph, i, j, cell.foreground, cell.background);
                proof {
                    assert forall|c: int, r: int| on_screen(c, r) implies #[trigger] cell_at(
                        self@.screen,
                        c,
                        r,
                    ) == if c < i || (c == i && r < j + 1) {
                        frame_cell(m, c as usize, r as usize)
                    } else {
                        cell_at(m.screen, c, r)
                    } by {
                        lemma_cell_index_injective(c, r, i as int, j as int);
                        lemma_cell_index(c, r);
                        let _ = cell_at(before, c, r);
                    }
                }
                j += 1;
            }
            i += 1;
        }
        proof {
            assert forall|k: int| 0 <= k < self@.screen.len() implies self@.screen[k]
                == update_current_model(m).screen[k] by {
                lemma_index_coords(k);
                let _ = cell_at(self@.screen, col_of(k) as int, row_of(k) as int);
            }
            assert(self@.screen =~= update_current_model(m).screen);
        }
    }

    /// Draws the player marker at the player's cell.
    fn draw_current(&mut self)
        requires
            old(self).wf(),
        ensures
            final(self)@ == draw_current_model(old(self)@),
            final(self).wf(),
    {
        self.screen.plot(32, self.col, self.row, MARKER_COLOR, MARKER_COLOR);
    }

    /// Draws the game-over banner over the top row.
    pub fn end(&mut self)
        requires
            old(self).wf(),
        ensures
            final(self)@ == end_model(old(self)@),
            final(self).wf(),
    {
        let ghost m = self@;
        let text: [u8; 10] = [112, 108, 97, 121, 32, 97, 103, 97, 105, 110];
        assert(text@ =~= banner());
        let mut i: usize = 0;
        while i < BUFFER_WIDTH
            invariant
                i <= BUFFER_WIDTH,
                game_wf(m),
                text@ == banner(),
                self@ == (GameModel { screen: self@.screen, ..m }),
                self.screen.wf(),
                forall|c: int, r: int|
                    on_screen(c, r) ==> #[trigger] cell_at(self@.screen, c, r) == if c < i {
                        end_cell(m, c as usize, r as usize)
                    } else {
                        cell_at(m.screen, c, r)
                    },
            decreases BUFFER_WIDTH - i,
        {
            let ghost before = self@.screen;
            if i < 10 {
                self.screen.plot(text[i], i, 0, GREEN, BLACK);
            } else {
                self.screen.plot(32, i, 0, GREEN, GREEN);
            }
            proof {
                assert forall|c: int, r: int| on_screen(c, r) implies #[trigger] cell_at(
                    self@.screen,
                    c,
                    r,
                ) == if c < i + 1 {
                    end_cell(m, c as usize, r as usize)
                } else {
                    cell_at(m.screen, c, r)
                } by {
                    lemma_cell_index_injective(c, r, i as int, 0);
                    lemma_cell_index(c, r);
                    let _ = cell_at(before, c, r);
                }
            }
            i += 1;
        }
        proof {
            assert forall|k: int| 0 <= k < self@.screen.len() implies self@.screen[k]
                == end_model(m).screen[k] by {
                lemma_index_coords(k);
                let _ = cell_at(self@.screen, col_of(k) as int, row_of(k) as int);
            }
            assert(self@.screen =~= end_model(m).screen);
        }
    }

    /// Places the level's collectibles. A collectible already at the slot's
    /// probe cell counts as collected at once.
    pub fn populate(&mut self)
        requires
            old(self).wf(),
            old(self)@.collection <= usize::MAX - 16,
            old(self)@.current_collection <= usize::MAX - 16,
        ensures
            final(self)@ == populate_model(old(self)@, COLLECTIBLES_PER_LEVEL as nat),
            final(self).wf(),
            old(self)@.collection <= final(self)@.collection <= old(self)@.collection + 10,
            old(self)@.current_collection <= final(self)@.current_collection
                <= old(self)@.current_collection + 10,
            final(self)@.level == old(self)@.level,
            final(self)@.randv == old(self)@.randv,
    {
        let ghost m = self@;
        let mut i: usize = 0;
        while i < COLLECTIBLES_PER_LEVEL
            invariant
                i <= COLLECTIBLES_PER_LEVEL,
                game_wf(m),
                m.collection <= usize::MAX - 16,
                m.current_collection <= usize::MAX - 16,
                self@ == populate_model(m, i as nat),
                self.wf(),
                self@.colors == m.colors,
                self@.level == m.level,
                self@.randv == m.randv,
                self@.col == m.col,
                self@.row == m.row,
                m.collection <= self@.collection <= m.collection + i,
                m.current_collection <= self@.current_collection <= m.current_collection + i,
            decreases COLLECTIBLES_PER_LEVEL - i,
        {
            let x = rand::<PLACEMENT_COLUMNS>(
                i.wrapping_add(self.level.wrapping_mul(10)).wrapping_add(self.randv),
            );
            let probe = self.screen.peek(
                safe_add::<PLACEMENT_COLUMNS>(x, 0),
                safe_add::<BUFFER_HEIGHT>(x, 0),
            );
            if probe.foreground == COLLECTIBLE_COLOR {
                self.current_collection += 1;
                self.collection += 1;
            }
            let s = self.level.wrapping_add(i).wrapping_add(self.randv);
            let n: usize = 1 + self.level / 5;
            let a: usize = rand::<12>(s);
            let b: usize = rand::<94>(s);
            let l: usize = a % n;
            let chr: usize = b % n;
            proof {
                vstd::arithmetic::div_mod::lemma_mod_decreases(a as nat, n as nat);
                vstd::arithmetic::div_mod::lemma_mod_decreases(b as nat, n as nat);
            }
            let mut c = self.colors[l];
            if chr == 0 {
                c = PINK;
            }
            assert((x | 25usize) < 128) by (bit_vector)
                requires
                    x < 79,
            ;
            self.screen.plot(
                (chr + 32) as u8,
                rand::<PLACEMENT_COLUMNS>(x),
                rand::<BUFFER_HEIGHT>(x | BUFFER_HEIGHT),
                PINK,
                c,
            );
            i += 1;
        }
    }

    /// Regenerates the level: new palette, repainted grid, new collectibles,
    /// and the player back at the center.
    pub fn reset(&mut self)
        requires
            old(self).wf(),
            old(self)@.randv <= usize::MAX - 16,
            old(self)@.collection <= usize::MAX - 16,
            old(self)@.current_collection <= usize::MAX - 16,
        ensures
            final(self)@ == reset_model(old(self)@),
            final(self).wf(),
            old(self)@.collection <= final(self)@.collection <= old(self)@.collection + 10,
            old(self)@.current_collection <= final(self)@.current_collection
                <= old(self)@.current_collection + 10,
            final(self)@.level == old(self)@.level,
            final(self)@.randv == old(self)@.randv,
    {
        self.setColor();
        self.clear();
        self.populate();
        self.col = CENTER_COL;
        self.row = CENTER_ROW;
    }

    /// The level check: once the progress reaches the threshold, the offset
    /// grows by a draw, the progress restarts, the level goes up and the
    /// level is regenerated.
    #[allow(non_snake_case)]
    pub fn incLevel(&mut self)
        requires
            old(self).wf(),
            has_room(old(self)@),
        ensures
            final(self)@ == inc_level_model(old(self)@),
            final(self).wf(),
            old(self)@.collection <= final(self)@.collection <= old(self)@.collection + 10,
            final(self)@.current_collection <= old(self)@.current_collection + 10,
            final(self)@.level <= old(self)@.level + 1,
    {
        if self.current_collection >= LEVEL_THRESHOLD {
            let seed = self.col.wrapping_mul(self.level).wrapping_add(self.collection);
            self.randv += rand::<100>(seed);
            self.current_collection = 0;
            self.level += 1;
            self.reset();
        }
    }

    /// Resolves the pending step: a collectible at the destination counts, a
    /// hazard there ends the session with every counter reset and the banner
    /// drawn, and otherwise the player moves there. The pending step is
    /// cleared in every case.
    fn update_location(&mut self)
        requires
            old(self).wf(),
            old(self)@.collection < usize::MAX,
            old(self)@.current_collection < usize::MAX,
        ensures
            final(self)@ == update_location_model(old(self)@),
            final(self).wf(),
    {
        let x = safe_add::<BUFFER_WIDTH>(self.col, self.dx);
        let y = safe_add::<BUFFER_HEIGHT>(self.row, self.dy);
        let target = self.screen.peek(x, y);
        match classify(target) {
            CellKind::Collectible => {
                self.collection += 1;
                self.current_collection += 1;
                self.col = x;
                self.row = y;
            },
            CellKind::Hazard => {
                self.endAll();
                self.end();
                self.active = false;
            },
            CellKind::Decoration => {
                self.col = x;
                self.row = y;
            },
        }
        self.dx = 0;
        self.dy = 0;
    }

    /// One frame of play: level check, frame redraw, player marker, move.
    #[allow(non_snake_case)]
    pub fn runGame(&mut self)
        requires
            old(self).wf(),
            has_room(old(self)@),
        ensures
            final(self)@ == run_game_model(old(self)@),
            final(self).wf(),
    {
        self.incLevel();
        self.update_current();
        self.draw_current();
        self.update_location();
    }

    /// One timer tick: a frame of play while the session is active.
    pub fn tick(&mut self)
        requires
            old(self).wf(),
            has_room(old(self)@),
        ensures
            final(self)@ == tick_model(old(self)@),
            final(self).wf(),
    {
        if self.active {
            self.runGame();
        }
    }

    /// Typed characters are accepted and have no effect.
    fn handle_unicode(&mut self, key: char)
        ensures
            final(self)@ == old(self)@,
    {
    }
}

/// The decoration of cell `(i, j)`.
fn decoration_at(colors: &[u8; 13], level: usize, randv: usize, i: usize, j: usize) -> (r: Cell)
    requires
        i < BUFFER_WIDTH,
        j < BUFFER_HEIGHT,
    ensures
        r == decoration(colors@, level, randv, i, j),
{
    assert(j * i < 2000) by (nonlinear_arith)
        requires
            i < 80,
            j < 25,
    ;
    let s = level.wrapping_add(j * i).wrapping_add(randv);
    let n: usize = 1 + level / 5;
    let x: usize = rand::<12>(s);
    let y: usize = rand::<94>(s);
    let l: usize = x % n;
    let chr: usize = y % n;
    proof {
        vstd::arithmetic::div_mod::lemma_mod_decreases(x as nat, n as nat);
        vstd::arithmetic::div_mod::lemma_mod_decreases(y as nat, n as nat);
    }
    Cell { glyph: (chr + 32) as u8, foreground: colors[l], background: colors[l + 1] }
}

/// The digit glyph for `n`.
fn digit(n: usize) -> (r: u8)
    requires
        n < 10,
    ensures
        r == digit_glyph(n as int),
{
    48 + n as u8
}

/// What the frame redraw writes at `(i, j)` over `old_cell`.
fn frame_cell_at(
    old_cell: Cell,
    colors: &[u8; 13],
    randv: usize,
    collection: usize,
    level: usize,
    col: usize,
    row: usize,
    i: usize,
    j: usize,
    Ghost(m): Ghost<GameModel>,
) -> (r: Cell)
    requires
        i < BUFFER_WIDTH,
        j < BUFFER_HEIGHT,
        colors@ == m.colors,
        randv == m.randv,
        collection == m.collection,
        level == m.level,
        col == m.col,
        row == m.row,
    ensures
        r == frame_cell_from(m, old_cell, i, j),
{
    if j == 0 {
        let n: usize = if i == 0 {
            (collection / 100) % 10
        } else if i == 1 {
            (collection / 10) % 10
        } else if i == 2 {
            collection % 10
        } else if i == BUFFER_WIDTH - 3 {
            (level / 100) % 10
        } else if i == BUFFER_WIDTH - 2 {
            (level / 10) % 10
        } else if i == BUFFER_WIDTH - 1 {
            level % 10
        } else {
            return old_cell;
        };
        Cell { glyph: digit(n), foreground: WHITE, background: BLACK }
    } else if i == CENTER_COL && j == CENTER_ROW {
        Cell { glyph: 83, foreground: GREEN, background: PINK }
    } else if (i != col || j != row) && old_cell.foreground != COLLECTIBLE_COLOR {
        decoration_at(colors, level, randv, i, j)
    } else {
        old_cell
    }
}

} // verus!
