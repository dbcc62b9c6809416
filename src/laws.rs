use vstd::prelude::*;

use crate::game::{
    GameModel, game_wf, has_room, palette, palette_ok, lemma_palette_avoids_reserved,
    populate_model, clear_model, set_color_model, reset_model, inc_level_model, level_up_seed,
    update_current_model, draw_current_model, destination, destination_kind, marker_cell,
    tick_model, placement_seed, decoration, PALETTE_LEN, PLACEMENT_COLUMNS, LEVEL_THRESHOLD, COLLECTIBLES_PER_LEVEL, CENTER_COL, CENTER_ROW,
};
use crate::rng::{rand_spec, reserved_color};
use crate::screen::{
    CellKind, cell_at, on_screen, lemma_coords_index, lemma_cell_index,
    lemma_cell_index_injective, BUFFER_WIDTH, BUFFER_HEIGHT, COLLECTIBLE_COLOR,
    HAZARD_COLOR,
};

verus! {

/// Placing collectibles only ever raises the two counters, by at most one
/// per placement, and leaves everything but the screen and the counters as
/// it was.
pub proof fn lemma_populate_counts(m: GameModel, n: nat)
    requires
        m.collection + n <= usize::MAX,
        m.current_collection + n <= usize::MAX,
        m.screen.len() == BUFFER_WIDTH * BUFFER_HEIGHT,
    ensures
        m.collection <= populate_model(m, n).collection <= m.collection + n,
        populate_model(m, n).current_collection - m.current_collection == populate_model(
            m,
            n,
        ).collection - m.collection,
        m.current_collection <= populate_model(m, n).current_collection
            <= m.current_collection + n,
        populate_model(m, n).colors == m.colors,
        populate_model(m, n).level == m.level,
        populate_model(m, n).randv == m.randv,
        populate_model(m, n).active == m.active,
        populate_model(m, n).dx == m.dx,
        populate_model(m, n).dy == m.dy,
        populate_model(m, n).screen.len() == m.screen.len(),
        forall|k: int|
            0 <= k < m.screen.len() ==> #[trigger] populate_model(m, n).screen[k] == m.screen[k]
                || populate_model(m, n).screen[k].foreground == COLLECTIBLE_COLOR,
    decreases n,
{
    if n > 0 {
        lemma_populate_counts(m, (n - 1) as nat);
        let p = populate_model(m, (n - 1) as nat);
        let x = rand_spec(placement_seed(p.level, p.randv, (n - 1) as usize), PLACEMENT_COLUMNS);
        lemma_cell_index(rand_spec(x, PLACEMENT_COLUMNS) as int, rand_spec(x | 25usize, BUFFER_HEIGHT) as int);
    }
}

/// Every level generation leaves a palette built from the new offset, and
/// no color of it is the collectible or the hazard color.
pub proof fn lemma_generated_palette(m: GameModel)
    requires
        game_wf(m),
        has_room(m),
    ensures
        reset_model(m).colors == palette(m.randv),
        palette_ok(reset_model(m).colors),
        inc_level_model(m).colors.len() == PALETTE_LEN,
        forall|k: int|
            0 <= k < PALETTE_LEN ==> #[trigger] inc_level_model(m).colors[k] != COLLECTIBLE_COLOR
                && inc_level_model(m).colors[k] != HAZARD_COLOR,
{
    let m0 = clear_model(set_color_model(m));
    lemma_populate_counts(m0, COLLECTIBLES_PER_LEVEL as nat);
    lemma_palette_avoids_reserved(m.randv);
    if m.current_collection >= LEVEL_THRESHOLD {
        let up = GameModel {
            randv: (m.randv + rand_spec(level_up_seed(m), 100)) as usize,
            current_collection: 0,
            level: (m.level + 1) as usize,
            ..m
        };
        let m1 = clear_model(set_color_model(up));
        lemma_populate_counts(m1, COLLECTIBLES_PER_LEVEL as nat);
        lemma_palette_avoids_reserved(up.randv);
    }
    assert forall|k: int| 0 <= k < PALETTE_LEN implies #[trigger] inc_level_model(m).colors[k]
        != COLLECTIBLE_COLOR && inc_level_model(m).colors[k] != HAZARD_COLOR by {
        assert(reserved_color(COLLECTIBLE_COLOR as usize));
        assert(reserved_color(HAZARD_COLOR as usize));
    }
}

/// The level check keeps the state well formed, raises the score by at most
/// the number of placements, and leaves the pending step alone.
pub proof fn lemma_inc_level_bounds(m: GameModel)
    requires
        game_wf(m),
        has_room(m),
    ensures
        game_wf(inc_level_model(m)),
        m.collection <= inc_level_model(m).collection <= m.collection + 10,
        inc_level_model(m).current_collection <= m.current_collection + 10,
        inc_level_model(m).active == m.active,
        m.current_collection < LEVEL_THRESHOLD ==> inc_level_model(m) == m,
{
    lemma_generated_palette(m);
    if m.current_collection >= LEVEL_THRESHOLD {
        let up = GameModel {
            randv: (m.randv + rand_spec(level_up_seed(m), 100)) as usize,
            current_collection: 0,
            level: (m.level + 1) as usize,
            ..m
        };
        lemma_populate_counts(clear_model(set_color_model(up)), COLLECTIBLES_PER_LEVEL as nat);
    }
}

/// The state just before the move of a tick is resolved.
pub open spec fn before_move(m: GameModel) -> GameModel {
    draw_current_model(update_current_model(inc_level_model(m)))
}

/// Across a tick that hits no hazard the score never falls; the move adds
/// exactly one when its destination is a collectible, and when no level-up
/// happens that is the whole change.
pub proof fn lemma_tick_score(m: GameModel)
    requires
        game_wf(m),
        has_room(m),
        m.active ==> destination_kind(before_move(m)) != CellKind::Hazard,
    ensures
        tick_model(m).collection >= m.collection,
        m.active ==> tick_model(m).collection == before_move(m).collection + if destination_kind(
            before_move(m),
        ) == CellKind::Collectible {
            1int
        } else {
            0int
        },
        m.active && m.current_collection < LEVEL_THRESHOLD ==> tick_model(m).collection
            == m.collection + if destination_kind(before_move(m)) == CellKind::Collectible {
            1int
        } else {
            0int
        },
{
    lemma_inc_level_bounds(m);
}

/// A collectible that stands, before a tick, on a cell below the top row
/// that is neither the player's nor the center survives the frame redraw, so
/// a move onto it collects it: score and progress go up by exactly one and
/// the player ends on that cell.
pub proof fn lemma_collectible_is_collected(m: GameModel)
    requires
        game_wf(m),
        has_room(m),
        m.active,
        m.current_collection < LEVEL_THRESHOLD,
        destination(m).1 >= 1,
        destination(m) != (m.col, m.row),
        destination(m) != (CENTER_COL, CENTER_ROW),
        cell_at(m.screen, destination(m).0 as int, destination(m).1 as int).foreground
            == COLLECTIBLE_COLOR,
    ensures
        destination_kind(before_move(m)) == CellKind::Collectible,
        tick_model(m).collection == m.collection + 1,
        tick_model(m).current_collection == m.current_collection + 1,
        (tick_model(m).col, tick_model(m).row) == destination(m),
{
    lemma_inc_level_bounds(m);
    let x = destination(m).0 as int;
    let y = destination(m).1 as int;
    vstd::arithmetic::div_mod::lemma_mod_bound((m.col + m.dx) as int, BUFFER_WIDTH as int);
    vstd::arithmetic::div_mod::lemma_mod_bound((m.row + m.dy) as int, BUFFER_HEIGHT as int);
    lemma_coords_index(x, y);
    lemma_coords_index(m.col as int, m.row as int);
    lemma_cell_index_injective(x, y, m.col as int, m.row as int);
    let u = update_current_model(m);
    assert(cell_at(u.screen, x, y) == cell_at(m.screen, x, y));
    assert(cell_at(before_move(m).screen, x, y) == cell_at(m.screen, x, y));
}

/// Reaching the threshold: one more collection with the progress one short
/// of it fills the progress up to the threshold and keeps the level.
pub proof fn lemma_progress_reaches_threshold(m: GameModel)
    requires
        game_wf(m),
        has_room(m),
        m.active,
        m.current_collection == LEVEL_THRESHOLD - 1,
        destination_kind(before_move(m)) == CellKind::Collectible,
    ensures
        tick_model(m).current_collection == LEVEL_THRESHOLD,
        tick_model(m).level == m.level,
        tick_model(m).collection == m.collection + 1,
{
    lemma_inc_level_bounds(m);
}

/// Level-up: at the start of a tick with the progress at the threshold, the
/// level goes up by exactly one, the offset grows by a draw below 100, the
/// progress restarts from zero (counting only collectibles that generation
/// placed on one another), the palette is rebuilt from the new offset and
/// the level is generated afresh.
pub proof fn lemma_level_up(m: GameModel)
    requires
        game_wf(m),
        has_room(m),
        m.current_collection >= LEVEL_THRESHOLD,
    ensures
        ({
            let up = GameModel {
                randv: (m.randv + rand_spec(level_up_seed(m), 100)) as usize,
                current_collection: 0,
                level: (m.level + 1) as usize,
                ..m
            };
            let r = inc_level_model(m);
            &&& r == reset_model(up)
            &&& r.level == m.level + 1
            &&& r.randv == m.randv + rand_spec(level_up_seed(m), 100)
            &&& rand_spec(level_up_seed(m), 100) < 100
            &&& r.colors == palette(r.randv)
            &&& r.current_collection == r.collection - m.collection
            &&& r.col == CENTER_COL
            &&& r.row == CENTER_ROW
            &&& r.dx == m.dx
            &&& r.dy == m.dy
            &&& forall|i: int, j: int|
                on_screen(i, j) && j >= 1 ==> #[trigger] cell_at(r.screen, i, j).foreground
                    == COLLECTIBLE_COLOR || cell_at(r.screen, i, j) == decoration(
                    r.colors,
                    r.level,
                    r.randv,
                    i as usize,
                    j as usize,
                )
        }),
        m.active && destination_kind(before_move(m)) != CellKind::Hazard ==> tick_model(m).level
            == m.level + 1,
{
    let up = GameModel {
        randv: (m.randv + rand_spec(level_up_seed(m), 100)) as usize,
        current_collection: 0,
        level: (m.level + 1) as usize,
        ..m
    };
    lemma_populate_counts(clear_model(set_color_model(up)), COLLECTIBLES_PER_LEVEL as nat);
    lemma_inc_level_bounds(m);
    lemma_generated_palette(m);
    let c = clear_model(set_color_model(up));
    assert forall|i: int, j: int| on_screen(i, j) && j >= 1 implies #[trigger] cell_at(
        inc_level_model(m).screen,
        i,
        j,
    ).foreground == COLLECTIBLE_COLOR || cell_at(inc_level_model(m).screen, i, j) == decoration(
        inc_level_model(m).colors,
        inc_level_model(m).level,
        inc_level_model(m).randv,
        i as usize,
        j as usize,
    ) by {
        lemma_coords_index(i, j);
    }
}

/// Game over: a move onto a hazard resets the position to the center and
/// the level, the score and the progress to zero, and ends the session.
pub proof fn lemma_hazard_reset(m: GameModel)
    requires
        game_wf(m),
        has_room(m),
        m.active,
        destination_kind(before_move(m)) == CellKind::Hazard,
    ensures
        tick_model(m).col == CENTER_COL,
        tick_model(m).row == CENTER_ROW,
        tick_model(m).level == 0,
        tick_model(m).collection == 0,
        tick_model(m).current_collection == 0,
        !tick_model(m).active,
{
}

/// `n` ticks in a row with no key events between them.
pub open spec fn ticks(m: GameModel, n: nat) -> GameModel
    decreases n,
{
    if n == 0 {
        m
    } else {
        tick_model(ticks(m, (n - 1) as nat))
    }
}

proof fn lemma_idle_tick(m: GameModel)
    requires
        game_wf(m),
        has_room(m),
        m.dx == 0,
        m.dy == 0,
        m.current_collection < LEVEL_THRESHOLD,
    ensures
        game_wf(tick_model(m)),
        tick_model(m).col == m.col,
        tick_model(m).row == m.row,
        tick_model(m).dx == 0,
        tick_model(m).dy == 0,
        tick_model(m).collection == m.collection,
        tick_model(m).current_collection == m.current_collection,
        tick_model(m).level == m.level,
        tick_model(m).randv == m.randv,
{
    if m.active {
        lemma_inc_level_bounds(m);
        let b = before_move(m);
        lemma_coords_index(m.col as int, m.row as int);
        vstd::arithmetic::div_mod::lemma_small_mod(m.col as nat, BUFFER_WIDTH as nat);
        vstd::arithmetic::div_mod::lemma_small_mod(m.row as nat, BUFFER_HEIGHT as nat);
        assert(destination(b) == (m.col, m.row));
        assert(cell_at(b.screen, m.col as int, m.row as int) == marker_cell());
        assert(destination_kind(b) == CellKind::Decoration);
    }
}

/// Ticks with no key events never move the player, as long as no level-up
/// is due: the position, the pending step and every counter stay as they
/// were, and the state stays well formed.
pub proof fn lemma_idle_ticks_keep_position(m: GameModel, n: nat)
    requires
        game_wf(m),
        has_room(m),
        m.dx == 0,
        m.dy == 0,
        m.current_collection < LEVEL_THRESHOLD,
    ensures
        game_wf(ticks(m, n)),
        ticks(m, n).col == m.col,
        ticks(m, n).row == m.row,
        ticks(m, n).dx == 0,
        ticks(m, n).dy == 0,
        ticks(m, n).collection == m.collection,
        ticks(m, n).current_collection == m.current_collection,
        ticks(m, n).level == m.level,
        ticks(m, n).randv == m.randv,
    decreases n,
{
    if n > 0 {
        lemma_idle_ticks_keep_position(m, (n - 1) as nat);
        lemma_idle_tick(ticks(m, (n - 1) as nat));
    }
}

} // verus!
