use letter_mover::game::{KeyCode, KeyEvent, LetterMover, CENTER_COL, CENTER_ROW};
use letter_mover::rng::{add1, rand, safe_add, sub1};
use letter_mover::screen::{
    classify, Cell, CellKind, Screen, BUFFER_HEIGHT, BUFFER_WIDTH, CYAN, GREEN, LIGHT_GRAY, PINK,
};

fn press(g: &mut LetterMover, k: KeyCode) {
    g.key(KeyEvent::RawKey(k));
}

/// Steers onto some collectible below the top row that is neither the
/// player's cell nor the center, and ticks once. False when there is none.
fn collect_one(g: &mut LetterMover) -> bool {
    let (col, row) = g.position();
    let mut target = None;
    for i in 0..BUFFER_WIDTH {
        for j in 1..BUFFER_HEIGHT {
            let here = (i, j) == (col, row) || (i, j) == (CENTER_COL, CENTER_ROW);
            if !here && classify(g.screen().peek(i, j)) == CellKind::Collectible {
                target = Some((i, j));
            }
        }
    }
    let Some((tx, ty)) = target else { return false };
    for _ in 0..(tx + BUFFER_WIDTH - col) % BUFFER_WIDTH {
        press(g, KeyCode::ArrowRight);
    }
    for _ in 0..(ty + BUFFER_HEIGHT - row) % BUFFER_HEIGHT {
        press(g, KeyCode::ArrowDown);
    }
    g.tick();
    assert_eq!(g.position(), (tx, ty));
    true
}

/// Collects until the threshold is reached; the next tick levels up.
fn fill_progress(g: &mut LetterMover) {
    while g.level_progress() < 3 {
        assert!(collect_one(g));
    }
}

fn leveled_up() -> LetterMover {
    let mut g = LetterMover::default();
    g.reset();
    fill_progress(&mut g);
    g.tick();
    assert_eq!(g.level(), 1);
    g
}

#[test]
fn rand_stays_below_limit() {
    for seed in [0usize, 1, 2, 7, 99, 1000, 12345, usize::MAX - 1, usize::MAX] {
        assert!(rand::<1>(seed) == 0);
        assert!(rand::<16>(seed) < 16);
        assert!(rand::<79>(seed) < 79);
        assert!(rand::<100>(seed) < 100);
    }
}

#[test]
fn rand_is_deterministic() {
    for seed in [3usize, 77, 4096, usize::MAX] {
        assert_eq!(rand::<94>(seed), rand::<94>(seed));
        assert_eq!(rand::<12>(seed), rand::<12>(seed));
    }
}

#[test]
fn rand_exact_values() {
    assert_eq!(rand::<16>(0), 0);
    assert_eq!(rand::<16>(5), 5);
    assert_eq!(rand::<100>(1), 29);
    assert_eq!(rand::<12>(1000), 1);
    assert_eq!(rand::<16>(usize::MAX), 0);
}

#[test]
fn safe_add_wraps() {
    assert_eq!(safe_add::<80>(79, 1), 0);
    assert_eq!(safe_add::<80>(0, 79), 79);
    assert_eq!(safe_add::<80>(79, 3), 2);
    assert_eq!(safe_add::<25>(24, 24), 23);
    for p in 0..80usize {
        for d in [0usize, 1, 79, 80, 1000] {
            assert!(safe_add::<80>(p, d) < 80);
        }
    }
}

#[test]
fn add1_and_sub1_step_around() {
    assert_eq!(add1::<80>(79), 0);
    assert_eq!(add1::<80>(5), 6);
    assert_eq!(sub1::<80>(0), 79);
    assert_eq!(sub1::<80>(5), 4);
    assert_eq!(sub1::<25>(0), 24);
}

#[test]
fn classify_by_colors() {
    let c = |fg: u8, bg: u8| Cell { glyph: 65, foreground: fg, background: bg };
    assert_eq!(classify(c(13, 3)), CellKind::Collectible);
    assert_eq!(classify(c(13, 0)), CellKind::Collectible);
    assert_eq!(classify(c(2, 0)), CellKind::Hazard);
    assert_eq!(classify(c(2, 3)), CellKind::Decoration);
}

#[test]
fn screen_plot_then_peek() {
    let mut s = Screen::new();
    assert_eq!(s.peek(3, 4), Cell { glyph: 32, foreground: LIGHT_GRAY, background: 0 });
    s.plot(65, 3, 4, 1, 2);
    assert_eq!(s.peek(3, 4), Cell { glyph: 65, foreground: 1, background: 2 });
    assert_eq!(s.peek(4, 3), Cell { glyph: 32, foreground: LIGHT_GRAY, background: 0 });
}

#[test]
fn default_state() {
    let g = LetterMover::default();
    assert_eq!(g.level(), 0);
    assert_eq!(g.score(), 0);
    assert_eq!(g.level_progress(), 0);
    assert_eq!(g.position(), (BUFFER_WIDTH / 2, BUFFER_HEIGHT / 2));
    assert_eq!(g.pending_delta(), (0, 0));
    assert!(g.is_active());
    assert_eq!(g.palette(), [CYAN; 13]);
}

#[test]
fn arrow_keys_step_the_pending_delta() {
    let mut g = LetterMover::default();
    press(&mut g, KeyCode::ArrowLeft);
    assert_eq!(g.pending_delta(), (79, 0));
    press(&mut g, KeyCode::ArrowLeft);
    assert_eq!(g.pending_delta(), (78, 0));
    press(&mut g, KeyCode::ArrowRight);
    press(&mut g, KeyCode::ArrowUp);
    assert_eq!(g.pending_delta(), (79, 24));
    press(&mut g, KeyCode::ArrowDown);
    press(&mut g, KeyCode::ArrowDown);
    assert_eq!(g.pending_delta(), (79, 1));
    assert_eq!(g.position(), (CENTER_COL, CENTER_ROW));
}

#[test]
fn other_keys_change_nothing() {
    let mut g = LetterMover::default();
    press(&mut g, KeyCode::Other);
    g.key(KeyEvent::Unicode('a'));
    assert_eq!(g.pending_delta(), (0, 0));
    assert_eq!(g.level_progress(), 0);
}

#[test]
fn right_arrow_then_tick_moves_one_column() {
    let mut g = LetterMover::default();
    press(&mut g, KeyCode::ArrowRight);
    g.tick();
    assert_eq!(g.position(), (CENTER_COL + 1, CENTER_ROW));
    assert_eq!(g.score(), 0);
    assert_eq!(g.level_progress(), 0);
    assert_eq!(g.pending_delta(), (0, 0));
    assert!(g.is_active());
}

#[test]
fn left_arrow_wraps_at_the_edge() {
    let mut g = LetterMover::default();
    for _ in 0..CENTER_COL + 1 {
        press(&mut g, KeyCode::ArrowLeft);
    }
    g.tick();
    assert_eq!(g.position(), (BUFFER_WIDTH - 1, CENTER_ROW));
}

#[test]
fn idle_ticks_keep_position() {
    let mut g = LetterMover::default();
    press(&mut g, KeyCode::ArrowDown);
    g.tick();
    let p = g.position();
    for _ in 0..20 {
        g.tick();
        assert_eq!(g.position(), p);
        assert_eq!(g.pending_delta(), (0, 0));
    }
}

#[test]
fn first_frame_paints_level_zero() {
    let mut g = LetterMover::default();
    g.tick();
    let s = g.screen();
    assert_eq!(s.peek(5, 5), Cell { glyph: 32, foreground: CYAN, background: CYAN });
    assert_eq!(s.peek(CENTER_COL, CENTER_ROW), Cell { glyph: 32, foreground: 4, background: 4 });
    for i in [0usize, 1, 2, 77, 78, 79] {
        assert_eq!(s.peek(i, 0), Cell { glyph: b'0', foreground: 15, background: 0 });
    }
    assert_eq!(s.peek(10, 0), Cell { glyph: 32, foreground: LIGHT_GRAY, background: 0 });
}

#[test]
fn start_marker_drawn_at_center_once_player_leaves() {
    let mut g = LetterMover::default();
    press(&mut g, KeyCode::ArrowRight);
    g.tick();
    g.tick();
    assert_eq!(g.screen().peek(CENTER_COL, CENTER_ROW), Cell { glyph: b'S', foreground: GREEN, background: PINK });
}

#[test]
fn three_collections_level_up() {
    let mut g = LetterMover::default();
    g.reset();
    fill_progress(&mut g);
    assert_eq!(g.level(), 0);
    let score = g.score();
    let (col, _) = g.position();
    g.tick();
    assert_eq!(g.level(), 1);
    assert_eq!(g.rng_offset(), rand::<100>(col * 0 + score));
    assert_eq!(g.level_progress(), g.score() - score);
    assert_eq!(g.position(), (CENTER_COL, CENTER_ROW));
}

#[test]
fn level_up_regenerates_the_grid() {
    let g = leveled_up();
    let p = g.palette();
    let mut decorated = 0;
    for i in 0..BUFFER_WIDTH {
        for j in 1..BUFFER_HEIGHT {
            let c = g.screen().peek(i, j);
            if c.foreground != PINK && (i, j) != (CENTER_COL, CENTER_ROW) {
                assert!(p.contains(&c.foreground) && p.contains(&c.background));
                decorated += 1;
            }
        }
    }
    assert!(decorated > 1800);
}

#[test]
fn generated_palettes_avoid_reserved_colors() {
    let mut g = leveled_up();
    for _ in 0..3 {
        for c in g.palette() {
            assert!(c != 13 && c != 0 && c < 16);
        }
        fill_progress(&mut g);
        g.tick();
    }
    assert!(g.level() >= 4);
    for c in g.palette() {
        assert!(c != 13 && c != 0 && c < 16);
    }
}

/// Generation credits a collectible found at a slot's probe cell as
/// collected, with no move by the player. The probe cell of slot `x` is
/// `(x mod 79, x mod 25)`, not the cell the new collectible goes to.
#[test]
fn populate_credits_overlapping_slots() {
    let mut g = leveled_up();
    let (score, progress) = (g.score(), g.level_progress());
    let offset = g.rng_offset();
    let level = g.level();
    let mut pink = [[false; BUFFER_HEIGHT]; BUFFER_WIDTH];
    for i in 0..BUFFER_WIDTH {
        for j in 0..BUFFER_HEIGHT {
            pink[i][j] = g.screen().peek(i, j).foreground == PINK;
        }
    }
    let mut credits = 0;
    for i in 0..10 {
        let x = rand::<79>(i + level * 10 + offset);
        if pink[x % 79][x % 25] {
            credits += 1;
        }
        pink[rand::<79>(x)][rand::<25>(x | 25)] = true;
    }
    g.populate();
    assert_eq!(g.score(), score + credits);
    assert_eq!(g.level_progress(), progress + credits);
}

#[test]
fn set_color_directly() {
    let mut g = LetterMover::default();
    g.setColor();
    assert_eq!(g.palette(), [1, 1, 2, 3, 4, 5, 6, 7, 9, 8, 11, 10, 12]);
}

#[test]
fn level_up_places_collectibles() {
    let g = leveled_up();
    let s = g.screen();
    let mut found = 0;
    for i in 0..BUFFER_WIDTH {
        for j in 0..BUFFER_HEIGHT {
            if classify(s.peek(i, j)) == CellKind::Collectible {
                found += 1;
            }
        }
    }
    assert!(found >= 1 && found <= 10);
}

#[test]
fn collecting_adds_exactly_one() {
    let mut g = LetterMover::default();
    g.reset();
    let score = g.score();
    let progress = g.level_progress();
    assert!(progress < 3);
    assert!(collect_one(&mut g));
    assert_eq!(g.score(), score + 1);
    assert_eq!(g.level_progress(), progress + 1);
}

#[test]
fn hazard_ends_the_session() {
    let mut g = leveled_up();
    assert!(g.score() >= 3);
    for _ in 0..CENTER_ROW {
        press(&mut g, KeyCode::ArrowUp);
    }
    for _ in 0..5 {
        press(&mut g, KeyCode::ArrowRight);
    }
    g.tick();
    assert!(!g.is_active());
    assert_eq!(g.position(), (CENTER_COL, CENTER_ROW));
    assert_eq!(g.level(), 0);
    assert_eq!(g.score(), 0);
    assert_eq!(g.level_progress(), 0);
    assert_eq!(g.pending_delta(), (0, 0));
    let text = b"play again";
    for i in 0..text.len() {
        assert_eq!(g.screen().peek(i, 0), Cell { glyph: text[i], foreground: GREEN, background: 0 });
    }
    assert_eq!(g.screen().peek(20, 0), Cell { glyph: 32, foreground: GREEN, background: GREEN });
}

#[test]
fn ended_session_is_frozen() {
    let mut g = LetterMover::default();
    for _ in 0..CENTER_ROW {
        press(&mut g, KeyCode::ArrowUp);
    }
    press(&mut g, KeyCode::ArrowRight);
    g.tick();
    assert!(!g.is_active());
    press(&mut g, KeyCode::ArrowRight);
    g.tick();
    assert_eq!(g.position(), (CENTER_COL, CENTER_ROW));
    assert_eq!(g.level(), 0);
}

#[test]
fn end_all_resets_counters() {
    let mut g = leveled_up();
    press(&mut g, KeyCode::ArrowRight);
    g.endAll();
    assert_eq!(g.level(), 0);
    assert_eq!(g.score(), 0);
    assert_eq!(g.level_progress(), 0);
    assert_eq!(g.pending_delta(), (0, 0));
    assert_eq!(g.position(), (CENTER_COL, CENTER_ROW));
    assert_eq!(g.palette(), [CYAN; 13]);
}

#[test]
fn inc_level_below_threshold_does_nothing() {
    let mut g = LetterMover::default();
    g.incLevel();
    assert_eq!(g.level(), 0);
    assert_eq!(g.palette(), [CYAN; 13]);
}

#[test]
fn reset_regenerates_and_centers() {
    let mut g = LetterMover::default();
    press(&mut g, KeyCode::ArrowRight);
    g.tick();
    g.reset();
    assert_eq!(g.position(), (CENTER_COL, CENTER_ROW));
    assert_eq!(g.palette(), [1, 1, 2, 3, 4, 5, 6, 7, 9, 8, 11, 10, 12]);
    assert_eq!(g.screen().peek(5, 5), Cell { glyph: 32, foreground: 1, background: 1 });
}

#[test]
fn run_game_is_one_frame() {
    let mut a = LetterMover::default();
    let mut b = LetterMover::default();
    press(&mut a, KeyCode::ArrowDown);
    press(&mut b, KeyCode::ArrowDown);
    a.tick();
    b.runGame();
    assert_eq!(a.position(), b.position());
    assert_eq!(a.screen().peek(7, 7), b.screen().peek(7, 7));
}

#[test]
fn clear_and_populate_on_fresh_state() {
    let mut g = LetterMover::default();
    g.clear();
    assert_eq!(g.screen().peek(9, 9), Cell { glyph: 32, foreground: CYAN, background: CYAN });
    g.populate();
    assert!(g.score() <= 10);
    assert_eq!(g.score(), g.level_progress());
}

#[test]
fn end_draws_banner() {
    let mut g = LetterMover::default();
    g.end();
    assert_eq!(g.screen().peek(0, 0).glyph, b'p');
    assert_eq!(g.screen().peek(9, 0).glyph, b'n');
    assert_eq!(g.screen().peek(5, 5), Cell { glyph: 32, foreground: LIGHT_GRAY, background: 0 });
}

#[test]
fn fresh_game_has_headroom() {
    let mut g = LetterMover::default();
    assert!(g.has_headroom());
    g.tick();
    assert!(g.has_headroom());
}

#[test]
fn safe_add_takes_any_delta() {
    assert_eq!(safe_add::<80>(5, usize::MAX), 20);
    assert_eq!(safe_add::<80>(usize::MAX, usize::MAX), 30);
    assert_eq!(sub1::<80>(usize::MAX), 14);
    assert!(safe_add::<25>(24, usize::MAX - 3) < 25);
}
