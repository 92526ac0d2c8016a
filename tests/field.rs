use tetris::{border_cells, Color, Direction, Game, Piece, PieceKind, PlayingField, DEFAULT_TICK_MS};

fn long_at(x: i32, y: i32) -> Piece {
    let mut p = Piece::new(PieceKind::Long);
    p.set_position(x, y);
    p
}

#[test]
fn floor_collision_on_empty_field() {
    let field = PlayingField::new(0, 0);
    // Lowest occupied row of the Long is local row 1.
    assert!(!field.test_collision(&long_at(0, 18), Direction::Bottom));
    assert!(field.test_collision(&long_at(0, 19), Direction::Bottom));
    assert!(field.test_collision(&long_at(3, 40), Direction::Bottom));
    let mut jay = Piece::new(PieceKind::Jay);
    jay.set_position(2, 16);
    assert!(!field.test_collision(&jay, Direction::Bottom));
    jay.set_position(2, 17);
    assert!(field.test_collision(&jay, Direction::Bottom));
}

#[test]
fn above_field_never_collides() {
    let field = PlayingField::new(0, 0);
    assert!(!field.test_collision(&long_at(0, -2), Direction::Bottom));
    assert!(!field.test_collision(&long_at(0, -5), Direction::Left));
}

#[test]
fn collision_with_settled_block() {
    let mut field = PlayingField::new(0, 0);
    let mut square = Piece::new(PieceKind::Square);
    // Square occupies local columns 1 and 2; at x = 4 it covers field columns 5 and 6.
    square.set_position(4, 17);
    field.place_piece(square);
    assert_eq!(field.cell(19, 5), Some(Color { r: 255, g: 255, b: 0 }));
    assert_eq!(field.cell(18, 6), Some(Color { r: 255, g: 255, b: 0 }));
    assert_eq!(field.cell(19, 4), None);
    // A Long lying on row 18 over columns 3..=6 meets the block.
    assert!(field.test_collision(&long_at(3, 17), Direction::Bottom));
    // The rightmost column of the span counts too.
    assert!(field.test_collision(&long_at(2, 17), Direction::Bottom));
    // Over columns 0..=3 the row is free.
    assert!(!field.test_collision(&long_at(0, 17), Direction::Bottom));
    assert!(!field.test_collision(&long_at(3, 16), Direction::Bottom));
}

#[test]
fn placed_piece_is_seen_by_collision_test() {
    let mut field = PlayingField::new(0, 0);
    let tee = {
        let mut t = Piece::new(PieceKind::Tee);
        t.set_position(2, 5);
        t
    };
    let mut probe = Piece::new(PieceKind::Tee);
    probe.set_position(2, 5);
    assert!(!field.test_collision(&probe, Direction::Bottom));
    field.place_piece(tee);
    assert!(field.test_collision(&probe, Direction::Bottom));
}

#[test]
fn placement_clips_outside_cells() {
    let mut field = PlayingField::new(0, 0);
    field.place_piece(long_at(8, 18));
    let cyan = Some(Color { r: 0, g: 255, b: 255 });
    assert_eq!(field.cell(19, 8), cyan);
    assert_eq!(field.cell(19, 9), cyan);
    assert_eq!(field.cell(19, 7), None);
    field.place_piece(long_at(-2, -1));
    assert_eq!(field.cell(0, 0), cyan);
    assert_eq!(field.cell(0, 1), cyan);
    assert_eq!(field.cell(0, 2), None);
    let mut filled = 0;
    for r in 0..20 {
        for c in 0..10 {
            if field.cell(r, c).is_some() {
                filled += 1;
            }
        }
    }
    assert_eq!(filled, 4);
}

#[test]
fn stacked_pieces_keep_their_colors() {
    let mut field = PlayingField::new(0, 0);
    field.place_piece(long_at(0, 18));
    let mut zee = Piece::new(PieceKind::Zee);
    // Zee covers (row 1: columns 1, 2) and (row 2: columns 2, 3) of its window.
    zee.set_position(0, 16);
    field.place_piece(zee);
    let cyan = Some(Color { r: 0, g: 255, b: 255 });
    let red = Some(Color { r: 255, g: 0, b: 0 });
    for c in 0..4 {
        assert_eq!(field.cell(19, c), cyan);
    }
    assert_eq!(field.cell(18, 2), red);
    assert_eq!(field.cell(18, 3), red);
    assert_eq!(field.cell(17, 1), red);
    assert_eq!(field.cell(17, 2), red);
    assert_eq!(field.cell(18, 0), None);
}

#[test]
fn long_falls_to_floor_and_locks() {
    let mut game = Game::new(PlayingField::new(0, 0), Piece::new(PieceKind::Long), DEFAULT_TICK_MS);
    let mut ticks = 0;
    loop {
        let next = Piece::new(PieceKind::Square);
        let locked = game.gravity_tick(next);
        ticks += 1;
        if locked {
            break;
        }
        assert_eq!(game.piece.get_position(), (0, ticks));
    }
    assert_eq!(ticks, 19);
    // The window stopped at row 18; its one occupied row, local row 1, lies on row 19.
    let cyan = Some(Color { r: 0, g: 255, b: 255 });
    for c in 0..4 {
        assert_eq!(game.field.cell(19, c), cyan);
        assert_eq!(game.field.cell(18, c), None);
    }
    assert_eq!(game.field.cell(19, 4), None);
    assert_eq!(game.piece.kind, PieceKind::Square);
    assert_eq!(game.piece.get_position(), (0, 0));
}

#[test]
fn second_piece_lands_on_first() {
    let mut game = Game::new(PlayingField::new(0, 0), Piece::new(PieceKind::Long), DEFAULT_TICK_MS);
    while !game.gravity_tick(Piece::new(PieceKind::Long)) {}
    while !game.gravity_tick(Piece::new(PieceKind::Tee)) {}
    let cyan = Some(Color { r: 0, g: 255, b: 255 });
    for c in 0..4 {
        assert_eq!(game.field.cell(19, c), cyan);
        assert_eq!(game.field.cell(18, c), cyan);
        assert_eq!(game.field.cell(17, c), None);
    }
    assert_eq!(game.piece.kind, PieceKind::Tee);
}

#[test]
fn gravity_waits_for_interval() {
    let mut game = Game::new(PlayingField::new(0, 0), Piece::new(PieceKind::El), 100);
    assert!(!game.update(60));
    assert_eq!(game.piece.get_position(), (0, 0));
    assert_eq!(game.elapsed_ms, 60);
    assert!(!game.update(40));
    assert_eq!(game.elapsed_ms, 100);
    assert_eq!(game.piece.get_position(), (0, 0));
    assert!(!game.update(1));
    assert_eq!(game.elapsed_ms, 0);
    assert_eq!(game.piece.get_position(), (0, 1));
}

#[test]
fn accumulate_saturates() {
    let mut game = Game::new(PlayingField::new(0, 0), Piece::new(PieceKind::El), u64::MAX);
    assert!(!game.accumulate(u64::MAX - 1));
    assert!(!game.accumulate(10));
    assert_eq!(game.elapsed_ms, u64::MAX);
}

#[test]
fn update_locks_and_spawns_random_piece() {
    let mut game = Game::new(PlayingField::new(0, 0), Piece::new(PieceKind::Square), 0);
    let mut frames = 0;
    while !game.update(1) {
        frames += 1;
    }
    // Square rows 1..=2: the window stops at row 17.
    assert_eq!(frames, 17);
    assert!(game.field.cell(19, 1).is_some());
    assert!(game.field.cell(18, 2).is_some());
    assert_eq!(game.piece.get_position(), (0, 0));
    assert_eq!(game.piece.get_shape().alignment(), 0);
    let fresh = Piece::new(game.piece.kind);
    assert_eq!(game.piece.get_shape().bounds(), fresh.get_shape().bounds());
}

#[test]
fn rotation_is_not_checked_against_field() {
    let mut game = Game::new(PlayingField::new(0, 0), Piece::new(PieceKind::Long), 100);
    game.piece.set_position(0, 17);
    game.rotate_piece();
    assert_eq!(game.piece.get_position(), (0, 17));
    assert_eq!(game.piece.get_shape().bounds().3, 3);
    assert!(game.gravity_tick(Piece::new(PieceKind::Jay)));
    assert!(game.field.cell(19, 2).is_some());
}

#[test]
fn border_cells_frame_the_field() {
    let cells = border_cells();
    assert_eq!(cells.len(), 52);
    assert_eq!(cells[0], (-1, 0));
    assert_eq!(cells[1], (10, 0));
    assert_eq!(cells[39], (10, 19));
    assert_eq!(cells[40], (-1, 20));
    assert_eq!(cells[51], (10, 20));
}

#[test]
fn block_origin_scales_by_cell_size() {
    let field = PlayingField::new(20, 30);
    assert_eq!(field.block_origin(0, 0), (20, 30));
    assert_eq!(field.block_origin(-1, 2), (4, 62));
    assert_eq!(field.block_origin(10, 20), (180, 350));
}
