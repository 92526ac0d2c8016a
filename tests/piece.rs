use tetris::{make_random_piece, Color, Piece, PieceKind, KIND_COUNT};

#[test]
fn colors_by_kind() {
    assert_eq!(Piece::new(PieceKind::Long).get_color(), Color { r: 0, g: 255, b: 255 });
    assert_eq!(Piece::new(PieceKind::Square).get_color(), Color { r: 255, g: 255, b: 0 });
    assert_eq!(Piece::new(PieceKind::Tee).get_color(), Color { r: 255, g: 0, b: 255 });
    assert_eq!(Piece::new(PieceKind::Zee).get_color(), Color { r: 255, g: 0, b: 0 });
    assert_eq!(Piece::new(PieceKind::InverseZee).get_color(), Color { r: 0, g: 255, b: 0 });
    assert_eq!(Piece::new(PieceKind::Jay).get_color(), Color { r: 0, g: 0, b: 255 });
    assert_eq!(Piece::new(PieceKind::El).get_color(), Color { r: 255, g: 165, b: 0 });
}

#[test]
fn kinds_by_index() {
    let expected = [
        PieceKind::Long,
        PieceKind::Square,
        PieceKind::Tee,
        PieceKind::Zee,
        PieceKind::InverseZee,
        PieceKind::Jay,
        PieceKind::El,
    ];
    for i in 0..KIND_COUNT {
        assert_eq!(PieceKind::from_index(i), expected[i as usize]);
    }
}

#[test]
fn random_pieces_are_fresh_and_varied() {
    let mut seen = [false; 7];
    for _ in 0..400 {
        let p = make_random_piece();
        assert_eq!(p.get_position(), (0, 0));
        assert_eq!(p.get_shape().alignment(), 0);
        let fresh = Piece::new(p.kind);
        for r in 0..4 {
            for c in 0..4 {
                assert_eq!(p.get_shape().is_occupied(r, c), fresh.get_shape().is_occupied(r, c));
            }
        }
        let index = (0..7u32).find(|i| PieceKind::from_index(*i) == p.kind).unwrap();
        seen[index as usize] = true;
    }
    assert!(seen.iter().filter(|s| **s).count() > 1);
}

#[test]
fn field_cells_of_placed_window() {
    let mut el = Piece::new(PieceKind::El);
    el.set_position(3, -1);
    assert_eq!(el.field_cells(), vec![(4, 0), (4, 1), (4, 2), (5, 2)]);
    let long = Piece::new(PieceKind::Long);
    assert_eq!(long.field_cells(), vec![(0, 1), (1, 1), (2, 1), (3, 1)]);
}
