use ppt_tas::editor::TasEditor;
use ppt_tas::gameplay::{roll, GameState, Piece, PieceGenerator, PieceState, RotationState, State};

fn empty_field() -> Vec<[Option<Piece>; 10]> {
    vec![[None; 10]; 40]
}

fn deal(g: &mut PieceGenerator, n: usize) -> String {
    let mut s = String::new();
    for _ in 0..n {
        let c = match g.next() {
            Piece::S => 'S',
            Piece::Z => 'Z',
            Piece::J => 'J',
            Piece::L => 'L',
            Piece::T => 'T',
            Piece::O => 'O',
            Piece::I => 'I',
        };
        s.push(c);
    }
    s
}

#[test]
fn roll_wraps_modulo_two_to_the_32() {
    assert_eq!(roll(0), 0x269EC3);
    assert_eq!(roll(1), 0x5D7F2A28);
}

#[test]
fn generator_is_rolled_before_first_piece() {
    let g = PieceGenerator::new(0);
    assert_eq!(g.rng, 0x1BAE3EBD);
    assert_eq!(g.index, 7);
    assert_eq!(g.bag, [Piece::S; 7]);
}

#[test]
fn generator_deals_pieces() {
    assert_eq!(deal(&mut PieceGenerator::new(0), 14), "OJOZLTSJJZSLTO");
    assert_eq!(deal(&mut PieceGenerator::new(42), 14), "JZJSLTOOJOZLTS");
    assert_eq!(deal(&mut PieceGenerator::new(12345), 14), "IZIJLTOOZOJLTS");
}

#[test]
fn generator_state_after_one_piece() {
    let mut g = PieceGenerator::new(0);
    g.next();
    assert_eq!(g.index, 1);
    assert_eq!(g.rng, roll(0x1BAE3EBD));
}

#[test]
fn t_piece_cells() {
    let p = PieceState { kind: Piece::T, state: RotationState::North, x: 4, y: 1 };
    assert_eq!(p.cells(), [(4, 1), (3, 1), (4, 2), (5, 1)]);
}

#[test]
fn overlaps_walls_floor_and_blocks() {
    let mut field = empty_field();
    let p = PieceState { kind: Piece::T, state: RotationState::North, x: 4, y: 1 };
    assert!(!p.overlaps(&field));
    let left = PieceState { x: 0, ..p };
    assert!(left.overlaps(&field));
    let right = PieceState { x: 9, ..p };
    assert!(right.overlaps(&field));
    let low = PieceState { y: -1, ..p };
    assert!(low.overlaps(&field));
    let high = PieceState { y: 39, ..p };
    assert!(high.overlaps(&field));
    field[2][4] = Some(Piece::Z);
    assert!(p.overlaps(&field));
}

#[test]
fn clockwise_without_kick() {
    let field = empty_field();
    let mut p = PieceState { kind: Piece::T, state: RotationState::North, x: 4, y: 1 };
    p.cw(&field);
    assert_eq!(p, PieceState { kind: Piece::T, state: RotationState::East, x: 4, y: 1 });
    p.ccw(&field);
    assert_eq!(p, PieceState { kind: Piece::T, state: RotationState::North, x: 4, y: 1 });
}

#[test]
fn o_piece_rotation_moves_its_centre() {
    let field = empty_field();
    let mut p = PieceState { kind: Piece::O, state: RotationState::North, x: 0, y: 0 };
    p.cw(&field);
    assert_eq!(p, PieceState { kind: Piece::O, state: RotationState::East, x: 0, y: 1 });
}

#[test]
fn i_piece_takes_last_kick_off_the_floor() {
    let field = empty_field();
    let mut p = PieceState { kind: Piece::I, state: RotationState::North, x: 1, y: 1 };
    p.cw(&field);
    assert_eq!(p, PieceState { kind: Piece::I, state: RotationState::East, x: 3, y: 3 });
}

#[test]
fn rotation_without_room_keeps_the_piece() {
    let field = vec![[Some(Piece::S); 10]; 40];
    let p = PieceState { kind: Piece::I, state: RotationState::North, x: 1, y: 1 };
    let mut q = p;
    q.cw(&field);
    assert_eq!(q, p);
    q.ccw(&field);
    assert_eq!(q, p);
}

#[test]
fn new_game_state() {
    let s = State::new(42);
    assert_eq!(s.field.len(), 40);
    assert!(s.field.iter().all(|row| row.iter().all(|c| c.is_none())));
    assert_eq!(s.hold, None);
    assert!(!s.hold_is_high);
    assert_eq!(s.state, GameState::SpawnDelay(5));
    assert_eq!((s.time, s.score, s.lines, s.left_das, s.right_das), (0, 0, 0, 0, 0));
    assert_eq!(s.line_clear_points, None);
    assert_eq!(s.pc_points, None);
    assert_eq!(s.piece_generator, PieceGenerator::new(42));
    assert_eq!(s.piece_generator.rng, 0xA864B47F);
}

#[test]
fn new_editor() {
    let e = TasEditor::new(7);
    assert_eq!(e.seed, 7);
    assert!(e.frames.is_empty());
    assert!(e.pieces.is_empty());
    assert_eq!(e.generator, PieceGenerator::new(7));
}
