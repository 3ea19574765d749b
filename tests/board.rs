use quoridor_worker::{
    part_of_walls, BoardWithHistory, CommandQueue, HoverState, MirrorMoveType, Move, PawnMove, Position,
    SquareType, UserCommand, WallDirection,
};

fn wall(d: WallDirection, row: i8, col: i8) -> Move {
    Move::Wall(d, Position { row, col })
}

#[test]
fn mirror_is_self_inverse() {
    let moves = [
        Move::PawnMove(PawnMove::Left, None),
        Move::PawnMove(PawnMove::Up, Some(PawnMove::Right)),
        Move::PawnMove(PawnMove::Down, None),
        wall(WallDirection::Vertical, 0, 0),
        wall(WallDirection::Horizontal, 7, 7),
        wall(WallDirection::Horizontal, 3, 4),
    ];
    for m in moves {
        assert_eq!(m.mirror_move().mirror_move(), m);
    }
}

#[test]
fn mirror_reflects_columns_and_sideways_steps() {
    assert_eq!(wall(WallDirection::Vertical, 2, 0).mirror_move(), wall(WallDirection::Vertical, 2, 7));
    assert_eq!(wall(WallDirection::Horizontal, 5, 3).mirror_move(), wall(WallDirection::Horizontal, 5, 4));
    assert_eq!(
        Move::PawnMove(PawnMove::Up, Some(PawnMove::Left)).mirror_move(),
        Move::PawnMove(PawnMove::Up, Some(PawnMove::Right))
    );
    assert_eq!(Move::PawnMove(PawnMove::Down, None).mirror_move(), Move::PawnMove(PawnMove::Down, None));
}

#[test]
fn mirror_move_types() {
    assert_eq!(Move::PawnMove(PawnMove::Up, None).mirror_move_type(), MirrorMoveType::Neutral);
    assert_eq!(Move::PawnMove(PawnMove::Left, None).mirror_move_type(), MirrorMoveType::Left);
    assert_eq!(Move::PawnMove(PawnMove::Down, Some(PawnMove::Right)).mirror_move_type(), MirrorMoveType::Right);
    assert_eq!(wall(WallDirection::Vertical, 0, 3).mirror_move_type(), MirrorMoveType::Left);
    assert_eq!(wall(WallDirection::Vertical, 0, 4).mirror_move_type(), MirrorMoveType::Right);
}

#[test]
fn history_joins_with_semicolons() {
    let mut h = BoardWithHistory::new(0u8);
    assert_eq!(h.historic_moves(), "");
    h.game_move("e2".to_string());
    assert_eq!(h.historic_moves(), "e2");
    h.game_move("e8".to_string());
    h.game_move("d3h".to_string());
    assert_eq!(h.historic_moves(), "e2;e8;d3h");
    assert_eq!(h.historic_moves.len(), 3);
    assert_eq!(h.board, 0u8);
}

#[test]
fn hover_covers_wall_cells() {
    let v = HoverState::VerticalWall(4, 3);
    assert!(v.is_hover(4, 3));
    assert!(v.is_hover(5, 3));
    assert!(v.is_hover(6, 3));
    assert!(!v.is_hover(7, 3));
    assert!(!v.is_hover(3, 3));
    assert!(!v.is_hover(4, 4));
    let h = HoverState::HorizontalWall(1, 0);
    assert!(h.is_hover(1, 2));
    assert!(!h.is_hover(1, 3));
    let p = HoverState::Pawn(2, 2);
    assert!(p.is_hover(2, 2));
    assert!(!p.is_hover(2, 3));
}

#[test]
fn hover_state_by_cell() {
    assert_eq!(SquareType::Square.hover_state(4, 6), Some(HoverState::Pawn(4, 6)));
    assert_eq!(SquareType::VerticalBorder.hover_state(14, 1), Some(HoverState::VerticalWall(14, 1)));
    assert_eq!(SquareType::VerticalBorder.hover_state(16, 1), None);
    assert_eq!(SquareType::HorizontalBorder.hover_state(1, 14), Some(HoverState::HorizontalWall(1, 14)));
    assert_eq!(SquareType::HorizontalBorder.hover_state(1, 16), None);
    assert_eq!(SquareType::Corner.hover_state(1, 1), None);
}

#[test]
fn cell_sizes() {
    assert_eq!(SquareType::Square.width(), "w-16");
    assert_eq!(SquareType::HorizontalBorder.width(), "w-16");
    assert_eq!(SquareType::VerticalBorder.width(), "w-4");
    assert_eq!(SquareType::Corner.width(), "w-4");
    assert_eq!(SquareType::Square.height(), "h-16");
    assert_eq!(SquareType::VerticalBorder.height(), "h-16");
    assert_eq!(SquareType::HorizontalBorder.height(), "h-4");
    assert_eq!(SquareType::Corner.height(), "h-4");
}

#[test]
fn walls_under_cells() {
    let v = |r, c| (WallDirection::Vertical, Position { row: r, col: c });
    let h = |r, c| (WallDirection::Horizontal, Position { row: r, col: c });
    assert_eq!(part_of_walls(SquareType::VerticalBorder, 0, 1), vec![v(0, 0)]);
    assert_eq!(part_of_walls(SquareType::VerticalBorder, 4, 5), vec![v(1, 2), v(2, 2)]);
    assert_eq!(part_of_walls(SquareType::VerticalBorder, 16, 5), vec![v(7, 2)]);
    assert_eq!(part_of_walls(SquareType::VerticalBorder, 4, 16), vec![]);
    assert_eq!(part_of_walls(SquareType::HorizontalBorder, 1, 0), vec![h(0, 0)]);
    assert_eq!(part_of_walls(SquareType::HorizontalBorder, 3, 6), vec![h(1, 2), h(1, 3)]);
    assert_eq!(part_of_walls(SquareType::HorizontalBorder, 3, 16), vec![h(1, 7)]);
    assert_eq!(part_of_walls(SquareType::HorizontalBorder, 16, 2), vec![]);
    assert_eq!(part_of_walls(SquareType::Corner, 5, 7), vec![h(2, 3), v(2, 3)]);
    assert_eq!(part_of_walls(SquareType::Square, 4, 4), vec![]);
}

#[test]
fn wall_columns_must_be_reflectable() {
    assert!(wall(WallDirection::Vertical, 0, 0).is_well_formed());
    assert!(wall(WallDirection::Vertical, 7, 7).is_well_formed());
    assert!(wall(WallDirection::Vertical, 8, 9).is_well_formed());
    assert!(wall(WallDirection::Horizontal, 0, -120).is_well_formed());
    assert!(!wall(WallDirection::Horizontal, 0, -121).is_well_formed());
    assert_eq!(wall(WallDirection::Horizontal, 0, -120).mirror_move(), wall(WallDirection::Horizontal, 0, 127));
    assert!(Move::PawnMove(PawnMove::Left, Some(PawnMove::Left)).is_well_formed());
}
