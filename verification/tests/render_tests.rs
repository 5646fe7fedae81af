use snake_core::draw::{Color, DrawCmd, Label, TEXT_SIZE_PX};
use snake_core::game::{Game, Lost};
use snake_core::grid::CELL_SIZE_PX;
use snake_core::input::Key;
use snake_core::menu::Menu;

#[test]
fn menu_frame_lists_title_entries_and_cursor() {
    let m = Menu::new();
    let r = m.render();
    assert_eq!(r.len(), 5);
    assert_eq!(r[0], DrawCmd::Clear(Color::Green));
    assert_eq!(r[1], DrawCmd::Text { label: Label::Title, x: 10, y: 12, size: TEXT_SIZE_PX });
    assert_eq!(
        r[2],
        DrawCmd::Text { label: Label::NewGameEntry, x: 14, y: 50, size: TEXT_SIZE_PX }
    );
    assert_eq!(r[3], DrawCmd::Text { label: Label::QuitEntry, x: 14, y: 70, size: TEXT_SIZE_PX });
    assert_eq!(r[4], DrawCmd::Text { label: Label::Cursor, x: 5, y: 50, size: TEXT_SIZE_PX });
}

#[test]
fn menu_cursor_follows_the_selection() {
    let mut m = Menu::new();
    m.handle_event(Key::Down);
    let r = m.render();
    assert_eq!(r[4], DrawCmd::Text { label: Label::Cursor, x: 5, y: 70, size: TEXT_SIZE_PX });
}

#[test]
fn game_frame_draws_body_head_first_then_apple() {
    let g = Game::new();
    let r = g.render();
    assert_eq!(r.len(), 4);
    assert_eq!(r[0], DrawCmd::Clear(Color::Green));
    assert_eq!(
        r[1],
        DrawCmd::Rect { color: Color::Red, x: CELL_SIZE_PX, y: 0, side: CELL_SIZE_PX }
    );
    assert_eq!(r[2], DrawCmd::Rect { color: Color::Red, x: 0, y: 0, side: CELL_SIZE_PX });
    assert_eq!(
        r[3],
        DrawCmd::Rect {
            color: Color::Orange,
            x: 3 * CELL_SIZE_PX,
            y: 3 * CELL_SIZE_PX,
            side: CELL_SIZE_PX
        }
    );
}

#[test]
fn lost_frame_shows_the_score() {
    let l = Lost(7);
    let r = l.render();
    assert_eq!(r.len(), 3);
    assert_eq!(r[0], DrawCmd::Clear(Color::Green));
    assert_eq!(r[1], DrawCmd::Text { label: Label::YouLost, x: 10, y: 12, size: TEXT_SIZE_PX });
    assert_eq!(r[2], DrawCmd::Text { label: Label::Score(7), x: 50, y: 50, size: TEXT_SIZE_PX });
}
