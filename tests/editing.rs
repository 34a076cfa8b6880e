use irc_tui::tui::constants::{MIN_BUFFER_LIST_WIDTH, MIN_NICK_LIST_WIDTH};
use irc_tui::tui::position::{Point, Size};
use irc_tui::tui::prompt::Prompt;
use irc_tui::tui::traits::{Dirty, Resize};
use irc_tui::tui::widgets::bufferlist::BufferList;
use irc_tui::tui::widgets::nicklist::NickList;
use irc_tui::tui::widgets::status::Status;
use irc_tui::tui::widgets::topic::Topic;
use irc_tui::tui::widgets::vertbar::{VertBar, VertBarType};

fn text(p: &Prompt) -> String {
    p.buffer().iter().collect()
}

fn prompt_with(s: &str) -> Prompt {
    let mut p = Prompt::new();
    p.insert_str(s);
    p
}

#[test]
fn typing_inserts_at_the_cursor() {
    let mut p = prompt_with("held");
    p.left_char();
    p.left_char();
    p.insert('l');
    assert_eq!(text(&p), "helld");
    assert_eq!(p.cursor(), 3);
    p.home();
    p.insert_str(">> ");
    assert_eq!(text(&p), ">> helld");
    p.end();
    assert_eq!(p.cursor(), 8);
    p.right_char();
    assert_eq!(p.cursor(), 8);
}

#[test]
fn backspace_and_delete() {
    let mut p = prompt_with("abc");
    p.backspace();
    assert_eq!(text(&p), "ab");
    p.home();
    p.backspace();
    assert_eq!(text(&p), "ab");
    p.delete();
    assert_eq!(text(&p), "b");
    p.end();
    p.delete();
    assert_eq!(text(&p), "b");
}

#[test]
fn word_moves() {
    let mut p = prompt_with("one two  three");
    p.left_word();
    assert_eq!(p.cursor(), 8);
    p.left_word();
    assert_eq!(p.cursor(), 3);
    p.right_word();
    assert_eq!(p.cursor(), 7);
    p.home();
    p.right_word();
    assert_eq!(p.cursor(), 3);
}

#[test]
fn remove_right_word_deletes_space_then_word() {
    let mut p = prompt_with("one two  three");
    p.home();
    p.right_word();
    p.remove_right_word();
    assert_eq!(text(&p), "one  three");
    assert_eq!(p.cursor(), 3);
}

#[test]
fn remove_left_word_from_the_end() {
    let mut p = prompt_with("one two");
    p.remove_left_word();
    assert_eq!(text(&p), "one ");
    assert_eq!(p.cursor(), 3);
    let mut p = prompt_with("word");
    p.remove_left_word();
    assert_eq!(text(&p), "");
    assert_eq!(p.cursor(), 0);
}

#[test]
fn clear_and_delete_until_end() {
    let mut p = prompt_with("hello world");
    p.home();
    p.right_word();
    p.delete_until_end();
    assert_eq!(text(&p), "hello");
    p.clear();
    assert_eq!(text(&p), "");
    assert_eq!(p.cursor(), 0);
}

#[test]
fn scroll_follows_the_cursor() {
    let mut p = prompt_with("abcdefghij");
    p.sync_scroll_with_cursor(4);
    assert_eq!(p.scroll(), 6);
    p.home();
    p.sync_scroll_with_cursor(4);
    assert_eq!(p.scroll(), 0);
}

#[test]
fn points_and_sizes() {
    let p = Point { x: 1, y: 2 };
    assert_eq!(p.set_x(5), Point { x: 5, y: 2 });
    assert_eq!(p.set_y(7), Point { x: 1, y: 7 });
    let s = Size { width: 3, height: 4 };
    assert_eq!(s.set_width(9), Size { width: 9, height: 4 });
    assert_eq!(s.set_height(0), Size { width: 3, height: 0 });
}

#[test]
fn widgets_are_laid_out() {
    let b = BufferList::new(100, 40);
    assert_eq!(b.pos, Point { x: 0, y: 0 });
    assert_eq!(b.size, Size { width: MIN_BUFFER_LIST_WIDTH, height: 40 });
    let n = NickList::new(100, 40);
    assert_eq!(n.pos, Point { x: 100 - MIN_NICK_LIST_WIDTH, y: 1 });
    assert_eq!(n.size, Size { width: MIN_NICK_LIST_WIDTH, height: 37 });
    let t = Topic::new(100, 40);
    assert_eq!(t.size, Size { width: 100 - MIN_BUFFER_LIST_WIDTH - 1, height: 1 });
    assert_eq!(t.text(), "Topic");
    let s = Status::new(100, 40);
    assert_eq!(s.pos(), Point { x: MIN_BUFFER_LIST_WIDTH + 1, y: 38 });
    assert_eq!(s.text(), "STATUS BAR");
    let l = VertBar::new(100, 40, VertBarType::Left);
    assert_eq!(l.pos, Point { x: MIN_BUFFER_LIST_WIDTH, y: 0 });
    assert_eq!(l.ch(), '\u{2502}');
    let r = VertBar::new(100, 40, VertBarType::Right);
    assert_eq!(r.pos, Point { x: 100 - MIN_NICK_LIST_WIDTH - 1, y: 1 });
    assert_eq!(r.size, Size { width: 1, height: 37 });
}

#[test]
fn widgets_resize_and_track_drawing() {
    let mut t = Topic::new(100, 40);
    assert!(t.is_dirty());
    t.clean();
    assert!(!t.is_dirty());
    t.dirty();
    assert!(t.is_dirty());
    t.resize(Point { x: 3, y: 4 }, Size { width: 5, height: 6 });
    assert_eq!(t.pos, Point { x: 3, y: 4 });
    assert_eq!(t.size, Size { width: 5, height: 6 });
}
