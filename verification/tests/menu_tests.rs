use terse::address::ServerUrl;
use terse::posts::Post;
use terse::search::{
    digit_index, MenuRequest, PostWidget, SearchBar, SearchMenu, SearchMenuMode, SearchResult, SearchResultHeader,
    SearchResults,
};
use terse::server::Server;
use terse::tui::{App, KeyCode, KeyEvent, ListSelection, ScrollState, Selectable};

fn key(c: char) -> KeyEvent {
    KeyEvent::new(KeyCode::Char(c), false)
}

fn ctrl(c: char) -> KeyEvent {
    KeyEvent::new(KeyCode::Char(c), true)
}

fn hit(title: &str, id: u16) -> SearchResult {
    SearchResult::new(
        SearchResultHeader { title: String::from(title), postid: id },
        Server::new(ServerUrl::parse("http://s.org").unwrap(), None),
    )
}

fn menu() -> SearchMenu {
    SearchMenu::new(String::from("rust"), SearchResults::new(vec![hit("one", 10), hit("two", 20)]))
}

#[test]
fn enter_asks_for_the_chosen_post() {
    let mut m = menu();
    assert!(matches!(m.handle_key_event(key('j')), MenuRequest::Nothing));
    assert_eq!(m.results().selected(), Some(1));
    match m.handle_key_event(KeyEvent::new(KeyCode::Enter, false)) {
        MenuRequest::FetchPost { server, postid } => {
            assert_eq!(postid, 20);
            assert_eq!(server.url().as_str(), "http://s.org/");
        }
        _ => panic!("expected a fetch"),
    }
    assert!(matches!(m.mode(), SearchMenuMode::Results));
    m.open_post(Post::new(String::from("two"), String::from("text")));
    assert!(matches!(m.mode(), SearchMenuMode::Answer(_)));
    m.handle_key_event(key('j'));
    match m.mode() {
        SearchMenuMode::Answer(w) => assert_eq!(w.position(), 1),
        _ => panic!("expected a post"),
    }
    m.handle_key_event(key('b'));
    assert!(matches!(m.mode(), SearchMenuMode::Results));
    assert_eq!(m.results().selected(), Some(1));
}

#[test]
fn search_bar_round_trip() {
    let mut m = menu();
    m.handle_key_event(ctrl('k'));
    assert!(matches!(m.mode(), SearchMenuMode::Search));
    m.handle_key_event(key('!'));
    assert_eq!(m.search_text(), "rust!");
    m.handle_key_event(KeyEvent::new(KeyCode::Backspace, false));
    assert_eq!(m.search_text(), "rust");
    match m.handle_key_event(KeyEvent::new(KeyCode::Enter, false)) {
        MenuRequest::Search { query } => assert_eq!(query, "rust"),
        _ => panic!("expected a search"),
    }
    m.show_results(vec![hit("three", 30)]);
    assert!(matches!(m.mode(), SearchMenuMode::Results));
    assert_eq!(m.results().len(), 1);
    assert_eq!(m.results().selected(), Some(0));
    m.handle_key_event(ctrl('k'));
    m.handle_key_event(ctrl('j'));
    assert!(matches!(m.mode(), SearchMenuMode::Results));
    assert_eq!(m.search_text(), "rust");
}

#[test]
fn search_bar_edits() {
    let mut b = SearchBar::new(String::new());
    b.handle_key_event(KeyEvent::new(KeyCode::Backspace, false));
    assert_eq!(b.text, "");
    b.handle_key_event(key('a'));
    b.handle_key_event(KeyEvent::new(KeyCode::Enter, false));
    assert_eq!(b.text, "a");
}

#[test]
fn results_width_and_scrolling() {
    let mut r = SearchResults::new(vec![hit("abc", 1), hit("héllo", 2)]);
    assert_eq!(r.get_width(), 6);
    assert_eq!(SearchResults::new(vec![]).get_width(), 10);
    r.handle_key_event(key('k'));
    assert_eq!(r.selected(), Some(0));
    r.handle_key_event(key('j'));
    r.handle_key_event(key('j'));
    assert_eq!(r.selected(), Some(2));
    assert!(r.chosen_link().is_none());
    r.select(Some(1));
    assert_eq!(r.chosen_link().unwrap().header.postid, 2);
}

#[test]
fn scrollbar_stays_in_range() {
    let mut s = ScrollState::new(3);
    s.prev();
    assert_eq!(s.get_position(), 0);
    s.next();
    s.next();
    s.next();
    assert_eq!(s.get_position(), 2);
    let mut z = ScrollState::new(0);
    z.next();
    assert_eq!(z.get_position(), 0);
    let mut w = PostWidget::new(Post::new(String::from("t"), String::from("c")));
    for _ in 0..150 {
        w.handle_key_event(key('j'));
    }
    assert_eq!(w.position(), 99);
    assert_eq!(w.post().title, "t");
}

#[test]
fn list_selection_moves() {
    let mut l = ListSelection::new();
    assert_eq!(l.selected(), None);
    l.scroll_down_by(3);
    assert_eq!(l.selected(), Some(3));
    l.scroll_up_by(5);
    assert_eq!(l.selected(), Some(0));
    l.select(Some(usize::MAX));
    l.scroll_down_by(1);
    assert_eq!(l.selected(), Some(usize::MAX));
}

#[test]
fn escape_leaves_the_app() {
    let mut app = App::default();
    assert!(!app.should_exit());
    assert_eq!(app.handle_key_event(KeyCode::Char('j')), Some(KeyCode::Char('j')));
    assert!(!app.should_exit());
    assert_eq!(app.handle_key_event(KeyCode::Esc), None);
    assert!(app.should_exit());
}

#[test]
fn selectable_items() {
    let mut s = Selectable::new(vec![5, 6]);
    assert_eq!(s.selected_item(), Some(&5));
    s.state.select(Some(1));
    assert_eq!(s.selected_item(), Some(&6));
    s.state.select(Some(2));
    assert_eq!(s.selected_item(), None);
    s.state.select(None);
    assert_eq!(s.selected_item(), None);
}

#[test]
fn panel_width_follows_titles() {
    assert_eq!(menu().results_panel_width(), 35);
    let long = "x".repeat(40);
    let m = SearchMenu::new(String::new(), SearchResults::new(vec![hit(&long, 1)]));
    assert_eq!(m.results_panel_width(), 48);
    let empty = SearchMenu::new(String::new(), SearchResults::new(vec![]));
    assert_eq!(empty.results_panel_width(), 35);
}

fn arrow(code: KeyCode) -> KeyEvent {
    KeyEvent::new(code, false)
}

#[test]
fn arrow_keys_scroll_the_hits() {
    let mut r = SearchResults::new(vec![hit("one", 10), hit("two", 20)]);
    assert_eq!(r.selected(), Some(0));
    r.handle_key_event(arrow(KeyCode::Down));
    assert_eq!(r.selected(), Some(1));
    r.handle_key_event(arrow(KeyCode::Up));
    assert_eq!(r.selected(), Some(0));
    r.handle_key_event(arrow(KeyCode::Up));
    assert_eq!(r.selected(), Some(0));
    let mut m = menu();
    assert!(matches!(m.handle_key_event(arrow(KeyCode::Down)), MenuRequest::Nothing));
    assert_eq!(m.results().selected(), Some(1));
}

#[test]
fn arrow_keys_scroll_a_post() {
    let mut w = PostWidget::new(Post::new(String::from("t"), String::from("c")));
    w.handle_key_event(arrow(KeyCode::Down));
    w.handle_key_event(arrow(KeyCode::Down));
    assert_eq!(w.position(), 2);
    w.handle_key_event(arrow(KeyCode::Up));
    assert_eq!(w.position(), 1);
    w.handle_key_event(arrow(KeyCode::Other));
    assert_eq!(w.position(), 1);
}

#[test]
fn digits_name_hits_from_one() {
    assert_eq!(digit_index(key('1')), Some(0));
    assert_eq!(digit_index(key('3')), Some(2));
    assert_eq!(digit_index(key('9')), Some(8));
    assert_eq!(digit_index(key('0')), None);
    assert_eq!(digit_index(key('a')), None);
    assert_eq!(digit_index(arrow(KeyCode::Enter)), None);
}

#[test]
fn typing_a_number_opens_that_hit() {
    let mut m = menu();
    match m.handle_key_event(key('2')) {
        MenuRequest::FetchPost { postid, .. } => assert_eq!(postid, 20),
        _ => panic!("expected a fetch"),
    }
    assert_eq!(m.results().selected(), Some(1));
    assert!(matches!(m.mode(), SearchMenuMode::Results));
    assert!(matches!(m.handle_key_event(key('3')), MenuRequest::Nothing));
    assert_eq!(m.results().selected(), Some(1));
    match m.handle_key_event(key('1')) {
        MenuRequest::FetchPost { postid, .. } => assert_eq!(postid, 10),
        _ => panic!("expected a fetch"),
    }
}

#[test]
fn keys_on_the_hits_leave_the_search_text() {
    let mut m = menu();
    m.handle_key_event(key('x'));
    m.handle_key_event(KeyEvent::new(KeyCode::Backspace, false));
    m.handle_key_event(key('2'));
    assert_eq!(m.search_text(), "rust");
    m.open_post(Post::new(String::from("two"), String::from("text")));
    m.handle_key_event(key('z'));
    assert_eq!(m.search_text(), "rust");
}
