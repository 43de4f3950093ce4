use vstd::prelude::*;
use crate::posts::Post;
use crate::server::{Server, ServerModel};
use crate::text::push_char;
use crate::tui::{
    KeyCode, KeyEvent, ListSelection, ScrollState, moved_down, moved_up, scroll_next, scroll_prev,
};

verus! {

/// A search hit as the server sends it: a post's title and id.
#[derive(Debug)]
pub struct SearchResultHeader {
    pub title: String,
    pub postid: u16,
}

/// A search hit, with the server it came from.
#[derive(Debug)]
pub struct SearchResult {
    pub header: SearchResultHeader,
    pub server: Server,
}

/// What a search hit is to the logic.
pub struct LinkModel {
    pub title: Seq<char>,
    pub postid: u16,
    pub server: ServerModel,
}

impl View for SearchResult {
    type V = LinkModel;

    open spec fn view(&self) -> LinkModel {
        LinkModel { title: self.header.title@, postid: self.header.postid, server: self.server@ }
    }
}

impl SearchResult {
    pub fn new(header: SearchResultHeader, server: Server) -> (r: SearchResult)
        ensures
            r@ == (LinkModel { title: header.title@, postid: header.postid, server: server@ }),
    {
        SearchResult { header, server }
    }
}

/// The views of a vector of search hits.
pub open spec fn link_views(v: Seq<SearchResult>) -> Seq<LinkModel> {
    v.map_values(|x: SearchResult| x@)
}

/// What a list of search hits is to the logic: the hits and the selection.
pub struct ResultsModel {
    pub links: Seq<LinkModel>,
    pub selected: Option<usize>,
}

/// The index of the hit that Enter opens: the selected one, or the first
/// where nothing is selected.
pub open spec fn chosen_index(r: ResultsModel) -> usize {
    match r.selected {
        Some(i) => i,
        None => 0,
    }
}

/// Whether the key moves down: `j` or the down arrow.
pub open spec fn moves_down(key: KeyEvent) -> bool {
    key.code == KeyCode::Char('j') || key.code == KeyCode::Down
}

/// Whether the key moves up: `k` or the up arrow.
pub open spec fn moves_up(key: KeyEvent) -> bool {
    key.code == KeyCode::Char('k') || key.code == KeyCode::Up
}

/// The hits after a key: `j` or the down arrow moves the selection down,
/// `k` or the up arrow moves it up, other keys leave them be.
pub open spec fn results_after_key(r: ResultsModel, key: KeyEvent) -> ResultsModel {
    if moves_down(key) {
        ResultsModel { links: r.links, selected: Some(moved_down(r.selected, 1)) }
    } else if moves_up(key) {
        ResultsModel { links: r.links, selected: Some(moved_up(r.selected, 1)) }
    } else {
        r
    }
}

/// The hit a digit key names, the hits being numbered from 1: a digit `d`
/// from 1 to 9 names the index `d - 1`; other keys name none.
pub open spec fn digit_hit(key: KeyEvent) -> Option<usize> {
    match key.code {
        KeyCode::Char(c) => if '1' <= c && c <= '9' {
            Some((c as u32 - '1' as u32) as usize)
        } else {
            None
        },
        _ => None,
    }
}

/// The index a digit key names (see `digit_hit`).
pub fn digit_index(key: KeyEvent) -> (r: Option<usize>)
    ensures
        r == digit_hit(key),
{
    match key.code {
        KeyCode::Char(c) => if '1' <= c && c <= '9' {
            Some((c as u32 - '1' as u32) as usize)
        } else {
            None
        },
        _ => None,
    }
}

/// The width the list of hits asks for: the longest title in bytes, or 10
/// where there are none.
pub open spec fn titles_width(links: Seq<LinkModel>) -> usize
    decreases links.len(),
{
    if links.len() == 0 {
        10
    } else if links.len() == 1 {
        byte_len(links[0].title)
    } else {
        let rest = titles_width(links.drop_last());
        let last = byte_len(links.last().title);
        if last > rest { last } else { rest }
    }
}

/// The length in bytes of a text (its UTF-8 encoding), as `str::len` gives it.
pub open spec fn byte_len(t: Seq<char>) -> usize {
    vstd::utf8::encode_utf8(t).len() as usize
}

/// The hits of a search, with one of them selected.
#[derive(Debug)]
pub struct SearchResults {
    links: Vec<SearchResult>,
    list_state: ListSelection,
}

impl View for SearchResults {
    type V = ResultsModel;

    closed spec fn view(&self) -> ResultsModel {
        ResultsModel { links: link_views(self.links@), selected: self.list_state.selected }
    }
}

impl SearchResults {
    /// The hits, with the first one selected.
    pub fn new(links: Vec<SearchResult>) -> (r: SearchResults)
        ensures
            r@ == (ResultsModel { links: link_views(links@), selected: Some(0usize) }),
    {
        let mut list_state = ListSelection::new();
        list_state.select_first();
        SearchResults { links, list_state }
    }

    /// The number of hits.
    pub fn len(&self) -> (r: usize)
        ensures
            r == self@.links.len(),
    {
        self.links.len()
    }

    /// The selected index.
    pub fn selected(&self) -> (r: Option<usize>)
        ensures
            r == self@.selected,
    {
        self.list_state.selected()
    }

    /// Sets the selection, as drawing the list brings it back within the
    /// list.
    pub fn select(&mut self, index: Option<usize>)
        ensures
            final(self)@ == (ResultsModel { links: old(self)@.links, selected: index }),
    {
        self.list_state.select(index);
    }

    /// The hits, to draw them.
    pub fn links(&self) -> (r: &Vec<SearchResult>)
        ensures
            link_views(r@) == self@.links,
    {
        &self.links
    }

    /// The hit that Enter opens; `None` where the selection points past the
    /// end.
    pub fn chosen_link(&self) -> (r: Option<&SearchResult>)
        ensures
            chosen_index(self@) < self@.links.len() ==> (r matches Some(x) && x@ == self@.links[chosen_index(self@) as int]),
            chosen_index(self@) >= self@.links.len() ==> r is None,
    {
        let i = match self.list_state.selected() {
            Some(i) => i,
            None => 0,
        };
        if i < self.links.len() {
            Some(&self.links[i])
        } else {
            None
        }
    }

    /// The width the list asks for: the longest title in bytes, or 10.
    pub fn get_width(&self) -> (r: usize)
        ensures
            r == titles_width(self@.links),
    {
        let n = self.links.len();
        if n == 0 {
            return 10;
        }
        let mut best: usize = self.links[0].header.title.as_str().len();
        assert(self@.links.take(1)[0] == self@.links[0]);
        assert(self@.links[0].title == self.links@[0].header.title@);
        let mut i: usize = 1;
        while i < n
            invariant
                n == self.links@.len(),
                1 <= i <= n,
                best == titles_width(self@.links.take(i as int)),
            decreases n - i,
        {
            let w = self.links[i].header.title.as_str().len();
            assert(self@.links.take(i as int + 1).drop_last() =~= self@.links.take(i as int));
            assert(self@.links.take(i as int + 1).last() == self@.links[i as int]);
            assert(self@.links[i as int].title == self.links@[i as int].header.title@);
            if w > best {
                best = w;
            }
            i = i + 1;
        }
        assert(self@.links.take(n as int) =~= self@.links);
        best
    }

    /// Takes a key: `j` or the down arrow moves down, `k` or the up arrow
    /// moves up.
    pub fn handle_key_event(&mut self, key: KeyEvent)
        ensures
            final(self)@ == results_after_key(old(self)@, key),
    {
        match key.code {
            KeyCode::Char('j') | KeyCode::Down => self.list_state.scroll_down_by(1),
            KeyCode::Char('k') | KeyCode::Up => self.list_state.scroll_up_by(1),
            _ => {},
        }
    }
}

/// The bar's text after a key: a character is typed, Backspace takes the
/// last one back.
pub open spec fn bar_after_key(text: Seq<char>, key: KeyEvent) -> Seq<char> {
    match key.code {
        KeyCode::Char(c) => text.push(c),
        KeyCode::Backspace => if text.len() > 0 { text.drop_last() } else { text },
        _ => text,
    }
}

/// Takes back the last character of a string (std's `String::pop`).
#[verifier::external_body]
fn pop_char(s: &mut String) -> (r: Option<char>)
    ensures
        old(s)@.len() == 0 ==> r is None && final(s)@ == old(s)@,
        old(s)@.len() > 0 ==> r == Some(old(s)@.last()) && final(s)@ == old(s)@.drop_last(),
{
    s.pop()
}

/// The line where the search words are typed.
#[derive(Debug)]
pub struct SearchBar {
    pub text: String,
}

impl SearchBar {
    pub fn new(query: String) -> (r: SearchBar)
        ensures
            r.text@ == query@,
    {
        SearchBar { text: query }
    }

    /// Takes a key: a character is typed, Backspace takes one back.
    pub fn handle_key_event(&mut self, key: KeyEvent)
        ensures
            final(self).text@ == bar_after_key(old(self).text@, key),
    {
        match key.code {
            KeyCode::Char(c) => push_char(&mut self.text, c),
            KeyCode::Backspace => {
                let _ = pop_char(&mut self.text);
            },
            _ => {},
        }
    }
}

/// The scrollbar after a key: `j` or the down arrow scrolls down, `k` or
/// the up arrow scrolls up.
pub open spec fn scroll_after_key(s: ScrollState, key: KeyEvent) -> ScrollState {
    if moves_down(key) {
        scroll_next(s)
    } else if moves_up(key) {
        scroll_prev(s)
    } else {
        s
    }
}

/// A post being read, with its scrollbar.
#[derive(Debug)]
pub struct PostWidget {
    post: Post,
    scroll_state: ScrollState,
}

/// What an open post is to the logic.
pub struct PostWidgetModel {
    pub post: (Seq<char>, Seq<char>),
    pub scroll: ScrollState,
}

impl View for PostWidget {
    type V = PostWidgetModel;

    closed spec fn view(&self) -> PostWidgetModel {
        PostWidgetModel { post: self.post@, scroll: self.scroll_state }
    }
}

impl PostWidget {
    /// The post, scrolled to the top of a scrollbar of 100 steps.
    pub fn new(post: Post) -> (r: PostWidget)
        ensures
            r@ == (PostWidgetModel { post: post@, scroll: ScrollState { content_length: 100, position: 0 } }),
    {
        PostWidget { post, scroll_state: ScrollState::new(100) }
    }

    /// The post.
    pub fn post(&self) -> (r: &Post)
        ensures
            r@ == self@.post,
    {
        &self.post
    }

    /// How far the post is scrolled.
    pub fn position(&self) -> (r: usize)
        ensures
            r == self@.scroll.position,
    {
        self.scroll_state.get_position()
    }

    /// Takes a key: `j` or the down arrow scrolls down, `k` or the up arrow
    /// scrolls up.
    pub fn handle_key_event(&mut self, key: KeyEvent)
        ensures
            final(self)@ == (PostWidgetModel { post: old(self)@.post, scroll: scroll_after_key(old(self)@.scroll, key) }),
    {
        match key.code {
            KeyCode::Char('j') | KeyCode::Down => self.scroll_state.next(),
            KeyCode::Char('k') | KeyCode::Up => self.scroll_state.prev(),
            _ => {},
        }
    }
}

/// What the search menu shows: the hits, an open post, or the search bar.
#[derive(Debug)]
pub enum SearchMenuMode {
    Results,
    Answer(PostWidget),
    Search,
}

/// What the menu shows, to the logic.
pub enum ModeModel {
    Results,
    Answer(PostWidgetModel),
    Search,
}

/// The search menu: the hits, the search bar, and what is shown.
#[derive(Debug)]
pub struct SearchMenu {
    results: SearchResults,
    search_bar: SearchBar,
    mode: SearchMenuMode,
}

/// What the search menu is to the logic.
pub struct MenuModel {
    pub results: ResultsModel,
    pub bar: Seq<char>,
    pub mode: ModeModel,
}

/// What the menu needs from a server after a key: nothing, the post a hit
/// points to, or the hits for the words in the search bar.
#[derive(Debug)]
pub enum MenuRequest {
    Nothing,
    FetchPost { server: Server, postid: u16 },
    Search { query: String },
}

/// What the menu asks for, to the logic.
pub enum RequestModel {
    Nothing,
    FetchPost { server: ServerModel, postid: u16 },
    Search { query: Seq<char> },
}

impl View for SearchMenuMode {
    type V = ModeModel;

    open spec fn view(&self) -> ModeModel {
        match self {
            SearchMenuMode::Results => ModeModel::Results,
            SearchMenuMode::Answer(w) => ModeModel::Answer(w@),
            SearchMenuMode::Search => ModeModel::Search,
        }
    }
}

impl View for SearchMenu {
    type V = MenuModel;

    closed spec fn view(&self) -> MenuModel {
        MenuModel { results: self.results@, bar: self.search_bar.text@, mode: self.mode@ }
    }
}

impl View for MenuRequest {
    type V = RequestModel;

    open spec fn view(&self) -> RequestModel {
        match self {
            MenuRequest::Nothing => RequestModel::Nothing,
            MenuRequest::FetchPost { server, postid } => RequestModel::FetchPost { server: server@, postid: *postid },
            MenuRequest::Search { query } => RequestModel::Search { query: query@ },
        }
    }
}

/// Whether the key is the given letter with Ctrl held.
pub open spec fn is_ctrl(key: KeyEvent, c: char) -> bool {
    key.code == KeyCode::Char(c) && key.ctrl
}

/// The menu after a key, and what it asks of the server.
///
/// Ctrl+K goes to the search bar from the hits or from a post; Ctrl+J goes
/// back from the search bar to the hits. Otherwise: on the hits, Enter asks
/// for the chosen post, a digit from 1 to 9 selects the hit of that number
/// and asks for its post (where there is such a hit; else nothing happens),
/// and other keys move the selection; on a post, `b`
/// goes back to the hits and other keys scroll; on the search bar, keys edit
/// the text, and Enter asks for the hits of what it holds.
pub open spec fn menu_step(m: MenuModel, key: KeyEvent) -> (MenuModel, RequestModel) {
    match m.mode {
        ModeModel::Results => if is_ctrl(key, 'k') {
            (MenuModel { mode: ModeModel::Search, ..m }, RequestModel::Nothing)
        } else if key.code == KeyCode::Enter {
            let link = m.results.links[chosen_index(m.results) as int];
            (m, RequestModel::FetchPost { server: link.server, postid: link.postid })
        } else if digit_hit(key) is Some {
            let i = digit_hit(key).unwrap();
            if i < m.results.links.len() {
                let link = m.results.links[i as int];
                (
                    MenuModel { results: ResultsModel { links: m.results.links, selected: Some(i) }, ..m },
                    RequestModel::FetchPost { server: link.server, postid: link.postid },
                )
            } else {
                (m, RequestModel::Nothing)
            }
        } else {
            (MenuModel { results: results_after_key(m.results, key), ..m }, RequestModel::Nothing)
        },
        ModeModel::Answer(w) => if is_ctrl(key, 'k') {
            (MenuModel { mode: ModeModel::Search, ..m }, RequestModel::Nothing)
        } else if key.code == KeyCode::Char('b') {
            (MenuModel { mode: ModeModel::Results, ..m }, RequestModel::Nothing)
        } else {
            (
                MenuModel {
                    mode: ModeModel::Answer(PostWidgetModel { post: w.post, scroll: scroll_after_key(w.scroll, key) }),
                    ..m
                },
                RequestModel::Nothing,
            )
        },
        ModeModel::Search => if is_ctrl(key, 'j') {
            (MenuModel { mode: ModeModel::Results, ..m }, RequestModel::Nothing)
        } else {
            (
                MenuModel { bar: bar_after_key(m.bar, key), ..m },
                if key.code == KeyCode::Enter {
                    RequestModel::Search { query: m.bar }
                } else {
                    RequestModel::Nothing
                },
            )
        },
    }
}

/// Enter on the hits opens the chosen one, so there must be one.
pub open spec fn key_allowed(m: MenuModel, key: KeyEvent) -> bool {
    (m.mode is Results && !is_ctrl(key, 'k') && key.code == KeyCode::Enter) ==> chosen_index(m.results)
        < m.results.links.len()
}

impl SearchMenu {
    /// The menu for the words `query` and their hits, showing the hits.
    pub fn new(query: String, results: SearchResults) -> (r: SearchMenu)
        ensures
            r@ == (MenuModel { results: results@, bar: query@, mode: ModeModel::Results }),
    {
        SearchMenu { results, search_bar: SearchBar::new(query), mode: SearchMenuMode::Results }
    }

    /// The hits.
    pub fn results(&self) -> (r: &SearchResults)
        ensures
            r@ == self@.results,
    {
        &self.results
    }

    /// The hits, to bring their selection back within the list after drawing.
    pub fn results_mut(&mut self) -> (r: &mut SearchResults)
        ensures
            r@ == old(self)@.results,
            final(self)@ == (MenuModel { results: final(r)@, ..old(self)@ }),
    {
        &mut self.results
    }

    /// The width of the panel that lists the hits: the widest title (cut
    /// down to 16 bits) plus 8, and at least 35.
    pub fn results_panel_width(&self) -> (r: u16)
        requires
            (titles_width(self@.results.links) as u16) + 8 <= u16::MAX,
        ensures
            r == if (titles_width(self@.results.links) as u16) + 8 > 35 {
                ((titles_width(self@.results.links) as u16) + 8) as u16
            } else {
                35
            },
    {
        let w = self.results.get_width() as u16 + 8;
        if w > 35 { w } else { 35 }
    }

    /// The search bar's text.
    pub fn search_text(&self) -> (r: &str)
        ensures
            r@ == self@.bar,
    {
        self.search_bar.text.as_str()
    }

    /// What is shown.
    pub fn mode(&self) -> (r: &SearchMenuMode)
        ensures
            r@ == self@.mode,
    {
        &self.mode
    }

    /// Takes a key (see `menu_step`) and says what it needs from the server.
    pub fn handle_key_event(&mut self, key: KeyEvent) -> (r: MenuRequest)
        requires
            key_allowed(old(self)@, key),
        ensures
            (final(self)@, r@) == menu_step(old(self)@, key),
    {
        let ctrl_k = match key.code {
            KeyCode::Char('k') => key.ctrl,
            _ => false,
        };
        let ctrl_j = match key.code {
            KeyCode::Char('j') => key.ctrl,
            _ => false,
        };
        match &self.mode {
            SearchMenuMode::Results | SearchMenuMode::Answer(_) => {
                if ctrl_k {
                    self.mode = SearchMenuMode::Search;
                    return MenuRequest::Nothing;
                }
            },
            SearchMenuMode::Search => {
                if ctrl_j {
                    self.mode = SearchMenuMode::Results;
                    return MenuRequest::Nothing;
                }
            },
        }
        match &mut self.mode {
            SearchMenuMode::Results => {
                match key.code {
                    KeyCode::Enter => {
                        match self.results.chosen_link() {
                            Some(link) => MenuRequest::FetchPost {
                                server: link.server.duplicate(),
                                postid: link.header.postid,
                            },
                            None => MenuRequest::Nothing,
                        }
                    },
                    _ => match digit_index(key) {
                        Some(i) => {
                            if i < self.results.len() {
                                self.results.select(Some(i));
                                match self.results.chosen_link() {
                                    Some(link) => MenuRequest::FetchPost {
                                        server: link.server.duplicate(),
                                        postid: link.header.postid,
                                    },
                                    None => MenuRequest::Nothing,
                                }
                            } else {
                                MenuRequest::Nothing
                            }
                        },
                        None => {
                            self.results.handle_key_event(key);
                            MenuRequest::Nothing
                        },
                    },
                }
            },
            SearchMenuMode::Answer(post_widget) => {
                match key.code {
                    KeyCode::Char('b') => {
                        self.mode = SearchMenuMode::Results;
                    },
                    _ => post_widget.handle_key_event(key),
                }
                MenuRequest::Nothing
            },
            SearchMenuMode::Search => {
                let request = match key.code {
                    KeyCode::Enter => MenuRequest::Search { query: self.search_bar.text.clone() },
                    _ => MenuRequest::Nothing,
                };
                self.search_bar.handle_key_event(key);
                request
            },
        }
    }

    /// Shows the post that was fetched for the chosen hit.
    pub fn open_post(&mut self, post: Post)
        ensures
            final(self)@ == (MenuModel {
                mode: ModeModel::Answer(PostWidgetModel { post: post@, scroll: ScrollState { content_length: 100, position: 0 } }),
                ..old(self)@
            }),
    {
        self.mode = SearchMenuMode::Answer(PostWidget::new(post));
    }

    /// Shows the hits that a search from the bar brought, the first one
    /// selected.
    pub fn show_results(&mut self, links: Vec<SearchResult>)
        ensures
            final(self)@ == (MenuModel {
                results: ResultsModel { links: link_views(links@), selected: Some(0usize) },
                mode: ModeModel::Results,
                ..old(self)@
            }),
    {
        self.results = SearchResults::new(links);
        self.mode = SearchMenuMode::Results;
    }
}

/// Going to the search bar with Ctrl+K from the hits, and back with
/// Ctrl+J, leaves the menu as it was, and asks nothing of the server.
pub proof fn lemma_search_and_back(m: MenuModel, k: KeyEvent, j: KeyEvent)
    requires
        m.mode is Results,
        is_ctrl(k, 'k'),
        is_ctrl(j, 'j'),
    ensures
        menu_step(menu_step(m, k).0, j).0 == m,
        menu_step(m, k).1 is Nothing,
        menu_step(menu_step(m, k).0, j).1 is Nothing,
{
}

/// Opening a post and pressing `b` shows the hits again as they were.
pub proof fn lemma_back_from_post(m: MenuModel, w: PostWidgetModel, b: KeyEvent)
    requires
        b.code == KeyCode::Char('b'),
    ensures
        menu_step(MenuModel { mode: ModeModel::Answer(w), ..m }, b).0 == (MenuModel { mode: ModeModel::Results, ..m }),
{
}

/// In the search bar, typing a character and then Backspace gives back the
/// text there was.
pub proof fn lemma_type_then_erase(m: MenuModel, c: char, ctrl: bool, back: KeyEvent)
    requires
        m.mode is Search,
        !(c == 'j' && ctrl),
        back.code == KeyCode::Backspace,
    ensures
        menu_step(menu_step(m, KeyEvent { code: KeyCode::Char(c), ctrl }).0, back).0.bar == m.bar,
{
    assert(m.bar.push(c).drop_last() =~= m.bar);
}

/// Moving the selection down and back up by one (with `j` and `k` or the
/// arrow keys) returns it where it was, short of the largest index.
pub proof fn lemma_down_then_up(r: ResultsModel, j: KeyEvent, k: KeyEvent)
    requires
        moves_down(j),
        moves_up(k),
        r.selected matches Some(i) && i < usize::MAX,
    ensures
        results_after_key(results_after_key(r, j), k) == r,
{
}

/// The search bar's text changes only on keys that come while the bar is
/// shown: on the hits and on a post, every key leaves it as it was.
pub proof fn lemma_bar_kept_outside_search(m: MenuModel, key: KeyEvent)
    requires
        !(m.mode is Search),
    ensures
        menu_step(m, key).0.bar == m.bar,
{
}

/// On the hits, a digit naming a hit selects that hit and asks for its
/// post; a digit past the last hit changes nothing and asks nothing.
pub proof fn lemma_digit_opens_hit(m: MenuModel, key: KeyEvent)
    requires
        m.mode is Results,
        digit_hit(key) is Some,
    ensures
        digit_hit(key).unwrap() < m.results.links.len() ==> {
            let i = digit_hit(key).unwrap();
            &&& menu_step(m, key).0.results.selected == Some(i)
            &&& menu_step(m, key).1 == (RequestModel::FetchPost {
                server: m.results.links[i as int].server,
                postid: m.results.links[i as int].postid,
            })
        },
        digit_hit(key).unwrap() >= m.results.links.len() ==> menu_step(m, key) == (m, RequestModel::Nothing),
{
}

/// Ctrl+K goes to the search bar from the hits and from an open post alike,
/// keeping the hits and the bar's text, and asks nothing of the server;
/// Ctrl+J goes back from the search bar to the hits in the same way.
pub proof fn lemma_ctrl_switches_panes(m: MenuModel, key: KeyEvent)
    ensures
        !(m.mode is Search) && is_ctrl(key, 'k') ==> {
            &&& menu_step(m, key).0.mode is Search
            &&& menu_step(m, key).0.results == m.results
            &&& menu_step(m, key).0.bar == m.bar
            &&& menu_step(m, key).1 is Nothing
        },
        m.mode is Search && is_ctrl(key, 'j') ==> {
            &&& menu_step(m, key).0.mode is Results
            &&& menu_step(m, key).0.results == m.results
            &&& menu_step(m, key).0.bar == m.bar
            &&& menu_step(m, key).1 is Nothing
        },
{
}

/// The width asked for the hits is that of the longest title: no title is
/// wider, and some title is exactly that wide; with no hits it is 10.
pub proof fn lemma_width_is_longest_title(links: Seq<LinkModel>)
    ensures
        links.len() == 0 ==> titles_width(links) == 10,
        forall|i: int| 0 <= i < links.len() ==> byte_len(#[trigger] links[i].title) <= titles_width(links),
        links.len() > 0 ==> exists|i: int|
            0 <= i < links.len() && byte_len(#[trigger] links[i].title) == titles_width(links),
    decreases links.len(),
{
    if links.len() == 1 {
        assert(byte_len(links[0].title) == titles_width(links));
    } else if links.len() > 1 {
        let rest = links.drop_last();
        lemma_width_is_longest_title(rest);
        let last = links.len() - 1;
        assert forall|i: int| 0 <= i < links.len() implies byte_len(#[trigger] links[i].title) <= titles_width(links) by {
            if i < rest.len() {
                assert(rest[i] == links[i]);
                assert(byte_len(rest[i].title) <= titles_width(rest));
            }
        }
        if byte_len(links.last().title) > titles_width(rest) {
            assert(byte_len(links[last].title) == titles_width(links));
        } else {
            let w = choose|i: int| 0 <= i < rest.len() && byte_len(#[trigger] rest[i].title) == titles_width(rest);
            assert(rest[w] == links[w]);
            assert(byte_len(links[w].title) == titles_width(links));
        }
    }
}

/// A digit key names the hit of its number, counting from 1: the digit
/// worth `d` (1 to 9) names the index `d - 1`, whatever Ctrl is doing; `0`,
/// other characters and other keys name no hit.
pub proof fn lemma_digits_name_hits(c: char, ctrl: bool, code: KeyCode)
    ensures
        '1' <= c <= '9' ==> (digit_hit(KeyEvent { code: KeyCode::Char(c), ctrl }) matches Some(i)
            && i + 1 == (c as u32) - ('0' as u32)),
        !('1' <= c <= '9') ==> digit_hit(KeyEvent { code: KeyCode::Char(c), ctrl }) is None,
        !(code is Char) ==> digit_hit(KeyEvent { code, ctrl }) is None,
{
}

} // verus!
