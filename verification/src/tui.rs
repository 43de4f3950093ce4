use vstd::prelude::*;

verus! {

/// A key the user pressed, as far as the menus tell keys apart.
#[derive(Debug, Clone, Copy, PartialEq, Eq)]
pub enum KeyCode {
    Char(char),
    Enter,
    Backspace,
    Esc,
    Up,
    Down,
    Other,
}

/// A key press, with whether Ctrl was held.
#[derive(Debug, Clone, Copy, PartialEq, Eq)]
pub struct KeyEvent {
    pub code: KeyCode,
    pub ctrl: bool,
}

impl KeyEvent {
    pub fn new(code: KeyCode, ctrl: bool) -> (r: KeyEvent)
        ensures
            r == (KeyEvent { code, ctrl }),
    {
        KeyEvent { code, ctrl }
    }
}

/// The main loop's own state: whether the user asked to leave.
#[derive(Debug)]
pub struct App {
    exit: bool,
}

impl Default for App {
    fn default() -> (r: App)
        ensures
            !r.exiting(),
    {
        App { exit: false }
    }
}

impl App {
    /// Whether the user asked to leave.
    pub closed spec fn exiting(&self) -> bool {
        self.exit
    }

    /// Whether the loop should stop.
    pub fn should_exit(&self) -> (r: bool)
        ensures
            r == self.exiting(),
    {
        self.exit
    }

    /// Takes one pressed key: Esc asks to leave; any other key is handed
    /// back, for the open window to handle.
    pub fn handle_key_event(&mut self, key: KeyCode) -> (r: Option<KeyCode>)
        ensures
            key == KeyCode::Esc ==> r is None && final(self).exiting(),
            key != KeyCode::Esc ==> r == Some(key) && final(self).exiting() == old(self).exiting(),
    {
        match key {
            KeyCode::Esc => {
                self.exit = true;
                None
            },
            other => Some(other),
        }
    }
}

/// The position of a scrollbar over content of a given length.
#[derive(Debug, Clone, Copy, PartialEq, Eq)]
pub struct ScrollState {
    pub content_length: usize,
    pub position: usize,
}

/// The scrollbar one step forward, never past the last item.
pub open spec fn scroll_next(s: ScrollState) -> ScrollState {
    ScrollState {
        content_length: s.content_length,
        position: if s.content_length == 0 {
            0
        } else if s.position + 1 < s.content_length - 1 {
            (s.position + 1) as usize
        } else {
            (s.content_length - 1) as usize
        },
    }
}

/// The scrollbar one step back, never before the start.
pub open spec fn scroll_prev(s: ScrollState) -> ScrollState {
    ScrollState {
        content_length: s.content_length,
        position: if s.position > 0 { (s.position - 1) as usize } else { 0 },
    }
}

impl ScrollState {
    /// A scrollbar at the start of content of `content_length` items.
    pub fn new(content_length: usize) -> (r: ScrollState)
        ensures
            r == (ScrollState { content_length, position: 0 }),
    {
        ScrollState { content_length, position: 0 }
    }

    /// One step forward, never past the last item.
    pub fn next(&mut self)
        ensures
            *final(self) == scroll_next(*old(self)),
    {
        let forward = if self.position < usize::MAX { self.position + 1 } else { usize::MAX };
        let last = if self.content_length > 0 { self.content_length - 1 } else { 0 };
        self.position = if forward < last { forward } else { last };
    }

    /// One step back, never before the start.
    pub fn prev(&mut self)
        ensures
            *final(self) == scroll_prev(*old(self)),
    {
        self.position = if self.position > 0 { self.position - 1 } else { 0 };
    }

    pub fn get_position(&self) -> (r: usize)
        ensures
            r == self.position,
    {
        self.position
    }
}

/// Which entry of a list is selected, if any. Until the list is drawn the
/// selection may point past its end; drawing brings it back (`select`).
#[derive(Debug, Clone, Copy, PartialEq, Eq)]
pub struct ListSelection {
    pub selected: Option<usize>,
}

/// The index after moving `amount` down from `selected` (from the start
/// where nothing is selected), stopping at the largest index.
pub open spec fn moved_down(selected: Option<usize>, amount: u16) -> usize {
    let from = match selected {
        Some(i) => i,
        None => 0,
    };
    if from + amount > usize::MAX {
        usize::MAX
    } else {
        (from + amount) as usize
    }
}

/// The index after moving `amount` up from `selected` (from the start where
/// nothing is selected), stopping at the first index.
pub open spec fn moved_up(selected: Option<usize>, amount: u16) -> usize {
    let from = match selected {
        Some(i) => i,
        None => 0,
    };
    if from >= amount {
        (from - amount) as usize
    } else {
        0
    }
}

impl ListSelection {
    /// Nothing selected.
    pub fn new() -> (r: ListSelection)
        ensures
            r.selected is None,
    {
        ListSelection { selected: None }
    }

    /// Selects the first entry.
    pub fn select_first(&mut self)
        ensures
            final(self).selected == Some(0usize),
    {
        self.selected = Some(0);
    }

    /// Selects `index`.
    pub fn select(&mut self, index: Option<usize>)
        ensures
            final(self).selected == index,
    {
        self.selected = index;
    }

    pub fn selected(&self) -> (r: Option<usize>)
        ensures
            r == self.selected,
    {
        self.selected
    }

    /// Moves the selection `amount` entries down.
    pub fn scroll_down_by(&mut self, amount: u16)
        ensures
            final(self).selected == Some(moved_down(old(self).selected, amount)),
    {
        let from = match self.selected {
            Some(i) => i,
            None => 0,
        };
        let amount = amount as usize;
        self.selected = Some(if from <= usize::MAX - amount { from + amount } else { usize::MAX });
    }

    /// Moves the selection `amount` entries up.
    pub fn scroll_up_by(&mut self, amount: u16)
        ensures
            final(self).selected == Some(moved_up(old(self).selected, amount)),
    {
        let from = match self.selected {
            Some(i) => i,
            None => 0,
        };
        let amount = amount as usize;
        self.selected = Some(if from >= amount { from - amount } else { 0 });
    }
}

/// Items with one of them selected.
#[derive(Debug)]
pub struct Selectable<T> {
    items: Vec<T>,
    pub state: ListSelection,
}

impl<T> Selectable<T> {
    /// The items, with the first one selected.
    pub fn new(items: Vec<T>) -> (r: Selectable<T>)
        ensures
            r.items() == items@,
            r.selection() == Some(0usize),
    {
        Selectable { items, state: ListSelection { selected: Some(0) } }
    }

    /// The selected index.
    pub closed spec fn selection(&self) -> Option<usize> {
        self.state.selected
    }

    /// The items.
    pub closed spec fn items(&self) -> Seq<T> {
        self.items@
    }

    /// The selected item; `None` where nothing is selected or the selection
    /// points past the end.
    pub fn selected_item(&self) -> (r: Option<&T>)
        ensures
            match self.selection() {
                Some(i) => if i < self.items().len() {
                    r == Some(&self.items()[i as int])
                } else {
                    r is None
                },
                None => r is None,
            },
    {
        match self.state.selected {
            Some(i) => {
                if i < self.items.len() {
                    Some(&self.items[i])
                } else {
                    None
                }
            },
            None => None,
        }
    }
}

} // verus!
