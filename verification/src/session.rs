//! The session state and the state machine that turns one key into one change
//! of that state.

use crate::division::{Division, DIVISION_COUNT};
use crate::model::{
    entries_view, opt_text, BanzukeEntry, BanzukeEntryView, Basho, HeadToHeadResponse,
    RikishiDetails, TorikumiEntry,
};
use crate::records::{record_table, tolerant_record_of};
use crate::text::{chars_of, is_ascii_digit, is_digit, parse_unsigned, unsigned_value};
use crate::tournament::TournamentId;
use std::collections::HashMap;
use vstd::prelude::*;

verus! {

/// How many rows of a list are taken to be visible at once.
pub const VISIBLE_ITEMS: usize = 10;

/// The last day that can be typed in.
pub const MAX_DAY: u8 = 15;

/// How many digits a tournament identifier has.
pub const BASHO_DIGITS: usize = 6;

/// The first year that can be typed in.
pub const FIRST_YEAR: i32 = 2000;

/// The last year that can be typed in.
pub const LAST_YEAR: i32 = 2100;

/// A key, as far as the session tells keys apart.
#[derive(Clone, Copy, Debug, PartialEq, Eq, Structural)]
pub enum Key {
    Char(char),
    F(u8),
    Backspace,
    Enter,
    Left,
    Right,
    Up,
    Down,
    Esc,
    Other,
}

/// What the keys are read as.
#[derive(Clone, Copy, Debug, PartialEq, Eq, Structural)]
pub enum InputMode {
    Normal,
    EditingDay,
    SelectingDivision,
    EditingBasho,
}

/// The three views, in the order in which left and right step through them.
#[derive(Clone, Copy, Debug, PartialEq, Eq, Structural)]
pub enum AppView {
    Torikumi,
    Banzuke,
    BashoInfo,
}

/// The state of one session.
pub struct App {
    pub should_quit: bool,
    pub basho: Option<Basho>,
    pub banzuke: Option<Vec<BanzukeEntry>>,
    pub torikumi: Option<Vec<TorikumiEntry>>,
    pub current_view: AppView,
    pub selected_index: usize,
    pub division: Division,
    pub day: u8,
    pub basho_id: TournamentId,
    pub show_help: bool,
    pub scroll_offset: usize,
    /// Wins and losses of each wrestler of the ranking list, by identifier.
    pub record_map: HashMap<u32, (u8, u8)>,
    pub input_mode: InputMode,
    pub input_buffer: String,
    pub needs_reload: bool,
    pub division_selector_index: usize,
    pub show_rikishi_details: bool,
    pub rikishi_details: Option<RikishiDetails>,
    pub requested_rikishi_id: Option<u32>,
    pub show_head_to_head: bool,
    pub head_to_head_data: Option<HeadToHeadResponse>,
    /// The two wrestlers whose bouts are asked for: east, then west.
    pub requested_head_to_head: Option<(u32, u32)>,
    /// Whether the user has picked another tournament since the last reload.
    pub basho_changed: bool,
    pub status_message: Option<String>,
    pub loading_overlay: Option<String>,
    /// Whether a profile has been asked for and has not come back yet.
    pub rikishi_fetch_pending: bool,
    /// Whether a head-to-head record has been asked for and has not come back yet.
    pub head_to_head_fetch_pending: bool,
}

/// The session state as plain values.
#[verifier::ext_equal]
pub struct AppState {
    pub should_quit: bool,
    pub basho: Option<Basho>,
    pub banzuke: Option<Seq<BanzukeEntryView>>,
    pub torikumi: Option<Seq<TorikumiEntry>>,
    pub current_view: AppView,
    pub selected_index: int,
    pub division: Division,
    pub day: int,
    pub basho_id: TournamentId,
    pub show_help: bool,
    pub scroll_offset: int,
    pub record_map: Map<u32, (u8, u8)>,
    pub input_mode: InputMode,
    pub input_buffer: Seq<char>,
    pub needs_reload: bool,
    pub division_selector_index: int,
    pub show_rikishi_details: bool,
    pub rikishi_details: Option<RikishiDetails>,
    pub requested_rikishi_id: Option<u32>,
    pub show_head_to_head: bool,
    pub head_to_head_data: Option<HeadToHeadResponse>,
    pub requested_head_to_head: Option<(u32, u32)>,
    pub basho_changed: bool,
    pub status_message: Option<Seq<char>>,
    pub loading_overlay: Option<Seq<char>>,
    pub rikishi_fetch_pending: bool,
    pub head_to_head_fetch_pending: bool,
}

impl View for App {
    type V = AppState;

    open spec fn view(&self) -> AppState {
        AppState {
            should_quit: self.should_quit,
            basho: self.basho,
            banzuke: match self.banzuke {
                Some(v) => Some(entries_view(v@)),
                None => None,
            },
            torikumi: match self.torikumi {
                Some(v) => Some(v@),
                None => None,
            },
            current_view: self.current_view,
            selected_index: self.selected_index as int,
            division: self.division,
            day: self.day as int,
            basho_id: self.basho_id,
            show_help: self.show_help,
            scroll_offset: self.scroll_offset as int,
            record_map: self.record_map@,
            input_mode: self.input_mode,
            input_buffer: self.input_buffer@,
            needs_reload: self.needs_reload,
            division_selector_index: self.division_selector_index as int,
            show_rikishi_details: self.show_rikishi_details,
            rikishi_details: self.rikishi_details,
            requested_rikishi_id: self.requested_rikishi_id,
            show_head_to_head: self.show_head_to_head,
            head_to_head_data: self.head_to_head_data,
            requested_head_to_head: self.requested_head_to_head,
            basho_changed: self.basho_changed,
            status_message: opt_text(self.status_message),
            loading_overlay: opt_text(self.loading_overlay),
            rikishi_fetch_pending: self.rikishi_fetch_pending,
            head_to_head_fetch_pending: self.head_to_head_fetch_pending,
        }
    }
}

/// The day that a typed text commits: a number from 1 to 15.
pub open spec fn typed_day(buffer: Seq<char>) -> Option<int> {
    match unsigned_value(buffer, u8::MAX as int) {
        Some(day) => if 1 <= day <= MAX_DAY {
            Some(day)
        } else {
            None
        },
        None => None,
    }
}

/// The tournament that a typed text commits: six digits with a year from 2000
/// to 2100 and a tournament month.
pub open spec fn typed_basho(buffer: Seq<char>) -> Option<TournamentId> {
    match TournamentId::spec_parse(buffer) {
        Some(id) => if FIRST_YEAR <= id.spec_year() <= LAST_YEAR {
            Some(id)
        } else {
            None
        },
        None => None,
    }
}

impl AppState {
    /// A session at its start: nothing is loaded, nothing is shown over the
    /// bout view, and nothing is asked for.
    pub open spec fn initial(basho_id: TournamentId, division: Division, day: int) -> AppState {
        AppState {
            should_quit: false,
            basho: None,
            banzuke: None,
            torikumi: None,
            current_view: AppView::Torikumi,
            selected_index: 0,
            division: division,
            day: day,
            basho_id: basho_id,
            show_help: false,
            scroll_offset: 0,
            record_map: Map::empty(),
            input_mode: InputMode::Normal,
            input_buffer: Seq::empty(),
            needs_reload: false,
            division_selector_index: 0,
            show_rikishi_details: false,
            rikishi_details: None,
            requested_rikishi_id: None,
            show_head_to_head: false,
            head_to_head_data: None,
            requested_head_to_head: None,
            basho_changed: false,
            status_message: None,
            loading_overlay: None,
            rikishi_fetch_pending: false,
            head_to_head_fetch_pending: false,
        }
    }

    /// Whether the state is one that a session can be in: no position is
    /// negative.
    pub open spec fn wf(self) -> bool {
        &&& 0 <= self.selected_index
        &&& 0 <= self.scroll_offset
        &&& 0 <= self.division_selector_index
    }

    /// Whether two states hold the same committed choice: tournament,
    /// division and day, and the same request for a reload.
    pub open spec fn same_choice(self, other: AppState) -> bool {
        &&& self.basho_id == other.basho_id
        &&& self.division == other.division
        &&& self.day == other.day
        &&& self.needs_reload == other.needs_reload
        &&& self.basho_changed == other.basho_changed
    }

    /// How many rows the list of the active view has; the information view has
    /// none.
    pub open spec fn item_count(self) -> int {
        match self.current_view {
            AppView::Torikumi => match self.torikumi {
                Some(t) => t.len() as int,
                None => 0,
            },
            AppView::Banzuke => match self.banzuke {
                Some(b) => b.len() as int,
                None => 0,
            },
            AppView::BashoInfo => 0,
        }
    }

    /// Whether the selection points at a row of the active view, or at zero
    /// where the view has no rows.
    pub open spec fn selection_in_range(self) -> bool {
        if self.item_count() == 0 {
            self.selected_index == 0
        } else {
            0 <= self.selected_index < self.item_count()
        }
    }

    /// The state with the view `view` active and the selection at its top.
    pub open spec fn show(self, view: AppView) -> AppState {
        AppState { current_view: view, selected_index: 0, scroll_offset: 0, ..self }
    }

    /// The view to the left of the active one, the active one at the left end.
    pub open spec fn left_view(self) -> AppView {
        match self.current_view {
            AppView::Torikumi => AppView::Torikumi,
            AppView::Banzuke => AppView::Torikumi,
            AppView::BashoInfo => AppView::Banzuke,
        }
    }

    /// The view to the right of the active one, the active one at the right end.
    pub open spec fn right_view(self) -> AppView {
        match self.current_view {
            AppView::Torikumi => AppView::Banzuke,
            AppView::Banzuke => AppView::BashoInfo,
            AppView::BashoInfo => AppView::BashoInfo,
        }
    }

    /// One step to the left or right: nothing at either end, else the
    /// neighbouring view with the selection at its top.
    pub open spec fn step_to(self, view: AppView) -> AppState {
        if view == self.current_view {
            self
        } else {
            self.show(view)
        }
    }

    /// The selection one row up; the window follows where the selection would
    /// leave it at the top.
    pub open spec fn select_previous(self) -> AppState {
        if self.selected_index > 0 {
            let selected = self.selected_index - 1;
            AppState {
                selected_index: selected,
                scroll_offset: if selected < self.scroll_offset {
                    selected
                } else {
                    self.scroll_offset
                },
                ..self
            }
        } else {
            self
        }
    }

    /// The selection one row down, where there is a row below; the window
    /// follows where the selection would leave it at the bottom.
    pub open spec fn select_next(self) -> AppState {
        if self.selected_index + 1 < self.item_count() {
            let selected = self.selected_index + 1;
            AppState {
                selected_index: selected,
                scroll_offset: if selected >= self.scroll_offset + VISIBLE_ITEMS {
                    selected - VISIBLE_ITEMS + 1
                } else {
                    self.scroll_offset
                },
                ..self
            }
        } else {
            self
        }
    }

    /// What confirming the selected row asks for: the profile of the selected
    /// wrestler in the ranking view, the record of the two wrestlers of the
    /// selected bout in the bout view, nothing where no row is selected.
    pub open spec fn confirm(self) -> AppState {
        match self.current_view {
            AppView::Banzuke => match self.banzuke {
                Some(b) => if 0 <= self.selected_index < b.len() {
                    AppState {
                        requested_rikishi_id: Some(b[self.selected_index].rikishi_id),
                        ..self
                    }
                } else {
                    self
                },
                None => self,
            },
            AppView::Torikumi => match self.torikumi {
                Some(t) => if 0 <= self.selected_index < t.len() {
                    AppState {
                        requested_head_to_head: Some(
                            (t[self.selected_index].east_id, t[self.selected_index].west_id),
                        ),
                        ..self
                    }
                } else {
                    self
                },
                None => self,
            },
            AppView::BashoInfo => self,
        }
    }

    /// What escape closes: the profile, else the head-to-head record, else the
    /// help.
    pub open spec fn dismiss(self) -> AppState {
        if self.show_rikishi_details {
            AppState { show_rikishi_details: false, rikishi_details: None, ..self }
        } else if self.show_head_to_head {
            AppState { show_head_to_head: false, head_to_head_data: None, ..self }
        } else {
            AppState { show_help: false, ..self }
        }
    }

    /// The state on entering `mode`, with nothing typed yet.
    pub open spec fn enter(self, mode: InputMode) -> AppState {
        AppState { input_mode: mode, input_buffer: Seq::empty(), ..self }
    }

    /// The state back in normal mode, with what was typed thrown away.
    pub open spec fn leave(self) -> AppState {
        AppState { input_mode: InputMode::Normal, input_buffer: Seq::empty(), ..self }
    }

    /// One key in normal mode.
    pub open spec fn normal_key(self, key: Key) -> AppState {
        match key {
            Key::Char(c) => if c == 'q' {
                AppState { should_quit: true, ..self }
            } else if c == 'h' {
                AppState { show_help: !self.show_help, ..self }
            } else if c == 'c' {
                self.enter(InputMode::EditingDay)
            } else if c == 'v' {
                AppState {
                    input_mode: InputMode::SelectingDivision,
                    division_selector_index: self.division.spec_index(),
                    ..self
                }
            } else if c == 'b' {
                self.enter(InputMode::EditingBasho)
            } else if c == '1' {
                self.show(AppView::Torikumi)
            } else if c == '2' {
                self.show(AppView::Banzuke)
            } else if c == '3' {
                self.show(AppView::BashoInfo)
            } else if c == 'a' {
                self.step_to(self.left_view())
            } else if c == 'd' {
                self.step_to(self.right_view())
            } else if c == 'w' {
                self.select_previous()
            } else if c == 's' {
                self.select_next()
            } else if c == ' ' {
                self.confirm()
            } else {
                self
            },
            Key::F(n) => if n == 1 {
                AppState { show_help: !self.show_help, ..self }
            } else {
                self
            },
            Key::Left => self.step_to(self.left_view()),
            Key::Right => self.step_to(self.right_view()),
            Key::Up => self.select_previous(),
            Key::Down => self.select_next(),
            Key::Enter => self.confirm(),
            Key::Esc => self.dismiss(),
            _ => self,
        }
    }

    /// One key while a day is typed in: digits are taken up, backspace takes
    /// the last one back, enter commits a day from 1 to 15 and asks for a
    /// reload, escape commits nothing; enter and escape both leave the mode.
    pub open spec fn day_key(self, key: Key) -> AppState {
        match key {
            Key::Char(c) => if is_digit(c) {
                AppState { input_buffer: self.input_buffer.push(c), ..self }
            } else {
                self
            },
            Key::Backspace => if self.input_buffer.len() > 0 {
                AppState { input_buffer: self.input_buffer.drop_last(), ..self }
            } else {
                self
            },
            Key::Enter => match typed_day(self.input_buffer) {
                Some(day) => AppState { day: day, needs_reload: true, ..self }.leave(),
                None => self.leave(),
            },
            Key::Esc => self.leave(),
            _ => self,
        }
    }

    /// One key while a division is picked: up and down move the mark and stop
    /// at the ends, enter commits the marked division and asks for a reload,
    /// escape commits nothing; enter and escape both leave the mode.
    pub open spec fn division_key(self, key: Key) -> AppState {
        match key {
            Key::Up => if self.division_selector_index > 0 {
                AppState { division_selector_index: self.division_selector_index - 1, ..self }
            } else {
                self
            },
            Key::Down => if self.division_selector_index + 1 < DIVISION_COUNT {
                AppState { division_selector_index: self.division_selector_index + 1, ..self }
            } else {
                self
            },
            Key::Enter => AppState {
                division: Division::spec_from_index(self.division_selector_index),
                needs_reload: true,
                ..self
            }.leave(),
            Key::Esc => self.leave(),
            _ => self,
        }
    }

    /// One key while a tournament is typed in: up to six digits are taken up,
    /// backspace takes the last one back, enter commits six digits that make a
    /// year from 2000 to 2100 and a tournament month and asks for a reload,
    /// escape commits nothing; enter and escape both leave the mode.
    pub open spec fn basho_key(self, key: Key) -> AppState {
        match key {
            Key::Char(c) => if is_digit(c) && self.input_buffer.len() < BASHO_DIGITS {
                AppState { input_buffer: self.input_buffer.push(c), ..self }
            } else {
                self
            },
            Key::Backspace => if self.input_buffer.len() > 0 {
                AppState { input_buffer: self.input_buffer.drop_last(), ..self }
            } else {
                self
            },
            Key::Enter => match typed_basho(self.input_buffer) {
                Some(id) => AppState {
                    basho_id: id,
                    needs_reload: true,
                    basho_changed: self.basho_changed || id != self.basho_id,
                    ..self
                }.leave(),
                None => self.leave(),
            },
            Key::Esc => self.leave(),
            _ => self,
        }
    }

    /// One key in the mode that the state is in.
    pub open spec fn dispatch(self, key: Key) -> AppState {
        match self.input_mode {
            InputMode::Normal => self.normal_key(key),
            InputMode::EditingDay => self.day_key(key),
            InputMode::SelectingDivision => self.division_key(key),
            InputMode::EditingBasho => self.basho_key(key),
        }
    }

    /// The state with the selection brought back onto the list of the active
    /// view: onto its last row where it pointed past the end, to zero where
    /// the list is empty. The window is moved up where the selection would
    /// stand above it.
    pub open spec fn clamp_selection(self) -> AppState {
        let count = self.item_count();
        let selected = if count == 0 {
            0
        } else if self.selected_index >= count {
            count - 1
        } else {
            self.selected_index
        };
        AppState {
            selected_index: selected,
            scroll_offset: if selected < self.scroll_offset {
                selected
            } else {
                self.scroll_offset
            },
            ..self
        }
    }

    /// Wins and losses by wrestler as the ranking list gives them; none where
    /// there is no ranking list.
    pub open spec fn counted_records(self) -> Map<u32, (u8, u8)> {
        match self.banzuke {
            Some(list) => record_table(list),
            None => Map::empty(),
        }
    }

    /// Whether the wins and losses are those that the ranking list gives.
    pub open spec fn records_current(self) -> bool {
        self.record_map == self.counted_records()
    }

    /// The state with the ranking list `list` and the wins and losses that it
    /// gives.
    pub open spec fn with_banzuke(self, list: Seq<BanzukeEntryView>) -> AppState {
        AppState { banzuke: Some(list), record_map: record_table(list), ..self }
    }

    /// The profile request that a poll hands out: the one in the slot, unless
    /// a profile is on its way.
    pub open spec fn rikishi_request(self) -> Option<u32> {
        if self.rikishi_fetch_pending {
            None
        } else {
            self.requested_rikishi_id
        }
    }

    /// The head-to-head request that a poll hands out: the one in the slot,
    /// unless a record is on its way.
    pub open spec fn head_to_head_request(self) -> Option<(u32, u32)> {
        if self.head_to_head_fetch_pending {
            None
        } else {
            self.requested_head_to_head
        }
    }

    /// What one key makes of the state: the change that the mode asks for,
    /// then the selection brought back into range.
    pub open spec fn on_key(self, key: Key) -> AppState {
        self.dispatch(key).clamp_selection()
    }
}

impl App {
    pub fn new(basho_id: TournamentId, division: Division, day: u8) -> (app: App)
        ensures
            app@ == AppState::initial(basho_id, division, day as int),
            app@.selection_in_range(),
            app@.records_current(),
    {
        App {
            should_quit: false,
            basho: None,
            banzuke: None,
            torikumi: None,
            current_view: AppView::Torikumi,
            selected_index: 0,
            division,
            day,
            basho_id,
            show_help: false,
            scroll_offset: 0,
            record_map: HashMap::new(),
            input_mode: InputMode::Normal,
            input_buffer: String::new(),
            needs_reload: false,
            division_selector_index: 0,
            show_rikishi_details: false,
            rikishi_details: None,
            requested_rikishi_id: None,
            show_head_to_head: false,
            head_to_head_data: None,
            requested_head_to_head: None,
            basho_changed: false,
            status_message: None,
            loading_overlay: None,
            rikishi_fetch_pending: false,
            head_to_head_fetch_pending: false,
        }
    }

    /// How many rows the list of the active view has.
    pub fn item_count(&self) -> (n: usize)
        ensures
            n == self@.item_count(),
    {
        match self.current_view {
            AppView::Torikumi => match &self.torikumi {
                Some(t) => t.len(),
                None => 0,
            },
            AppView::Banzuke => match &self.banzuke {
                Some(b) => b.len(),
                None => 0,
            },
            AppView::BashoInfo => 0,
        }
    }

    fn show(&mut self, view: AppView)
        ensures
            final(self)@ == old(self)@.show(view),
    {
        self.current_view = view;
        self.selected_index = 0;
        self.scroll_offset = 0;
    }

    fn step_left(&mut self)
        ensures
            final(self)@ == old(self)@.step_to(old(self)@.left_view()),
    {
        match self.current_view {
            AppView::Torikumi => {},
            AppView::Banzuke => self.show(AppView::Torikumi),
            AppView::BashoInfo => self.show(AppView::Banzuke),
        }
    }

    fn step_right(&mut self)
        ensures
            final(self)@ == old(self)@.step_to(old(self)@.right_view()),
    {
        match self.current_view {
            AppView::Torikumi => self.show(AppView::Banzuke),
            AppView::Banzuke => self.show(AppView::BashoInfo),
            AppView::BashoInfo => {},
        }
    }

    fn select_previous(&mut self)
        ensures
            final(self)@ == old(self)@.select_previous(),
    {
        if self.selected_index > 0 {
            self.selected_index = self.selected_index - 1;
            if self.selected_index < self.scroll_offset {
                self.scroll_offset = self.selected_index;
            }
        }
    }

    fn select_next(&mut self)
        ensures
            final(self)@ == old(self)@.select_next(),
    {
        let count = self.item_count();
        if count > 0 && self.selected_index < count - 1 {
            self.selected_index = self.selected_index + 1;
            if self.selected_index >= self.scroll_offset && self.selected_index - self.scroll_offset
                >= VISIBLE_ITEMS {
                self.scroll_offset = self.selected_index - VISIBLE_ITEMS + 1;
            }
        }
    }

    fn confirm(&mut self)
        ensures
            final(self)@ == old(self)@.confirm(),
    {
        match self.current_view {
            AppView::Banzuke => {
                if let Some(banzuke) = &self.banzuke {
                    if self.selected_index < banzuke.len() {
                        let rikishi_id = banzuke[self.selected_index].rikishi_id;
                        self.requested_rikishi_id = Some(rikishi_id);
                    }
                }
            },
            AppView::Torikumi => {
                if let Some(torikumi) = &self.torikumi {
                    if self.selected_index < torikumi.len() {
                        let east_id = torikumi[self.selected_index].east_id;
                        let west_id = torikumi[self.selected_index].west_id;
                        self.requested_head_to_head = Some((east_id, west_id));
                    }
                }
            },
            AppView::BashoInfo => {},
        }
    }

    fn dismiss(&mut self)
        ensures
            final(self)@ == old(self)@.dismiss(),
    {
        if self.show_rikishi_details {
            self.show_rikishi_details = false;
            self.rikishi_details = None;
        } else if self.show_head_to_head {
            self.show_head_to_head = false;
            self.head_to_head_data = None;
        } else {
            self.show_help = false;
        }
    }

    fn enter(&mut self, mode: InputMode)
        ensures
            final(self)@ == old(self)@.enter(mode),
    {
        self.input_mode = mode;
        self.input_buffer.clear();
    }

    fn leave(&mut self)
        ensures
            final(self)@ == old(self)@.leave(),
    {
        self.input_mode = InputMode::Normal;
        self.input_buffer.clear();
    }

    fn toggle_help(&mut self)
        ensures
            final(self)@ == (AppState { show_help: !old(self)@.show_help, ..old(self)@ }),
    {
        self.show_help = !self.show_help;
    }

    fn normal_key(&mut self, key: Key)
        ensures
            final(self)@ == old(self)@.normal_key(key),
    {
        match key {
            Key::Char(c) => {
                if c == 'q' {
                    self.should_quit = true;
                } else if c == 'h' {
                    self.toggle_help();
                } else if c == 'c' {
                    self.enter(InputMode::EditingDay);
                } else if c == 'v' {
                    self.input_mode = InputMode::SelectingDivision;
                    self.division_selector_index = self.division.index();
                } else if c == 'b' {
                    self.enter(InputMode::EditingBasho);
                } else if c == '1' {
                    self.show(AppView::Torikumi);
                } else if c == '2' {
                    self.show(AppView::Banzuke);
                } else if c == '3' {
                    self.show(AppView::BashoInfo);
                } else if c == 'a' {
                    self.step_left();
                } else if c == 'd' {
                    self.step_right();
                } else if c == 'w' {
                    self.select_previous();
                } else if c == 's' {
                    self.select_next();
                } else if c == ' ' {
                    self.confirm();
                }
            },
            Key::F(n) => {
                if n == 1 {
                    self.toggle_help();
                }
            },
            Key::Left => self.step_left(),
            Key::Right => self.step_right(),
            Key::Up => self.select_previous(),
            Key::Down => self.select_next(),
            Key::Enter => self.confirm(),
            Key::Esc => self.dismiss(),
            _ => {},
        }
    }

    /// The day that the typed text commits, if it commits one.
    fn typed_day(&self) -> (r: Option<u8>)
        ensures
            r is Some <==> typed_day(self.input_buffer@) is Some,
            r is Some ==> r.unwrap() == typed_day(self.input_buffer@).unwrap(),
    {
        let typed = chars_of(self.input_buffer.as_str());
        match parse_unsigned(&typed, 255) {
            Some(day) => if 1 <= day && day <= 15 {
                Some(day as u8)
            } else {
                None
            },
            None => None,
        }
    }

    /// The tournament that the typed text commits, if it commits one.
    fn typed_basho(&self) -> (r: Option<TournamentId>)
        ensures
            r == typed_basho(self.input_buffer@),
    {
        match TournamentId::parse(self.input_buffer.as_str()) {
            Some(id) => if FIRST_YEAR <= id.year() && id.year() <= LAST_YEAR {
                Some(id)
            } else {
                None
            },
            None => None,
        }
    }

    fn type_digit(&mut self, c: char)
        ensures
            final(self)@ == (AppState {
                input_buffer: old(self)@.input_buffer.push(c),
                ..old(self)@
            }),
    {
        self.input_buffer.push(c);
    }

    fn backspace(&mut self)
        ensures
            final(self)@ == (if old(self)@.input_buffer.len() > 0 {
                AppState { input_buffer: old(self)@.input_buffer.drop_last(), ..old(self)@ }
            } else {
                old(self)@
            }),
    {
        let _ = self.input_buffer.pop();
    }

    fn day_key(&mut self, key: Key)
        ensures
            final(self)@ == old(self)@.day_key(key),
    {
        match key {
            Key::Char(c) => {
                if is_ascii_digit(c) {
                    self.type_digit(c);
                }
            },
            Key::Backspace => self.backspace(),
            Key::Enter => {
                if let Some(day) = self.typed_day() {
                    self.day = day;
                    self.needs_reload = true;
                }
                self.leave();
            },
            Key::Esc => self.leave(),
            _ => {},
        }
    }

    fn division_key(&mut self, key: Key)
        ensures
            final(self)@ == old(self)@.division_key(key),
    {
        match key {
            Key::Up => {
                if self.division_selector_index > 0 {
                    self.division_selector_index = self.division_selector_index - 1;
                }
            },
            Key::Down => {
                if self.division_selector_index < DIVISION_COUNT - 1 {
                    self.division_selector_index = self.division_selector_index + 1;
                }
            },
            Key::Enter => {
                self.division = Division::from_index(self.division_selector_index);
                self.needs_reload = true;
                self.leave();
            },
            Key::Esc => self.leave(),
            _ => {},
        }
    }

    fn basho_key(&mut self, key: Key)
        ensures
            final(self)@ == old(self)@.basho_key(key),
    {
        match key {
            Key::Char(c) => {
                if is_ascii_digit(c) && self.input_buffer.as_str().unicode_len() < BASHO_DIGITS {
                    self.type_digit(c);
                }
            },
            Key::Backspace => self.backspace(),
            Key::Enter => {
                if let Some(id) = self.typed_basho() {
                    if id != self.basho_id {
                        self.basho_changed = true;
                    }
                    self.basho_id = id;
                    self.needs_reload = true;
                }
                self.leave();
            },
            Key::Esc => self.leave(),
            _ => {},
        }
    }

    fn dispatch(&mut self, key: Key)
        ensures
            final(self)@ == old(self)@.dispatch(key),
    {
        match self.input_mode {
            InputMode::Normal => self.normal_key(key),
            InputMode::EditingDay => self.day_key(key),
            InputMode::SelectingDivision => self.division_key(key),
            InputMode::EditingBasho => self.basho_key(key),
        }
    }

    pub fn set_basho(&mut self, basho: Basho)
        ensures
            final(self)@ == (AppState { basho: Some(basho), ..old(self)@ }),
    {
        self.basho = Some(basho);
    }

    /// Stores a ranking list and counts the wins and losses of its wrestlers
    /// anew.
    pub fn set_banzuke(&mut self, banzuke: Vec<BanzukeEntry>)
        ensures
            final(self)@ == old(self)@.with_banzuke(entries_view(banzuke@)),
    {
        self.banzuke = Some(banzuke);
        self.recompute_records();
    }

    pub fn set_torikumi(&mut self, torikumi: Vec<TorikumiEntry>)
        ensures
            final(self)@ == (AppState { torikumi: Some(torikumi@), ..old(self)@ }),
    {
        self.torikumi = Some(torikumi);
    }

    /// Forgets the bouts, so that none of another day are shown.
    pub fn clear_torikumi(&mut self)
        ensures
            final(self)@ == (AppState { torikumi: None, ..old(self)@ }),
    {
        self.torikumi = None;
    }

    /// Counts the wins and losses of every wrestler of the ranking list anew.
    pub fn recompute_records(&mut self)
        ensures
            final(self)@ == (AppState {
                record_map: old(self)@.counted_records(),
                ..old(self)@
            }),
    {
        broadcast use vstd::std_specs::hash::group_hash_axioms;

        let mut records: HashMap<u32, (u8, u8)> = HashMap::new();
        if let Some(list) = &self.banzuke {
            let ghost view = entries_view(list@);
            let mut i: usize = 0;
            while i < list.len()
                invariant
                    i <= list.len(),
                    view == entries_view(list@),
                    records@ == record_table(view.take(i as int)),
                decreases list.len() - i,
            {
                assert(view.take(i + 1).drop_last() =~= view.take(i as int));
                assert(view.take(i + 1).last() == list@[i as int]@);
                let record = tolerant_record_of(&list[i]);
                records.insert(list[i].rikishi_id, record);
                i = i + 1;
            }
            assert(view.take(i as int) =~= view);
        }
        self.record_map = records;
    }

    /// Hands out the wrestler whose profile is asked for, if one is, and
    /// empties the slot. While a profile is on its way, what is asked for is
    /// dropped.
    pub fn take_rikishi_request(&mut self) -> (request: Option<u32>)
        ensures
            request == old(self)@.rikishi_request(),
            final(self)@ == (AppState {
                requested_rikishi_id: None,
                rikishi_fetch_pending: old(self)@.rikishi_fetch_pending || request is Some,
                ..old(self)@
            }),
    {
        let request = if self.rikishi_fetch_pending {
            None
        } else {
            self.requested_rikishi_id
        };
        self.requested_rikishi_id = None;
        if request.is_some() {
            self.rikishi_fetch_pending = true;
        }
        request
    }

    /// Hands out the two wrestlers whose record is asked for, if one is, and
    /// empties the slot. While a record is on its way, what is asked for is
    /// dropped.
    pub fn take_head_to_head_request(&mut self) -> (request: Option<(u32, u32)>)
        ensures
            request == old(self)@.head_to_head_request(),
            final(self)@ == (AppState {
                requested_head_to_head: None,
                head_to_head_fetch_pending: old(self)@.head_to_head_fetch_pending
                    || request is Some,
                ..old(self)@
            }),
    {
        let request = if self.head_to_head_fetch_pending {
            None
        } else {
            self.requested_head_to_head
        };
        self.requested_head_to_head = None;
        if request.is_some() {
            self.head_to_head_fetch_pending = true;
        }
        request
    }

    /// Takes what came back for a profile that was asked for: a profile is
    /// stored and shown; a failure is put on the status line and shows
    /// nothing.
    pub fn rikishi_details_loaded(&mut self, outcome: Result<RikishiDetails, String>)
        ensures
            final(self)@ == (match outcome {
                Ok(details) => AppState {
                    rikishi_fetch_pending: false,
                    rikishi_details: Some(details),
                    show_rikishi_details: true,
                    ..old(self)@
                },
                Err(reason) => AppState {
                    rikishi_fetch_pending: false,
                    status_message: Some("Error loading rikishi details: "@ + reason@),
                    ..old(self)@
                },
            }),
    {
        self.rikishi_fetch_pending = false;
        match outcome {
            Ok(details) => {
                self.rikishi_details = Some(details);
                self.show_rikishi_details = true;
            },
            Err(reason) => {
                let mut message = String::from_str("Error loading rikishi details: ");
                message.append(reason.as_str());
                self.status_message = Some(message);
            },
        }
    }

    /// Takes what came back for a head-to-head record that was asked for: a
    /// record is stored and shown; a failure is put on the status line and
    /// shows nothing.
    pub fn head_to_head_loaded(&mut self, outcome: Result<HeadToHeadResponse, String>)
        ensures
            final(self)@ == (match outcome {
                Ok(record) => AppState {
                    head_to_head_fetch_pending: false,
                    head_to_head_data: Some(record),
                    show_head_to_head: true,
                    ..old(self)@
                },
                Err(reason) => AppState {
                    head_to_head_fetch_pending: false,
                    status_message: Some("Error loading head-to-head data: "@ + reason@),
                    ..old(self)@
                },
            }),
    {
        self.head_to_head_fetch_pending = false;
        match outcome {
            Ok(record) => {
                self.head_to_head_data = Some(record);
                self.show_head_to_head = true;
            },
            Err(reason) => {
                let mut message = String::from_str("Error loading head-to-head data: ");
                message.append(reason.as_str());
                self.status_message = Some(message);
            },
        }
    }

    /// Brings the selection back onto the list of the active view.
    pub fn clamp_selection(&mut self)
        ensures
            final(self)@ == old(self)@.clamp_selection(),
            final(self)@.selection_in_range(),
    {
        let count = self.item_count();
        let selected: usize = if count == 0 {
            0
        } else if self.selected_index >= count {
            count - 1
        } else {
            self.selected_index
        };
        let scroll: usize = if selected < self.scroll_offset {
            selected
        } else {
            self.scroll_offset
        };
        self.selected_index = selected;
        self.scroll_offset = scroll;
    }

    /// Takes one key: the state changes as the mode asks for, and the
    /// selection is brought back onto the list of the active view.
    pub fn on_key(&mut self, key: Key)
        ensures
            final(self)@ == old(self)@.on_key(key),
            final(self)@.selection_in_range(),
    {
        self.dispatch(key);
        self.clamp_selection();
    }
}

/// Whether a key enters one of the three editing modes from normal mode.
pub open spec fn enters_editing(key: Key) -> bool {
    key == Key::Char('c') || key == Key::Char('v') || key == Key::Char('b')
}

/// After any key in any mode the selection points at a row of the active
/// view, or at zero where the view has no rows.
pub proof fn lemma_selection_in_range(s: AppState, key: Key)
    requires
        s.wf(),
    ensures
        s.on_key(key).selection_in_range(),
        s.on_key(key).wf(),
{
}

/// In normal mode each of the three editing keys enters an editing mode and
/// commits nothing.
pub proof fn lemma_entering_commits_nothing(s: AppState, key: Key)
    requires
        s.input_mode == InputMode::Normal,
        enters_editing(key),
    ensures
        s.on_key(key).input_mode != InputMode::Normal,
        s.on_key(key).same_choice(s),
{
}

/// Escape in an editing mode leads back to normal mode with nothing typed and
/// commits nothing.
pub proof fn lemma_escape_leaves(s: AppState)
    requires
        s.input_mode != InputMode::Normal,
    ensures
        s.on_key(Key::Esc).input_mode == InputMode::Normal,
        s.on_key(Key::Esc).input_buffer == Seq::<char>::empty(),
        s.on_key(Key::Esc).same_choice(s),
{
}

/// In an editing mode no key but enter commits anything, and no key but enter
/// and escape leaves the mode.
pub proof fn lemma_only_enter_commits(s: AppState, key: Key)
    requires
        s.input_mode != InputMode::Normal,
        key != Key::Enter,
    ensures
        s.on_key(key).same_choice(s),
        key != Key::Esc ==> s.on_key(key).input_mode == s.input_mode,
{
}

/// Entering an editing mode and pressing escape leads back to normal mode
/// with nothing typed and nothing committed.
pub proof fn lemma_enter_then_escape(s: AppState, key: Key)
    requires
        s.input_mode == InputMode::Normal,
        enters_editing(key),
    ensures
        s.on_key(key).on_key(Key::Esc).input_mode == InputMode::Normal,
        s.on_key(key).on_key(Key::Esc).input_buffer == Seq::<char>::empty(),
        s.on_key(key).on_key(Key::Esc).same_choice(s),
{
    lemma_entering_commits_nothing(s, key);
    lemma_escape_leaves(s.on_key(key));
}

/// While a profile or a head-to-head record is on its way, no key makes a
/// poll hand out another request of that kind.
pub proof fn lemma_one_fetch_at_a_time(s: AppState, key: Key)
    ensures
        s.rikishi_fetch_pending ==> s.on_key(key).rikishi_request() is None,
        s.head_to_head_fetch_pending ==> s.on_key(key).head_to_head_request() is None,
{
}

/// No key touches the ranking list or the wins and losses counted from it:
/// where they agreed before a key, they agree after it.
pub proof fn lemma_keys_keep_records(s: AppState, key: Key)
    ensures
        s.on_key(key).banzuke == s.banzuke,
        s.on_key(key).record_map == s.record_map,
        s.records_current() ==> s.on_key(key).records_current(),
{
}

/// A ranking list is stored together with the wins and losses counted from
/// it.
pub proof fn lemma_stored_records_current(s: AppState, list: Seq<BanzukeEntryView>)
    ensures
        s.with_banzuke(list).records_current(),
{
}

} // verus!
