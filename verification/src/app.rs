use vstd::prelude::*;
use std::collections::HashMap;
use crate::event::{KeyCode, KeyEvent, KeyEventKind};
pub use crate::focus::FocusArea;
use crate::geometry::Rect;
use crate::matrix::{login_with_token, server_name_accepted, token_login_begun, LoginState, MatrixClient, MatrixClientView};
use crate::pos::{get_nearest_focus_area, get_top_left_focus_area, nearest, top_left};
use crate::registry::{distinct_ids, lemma_register_keeps_distinct, register, GeometryRegistry};
use crate::save::Saving;
use crate::text::{char_count, clamp, insert_char, lemma_masked, mask, masked, MASK};

verus! {

broadcast use vstd::std_specs::hash::group_hash_axioms;

/// Whether keys move the focus or edit the focused field.
#[derive(Debug, Default, Clone, Copy, PartialEq, Eq, Structural)]
pub enum InputMode {
    #[default]
    Normal,
    Editing,
}

/// What the main area of the screen is for.
#[derive(Debug, Default, Clone, Copy, PartialEq, Eq, Structural)]
pub enum CurrentScreen {
    #[default]
    Login,
    Main,
}

/// The login that a key press asks the caller to start.
#[derive(Debug)]
pub struct LoginRequest {
    pub server: String,
    pub username: String,
    pub password: String,
}

/// What a frame draws in the main area.
#[derive(Debug, Clone, Copy, PartialEq, Eq, Structural)]
pub enum Content {
    Loading,
    Login,
    Main,
}

/// What a frame draws around the fields.
#[derive(Debug, Clone, Copy, PartialEq, Eq, Structural)]
pub struct Screen {
    /// The information line holds an error.
    pub is_add_info_error: bool,
    pub content: Content,
}

/// How one field is drawn.
#[derive(Debug)]
pub struct InputBlock {
    /// The text inside the field.
    pub value: String,
    /// The field has the focus and is drawn in the focus colour.
    pub focused: bool,
    /// The cell of the text cursor, column first, where the field shows one.
    pub cursor: Option<(u16, u16)>,
}

/// The number `n` as a cell coordinate. What lies beyond the last cell is put on it.
pub open spec fn cell(n: int) -> u16 {
    if n > u16::MAX {
        u16::MAX
    } else if n < 0 {
        0
    } else {
        n as u16
    }
}

/// The state of the engine as plain values.
#[verifier::ext_equal]
pub struct AppView {
    pub input_mode: InputMode,
    pub current_screen: CurrentScreen,
    pub char_index: nat,
    pub should_exit: bool,
    /// The text of each field that holds one.
    pub input_data: Map<FocusArea, Seq<char>>,
    pub current_focus: FocusArea,
    pub add_info: Seq<char>,
    pub focus_area_positions: Seq<(FocusArea, Rect)>,
}

impl AppView {
    /// The state in which the engine starts.
    pub open spec fn initial() -> AppView {
        AppView {
            input_mode: InputMode::Normal,
            current_screen: CurrentScreen::Login,
            char_index: 0,
            should_exit: false,
            input_data: Map::empty(),
            current_focus: FocusArea::ServerInput,
            add_info: Seq::empty(),
            focus_area_positions: Seq::empty(),
        }
    }

    /// The text of `area`. A field without an entry is empty.
    pub open spec fn input(self, area: FocusArea) -> Seq<char> {
        if self.input_data.contains_key(area) {
            self.input_data[area]
        } else {
            Seq::empty()
        }
    }

    /// The text of the focused field.
    pub open spec fn current_value(self) -> Seq<char> {
        self.input(self.current_focus)
    }

    /// The cursor lies in the text of the focused field or at its end.
    pub open spec fn cursor_in_text(self) -> bool {
        self.char_index <= self.current_value().len()
    }

    /// The cursor lies in the focused text and no area is registered twice.
    pub open spec fn wf(self) -> bool {
        &&& self.cursor_in_text()
        &&& distinct_ids(self.focus_area_positions)
    }

    /// The state with the cursor at `cursor`, brought back into the focused text.
    pub open spec fn with_cursor(self, cursor: int) -> AppView {
        AppView { char_index: clamp(cursor, self.current_value().len() as int) as nat, ..self }
    }

    pub open spec fn moved_left(self) -> AppView {
        self.with_cursor(self.char_index - 1)
    }

    pub open spec fn moved_right(self) -> AppView {
        self.with_cursor(self.char_index + 1 as int)
    }

    pub open spec fn moved_rightest(self) -> AppView {
        AppView { char_index: self.current_value().len(), ..self }
    }

    /// The state with `text` in the focused field.
    pub open spec fn with_current_value(self, text: Seq<char>) -> AppView {
        AppView { input_data: self.input_data.insert(self.current_focus, text), ..self }
    }

    /// The state after `c` was typed: it goes in at the cursor, and the cursor
    /// goes behind it.
    pub open spec fn entered(self, c: char) -> AppView {
        let text = self.current_value();
        let at = clamp(self.char_index as int, text.len() as int);
        self.with_current_value(text.insert(at, c)).moved_right()
    }

    /// The state after a backspace: with the cursor at the start nothing
    /// changes; else the text before the character in front of the cursor is
    /// joined to the text from the cursor on, and the cursor goes one to the left.
    pub open spec fn deleted(self) -> AppView {
        if self.char_index == 0 {
            self
        } else {
            let text = self.current_value();
            let len = text.len() as int;
            let before = text.take(clamp(self.char_index - 1, len));
            let after = text.skip(clamp(self.char_index as int, len));
            self.with_current_value(before + after).moved_left()
        }
    }

    /// The state after the focused field was cleared: it has no entry, and the
    /// cursor is at the start.
    pub open spec fn cleared(self) -> AppView {
        AppView { input_data: self.input_data.remove(self.current_focus), char_index: 0, ..self }
    }

    /// The state with the focus on `area`, and the cursor brought back into
    /// the text there.
    pub open spec fn focused(self, area: FocusArea) -> AppView {
        (AppView { current_focus: area, ..self }).with_cursor(self.char_index as int)
    }

    /// The state with `text` in the field `area`, and the cursor brought back
    /// into the focused text.
    pub open spec fn with_input(self, area: FocusArea, text: Seq<char>) -> AppView {
        (AppView { input_data: self.input_data.insert(area, text), ..self }).with_cursor(
            self.char_index as int,
        )
    }

    /// The state with `rect` registered for `area`.
    pub open spec fn registered(self, area: FocusArea, rect: Rect) -> AppView {
        AppView {
            focus_area_positions: register(self.focus_area_positions, area, rect),
            ..self
        }
    }

    /// The state at the start of a frame that reads `status`: no area is
    /// registered, the information line is the one that the status shows, and
    /// a connection switches to the main screen.
    pub open spec fn framed(self, status: MatrixClientView) -> AppView {
        AppView {
            focus_area_positions: Seq::empty(),
            add_info: status.shown(),
            current_screen: if status.connected {
                CurrentScreen::Main
            } else {
                self.current_screen
            },
            ..self
        }
    }

    /// The area that the tab key moves to: the nearest below, else the
    /// nearest to the right, else the one that `top_left` gives.
    pub open spec fn tab_target(self) -> Option<FocusArea> {
        match nearest(self.focus_area_positions, self.current_focus, KeyCode::Down) {
            Some(area) => Some(area),
            None => match nearest(self.focus_area_positions, self.current_focus, KeyCode::Right) {
                Some(area) => Some(area),
                None => top_left(self.focus_area_positions),
            },
        }
    }

    /// The state with the focus moved to `target`, where there is one.
    pub open spec fn moved_to(self, target: Option<FocusArea>) -> AppView {
        match target {
            Some(area) => self.focused(area),
            None => self,
        }
    }

    /// The state after a key press in normal mode.
    pub open spec fn normal_key(self, code: KeyCode) -> AppView {
        match code {
            KeyCode::Char(c) => if c == 'q' {
                AppView { should_exit: true, ..self }
            } else if c == 'i' {
                (AppView { input_mode: InputMode::Editing, ..self }).moved_rightest()
            } else {
                self
            },
            KeyCode::Down | KeyCode::Up | KeyCode::Left | KeyCode::Right => self.moved_to(
                nearest(self.focus_area_positions, self.current_focus, code),
            ),
            KeyCode::Tab => self.moved_to(self.tab_target()),
            _ => self,
        }
    }

    /// The state after a key press in editing mode.
    pub open spec fn editing_key(self, key: KeyEvent) -> AppView {
        if key.clears_line() {
            self.cleared()
        } else {
            match key.code {
                KeyCode::Enter | KeyCode::Esc => AppView { input_mode: InputMode::Normal, ..self },
                KeyCode::Char(c) => self.entered(c),
                KeyCode::Backspace => self.deleted(),
                KeyCode::Left => self.moved_left(),
                KeyCode::Right => self.moved_right(),
                _ => self,
            }
        }
    }

    /// The state after the key event `key`. Only a press counts, and a key
    /// that the mode has no use for changes nothing.
    pub open spec fn handled(self, key: KeyEvent) -> AppView {
        if key.kind != KeyEventKind::Press {
            self
        } else {
            match self.input_mode {
                InputMode::Normal => self.normal_key(key.code),
                InputMode::Editing => self.editing_key(key),
            }
        }
    }

    /// The focused control is the login button.
    pub open spec fn on_login_button(self) -> bool {
        self.current_focus == FocusArea::LoginBt
    }

    /// The key event `key` asks for a login.
    pub open spec fn submits(self, key: KeyEvent) -> bool {
        &&& key.kind == KeyEventKind::Press
        &&& self.input_mode == InputMode::Normal
        &&& key.code == KeyCode::Enter
        &&& self.on_login_button()
    }

    /// `request` holds what the three fields hold.
    pub open spec fn requests(self, request: LoginRequest) -> bool {
        &&& request.server@ == self.input(FocusArea::ServerInput)
        &&& request.username@ == self.input(FocusArea::UsernameInput)
        &&& request.password@ == self.input(FocusArea::PasswordInput)
    }

    /// What is drawn inside the field `area`: its text, or as many mask
    /// glyphs where the field holds the password.
    pub open spec fn rendered(self, area: FocusArea) -> Seq<char> {
        if area == FocusArea::PasswordInput {
            masked(self.input(area))
        } else {
            self.input(area)
        }
    }

    /// The cell of the text cursor in the field `area` drawn at `rect`: two
    /// columns and the cursor to the right of the origin, one row below it.
    /// Only the focused field shows a cursor, and only in editing mode.
    pub open spec fn cursor_cell(self, area: FocusArea, rect: Rect) -> Option<(u16, u16)> {
        if area == self.current_focus && self.input_mode == InputMode::Editing {
            Some((cell(rect.x + 2 + self.char_index), cell(rect.y + 1)))
        } else {
            None
        }
    }

    /// What a frame draws in the main area, given the status that it read.
    pub open spec fn content(self, status: MatrixClientView) -> Content {
        if status.loading {
            Content::Loading
        } else {
            match self.current_screen {
                CurrentScreen::Login => Content::Login,
                CurrentScreen::Main => Content::Main,
            }
        }
    }
}

/// The texts of the fields, as the store keeps them by the code of each area.
spec fn texts(store: Map<u8, String>) -> Map<FocusArea, Seq<char>> {
    Map::new(
        |area: FocusArea| store.contains_key(area.spec_code()),
        |area: FocusArea| store[area.spec_code()]@,
    )
}

/// The state of the input and focus engine.
#[derive(Debug, Clone)]
pub struct App {
    input_mode: InputMode,
    current_screen: CurrentScreen,
    char_index: usize,
    should_exit: bool,
    input_data: HashMap<u8, String>,
    current_focus: FocusArea,
    add_info: String,
    focus_area_positions: GeometryRegistry,
}

impl View for App {
    type V = AppView;

    closed spec fn view(&self) -> AppView {
        AppView {
            input_mode: self.input_mode,
            current_screen: self.current_screen,
            char_index: self.char_index as nat,
            should_exit: self.should_exit,
            input_data: texts(self.input_data@),
            current_focus: self.current_focus,
            add_info: self.add_info@,
            focus_area_positions: self.focus_area_positions@,
        }
    }
}

impl Default for App {
    fn default() -> (app: App)
        ensures
            app@ == AppView::initial(),
            app@.wf(),
    {
        let app = App {
            input_mode: InputMode::Normal,
            current_screen: CurrentScreen::Login,
            char_index: 0,
            should_exit: false,
            input_data: HashMap::new(),
            current_focus: FocusArea::ServerInput,
            add_info: String::new(),
            focus_area_positions: GeometryRegistry::new(),
        };
        assert(app@.input_data =~= Map::<FocusArea, Seq<char>>::empty());
        app
    }
}

impl App {
    pub fn new() -> (app: App)
        ensures
            app@ == AppView::initial(),
            app@.wf(),
    {
        let mut app = App::default();
        app.should_exit = false;
        app
    }

    pub fn input_mode(&self) -> (mode: InputMode)
        ensures
            mode == self@.input_mode,
    {
        self.input_mode
    }

    pub fn current_screen(&self) -> (screen: CurrentScreen)
        ensures
            screen == self@.current_screen,
    {
        self.current_screen
    }

    /// The place of the cursor, counted in characters.
    pub fn char_index(&self) -> (index: usize)
        ensures
            index == self@.char_index,
    {
        self.char_index
    }

    pub fn should_exit(&self) -> (exit: bool)
        ensures
            exit == self@.should_exit,
    {
        self.should_exit
    }

    pub fn current_focus(&self) -> (area: FocusArea)
        ensures
            area == self@.current_focus,
    {
        self.current_focus
    }

    /// The line of information that the last frame showed.
    pub fn add_info(&self) -> (info: &str)
        ensures
            info@ == self@.add_info,
    {
        self.add_info.as_str()
    }

    pub fn focus_area_positions(&self) -> (positions: &GeometryRegistry)
        ensures
            positions@ == self@.focus_area_positions,
    {
        &self.focus_area_positions
    }

    /// The text of the field `area` as it is stored.
    fn input(&self, area: FocusArea) -> (text: &str)
        ensures
            text@ == self@.input(area),
    {
        match self.input_data.get(&area.code()) {
            Some(t) => t.as_str(),
            None => {
                proof {
                    reveal_strlit("");
                }
                assert(""@ =~= Seq::<char>::empty());
                ""
            },
        }
    }

    /// Stores `text` for the field `area`.
    fn store(&mut self, area: FocusArea, text: String)
        ensures
            final(self)@ == (AppView {
                input_data: old(self)@.input_data.insert(area, text@),
                ..old(self)@
            }),
    {
        self.input_data.insert(area.code(), text);
        assert(texts(self.input_data@) =~= texts(old(self).input_data@).insert(area, text@));
    }

    pub fn get_current_value(&self) -> (text: &str)
        ensures
            text@ == self@.current_value(),
    {
        self.input(self.current_focus)
    }

    pub fn get_input_data(&self, key: &FocusArea) -> (text: String)
        ensures
            text@ == self@.input(*key),
    {
        String::from_str(self.input(*key))
    }

    /// Puts `text` into the field `area`.
    pub fn set_input_data(&mut self, area: FocusArea, text: &str)
        ensures
            final(self)@ == old(self)@.with_input(area, text@),
            old(self)@.wf() ==> final(self)@.wf(),
    {
        self.store(area, String::from_str(text));
        self.char_index = self.clamp_cursor(self.char_index);
    }

    /// Moves the focus to `area`.
    pub fn set_current_focus(&mut self, area: FocusArea)
        ensures
            final(self)@ == old(self)@.focused(area),
            old(self)@.wf() ==> final(self)@.wf(),
    {
        self.current_focus = area;
        self.char_index = self.clamp_cursor(self.char_index);
    }

    /// Forgets where the areas were drawn.
    pub fn clear_focus_areas(&mut self)
        ensures
            final(self)@ == (AppView { focus_area_positions: Seq::empty(), ..old(self)@ }),
            old(self)@.wf() ==> final(self)@.wf(),
    {
        self.focus_area_positions.clear();
    }

    /// Notes that `area` was drawn at `rect`.
    pub fn register_focus_area(&mut self, area: FocusArea, rect: Rect)
        ensures
            final(self)@ == old(self)@.registered(area, rect),
            old(self)@.wf() ==> final(self)@.wf(),
    {
        proof {
            if old(self)@.wf() {
                lemma_register_keeps_distinct(old(self)@.focus_area_positions, area, rect);
            }
        }
        self.focus_area_positions.register(area, rect);
    }

    pub fn enter_char(&mut self, c: char)
        ensures
            final(self)@ == old(self)@.entered(c),
            final(self)@.cursor_in_text(),
            old(self)@.wf() ==> final(self)@.wf(),
    {
        let new_value = insert_char(self.get_current_value(), self.char_index, c);
        self.store(self.current_focus, new_value);
        self.move_cursor_right();
    }

    pub fn move_cursor_left(&mut self)
        ensures
            final(self)@ == old(self)@.moved_left(),
            final(self)@.cursor_in_text(),
            old(self)@.wf() ==> final(self)@.wf(),
    {
        let cursor_moved_left = self.char_index.saturating_sub(1);
        self.char_index = self.clamp_cursor(cursor_moved_left);
    }

    pub fn move_cursor_right(&mut self)
        ensures
            final(self)@ == old(self)@.moved_right(),
            final(self)@.cursor_in_text(),
            old(self)@.wf() ==> final(self)@.wf(),
    {
        let cursor_moved_right = self.char_index.saturating_add(1);
        self.char_index = self.clamp_cursor(cursor_moved_right);
    }

    pub fn delete_char(&mut self)
        ensures
            final(self)@ == old(self)@.deleted(),
            final(self)@.cursor_in_text(),
            old(self)@.wf() ==> final(self)@.wf(),
    {
        if self.char_index != 0 {
            let current_index = self.char_index;
            let from_left_to_current_index = current_index - 1;
            let t = self.get_current_value();

            let before_char_to_delete = t.substring_char(
                0,
                self.clamp_cursor(from_left_to_current_index),
            );
            let after_char_to_delete = t.substring_char(
                self.clamp_cursor(current_index),
                char_count(t),
            );

            let mut new_value = String::from_str(before_char_to_delete);
            new_value.append(after_char_to_delete);
            self.store(self.current_focus, new_value);
            self.move_cursor_left();
        }
    }

    pub fn reset_cursor(&mut self)
        ensures
            final(self)@ == (AppView { char_index: 0, ..old(self)@ }),
            final(self)@.cursor_in_text(),
            old(self)@.wf() ==> final(self)@.wf(),
    {
        self.char_index = 0;
    }

    pub fn clear_current_content(&mut self)
        ensures
            final(self)@ == old(self)@.cleared(),
            final(self)@.cursor_in_text(),
            old(self)@.wf() ==> final(self)@.wf(),
    {
        self.input_data.remove(&self.current_focus.code());
        assert(texts(self.input_data@) =~= texts(old(self).input_data@).remove(
            self.current_focus,
        ));
        self.reset_cursor();
    }

    pub fn move_cursor_rightest(&mut self)
        ensures
            final(self)@ == old(self)@.moved_rightest(),
            final(self)@.cursor_in_text(),
            old(self)@.wf() ==> final(self)@.wf(),
    {
        self.char_index = char_count(self.get_current_value());
    }

    /// `new_cursor_pos` brought back into the text of the focused field.
    pub fn clamp_cursor(&self, new_cursor_pos: usize) -> (pos: usize)
        ensures
            pos == clamp(new_cursor_pos as int, self@.current_value().len() as int),
            self@.current_value().len() <= usize::MAX,
    {
        let len = char_count(self.get_current_value());
        if new_cursor_pos > len {
            len
        } else {
            new_cursor_pos
        }
    }

    /// What activating the focused control asks for: the login button asks
    /// for a login with what the three fields hold, no other control asks for
    /// anything.
    pub fn click_focus(&self) -> (request: Option<LoginRequest>)
        ensures
            request is Some <==> self@.on_login_button(),
            request is Some ==> self@.requests(request->0),
    {
        match self.current_focus {
            FocusArea::LoginBt => {
                let server = self.get_input_data(&FocusArea::ServerInput);
                let username = self.get_input_data(&FocusArea::UsernameInput);
                let password = self.get_input_data(&FocusArea::PasswordInput);
                Some(LoginRequest { server, username, password })
            },
            _ => None,
        }
    }
}

/// The state after a run of cursor keys, taken one after the other: `true`
/// stands for the left arrow, `false` for the right one.
pub open spec fn after_moves(state: AppView, moves: Seq<bool>) -> AppView
    decreases moves.len(),
{
    if moves.len() == 0 {
        state
    } else {
        let before = after_moves(state, moves.drop_last());
        if moves.last() {
            before.moved_left()
        } else {
            before.moved_right()
        }
    }
}

/// Whatever run of cursor keys is taken, the cursor stays in the text of the
/// focused field, and the texts stay as they were.
pub proof fn lemma_moves_keep_cursor_in_text(state: AppView, moves: Seq<bool>)
    requires
        state.cursor_in_text(),
    ensures
        after_moves(state, moves).cursor_in_text(),
        after_moves(state, moves).input_data == state.input_data,
        after_moves(state, moves).current_focus == state.current_focus,
    decreases moves.len(),
{
    if moves.len() > 0 {
        lemma_moves_keep_cursor_in_text(state, moves.drop_last());
    }
}

/// A character typed at the cursor and a backspace after it leave every text
/// and the cursor as they were, and change nothing else either.
pub proof fn lemma_delete_undoes_enter(state: AppView, c: char)
    requires
        state.cursor_in_text(),
    ensures
        forall|area: FocusArea| state.entered(c).deleted().input(area) == state.input(area),
        state.entered(c).deleted().char_index == state.char_index,
        state.entered(c).deleted() == (AppView {
            input_data: state.entered(c).deleted().input_data,
            ..state
        }),
{
    let text = state.current_value();
    let at = state.char_index as int;
    let typed = state.entered(c);
    assert(typed.current_value() == text.insert(at, c));
    assert(typed.char_index == at + 1);
    let before = typed.current_value().take(at);
    let after = typed.current_value().skip(at + 1);
    assert(before + after =~= text);
    let undone = typed.deleted();
    assert(undone.input_data == state.input_data.insert(state.current_focus, text));
    assert forall|area: FocusArea| undone.input(area) == state.input(area) by {
        if area == state.current_focus {
            assert(undone.input(area) == text);
        }
    }
}

/// A backspace with the cursor inside the text takes away the character in
/// front of the cursor and nothing else.
pub proof fn lemma_delete_in_text(state: AppView)
    requires
        state.cursor_in_text(),
        state.char_index > 0,
    ensures
        state.deleted().current_value() == state.current_value().remove(state.char_index - 1),
        state.deleted().char_index == state.char_index - 1,
{
    let text = state.current_value();
    let at = state.char_index as int;
    assert(text.take(at - 1) + text.skip(at) =~= text.remove(at - 1));
}

/// The password field is drawn as one mask glyph for each character that it
/// holds, whatever the characters are.
pub proof fn lemma_password_is_masked(state: AppView)
    ensures
        state.rendered(FocusArea::PasswordInput).len() == state.input(
            FocusArea::PasswordInput,
        ).len(),
        forall|i: int|
            0 <= i < state.input(FocusArea::PasswordInput).len() ==> state.rendered(
                FocusArea::PasswordInput,
            )[i] == MASK,
{
    lemma_masked(state.input(FocusArea::PasswordInput));
}

/// Every key event leaves a well-formed state well-formed.
pub proof fn lemma_handled_keeps_wf(state: AppView, key: KeyEvent)
    requires
        state.wf(),
    ensures
        state.handled(key).wf(),
{
    if key.kind == KeyEventKind::Press && state.input_mode == InputMode::Editing
        && !key.clears_line() {
        match key.code {
            KeyCode::Backspace => {
                if state.char_index > 0 {
                    lemma_delete_in_text(state);
                }
            },
            _ => {},
        }
    }
}

/// The two modes keep apart: a key in normal mode changes no text, and a key
/// in editing mode moves no focus and asks for no login.
pub proof fn lemma_modes_keep_apart(state: AppView, key: KeyEvent)
    ensures
        state.input_mode == InputMode::Normal ==> state.handled(key).input_data
            == state.input_data,
        state.input_mode == InputMode::Editing ==> state.handled(key).current_focus
            == state.current_focus && !state.submits(key),
{
}

/// Typing a character into a field and clearing the field leaves what
/// clearing alone leaves.
pub proof fn lemma_clear_after_enter(state: AppView, c: char)
    ensures
        state.entered(c).cleared() == state.cleared(),
{
    assert(state.entered(c).cleared().input_data =~= state.cleared().input_data);
}

/// Takes one key event: in normal mode it moves the focus, starts editing,
/// activates the focused control or asks to quit; in editing mode it edits
/// the focused field or leaves the mode. What comes back is the login that
/// the caller has to start for it, if any.
pub fn handle_events(app: &mut App, key: KeyEvent) -> (request: Option<LoginRequest>)
    ensures
        final(app)@ == old(app)@.handled(key),
        old(app)@.wf() ==> final(app)@.wf(),
        request is Some <==> old(app)@.submits(key),
        request is Some ==> old(app)@.requests(request->0),
{
    let mut request: Option<LoginRequest> = None;
    if key.kind == KeyEventKind::Press {
        match app.input_mode {
            InputMode::Normal => {
                match key.code {
                    KeyCode::Char(c) => {
                        if c == 'q' {
                            app.should_exit = true;
                        } else if c == 'i' {
                            app.input_mode = InputMode::Editing;
                            app.move_cursor_rightest();
                        }
                    },
                    KeyCode::Enter => {
                        request = app.click_focus();
                    },
                    KeyCode::Down | KeyCode::Up | KeyCode::Left | KeyCode::Right => {
                        if let Some(focus_area) = get_nearest_focus_area(app, key.code) {
                            app.set_current_focus(focus_area);
                        }
                    },
                    KeyCode::Tab => {
                        if let Some(down_focus_area) = get_nearest_focus_area(app, KeyCode::Down) {
                            app.set_current_focus(down_focus_area);
                        } else if let Some(right_focus_area) = get_nearest_focus_area(
                            app,
                            KeyCode::Right,
                        ) {
                            app.set_current_focus(right_focus_area);
                        } else if let Some(top_left_focus_area) = get_top_left_focus_area(app) {
                            app.set_current_focus(top_left_focus_area);
                        }
                    },
                    _ => {},
                }
            },
            InputMode::Editing => {
                match key.code {
                    KeyCode::Enter => {
                        app.input_mode = InputMode::Normal;
                    },
                    KeyCode::Char(to_insert) => {
                        app.enter_char(to_insert);
                    },
                    KeyCode::Backspace => {
                        app.delete_char();
                    },
                    KeyCode::Left => {
                        app.move_cursor_left();
                    },
                    KeyCode::Right => {
                        app.move_cursor_right();
                    },
                    KeyCode::Esc => {
                        app.input_mode = InputMode::Normal;
                    },
                    _ => {},
                }
                if key.clears_line() {
                    proof {
                        let c = key.code->Char_0;
                        lemma_clear_after_enter(old(app)@, c);
                    }
                    app.clear_current_content();
                }
            },
        }
    }
    request
}

/// Starts a frame with the status that it read: forgets where the areas
/// were, takes the line of information to show, and says what the frame
/// draws. The caller draws it and registers each area that it draws.
pub fn ui(app: &mut App, client: &MatrixClient) -> (screen: Screen)
    ensures
        final(app)@ == old(app)@.framed(client@),
        old(app)@.wf() ==> final(app)@.wf(),
        screen.is_add_info_error == client@.shows_error(),
        screen.content == final(app)@.content(client@),
{
    app.focus_area_positions.clear();

    let mut is_add_info_error = false;
    app.add_info = client.info_message.clone();
    if !client.error_message.as_str().is_empty() {
        app.add_info = client.error_message.clone();
        is_add_info_error = true;
    }

    if client.connected && app.current_screen != CurrentScreen::Main {
        app.current_screen = CurrentScreen::Main;
    }

    let content = if client.loading {
        Content::Loading
    } else {
        match app.current_screen {
            CurrentScreen::Login => Content::Login,
            CurrentScreen::Main => Content::Main,
        }
    };
    Screen { is_add_info_error, content }
}

/// Says how the field `area` is drawn at `rect`, and registers it there.
pub fn one_line_input_block(app: &mut App, area: FocusArea, rect: Rect) -> (block: InputBlock)
    ensures
        final(app)@ == old(app)@.registered(area, rect),
        old(app)@.wf() ==> final(app)@.wf(),
        block.value@ == old(app)@.rendered(area),
        block.focused == (area == old(app)@.current_focus),
        block.cursor == old(app)@.cursor_cell(area, rect),
{
    let mut inner_value = app.get_input_data(&area);
    let mut cursor: Option<(u16, u16)> = None;
    let focused = area == app.current_focus;

    if focused {
        if app.input_mode == InputMode::Editing {
            let column: u16 = if app.char_index > 0xffff {
                u16::MAX
            } else {
                rect.x.saturating_add(2).saturating_add(app.char_index as u16)
            };
            cursor = Some((column, rect.y.saturating_add(1)));
        }
    }

    if area == FocusArea::PasswordInput {
        inner_value = mask(inner_value.as_str());
    }

    app.register_focus_area(area, rect);

    InputBlock { value: inner_value, focused, cursor }
}

/// Starts the login that a saved session allows: with a token saved, a
/// login with it; else nothing.
pub fn preload_app(client: &mut MatrixClient, saving: &Saving) -> (state: Option<LoginState>)
    ensures
        saving@.token.len() == 0 ==> state is None && final(client)@ == old(client)@,
        saving@.token.len() > 0 ==> state is Some && (final(client)@, state->0) == token_login_begun(
            old(client)@,
            server_name_accepted(saving@.server),
        ),
{
    if !saving.token.as_str().is_empty() {
        Some(login_with_token(client, saving.server.as_str(), saving.token.as_str()))
    } else {
        None
    }
}

} // verus!
