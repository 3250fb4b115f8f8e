use vstd::prelude::*;
use vstd::utf8::{encode_utf8, valid_utf8};

use crate::config::{is_digit, parse_baud_rate, parse_baud_rate_spec, AppConfig, EchoMode};
use crate::input_editor::{
    commit_sent_spec, delete_backward_spec, delete_forward_spec, delete_word_backward_spec,
    insert_spec, move_end_spec, move_home_spec, move_left_spec, move_right_spec,
    recall_newer_spec, recall_older_spec, EditorView, InputEditor,
};
use crate::keys::{is_keypress_quit_event, is_quit_spec, KeyCode, KeyEventKind, KeyPress};
use crate::list_state::{is_sorted_texts, next_selection, previous_selection, texts, ListStateTracker};
use crate::screen::{CurrentScreen, MainScreenActiveRegion};
use crate::text::{decode_text, message_bytes, string_from_chars, text_bytes};
use crate::transfer_log::{
    append_closed, max_rendered_width, receive_bytes, LogEntryView, TransferLog, TransferLogType,
};
use crate::viewport::ViewportState;

verus! {

pub const NO_PORT_MESSAGE: &'static str = "Error: No serial port selected";

pub const NO_BAUD_RATE_MESSAGE: &'static str = "Error: No baud rate selected";

pub const BIND_ERROR_PREFIX: &'static str = "Error binding serial port: ";

pub const WRITE_ERROR_PREFIX: &'static str = "Error writing to serial port: ";

pub const READ_ERROR_PREFIX: &'static str = "Error reading from serial port: ";

pub const NO_PORTS_MESSAGE: &'static str = "No serial ports found!";

pub const PORT_SCAN_ERROR_PREFIX: &'static str = "Error finding serial ports (";

pub const PORT_SCAN_ERROR_SUFFIX: &'static str = ")!";

/// What the loop around the session is to do after a key.
pub enum KeyAction {
    Continue,
    Quit,
    /// Open the port at the baud rate, then report the outcome with
    /// `finish_bind`.
    BindPort { port: String, baud_rate: u32 },
    /// Write the bytes, then report the outcome with `commit`.
    Send { bytes: Vec<u8> },
}

pub enum ActionView {
    Continue,
    Quit,
    BindPort(Seq<char>, u32),
    Send(Seq<u8>),
}

impl View for KeyAction {
    type V = ActionView;

    open spec fn view(&self) -> ActionView {
        match self {
            KeyAction::Continue => ActionView::Continue,
            KeyAction::Quit => ActionView::Quit,
            KeyAction::BindPort { port, baud_rate } => ActionView::BindPort(port@, *baud_rate),
            KeyAction::Send { bytes } => ActionView::Send(bytes@),
        }
    }
}

/// What a poll of the serial port gave.
pub enum SerialRead {
    Data(Vec<u8>),
    /// Nothing arrived in time; not an error.
    TimedOut,
    Failed(String),
}

/// The model of the session.
pub struct AppView {
    pub screen: CurrentScreen,
    pub config: AppConfig,
    pub port_items: Seq<Seq<char>>,
    pub port_selection: Option<usize>,
    pub selected_port: Option<Seq<char>>,
    pub error_message: Option<Seq<char>>,
    pub baud_field: Seq<char>,
    pub editor: EditorView,
    pub log: Seq<LogEntryView>,
    pub region: MainScreenActiveRegion,
    pub viewport: ViewportState,
}

/// The whole state of an interactive session with a serial device.
pub struct App {
    pub current_screen: CurrentScreen,
    pub app_config: AppConfig,
    pub pick_serial_port_list_state: ListStateTracker,
    pub selected_serial_port: Option<String>,
    pub general_error_message: Option<String>,
    pub pick_baud_rate_input_field: Vec<char>,
    pub main_input: InputEditor,
    pub main_screen_transfer_log: TransferLog,
    pub main_screen_active_region: MainScreenActiveRegion,
    pub main_screen_viewport: ViewportState,
}

pub open spec fn text_of(s: Option<String>) -> Option<Seq<char>> {
    match s {
        Some(t) => Some(t@),
        None => None,
    }
}

impl View for App {
    type V = AppView;

    open spec fn view(&self) -> AppView {
        AppView {
            screen: self.current_screen,
            config: self.app_config,
            port_items: self.pick_serial_port_list_state.items_view(),
            port_selection: self.pick_serial_port_list_state.selection(),
            selected_port: text_of(self.selected_serial_port),
            error_message: text_of(self.general_error_message),
            baud_field: self.pick_baud_rate_input_field@,
            editor: self.main_input@,
            log: self.main_screen_transfer_log@,
            region: self.main_screen_active_region,
            viewport: self.main_screen_viewport,
        }
    }
}

/// The other region of the main screen.
pub open spec fn other_region(r: MainScreenActiveRegion) -> MainScreenActiveRegion {
    match r {
        MainScreenActiveRegion::Input => MainScreenActiveRegion::OutputScrollBars,
        _ => MainScreenActiveRegion::Input,
    }
}

pub open spec fn selected_item(v: AppView) -> Option<Seq<char>> {
    match v.port_selection {
        Some(i) => Some(v.port_items[i as int]),
        None => None,
    }
}

/// Leaving for the main screen: with a port and a baud rate, the loop is
/// asked to open the port; without, an error is shown on the screen that
/// asks for what is missing.
pub open spec fn transition_to_main_spec(v: AppView) -> (AppView, ActionView) {
    match v.selected_port {
        Some(port) => match v.config.baud_rate {
            Some(b) => (v, ActionView::BindPort(port, b)),
            None => (
                AppView {
                    error_message: Some(NO_BAUD_RATE_MESSAGE@),
                    screen: CurrentScreen::PickBaudRate,
                    ..v
                },
                ActionView::Continue,
            ),
        },
        None => (
            AppView {
                error_message: Some(NO_PORT_MESSAGE@),
                screen: CurrentScreen::PickSerialPort,
                ..v
            },
            ActionView::Continue,
        ),
    }
}

/// A key on the port list.
pub open spec fn pick_port_step(v: AppView, key: KeyPress) -> (AppView, ActionView) {
    let len = v.port_items.len();
    match key.code {
        KeyCode::Char('h') | KeyCode::Char('k') | KeyCode::Up | KeyCode::Left => (
            AppView { port_selection: previous_selection(v.port_selection, len), ..v },
            ActionView::Continue,
        ),
        KeyCode::Char('j') | KeyCode::Char('l') | KeyCode::Down | KeyCode::Right => (
            AppView { port_selection: next_selection(v.port_selection, len), ..v },
            ActionView::Continue,
        ),
        KeyCode::Enter => match selected_item(v) {
            Some(port) => {
                let chosen = AppView { selected_port: Some(port), ..v };
                match v.config.baud_rate {
                    Some(b) => if b != 0 {
                        transition_to_main_spec(chosen)
                    } else {
                        (AppView { screen: CurrentScreen::PickBaudRate, ..chosen }, ActionView::Continue)
                    },
                    None => (AppView { screen: CurrentScreen::PickBaudRate, ..chosen }, ActionView::Continue),
                }
            },
            None => (AppView { selected_port: None, ..v }, ActionView::Continue),
        },
        _ => (v, ActionView::Continue),
    }
}

/// A key on the baud rate screen, where digits are typed without a
/// leading zero.
pub open spec fn pick_baud_rate_step(v: AppView, key: KeyPress) -> (AppView, ActionView) {
    let field = v.baud_field;
    let cleared = AppView { baud_field: Seq::<char>::empty(), ..v };
    if key.modifiers.is_control_only_spec() && (key.code == KeyCode::Backspace || key.code
        == KeyCode::Char('h')) {
        (cleared, ActionView::Continue)
    } else if key.modifiers.is_none_spec() {
        match key.code {
            KeyCode::Char('b') => (AppView { screen: CurrentScreen::PickSerialPort, ..v }, ActionView::Continue),
            KeyCode::Char('c') => (cleared, ActionView::Continue),
            KeyCode::Char(c) => if is_digit(c) && (field.len() > 0 || c != '0') {
                (AppView { baud_field: field.push(c), ..v }, ActionView::Continue)
            } else {
                (v, ActionView::Continue)
            },
            KeyCode::Backspace => if field.len() > 0 {
                (AppView { baud_field: field.drop_last(), ..v }, ActionView::Continue)
            } else {
                (v, ActionView::Continue)
            },
            KeyCode::Enter => match parse_baud_rate_spec(field) {
                Some(rate) => transition_to_main_spec(
                    AppView { config: AppConfig { baud_rate: Some(rate), ..v.config }, ..v },
                ),
                None => (cleared, ActionView::Continue),
            },
            _ => (v, ActionView::Continue),
        }
    } else {
        (v, ActionView::Continue)
    }
}

/// A key in the input region of the main screen.
pub open spec fn input_step(v: AppView, key: KeyPress) -> (AppView, ActionView) {
    let e = v.editor;
    let edited = |e2: EditorView| (AppView { editor: e2, ..v }, ActionView::Continue);
    if key.modifiers.is_control_only_spec() && (key.code == KeyCode::Char('h') || key.code
        == KeyCode::Backspace) {
        edited(delete_word_backward_spec(e))
    } else if key.modifiers.is_none_spec() {
        match key.code {
            KeyCode::Left => edited(move_left_spec(e)),
            KeyCode::Right => edited(move_right_spec(e)),
            KeyCode::Home => edited(move_home_spec(e)),
            KeyCode::End => edited(move_end_spec(e)),
            KeyCode::Up => edited(recall_older_spec(e)),
            KeyCode::Down => edited(recall_newer_spec(e)),
            KeyCode::Char(c) => edited(insert_spec(e, c)),
            KeyCode::Backspace => edited(delete_backward_spec(e)),
            KeyCode::Delete => edited(delete_forward_spec(e)),
            KeyCode::Enter => (v, ActionView::Send(encode_utf8(e.buffer) + v.config.end_of_line.bytes())),
            _ => (v, ActionView::Continue),
        }
    } else if key.modifiers.is_shift_only_spec() {
        match key.code {
            KeyCode::Char(c) => edited(insert_spec(e, c)),
            _ => (v, ActionView::Continue),
        }
    } else {
        (v, ActionView::Continue)
    }
}

/// A key in the scrolling region of the main screen.
pub open spec fn scroll_step(v: AppView, key: KeyPress) -> AppView {
    let vp = v.viewport;
    match key.code {
        KeyCode::Esc => AppView { region: MainScreenActiveRegion::Input, ..v },
        KeyCode::Char('j') | KeyCode::Down => AppView { viewport: vp.scrolled_down(1), ..v },
        KeyCode::Char('k') | KeyCode::Up => AppView { viewport: vp.scrolled_up(1), ..v },
        KeyCode::Char('h') | KeyCode::Left => AppView {
            viewport: vp.with_horiz_offset(vp.horiz_offset.saturating_sub(1)),
            ..v
        },
        KeyCode::Char('l') | KeyCode::Right => AppView {
            viewport: vp.with_horiz_offset(vp.horiz_offset.saturating_add(1)),
            ..v
        },
        KeyCode::Home => AppView { viewport: vp.with_horiz_offset(0), ..v },
        KeyCode::End => AppView { viewport: vp.with_horiz_offset(u32::MAX as usize), ..v },
        KeyCode::PageUp => if key.modifiers.is_control_only_spec() {
            AppView { viewport: vp.scrolled_to_top(), ..v }
        } else {
            AppView { viewport: vp.scrolled_up(10), ..v }
        },
        KeyCode::PageDown => if key.modifiers.is_control_only_spec() {
            AppView { viewport: vp.pinned(), ..v }
        } else {
            AppView { viewport: vp.scrolled_down(10), ..v }
        },
        _ => v,
    }
}

/// A key in the line-ending choice of the main screen.
pub open spec fn line_ending_step(v: AppView, key: KeyPress) -> AppView {
    match key.code {
        KeyCode::Esc => AppView { region: MainScreenActiveRegion::Input, ..v },
        KeyCode::Left => AppView {
            config: AppConfig { end_of_line: v.config.end_of_line.preceding(), ..v.config },
            ..v
        },
        KeyCode::Right => AppView {
            config: AppConfig { end_of_line: v.config.end_of_line.following(), ..v.config },
            ..v
        },
        _ => v,
    }
}

/// A key on the main screen: first the keys that switch screens or
/// regions, then the key goes to the region that has the focus.
pub open spec fn main_step(v: AppView, key: KeyPress) -> (AppView, ActionView) {
    let m = key.modifiers;
    let code = key.code;
    let v1 = if m.is_control_only_spec() && code == KeyCode::Char('?') {
        AppView { screen: CurrentScreen::Help, ..v }
    } else if m.is_control_only_spec() && code == KeyCode::Char('b') {
        AppView { screen: CurrentScreen::PickBaudRate, ..v }
    } else if m.is_control_only_spec() && code == KeyCode::Char('t') {
        AppView { screen: CurrentScreen::Config1, ..v }
    } else if m.is_none_spec() && (code == KeyCode::Esc || code == KeyCode::Tab) {
        AppView { region: other_region(v.region), ..v }
    } else if (m.is_shift_only_spec() && code == KeyCode::Tab) || code == KeyCode::BackTab {
        AppView { region: other_region(v.region), ..v }
    } else {
        v
    };
    match v1.region {
        MainScreenActiveRegion::Input => input_step(v1, key),
        MainScreenActiveRegion::OutputScrollBars => (scroll_step(v1, key), ActionView::Continue),
        MainScreenActiveRegion::InputEolChoice => (line_ending_step(v1, key), ActionView::Continue),
    }
}

pub open spec fn config_step(v: AppView, key: KeyPress) -> AppView {
    match key.code {
        KeyCode::Esc | KeyCode::Enter => AppView { screen: CurrentScreen::Main, ..v },
        _ => v,
    }
}

pub open spec fn help_step(v: AppView) -> AppView {
    AppView { screen: CurrentScreen::Main, ..v }
}

/// One key event: released keys are ignored; a quit key ends the program
/// (`q` only off the main screen, where it is typed); any other key goes to
/// the screen shown.
pub open spec fn keypress_step(v: AppView, key: KeyPress) -> (AppView, ActionView) {
    if key.kind == KeyEventKind::Release {
        (v, ActionView::Continue)
    } else if is_quit_spec(key, v.screen != CurrentScreen::Main) {
        (v, ActionView::Quit)
    } else {
        match v.screen {
            CurrentScreen::PickSerialPort => pick_port_step(v, key),
            CurrentScreen::PickBaudRate => pick_baud_rate_step(v, key),
            CurrentScreen::Main => main_step(v, key),
            CurrentScreen::Config1 => (config_step(v, key), ActionView::Continue),
            CurrentScreen::Help => (help_step(v), ActionView::Continue),
        }
    }
}

/// The outcome of opening the port: the main screen, or the port list
/// with the reason.
pub open spec fn finish_bind_spec(v: AppView, result: Result<(), Seq<char>>) -> AppView {
    match result {
        Ok(()) => AppView { screen: CurrentScreen::Main, ..v },
        Err(e) => AppView {
            error_message: Some(BIND_ERROR_PREFIX@ + e),
            screen: CurrentScreen::PickSerialPort,
            ..v
        },
    }
}

/// The outcome of sending the draft. On success the draft joins the history
/// and is cleared, and with echo on a copy goes to the log; on failure the
/// draft stays as it was and the log records the error.
pub open spec fn commit_spec(v: AppView, result: Result<(), Seq<char>>) -> AppView {
    match result {
        Ok(()) => AppView {
            editor: commit_sent_spec(v.editor),
            log: match v.config.echo_mode {
                EchoMode::On => append_closed(v.log, TransferLogType::EchoData, encode_utf8(v.editor.buffer)),
                EchoMode::Off => v.log,
            },
            ..v
        },
        Err(e) => AppView {
            log: append_closed(v.log, TransferLogType::ErrorData, encode_utf8(WRITE_ERROR_PREFIX@ + e)),
            ..v
        },
    }
}

/// A send that failed leaves the draft, its caret and the history as they
/// were; committing again after the same failure changes them no further.
pub proof fn lemma_failed_commit_keeps_draft(v: AppView, e: Seq<char>)
    ensures
        commit_spec(v, Err(e)).editor == v.editor,
        commit_spec(commit_spec(v, Err(e)), Err(e)).editor == v.editor,
{
}

/// The log after a poll of the port: text is received; bytes that are not
/// valid UTF-8 are kept in an error entry; a failure is recorded; a timeout
/// or an empty read changes nothing.
pub open spec fn serial_read_log(log: Seq<LogEntryView>, read: SerialRead) -> Seq<LogEntryView> {
    match read {
        SerialRead::Data(bytes) => if bytes@.len() == 0 {
            log
        } else if valid_utf8(bytes@) {
            receive_bytes(log, bytes@)
        } else {
            append_closed(log, TransferLogType::ErrorData, bytes@)
        },
        SerialRead::TimedOut => log,
        SerialRead::Failed(e) => append_closed(
            log,
            TransferLogType::ErrorData,
            encode_utf8(READ_ERROR_PREFIX@ + e@),
        ),
    }
}

/// The choices of the port list: the ports found, or a line that says
/// that there are none or why the search failed; then the pending error.
pub open spec fn port_list_items(ports: Result<Vec<String>, String>, error: Option<Seq<char>>) -> Seq<Seq<char>> {
    let found = match ports {
        Ok(names) => if names@.len() == 0 {
            seq![NO_PORTS_MESSAGE@]
        } else {
            texts(names@)
        },
        Err(e) => seq![PORT_SCAN_ERROR_PREFIX@ + e@ + PORT_SCAN_ERROR_SUFFIX@],
    };
    match error {
        Some(msg) => found.push(msg),
        None => found,
    }
}

impl App {
    pub open spec fn wf(&self) -> bool {
        &&& self.pick_serial_port_list_state.wf()
        &&& self.main_input.wf()
        &&& self.main_screen_transfer_log.wf()
        &&& !(self.main_screen_active_region is InputEolChoice)
    }

    /// A session on the port list, with nothing sent or received.
    pub fn new() -> (r: Self)
        ensures
            r.wf(),
            r@.screen == CurrentScreen::PickSerialPort,
            r@.config == AppConfig::default_spec(),
            r@.port_items.len() == 0,
            r@.port_selection is None,
            r@.selected_port is None,
            r@.error_message is None,
            r@.baud_field.len() == 0,
            r@.editor == InputEditor::new_spec(),
            r@.log.len() == 0,
            r@.region == MainScreenActiveRegion::Input,
            r@.viewport == ViewportState::new_spec(),
    {
        App {
            current_screen: CurrentScreen::PickSerialPort,
            app_config: AppConfig::default(),
            pick_serial_port_list_state: ListStateTracker::default(),
            selected_serial_port: None,
            general_error_message: None,
            pick_baud_rate_input_field: Vec::new(),
            main_input: InputEditor::new(),
            main_screen_transfer_log: TransferLog::new(),
            main_screen_active_region: MainScreenActiveRegion::Input,
            main_screen_viewport: ViewportState::new(),
        }
    }

    /// Appends bytes received from the device to the log.
    pub fn add_rxd_serial_data_to_transfer_log(&mut self, new_data: Vec<u8>)
        requires
            old(self).wf(),
        ensures
            final(self).wf(),
            final(self)@ == (AppView { log: receive_bytes(old(self)@.log, new_data@), ..old(self)@ }),
    {
        self.main_screen_transfer_log.append_received(new_data.as_slice());
    }

    /// Appends a copy of a sent message to the log.
    pub fn add_echo_to_transfer_log(&mut self, new_data: Vec<u8>)
        requires
            old(self).wf(),
        ensures
            final(self).wf(),
            final(self)@ == (AppView {
                log: append_closed(old(self)@.log, TransferLogType::EchoData, new_data@),
                ..old(self)@
            }),
    {
        self.main_screen_transfer_log.append_echo(new_data);
    }

    /// Appends an error message to the log.
    pub fn add_error_to_transfer_log(&mut self, new_data: String)
        requires
            old(self).wf(),
        ensures
            final(self).wf(),
            final(self)@ == (AppView {
                log: append_closed(old(self)@.log, TransferLogType::ErrorData, encode_utf8(new_data@)),
                ..old(self)@
            }),
    {
        self.main_screen_transfer_log.append_error(text_bytes(new_data.as_str()));
    }

    /// Decides what a key does and does it; what needs the port is handed
    /// back to the caller.
    pub fn handle_keypress(&mut self, key: KeyPress) -> (r: KeyAction)
        requires
            old(self).wf(),
        ensures
            final(self).wf(),
            (final(self)@, r@) == keypress_step(old(self)@, key),
    {
        if key.kind == KeyEventKind::Release {
            return KeyAction::Continue;
        }
        let is_q_quit = self.current_screen != CurrentScreen::Main;
        if is_keypress_quit_event(key, is_q_quit) {
            return KeyAction::Quit;
        }
        match self.current_screen {
            CurrentScreen::PickSerialPort => self.handle_keypress_pick_serial_port(key),
            CurrentScreen::PickBaudRate => self.handle_keypress_pick_baud_rate(key),
            CurrentScreen::Main => self.handle_keypress_main(key),
            CurrentScreen::Config1 => {
                self.handle_keypress_config1(key);
                KeyAction::Continue
            },
            CurrentScreen::Help => {
                self.handle_keypress_help(key);
                KeyAction::Continue
            },
        }
    }

    fn handle_keypress_pick_serial_port(&mut self, key: KeyPress) -> (r: KeyAction)
        requires
            old(self).wf(),
        ensures
            final(self).wf(),
            (final(self)@, r@) == pick_port_step(old(self)@, key),
    {
        match key.code {
            KeyCode::Char('h') | KeyCode::Char('k') | KeyCode::Up | KeyCode::Left => {
                self.pick_serial_port_list_state.previous();
                KeyAction::Continue
            },
            KeyCode::Char('j') | KeyCode::Char('l') | KeyCode::Down | KeyCode::Right => {
                self.pick_serial_port_list_state.next();
                KeyAction::Continue
            },
            KeyCode::Enter => {
                match self.pick_serial_port_list_state.get_selected() {
                    Some(port) => {
                        self.selected_serial_port = Some(port);
                        match self.app_config.baud_rate {
                            Some(b) => {
                                if b != 0 {
                                    self.transition_to_main()
                                } else {
                                    self.current_screen = CurrentScreen::PickBaudRate;
                                    KeyAction::Continue
                                }
                            },
                            None => {
                                self.current_screen = CurrentScreen::PickBaudRate;
                                KeyAction::Continue
                            },
                        }
                    },
                    None => {
                        self.selected_serial_port = None;
                        KeyAction::Continue
                    },
                }
            },
            _ => KeyAction::Continue,
        }
    }

    fn handle_keypress_pick_baud_rate(&mut self, key: KeyPress) -> (r: KeyAction)
        requires
            old(self).wf(),
        ensures
            final(self).wf(),
            (final(self)@, r@) == pick_baud_rate_step(old(self)@, key),
    {
        if key.modifiers.is_control_only() {
            match key.code {
                KeyCode::Backspace | KeyCode::Char('h') => {
                    self.pick_baud_rate_input_field.clear();
                },
                _ => {},
            }
            return KeyAction::Continue;
        }
        if !key.modifiers.is_none() {
            return KeyAction::Continue;
        }
        match key.code {
            KeyCode::Char('b') => {
                self.current_screen = CurrentScreen::PickSerialPort;
            },
            KeyCode::Char('c') => {
                self.pick_baud_rate_input_field.clear();
            },
            KeyCode::Char(c) => {
                if '0' <= c && c <= '9' && (self.pick_baud_rate_input_field.len() > 0 || c != '0') {
                    self.pick_baud_rate_input_field.push(c);
                }
            },
            KeyCode::Backspace => {
                self.pick_baud_rate_input_field.pop();
                assert(self.pick_baud_rate_input_field@ =~= pick_baud_rate_step(old(self)@, key).0.baud_field);
            },
            KeyCode::Enter => {
                match parse_baud_rate(self.pick_baud_rate_input_field.as_slice()) {
                    Some(rate) => {
                        self.app_config.baud_rate = Some(rate);
                        return self.transition_to_main();
                    },
                    None => {
                        self.pick_baud_rate_input_field.clear();
                    },
                }
            },
            _ => {},
        }
        KeyAction::Continue
    }

    fn handle_keypress_main(&mut self, key: KeyPress) -> (r: KeyAction)
        requires
            old(self).wf(),
        ensures
            final(self).wf(),
            (final(self)@, r@) == main_step(old(self)@, key),
    {
        let m = key.modifiers;
        let code = key.code;
        if m.is_control_only() && code == KeyCode::Char('?') {
            self.current_screen = CurrentScreen::Help;
        } else if m.is_control_only() && code == KeyCode::Char('b') {
            self.current_screen = CurrentScreen::PickBaudRate;
        } else if m.is_control_only() && code == KeyCode::Char('t') {
            self.current_screen = CurrentScreen::Config1;
        } else if m.is_none() && (code == KeyCode::Esc || code == KeyCode::Tab) {
            self.main_screen_active_region = self.main_screen_active_region.next();
        } else if (m.is_shift_only() && code == KeyCode::Tab) || code == KeyCode::BackTab {
            self.main_screen_active_region = self.main_screen_active_region.prev();
        }
        match self.main_screen_active_region {
            MainScreenActiveRegion::Input => self.handle_keypress_input(key),
            MainScreenActiveRegion::OutputScrollBars => {
                self.handle_keypress_scroll(key);
                KeyAction::Continue
            },
            MainScreenActiveRegion::InputEolChoice => {
                self.handle_keypress_line_ending(key);
                KeyAction::Continue
            },
        }
    }

    fn handle_keypress_input(&mut self, key: KeyPress) -> (r: KeyAction)
        requires
            old(self).wf(),
        ensures
            final(self).wf(),
            (final(self)@, r@) == input_step(old(self)@, key),
    {
        let m = key.modifiers;
        if m.is_control_only() {
            match key.code {
                KeyCode::Char('h') | KeyCode::Backspace => {
                    self.main_input.delete_word_backward();
                },
                _ => {},
            }
            return KeyAction::Continue;
        }
        if m.is_shift_only() {
            if let KeyCode::Char(c) = key.code {
                self.main_input.insert(c);
            }
            return KeyAction::Continue;
        }
        if !m.is_none() {
            return KeyAction::Continue;
        }
        match key.code {
            KeyCode::Left => self.main_input.move_left(),
            KeyCode::Right => self.main_input.move_right(),
            KeyCode::Home => self.main_input.move_home(),
            KeyCode::End => self.main_input.move_end(),
            KeyCode::Up => self.main_input.recall_older(),
            KeyCode::Down => self.main_input.recall_newer(),
            KeyCode::Char(c) => self.main_input.insert(c),
            KeyCode::Backspace => self.main_input.delete_backward(),
            KeyCode::Delete => self.main_input.delete_forward(),
            KeyCode::Enter => {
                let eol = self.app_config.end_of_line.as_bytes();
                let bytes = self.main_input.outbound_bytes(eol.as_slice());
                return KeyAction::Send { bytes };
            },
            _ => {},
        }
        KeyAction::Continue
    }

    fn handle_keypress_scroll(&mut self, key: KeyPress)
        requires
            old(self).wf(),
        ensures
            final(self).wf(),
            final(self)@ == scroll_step(old(self)@, key),
    {
        let horiz = self.main_screen_viewport.horiz_offset;
        match key.code {
            KeyCode::Esc => {
                self.main_screen_active_region = MainScreenActiveRegion::Input;
            },
            KeyCode::Char('j') | KeyCode::Down => self.main_screen_viewport.scroll_down(1),
            KeyCode::Char('k') | KeyCode::Up => self.main_screen_viewport.scroll_up(1),
            KeyCode::Char('h') | KeyCode::Left => {
                self.main_screen_viewport.set_horiz_offset(horiz.saturating_sub(1));
            },
            KeyCode::Char('l') | KeyCode::Right => {
                self.main_screen_viewport.set_horiz_offset(horiz.saturating_add(1));
            },
            KeyCode::Home => self.main_screen_viewport.set_horiz_offset(0),
            KeyCode::End => self.main_screen_viewport.set_horiz_offset(u32::MAX as usize),
            KeyCode::PageUp => {
                if key.modifiers.is_control_only() {
                    self.main_screen_viewport.scroll_to_top();
                } else {
                    self.main_screen_viewport.scroll_up(10);
                }
            },
            KeyCode::PageDown => {
                if key.modifiers.is_control_only() {
                    self.main_screen_viewport.jump_to_end();
                } else {
                    self.main_screen_viewport.scroll_down(10);
                }
            },
            _ => {},
        }
    }

    fn handle_keypress_line_ending(&mut self, key: KeyPress)
        requires
            old(self).wf(),
        ensures
            final(self).wf(),
            final(self)@ == line_ending_step(old(self)@, key),
    {
        match key.code {
            KeyCode::Esc => {
                self.main_screen_active_region = MainScreenActiveRegion::Input;
            },
            KeyCode::Left => {
                self.app_config.end_of_line = self.app_config.end_of_line.prev();
            },
            KeyCode::Right => {
                self.app_config.end_of_line = self.app_config.end_of_line.next();
            },
            _ => {},
        }
    }

    fn handle_keypress_config1(&mut self, key: KeyPress)
        requires
            old(self).wf(),
        ensures
            final(self).wf(),
            final(self)@ == config_step(old(self)@, key),
    {
        match key.code {
            KeyCode::Esc | KeyCode::Enter => {
                self.current_screen = CurrentScreen::Main;
            },
            _ => {},
        }
    }

    fn handle_keypress_help(&mut self, key: KeyPress)
        requires
            old(self).wf(),
        ensures
            final(self).wf(),
            final(self)@ == help_step(old(self)@),
    {
        self.current_screen = CurrentScreen::Main;
    }

    /// Asks to open the chosen port at the chosen baud rate, or shows what
    /// is missing.
    pub fn transition_to_main(&mut self) -> (r: KeyAction)
        requires
            old(self).wf(),
        ensures
            final(self).wf(),
            (final(self)@, r@) == transition_to_main_spec(old(self)@),
    {
        match &self.selected_serial_port {
            Some(port) => match self.app_config.baud_rate {
                Some(baud_rate) => KeyAction::BindPort { port: port.clone(), baud_rate },
                None => {
                    self.general_error_message = Some(String::from_str(NO_BAUD_RATE_MESSAGE));
                    self.current_screen = CurrentScreen::PickBaudRate;
                    KeyAction::Continue
                },
            },
            None => {
                self.general_error_message = Some(String::from_str(NO_PORT_MESSAGE));
                self.current_screen = CurrentScreen::PickSerialPort;
                KeyAction::Continue
            },
        }
    }

    /// Takes the outcome of opening the port.
    pub fn finish_bind(&mut self, result: Result<(), String>)
        requires
            old(self).wf(),
        ensures
            final(self).wf(),
            final(self)@ == finish_bind_spec(
                old(self)@,
                match result {
                    Ok(()) => Ok(()),
                    Err(e) => Err(e@),
                },
            ),
    {
        match result {
            Ok(()) => {
                self.current_screen = CurrentScreen::Main;
            },
            Err(e) => {
                self.general_error_message = Some(String::from_str(BIND_ERROR_PREFIX).concat(e.as_str()));
                self.current_screen = CurrentScreen::PickSerialPort;
            },
        }
    }

    /// Takes the outcome of writing the draft to the port.
    pub fn commit(&mut self, result: Result<(), String>)
        requires
            old(self).wf(),
        ensures
            final(self).wf(),
            final(self)@ == commit_spec(
                old(self)@,
                match result {
                    Ok(()) => Ok(()),
                    Err(e) => Err(e@),
                },
            ),
    {
        match result {
            Ok(()) => {
                let sent = self.main_input.text_bytes();
                self.main_input.commit_sent();
                match self.app_config.echo_mode {
                    EchoMode::On => self.main_screen_transfer_log.append_echo(sent),
                    EchoMode::Off => {},
                }
            },
            Err(e) => {
                self.main_screen_transfer_log.append_error(message_bytes(WRITE_ERROR_PREFIX, e.as_str()));
            },
        }
    }

    /// Takes what a poll of the serial port gave.
    pub fn handle_serial_read(&mut self, read: SerialRead)
        requires
            old(self).wf(),
        ensures
            final(self).wf(),
            final(self)@ == (AppView { log: serial_read_log(old(self)@.log, read), ..old(self)@ }),
    {
        match read {
            SerialRead::Data(bytes) => {
                if bytes.len() > 0 {
                    match decode_text(bytes.as_slice()) {
                        Some(_) => self.main_screen_transfer_log.append_received(bytes.as_slice()),
                        None => self.main_screen_transfer_log.append_error(bytes),
                    }
                }
            },
            SerialRead::TimedOut => {},
            SerialRead::Failed(e) => {
                self.main_screen_transfer_log.append_error(message_bytes(READ_ERROR_PREFIX, e.as_str()));
            },
        }
    }

    /// Refreshes the port list from a scan of the ports; the selection stays
    /// unless the choices changed.
    pub fn refresh_port_list(&mut self, ports: Result<Vec<String>, String>)
        requires
            old(self).wf(),
        ensures
            final(self).wf(),
            final(self)@.port_items.to_multiset() == port_list_items(ports, old(self)@.error_message).to_multiset(),
            final(self)@.port_items.len() == port_list_items(ports, old(self)@.error_message).len(),
            is_sorted_texts(final(self)@.port_items),
            final(self)@.port_items == old(self)@.port_items ==> final(self)@.port_selection == old(self)@.port_selection,
            final(self)@.port_items != old(self)@.port_items ==> final(self)@.port_selection
                == ListStateTracker::first_or_none(final(self)@.port_items.len()),
            final(self)@ == (AppView {
                port_items: final(self)@.port_items,
                port_selection: final(self)@.port_selection,
                ..old(self)@
            }),
    {
        let ghost expected = port_list_items(ports, old(self)@.error_message);
        let mut items: Vec<String> = match ports {
            Ok(names) => {
                if names.len() == 0 {
                    let mut none_found: Vec<String> = Vec::new();
                    none_found.push(String::from_str(NO_PORTS_MESSAGE));
                    none_found
                } else {
                    names
                }
            },
            Err(e) => {
                let mut failed: Vec<String> = Vec::new();
                failed.push(String::from_str(PORT_SCAN_ERROR_PREFIX).concat(e.as_str()).concat(PORT_SCAN_ERROR_SUFFIX));
                failed
            },
        };
        match &self.general_error_message {
            Some(msg) => items.push(msg.clone()),
            None => {},
        }
        assert(texts(items@) =~= expected);
        self.pick_serial_port_list_state.update_items(items);
    }

    /// Clamps the scroll offsets to the log as rendered in a viewport of
    /// `height` lines and `cols` columns.
    pub fn render_pass(&mut self, height: usize, cols: usize)
        requires
            old(self).wf(),
        ensures
            final(self).wf(),
            final(self)@ == (AppView {
                viewport: old(self)@.viewport.rendered(
                    old(self)@.log.len() as usize,
                    max_rendered_width(old(self)@.log) as usize,
                    height,
                    cols,
                ),
                ..old(self)@
            }),
    {
        let lines = self.main_screen_transfer_log.len();
        let width = self.main_screen_transfer_log.content_width();
        self.main_screen_viewport.render_pass(lines, width, height, cols);
    }

    /// The draft as the input box shows it: with a caret symbol while the
    /// input has the focus.
    pub fn main_input_display_text(&self, caret: char) -> (r: String)
        requires
            self.wf(),
        ensures
            r@ == if self.main_screen_active_region == MainScreenActiveRegion::Input {
                match self@.editor.cursor {
                    Some(p) => self@.editor.buffer.insert(p as int, caret),
                    None => self@.editor.buffer.push(caret),
                }
            } else {
                self@.editor.buffer
            },
    {
        match self.main_screen_active_region {
            MainScreenActiveRegion::Input => self.main_input.text_with_caret(caret),
            _ => self.main_input.text(),
        }
    }

    /// The baud rate typed so far.
    pub fn pick_baud_rate_text(&self) -> (r: String)
        ensures
            r@ == self@.baud_field,
    {
        string_from_chars(self.pick_baud_rate_input_field.as_slice())
    }
}

} // verus!
