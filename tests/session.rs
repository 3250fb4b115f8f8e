use baud_boss::config::{EchoMode, LineEnding};
use baud_boss::keys::{KeyCode, KeyEventKind, KeyModifiers, KeyPress};
use baud_boss::screen::{CurrentScreen, MainScreenActiveRegion};
use baud_boss::session::{App, KeyAction, SerialRead};
use baud_boss::transfer_log::TransferLogType;
use baud_boss::viewport::ScrollPosition;

fn key(code: KeyCode) -> KeyPress {
    KeyPress::new(code, KeyModifiers::none())
}

fn ctrl(c: char) -> KeyPress {
    KeyPress::new(KeyCode::Char(c), KeyModifiers::control())
}

fn type_text(app: &mut App, text: &str) {
    for c in text.chars() {
        assert!(matches!(app.handle_keypress(key(KeyCode::Char(c))), KeyAction::Continue));
    }
}

fn bound_app() -> App {
    let mut app = App::new();
    app.refresh_port_list(Ok(vec![String::from("/dev/ttyUSB0")]));
    app.app_config.baud_rate = Some(115200);
    match app.handle_keypress(key(KeyCode::Enter)) {
        KeyAction::BindPort { port, baud_rate } => {
            assert_eq!(port, "/dev/ttyUSB0");
            assert_eq!(baud_rate, 115200);
        }
        _ => panic!("expected a bind request"),
    }
    app.finish_bind(Ok(()));
    assert_eq!(app.current_screen, CurrentScreen::Main);
    app
}

fn log_summary(app: &App) -> Vec<(TransferLogType, Vec<u8>, bool)> {
    app.main_screen_transfer_log
        .entries()
        .iter()
        .map(|e| (e.log_type, e.data_as_bytes.clone(), e.is_final))
        .collect()
}

#[test]
fn session_starts_on_the_port_list() {
    let app = App::new();
    assert_eq!(app.current_screen, CurrentScreen::PickSerialPort);
    assert_eq!(app.app_config.baud_rate, None);
    assert_eq!(app.app_config.end_of_line, LineEnding::Lf);
    assert_eq!(app.app_config.echo_mode, EchoMode::On);
    assert_eq!(app.main_screen_active_region, MainScreenActiveRegion::Input);
    assert_eq!(app.main_screen_viewport.vert_position, ScrollPosition::PinnedAtEnd);
    assert_eq!(app.main_screen_transfer_log.len(), 0);
}

#[test]
fn quit_keys() {
    let mut app = App::new();
    assert!(matches!(app.handle_keypress(ctrl('c')), KeyAction::Quit));
    assert!(matches!(app.handle_keypress(ctrl(']')), KeyAction::Quit));
    assert!(matches!(app.handle_keypress(key(KeyCode::Char('q'))), KeyAction::Quit));
    let released = KeyPress { kind: KeyEventKind::Release, ..ctrl('c') };
    assert!(matches!(app.handle_keypress(released), KeyAction::Continue));
    let mut main = bound_app();
    assert!(matches!(main.handle_keypress(key(KeyCode::Char('q'))), KeyAction::Continue));
    assert_eq!(main.main_input.text(), "q");
    assert!(matches!(main.handle_keypress(ctrl('c')), KeyAction::Quit));
}

#[test]
fn picking_a_port_then_a_baud_rate_asks_to_bind() {
    let mut app = App::new();
    app.refresh_port_list(Ok(vec![String::from("/dev/ttyS1"), String::from("/dev/ttyS0")]));
    assert_eq!(app.pick_serial_port_list_state.items(), &vec![String::from("/dev/ttyS0"), String::from("/dev/ttyS1")]);
    assert_eq!(app.pick_serial_port_list_state.selected(), Some(0));
    app.handle_keypress(key(KeyCode::Down));
    assert_eq!(app.pick_serial_port_list_state.selected(), Some(1));
    assert!(matches!(app.handle_keypress(key(KeyCode::Enter)), KeyAction::Continue));
    assert_eq!(app.selected_serial_port, Some(String::from("/dev/ttyS1")));
    assert_eq!(app.current_screen, CurrentScreen::PickBaudRate);
    type_text(&mut app, "09600");
    assert_eq!(app.pick_baud_rate_text(), "9600");
    match app.handle_keypress(key(KeyCode::Enter)) {
        KeyAction::BindPort { port, baud_rate } => {
            assert_eq!(port, "/dev/ttyS1");
            assert_eq!(baud_rate, 9600);
        }
        _ => panic!("expected a bind request"),
    }
    assert_eq!(app.app_config.baud_rate, Some(9600));
}

#[test]
fn failed_bind_returns_to_the_port_list_with_the_reason() {
    let mut app = App::new();
    app.refresh_port_list(Ok(vec![String::from("/dev/ttyS0")]));
    app.app_config.baud_rate = Some(9600);
    assert!(matches!(app.handle_keypress(key(KeyCode::Enter)), KeyAction::BindPort { .. }));
    app.finish_bind(Err(String::from("device busy")));
    assert_eq!(app.current_screen, CurrentScreen::PickSerialPort);
    assert_eq!(app.general_error_message, Some(String::from("Error binding serial port: device busy")));
    app.refresh_port_list(Ok(vec![String::from("/dev/ttyS0")]));
    assert_eq!(
        app.pick_serial_port_list_state.items(),
        &vec![String::from("/dev/ttyS0"), String::from("Error binding serial port: device busy")]
    );
}

#[test]
fn port_list_reports_no_ports_and_scan_errors() {
    let mut app = App::new();
    app.refresh_port_list(Ok(vec![]));
    assert_eq!(app.pick_serial_port_list_state.items(), &vec![String::from("No serial ports found!")]);
    app.refresh_port_list(Err(String::from("permission denied")));
    assert_eq!(
        app.pick_serial_port_list_state.items(),
        &vec![String::from("Error finding serial ports (permission denied)!")]
    );
}

#[test]
fn refreshing_the_same_ports_keeps_the_selection() {
    let mut app = App::new();
    app.refresh_port_list(Ok(vec![String::from("b"), String::from("a"), String::from("c")]));
    app.handle_keypress(key(KeyCode::Up));
    assert_eq!(app.pick_serial_port_list_state.selected(), Some(2));
    app.refresh_port_list(Ok(vec![String::from("c"), String::from("b"), String::from("a")]));
    assert_eq!(app.pick_serial_port_list_state.selected(), Some(2));
    app.refresh_port_list(Ok(vec![String::from("c"), String::from("a")]));
    assert_eq!(app.pick_serial_port_list_state.selected(), Some(0));
}

#[test]
fn enter_with_no_port_selected_stays() {
    let mut app = App::new();
    assert!(matches!(app.handle_keypress(key(KeyCode::Enter)), KeyAction::Continue));
    assert_eq!(app.current_screen, CurrentScreen::PickSerialPort);
    assert_eq!(app.selected_serial_port, None);
}

#[test]
fn baud_rate_field_takes_digits_only() {
    let mut app = App::new();
    app.current_screen = CurrentScreen::PickBaudRate;
    type_text(&mut app, "0x12");
    assert_eq!(app.pick_baud_rate_text(), "12");
    app.handle_keypress(key(KeyCode::Backspace));
    assert_eq!(app.pick_baud_rate_text(), "1");
    app.handle_keypress(key(KeyCode::Char('c')));
    assert_eq!(app.pick_baud_rate_text(), "");
    type_text(&mut app, "99999999999");
    assert!(matches!(app.handle_keypress(key(KeyCode::Enter)), KeyAction::Continue));
    assert_eq!(app.pick_baud_rate_text(), "");
    assert_eq!(app.app_config.baud_rate, None);
    type_text(&mut app, "42");
    app.handle_keypress(KeyPress::new(KeyCode::Backspace, KeyModifiers::control()));
    assert_eq!(app.pick_baud_rate_text(), "");
    app.handle_keypress(key(KeyCode::Char('b')));
    assert_eq!(app.current_screen, CurrentScreen::PickSerialPort);
}

#[test]
fn baud_rate_without_a_port_reports_it() {
    let mut app = App::new();
    app.current_screen = CurrentScreen::PickBaudRate;
    type_text(&mut app, "9600");
    assert!(matches!(app.handle_keypress(key(KeyCode::Enter)), KeyAction::Continue));
    assert_eq!(app.current_screen, CurrentScreen::PickSerialPort);
    assert_eq!(app.general_error_message, Some(String::from("Error: No serial port selected")));
}

#[test]
fn enter_on_main_screen_asks_to_send_draft_and_line_ending() {
    let mut app = bound_app();
    type_text(&mut app, "AT");
    app.app_config.end_of_line = LineEnding::CrLf;
    match app.handle_keypress(key(KeyCode::Enter)) {
        KeyAction::Send { bytes } => assert_eq!(bytes, b"AT\r\n".to_vec()),
        _ => panic!("expected a send request"),
    }
    assert_eq!(app.main_input.text(), "AT");
}

#[test]
fn successful_send_clears_draft_and_echoes() {
    let mut app = bound_app();
    type_text(&mut app, "AT");
    app.commit(Ok(()));
    assert_eq!(app.main_input.text(), "");
    assert_eq!(app.main_input.history_entry(0), "AT");
    assert_eq!(log_summary(&app), vec![(TransferLogType::EchoData, b"AT".to_vec(), true)]);
    app.app_config.echo_mode = EchoMode::Off;
    type_text(&mut app, "x");
    app.commit(Ok(()));
    assert_eq!(app.main_screen_transfer_log.len(), 1);
    assert_eq!(app.main_input.history_len(), 2);
}

#[test]
fn failed_send_keeps_the_draft() {
    let mut app = bound_app();
    type_text(&mut app, "hello");
    app.handle_keypress(key(KeyCode::Left));
    app.commit(Err(String::from("broken pipe")));
    assert_eq!(app.main_input.text(), "hello");
    assert_eq!(app.main_input.cursor(), Some(4));
    assert_eq!(app.main_input.history_len(), 0);
    assert_eq!(
        log_summary(&app),
        vec![(TransferLogType::ErrorData, b"Error writing to serial port: broken pipe".to_vec(), true)]
    );
    app.commit(Err(String::from("broken pipe")));
    assert_eq!(app.main_input.text(), "hello");
}

#[test]
fn serial_reads_go_to_the_log() {
    let mut app = bound_app();
    app.handle_serial_read(SerialRead::Data(b"temp=2".to_vec()));
    app.handle_serial_read(SerialRead::TimedOut);
    app.handle_serial_read(SerialRead::Data(Vec::new()));
    app.handle_serial_read(SerialRead::Data(b"1\nok\n".to_vec()));
    app.handle_serial_read(SerialRead::Data(vec![0xfe, 0xff]));
    app.handle_serial_read(SerialRead::Failed(String::from("device gone")));
    assert_eq!(
        log_summary(&app),
        vec![
            (TransferLogType::SerialData, b"temp=21".to_vec(), true),
            (TransferLogType::SerialData, b"ok".to_vec(), true),
            (TransferLogType::ErrorData, vec![0xfe, 0xff], true),
            (TransferLogType::ErrorData, b"Error reading from serial port: device gone".to_vec(), true),
        ]
    );
    let lines = app.main_screen_transfer_log.rendered_lines();
    assert_eq!(lines[2].text, "Error converting incoming data to UTF-8");
}

#[test]
fn log_helpers_append_entries() {
    let mut app = App::new();
    app.add_rxd_serial_data_to_transfer_log(b"abc".to_vec());
    app.add_echo_to_transfer_log(b"x".to_vec());
    app.add_error_to_transfer_log(String::from("bad"));
    assert_eq!(
        log_summary(&app),
        vec![
            (TransferLogType::SerialData, b"abc".to_vec(), true),
            (TransferLogType::EchoData, b"x".to_vec(), true),
            (TransferLogType::ErrorData, b"bad".to_vec(), true),
        ]
    );
}

#[test]
fn main_screen_keys_edit_and_recall() {
    let mut app = bound_app();
    type_text(&mut app, "one two");
    app.handle_keypress(KeyPress::new(KeyCode::Char('W'), KeyModifiers::shift()));
    assert_eq!(app.main_input.text(), "one twoW");
    app.handle_keypress(ctrl('h'));
    assert_eq!(app.main_input.text(), "one ");
    app.commit(Ok(()));
    type_text(&mut app, "new");
    app.handle_keypress(key(KeyCode::Up));
    assert_eq!(app.main_input.text(), "one ");
    app.handle_keypress(key(KeyCode::Down));
    assert_eq!(app.main_input.text(), "new");
    app.handle_keypress(key(KeyCode::Home));
    app.handle_keypress(key(KeyCode::Delete));
    assert_eq!(app.main_input.text(), "ew");
    app.handle_keypress(key(KeyCode::End));
    app.handle_keypress(key(KeyCode::Backspace));
    assert_eq!(app.main_input.text(), "e");
    assert_eq!(app.main_input_display_text('_'), "e_");
}

#[test]
fn tab_and_escape_move_the_focus() {
    let mut app = bound_app();
    app.handle_keypress(key(KeyCode::Tab));
    assert_eq!(app.main_screen_active_region, MainScreenActiveRegion::OutputScrollBars);
    assert_eq!(app.main_input_display_text('_'), "");
    app.handle_keypress(key(KeyCode::Tab));
    assert_eq!(app.main_screen_active_region, MainScreenActiveRegion::Input);
    app.handle_keypress(KeyPress::new(KeyCode::BackTab, KeyModifiers::shift()));
    assert_eq!(app.main_screen_active_region, MainScreenActiveRegion::OutputScrollBars);
    app.handle_keypress(key(KeyCode::Esc));
    assert_eq!(app.main_screen_active_region, MainScreenActiveRegion::Input);
    app.handle_keypress(key(KeyCode::Esc));
    assert_eq!(app.main_screen_active_region, MainScreenActiveRegion::Input);
}

#[test]
fn scroll_keys_move_the_viewport() {
    let mut app = bound_app();
    for i in 0..30 {
        app.add_rxd_serial_data_to_transfer_log(format!("line {}\n", i).into_bytes());
    }
    app.render_pass(10, 80);
    assert_eq!(app.main_screen_viewport.vert_offset, 21);
    app.handle_keypress(key(KeyCode::Tab));
    app.handle_keypress(key(KeyCode::Char('k')));
    assert_eq!(app.main_screen_viewport.vert_offset, 20);
    assert_eq!(app.main_screen_viewport.vert_position, ScrollPosition::FinitePosition);
    app.handle_keypress(key(KeyCode::PageUp));
    assert_eq!(app.main_screen_viewport.vert_offset, 10);
    app.handle_keypress(KeyPress::new(KeyCode::PageUp, KeyModifiers::control()));
    assert_eq!(app.main_screen_viewport.vert_offset, 0);
    app.handle_keypress(key(KeyCode::PageDown));
    app.handle_keypress(key(KeyCode::PageDown));
    app.handle_keypress(key(KeyCode::PageDown));
    app.render_pass(10, 80);
    assert_eq!(app.main_screen_viewport.vert_offset, 21);
    assert_eq!(app.main_screen_viewport.vert_position, ScrollPosition::FinitePosition);
    app.add_rxd_serial_data_to_transfer_log(b"more\n".to_vec());
    app.render_pass(10, 80);
    assert_eq!(app.main_screen_viewport.vert_offset, 21);
    app.handle_keypress(KeyPress::new(KeyCode::PageDown, KeyModifiers::control()));
    app.render_pass(10, 80);
    assert_eq!(app.main_screen_viewport.vert_offset, 22);
    app.handle_keypress(key(KeyCode::End));
    app.render_pass(10, 5);
    assert_eq!(app.main_screen_viewport.horiz_offset, 3);
    app.handle_keypress(key(KeyCode::Left));
    assert_eq!(app.main_screen_viewport.horiz_offset, 2);
    app.handle_keypress(key(KeyCode::Home));
    assert_eq!(app.main_screen_viewport.horiz_offset, 0);
}

#[test]
fn help_and_config_screens_return_to_main() {
    let mut app = bound_app();
    type_text(&mut app, "kept");
    app.handle_keypress(ctrl('?'));
    assert_eq!(app.current_screen, CurrentScreen::Help);
    assert!(matches!(app.handle_keypress(key(KeyCode::Char('q'))), KeyAction::Quit));
    app.handle_keypress(key(KeyCode::Char('x')));
    assert_eq!(app.current_screen, CurrentScreen::Main);
    app.handle_keypress(ctrl('t'));
    assert_eq!(app.current_screen, CurrentScreen::Config1);
    app.handle_keypress(key(KeyCode::Char('x')));
    assert_eq!(app.current_screen, CurrentScreen::Config1);
    app.handle_keypress(key(KeyCode::Esc));
    assert_eq!(app.current_screen, CurrentScreen::Main);
    assert_eq!(app.main_input.text(), "kept");
    app.handle_keypress(ctrl('b'));
    assert_eq!(app.current_screen, CurrentScreen::PickBaudRate);
}
