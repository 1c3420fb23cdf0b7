use cpu16_emu::digits::{
    decimal, digit_to_char, hex_len, prefixed_upper_hex, push_decimal, push_hex, push_hex_padded,
    push_signed_decimal,
};
use cpu16_emu::frontend::app::{key_scroll_offset, AppState, Key, Request, UiMode};
use cpu16_emu::frontend::log::{Log, Message, MessageType};
use cpu16_emu::frontend::widgets::keybuffer::display_keys;
use cpu16_emu::frontend::widgets::pmem::{row_at, PmemTableState};
use cpu16_emu::frontend::widgets::ram::{row_cells, RamTableState};
use cpu16_emu::frontend::widgets::registers::RegistersDisplayState;
use cpu16_emu::program::Program;
use cpu16_emu::runtime::CpuState;
use cpu16_emu::util::Timer;
use std::time::SystemTime;

#[test]
fn numbers_as_text() {
    assert_eq!(decimal(0), "0");
    assert_eq!(decimal(9), "9");
    assert_eq!(decimal(10), "10");
    assert_eq!(decimal(65535), "65535");
    assert_eq!(decimal(u64::MAX), "18446744073709551615");
    assert_eq!(prefixed_upper_hex(0), "0x0");
    assert_eq!(prefixed_upper_hex(0xabc), "0xABC");
    assert_eq!(prefixed_upper_hex(u32::MAX), "0xFFFFFFFF");
    for n in [0u32, 1, 15, 16, 255, 256, 0xfff, 0x1000, 0xfffff, 0x12345678, u32::MAX] {
        let mut lower = String::from(">");
        push_hex(&mut lower, n, false);
        assert_eq!(lower, format!(">{:x}", n));
        let mut upper = String::new();
        push_hex(&mut upper, n, true);
        assert_eq!(upper, format!("{:X}", n));
        assert_eq!(hex_len(n, true), upper.len());
        let mut padded = String::from("#");
        push_hex_padded(&mut padded, n, 5, false);
        assert_eq!(padded, format!("#{:05x}", n));
        let mut padded = String::new();
        push_hex_padded(&mut padded, n, 4, true);
        assert_eq!(padded, format!("{:04X}", n));
        let mut padded = String::new();
        push_hex_padded(&mut padded, n, 0, true);
        assert_eq!(padded, format!("{:X}", n));
        let mut text = String::from("n=");
        push_decimal(&mut text, n as u64);
        assert_eq!(text, format!("n={}", n));
    }
    for n in [0i64, 1, -1, 9, -10, 32767, -32768, i64::MAX, i64::MIN] {
        let mut text = String::new();
        push_signed_decimal(&mut text, n);
        assert_eq!(text, format!("{}", n));
    }
    let upper: String = (0..16).map(|d| digit_to_char(d, true)).collect();
    let lower: String = (0..16).map(|d| digit_to_char(d, false)).collect();
    assert_eq!(upper, "0123456789ABCDEF");
    assert_eq!(lower, "0123456789abcdef");
}

#[test]
fn ui_mode_cycles() {
    let mut mode = UiMode::InspectTerminal;
    mode.next();
    assert_eq!(mode, UiMode::InspectProgram);
    mode.next();
    assert_eq!(mode, UiMode::InspectRam);
    mode.next();
    assert_eq!(mode, UiMode::InspectTerminal);
    mode.previous();
    assert_eq!(mode, UiMode::InspectRam);
    mode.previous();
    assert_eq!(mode, UiMode::InspectProgram);
    mode.previous();
    assert_eq!(mode, UiMode::InspectTerminal);
}

#[test]
fn timer_tells_when_its_time_has_passed() {
    let mut timer = Timer::new(250, 1000);
    assert!(!timer.has_elapsed(1000));
    assert!(!timer.has_elapsed(1249));
    assert!(timer.has_elapsed(1250));
    assert!(timer.has_elapsed(5000));
    assert!(!timer.has_elapsed(10));
    assert_eq!(timer, Timer { target_duration: 250, starting_point: 1000 });
    timer.set_duration(10);
    assert_eq!(timer, Timer { target_duration: 10, starting_point: 1000 });
    assert!(timer.has_elapsed(1010));
    timer.reset(2000);
    assert_eq!(timer, Timer { target_duration: 10, starting_point: 2000 });
    assert!(!timer.has_elapsed(2009));
    assert!(timer.has_elapsed_reset(2010));
    assert_eq!(timer.starting_point, 2010);
    assert!(!timer.has_elapsed_reset(2015));
    assert_eq!(timer.starting_point, 2015);
    timer.set_duration(0);
    assert!(timer.has_elapsed(2015));
    assert!(timer.has_elapsed(0));
    let mut long = Timer::new(u128::MAX, u128::MAX);
    assert!(!long.has_elapsed(u128::MAX));
}

#[test]
fn log_keeps_messages_in_order() {
    let mut log = Log::default();
    assert!(log.messages.is_empty());
    let before = SystemTime::now();
    log.log(Message::new(MessageType::Info, String::from("one")));
    log.log(Message::new(MessageType::Error, String::from("two")));
    let stamp = SystemTime::UNIX_EPOCH;
    log.log(Message::at(stamp, MessageType::Warning, String::from("three")));
    assert_eq!(log.messages.len(), 3);
    assert_eq!(log.messages[0].message_type, MessageType::Info);
    assert_eq!(log.messages[0].message_string, "one");
    assert!(log.messages[0].timestamp >= before);
    assert_eq!(log.messages[1].message_type, MessageType::Error);
    assert_eq!(log.messages[1].message_string, "two");
    assert_eq!(log.messages[2].message_type, MessageType::Warning);
    assert_eq!(log.messages[2].timestamp, stamp);
    log.clear();
    assert!(log.messages.is_empty());
}

#[test]
fn ram_panel_scrolls_round_the_memory() {
    let mut state = RamTableState::default();
    assert_eq!(state, RamTableState { starting_row: 0, is_focussed: false });
    state.scroll(1);
    assert_eq!(state.starting_row, 1);
    state.scroll(-1);
    assert_eq!(state.starting_row, 0);
    state.scroll(-1);
    assert_eq!(state.starting_row, 8191);
    state.scroll(16);
    assert_eq!(state.starting_row, 15);
    state.scroll(-16);
    assert_eq!(state.starting_row, 8191);
    state.scroll(8192 * 3 + 2);
    assert_eq!(state.starting_row, 1);
    state.scroll(i32::MIN);
    assert_eq!(state.starting_row, 1);
    state.scroll(i32::MAX);
    assert_eq!(state.starting_row, 0);
    state.is_focussed = true;
    state.starting_row = u32::MAX;
    state.scroll(1);
    assert_eq!(state.starting_row, 0);
    assert!(state.is_focussed);
}

#[test]
fn ram_panel_goes_to_an_address() {
    let mut state = RamTableState::default();
    state.goto_address(0x100);
    assert_eq!(state.starting_row, 0x40);
    state.goto_address(7);
    assert_eq!(state.starting_row, 1);
    state.goto_address(32767);
    assert_eq!(state.starting_row, 8191);
    state.goto_address(32768);
    assert_eq!(state.starting_row, 8192);
    state.goto_address(u32::MAX);
    assert_eq!(state.starting_row, 8192);
    assert_eq!(state.visible_rows(4), vec![0, 1]);
}

#[test]
fn ram_panel_rows() {
    let mut state = RamTableState::default();
    assert_eq!(state.visible_rows(0), Vec::<u32>::new());
    assert_eq!(state.visible_rows(2), Vec::<u32>::new());
    assert_eq!(state.visible_rows(5), vec![0, 1, 2]);
    state.starting_row = 8190;
    assert_eq!(state.visible_rows(6), vec![8190, 8191, 0, 1]);

    let mut cpu = CpuState::with_rng_state(0);
    cpu.ram[4] = 0xBEEF;
    cpu.ram[5] = 1;
    cpu.ram[7] = 0x0abc;
    cpu.ram[32767] = 0xFFFF;
    assert_eq!(row_cells(&cpu.ram, 0), vec!["0000", "0000", "0000", "0000", "0000"]);
    assert_eq!(row_cells(&cpu.ram, 1), vec!["0004", "BEEF", "0001", "0000", "0ABC"]);
    assert_eq!(row_cells(&cpu.ram, 8191), vec!["7FFC", "0000", "0000", "0000", "FFFF"]);
}

#[test]
fn pmem_panel_scrolls_view_and_selection() {
    let mut state = PmemTableState::default();
    assert_eq!(
        state,
        PmemTableState {
            selected: 10,
            viewport_begin: 0,
            viewport_end: 24,
            max_visible_lines: 24,
            focus_executing: true,
            is_focussed: false
        }
    );
    state.scroll(1);
    assert_eq!((state.selected, state.viewport_begin, state.viewport_end), (11, 1, 25));
    state.scroll(-16);
    assert_eq!((state.selected, state.viewport_begin, state.viewport_end), (0, 0, 24));
    state.scroll(16);
    assert_eq!((state.selected, state.viewport_begin, state.viewport_end), (16, 16, 40));
    state.scroll(i32::MAX);
    assert_eq!(state.selected, i32::MAX as u32);
    assert_eq!(state.viewport_begin, i32::MAX as u32);
    assert_eq!(state.viewport_end, i32::MAX as u32 + 24);
    state.scroll(i32::MIN);
    assert_eq!((state.selected, state.viewport_begin, state.viewport_end), (0, 0, 24));
    state.selected = u32::MAX;
    state.scroll(5);
    assert_eq!(state.selected, 4);
    assert!(state.focus_executing);
}

#[test]
fn pmem_panel_follows_the_program_counter() {
    let mut state = PmemTableState::default();
    // within ten rows of the top: the view moves up, and stays at zero
    state.follow(3, 100);
    assert_eq!((state.selected, state.viewport_begin, state.viewport_end), (3, 0, 24));
    // in the middle: the view stays
    state.viewport_begin = 20;
    state.viewport_end = 44;
    state.follow(32, 100);
    assert_eq!((state.selected, state.viewport_begin, state.viewport_end), (32, 20, 44));
    // within ten rows of the bottom: the view moves down
    state.follow(34, 100);
    assert_eq!((state.selected, state.viewport_begin, state.viewport_end), (34, 21, 45));
    // near the top: up
    state.follow(31, 100);
    assert_eq!((state.selected, state.viewport_begin, state.viewport_end), (31, 20, 44));
    // out of view: four rows above
    state.follow(80, 100);
    assert_eq!((state.selected, state.viewport_begin, state.viewport_end), (80, 76, 100));
    state.follow(2, 100);
    assert_eq!((state.selected, state.viewport_begin, state.viewport_end), (2, 0, 24));
}

#[test]
fn pmem_panel_follows_the_selection_when_told_so() {
    let mut state = PmemTableState::default();
    state.focus_executing = false;
    state.selected = 500;
    state.follow(7, 100);
    assert_eq!((state.selected, state.viewport_begin, state.viewport_end), (99, 95, 119));
    assert_eq!(state.visible_range(100), (95, 100));
    state.selected = 5;
    state.follow(7, 0);
    assert_eq!(state.selected, 5);
    assert_eq!((state.viewport_begin, state.viewport_end), (1, 25));
    assert_eq!(state.visible_range(0), (0, 0));
    assert_eq!(state.visible_range(3), (1, 3));
    state.viewport_begin = 2;
    state.viewport_end = 26;
    assert_eq!(state.visible_range(100), (2, 26));
}

#[test]
fn pmem_panel_rows() {
    let mut program = Program::from([0x800a1u32, 0x0007f].as_slice());
    program.toggle_breakpoint(1);
    let row = row_at(&program, 0).unwrap();
    assert_eq!(row.address, "0000");
    assert_eq!(row.word, "800a1");
    assert_eq!(row.assembly, "ldc %reg2 0x8001");
    assert!(!row.breakpoint);
    let row = row_at(&program, 1).unwrap();
    assert_eq!(row.address, "0001");
    assert_eq!(row.word, "0007f");
    assert_eq!(row.assembly, "hlt");
    assert!(row.breakpoint);
    assert!(row_at(&program, 2).is_none());
}

#[test]
fn registers_panel_numbers() {
    let mut state = RegistersDisplayState::default();
    assert!(state.use_hex);
    assert_eq!(state.get_number_repr(0), "0x0");
    assert_eq!(state.get_number_repr(0xBEEF), "0xBEEF");
    state.use_hex = false;
    assert_eq!(state.get_number_repr(0), "0");
    assert_eq!(state.get_number_repr(0xBEEF), "48879");
}

#[test]
fn keybuffer_shows_line_feeds_and_tabs() {
    assert_eq!(display_keys(""), "");
    assert_eq!(display_keys("abc"), "abc");
    assert_eq!(display_keys("a\nb\tc\n"), "a\\nb\\tc\\n");
    assert_eq!(display_keys("\\n\u{e9}\r"), "\\n\u{e9}\r");
}

#[test]
fn scroll_keys() {
    assert_eq!(key_scroll_offset(&Key::Up), Some(-1));
    assert_eq!(key_scroll_offset(&Key::Char('k')), Some(-1));
    assert_eq!(key_scroll_offset(&Key::Down), Some(1));
    assert_eq!(key_scroll_offset(&Key::Char('j')), Some(1));
    assert_eq!(key_scroll_offset(&Key::PageUp), Some(-16));
    assert_eq!(key_scroll_offset(&Key::Char('K')), Some(-16));
    assert_eq!(key_scroll_offset(&Key::PageDown), Some(16));
    assert_eq!(key_scroll_offset(&Key::Char('J')), Some(16));
    assert_eq!(key_scroll_offset(&Key::Char('x')), None);
    assert_eq!(key_scroll_offset(&Key::Enter), None);
}

fn texts(app: &AppState) -> Vec<(MessageType, String)> {
    app.message_log
        .messages
        .iter()
        .map(|message| (message.message_type, message.message_string.clone()))
        .collect()
}

#[test]
fn app_starts_with_a_hint() {
    let app = AppState::new(5);
    assert_eq!(texts(&app), vec![(MessageType::Info, String::from("Press F1 for help!"))]);
    assert_eq!(app.execution_timer, Timer { target_duration: 250_000_000, starting_point: 5 });
    assert_eq!(app.ui_mode, UiMode::InspectTerminal);
    assert!(app.program.is_empty());
    assert!(!app.should_quit && !app.cpu_running && !app.cpu_step_requested);
    assert!(app.keybuffer_widget_state.focused);
    assert_eq!(app.cpu, CpuState::with_rng_state(app.cpu.rng_state));
}

#[test]
fn general_keys() {
    let mut app = AppState::new(0);
    assert_eq!(app.handle_input(Key::Tab), Request::Nothing);
    assert_eq!(app.ui_mode, UiMode::InspectProgram);
    assert_eq!(app.handle_input(Key::BackTab), Request::Nothing);
    assert_eq!(app.ui_mode, UiMode::InspectTerminal);
    assert_eq!(app.handle_input(Key::Esc), Request::ConfirmQuit);
    assert_eq!(app.handle_input(Key::F(1)), Request::ShowHelp);
    assert_eq!(app.handle_input(Key::F(2)), Request::AskProgramPath);
    assert_eq!(app.handle_input(Key::F(4)), Request::AskDelay);
    assert_eq!(app.handle_input(Key::F(5)), Request::Nothing);
    assert!(app.cpu_running);
    assert_eq!(app.handle_input(Key::F(6)), Request::Nothing);
    assert!(app.cpu_step_requested);
    app.cpu.registers[0] = 5;
    assert_eq!(app.handle_input(Key::F(3)), Request::Nothing);
    assert!(!app.cpu_running && !app.cpu_step_requested);
    assert_eq!(app.cpu.registers[0], 0);
    assert_eq!(texts(&app).last().unwrap(), &(MessageType::Info, String::from("Reset CPU")));
    assert_eq!(app.cpu.istream.string, "");
    assert!(app.handle_input_general(&Key::F(6)));
    assert!(!app.handle_input_general(&Key::F(7)));
    assert!(!app.handle_input_general(&Key::F(0)));
    assert!(!app.handle_input_general(&Key::Char('x')));
}

#[test]
fn terminal_keys_go_to_the_input_stream() {
    let mut app = AppState::new(0);
    for key in [Key::Char('h'), Key::Char('i'), Key::Enter, Key::Char('x'), Key::Backspace] {
        assert_eq!(app.handle_input(key), Request::Nothing);
    }
    assert_eq!(app.cpu.istream.string, "hi\n");
    app.handle_input(Key::Up);
    app.handle_input(Key::Char('g'));
    assert_eq!(app.cpu.istream.string, "hi\ng");
    for _ in 0..6 {
        app.handle_input(Key::Backspace);
    }
    assert_eq!(app.cpu.istream.string, "");
}

#[test]
fn ram_keys_scroll_the_memory_panel() {
    let mut app = AppState::new(0);
    app.ui_mode = UiMode::InspectRam;
    app.handle_input(Key::Down);
    app.handle_input(Key::Char('J'));
    assert_eq!(app.ram_widget_state.starting_row, 17);
    app.handle_input(Key::Char('k'));
    app.handle_input(Key::PageUp);
    assert_eq!(app.ram_widget_state.starting_row, 0);
    assert_eq!(app.handle_input(Key::Char('g')), Request::AskRamAddress);
    app.answer_ram_address(None);
    assert_eq!(app.ram_widget_state.starting_row, 0);
    app.answer_ram_address(Some(0x200));
    assert_eq!(app.ram_widget_state.starting_row, 0x80);
    assert_eq!(app.cpu.istream.string, "");
}

#[test]
fn program_keys() {
    let mut app = AppState::new(0);
    let tokens: [[u8; 3]; 3] = [[0, 0, 0x6c], [0, 0, 0x6c], [0, 0, 0x7f]];
    assert!(app.finish_load("p.hex", Some(&tokens), 0));
    app.ui_mode = UiMode::InspectProgram;
    assert_eq!(app.handle_input(Key::Char('g')), Request::Nothing);
    app.handle_input(Key::Char('f'));
    assert!(!app.pmem_widget_state.focus_executing);
    app.handle_input(Key::Char('b'));
    assert!(!app.program.is_breakpoint(10));
    app.handle_input(Key::Char('K'));
    assert_eq!(app.pmem_widget_state.selected, 0);
    app.handle_input(Key::Char('j'));
    assert_eq!(app.pmem_widget_state.selected, 1);
    assert_eq!(app.pmem_widget_state.viewport_begin, 1);
    app.handle_input(Key::Char('b'));
    assert!(app.program.is_breakpoint(1));
    assert!(!app.program.is_breakpoint(0));
    app.handle_input(Key::Char('b'));
    assert!(!app.program.is_breakpoint(1));
}

#[test]
fn answers() {
    let mut app = AppState::new(0);
    app.answer_quit(None);
    assert!(!app.should_quit);
    app.answer_quit(Some(false));
    assert!(!app.should_quit);
    app.answer_quit(Some(true));
    assert!(app.should_quit);
    app.answer_delay(None);
    assert_eq!(app.execution_timer.target_duration, 250_000_000);
    app.answer_delay(Some(20));
    assert_eq!(app.execution_timer, Timer { target_duration: 20_000_000, starting_point: 0 });
    app.answer_delay(Some(u32::MAX));
    assert_eq!(app.execution_timer.target_duration, u32::MAX as u128 * 1_000_000);
    assert_eq!(Request::ConfirmQuit.prompt_text(), "Really quit? (true/false)");
    assert_eq!(Request::AskProgramPath.prompt_text(), "Enter file path:");
    assert_eq!(Request::AskDelay.prompt_text(), "Set execution delay (ms)");
    assert_eq!(Request::AskRamAddress.prompt_text(), "Go to RAM address: ");
    assert_eq!(Request::Nothing.prompt_text(), "");
}

#[test]
fn loading_logs_what_happened() {
    let mut app = AppState::new(0);
    assert!(!app.finish_load("nowhere.hex", None, 0));
    assert_eq!(
        texts(&app).last().unwrap(),
        &(MessageType::Error, String::from("Failed to load 'nowhere.hex'"))
    );
    assert!(app.program.is_empty());

    app.cpu.registers[1] = 4;
    app.cpu_running = true;
    let tokens: [[u8; 3]; 4] = [[0, 0, 0x11], [0, 0, 0x6c], [0x0a, 0xbc, 0x7d], [0, 0, 0x7f]];
    assert!(app.finish_load("some.hex", Some(&tokens), 3));
    assert_eq!(app.program.len(), 4);
    assert_eq!(app.cpu.registers[1], 0);
    assert!(!app.cpu_running);
    let log = texts(&app);
    assert_eq!(
        &log[2..],
        &[
            (MessageType::Warning, String::from("Skipped malformed tokens: 3")),
            (MessageType::Warning, String::from("Unknown opcode in 0x11")),
            (MessageType::Warning, String::from("Unknown opcode in 0xabc7d")),
            (MessageType::Info, String::from("Loaded 'some.hex'")),
        ]
    );
}

#[test]
fn loading_without_skipped_tokens_logs_no_warning() {
    let mut app = AppState::new(0);
    let tokens: [[u8; 3]; 1] = [[0, 0, 0x7f]];
    assert!(app.finish_load("a b.hex", Some(&tokens), 0));
    assert_eq!(
        &texts(&app)[1..],
        &[(MessageType::Info, String::from("Loaded 'a b.hex'"))]
    );
}

#[test]
fn update_steps_a_running_cpu_when_the_delay_has_passed() {
    let mut app = AppState::new(0);
    // ldc %reg0 5; nop; hlt
    let tokens: [[u8; 3]; 3] = [[0, 0, 0x85], [0, 0, 0x6c], [0, 0, 0x7f]];
    app.finish_load("p", Some(&tokens), 0);
    let logged = texts(&app).len();

    app.update_cpu(1_000_000_000);
    assert_eq!(app.cpu.pcounter, 0);

    app.cpu_running = true;
    app.update_cpu(100);
    assert_eq!(app.cpu.pcounter, 0);
    app.update_cpu(250_000_000);
    assert_eq!(app.cpu.pcounter, 1);
    assert_eq!(app.cpu.registers[0], 5);
    assert_eq!(app.execution_timer.starting_point, 250_000_000);
    app.update_cpu(250_000_001);
    assert_eq!(app.cpu.pcounter, 1);

    // a single step on top of a due step
    app.cpu_step_requested = true;
    app.update_cpu(600_000_000);
    assert_eq!(app.cpu.pcounter, 3);
    assert!(app.cpu.received_halt);
    assert!(!app.cpu_step_requested);
    let log = texts(&app);
    assert_eq!(log.len(), logged + 1);
    assert_eq!(log[logged], (MessageType::Info, String::from("CPU received halt.")));

    // halted: nothing more happens
    app.cpu_step_requested = true;
    app.update_cpu(900_000_000);
    assert_eq!(app.cpu.pcounter, 3);
    assert!(app.cpu_step_requested);
    assert_eq!(texts(&app).len(), logged + 1);
}

#[test]
fn update_logs_a_halt_after_each_step_that_finds_it() {
    let mut app = AppState::new(0);
    let tokens: [[u8; 3]; 1] = [[0, 0, 0x7f]];
    app.finish_load("p", Some(&tokens), 0);
    let logged = texts(&app).len();
    app.cpu_running = true;
    app.cpu_step_requested = true;
    app.answer_delay(Some(0));
    app.update_cpu(7);
    assert!(app.cpu.received_halt);
    assert_eq!(app.cpu.pcounter, 1);
    assert!(!app.cpu_step_requested);
    let log = texts(&app);
    assert_eq!(log.len(), logged + 2);
    assert_eq!(log[logged], (MessageType::Info, String::from("CPU received halt.")));
    assert_eq!(log[logged + 1], (MessageType::Info, String::from("CPU received halt.")));
}

#[test]
fn update_stops_a_running_cpu_at_a_breakpoint() {
    let mut app = AppState::new(0);
    let tokens: [[u8; 3]; 4] = [[0, 0, 0x6c], [0, 0, 0x6c], [0, 0, 0x6c], [0, 0, 0x7f]];
    app.finish_load("p", Some(&tokens), 0);
    app.program.toggle_breakpoint(2);
    app.cpu_running = true;
    app.answer_delay(Some(0));
    app.update_cpu(1);
    assert_eq!(app.cpu.pcounter, 1);
    assert!(app.cpu_running);
    app.update_cpu(2);
    assert_eq!(app.cpu.pcounter, 2);
    assert!(!app.cpu_running);
    assert_eq!(
        texts(&app).last().unwrap(),
        &(MessageType::Info, String::from("Reached breakpoint at 0x2"))
    );
    // a single step does not stop at a breakpoint, it has stopped already
    app.cpu_step_requested = true;
    app.cpu.pcounter = 1;
    let logged = texts(&app).len();
    app.update_cpu(3);
    assert_eq!(app.cpu.pcounter, 2);
    assert_eq!(texts(&app).len(), logged);
}

#[test]
fn update_stops_when_the_program_counter_leaves_the_program() {
    let mut app = AppState::new(0);
    let tokens: [[u8; 3]; 1] = [[0, 0, 0x6c]];
    app.finish_load("p", Some(&tokens), 0);
    app.cpu_running = true;
    app.answer_delay(Some(0));
    app.update_cpu(1);
    assert_eq!(app.cpu.pcounter, 1);
    app.update_cpu(2);
    assert_eq!(app.cpu.pcounter, 1);
    assert!(!app.cpu_running);
    assert_eq!(
        texts(&app).last().unwrap(),
        &(MessageType::Error, String::from("Program counter beyond loaded program: 0x1"))
    );
}

#[test]
fn focus_follows_the_mode() {
    let mut app = AppState::new(0);
    app.ui_mode = UiMode::InspectRam;
    app.apply_focus();
    assert!(!app.keybuffer_widget_state.focused);
    assert!(app.ram_widget_state.is_focussed);
    assert!(!app.pmem_widget_state.is_focussed);
    app.ui_mode = UiMode::InspectProgram;
    app.apply_focus();
    assert!(!app.keybuffer_widget_state.focused);
    assert!(!app.ram_widget_state.is_focussed);
    assert!(app.pmem_widget_state.is_focussed);
    app.ui_mode = UiMode::InspectTerminal;
    app.apply_focus();
    assert!(app.keybuffer_widget_state.focused);
    assert!(!app.ram_widget_state.is_focussed);
    assert!(!app.pmem_widget_state.is_focussed);
}

#[test]
fn reset_keeps_the_log_and_clears_the_rest() {
    let mut app = AppState::new(0);
    let tokens: [[u8; 3]; 1] = [[0, 0, 0x6c]];
    app.finish_load("p", Some(&tokens), 0);
    app.ui_mode = UiMode::InspectRam;
    app.ram_widget_state.starting_row = 9;
    app.pmem_widget_state.focus_executing = false;
    app.registers_widget_state.use_hex = false;
    app.cpu.registers[2] = 1;
    app.cpu_running = true;
    let logged = texts(&app).len();
    app.reset();
    assert!(app.program.is_empty());
    assert_eq!(app.ui_mode, UiMode::InspectTerminal);
    assert_eq!(app.ram_widget_state, RamTableState::default());
    assert_eq!(app.pmem_widget_state, PmemTableState::default());
    assert!(app.registers_widget_state.use_hex);
    assert_eq!(app.cpu.registers, [0; 8]);
    assert!(app.cpu_running);
    assert_eq!(texts(&app).len(), logged);

    app.cpu.registers[2] = 1;
    app.cpu_step_requested = true;
    app.reset_cpu();
    assert_eq!(app.cpu.registers, [0; 8]);
    assert!(!app.cpu_running && !app.cpu_step_requested);
}
