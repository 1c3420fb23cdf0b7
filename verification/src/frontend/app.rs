//! Which panel has the keyboard, and what the keys do.

use crate::digits::{decimal_digits, prefixed_hex_digits, push_decimal, push_hex};
use crate::frontend::log::{Log, LogEntry, Message, MessageType};
use crate::frontend::widgets::keybuffer::KeybufferWidgetState;
use crate::frontend::widgets::pmem::PmemTableState;
use crate::frontend::widgets::ram::{row_moved_by, RamTableState, CELLS_PER_ROW, RAM_MAX_LINES};
use crate::frontend::widgets::registers::RegistersDisplayState;
use crate::program::{loaded_from_tokens, Program, Slot};
use crate::runtime::{CpuModel, CpuState, RAM_SIZE};
use crate::util::Timer;
use vstd::prelude::*;

verus! {

/// The panel that has the keyboard.
#[derive(Debug, PartialEq, Eq, Clone, Copy)]
pub enum UiMode {
    InspectTerminal,
    InspectRam,
    InspectProgram,
}

impl UiMode {
    /// The panel that the keyboard moves to next: from the terminal to the
    /// program, from the program to the memory, from the memory to the
    /// terminal.
    pub open spec fn successor(self) -> UiMode {
        match self {
            UiMode::InspectRam => UiMode::InspectTerminal,
            UiMode::InspectTerminal => UiMode::InspectProgram,
            UiMode::InspectProgram => UiMode::InspectRam,
        }
    }

    /// The panel that the keyboard moves back to.
    pub open spec fn predecessor(self) -> UiMode {
        match self {
            UiMode::InspectTerminal => UiMode::InspectRam,
            UiMode::InspectRam => UiMode::InspectProgram,
            UiMode::InspectProgram => UiMode::InspectTerminal,
        }
    }

    /// Moves the keyboard to the next panel.
    pub fn next(&mut self)
        ensures
            *final(self) == old(self).successor(),
    {
        match *self {
            UiMode::InspectRam => *self = UiMode::InspectTerminal,
            UiMode::InspectTerminal => *self = UiMode::InspectProgram,
            UiMode::InspectProgram => *self = UiMode::InspectRam,
        }
    }

    /// Moves the keyboard to the panel before.
    pub fn previous(&mut self)
        ensures
            *final(self) == old(self).predecessor(),
    {
        match *self {
            UiMode::InspectTerminal => *self = UiMode::InspectRam,
            UiMode::InspectRam => *self = UiMode::InspectProgram,
            UiMode::InspectProgram => *self = UiMode::InspectTerminal,
        }
    }

    /// Going on and going back undo each other, and going on three times
    /// comes back to where it began.
    pub proof fn lemma_cycle(self)
        ensures
            self.successor().predecessor() == self,
            self.predecessor().successor() == self,
            self.successor().successor().successor() == self,
            self.successor() != self,
    {
    }
}


/// Nanoseconds in a millisecond.
pub const NANOS_PER_MILLI: u128 = 1_000_000;

/// The time between two steps of a running CPU at the start: 250 ms.
pub const DEFAULT_STEP_DELAY: u128 = 250_000_000;

/// A key that the user pressed.
#[derive(Debug, PartialEq, Eq, Clone, Copy)]
pub enum Key {
    Esc,
    Tab,
    BackTab,
    F(u8),
    Char(char),
    Enter,
    Backspace,
    Up,
    Down,
    PageUp,
    PageDown,
    Other,
}

/// What a key asks of the program around the library, beyond the change
/// of state that the library makes itself.
#[derive(Debug, PartialEq, Eq, Clone, Copy)]
pub enum Request {
    /// Nothing.
    Nothing,
    /// Ask whether to quit, and hand the answer to `answer_quit`.
    ConfirmQuit,
    /// Show the help screen.
    ShowHelp,
    /// Ask for the path of a program, read it, and hand it to `finish_load`.
    AskProgramPath,
    /// Ask for the delay between steps, and hand it to `answer_delay`.
    AskDelay,
    /// Ask for a memory address, and hand it to `answer_ram_address`.
    AskRamAddress,
}

/// Everything that the user interface keeps between two frames.
pub struct AppState {
    pub cpu: CpuState,
    pub program: Program,
    pub execution_timer: Timer,
    pub ui_mode: UiMode,
    pub ram_widget_state: RamTableState,
    pub pmem_widget_state: PmemTableState,
    pub registers_widget_state: RegistersDisplayState,
    pub keybuffer_widget_state: KeybufferWidgetState,
    pub message_log: Log,
    pub should_quit: bool,
    pub cpu_running: bool,
    pub cpu_step_requested: bool,
}

/// The state of the user interface as a mathematical value.
#[verifier::ext_equal]
pub struct AppModel {
    pub cpu: CpuModel,
    pub program: Seq<Slot>,
    pub execution_timer: Timer,
    pub ui_mode: UiMode,
    pub ram_widget_state: RamTableState,
    pub pmem_widget_state: PmemTableState,
    pub registers_widget_state: RegistersDisplayState,
    pub keybuffer_widget_state: KeybufferWidgetState,
    pub message_log: Seq<LogEntry>,
    pub should_quit: bool,
    pub cpu_running: bool,
    pub cpu_step_requested: bool,
}

impl View for AppState {
    type V = AppModel;

    open spec fn view(&self) -> AppModel {
        AppModel {
            cpu: self.cpu@,
            program: self.program@,
            execution_timer: self.execution_timer,
            ui_mode: self.ui_mode,
            ram_widget_state: self.ram_widget_state,
            pmem_widget_state: self.pmem_widget_state,
            registers_widget_state: self.registers_widget_state,
            keybuffer_widget_state: self.keybuffer_widget_state,
            message_log: self.message_log@,
            should_quit: self.should_quit,
            cpu_running: self.cpu_running,
            cpu_step_requested: self.cpu_step_requested,
        }
    }
}

/// The message that tells that a breakpoint was reached at `pcounter`.
pub open spec fn breakpoint_text(pcounter: u16) -> Seq<char> {
    "Reached breakpoint at "@ + prefixed_hex_digits(pcounter as nat, true)
}

/// The message that tells that the program counter left the program.
pub open spec fn beyond_program_text(pcounter: u16) -> Seq<char> {
    "Program counter beyond loaded program: "@ + prefixed_hex_digits(pcounter as nat, true)
}

/// The message that tells that the file at `path` could not be loaded.
pub open spec fn load_failed_text(path: Seq<char>) -> Seq<char> {
    "Failed to load '"@ + path + "'"@
}

/// The message that tells that the file at `path` was loaded.
pub open spec fn loaded_text(path: Seq<char>) -> Seq<char> {
    "Loaded '"@ + path + "'"@
}

/// The warning that tells that `count` tokens of a program text were
/// skipped because they are no instruction words.
pub open spec fn skipped_tokens_text(count: nat) -> Seq<char> {
    "Skipped malformed tokens: "@ + decimal_digits(count)
}

/// The warning about an instruction word whose opcode the instruction set
/// does not have.
pub open spec fn unknown_opcode_text(word: u32) -> Seq<char> {
    "Unknown opcode in "@ + prefixed_hex_digits(word as nat, false)
}

/// The warnings that loading `program` logs: one for each instruction word
/// whose opcode the instruction set does not have, in the order of the
/// addresses.
pub open spec fn unknown_opcode_warnings(program: Seq<Slot>) -> Seq<LogEntry>
    decreases program.len(),
{
    if program.len() == 0 {
        Seq::empty()
    } else {
        let before = unknown_opcode_warnings(program.drop_last());
        if program.last().word.opcode_known() {
            before
        } else {
            before.push(
                LogEntry {
                    kind: MessageType::Warning,
                    text: unknown_opcode_text(program.last().word.buffer),
                },
            )
        }
    }
}

/// By how many rows a key scrolls a table: the arrow keys and `k`, `j` by
/// one row, the page keys and `K`, `J` by sixteen.
pub open spec fn scroll_offset(key: Key) -> Option<i32> {
    match key {
        Key::Up => Some(-1i32),
        Key::Down => Some(1i32),
        Key::PageUp => Some(-16i32),
        Key::PageDown => Some(16i32),
        Key::Char(c) => if c == 'k' {
            Some(-1i32)
        } else if c == 'j' {
            Some(1i32)
        } else if c == 'K' {
            Some(-16i32)
        } else if c == 'J' {
            Some(16i32)
        } else {
            None
        },
        _ => None,
    }
}

/// Whether a key works the same whichever panel has the keyboard: escape,
/// the tab keys, and the function keys from F1 to F6.
pub open spec fn is_general_key(key: Key) -> bool {
    match key {
        Key::Esc | Key::Tab | Key::BackTab => true,
        Key::F(n) => 1 <= n <= 6,
        _ => false,
    }
}

impl AppModel {
    /// This state with one more message in the log.
    pub open spec fn logged(self, kind: MessageType, text: Seq<char>) -> AppModel {
        AppModel { message_log: self.message_log.push(LogEntry { kind, text }), ..self }
    }

    /// This state with the CPU reset and stopped. `fresh_rng` is the state
    /// that its random number generator gets.
    pub open spec fn with_cpu_reset(self, fresh_rng: u16) -> AppModel {
        AppModel {
            cpu: CpuModel::initial(fresh_rng),
            cpu_running: false,
            cpu_step_requested: false,
            ..self
        }
    }

    /// This state after the CPU made one step of the program. A halt is
    /// logged. Where the program counter has left the program, the CPU is
    /// stopped and that is logged as an error.
    pub open spec fn stepped(self, fresh_rng: u16) -> AppModel {
        if self.cpu.stuck(self.program) {
            AppModel { cpu_running: false, ..self }.logged(
                MessageType::Error,
                beyond_program_text(self.cpu.pcounter),
            )
        } else {
            let cpu = self.cpu.program_step(self.program, fresh_rng);
            let after = AppModel { cpu, ..self };
            if cpu.received_halt {
                after.logged(MessageType::Info, "CPU received halt."@)
            } else {
                after
            }
        }
    }

    /// The address whose breakpoint counts for the program counter: the
    /// program counter itself, or the last address where it lies beyond.
    pub open spec fn breakpoint_address(self) -> int {
        if self.cpu.pcounter < self.program.len() {
            self.cpu.pcounter as int
        } else {
            self.program.len() - 1
        }
    }

    /// This state after the CPU has been given its turn at the time `now`.
    /// Nothing happens without a program or once the CPU has halted. A
    /// running CPU makes a step if the delay has passed, and the delay
    /// begins anew. A step that was asked for is made. A running CPU that
    /// has come to a breakpoint is stopped, and that is logged.
    pub open spec fn after_update(self, now: u128, first_rng: u16, second_rng: u16) -> AppModel {
        if self.program.len() == 0 || self.cpu.received_halt {
            self
        } else {
            let ran = if self.cpu_running && self.execution_timer.due(now) {
                let stepped = self.stepped(first_rng);
                AppModel {
                    execution_timer: Timer {
                        target_duration: self.execution_timer.target_duration,
                        starting_point: now,
                    },
                    ..stepped
                }
            } else {
                self
            };
            let single = if ran.cpu_step_requested {
                AppModel { cpu_step_requested: false, ..ran.stepped(second_rng) }
            } else {
                ran
            };
            if single.cpu_running && single.program[single.breakpoint_address()].breakpoint {
                AppModel { cpu_running: false, ..single }.logged(
                    MessageType::Info,
                    breakpoint_text(single.cpu.pcounter),
                )
            } else {
                single
            }
        }
    }

    /// This state with the focus of the panels set after the panel that
    /// has the keyboard.
    pub open spec fn with_focus(self) -> AppModel {
        AppModel {
            keybuffer_widget_state: KeybufferWidgetState {
                focused: self.ui_mode == UiMode::InspectTerminal,
            },
            ram_widget_state: RamTableState {
                is_focussed: self.ui_mode == UiMode::InspectRam,
                ..self.ram_widget_state
            },
            pmem_widget_state: PmemTableState {
                is_focussed: self.ui_mode == UiMode::InspectProgram,
                ..self.pmem_widget_state
            },
            ..self
        }
    }

    /// This state after a key that works the same in every panel. The tab
    /// keys move the keyboard to another panel, F3 resets the CPU, F5
    /// starts or stops it, F6 asks for a single step. The other keys only
    /// ask something of the program around the library.
    pub open spec fn after_general_key(self, key: Key, fresh_rng: u16) -> AppModel {
        match key {
            Key::Tab => AppModel { ui_mode: self.ui_mode.successor(), ..self },
            Key::BackTab => AppModel { ui_mode: self.ui_mode.predecessor(), ..self },
            Key::F(n) => if n == 3 {
                self.with_cpu_reset(fresh_rng).logged(MessageType::Info, "Reset CPU"@)
            } else if n == 5 {
                AppModel { cpu_running: !self.cpu_running, ..self }
            } else if n == 6 {
                AppModel { cpu_step_requested: true, ..self }
            } else {
                self
            },
            _ => self,
        }
    }

    /// This state after a key in the terminal panel: a character goes to
    /// the tail of the input stream, enter as a line feed, and backspace
    /// takes the last character off it.
    pub open spec fn after_terminal_key(self, key: Key) -> AppModel {
        let istream = match key {
            Key::Char(c) => self.cpu.istream.push(c),
            Key::Enter => self.cpu.istream.push('\n'),
            Key::Backspace => if self.cpu.istream.len() > 0 {
                self.cpu.istream.drop_last()
            } else {
                self.cpu.istream
            },
            _ => self.cpu.istream,
        };
        AppModel { cpu: CpuModel { istream, ..self.cpu }, ..self }
    }

    /// This state after a key in the memory panel: the scroll keys move
    /// the first row shown.
    pub open spec fn after_ram_key(self, key: Key) -> AppModel {
        match scroll_offset(key) {
            Some(offset) => AppModel {
                ram_widget_state: RamTableState {
                    starting_row: row_moved_by(self.ram_widget_state.starting_row, offset as int),
                    ..self.ram_widget_state
                },
                ..self
            },
            None => self,
        }
    }

    /// This state after a key in the program panel: the scroll keys move
    /// the view and the selection, `f` makes the panel follow the executing
    /// instruction or stop following it, `b` flips the breakpoint of the
    /// selected instruction.
    pub open spec fn after_program_key(self, key: Key) -> AppModel {
        match scroll_offset(key) {
            Some(offset) => AppModel {
                pmem_widget_state: self.pmem_widget_state.scrolled(offset),
                ..self
            },
            None => match key {
                Key::Char(c) => if c == 'f' {
                    AppModel {
                        pmem_widget_state: PmemTableState {
                            focus_executing: !self.pmem_widget_state.focus_executing,
                            ..self.pmem_widget_state
                        },
                        ..self
                    }
                } else if c == 'b' && self.pmem_widget_state.selected < self.program.len() {
                    let selected = self.pmem_widget_state.selected as int;
                    AppModel {
                        program: self.program.update(
                            selected,
                            Slot {
                                word: self.program[selected].word,
                                breakpoint: !self.program[selected].breakpoint,
                            },
                        ),
                        ..self
                    }
                } else {
                    self
                },
                _ => self,
            },
        }
    }

    /// This state after a key. A key that works the same in every panel is
    /// handled as such; every other key goes to the panel that has the
    /// keyboard.
    pub open spec fn after_key(self, key: Key, fresh_rng: u16) -> AppModel {
        if is_general_key(key) {
            self.after_general_key(key, fresh_rng)
        } else {
            match self.ui_mode {
                UiMode::InspectTerminal => self.after_terminal_key(key),
                UiMode::InspectRam => self.after_ram_key(key),
                UiMode::InspectProgram => self.after_program_key(key),
            }
        }
    }

    /// What a key asks of the program around the library.
    pub open spec fn request_of(self, key: Key) -> Request {
        match key {
            Key::Esc => Request::ConfirmQuit,
            Key::F(n) => if n == 1 {
                Request::ShowHelp
            } else if n == 2 {
                Request::AskProgramPath
            } else if n == 4 {
                Request::AskDelay
            } else {
                Request::Nothing
            },
            Key::Char(c) => if c == 'g' && self.ui_mode == UiMode::InspectRam {
                Request::AskRamAddress
            } else {
                Request::Nothing
            },
            _ => Request::Nothing,
        }
    }

    /// This state after an attempt to load a program from the file at
    /// `path`. Without tokens, the file could not be read: that is logged
    /// and nothing else changes. With tokens, the CPU is reset and stopped
    /// and the tokens become the program. Tokens that were skipped are
    /// logged as one warning, each instruction word with an unknown opcode
    /// as a warning of its own, and then the load itself.
    pub open spec fn after_load(
        self,
        path: Seq<char>,
        tokens: Option<Seq<[u8; 3]>>,
        skipped: nat,
        fresh_rng: u16,
    ) -> AppModel {
        match tokens {
            None => self.logged(MessageType::Error, load_failed_text(path)),
            Some(tokens) => {
                let program = loaded_from_tokens(tokens);
                let reset = AppModel { program, ..self.with_cpu_reset(fresh_rng) };
                let warned = if skipped > 0 {
                    reset.logged(MessageType::Warning, skipped_tokens_text(skipped))
                } else {
                    reset
                };
                AppModel {
                    message_log: warned.message_log + unknown_opcode_warnings(program),
                    ..warned
                }.logged(MessageType::Info, loaded_text(path))
            },
        }
    }

    /// The state in which the user interface starts at the time `now`:
    /// a reset CPU, no program, the keyboard in the terminal panel, and a
    /// hint at the help screen in the log.
    pub open spec fn initial(now: u128, fresh_rng: u16) -> AppModel {
        AppModel {
            cpu: CpuModel::initial(fresh_rng),
            program: Seq::empty(),
            execution_timer: Timer { target_duration: DEFAULT_STEP_DELAY, starting_point: now },
            ui_mode: UiMode::InspectTerminal,
            ram_widget_state: RamTableState { starting_row: 0, is_focussed: false },
            pmem_widget_state: PmemTableState {
                selected: 10,
                viewport_begin: 0,
                viewport_end: 24,
                max_visible_lines: 24,
                focus_executing: true,
                is_focussed: false,
            },
            registers_widget_state: RegistersDisplayState { use_hex: true },
            keybuffer_widget_state: KeybufferWidgetState { focused: true },
            message_log: seq![
                LogEntry { kind: MessageType::Info, text: "Press F1 for help!"@ },
            ],
            should_quit: false,
            cpu_running: false,
            cpu_step_requested: false,
        }
    }

    /// This state after a reset of the user interface: the CPU is reset,
    /// the program is gone, the panels are as at the start and the keyboard
    /// is in the terminal panel. The log, the delay and whether the CPU
    /// runs stay as they are.
    pub open spec fn after_reset(self, fresh_rng: u16) -> AppModel {
        AppModel {
            cpu: CpuModel::initial(fresh_rng),
            program: Seq::empty(),
            registers_widget_state: RegistersDisplayState { use_hex: true },
            ram_widget_state: RamTableState { starting_row: 0, is_focussed: false },
            pmem_widget_state: PmemTableState {
                selected: 10,
                viewport_begin: 0,
                viewport_end: 24,
                max_visible_lines: 24,
                focus_executing: true,
                is_focussed: false,
            },
            keybuffer_widget_state: KeybufferWidgetState { focused: true },
            ui_mode: UiMode::InspectTerminal,
            ..self
        }
    }
}


impl Request {
    /// The question to put to the user for this request; empty where the
    /// request asks nothing of the user.
    pub fn prompt_text(&self) -> (text: &'static str)
        ensures
            text@ == match *self {
                Request::ConfirmQuit => "Really quit? (true/false)"@,
                Request::AskProgramPath => "Enter file path:"@,
                Request::AskDelay => "Set execution delay (ms)"@,
                Request::AskRamAddress => "Go to RAM address: "@,
                Request::Nothing | Request::ShowHelp => ""@,
            },
    {
        match self {
            Request::ConfirmQuit => "Really quit? (true/false)",
            Request::AskProgramPath => "Enter file path:",
            Request::AskDelay => "Set execution delay (ms)",
            Request::AskRamAddress => "Go to RAM address: ",
            Request::Nothing | Request::ShowHelp => "",
        }
    }
}

/// Tells by how many rows `key` scrolls a table.
pub fn key_scroll_offset(key: &Key) -> (offset: Option<i32>)
    ensures
        offset == scroll_offset(*key),
{
    match key {
        Key::Up => Some(-1),
        Key::Down => Some(1),
        Key::PageUp => Some(-16),
        Key::PageDown => Some(16),
        Key::Char(c) => {
            if *c == 'k' {
                Some(-1)
            } else if *c == 'j' {
                Some(1)
            } else if *c == 'K' {
                Some(-16)
            } else if *c == 'J' {
                Some(16)
            } else {
                None
            }
        },
        _ => None,
    }
}

impl AppState {
    /// The state in which the user interface starts at the time `now`.
    pub fn new(now: u128) -> (app: AppState)
        ensures
            app@ == AppModel::initial(now, app.cpu.rng_state),
    {
        let mut log = Log::default();
        log.log(Message::new(MessageType::Info, String::from_str("Press F1 for help!")));
        let app = AppState {
            cpu: CpuState::default(),
            program: Program::default(),
            execution_timer: Timer::new(DEFAULT_STEP_DELAY, now),
            cpu_running: false,
            cpu_step_requested: false,
            ui_mode: UiMode::InspectTerminal,
            should_quit: false,
            ram_widget_state: RamTableState::default(),
            pmem_widget_state: PmemTableState::default(),
            registers_widget_state: RegistersDisplayState::default(),
            keybuffer_widget_state: KeybufferWidgetState { focused: true },
            message_log: log,
        };
        assert(app@ =~= AppModel::initial(now, app.cpu.rng_state));
        app
    }

    /// Adds a message to the log.
    fn log(&mut self, kind: MessageType, text: String)
        ensures
            final(self)@ == old(self)@.logged(kind, text@),
    {
        self.message_log.log(Message::new(kind, text));
    }

    /// Resets the CPU and stops it. The program stays loaded.
    pub fn reset_cpu(&mut self)
        ensures
            final(self)@ == old(self)@.with_cpu_reset(final(self).cpu.rng_state),
    {
        self.cpu_step_requested = false;
        self.cpu_running = false;
        self.cpu = CpuState::default();
    }

    /// Resets the user interface: the CPU is reset, the program is gone,
    /// and the panels are as at the start.
    pub fn reset(&mut self)
        ensures
            final(self)@ == old(self)@.after_reset(final(self).cpu.rng_state),
    {
        self.cpu = CpuState::default();
        self.program = Program::default();
        self.registers_widget_state = RegistersDisplayState::default();
        self.ram_widget_state = RamTableState::default();
        self.pmem_widget_state = PmemTableState::default();
        self.keybuffer_widget_state = KeybufferWidgetState { focused: true };
        self.ui_mode = UiMode::InspectTerminal;
    }

    /// Lets the CPU make one step of the program and logs what came of it.
    fn step(&mut self)
        ensures
            final(self)@ == old(self)@.stepped(final(self).cpu.rng_state),
    {
        match self.cpu.execute_next_prog_op(&self.program) {
            Ok(()) => {
                if self.cpu.received_halt {
                    self.log(MessageType::Info, String::from_str("CPU received halt."));
                }
            },
            Err(_) => {
                self.cpu_running = false;
                let mut text = String::from_str("Program counter beyond loaded program: ");
                text.append("0x");
                proof {
                    reveal_strlit("0x");
                }
                push_hex(&mut text, self.cpu.pcounter as u32, true);
                assert(text@ =~= beyond_program_text(self.cpu.pcounter));
                self.log(MessageType::Error, text);
            },
        }
    }

    /// Gives the CPU its turn at the time `now`: a running CPU makes a step
    /// if the delay has passed, a step that was asked for is made, and a
    /// running CPU that has come to a breakpoint is stopped. Each step may
    /// draw a fresh random number.
    pub fn update_cpu(&mut self, now: u128)
        ensures
            exists|first_rng: u16, second_rng: u16|
                final(self)@ == #[trigger] old(self)@.after_update(now, first_rng, second_rng),
    {
        let ghost mut first_rng: u16 = 0;
        let ghost mut second_rng: u16 = 0;
        if self.program.is_empty() || self.cpu.received_halt {
            assert(self@ == old(self)@.after_update(now, first_rng, second_rng));
            return ;
        }
        if self.cpu_running && self.execution_timer.has_elapsed(now) {
            self.step();
            self.execution_timer.reset(now);
            proof {
                first_rng = self.cpu.rng_state;
            }
        }
        if self.cpu_step_requested {
            self.step();
            self.cpu_step_requested = false;
            proof {
                second_rng = self.cpu.rng_state;
            }
        }
        let last: usize = self.program.len() - 1;
        let address: usize = if (self.cpu.pcounter as usize) < self.program.len() {
            self.cpu.pcounter as usize
        } else {
            last
        };
        if self.cpu_running && self.program.is_breakpoint(address) {
            self.cpu_running = false;
            let mut text = String::from_str("Reached breakpoint at ");
            text.append("0x");
            proof {
                reveal_strlit("0x");
            }
            push_hex(&mut text, self.cpu.pcounter as u32, true);
            assert(text@ =~= breakpoint_text(self.cpu.pcounter));
            self.log(MessageType::Info, text);
        }
        assert(self@ =~= old(self)@.after_update(now, first_rng, second_rng));
    }

    /// Sets the focus of the panels after the panel that has the keyboard.
    pub fn apply_focus(&mut self)
        ensures
            final(self)@ == old(self)@.with_focus(),
    {
        match self.ui_mode {
            UiMode::InspectTerminal => {
                self.keybuffer_widget_state.focused = true;
                self.ram_widget_state.is_focussed = false;
                self.pmem_widget_state.is_focussed = false;
            },
            UiMode::InspectRam => {
                self.keybuffer_widget_state.focused = false;
                self.ram_widget_state.is_focussed = true;
                self.pmem_widget_state.is_focussed = false;
            },
            UiMode::InspectProgram => {
                self.keybuffer_widget_state.focused = false;
                self.ram_widget_state.is_focussed = false;
                self.pmem_widget_state.is_focussed = true;
            },
        }
    }

    /// Handles a key that works the same whichever panel has the keyboard.
    /// Tells whether `key` is such a key; any other key changes nothing.
    pub fn handle_input_general(&mut self, key: &Key) -> (consumed: bool)
        ensures
            consumed == is_general_key(*key),
            consumed ==> final(self)@ == old(self)@.after_general_key(
                *key,
                final(self).cpu.rng_state,
            ),
            !consumed ==> final(self)@ == old(self)@,
    {
        match key {
            Key::Esc => true,
            Key::Tab => {
                self.ui_mode.next();
                true
            },
            Key::BackTab => {
                self.ui_mode.previous();
                true
            },
            Key::F(n) => {
                if *n == 3 {
                    self.reset_cpu();
                    self.log(MessageType::Info, String::from_str("Reset CPU"));
                } else if *n == 5 {
                    self.cpu_running = !self.cpu_running;
                } else if *n == 6 {
                    self.cpu_step_requested = true;
                }
                1 <= *n && *n <= 6
            },
            _ => false,
        }
    }

    /// Handles a key while the terminal panel has the keyboard.
    pub fn handle_event_terminal(&mut self, key: Key)
        ensures
            final(self)@ == old(self)@.after_terminal_key(key),
    {
        match key {
            Key::Char(c) => self.cpu.istream.append_char(c),
            Key::Enter => self.cpu.istream.append_char('\n'),
            Key::Backspace => self.cpu.istream.remove_last(),
            _ => {},
        }
        assert(self@ =~= old(self)@.after_terminal_key(key));
    }

    /// Handles a key while the memory panel has the keyboard.
    pub fn handle_event_ram(&mut self, key: Key)
        ensures
            final(self)@ == old(self)@.after_ram_key(key),
    {
        match key_scroll_offset(&key) {
            Some(offset) => self.ram_widget_state.scroll(offset),
            None => {},
        }
        assert(self@ =~= old(self)@.after_ram_key(key));
    }

    /// Handles a key while the program panel has the keyboard.
    pub fn handle_event_program(&mut self, key: Key)
        ensures
            final(self)@ == old(self)@.after_program_key(key),
    {
        match key_scroll_offset(&key) {
            Some(offset) => self.pmem_widget_state.scroll(offset),
            None => {
                match key {
                    Key::Char(c) => {
                        if c == 'f' {
                            self.pmem_widget_state.focus_executing =
                                !self.pmem_widget_state.focus_executing;
                        } else if c == 'b' {
                            self.program.toggle_breakpoint(self.pmem_widget_state.selected as usize);
                        }
                    },
                    _ => {},
                }
            },
        }
        assert(self@ =~= old(self)@.after_program_key(key));
    }

    /// Handles a key: as one that works the same in every panel, or else
    /// in the panel that has the keyboard. Returns what the key asks of the
    /// program around the library.
    pub fn handle_input(&mut self, key: Key) -> (request: Request)
        ensures
            final(self)@ == old(self)@.after_key(key, final(self).cpu.rng_state),
            request == old(self)@.request_of(key),
    {
        let request = match key {
            Key::Esc => Request::ConfirmQuit,
            Key::F(n) => {
                if n == 1 {
                    Request::ShowHelp
                } else if n == 2 {
                    Request::AskProgramPath
                } else if n == 4 {
                    Request::AskDelay
                } else {
                    Request::Nothing
                }
            },
            Key::Char(c) => {
                if c == 'g' && matches!(self.ui_mode, UiMode::InspectRam) {
                    Request::AskRamAddress
                } else {
                    Request::Nothing
                }
            },
            _ => Request::Nothing,
        };
        if self.handle_input_general(&key) {
            return request;
        }
        match self.ui_mode {
            UiMode::InspectTerminal => self.handle_event_terminal(key),
            UiMode::InspectRam => self.handle_event_ram(key),
            UiMode::InspectProgram => self.handle_event_program(key),
        }
        request
    }

    /// Takes the answer to the question whether to quit. No answer leaves
    /// things as they are.
    pub fn answer_quit(&mut self, answer: Option<bool>)
        ensures
            final(self)@ == (AppModel {
                should_quit: match answer {
                    Some(quit) => quit,
                    None => old(self).should_quit,
                },
                ..old(self)@
            }),
    {
        match answer {
            Some(quit) => self.should_quit = quit,
            None => {},
        }
    }

    /// Takes the answer to the question for the delay between two steps,
    /// in milliseconds. No answer leaves the delay as it is.
    pub fn answer_delay(&mut self, answer: Option<u32>)
        ensures
            final(self)@ == (AppModel {
                execution_timer: Timer {
                    target_duration: match answer {
                        Some(millis) => (millis * NANOS_PER_MILLI) as u128,
                        None => old(self).execution_timer.target_duration,
                    },
                    starting_point: old(self).execution_timer.starting_point,
                },
                ..old(self)@
            }),
    {
        match answer {
            Some(millis) => self.execution_timer.set_duration(millis as u128 * NANOS_PER_MILLI),
            None => {},
        }
    }

    /// Takes the answer to the question for a memory address: the memory
    /// panel shows the row that holds it first. No answer leaves the panel
    /// as it is.
    pub fn answer_ram_address(&mut self, answer: Option<u32>)
        ensures
            final(self)@ == (AppModel {
                ram_widget_state: RamTableState {
                    starting_row: match answer {
                        Some(address) => if address > RAM_SIZE {
                            RAM_MAX_LINES
                        } else {
                            address / CELLS_PER_ROW
                        },
                        None => old(self).ram_widget_state.starting_row,
                    },
                    ..old(self).ram_widget_state
                },
                ..old(self)@
            }),
    {
        match answer {
            Some(address) => self.ram_widget_state.goto_address(address),
            None => {},
        }
        assert(self@ =~= (AppModel {
            ram_widget_state: RamTableState {
                starting_row: match answer {
                    Some(address) => if address > RAM_SIZE {
                        RAM_MAX_LINES
                    } else {
                        address / CELLS_PER_ROW
                    },
                    None => old(self).ram_widget_state.starting_row,
                },
                ..old(self).ram_widget_state
            },
            ..old(self)@
        }));
    }

    /// Logs a warning for each instruction word of the program whose
    /// opcode the instruction set does not have.
    fn warn_of_unknown_opcodes(&mut self)
        ensures
            final(self)@ == (AppModel {
                message_log: old(self)@.message_log + unknown_opcode_warnings(old(self)@.program),
                ..old(self)@
            }),
    {
        let length: usize = self.program.len();
        let mut address: usize = 0;
        assert(self@.program.take(0) =~= Seq::<Slot>::empty());
        assert(self@.message_log + Seq::<LogEntry>::empty() =~= self@.message_log);
        while address < length
            invariant
                address <= length,
                length == old(self)@.program.len(),
                self@ == (AppModel {
                    message_log: old(self)@.message_log + unknown_opcode_warnings(
                        old(self)@.program.take(address as int),
                    ),
                    ..old(self)@
                }),
            decreases length - address,
        {
            let ghost before = self@;
            let ghost program = old(self)@.program;
            proof {
                assert(program.take(address + 1).drop_last() =~= program.take(address as int));
                assert(program.take(address + 1).last() == program[address as int]);
            }
            match self.program.instruction_word(address) {
                Some(word) => {
                    if !word.has_known_opcode() {
                        let mut text = String::from_str("Unknown opcode in ");
                        text.append("0x");
                        proof {
                            reveal_strlit("0x");
                        }
                        push_hex(&mut text, word.buffer, false);
                        assert(text@ =~= unknown_opcode_text(word.buffer));
                        self.log(MessageType::Warning, text);
                        assert(self@.message_log =~= old(self)@.message_log
                            + unknown_opcode_warnings(program.take(address + 1)));
                    }
                },
                None => {},
            }
            address = address + 1;
        }
        assert(old(self)@.program.take(length as int) =~= old(self)@.program);
    }

    /// Takes what came of reading a program from the file at `path`:
    /// its tokens and the number of tokens that were skipped, or nothing
    /// where the file could not be read. Tells whether a program was
    /// loaded.
    pub fn finish_load(&mut self, path: &str, tokens: Option<&[[u8; 3]]>, skipped: usize) -> (loaded:
        bool)
        ensures
            loaded == tokens is Some,
            final(self)@ == old(self)@.after_load(
                path@,
                match tokens {
                    Some(found) => Some(found@),
                    None => None,
                },
                skipped as nat,
                final(self).cpu.rng_state,
            ),
    {
        match tokens {
            None => {
                let mut text = String::from_str("Failed to load '");
                text.append(path);
                text.append("'");
                assert(text@ =~= load_failed_text(path@));
                self.log(MessageType::Error, text);
                false
            },
            Some(found) => {
                self.reset_cpu();
                self.program = Program::from_tokens(found);
                if skipped > 0 {
                    let mut text = String::from_str("Skipped malformed tokens: ");
                    push_decimal(&mut text, skipped as u64);
                    assert(text@ =~= skipped_tokens_text(skipped as nat));
                    self.log(MessageType::Warning, text);
                }
                self.warn_of_unknown_opcodes();
                let mut text = String::from_str("Loaded '");
                text.append(path);
                text.append("'");
                assert(text@ =~= loaded_text(path@));
                self.log(MessageType::Info, text);
                assert(self@ =~= old(self)@.after_load(
                    path@,
                    Some(found@),
                    skipped as nat,
                    self.cpu.rng_state,
                ));
                true
            },
        }
    }
}

} // verus!
