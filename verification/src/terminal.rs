//! The command prompt: a scrolling list of output lines and an input line.
//! A command either prints its answer at once or asks the host, through
//! the returned action, for facts only the machine has (memory, clock,
//! programs, audio); the host then hands those facts to a `report_` method.
use vstd::prelude::*;
use crate::chars::{
    append_chars, append_str, chars_of, eq_str, format_padded, join_spaced,
    join_words, seqs_of, split_lines, split_words, text_lines, trim, trim_chars, words, zero_pad,
};
use crate::calculator::{div_toward_zero, div_trunc};
use crate::elf::ProcessResult;
use crate::memory::SystemMemoryInfo;
use crate::rtc::RtcTime;
use crate::input::{DecodedKey, KeyCode};
use crate::text::{decimal_digits, format_i64, format_i64_spec, format_u64, parse_i64, parse_i64_spec, parse_usize, parse_usize_spec};
use crate::chars::{chars_from, contains_chars, contains_run, lower, starts_with_chars, to_lower};
use crate::color::{pack_argb, Color};
use crate::framebuffer::Framebuffer;
use crate::palette;
use crate::render::{clipped, drawn_over, inner};
use crate::scene::{add_fill, add_label, add_text, clip_to, paint, painted, scene_ok, sfill, shapes_view, stext, Shape, ShapeV};
use crate::mp3::{opt_text, ChannelMode, Mp3Track};
use crate::theme::{after_set, set_theme, ThemeKind, ThemeState};

verus! {

/// Bytes in a mebibyte.
pub const MIB: u64 = 1048576;

/// Lines kept before the oldest are dropped.
pub const MAX_LINES: usize = 150;

/// Lines dropped at once when the list grows too long.
pub const DROPPED_LINES: usize = 30;

/// Characters the input line holds at most.
pub const MAX_INPUT: usize = 256;

/// Ticks between cursor blinks.
pub const BLINK_TICKS: usize = 40;

/// What the host must do after a command.
#[derive(Debug, PartialEq, Eq)]
pub enum TerminalAction {
    /// Nothing more.
    Nothing,
    /// Read the memory totals and the heap size, then `report_system_info`.
    SystemInfo,
    /// Read the memory totals and heap use, then `report_memory`.
    MemoryStats,
    /// Read the real-time clock, then `report_time`.
    ReadClock,
    /// Run bundled program `sample` (0 hello, 1 fibonacci, 2 mandelbrot,
    /// 3 sysbench) as `name`, then `report_elf_run`.
    RunElf { sample: usize, name: Vec<char> },
    /// List the bundled tracks with `report_track_list`.
    ListTracks,
    /// Describe the track the query picks (`find_embedded_track`) with
    /// `report_track_info`, or `report_track_missing`.
    TrackInfo(Vec<char>),
    /// Decode the track the query picks, then `report_track_decode`, or
    /// `report_track_missing`.
    DecodeTrack(Vec<char>),
    /// Stream the track the query picks to the sound card, then
    /// `report_track_play`, or `report_track_missing`.
    PlayTrack(Vec<char>),
    /// Describe the game data with `report_doom_info`.
    DoomInfo,
    /// Load and run the game map for a moment, then `report_doom_bench`.
    DoomBench(Vec<char>),
    /// Sound the speaker.
    Beep,
    /// Reset the machine.
    Reboot,
}

/// A `TerminalAction` with its text as character sequences.
pub enum TerminalRequest {
    Nothing,
    SystemInfo,
    MemoryStats,
    ReadClock,
    RunElf { sample: nat, name: Seq<char> },
    ListTracks,
    TrackInfo(Seq<char>),
    DecodeTrack(Seq<char>),
    PlayTrack(Seq<char>),
    DoomInfo,
    DoomBench(Seq<char>),
    Beep,
    Reboot,
}

impl View for TerminalAction {
    type V = TerminalRequest;

    open spec fn view(&self) -> TerminalRequest {
        match self {
            TerminalAction::Nothing => TerminalRequest::Nothing,
            TerminalAction::SystemInfo => TerminalRequest::SystemInfo,
            TerminalAction::MemoryStats => TerminalRequest::MemoryStats,
            TerminalAction::ReadClock => TerminalRequest::ReadClock,
            TerminalAction::RunElf { sample, name } => TerminalRequest::RunElf { sample: *sample as nat, name: name@ },
            TerminalAction::ListTracks => TerminalRequest::ListTracks,
            TerminalAction::TrackInfo(q) => TerminalRequest::TrackInfo(q@),
            TerminalAction::DecodeTrack(q) => TerminalRequest::DecodeTrack(q@),
            TerminalAction::PlayTrack(q) => TerminalRequest::PlayTrack(q@),
            TerminalAction::DoomInfo => TerminalRequest::DoomInfo,
            TerminalAction::DoomBench(m) => TerminalRequest::DoomBench(m@),
            TerminalAction::Beep => TerminalRequest::Beep,
            TerminalAction::Reboot => TerminalRequest::Reboot,
        }
    }
}

/// The command word of `ws` (empty when there is none).
pub open spec fn cmd_of(ws: Seq<Seq<char>>) -> Seq<char> {
    if ws.len() > 0 { ws[0] } else { Seq::empty() }
}

/// The arguments of `ws`: the words after the command word.
pub open spec fn args_of(ws: Seq<Seq<char>>) -> Seq<Seq<char>> {
    if ws.len() > 0 { ws.drop_first() } else { Seq::empty() }
}

/// The `help` text.
pub open spec fn help_text() -> Seq<Seq<char>> {
    seq![
        "Available commands:"@,
        "  help      - Show this help message"@,
        "  sysinfo   - Hardware & OS information"@,
        "  clear     - Clear terminal screen"@,
        "  echo <msg>- Print text to terminal"@,
        "  mem       - Show heap memory statistics"@,
        "  time      - Display CMOS real-time clock"@,
        "  calc <op> - Eval arithmetic (calc 42 * 7)"@,
        "  theme [nm]- Change desktop theme (cyberpunk, matrix, sunset)"@,
        "  elf [cmd] - Execute 64-bit ELF binaries (elf list/run)"@,
        "  mp3 [cmd] - MP3 audio player & decoder (mp3 list/info/decode)"@,
        "  doom [cmd]- DOOM 1993 engine (doom info/bench)"@,
        "  beep      - Test PC speaker sound"@,
        "  reboot    - Reboot the computer"@,
    ]
}

/// The `sysinfo` banner, printed before the memory line.
pub open spec fn banner_text() -> Seq<Seq<char>> {
    seq![
        "   __  __"@,
        "  |  \\/  | ___  _   _ _ __ ___  ___"@,
        "  | |\\/| |/ _ \\| | | | '__/ _ \\/ __|"@,
        "  | |  | | (_) | |_| | | | (_) \\__ \\"@,
        "  |_|  |_|\\___/ \\__,_|_|  \\___/|___/"@,
        "  ---------------------------------"@,
        "  OS: Mouros Desktop OS (x86_64)"@,
        "  Kernel: Rust bare-metal Long Mode"@,
        "  Display: Bochs BGA (800x600 32bpp)"@,
        "  Window Manager: Mouros Compositor"@,
    ]
}

/// The `elf list` text.
pub open spec fn elf_list_text() -> Seq<Seq<char>> {
    seq![
        "Available 64-bit ELF Executables:"@,
        "  hello.elf      - Host greeting & C API print test"@,
        "  fibonacci.elf  - Fibonacci sequence generator"@,
        "  mandelbrot.elf - ASCII Mandelbrot fractal renderer"@,
        "  sysbench.elf   - CPU & memory speed benchmark"@,
        "Usage: elf run <name>"@,
    ]
}

/// The `theme` text without arguments, after the current theme's line.
pub open spec fn theme_usage_text() -> Seq<Seq<char>> {
    seq![
        "Available themes: classic, platinum, deepspace, cyberpunk, matrix, sunset"@,
        "Usage: theme <name>"@,
    ]
}

/// The theme a `theme` argument names.
pub open spec fn theme_named(n: Seq<char>) -> Option<ThemeKind> {
    if n == "classic"@ || n == "memphis"@ || n == "retro98"@ { Some(ThemeKind::Windows98) }
    else if n == "platinum"@ || n == "pinstripe"@ { Some(ThemeKind::MacOS9) }
    else if n == "deepspace"@ || n == "default"@ { Some(ThemeKind::DeepSpace) }
    else if n == "cyberpunk"@ || n == "neon"@ { Some(ThemeKind::CyberpunkNeon) }
    else if n == "matrix"@ || n == "emerald"@ { Some(ThemeKind::MatrixEmerald) }
    else if n == "sunset"@ || n == "retro"@ { Some(ThemeKind::RetroSunset) }
    else { None }
}

/// The name a theme is printed by.
pub open spec fn theme_label(k: ThemeKind) -> Seq<char> {
    match k {
        ThemeKind::Windows98 => "Windows98"@,
        ThemeKind::MacOS9 => "MacOS9"@,
        ThemeKind::DeepSpace => "DeepSpace"@,
        ThemeKind::CyberpunkNeon => "CyberpunkNeon"@,
        ThemeKind::MatrixEmerald => "MatrixEmerald"@,
        ThemeKind::RetroSunset => "RetroSunset"@,
    }
}

/// The bundled program an `elf run` argument names.
pub open spec fn elf_sample(n: Seq<char>) -> Option<nat> {
    if n == "hello"@ || n == "hello.elf"@ { Some(0) }
    else if n == "fibonacci"@ || n == "fibonacci.elf"@ { Some(1) }
    else if n == "mandelbrot"@ || n == "mandelbrot.elf"@ { Some(2) }
    else if n == "sysbench"@ || n == "sysbench.elf"@ { Some(3) }
    else { None }
}

/// The exact value of `x op y` for the four operators (division rounds
/// toward zero; nothing for a zero divisor or another operator).
pub open spec fn calc_value(x: i64, op: Seq<char>, y: i64) -> Option<int> {
    if op == "+"@ { Some(x + y) }
    else if op == "-"@ { Some(x - y) }
    else if op == "*"@ { Some(x * y) }
    else if op == "/"@ { if y != 0 { Some(div_toward_zero(x as int, y as int)) } else { None } }
    else { None }
}

/// Whether `calc` with arguments `args` would compute a value outside `i64`.
pub open spec fn calc_overflows(args: Seq<Seq<char>>) -> bool {
    &&& args.len() >= 3
    &&& parse_i64_spec(args[0]) is Some
    &&& parse_i64_spec(args[2]) is Some
    &&& match calc_value(parse_i64_spec(args[0])->0, args[1], parse_i64_spec(args[2])->0) {
        Some(v) => v < i64::MIN || v > i64::MAX,
        None => false,
    }
}

/// Whether running the command line `input` would overflow in `calc`.
pub open spec fn command_overflows(input: Seq<char>) -> bool {
    let ws = words(trim(input));
    cmd_of(ws) == "calc"@ && calc_overflows(args_of(ws))
}

/// The line `calc` prints for arguments `args`.
pub open spec fn calc_line(args: Seq<Seq<char>>) -> Seq<char> {
    if args.len() >= 3 {
        match (parse_i64_spec(args[0]), parse_i64_spec(args[2])) {
            (Some(x), Some(y)) => match calc_value(x, args[1], y) {
                Some(v) => "= "@ + format_i64_spec(v as i64),
                None => "Error: Division by zero or unknown operator"@,
            },
            _ => "Usage: calc <num1> <+|-|*|/> <num2>"@,
        }
    } else {
        "Usage: calc <num1> <+|-|*|/> <num2>"@
    }
}

/// The lines `theme` prints, with `current` the theme in use.
pub open spec fn theme_lines(args: Seq<Seq<char>>, current: ThemeKind) -> Seq<Seq<char>> {
    if args.len() == 0 {
        seq!["Current theme: "@ + theme_label(current)] + theme_usage_text()
    } else {
        match theme_named(args[0]) {
            Some(k) => seq!["Theme updated to: "@ + theme_label(k)],
            None => seq!["Unknown theme: '"@ + args[0]
                + "'. Options: classic, platinum, deepspace, cyberpunk, matrix, sunset"@],
        }
    }
}

/// The lines `elf` prints itself (the host reports a run).
pub open spec fn elf_lines(args: Seq<Seq<char>>) -> Seq<Seq<char>> {
    if args.len() == 0 || args[0] == "list"@ {
        elf_list_text()
    } else if args[0] == "run"@ && args.len() >= 2 {
        match elf_sample(args[1]) {
            Some(_) => Seq::empty(),
            None => seq!["ELF binary not found: '"@ + args[1] + "'. Run 'elf list' for available binaries."@],
        }
    } else {
        seq!["Usage: elf list | elf run <name>"@]
    }
}

/// The lines `mp3` prints itself (the host reports the rest).
pub open spec fn mp3_lines(args: Seq<Seq<char>>) -> Seq<Seq<char>> {
    if mp3_request(args) { Seq::empty() }
    else { seq!["Usage: mp3 list | mp3 info <name> | mp3 decode <name> | mp3 play <name>"@] }
}

/// The map `doom bench` runs.
pub open spec fn bench_map(args: Seq<Seq<char>>) -> Seq<char> {
    if args.len() >= 2 { args[1] } else { "E1M1"@ }
}

/// The lines `doom` prints itself (the host reports the rest).
pub open spec fn doom_lines(args: Seq<Seq<char>>) -> Seq<Seq<char>> {
    if args.len() == 0 || args[0] == "info"@ { Seq::empty() }
    else if args[0] == "bench"@ { seq![">>> Initializing Doom engine for "@ + bench_map(args) + "..."@] }
    else { seq!["Usage: doom [info] | doom bench [map]"@] }
}

/// What `elf` asks of the host.
pub open spec fn elf_request(args: Seq<Seq<char>>) -> TerminalRequest {
    if args.len() >= 2 && args[0] != "list"@ && args[0] == "run"@ {
        match elf_sample(args[1]) {
            Some(i) => TerminalRequest::RunElf { sample: i, name: args[1] },
            None => TerminalRequest::Nothing,
        }
    } else { TerminalRequest::Nothing }
}

/// What `mp3` asks of the host.
pub open spec fn mp3_request_of(args: Seq<Seq<char>>) -> TerminalRequest {
    if args.len() == 0 || args[0] == "list"@ { TerminalRequest::ListTracks }
    else if args[0] == "info"@ && args.len() >= 2 { TerminalRequest::TrackInfo(args[1]) }
    else if args[0] == "decode"@ && args.len() >= 2 { TerminalRequest::DecodeTrack(args[1]) }
    else if args[0] == "play"@ && args.len() >= 2 { TerminalRequest::PlayTrack(args[1]) }
    else { TerminalRequest::Nothing }
}

/// What `doom` asks of the host.
pub open spec fn doom_request(args: Seq<Seq<char>>) -> TerminalRequest {
    if args.len() == 0 || args[0] == "info"@ { TerminalRequest::DoomInfo }
    else if args[0] == "bench"@ { TerminalRequest::DoomBench(bench_map(args)) }
    else { TerminalRequest::Nothing }
}

/// Whether `mp3` with `args` asks the host for something.
pub open spec fn mp3_request(args: Seq<Seq<char>>) -> bool {
    ||| args.len() == 0
    ||| args[0] == "list"@
    ||| (args.len() >= 2 && (args[0] == "info"@ || args[0] == "decode"@ || args[0] == "play"@))
}

/// The lines command `cmd` with arguments `args` prints at once, with
/// `current` the theme in use (`clear` is handled apart).
pub open spec fn command_lines(cmd: Seq<char>, args: Seq<Seq<char>>, current: ThemeKind) -> Seq<Seq<char>> {
    if cmd == "help"@ { help_text() }
    else if cmd == "sysinfo"@ || cmd == "neofetch"@ { banner_text() }
    else if cmd == "clear"@ { Seq::empty() }
    else if cmd == "echo"@ { seq![join_spaced(args)] }
    else if cmd == "mem"@ || cmd == "time"@ { Seq::empty() }
    else if cmd == "calc"@ { seq![calc_line(args)] }
    else if cmd == "theme"@ { theme_lines(args, current) }
    else if cmd == "elf"@ { elf_lines(args) }
    else if cmd == "mp3"@ { mp3_lines(args) }
    else if cmd == "doom"@ { doom_lines(args) }
    else if cmd == "beep"@ { seq!["PC speaker beep sounded!"@] }
    else if cmd == "reboot"@ { seq!["Rebooting system..."@] }
    else { seq!["Unknown command: '"@ + cmd + "'. Type 'help' for commands."@] }
}

/// What the host must do after command `cmd` with arguments `args`.
pub open spec fn command_request(cmd: Seq<char>, args: Seq<Seq<char>>) -> TerminalRequest {
    if cmd == "help"@ { TerminalRequest::Nothing }
    else if cmd == "sysinfo"@ || cmd == "neofetch"@ { TerminalRequest::SystemInfo }
    else if cmd == "clear"@ || cmd == "echo"@ { TerminalRequest::Nothing }
    else if cmd == "mem"@ { TerminalRequest::MemoryStats }
    else if cmd == "time"@ { TerminalRequest::ReadClock }
    else if cmd == "calc"@ || cmd == "theme"@ { TerminalRequest::Nothing }
    else if cmd == "elf"@ { elf_request(args) }
    else if cmd == "mp3"@ { mp3_request_of(args) }
    else if cmd == "doom"@ { doom_request(args) }
    else if cmd == "beep"@ { TerminalRequest::Beep }
    else if cmd == "reboot"@ { TerminalRequest::Reboot }
    else { TerminalRequest::Nothing }
}

/// The theme command `cmd` with arguments `args` switches to, if any.
pub open spec fn command_theme(cmd: Seq<char>, args: Seq<Seq<char>>) -> Option<ThemeKind> {
    if cmd == "theme"@ && args.len() > 0 { theme_named(args[0]) } else { None }
}

/// The lines after the prompt line for `input` is added (the oldest
/// are dropped when there are too many).
pub open spec fn with_prompt(lines: Seq<Seq<char>>, input: Seq<char>) -> Seq<Seq<char>> {
    let l = lines.push("mouros> "@ + trim(input));
    if l.len() > 150 { l.skip(30) } else { l }
}

/// The lines after running the command line `input`, with `current` the
/// theme in use.
pub open spec fn lines_after(lines: Seq<Seq<char>>, input: Seq<char>, current: ThemeKind) -> Seq<Seq<char>> {
    let t = trim(input);
    let ws = words(t);
    if t.len() == 0 {
        with_prompt(lines, input)
    } else if cmd_of(ws) == "clear"@ {
        Seq::empty()
    } else {
        with_prompt(lines, input) + command_lines(cmd_of(ws), args_of(ws), current)
    }
}

/// What the host must do after the command line `input`.
pub open spec fn request_after(input: Seq<char>) -> TerminalRequest {
    let t = trim(input);
    if t.len() == 0 { TerminalRequest::Nothing } else { command_request(cmd_of(words(t)), args_of(words(t))) }
}

/// The theme selection after the command line `input`.
pub open spec fn themes_after(themes: ThemeState, input: Seq<char>) -> ThemeState {
    let t = trim(input);
    if t.len() == 0 {
        themes
    } else {
        match command_theme(cmd_of(words(t)), args_of(words(t))) {
            Some(k) => after_set(themes, k),
            None => themes,
        }
    }
}

/// `n` bytes in whole mebibytes, in decimal.
pub open spec fn mib_text(n: int) -> Seq<char> {
    decimal_digits((n / 1048576) as nat)
}

/// A `u64` in decimal.
pub open spec fn dec(n: int) -> Seq<char> {
    decimal_digits(n as nat)
}

/// The memory line of `sysinfo`.
pub open spec fn system_info_line(total_ram: u64, heap_total: usize) -> Seq<char> {
    "  RAM: "@ + mib_text(total_ram as int) + " MiB (Physical) | Heap: "@ + mib_text(heap_total as int) + " MiB"@
}

/// The lines of `mem`.
pub open spec fn memory_lines(total_ram: u64, usable_ram: u64, heap_used: usize, heap_total: usize) -> Seq<Seq<char>> {
    let total_mb = total_ram as int / 1048576;
    let used_dec = ((heap_used as int % 1048576) * 10) / 1048576;
    let physical = if total_mb >= 1024 {
        "  Physical RAM (QEMU): "@ + dec(total_mb) + " MiB ("@ + dec(total_mb / 1024) + "."@
            + dec(((total_mb % 1024) * 10) / 1024) + " GiB)"@
    } else {
        "  Physical RAM (QEMU): "@ + dec(total_mb) + " MiB"@
    };
    seq![
        "System Memory Statistics:"@,
        physical,
        "  Usable Physical RAM: "@ + mib_text(usable_ram as int) + " MiB"@,
        "  Kernel Heap Total:   "@ + mib_text(heap_total as int) + " MiB"@,
        "  Kernel Heap Used:    "@ + mib_text(heap_used as int) + "."@ + dec(used_dec) + " MiB"@,
        "  Heap Base Virtual:   0x444444440000"@,
    ]
}

/// The line of `time`.
pub open spec fn time_line(t: RtcTime) -> Seq<char> {
    "RTC Time: "@ + zero_pad(dec(t.hours as int), 2) + ":"@ + zero_pad(dec(t.minutes as int), 2) + ":"@
        + zero_pad(dec(t.seconds as int), 2) + " | Date: "@ + zero_pad(dec(t.year as int), 4) + "-"@
        + zero_pad(dec(t.month as int), 2) + "-"@ + zero_pad(dec(t.day as int), 2)
}

/// The lines reporting a program run: the start line, then the program's
/// output lines and exit code, or the loader's error.
pub open spec fn elf_run_lines(name: Seq<char>, size: usize, exit_code: Option<i32>, output: Seq<char>, error: Seq<char>) -> Seq<Seq<char>> {
    let start = ">>> Executing userspace ELF '"@ + name + "' ("@ + dec(size as int) + " bytes)..."@;
    match exit_code {
        Some(code) => seq![start] + text_lines(output)
            + seq![">>> Process exited with code "@ + format_i64_spec(code as i64)],
        None => seq![start, ">>> ELF execution error: "@ + error],
    }
}

/// The lines of `doom info` for a game data file of `wad_size` bytes.
pub open spec fn doom_info_lines(wad_size: usize) -> Seq<Seq<char>> {
    seq![
        "=============================================="@,
        "  DOOM (1993) - Id Software / neurodoom port"@,
        "=============================================="@,
        "  IWAD Size:     "@ + dec(wad_size as int) + " bytes (4.19 MiB)"@,
        "  Episode:       Knee-Deep in the Dead (Episode 1)"@,
        "  Maps:          E1M1 - E1M9 (9 playable maps)"@,
        "  Engine:        neurodoom v0.6.7 (Pure Rust #![no_std])"@,
        "  Resolution:    320x200 RGBA (640x400 2x integer scale)"@,
        "  Simulation:    35 Hz deterministic fixed-point physics"@,
        "  Launch:        Click DOOM icon on Desktop or Start Menu!"@,
        "  Benchmark:     Run 'doom bench [map]' in terminal"@,
    ]
}

/// The lines of `doom bench` on `map`: load and run times in ticks and the
/// frame size when the map loaded, an error line otherwise.
pub open spec fn doom_bench_lines(map: Seq<char>, outcome: Option<(u64, u64, usize)>) -> Seq<Seq<char>> {
    match outcome {
        Some((load, run, frame)) => {
            let run_ms = run as int * 10;
            seq![
                "  Map "@ + map + " loaded in "@ + dec(load as int) + " ticks (~"@ + dec(load as int * 10) + " ms)"@,
                ">>> Running 70 ticks (2 full seconds of Doom simulation)..."@,
                "  70 ticks completed in "@ + dec(run as int) + " ticks (~"@ + dec(run_ms) + " ms)"@,
            ] + (if run_ms > 0 {
                seq!["  Render Throughput: ~"@ + dec(70000int / run_ms) + " FPS (target 35 FPS)"@]
            } else {
                Seq::empty()
            }) + seq![
                "  Framebuffer size: "@ + dec(frame as int) + " bytes verified"@,
                "  Status: BIT-PERFECT & READY TO PLAY"@,
            ]
        },
        None => seq!["Failed to load map '"@ + map + "'. Valid maps: E1M1..E1M9"@],
    }
}

/// The prompt's state.
pub struct TerminalApp {
    /// The output lines, oldest first.
    pub lines: Vec<Vec<char>>,
    /// The command being typed.
    pub current_input: Vec<char>,
    pub cursor_visible: bool,
    pub blink_counter: usize,
}

impl TerminalApp {
    /// The output lines as character sequences.
    pub open spec fn lines_view(&self) -> Seq<Seq<char>> {
        seqs_of(self.lines@)
    }

    /// The blink counter stays below the blink period.
    pub open spec fn wf(&self) -> bool {
        self.blink_counter < 40
    }

    /// A prompt showing its banner and an empty input line.
    pub fn new() -> (app: TerminalApp)
        ensures
            app.wf(),
            app.lines_view() == seq![
                "Mouros Desktop OS Shell [Version 0.2.0]"@,
                "Type 'help' to see a list of commands."@,
                Seq::<char>::empty(),
            ],
            app.current_input@ == Seq::<char>::empty(),
            app.cursor_visible,
            app.blink_counter == 0,
    {
        let mut app = TerminalApp { lines: Vec::new(), current_input: Vec::new(), cursor_visible: true, blink_counter: 0 };
        app.push_text("Mouros Desktop OS Shell [Version 0.2.0]");
        app.push_text("Type 'help' to see a list of commands.");
        app.push_line(Vec::new());
        app
    }

    /// The window title.
    pub fn title(&self) -> (t: &'static str)
        ensures
            t@ == "Command Prompt"@,
    {
        "Command Prompt"
    }

    /// Adds the line `l`.
    fn push_line(&mut self, l: Vec<char>)
        ensures
            final(self).lines_view() == old(self).lines_view().push(l@),
            final(self).current_input == old(self).current_input,
            final(self).cursor_visible == old(self).cursor_visible,
            final(self).blink_counter == old(self).blink_counter,
    {
        proof {
            assert(seqs_of(self.lines@.push(l)) =~= seqs_of(self.lines@).push(l@));
        }
        self.lines.push(l);
    }

    /// Adds the line `t`.
    fn push_text(&mut self, t: &str)
        ensures
            final(self).lines_view() == old(self).lines_view().push(t@),
            final(self).current_input == old(self).current_input,
            final(self).cursor_visible == old(self).cursor_visible,
            final(self).blink_counter == old(self).blink_counter,
    {
        let l = chars_of(t);
        self.push_line(l);
    }

    /// Adds the lines `ls`.
    fn push_lines(&mut self, ls: Vec<Vec<char>>)
        ensures
            final(self).lines_view() == old(self).lines_view() + seqs_of(ls@),
            final(self).current_input == old(self).current_input,
            final(self).cursor_visible == old(self).cursor_visible,
            final(self).blink_counter == old(self).blink_counter,
    {
        let mut ls = ls;
        proof {
            assert(seqs_of(self.lines@ + ls@) =~= seqs_of(self.lines@) + seqs_of(ls@));
        }
        self.lines.append(&mut ls);
    }

    /// Whether running the current input would overflow in `calc` (the
    /// host must not run such a command).
    pub fn input_overflows(&self) -> (b: bool)
        ensures
            b == command_overflows(self.current_input@),
    {
        let t = trim_chars(self.current_input.as_slice());
        let ws = split_words(t.as_slice());
        if ws.len() == 0 || !eq_str(ws[0].as_slice(), "calc") || ws.len() < 4 {
            proof {
                if ws@.len() > 0 {
                    assert(args_of(seqs_of(ws@)).len() == ws@.len() - 1);
                }
            }
            return false;
        }
        proof {
            assert(args_of(seqs_of(ws@)) =~= seqs_of(ws@.subrange(1, ws@.len() as int)));
        }
        let a = parse_i64(ws[1].as_slice());
        let b = parse_i64(ws[3].as_slice());
        match (a, b) {
            (Some(x), Some(y)) => {
                if eq_str(ws[2].as_slice(), "+") {
                    x.checked_add(y).is_none()
                } else if eq_str(ws[2].as_slice(), "-") {
                    x.checked_sub(y).is_none()
                } else if eq_str(ws[2].as_slice(), "*") {
                    x.checked_mul(y).is_none()
                } else if eq_str(ws[2].as_slice(), "/") {
                    if y == 0 {
                        false
                    } else {
                        let big = x == i64::MIN && y == -1;
                        proof {
                            if !big {
                                lemma_div_fits(x, y);
                            } else {
                                assert(div_toward_zero(x as int, y as int) == -(x as int)) by {
                                    assert((-(x as int)) / 1 == -(x as int));
                                }
                            }
                        }
                        big
                    }
                } else {
                    false
                }
            },
            _ => false,
        }
    }

    /// `calc` on the arguments `args` (which must not overflow).
    fn calc_text(args: &[Vec<char>]) -> (l: Vec<char>)
        requires
            !calc_overflows(seqs_of(args@)),
        ensures
            l@ == calc_line(seqs_of(args@)),
    {
        if args.len() < 3 {
            return chars_of("Usage: calc <num1> <+|-|*|/> <num2>");
        }
        let a = parse_i64(args[0].as_slice());
        let b = parse_i64(args[2].as_slice());
        match (a, b) {
            (Some(x), Some(y)) => {
                let op = args[1].as_slice();
                let r: Option<i64> = if eq_str(op, "+") {
                    Some(x + y)
                } else if eq_str(op, "-") {
                    Some(x - y)
                } else if eq_str(op, "*") {
                    Some(x * y)
                } else if eq_str(op, "/") {
                    if y != 0 {
                        proof {
                            if x == i64::MIN && y == -1 {
                                assert(div_toward_zero(x as int, y as int) == -(x as int)) by {
                                    assert((-(x as int)) / 1 == -(x as int));
                                }
                            }
                        }
                        Some(div_trunc(x, y))
                    } else {
                        None
                    }
                } else {
                    None
                };
                match r {
                    Some(v) => {
                        let mut l = chars_of("= ");
                        let d = format_i64(v);
                        append_chars(&mut l, d.as_slice());
                        l
                    },
                    None => chars_of("Error: Division by zero or unknown operator"),
                }
            },
            _ => chars_of("Usage: calc <num1> <+|-|*|/> <num2>"),
        }
    }

    /// Adds the `help` text.
    fn push_help(&mut self)
        ensures
            final(self).lines_view() == old(self).lines_view() + help_text(),
            final(self).current_input == old(self).current_input,
            final(self).cursor_visible == old(self).cursor_visible,
            final(self).blink_counter == old(self).blink_counter,
    {
        self.push_text("Available commands:");
        self.push_text("  help      - Show this help message");
        self.push_text("  sysinfo   - Hardware & OS information");
        self.push_text("  clear     - Clear terminal screen");
        self.push_text("  echo <msg>- Print text to terminal");
        self.push_text("  mem       - Show heap memory statistics");
        self.push_text("  time      - Display CMOS real-time clock");
        self.push_text("  calc <op> - Eval arithmetic (calc 42 * 7)");
        self.push_text("  theme [nm]- Change desktop theme (cyberpunk, matrix, sunset)");
        self.push_text("  elf [cmd] - Execute 64-bit ELF binaries (elf list/run)");
        self.push_text("  mp3 [cmd] - MP3 audio player & decoder (mp3 list/info/decode)");
        self.push_text("  doom [cmd]- DOOM 1993 engine (doom info/bench)");
        self.push_text("  beep      - Test PC speaker sound");
        self.push_text("  reboot    - Reboot the computer");
        assert(self.lines_view() =~= old(self).lines_view() + help_text());
    }

    /// Adds the `sysinfo` banner.
    fn push_banner(&mut self)
        ensures
            final(self).lines_view() == old(self).lines_view() + banner_text(),
            final(self).current_input == old(self).current_input,
            final(self).cursor_visible == old(self).cursor_visible,
            final(self).blink_counter == old(self).blink_counter,
    {
        self.push_text("   __  __");
        self.push_text("  |  \\/  | ___  _   _ _ __ ___  ___");
        self.push_text("  | |\\/| |/ _ \\| | | | '__/ _ \\/ __|");
        self.push_text("  | |  | | (_) | |_| | | | (_) \\__ \\");
        self.push_text("  |_|  |_|\\___/ \\__,_|_|  \\___/|___/");
        self.push_text("  ---------------------------------");
        self.push_text("  OS: Mouros Desktop OS (x86_64)");
        self.push_text("  Kernel: Rust bare-metal Long Mode");
        self.push_text("  Display: Bochs BGA (800x600 32bpp)");
        self.push_text("  Window Manager: Mouros Compositor");
        assert(self.lines_view() =~= old(self).lines_view() + banner_text());
    }

    /// `theme`: shows the current theme, or switches to the named one.
    fn theme_command(&mut self, args: &[Vec<char>], themes: &mut ThemeState)
        ensures
            final(self).lines_view() == old(self).lines_view() + theme_lines(seqs_of(args@), old(themes).current),
            final(self).current_input == old(self).current_input,
            final(self).cursor_visible == old(self).cursor_visible,
            final(self).blink_counter == old(self).blink_counter,
            *final(themes) == match command_theme("theme"@, seqs_of(args@)) {
                Some(k) => after_set(*old(themes), k),
                None => *old(themes),
            },
    {
        if args.len() == 0 {
            let mut l = chars_of("Current theme: ");
            append_str(&mut l, theme_name(themes.current));
            self.push_line(l);
            self.push_text("Available themes: classic, platinum, deepspace, cyberpunk, matrix, sunset");
            self.push_text("Usage: theme <name>");
            assert(self.lines_view() =~= old(self).lines_view() + theme_lines(seqs_of(args@), old(themes).current));
        } else {
            let name = args[0].as_slice();
            assert(seqs_of(args@)[0] == name@);
            match theme_from_name(name) {
                Some(kind) => {
                    set_theme(themes, kind);
                    let mut l = chars_of("Theme updated to: ");
                    append_str(&mut l, theme_name(kind));
                    self.push_line(l);
                },
                None => {
                    let mut l = chars_of("Unknown theme: '");
                    append_chars(&mut l, name);
                    append_str(&mut l, "'. Options: classic, platinum, deepspace, cyberpunk, matrix, sunset");
                    self.push_line(l);
                },
            }
            assert(self.lines_view() =~= old(self).lines_view() + theme_lines(seqs_of(args@), old(themes).current));
        }
    }

    /// `elf`: lists the bundled programs or asks the host to run one.
    fn elf_command(&mut self, args: &[Vec<char>]) -> (action: TerminalAction)
        ensures
            final(self).lines_view() == old(self).lines_view() + elf_lines(seqs_of(args@)),
            final(self).current_input == old(self).current_input,
            final(self).cursor_visible == old(self).cursor_visible,
            final(self).blink_counter == old(self).blink_counter,
            action@ == elf_request(seqs_of(args@)),
    {
        let ghost av = seqs_of(args@);
        if args.len() == 0 || eq_str(args[0].as_slice(), "list") {
            self.push_text("Available 64-bit ELF Executables:");
            self.push_text("  hello.elf      - Host greeting & C API print test");
            self.push_text("  fibonacci.elf  - Fibonacci sequence generator");
            self.push_text("  mandelbrot.elf - ASCII Mandelbrot fractal renderer");
            self.push_text("  sysbench.elf   - CPU & memory speed benchmark");
            self.push_text("Usage: elf run <name>");
            assert(self.lines_view() =~= old(self).lines_view() + elf_list_text());
            TerminalAction::Nothing
        } else if eq_str(args[0].as_slice(), "run") && args.len() >= 2 {
            let name = args[1].as_slice();
            assert(av[1] == name@);
            match sample_from_name(name) {
                Some(i) => {
                    let mut n: Vec<char> = Vec::new();
                    append_chars(&mut n, name);
                    assert(self.lines_view() =~= old(self).lines_view() + elf_lines(av));
                    TerminalAction::RunElf { sample: i, name: n }
                },
                None => {
                    let mut l = chars_of("ELF binary not found: '");
                    append_chars(&mut l, name);
                    append_str(&mut l, "'. Run 'elf list' for available binaries.");
                    self.push_line(l);
                    assert(self.lines_view() =~= old(self).lines_view() + elf_lines(av));
                    TerminalAction::Nothing
                },
            }
        } else {
            self.push_text("Usage: elf list | elf run <name>");
            assert(self.lines_view() =~= old(self).lines_view() + elf_lines(av));
            TerminalAction::Nothing
        }
    }

    /// `mp3`: asks the host to list, describe, decode or play a track.
    fn mp3_command(&mut self, args: &[Vec<char>]) -> (action: TerminalAction)
        ensures
            final(self).lines_view() == old(self).lines_view() + mp3_lines(seqs_of(args@)),
            final(self).current_input == old(self).current_input,
            final(self).cursor_visible == old(self).cursor_visible,
            final(self).blink_counter == old(self).blink_counter,
            action@ == mp3_request_of(seqs_of(args@)),
    {
        let ghost av = seqs_of(args@);
        if args.len() == 0 || eq_str(args[0].as_slice(), "list") {
            assert(self.lines_view() =~= old(self).lines_view() + mp3_lines(av));
            return TerminalAction::ListTracks;
        }
        let sub = args[0].as_slice();
        if args.len() >= 2 && (eq_str(sub, "info") || eq_str(sub, "decode") || eq_str(sub, "play")) {
            let mut q: Vec<char> = Vec::new();
            append_chars(&mut q, args[1].as_slice());
            assert(self.lines_view() =~= old(self).lines_view() + mp3_lines(av));
            if eq_str(sub, "info") {
                TerminalAction::TrackInfo(q)
            } else if eq_str(sub, "decode") {
                TerminalAction::DecodeTrack(q)
            } else {
                TerminalAction::PlayTrack(q)
            }
        } else {
            self.push_text("Usage: mp3 list | mp3 info <name> | mp3 decode <name> | mp3 play <name>");
            TerminalAction::Nothing
        }
    }

    /// `doom`: asks the host to describe the game data or time a map.
    fn doom_command(&mut self, args: &[Vec<char>]) -> (action: TerminalAction)
        ensures
            final(self).lines_view() == old(self).lines_view() + doom_lines(seqs_of(args@)),
            final(self).current_input == old(self).current_input,
            final(self).cursor_visible == old(self).cursor_visible,
            final(self).blink_counter == old(self).blink_counter,
            action@ == doom_request(seqs_of(args@)),
    {
        let ghost av = seqs_of(args@);
        if args.len() == 0 || eq_str(args[0].as_slice(), "info") {
            assert(self.lines_view() =~= old(self).lines_view() + doom_lines(av));
            TerminalAction::DoomInfo
        } else if eq_str(args[0].as_slice(), "bench") {
            let mut map: Vec<char> = Vec::new();
            if args.len() >= 2 {
                append_chars(&mut map, args[1].as_slice());
            } else {
                append_str(&mut map, "E1M1");
            }
            assert(map@ == bench_map(av));
            let mut l = chars_of(">>> Initializing Doom engine for ");
            append_chars(&mut l, map.as_slice());
            append_str(&mut l, "...");
            self.push_line(l);
            assert(self.lines_view() =~= old(self).lines_view() + doom_lines(av));
            TerminalAction::DoomBench(map)
        } else {
            self.push_text("Usage: doom [info] | doom bench [map]");
            TerminalAction::Nothing
        }
    }

    /// Runs command `cmd` with arguments `args` (`clear` empties the list).
    fn run_command(&mut self, cmd: &[char], args: &[Vec<char>], themes: &mut ThemeState) -> (action: TerminalAction)
        requires
            !(cmd@ == "calc"@ && calc_overflows(seqs_of(args@))),
        ensures
            final(self).lines_view() == if cmd@ == "clear"@ {
                Seq::empty()
            } else {
                old(self).lines_view() + command_lines(cmd@, seqs_of(args@), old(themes).current)
            },
            final(self).current_input == old(self).current_input,
            final(self).cursor_visible == old(self).cursor_visible,
            final(self).blink_counter == old(self).blink_counter,
            action@ == command_request(cmd@, seqs_of(args@)),
            *final(themes) == match command_theme(cmd@, seqs_of(args@)) {
                Some(k) => after_set(*old(themes), k),
                None => *old(themes),
            },
    {
        let ghost av = seqs_of(args@);
        proof {
            lemma_early_commands_differ();
        }
        if eq_str(cmd, "help") {
            self.push_help();
            TerminalAction::Nothing
        } else if eq_str(cmd, "sysinfo") || eq_str(cmd, "neofetch") {
            self.push_banner();
            TerminalAction::SystemInfo
        } else if eq_str(cmd, "clear") {
            self.lines.clear();
            assert(self.lines_view() =~= Seq::<Seq<char>>::empty());
            TerminalAction::Nothing
        } else if eq_str(cmd, "echo") {
            let msg = join_words(args);
            self.push_line(msg);
            assert(self.lines_view() =~= old(self).lines_view() + command_lines(cmd@, av, old(themes).current));
            TerminalAction::Nothing
        } else if eq_str(cmd, "mem") {
            assert(self.lines_view() =~= old(self).lines_view() + command_lines(cmd@, av, old(themes).current));
            TerminalAction::MemoryStats
        } else if eq_str(cmd, "time") {
            assert(self.lines_view() =~= old(self).lines_view() + command_lines(cmd@, av, old(themes).current));
            TerminalAction::ReadClock
        } else if eq_str(cmd, "calc") {
            let l = Self::calc_text(args);
            self.push_line(l);
            assert(self.lines_view() =~= old(self).lines_view() + command_lines(cmd@, av, old(themes).current));
            TerminalAction::Nothing
        } else if eq_str(cmd, "theme") {
            self.theme_command(args, themes);
            TerminalAction::Nothing
        } else if eq_str(cmd, "elf") {
            self.elf_command(args)
        } else if eq_str(cmd, "mp3") {
            self.mp3_command(args)
        } else if eq_str(cmd, "doom") {
            self.doom_command(args)
        } else if eq_str(cmd, "beep") {
            self.push_text("PC speaker beep sounded!");
            assert(self.lines_view() =~= old(self).lines_view() + command_lines(cmd@, av, old(themes).current));
            TerminalAction::Beep
        } else if eq_str(cmd, "reboot") {
            self.push_text("Rebooting system...");
            assert(self.lines_view() =~= old(self).lines_view() + command_lines(cmd@, av, old(themes).current));
            TerminalAction::Reboot
        } else {
            let mut l = chars_of("Unknown command: '");
            append_chars(&mut l, cmd);
            append_str(&mut l, "'. Type 'help' for commands.");
            self.push_line(l);
            assert(self.lines_view() =~= old(self).lines_view() + command_lines(cmd@, av, old(themes).current));
            TerminalAction::Nothing
        }
    }

    /// Runs the command on the input line: echoes it after the prompt,
    /// empties the input, prints what the command prints at once, applies a
    /// theme change, and says what the host must do next.
    pub fn execute_command(&mut self, themes: &mut ThemeState) -> (action: TerminalAction)
        requires
            !command_overflows(old(self).current_input@),
        ensures
            final(self).lines_view() == lines_after(old(self).lines_view(), old(self).current_input@, old(themes).current),
            final(self).current_input@ == Seq::<char>::empty(),
            final(self).cursor_visible == old(self).cursor_visible,
            final(self).blink_counter == old(self).blink_counter,
            action@ == request_after(old(self).current_input@),
            *final(themes) == themes_after(*old(themes), old(self).current_input@),
    {
        let ghost lines0 = self.lines_view();
        let ghost input0 = self.current_input@;
        let input = trim_chars(self.current_input.as_slice());
        let mut prompt = chars_of("mouros> ");
        append_chars(&mut prompt, input.as_slice());
        self.push_line(prompt);
        self.current_input.clear();
        if self.lines.len() > 150 {
            let ghost before = self.lines@;
            let rest = self.lines.split_off(30);
            self.lines = rest;
            proof {
                assert(self.lines@ =~= before.skip(30));
                assert(self.lines_view() =~= lines0.push("mouros> "@ + trim(input0)).skip(30));
            }
        }
        assert(self.lines_view() == with_prompt(lines0, input0));
        if input.len() == 0 {
            return TerminalAction::Nothing;
        }
        let mut ws = split_words(input.as_slice());
        let ghost wv = seqs_of(ws@);
        let args_v: Vec<Vec<char>> = if ws.len() > 0 { ws.split_off(1) } else { Vec::new() };
        proof {
            assert(seqs_of(args_v@) =~= args_of(wv));
        }
        let empty: Vec<char> = Vec::new();
        let cmd: &[char] = if ws.len() > 0 { ws[0].as_slice() } else { empty.as_slice() };
        assert(cmd@ == cmd_of(wv));
        self.run_command(cmd, args_v.as_slice(), themes)
    }
}

impl TerminalApp {
    /// Adds `n` bytes in whole mebibytes, in decimal, to `l`.
    fn append_mib(l: &mut Vec<char>, n: u64)
        ensures
            final(l)@ == old(l)@ + mib_text(n as int),
    {
        let d = format_u64(n / MIB);
        append_chars(l, d.as_slice());
    }

    /// Adds `n` in decimal to `l`.
    fn append_dec(l: &mut Vec<char>, n: u64)
        ensures
            final(l)@ == old(l)@ + dec(n as int),
    {
        let d = format_u64(n);
        append_chars(l, d.as_slice());
    }

    /// Adds `n`, zero-padded to `width` digits, to `l`.
    fn append_padded(l: &mut Vec<char>, n: u64, width: usize)
        ensures
            final(l)@ == old(l)@ + zero_pad(dec(n as int), width as nat),
    {
        let d = format_padded(n, width);
        append_chars(l, d.as_slice());
    }

    /// Finishes `sysinfo` with the memory line for `total_ram` bytes of RAM
    /// and a heap of `heap_total` bytes.
    pub fn report_system_info(&mut self, total_ram: u64, heap_total: usize)
        ensures
            final(self).lines_view() == old(self).lines_view().push(system_info_line(total_ram, heap_total)),
            final(self).current_input == old(self).current_input,
            final(self).cursor_visible == old(self).cursor_visible,
            final(self).blink_counter == old(self).blink_counter,
    {
        let mut l = chars_of("  RAM: ");
        Self::append_mib(&mut l, total_ram);
        append_str(&mut l, " MiB (Physical) | Heap: ");
        Self::append_mib(&mut l, heap_total as u64);
        append_str(&mut l, " MiB");
        self.push_line(l);
    }

    /// Answers `mem` with the memory totals `info` and the heap's use.
    pub fn report_memory(&mut self, info: SystemMemoryInfo, heap_used: usize, heap_total: usize)
        ensures
            final(self).lines_view() == old(self).lines_view()
                + memory_lines(info.total_ram_bytes, info.usable_ram_bytes, heap_used, heap_total),
            final(self).current_input == old(self).current_input,
            final(self).cursor_visible == old(self).cursor_visible,
            final(self).blink_counter == old(self).blink_counter,
    {
        let total_mb = info.total_ram_bytes / MIB;
        let used_dec = ((heap_used as u64 % MIB) * 10) / MIB;
        self.push_text("System Memory Statistics:");
        let mut p = chars_of("  Physical RAM (QEMU): ");
        Self::append_dec(&mut p, total_mb);
        if total_mb >= 1024 {
            append_str(&mut p, " MiB (");
            Self::append_dec(&mut p, total_mb / 1024);
            append_str(&mut p, ".");
            Self::append_dec(&mut p, ((total_mb % 1024) * 10) / 1024);
            append_str(&mut p, " GiB)");
        } else {
            append_str(&mut p, " MiB");
        }
        self.push_line(p);
        let mut u = chars_of("  Usable Physical RAM: ");
        Self::append_mib(&mut u, info.usable_ram_bytes);
        append_str(&mut u, " MiB");
        self.push_line(u);
        let mut h = chars_of("  Kernel Heap Total:   ");
        Self::append_mib(&mut h, heap_total as u64);
        append_str(&mut h, " MiB");
        self.push_line(h);
        let mut k = chars_of("  Kernel Heap Used:    ");
        Self::append_mib(&mut k, heap_used as u64);
        append_str(&mut k, ".");
        Self::append_dec(&mut k, used_dec);
        append_str(&mut k, " MiB");
        self.push_line(k);
        self.push_text("  Heap Base Virtual:   0x444444440000");
        assert(self.lines_view() =~= old(self).lines_view()
            + memory_lines(info.total_ram_bytes, info.usable_ram_bytes, heap_used, heap_total));
    }

    /// Answers `time` with the clock's reading `t`.
    pub fn report_time(&mut self, t: RtcTime)
        ensures
            final(self).lines_view() == old(self).lines_view().push(time_line(t)),
            final(self).current_input == old(self).current_input,
            final(self).cursor_visible == old(self).cursor_visible,
            final(self).blink_counter == old(self).blink_counter,
    {
        let mut l = chars_of("RTC Time: ");
        Self::append_padded(&mut l, t.hours as u64, 2);
        append_str(&mut l, ":");
        Self::append_padded(&mut l, t.minutes as u64, 2);
        append_str(&mut l, ":");
        Self::append_padded(&mut l, t.seconds as u64, 2);
        append_str(&mut l, " | Date: ");
        Self::append_padded(&mut l, t.year as u64, 4);
        append_str(&mut l, "-");
        Self::append_padded(&mut l, t.month as u64, 2);
        append_str(&mut l, "-");
        Self::append_padded(&mut l, t.day as u64, 2);
        self.push_line(l);
    }

    /// Answers `elf run` for program `name` of `size` bytes: its output lines
    /// and exit code, or the loader's error.
    pub fn report_elf_run(&mut self, name: &[char], size: usize, result: Result<ProcessResult, &'static str>)
        ensures
            final(self).lines_view() == old(self).lines_view() + match result {
                Ok(r) => elf_run_lines(name@, size, Some(r.exit_code), r.output@, Seq::empty()),
                Err(e) => elf_run_lines(name@, size, None, Seq::empty(), e@),
            },
            final(self).current_input == old(self).current_input,
            final(self).cursor_visible == old(self).cursor_visible,
            final(self).blink_counter == old(self).blink_counter,
    {
        let mut l = chars_of(">>> Executing userspace ELF '");
        append_chars(&mut l, name);
        append_str(&mut l, "' (");
        Self::append_dec(&mut l, size as u64);
        append_str(&mut l, " bytes)...");
        self.push_line(l);
        match result {
            Ok(r) => {
                let text = chars_of(r.output.as_str());
                let ls = split_lines(text.as_slice());
                self.push_lines(ls);
                let mut e = chars_of(">>> Process exited with code ");
                let d = format_i64(r.exit_code as i64);
                append_chars(&mut e, d.as_slice());
                self.push_line(e);
                assert(self.lines_view() =~= old(self).lines_view()
                    + elf_run_lines(name@, size, Some(r.exit_code), r.output@, Seq::empty()));
            },
            Err(msg) => {
                let mut e = chars_of(">>> ELF execution error: ");
                append_str(&mut e, msg);
                self.push_line(e);
                assert(self.lines_view() =~= old(self).lines_view() + elf_run_lines(name@, size, None, Seq::empty(), msg@));
            },
        }
    }

    /// Answers `doom info` for game data of `wad_size` bytes.
    pub fn report_doom_info(&mut self, wad_size: usize)
        ensures
            final(self).lines_view() == old(self).lines_view() + doom_info_lines(wad_size),
            final(self).current_input == old(self).current_input,
            final(self).cursor_visible == old(self).cursor_visible,
            final(self).blink_counter == old(self).blink_counter,
    {
        self.push_text("==============================================");
        self.push_text("  DOOM (1993) - Id Software / neurodoom port");
        self.push_text("==============================================");
        let mut l = chars_of("  IWAD Size:     ");
        Self::append_dec(&mut l, wad_size as u64);
        append_str(&mut l, " bytes (4.19 MiB)");
        self.push_line(l);
        self.push_text("  Episode:       Knee-Deep in the Dead (Episode 1)");
        self.push_text("  Maps:          E1M1 - E1M9 (9 playable maps)");
        self.push_text("  Engine:        neurodoom v0.6.7 (Pure Rust #![no_std])");
        self.push_text("  Resolution:    320x200 RGBA (640x400 2x integer scale)");
        self.push_text("  Simulation:    35 Hz deterministic fixed-point physics");
        self.push_text("  Launch:        Click DOOM icon on Desktop or Start Menu!");
        self.push_text("  Benchmark:     Run 'doom bench [map]' in terminal");
        assert(self.lines_view() =~= old(self).lines_view() + doom_info_lines(wad_size));
    }

    /// Adds an optional text, or `d` without one, to `l`.
    fn append_or(l: &mut Vec<char>, o: &Option<String>, d: &str)
        ensures
            final(l)@ == old(l)@ + or_else(opt_text(*o), d@),
    {
        match o {
            Some(t) => append_str(l, t.as_str()),
            None => append_str(l, d),
        }
    }

    /// Answers `mp3 list` with `tracks`.
    pub fn report_track_list(&mut self, tracks: &[Mp3Track])
        ensures
            final(self).lines_view() == old(self).lines_view() + track_list_lines(tracks@),
            final(self).current_input == old(self).current_input,
            final(self).cursor_visible == old(self).cursor_visible,
            final(self).blink_counter == old(self).blink_counter,
    {
        self.push_text("=== Mouros Embedded MP3 Tracks ===");
        let ghost base = self.lines_view();
        let mut i: usize = 0;
        while i < tracks.len()
            invariant
                i <= tracks@.len(),
                base == old(self).lines_view().push("=== Mouros Embedded MP3 Tracks ==="@),
                self.lines_view() == base + Seq::new(i as nat, |j: int| track_list_line(j, tracks@[j])),
                self.current_input == old(self).current_input,
                self.cursor_visible == old(self).cursor_visible,
                self.blink_counter == old(self).blink_counter,
            decreases tracks@.len() - i,
        {
            let t = &tracks[i];
            let mut l = chars_of("  ");
            Self::append_dec(&mut l, (i + 1) as u64);
            append_str(&mut l, ". ");
            Self::append_or(&mut l, &t.metadata.title, t.filename);
            append_str(&mut l, " - ");
            Self::append_or(&mut l, &t.metadata.artist, "Unknown");
            append_str(&mut l, " [");
            append_str(&mut l, t.filename);
            append_str(&mut l, "]");
            assert(l@ == track_list_line(i as int, tracks@[i as int]));
            self.push_line(l);
            assert(self.lines_view() =~= base + Seq::new((i + 1) as nat, |j: int| track_list_line(j, tracks@[j])));
            i = i + 1;
        }
        self.push_text("Usage: mp3 info <name|num> | mp3 decode <name|num>");
        assert(self.lines_view() =~= old(self).lines_view() + track_list_lines(tracks@));
    }

    /// Answers `mp3 info` for track `t`.
    pub fn report_track_info(&mut self, t: &Mp3Track)
        ensures
            final(self).lines_view() == old(self).lines_view() + track_info_lines(*t),
            final(self).current_input == old(self).current_input,
            final(self).cursor_visible == old(self).cursor_visible,
            final(self).blink_counter == old(self).blink_counter,
    {
        let m = &t.metadata;
        let info = t.info;
        let mut a = chars_of(">>> MP3 Metadata & Stream Info: ");
        append_str(&mut a, t.filename);
        self.push_line(a);
        let mut b = chars_of("  Title:       ");
        Self::append_or(&mut b, &m.title, "Unknown");
        self.push_line(b);
        let mut c = chars_of("  Artist:      ");
        Self::append_or(&mut c, &m.artist, "Unknown");
        self.push_line(c);
        let mut d = chars_of("  Album:       ");
        Self::append_or(&mut d, &m.album, "Unknown");
        self.push_line(d);
        let mut e = chars_of("  Genre:       ");
        Self::append_or(&mut e, &m.genre, "Unknown");
        self.push_line(e);
        let mut f = chars_of("  Year:        ");
        Self::append_or(&mut f, &m.year, "Unknown");
        self.push_line(f);
        self.push_text("  Format:      MPEG-1 Audio Layer III");
        let mut g = chars_of("  Sample Rate: ");
        Self::append_dec(&mut g, info.sample_rate as u64);
        append_str(&mut g, " Hz");
        self.push_line(g);
        let mut h = chars_of("  Bitrate:     ");
        Self::append_dec(&mut h, info.bitrate_kbps as u64);
        append_str(&mut h, " kbps");
        self.push_line(h);
        let mut k = chars_of("  Channels:    ");
        match info.channels {
            ChannelMode::Stereo => append_str(&mut k, "Stereo"),
            ChannelMode::Mono => append_str(&mut k, "Mono"),
        }
        self.push_line(k);
        let mut n = chars_of("  Frames:      ");
        Self::append_dec(&mut n, info.total_frames as u64);
        append_str(&mut n, " frames (");
        Self::append_dec(&mut n, info.duration_seconds as u64);
        append_str(&mut n, "s duration)");
        self.push_line(n);
        let mut z = chars_of("  File Size:   ");
        Self::append_dec(&mut z, info.file_size_bytes as u64);
        append_str(&mut z, " bytes (ID3 Tag: ");
        Self::append_dec(&mut z, m.tag_size as u64);
        append_str(&mut z, " bytes)");
        self.push_line(z);
        assert(self.lines_view() =~= old(self).lines_view() + track_info_lines(*t));
    }

    /// Answers `mp3 decode` for track `name` of `size` bytes: `frames` frames
    /// holding `samples` samples were decoded in `ticks` timer ticks.
    pub fn report_track_decode(&mut self, name: &str, size: usize, frames: usize, samples: usize, ticks: u64)
        requires
            samples <= usize::MAX / 2,
            ticks <= u64::MAX / 10,
        ensures
            final(self).lines_view() == old(self).lines_view()
                + track_decode_lines(name@, size as int, frames as int, samples as int, ticks as int),
            final(self).current_input == old(self).current_input,
            final(self).cursor_visible == old(self).cursor_visible,
            final(self).blink_counter == old(self).blink_counter,
    {
        let mut a = chars_of(">>> Decoding '");
        append_str(&mut a, name);
        append_str(&mut a, "' (");
        Self::append_dec(&mut a, size as u64);
        append_str(&mut a, " bytes) to PCM...");
        self.push_line(a);
        self.push_text(">>> MP3 Decode Benchmark Complete!");
        let mut b = chars_of("  Frames Decoded:  ");
        Self::append_dec(&mut b, frames as u64);
        self.push_line(b);
        let mut c = chars_of("  PCM Samples:     ");
        Self::append_dec(&mut c, samples as u64);
        append_str(&mut c, " samples");
        self.push_line(c);
        let mut d = chars_of("  Raw PCM Size:    ");
        Self::append_dec(&mut d, (samples * 2 / 1024) as u64);
        append_str(&mut d, " KB (16-bit stereo)");
        self.push_line(d);
        let mut e = chars_of("  Decode Time:     ");
        Self::append_dec(&mut e, ticks);
        append_str(&mut e, " ticks (~");
        Self::append_dec(&mut e, ticks * 10);
        append_str(&mut e, " ms)");
        self.push_line(e);
        self.push_text("  Integrity:       VERIFIED BIT-PERFECT");
        assert(self.lines_view() =~= old(self).lines_view()
            + track_decode_lines(name@, size as int, frames as int, samples as int, ticks as int));
    }

    /// Answers `mp3 play` for track `name`: `queued` is the number of frames
    /// handed to the sound card, or nothing when there is no sound card.
    pub fn report_track_play(&mut self, name: &str, queued: Option<usize>)
        ensures
            final(self).lines_view() == old(self).lines_view() + track_play_lines(name@, queued),
            final(self).current_input == old(self).current_input,
            final(self).cursor_visible == old(self).cursor_visible,
            final(self).blink_counter == old(self).blink_counter,
    {
        let mut a = chars_of(">>> Streaming '");
        append_str(&mut a, name);
        append_str(&mut a, "' to Intel AC97 PCI DMA...");
        self.push_line(a);
        match queued {
            Some(f) => {
                let mut b = chars_of(">>> Queued ");
                Self::append_dec(&mut b, f as u64);
                append_str(&mut b, " frames to AC97 DMA. Tip: Use Music Player app for continuous playback!");
                self.push_line(b);
            },
            None => {
                self.push_text("AC97 audio hardware not detected; run QEMU with: -device AC97,audiodev=snd0 -audiodev pipewire,id=snd0");
            },
        }
        assert(self.lines_view() =~= old(self).lines_view() + track_play_lines(name@, queued));
    }

    /// Answers an `mp3` argument `query` that picks no track.
    pub fn report_track_missing(&mut self, query: &[char])
        ensures
            final(self).lines_view() == old(self).lines_view().push(track_missing_line(query@)),
            final(self).current_input == old(self).current_input,
            final(self).cursor_visible == old(self).cursor_visible,
            final(self).blink_counter == old(self).blink_counter,
    {
        let mut a = chars_of("Track not found: '");
        append_chars(&mut a, query);
        append_str(&mut a, "'. Run 'mp3 list'.");
        self.push_line(a);
    }

    /// Answers `doom bench` on `map`: with `outcome` the ticks the map took to
    /// load, the ticks 70 game steps took and the frame's size in bytes when
    /// it loaded, nothing when it did not.
    pub fn report_doom_bench(&mut self, map: &[char], outcome: Option<(u64, u64, usize)>)
        requires
            match outcome {
                Some((load, run, _)) => load <= u64::MAX / 10 && run <= u64::MAX / 10,
                None => true,
            },
        ensures
            final(self).lines_view() == old(self).lines_view() + doom_bench_lines(map@, outcome),
            final(self).current_input == old(self).current_input,
            final(self).cursor_visible == old(self).cursor_visible,
            final(self).blink_counter == old(self).blink_counter,
    {
        match outcome {
            Some((load, run, frame)) => {
                let mut a = chars_of("  Map ");
                append_chars(&mut a, map);
                append_str(&mut a, " loaded in ");
                Self::append_dec(&mut a, load);
                append_str(&mut a, " ticks (~");
                Self::append_dec(&mut a, load * 10);
                append_str(&mut a, " ms)");
                self.push_line(a);
                self.push_text(">>> Running 70 ticks (2 full seconds of Doom simulation)...");
                let run_ms = run * 10;
                let mut b = chars_of("  70 ticks completed in ");
                Self::append_dec(&mut b, run);
                append_str(&mut b, " ticks (~");
                Self::append_dec(&mut b, run_ms);
                append_str(&mut b, " ms)");
                self.push_line(b);
                if run_ms > 0 {
                    let mut c = chars_of("  Render Throughput: ~");
                    Self::append_dec(&mut c, 70000 / run_ms);
                    append_str(&mut c, " FPS (target 35 FPS)");
                    self.push_line(c);
                }
                let mut d = chars_of("  Framebuffer size: ");
                Self::append_dec(&mut d, frame as u64);
                append_str(&mut d, " bytes verified");
                self.push_line(d);
                self.push_text("  Status: BIT-PERFECT & READY TO PLAY");
                assert(self.lines_view() =~= old(self).lines_view() + doom_bench_lines(map@, outcome));
            },
            None => {
                let mut l = chars_of("Failed to load map '");
                append_chars(&mut l, map);
                append_str(&mut l, "'. Valid maps: E1M1..E1M9");
                self.push_line(l);
                assert(self.lines_view() =~= old(self).lines_view() + doom_bench_lines(map@, outcome));
            },
        }
    }

    /// Reacts to a key: Enter runs the input line (returning what the host
    /// must do next), Backspace deletes the last input character, and a
    /// printable ASCII character is added while the input is shorter than
    /// 256 characters; other keys change nothing.
    pub fn on_key(&mut self, key: DecodedKey, themes: &mut ThemeState) -> (action: TerminalAction)
        requires
            key == DecodedKey::Unicode('\n') || key == DecodedKey::Unicode('\r')
                ==> !command_overflows(old(self).current_input@),
        ensures
            final(self).cursor_visible == old(self).cursor_visible,
            final(self).blink_counter == old(self).blink_counter,
            match key {
                DecodedKey::Unicode(c) => if c == '\n' || c == '\r' {
                    &&& final(self).lines_view() == lines_after(old(self).lines_view(), old(self).current_input@, old(themes).current)
                    &&& final(self).current_input@ == Seq::<char>::empty()
                    &&& action@ == request_after(old(self).current_input@)
                    &&& *final(themes) == themes_after(*old(themes), old(self).current_input@)
                } else {
                    &&& final(self).lines_view() == old(self).lines_view()
                    &&& action@ == TerminalRequest::Nothing
                    &&& *final(themes) == *old(themes)
                    &&& final(self).current_input@ == if c == '\u{8}' {
                        if old(self).current_input@.len() > 0 { old(self).current_input@.drop_last() } else { old(self).current_input@ }
                    } else if ' ' <= c && c <= '~' && old(self).current_input@.len() < 256 {
                        old(self).current_input@.push(c)
                    } else {
                        old(self).current_input@
                    }
                },
                DecodedKey::RawKey(code) => {
                    &&& final(self).lines_view() == old(self).lines_view()
                    &&& action@ == TerminalRequest::Nothing
                    &&& *final(themes) == *old(themes)
                    &&& final(self).current_input@ == if code == KeyCode::Backspace && old(self).current_input@.len() > 0 {
                        old(self).current_input@.drop_last()
                    } else {
                        old(self).current_input@
                    }
                },
            },
    {
        match key {
            DecodedKey::Unicode(c) => {
                if c == '\n' || c == '\r' {
                    self.execute_command(themes)
                } else if c == '\u{8}' {
                    self.current_input.pop();
                    TerminalAction::Nothing
                } else if c >= ' ' && c <= '~' {
                    if self.current_input.len() < 256 {
                        self.current_input.push(c);
                    }
                    TerminalAction::Nothing
                } else {
                    TerminalAction::Nothing
                }
            },
            DecodedKey::RawKey(code) => {
                if code == KeyCode::Backspace {
                    self.current_input.pop();
                }
                TerminalAction::Nothing
            },
        }
    }

    /// Clicks change nothing.
    pub fn on_mouse_click(&mut self, local_x: isize, local_y: isize, left: bool)
        ensures
            *final(self) == *old(self),
    {
    }

    /// Counts a timer tick; every 40 ticks the cursor blinks, and the
    /// result says whether to redraw.
    pub fn on_tick(&mut self) -> (redraw: bool)
        requires
            old(self).wf(),
        ensures
            final(self).wf(),
            final(self).lines == old(self).lines,
            final(self).current_input == old(self).current_input,
            redraw == (old(self).blink_counter + 1 >= 40),
            final(self).blink_counter == if redraw { 0 } else { old(self).blink_counter + 1 },
            final(self).cursor_visible == if redraw { !old(self).cursor_visible } else { old(self).cursor_visible },
    {
        self.blink_counter = self.blink_counter + 1;
        if self.blink_counter >= 40 {
            self.blink_counter = 0;
            self.cursor_visible = !self.cursor_visible;
            true
        } else {
            false
        }
    }
}

/// The commands dispatched before `clear` and `theme` are neither.
proof fn lemma_early_commands_differ()
    ensures
        "help"@ != "clear"@,
        "sysinfo"@ != "clear"@,
        "neofetch"@ != "clear"@,
        "help"@ != "theme"@,
        "sysinfo"@ != "theme"@,
        "neofetch"@ != "theme"@,
        "clear"@ != "theme"@,
        "echo"@ != "theme"@,
        "mem"@ != "theme"@,
        "time"@ != "theme"@,
        "calc"@ != "theme"@,
{
    reveal_strlit("help");
    reveal_strlit("sysinfo");
    reveal_strlit("neofetch");
    reveal_strlit("clear");
    reveal_strlit("theme");
    reveal_strlit("echo");
    reveal_strlit("mem");
    reveal_strlit("time");
    reveal_strlit("calc");
    assert("clear"@.len() == 5);
    assert("theme"@.len() == 5);
    assert("help"@.len() == 4);
    assert("sysinfo"@.len() == 7);
    assert("neofetch"@.len() == 8);
    assert("echo"@.len() == 4);
    assert("mem"@.len() == 3);
    assert("time"@.len() == 4);
    assert("calc"@.len() == 4);
    assert("clear"@[0] == 'c');
    assert("theme"@[0] == 't');
}

/// The theme names the `theme` usage and error lines offer, in their order.
pub open spec fn offered_theme_names() -> Seq<Seq<char>> {
    seq!["classic"@, "platinum"@, "deepspace"@, "cyberpunk"@, "matrix"@, "sunset"@]
}

/// The theme each offered name stands for, in the same order.
pub open spec fn offered_theme_kinds() -> Seq<ThemeKind> {
    seq![
        ThemeKind::Windows98,
        ThemeKind::MacOS9,
        ThemeKind::DeepSpace,
        ThemeKind::CyberpunkNeon,
        ThemeKind::MatrixEmerald,
        ThemeKind::RetroSunset,
    ]
}

/// The offered names as the usage and error lines list them.
pub open spec fn offered_list() -> Seq<char> {
    let n = offered_theme_names();
    n[0] + ", "@ + n[1] + ", "@ + n[2] + ", "@ + n[3] + ", "@ + n[4] + ", "@ + n[5]
}

/// Every theme the `theme` command offers is accepted: the usage line and
/// the error line list exactly the offered names, and `theme` with any of
/// them, whatever the current theme, switches to its theme (each offered
/// name to a different one) and prints "Theme updated to: " with the
/// theme's name.
pub proof fn lemma_offered_themes_accepted(current: ThemeKind)
    ensures
        theme_usage_text()[0] == "Available themes: "@ + offered_list(),
        forall|bad: Seq<char>| theme_named(bad) is None ==> theme_lines(seq![bad], current)
            == seq!["Unknown theme: '"@ + bad + "'. Options: "@ + offered_list()],
        forall|i: int| 0 <= i < 6 ==> {
            let k = #[trigger] offered_theme_kinds()[i];
            &&& theme_named(offered_theme_names()[i]) == Some(k)
            &&& command_theme("theme"@, seq![offered_theme_names()[i]]) == Some(k)
            &&& command_lines("theme"@, seq![offered_theme_names()[i]], current)
                == seq!["Theme updated to: "@ + theme_label(k)]
        },
        forall|i: int, j: int| 0 <= i < j < 6 ==> offered_theme_kinds()[i] != offered_theme_kinds()[j],
{
    reveal_strlit("classic");
    reveal_strlit("memphis");
    reveal_strlit("retro98");
    reveal_strlit("platinum");
    reveal_strlit("pinstripe");
    reveal_strlit("deepspace");
    reveal_strlit("default");
    reveal_strlit("cyberpunk");
    reveal_strlit("neon");
    reveal_strlit("matrix");
    reveal_strlit("emerald");
    reveal_strlit("sunset");
    reveal_strlit("retro");
    reveal_strlit(", ");
    reveal_strlit("Available themes: ");
    reveal_strlit("Available themes: classic, platinum, deepspace, cyberpunk, matrix, sunset");
    reveal_strlit("'. Options: ");
    reveal_strlit("'. Options: classic, platinum, deepspace, cyberpunk, matrix, sunset");
    lemma_early_commands_differ();
    assert("Available themes: classic, platinum, deepspace, cyberpunk, matrix, sunset"@
        =~= "Available themes: "@ + offered_list());
    assert("'. Options: classic, platinum, deepspace, cyberpunk, matrix, sunset"@ =~= "'. Options: "@ + offered_list());
    assert forall|bad: Seq<char>| theme_named(bad) is None implies theme_lines(seq![bad], current)
        == seq!["Unknown theme: '"@ + bad + "'. Options: "@ + offered_list()] by {
        assert(seq![bad][0] == bad);
        assert("Unknown theme: '"@ + bad + "'. Options: classic, platinum, deepspace, cyberpunk, matrix, sunset"@
            =~= "Unknown theme: '"@ + bad + "'. Options: "@ + offered_list());
    }
    assert("platinum"@ != "classic"@ && "platinum"@ != "memphis"@ && "platinum"@ != "retro98"@);
    assert("deepspace"@ != "classic"@ && "deepspace"@ != "memphis"@ && "deepspace"@ != "retro98"@);
    assert("deepspace"@ != "platinum"@ && "deepspace"@[0] != "pinstripe"@[0]);
    assert("cyberpunk"@[1] != "pinstripe"@[1] && "cyberpunk"@[0] != "deepspace"@[0]);
    assert("cyberpunk"@.len() != "memphis"@.len() && "cyberpunk"@.len() != "platinum"@.len());
    assert("cyberpunk"@.len() != "default"@.len());
    assert("matrix"@.len() != "classic"@.len() && "matrix"@.len() != "platinum"@.len() && "matrix"@.len() != "pinstripe"@.len());
    assert("matrix"@.len() != "default"@.len() && "matrix"@.len() != "neon"@.len());
    assert("sunset"@.len() != "classic"@.len() && "sunset"@.len() != "platinum"@.len() && "sunset"@.len() != "pinstripe"@.len());
    assert("sunset"@.len() != "default"@.len() && "sunset"@.len() != "neon"@.len() && "sunset"@.len() != "emerald"@.len());
    assert("sunset"@[0] != "matrix"@[0]);
    assert forall|i: int| 0 <= i < 6 implies {
        let k = #[trigger] offered_theme_kinds()[i];
        &&& theme_named(offered_theme_names()[i]) == Some(k)
        &&& command_theme("theme"@, seq![offered_theme_names()[i]]) == Some(k)
        &&& command_lines("theme"@, seq![offered_theme_names()[i]], current)
            == seq!["Theme updated to: "@ + theme_label(k)]
    } by {
        let n = offered_theme_names()[i];
        assert(seq![n][0] == n);
        assert(seq![n].len() == 1);
    }
}

/// Each theme also answers to a second name, which `theme` takes just as
/// the offered one: `memphis` and `retro98` as `classic`, `pinstripe` as
/// `platinum`, `default` as `deepspace`, `neon` as `cyberpunk`, `emerald`
/// as `matrix` and `retro` as `sunset`.
pub proof fn lemma_theme_aliases()
    ensures
        theme_named("memphis"@) == theme_named("classic"@),
        theme_named("retro98"@) == theme_named("classic"@),
        theme_named("pinstripe"@) == theme_named("platinum"@),
        theme_named("default"@) == theme_named("deepspace"@),
        theme_named("neon"@) == theme_named("cyberpunk"@),
        theme_named("emerald"@) == theme_named("matrix"@),
        theme_named("retro"@) == theme_named("sunset"@),
        theme_named("classic"@) is Some,
{
    lemma_offered_themes_accepted(ThemeKind::Windows98);
    assert(offered_theme_names()[0] == "classic"@);
    assert(offered_theme_names()[1] == "platinum"@);
    assert(offered_theme_names()[2] == "deepspace"@);
    assert(offered_theme_names()[3] == "cyberpunk"@);
    assert(offered_theme_names()[4] == "matrix"@);
    assert(offered_theme_names()[5] == "sunset"@);
    assert(offered_theme_kinds()[0] == ThemeKind::Windows98);
    reveal_strlit("classic");
    reveal_strlit("memphis");
    reveal_strlit("retro98");
    reveal_strlit("platinum");
    reveal_strlit("pinstripe");
    reveal_strlit("deepspace");
    reveal_strlit("default");
    reveal_strlit("cyberpunk");
    reveal_strlit("neon");
    reveal_strlit("matrix");
    reveal_strlit("emerald");
    reveal_strlit("sunset");
    reveal_strlit("retro");
    assert("memphis"@[0] != "classic"@[0]);
    assert("retro98"@[0] != "classic"@[0] && "retro98"@[0] != "memphis"@[0]);
    assert("default"@[0] != "classic"@[0] && "default"@[0] != "memphis"@[0] && "default"@[0] != "retro98"@[0]);
    assert("emerald"@[0] != "classic"@[0] && "emerald"@[0] != "memphis"@[0] && "emerald"@[0] != "retro98"@[0]);
    assert("emerald"@[0] != "default"@[0]);
    assert("pinstripe"@.len() == 9 && "default"@.len() == 7 && "neon"@.len() == 4 && "retro"@.len() == 5);
    assert("classic"@.len() == 7 && "platinum"@.len() == 8 && "deepspace"@.len() == 9 && "cyberpunk"@.len() == 9);
    assert("matrix"@.len() == 6 && "sunset"@.len() == 6 && "emerald"@.len() == 7);
    assert("pinstripe"@[0] != "deepspace"@[0] && "pinstripe"@[0] != "cyberpunk"@[0]);
}

/// `x / y` fits an `i64` unless it is `i64::MIN / -1`.
proof fn lemma_div_fits(x: i64, y: i64)
    requires
        y != 0,
        !(x == i64::MIN && y == -1),
    ensures
        i64::MIN <= div_toward_zero(x as int, y as int) <= i64::MAX,
{
    if x > 0 && y > 0 {
        assert((x as int) / (y as int) <= x) by (nonlinear_arith) requires x > 0, y >= 1;
    } else if x < 0 && y < 0 {
        assert((-x) / (-y) <= -(i64::MIN as int)) by (nonlinear_arith)
            requires -x <= -(i64::MIN as int), -y >= 1;
        if y < -1 {
            assert((-x) / (-y) <= i64::MAX) by (nonlinear_arith)
                requires -x <= -(i64::MIN as int), -y >= 2;
        }
    } else if x < 0 {
        assert((-x) / (y as int) <= -(i64::MIN as int)) by (nonlinear_arith)
            requires -x <= -(i64::MIN as int), y >= 1;
    } else if x > 0 {
        assert((x as int) / (-(y as int)) <= x) by (nonlinear_arith) requires x > 0, -y >= 1;
    }
}

/// The file names of `tracks`.
pub open spec fn track_names(tracks: Seq<Mp3Track>) -> Seq<Seq<char>> {
    Seq::new(tracks.len(), |i: int| tracks[i].filename@)
}

/// The first of `names` from number `i` on that contains `q`, both in
/// lower case.
pub open spec fn first_name_match(q: Seq<char>, names: Seq<Seq<char>>, i: int) -> Option<int>
    decreases names.len() - i,
{
    if i >= names.len() || i < 0 {
        None
    } else if contains_run(lower(names[i]), lower(q)) {
        Some(i)
    } else {
        first_name_match(q, names, i + 1)
    }
}

/// The track an `mp3` argument picks: a number from 1 to the count picks by
/// position; anything else the first file name that contains it, ignoring
/// case.
pub open spec fn track_query(q: Seq<char>, names: Seq<Seq<char>>) -> Option<int> {
    match parse_usize_spec(q) {
        Some(n) => if 1 <= n <= names.len() { Some(n - 1) } else { first_name_match(q, names, 0) },
        None => first_name_match(q, names, 0),
    }
}

/// A text, or `d` without one.
pub open spec fn or_else(o: Option<Seq<char>>, d: Seq<char>) -> Seq<char> {
    match o {
        Some(t) => t,
        None => d,
    }
}

/// Line `i` of `mp3 list`.
pub open spec fn track_list_line(i: int, t: Mp3Track) -> Seq<char> {
    "  "@ + dec(i + 1) + ". "@ + or_else(opt_text(t.metadata.title), t.filename@) + " - "@
        + or_else(opt_text(t.metadata.artist), "Unknown"@) + " ["@ + t.filename@ + "]"@
}

/// What `mp3 list` prints for `tracks`.
pub open spec fn track_list_lines(tracks: Seq<Mp3Track>) -> Seq<Seq<char>> {
    seq!["=== Mouros Embedded MP3 Tracks ==="@]
        + Seq::new(tracks.len(), |i: int| track_list_line(i, tracks[i]))
        + seq!["Usage: mp3 info <name|num> | mp3 decode <name|num>"@]
}

/// What `mp3 info` prints for track `t`.
pub open spec fn track_info_lines(t: Mp3Track) -> Seq<Seq<char>> {
    let m = t.metadata;
    let info = t.info;
    seq![
        ">>> MP3 Metadata & Stream Info: "@ + t.filename@,
        "  Title:       "@ + or_else(opt_text(m.title), "Unknown"@),
        "  Artist:      "@ + or_else(opt_text(m.artist), "Unknown"@),
        "  Album:       "@ + or_else(opt_text(m.album), "Unknown"@),
        "  Genre:       "@ + or_else(opt_text(m.genre), "Unknown"@),
        "  Year:        "@ + or_else(opt_text(m.year), "Unknown"@),
        "  Format:      MPEG-1 Audio Layer III"@,
        "  Sample Rate: "@ + dec(info.sample_rate as int) + " Hz"@,
        "  Bitrate:     "@ + dec(info.bitrate_kbps as int) + " kbps"@,
        "  Channels:    "@ + (if info.channels == ChannelMode::Stereo { "Stereo"@ } else { "Mono"@ }),
        "  Frames:      "@ + dec(info.total_frames as int) + " frames ("@ + dec(info.duration_seconds as int) + "s duration)"@,
        "  File Size:   "@ + dec(info.file_size_bytes as int) + " bytes (ID3 Tag: "@ + dec(m.tag_size as int) + " bytes)"@,
    ]
}

/// What `mp3 decode` prints for track `name` of `size` bytes that gave
/// `frames` frames and `samples` samples in `ticks` timer ticks.
pub open spec fn track_decode_lines(name: Seq<char>, size: int, frames: int, samples: int, ticks: int) -> Seq<Seq<char>> {
    seq![
        ">>> Decoding '"@ + name + "' ("@ + dec(size) + " bytes) to PCM..."@,
        ">>> MP3 Decode Benchmark Complete!"@,
        "  Frames Decoded:  "@ + dec(frames),
        "  PCM Samples:     "@ + dec(samples) + " samples"@,
        "  Raw PCM Size:    "@ + dec(samples * 2 / 1024) + " KB (16-bit stereo)"@,
        "  Decode Time:     "@ + dec(ticks) + " ticks (~"@ + dec(ticks * 10) + " ms)"@,
        "  Integrity:       VERIFIED BIT-PERFECT"@,
    ]
}

/// What `mp3 play` prints for track `name`: with `queued` the frames handed
/// to the sound card, without it the missing-hardware hint.
pub open spec fn track_play_lines(name: Seq<char>, queued: Option<usize>) -> Seq<Seq<char>> {
    seq![">>> Streaming '"@ + name + "' to Intel AC97 PCI DMA..."@] + match queued {
        Some(f) => seq![">>> Queued "@ + dec(f as int) + " frames to AC97 DMA. Tip: Use Music Player app for continuous playback!"@],
        None => seq!["AC97 audio hardware not detected; run QEMU with: -device AC97,audiodev=snd0 -audiodev pipewire,id=snd0"@],
    }
}

/// The line for an `mp3` argument that picks no track.
pub open spec fn track_missing_line(q: Seq<char>) -> Seq<char> {
    "Track not found: '"@ + q + "'. Run 'mp3 list'."@
}

/// The track an `mp3` argument picks among `tracks` (see `track_query`).
pub fn find_embedded_track(query: &[char], tracks: &[Mp3Track]) -> (r: Option<usize>)
    ensures
        r == (match track_query(query@, track_names(tracks@)) { Some(i) => Some(i as usize), None => None }),
        r matches Some(i) ==> i < tracks@.len(),
{
    let ghost names = track_names(tracks@);
    if let Some(idx) = parse_usize(query) {
        if idx >= 1 && idx <= tracks.len() {
            return Some(idx - 1);
        }
    }
    let q = to_lower(query);
    let mut i: usize = 0;
    while i < tracks.len()
        invariant
            i <= tracks@.len(),
            names == track_names(tracks@),
            q@ == lower(query@),
            track_query(query@, names) == first_name_match(query@, names, 0),
            first_name_match(query@, names, 0) == first_name_match(query@, names, i as int),
        decreases tracks@.len() - i,
    {
        let name = chars_of(tracks[i].filename);
        let n = to_lower(name.as_slice());
        if contains_chars(n.as_slice(), q.as_slice()) {
            return Some(i);
        }
        i = i + 1;
    }
    None
}

/// The name a theme is printed by.
pub fn theme_name(k: ThemeKind) -> (s: &'static str)
    ensures
        s@ == theme_label(k),
{
    match k {
        ThemeKind::Windows98 => "Windows98",
        ThemeKind::MacOS9 => "MacOS9",
        ThemeKind::DeepSpace => "DeepSpace",
        ThemeKind::CyberpunkNeon => "CyberpunkNeon",
        ThemeKind::MatrixEmerald => "MatrixEmerald",
        ThemeKind::RetroSunset => "RetroSunset",
    }
}

/// The theme a `theme` argument names.
pub fn theme_from_name(n: &[char]) -> (k: Option<ThemeKind>)
    ensures
        k == theme_named(n@),
{
    if eq_str(n, "classic") || eq_str(n, "memphis") || eq_str(n, "retro98") {
        Some(ThemeKind::Windows98)
    } else if eq_str(n, "platinum") || eq_str(n, "pinstripe") {
        Some(ThemeKind::MacOS9)
    } else if eq_str(n, "deepspace") || eq_str(n, "default") {
        Some(ThemeKind::DeepSpace)
    } else if eq_str(n, "cyberpunk") || eq_str(n, "neon") {
        Some(ThemeKind::CyberpunkNeon)
    } else if eq_str(n, "matrix") || eq_str(n, "emerald") {
        Some(ThemeKind::MatrixEmerald)
    } else if eq_str(n, "sunset") || eq_str(n, "retro") {
        Some(ThemeKind::RetroSunset)
    } else {
        None
    }
}

/// The bundled program an `elf run` argument names.
pub fn sample_from_name(n: &[char]) -> (i: Option<usize>)
    ensures
        match i {
            Some(v) => elf_sample(n@) == Some(v as nat),
            None => elf_sample(n@) is None,
        },
{
    if eq_str(n, "hello") || eq_str(n, "hello.elf") {
        Some(0)
    } else if eq_str(n, "fibonacci") || eq_str(n, "fibonacci.elf") {
        Some(1)
    } else if eq_str(n, "mandelbrot") || eq_str(n, "mandelbrot.elf") {
        Some(2)
    } else if eq_str(n, "sysbench") || eq_str(n, "sysbench.elf") {
        Some(3)
    } else {
        None
    }
}


/// Whether `l` begins with `t`.
pub open spec fn begins(l: Seq<char>, t: Seq<char>) -> bool {
    t.len() <= l.len() && l.take(t.len() as int) == t
}

/// The color of an output line: echoed commands sky blue, errors and
/// unknown commands light red, lines of `=` green, the rest light gray.
pub open spec fn line_color_spec(l: Seq<char>) -> u32 {
    if begins(l, "mouros>"@) {
        pack_argb(255, 56, 189, 248)
    } else if begins(l, "Error"@) || begins(l, "Unknown"@) {
        pack_argb(255, 248, 113, 113)
    } else if begins(l, "="@) {
        pack_argb(255, 74, 222, 128)
    } else {
        pack_argb(255, 226, 232, 240)
    }
}

/// Picks the color of output line `l` (see `line_color_spec`).
pub fn line_color(l: &[char]) -> (c: Color)
    ensures
        c.raw == line_color_spec(l@),
{
    let prompt = chars_of("mouros>");
    let error = chars_of("Error");
    let unknown = chars_of("Unknown");
    let rule = chars_of("=");
    if starts_with_chars(l, prompt.as_slice()) {
        Color::from_rgb(56, 189, 248)
    } else if starts_with_chars(l, error.as_slice()) || starts_with_chars(l, unknown.as_slice()) {
        Color::from_rgb(248, 113, 113)
    } else if starts_with_chars(l, rule.as_slice()) {
        Color::from_rgb(74, 222, 128)
    } else {
        Color::from_rgb(226, 232, 240)
    }
}

/// How many output lines fit above the input line in a client area
/// `client_h` pixels high (ten-pixel lines, eight pixels of padding above
/// and below; at least the input line always shows).
pub open spec fn output_rows(client_h: int) -> int {
    if client_h >= 26 { (client_h - 16) / 10 - 1 } else { 0 }
}

/// The first output line shown when there are `n` of them: the last ones
/// that fit.
pub fn first_visible_line(n: usize, client_h: usize) -> (i: usize)
    ensures
        i == if n > output_rows(client_h as int) { n - output_rows(client_h as int) } else { 0 },
{
    let rows: usize = if client_h >= 26 { (client_h - 16) / 10 - 1 } else { 0 };
    if n > rows { n - rows } else { 0 }
}

/// The part of the input that shows when `available` characters fit after
/// the prompt, and the cursor's column in it: all of it with the cursor at
/// its end when it fits, else its last `available` characters.
pub fn visible_input(len: usize, available: usize) -> (r: (usize, usize))
    ensures
        len > available ==> r == ((len - available) as usize, available),
        len <= available ==> r == (0usize, len),
{
    if len > available { (len - available, available) } else { (0, len) }
}

/// The characters of a line that fit in a client area `cw` wide.
pub open spec fn term_max_chars(cw: int) -> int {
    if cw >= 16 { (cw - 16) / 8 } else { 0 }
}

impl TerminalApp {
    /// Output lines `start..k`, ten pixels apart from eight pixels down,
    /// each cut to the width and colored by `line_color_spec`.
    pub open spec fn lines_from(&self, cx: int, cy: int, cw: int, start: int, k: int) -> Seq<ShapeV>
        decreases k - start,
    {
        if k <= start {
            Seq::empty()
        } else {
            self.lines_from(cx, cy, cw, start, k - 1) + seq![stext(cx + 8, cy + 8 + 10 * (k - 1 - start),
                clip_to(self.lines@[k - 1]@, term_max_chars(cw)), line_color_spec(self.lines@[k - 1]@))]
        }
    }

    /// What the prompt shows in the client area at `(cx, cy)`, `cw` by `ch`:
    /// black, the last output lines that fit, then `mouros> ` and the end
    /// of the input that fits, with the block cursor when it is shown.
    pub open spec fn scene_spec(&self, cx: int, cy: int, cw: int, ch: int) -> Seq<ShapeV> {
        let n = self.lines@.len() as int;
        let start = if n > output_rows(ch) { n - output_rows(ch) } else { 0 };
        let y = cy + 8 + 10 * (n - start);
        let max_chars = term_max_chars(cw);
        let available = if max_chars >= 9 { max_chars - 9 } else { 0 };
        let len = self.current_input@.len() as int;
        let from = if len > available { len - available } else { 0 };
        let col = if len > available { available } else { len };
        let light = pack_argb(255, 241, 245, 249);
        seq![sfill(cx, cy, cw, ch, palette::BLACK)] + self.lines_from(cx, cy, cw, start, n) + seq![
            stext(cx + 8, y, "mouros> "@, pack_argb(255, 56, 189, 248)),
            stext(cx + 72, y, self.current_input@.skip(from), light)
        ] + if self.cursor_visible { seq![sfill(cx + 72 + col * 8, y, 8, 8, light)] } else { Seq::empty() }
    }

    /// Builds `scene_spec`.
    pub fn scene(&self, cx: isize, cy: isize, cw: usize, ch: usize) -> (s: Vec<Shape>)
        requires
            inner(cx as int),
            inner(cy as int),
            cw <= 0x1_0000,
            ch <= 0x1_0000,
        ensures
            shapes_view(s@) == self.scene_spec(cx as int, cy as int, cw as int, ch as int),
            scene_ok(shapes_view(s@)),
    {
        let mut s: Vec<Shape> = Vec::new();
        assert(shapes_view(s@) =~= Seq::<ShapeV>::empty());
        add_fill(&mut s, cx, cy, cw, ch, palette::BLACK);
        let ghost head = shapes_view(s@);
        let n = self.lines.len();
        let start = first_visible_line(n, ch);
        let max_chars: usize = if cw >= 16 { (cw - 16) / 8 } else { 0 };
        let mut y = cy + 8;
        let mut i = start;
        while i < n
            invariant
                inner(cx as int),
                inner(cy as int),
                ch <= 0x1_0000,
                cw <= 0x1_0000,
                max_chars == term_max_chars(cw as int),
                n == self.lines@.len(),
                start <= i <= n,
                start == (if n > output_rows(ch as int) { n - output_rows(ch as int) } else { 0 }),
                y == cy + 8 + 10 * (i - start),
                shapes_view(s@) == head + self.lines_from(cx as int, cy as int, cw as int, start as int, i as int),
                scene_ok(shapes_view(s@)),
            decreases n - i,
        {
            let line = &self.lines[i];
            let color = line_color(line.as_slice());
            add_text(&mut s, cx + 8, y, clipped(line.as_slice(), max_chars), color.raw);
            y = y + 10;
            i = i + 1;
            assert(shapes_view(s@) =~= head + self.lines_from(cx as int, cy as int, cw as int, start as int, i as int));
        }
        let ghost body = shapes_view(s@);
        let light = Color::from_rgb(241, 245, 249).raw;
        add_label(&mut s, cx + 8, y, "mouros> ", Color::from_rgb(56, 189, 248).raw);
        let available: usize = if max_chars >= 9 { max_chars - 9 } else { 0 };
        let (from, col) = visible_input(self.current_input.len(), available);
        add_text(&mut s, cx + 72, y, chars_from(self.current_input.as_slice(), from), light);
        if self.cursor_visible {
            add_fill(&mut s, cx + 72 + (col * 8) as isize, y, 8, 8, light);
        }
        assert(shapes_view(s@) =~= self.scene_spec(cx as int, cy as int, cw as int, ch as int));
        s
    }

    /// Draws the prompt into the client area at `(cx, cy)`, `cw` by `ch`:
    /// exactly the pixels of `scene_spec`.
    pub fn render(&self, fb: &mut Framebuffer, cx: isize, cy: isize, cw: usize, ch: usize)
        requires
            old(fb).wf(),
            inner(cx as int),
            inner(cy as int),
            cw <= 0x1_0000,
            ch <= 0x1_0000,
        ensures
            drawn_over(*old(fb), *final(fb)),
            final(fb).backbuffer@ == painted(*old(fb), old(fb).backbuffer@, self.scene_spec(cx as int, cy as int, cw as int, ch as int)),
    {
        let s = self.scene(cx, cy, cw, ch);
        paint(fb, s.as_slice());
    }
}
} // verus!
