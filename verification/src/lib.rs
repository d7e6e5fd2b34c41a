//! A verified core for a small bare-metal desktop: colors, the software
//! framebuffer and its drawing primitives, themes, icons, input decoding,
//! the desktop applications' state machines, and the parsers for the
//! executable and audio-tag formats the desktop understands.

pub mod color;
pub mod palette;
pub mod font;
pub mod geometry;
pub mod bga;
pub mod framebuffer;
pub mod canvas;
pub mod theme;
pub mod icons;
pub mod text;
pub mod input;
pub mod calculator;
pub mod chars;
pub mod rtc;
pub mod elf;
pub mod terminal;
pub mod memory;
pub mod mp3;
pub mod speaker;
pub mod music;
pub mod snake;
pub mod notepad;
pub mod image_viewer;
pub mod settings;
pub mod elf_runner;
pub mod sysinfo;
pub mod mouse;
pub mod pci;
pub mod ac97;
pub mod interrupts;
pub mod window;
pub mod desktop;
pub mod doom;
pub mod render;
pub mod welcome;
pub mod scene;
