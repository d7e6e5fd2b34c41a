//! Named colors of the desktop, as packed ARGB words.
use vstd::prelude::*;

verus! {

pub const BLACK: u32 = 0xFF00_0000u32;
pub const WHITE: u32 = 0xFFFF_FFFFu32;
pub const RED: u32 = 0xFFEF_4444u32;
pub const GREEN: u32 = 0xFF22_C55Eu32;
pub const BLUE: u32 = 0xFF3B_82F6u32;
pub const YELLOW: u32 = 0xFFEA_B308u32;
pub const CYAN: u32 = 0xFF06_B6D4u32;
pub const MAGENTA: u32 = 0xFFD9_46EFu32;
pub const ORANGE: u32 = 0xFFF9_7316u32;
pub const TRANSPARENT: u32 = 0x0000_0000u32;

pub const DESKTOP_TOP: u32 = 0xFF14_223Au32;
pub const DESKTOP_BOTTOM: u32 = 0xFF0B_1324u32;
pub const TITLEBAR_ACTIVE_TOP: u32 = 0xFF25_63EBu32;
pub const TITLEBAR_ACTIVE_BOTTOM: u32 = 0xFF1D_4ED8u32;
pub const TITLEBAR_INACTIVE_TOP: u32 = 0xFF47_5569u32;
pub const TITLEBAR_INACTIVE_BOTTOM: u32 = 0xFF33_4155u32;
pub const WINDOW_BG: u32 = 0xFF18_1C26u32;
pub const WINDOW_BORDER: u32 = 0xFF37_4151u32;
pub const WINDOW_BORDER_ACTIVE: u32 = 0xFF60_A5FAu32;
pub const BTN_CLOSE_RED: u32 = 0xFFEF_4444u32;
pub const BTN_MIN_YELLOW: u32 = 0xFFF5_9E0Bu32;
pub const TASKBAR_TOP: u32 = 0xFF1E_2634u32;
pub const TASKBAR_BOTTOM: u32 = 0xFF12_1822u32;
pub const TASKBAR_BORDER: u32 = 0xFF33_4155u32;
pub const START_BTN: u32 = 0xFF25_63EBu32;
pub const START_BTN_HOVER: u32 = 0xFF3B_82F6u32;
pub const TEXT_LIGHT: u32 = 0xFFF1_F5F9u32;
pub const TEXT_MUTED: u32 = 0xFF94_A3B8u32;
pub const TEXT_DARK: u32 = 0xFF0F_172Au32;

/// Classic 3D-chrome palette: white outer highlight.
pub const RETRO_LIGHT: u32 = 0xFFFF_FFFFu32;
/// Light gray inner highlight (#DFDFDF).
pub const RETRO_HIGHLIGHT: u32 = 0xFFDF_DFDFu32;
/// Dark gray inner shadow (#808080).
pub const RETRO_SHADOW: u32 = 0xFF80_8080u32;
/// Black outer shadow.
pub const RETRO_DARK_SHADOW: u32 = 0xFF00_0000u32;
/// Button and dialog face (#C0C0C0).
pub const RETRO_FACE: u32 = 0xFFC0_C0C0u32;
/// Desktop teal (#008080).
pub const RETRO_TEAL: u32 = 0xFF00_8080u32;
/// Selection navy (#000080).
pub const RETRO_SELECTION: u32 = 0xFF00_0080u32;
/// Active title bar gradient, left end.
pub const RETRO_ACTIVE_TITLE_LEFT: u32 = 0xFF00_0080u32;
/// Active title bar gradient, right end.
pub const RETRO_ACTIVE_TITLE_RIGHT: u32 = 0xFF10_84D0u32;
/// Inactive title bar gradient, left end.
pub const RETRO_INACTIVE_TITLE_LEFT: u32 = 0xFF80_8080u32;
/// Inactive title bar gradient, right end.
pub const RETRO_INACTIVE_TITLE_RIGHT: u32 = 0xFFC0_C0C0u32;
/// Platinum chrome.
pub const RETRO_MACOS_PLATINUM: u32 = 0xFFDD_DDDDu32;
/// Glyph ink on chrome.
pub const RETRO_TEXT: u32 = 0xFF00_0000u32;

} // verus!
