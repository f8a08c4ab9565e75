//! Verified core of a small Win32 windowing library: decoding window
//! messages into events, keyboard and mouse-button state, rectangles, window
//! styles, the per-window pixel buffer and event queue, and the records GDI
//! and the shell read.
#![allow(non_snake_case, non_camel_case_types)]

pub mod constants;
pub mod types;
pub mod message;
pub mod rect;
pub mod event;
pub mod input;
pub mod gdi;
pub mod bitmap;
pub mod queue;
pub mod window;
pub mod monitor;
pub mod global_event;
pub mod dwm;
pub mod dark_mode;
pub mod tray;
pub mod clipboard;
pub mod queue_test;

pub use types::{Event, Key, Modifier, Modifiers, Point, WindowInfo, MSG, RECT};
pub use message::{handle_msg, Decoded};
pub use rect::Rect;
pub use gdi::{BITMAPINFO, BITMAPINFOHEADER, BLENDFUNCTION, RGBQUAD};
pub use bitmap::create_bitmap;
pub use input::{InputState, MouseButton, MouseButtonState};
pub use window::{WindowState, WindowStyle, WndReply};
pub use monitor::MONITORINFO;
pub use global_event::{handle_mouse_msg, MSLLHOOKSTRUCT};
