//! Verified core of a dual-board keyboard/mouse switch firmware: HID report
//! decoding, pointer arithmetic, inter-board packets, firmware transfer,
//! configuration protocol, debug log rings and the service-level decisions
//! that tie them to the hardware boundary.
pub mod blink;
pub mod bytes;
pub mod actions;
pub mod constants;
pub mod crc;
pub mod hid_parser;
pub mod hid_extract;
pub mod report_extract;
pub mod hotkey_handlers;
pub mod hid_report;
pub mod mouse;
pub mod msg_handlers;
pub mod packet;
pub mod passthrough;

pub mod structs;
pub mod hal;
pub mod scheduler;
pub mod screensaver;
pub mod keyboard;
pub mod service;
pub mod cdc_console;
pub mod diag;
pub mod desc_dump;
