//! Service layer: the decisions that tie the domain logic to the hardware
//! boundary, each taking the board state and the boundary explicitly.
pub mod backend;
pub mod fw_upgrade;
pub mod router;
pub mod led;
pub mod output;
pub mod msg_bridge;
pub mod hotkey_dispatch;
pub mod usb;
pub mod config_api;
pub mod peer_log;
pub mod dlog;
pub mod packet_dispatch;
pub mod frontend;
pub mod tasks;
pub mod passthrough_service;
pub mod debug_console;
