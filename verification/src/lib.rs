//! An emulator core for the Ultimate family of C64 cartridges, with contracts
//! that Verus proves.

pub mod board;
pub mod bridge;
pub mod c64;
pub mod c64_install;
pub mod c64_laws;
pub mod c64_state;
pub mod c64_tables;
pub mod c64host;
pub mod cart;
pub mod cart_bits;
pub mod cart_laws;
pub mod cart_state;
pub mod cart_types;
pub mod command;
pub mod command_laws;
pub mod command_lines;
pub mod console;
pub mod device_laws;
pub mod devices;
pub mod dmastub;
pub mod execute;
pub mod hooks;
pub mod host;
pub mod host_laws;
pub mod iec;
pub mod install;
pub mod io;
pub mod iomap;
pub mod irq;
pub mod keyjoy;
pub mod keymap;
pub mod layout_laws;
pub mod limit_laws;
pub mod logs;
pub mod machine;
pub mod mock;
pub mod numbers;
pub mod pacing;
pub mod parse;
pub mod parse_laws;
pub mod picture;
pub mod port_laws;
pub mod proxy;
pub mod regtable;
pub mod report_laws;
pub mod routing;
pub mod schedule;
pub mod script;
pub mod session_laws;
pub mod symbols;
pub mod text;
pub mod time;
pub mod timed;
pub mod timed_laws;
pub mod timeline;
pub mod trace;
pub mod uci;
pub mod uci_laws;
pub mod uci_registers;
pub mod updater;
pub mod updater_laws;
pub mod usb;
