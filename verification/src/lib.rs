//! Command-line client logic for a cloud service fabric: what each command
//! asks the server, and how each answer is laid out on the terminal.
pub mod text;
pub mod display;
pub mod request;
pub mod volumes;
pub mod networks;
pub mod events;
pub mod workloads;
pub mod registry;
pub mod nodes;
pub mod config;
pub mod user;
pub mod system;
