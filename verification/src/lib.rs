//! Generation of systemd service unit files from typed configuration, and a
//! verified decision core for driving `systemctl` to install, remove, start,
//! stop, restart and query the described service.

pub mod error;
pub mod service;
pub mod systemd;
pub mod text;
