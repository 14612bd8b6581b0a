//! Decision logic of GhostSun, a desktop application for solar
//! spectroheliography: camera focus, mount control, scan acquisition, stacking
//! review and orientation against archive images.
//!
//! Everything here computes on plain values. Windows, cameras, serial ports,
//! files, the network and floating-point photometry belong to the application
//! around this library.

pub mod acquire;
pub mod anchor;
pub mod applog;
pub mod auto_center;
pub mod autofocus;
pub mod camera_panel;
pub mod camera_worker;
pub mod double;
pub mod focus;
pub mod focuser;
pub mod focusmetrics;
pub mod gong;
pub mod lx200;
pub mod mount;
pub mod mount_panel;
pub mod mount_worker;
pub mod order;
pub mod places;
pub mod ports;
pub mod process;
pub mod reconstruct;
pub mod saved_focus;
pub mod scan;
pub mod session;
pub mod site;
pub mod software;
pub mod storage;
pub mod text;
pub mod viewer;
