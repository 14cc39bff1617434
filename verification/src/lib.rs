//! Verified core of the Latite Client launcher: version matching, option
//! storage, locale resolution, message formatting and the launch decisions.
pub mod text;
pub mod version_info;
pub mod latite_dll;
pub mod launch_request;
pub mod options;
pub mod app_state;
pub mod release;
pub mod paths;
pub mod ui;
pub mod localization;
pub mod logging;
pub mod inject;
pub mod launcher;
pub mod dialogs;
pub mod crash_dumps;
pub mod minecraft;
pub mod single_instance;
pub mod window;
pub mod process_monitor;
pub mod build_download;
pub mod injection_flow;
