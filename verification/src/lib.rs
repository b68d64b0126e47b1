//! Verified logic of a remote desktop client and service.
pub mod audio_fault_injection;
pub mod capture_refresh;
pub mod clipboard;
pub mod cursor;
pub mod download_job;
pub mod downloader;
pub mod file_path;
pub mod helper;
pub mod http_client;
pub mod ipc;
pub mod login_failure_check;
pub mod macos;
pub mod portable;
pub mod quartz;
pub mod rate_control;
pub mod relay;
pub mod relay_client;
pub mod remote_printer;
pub mod startup;
pub mod terminal_helper;
pub mod text;
pub mod text_map;
pub mod uinput;
pub mod video_qos;
pub mod video_send_diag;
