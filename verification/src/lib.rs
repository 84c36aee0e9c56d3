//! The decisions behind the Android companion app's bridge to the server:
//! starting and stopping the one server of the process, handing network
//! requests to the app and its answers back, and keeping the log lines that
//! the app polls for. The platform work around them (JNI, sockets, files,
//! threads) lives outside this library.
pub mod decimal;
pub mod diag;
pub mod headers;
pub mod lifecycle;
pub mod logs;
pub mod polyfills;
pub mod requests;
pub mod response;
pub mod server_task;
pub mod status;
