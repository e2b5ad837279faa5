//! Decision logic of the ExamUQ kiosk client: server URL handling, the exam
//! overlay state carried in portal URLs, session API addresses, updater
//! channel selection and the exam-mode state machine driven by the desktop shell.

pub mod text;
pub mod ipv4;
pub mod json;
pub mod web_url;
pub mod server_url;
pub mod overlay;
pub mod session;
pub mod updater;
pub mod runtime;
pub mod shell;
