//! Challenge-response guard for a group chat: arithmetic questions with decoy
//! answers, a keyed registry of pending challenges, and a lifecycle controller
//! that arbitrates between a user's response and a wall-clock timeout so that
//! every challenge is resolved exactly once.

pub mod captcha;
pub mod commands;
pub mod config;
pub mod crates;
pub mod lifecycle;
pub mod messages;
pub mod question;
pub mod registry;
pub mod text;

pub use captcha::generate_captcha;
pub use captcha::validate_captcha_answer;
pub use lifecycle::ChallengeOutcome;
pub use lifecycle::ResponseAction;
pub use question::MathQuestion;
pub use question::Operator;
pub use registry::ChallengeEntry;
pub use registry::Registry;
