//! Adapters that connect an intent-driven assistant to outside services.
//!
//! The library holds the protocol logic of each adapter: command builders,
//! response parsers, request planning, signing and in-memory registries.
//! Network and file access is left to the caller.

pub mod text;
pub mod crypto;
pub mod urlencoding;
pub mod error;
pub mod json;
pub mod traits;
pub mod email;
pub mod cron;
pub mod filesystem;
pub mod calendar;
pub mod github;
pub mod feishu;
pub mod discord;
pub mod bilibili;
pub mod dingtalk;
pub mod douyin;
pub mod browser;
pub mod daily_briefing;
