//! Command handlers of a small desktop assistant backend: a canned text
//! reply, a keyword-based emotion classifier and a static system report.
//!
//! Every handler is a total, stateless function from plain values to a
//! record; the contracts are stated over `Seq<char>` views of the strings.

pub mod text;
pub mod response;
pub mod emotion;
pub mod system;

pub use crate::emotion::{analyze_emotion, Emotion, EmotionAnalysis};
pub use crate::response::{generate_response, LLMResponse};
pub use crate::system::{get_system_info, MemoryUsage, SystemInfo};
