//! Deinflection of Japanese words: from an inflected surface form to every
//! dictionary form that undoing one suffix after another can reach.
//!
//! `deinflect` is the entry point. It neither ranks the forms it finds nor
//! knows which of them are words of the language: a dictionary lookup is to
//! pick those out. `kata_to_hira` prepares text that may hold katakana.

pub mod closure;
pub mod deinflect;
pub mod deinflection_rules;
pub mod descent;
pub mod grammar;
pub mod kata_to_hira;
pub mod reach;
pub mod seen;
pub mod text;

pub use crate::deinflect::{
    capped_suffixes, deinflect, deinflect_one_iteration, DeinflectedWord, DeinflectionRule,
};
pub use crate::deinflection_rules::{get_deinflection_rules, MAX_SUFFIX_LENGTH};
pub use crate::grammar::{RuleType, RuleTypeSet};
pub use crate::kata_to_hira::kata_to_hira;
pub use crate::seen::SeenWordsTracker;
