//! Phonetic (Avro-style) transliteration of Romanized Bangla input into
//! Bengali Unicode, together with the decision logic of an IBus input engine.

pub mod rules;
mod text;
pub mod translate;
pub mod engine;
pub mod ibus;
pub mod address;
pub mod rule_set;

pub use rules::{is_consonant, Rule, TokenType};
pub use translate::translate;
pub use engine::PhoneticEngine;
pub use ibus::{IBusAttribute, IBusEngine, IBusFactory, IBusText};
