//! SEO analysis for Korean text.

pub mod analyzer;
pub mod basic;
pub mod gateway;
pub mod lindera_counter;
pub mod morph;
pub mod text;
pub mod token_match;
