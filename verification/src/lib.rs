//! Composition and phonetic transliteration of Tibetan syllables.
//!
//! A syllable is described by up to six character slots (prefix, superscript,
//! root, subscript, suffix, second suffix). The library renders it in two
//! ways: as the stacked Tibetan Unicode text, and as a Latin phonetic
//! transliteration that follows the sound-shift rules of Tibetan orthography.

pub mod tibetan_data;
pub mod tibetan_calculator;
