//! Quality checks for OpenType fonts, with their decisions verified.
pub mod status;
pub mod text;
pub mod testable;
pub mod sfnt;
pub mod config;
pub mod fix;
pub mod result;
pub mod utils;
pub mod reporters;
pub mod words;
pub mod googlefonts;
pub mod font;
pub mod outcome;
pub mod monotype;
pub mod opentype;
pub mod gf_fonts;
pub mod gf_metadata;
pub mod check;
pub mod codetesting;
pub mod hotfix;
pub mod profile;
pub mod fontwerk;
pub mod unique_names;
pub mod cjk;
pub mod source;
pub mod laws;
