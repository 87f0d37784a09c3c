//! Find-and-replace over whole text bodies, by literal substring or by
//! regular expression, with the strategy fixed once from two flags.

pub mod literal;
pub mod engine;
pub mod replacer;
pub mod driver;

pub use driver::{parse_confirmation, run_replacement, FileUpdate, ReplacementArgs, BACKUP_SUFFIX};
pub use literal::replace_literal;
pub use replacer::{
    make_text_replacer, CaseInsensitivity, PatternSyntaxError, RegexTextReplacer, Replacer,
    StdTextReplacer, TextReplacer, WholeWordsOnly,
};
