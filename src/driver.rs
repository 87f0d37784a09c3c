//! The decisions taken for each file; reading, writing and asking the user
//! are left to the caller.

use vstd::prelude::*;

use crate::literal::chars_of;
use crate::replacer::{
    chosen_replacer, make_text_replacer, CaseInsensitivity, PatternSyntaxError, Replacer,
    TextReplacer, WholeWordsOnly,
};

verus! {

/// Appended to a file's path to name its backup.
pub const BACKUP_SUFFIX: &'static str = "~";

/// What the user asked for, the same for every file.
#[derive(Debug)]
pub struct ReplacementArgs {
    pub from: String,
    pub to: String,
    /// Keep a copy of the original content under the backup path.
    pub backup: bool,
    pub ignore_case: bool,
    /// Ask before writing each file.
    pub prompt: bool,
    pub whole_words: bool,
}

/// What to do with one file once its new content is known.
#[derive(Debug)]
pub struct FileUpdate {
    /// Write the original content to the backup path before anything else.
    pub write_backup: bool,
    /// Ask the user, and write only on a yes.
    pub confirm_first: bool,
    /// The content to write in place of the original.
    pub new_content: String,
}

/// The strategy that `args` selects.
pub open spec fn replacer_for(args: ReplacementArgs) -> Replacer {
    chosen_replacer(
        if args.ignore_case {
            CaseInsensitivity::Enabled
        } else {
            CaseInsensitivity::Disabled
        },
        if args.whole_words {
            WholeWordsOnly::Enabled
        } else {
            WholeWordsOnly::Disabled
        },
    )
}

/// Rewrites the content of one file as `args` asks, and says what to do with
/// the result. Fails, and asks for nothing to be written, where the pattern
/// is rejected.
pub fn run_replacement(
    args: &ReplacementArgs,
    content: &str,
) -> (r: Result<FileUpdate, PatternSyntaxError>)
    ensures
        r is Ok <==> replacer_for(*args).spec_accepts(args.from@),
        r matches Ok(u) ==> u.new_content@ == replacer_for(*args).spec_replace(
            args.from@,
            args.to@,
            content@,
        ),
        r matches Ok(u) ==> u.write_backup == args.backup && u.confirm_first == args.prompt,
        r matches Err(e) ==> (replacer_for(*args) matches Replacer::Pattern(p) && e.pattern@
            == p.spec_pattern(args.from@)),
{
    let replacer = make_text_replacer(
        CaseInsensitivity::from(args.ignore_case),
        WholeWordsOnly::from(args.whole_words),
    );
    match replacer.replace(args.from.as_str(), args.to.as_str(), content) {
        Ok(new_content) => Ok(
            FileUpdate { write_backup: args.backup, confirm_first: args.prompt, new_content },
        ),
        Err(e) => Err(e),
    }
}

/// The answer that a line typed by the user gives: yes for `y`, no for `n`,
/// either letter in either case, followed by a newline; none otherwise.
pub open spec fn confirmation(answer: Seq<char>) -> Option<bool> {
    if answer == seq!['y', '\n'] || answer == seq!['Y', '\n'] {
        Some(true)
    } else if answer == seq!['n', '\n'] || answer == seq!['N', '\n'] {
        Some(false)
    } else {
        None
    }
}

/// Reads the user's answer from one line of input.
pub fn parse_confirmation(answer: &str) -> (r: Option<bool>)
    ensures
        r == confirmation(answer@),
{
    let a = chars_of(answer);
    if a.len() != 2 || a[1] != '\n' {
        return None;
    }
    assert(a@ == seq![a@[0], a@[1]]);
    if a[0] == 'y' || a[0] == 'Y' {
        Some(true)
    } else if a[0] == 'n' || a[0] == 'N' {
        Some(false)
    } else {
        None
    }
}

} // verus!
