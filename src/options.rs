//! The options of one invocation: which counts to show, and of which file.

use vstd::prelude::*;

verus! {

/// Which of the three counts to show, and the path of the file to count.
#[derive(Debug)]
pub struct Args {
    /// Show the line count.
    pub lines: bool,
    /// Show the word count.
    pub words: bool,
    /// Show the byte count.
    pub chars: bool,
    /// Path of the file to count.
    pub path: String,
}

impl Args {
    /// Options as given, without the default applied.
    pub fn new(lines: bool, words: bool, chars: bool, path: String) -> (r: Args)
        ensures
            r.lines == lines,
            r.words == words,
            r.chars == chars,
            r.path@ == path@,
    {
        Args { lines, words, chars, path }
    }

    /// Whether no count at all was asked for.
    pub open spec fn none_set(self) -> bool {
        !self.lines && !self.words && !self.chars
    }

    /// The options in effect: where no count was asked for, all three are
    /// shown; otherwise the options stand as given.
    pub fn effective(self) -> (r: Args)
        ensures
            r.path@ == self.path@,
            self.none_set() ==> r.lines && r.words && r.chars,
            !self.none_set() ==> r.lines == self.lines && r.words == self.words && r.chars
                == self.chars,
    {
        if !self.lines && !self.words && !self.chars {
            Args { lines: true, words: true, chars: true, path: self.path }
        } else {
            self
        }
    }
}

} // verus!
