use vstd::prelude::*;

use crate::classify::Selection;
use crate::entry::opt_view;
use crate::naming::{trim, trimmed};

verus! {

/// The options of one run, as given on the command line.
pub struct Args {
    /// Optional text added to every new name.
    pub name: Option<String>,
    /// Choose the files to rename by their extension.
    pub extension: bool,
    /// Put the date in front of the name.
    pub front: bool,
    /// Leave the original file name out of the new name.
    pub no_name: bool,
    /// Use a 12-hour clock instead of a 24-hour one.
    pub twelve: bool,
    /// Use the date without the time.
    pub date: bool,
    /// Separate date and time by a space instead of an underscore.
    pub space: bool,
    /// A custom strftime-style date format.
    pub format: Option<String>,
    /// The directory whose files are renamed.
    pub source: Option<String>,
    /// The directory that receives the renamed copies.
    pub target: Option<String>,
    /// Put the added text after the date.
    pub suffix: bool,
    /// Only show the new names; copy nothing.
    pub preview: bool,
    /// Rename every file, not only images.
    pub all: bool,
}

/// The character between the date and the time of a timestamp.
pub open spec fn space_character(space: bool) -> Seq<char> {
    if space {
        seq![' ']
    } else {
        seq!['_']
    }
}

/// The delimiter between the parts of a new file name.
pub open spec fn filename_delimiter() -> Seq<char> {
    seq!['-']
}

/// Returns a space when spaces were asked for, an underscore otherwise.
pub fn get_space_character(cli: &Args) -> (r: String)
    ensures
        r@ == space_character(cli.space),
{
    if cli.space {
        let r = String::from_str(" ");
        proof {
            reveal_strlit(" ");
        }
        r
    } else {
        let r = String::from_str("_");
        proof {
            reveal_strlit("_");
        }
        r
    }
}

/// Returns the delimiter placed between the parts of a new file name.
pub fn get_filename_delimiter() -> (r: String)
    ensures
        r@ == filename_delimiter(),
{
    let r = String::from_str("-");
    proof {
        reveal_strlit("-");
    }
    r
}

/// The directory that receives the copies when none is given.
pub open spec fn default_target() -> Seq<char> {
    "renamed"@
}

impl Default for Args {
    /// No text, no custom format, no folders given, and every switch off:
    /// images are renamed and keep their original name after any text.
    fn default() -> (r: Args)
        ensures
            r.name is None,
            r.format is None,
            r.source is None,
            r.target is None,
            !r.extension && !r.front && !r.no_name && !r.twelve && !r.date,
            !r.space && !r.suffix && !r.preview && !r.all,
    {
        Args {
            name: None,
            extension: false,
            front: false,
            no_name: false,
            twelve: false,
            date: false,
            space: false,
            format: None,
            source: None,
            target: None,
            suffix: false,
            preview: false,
            all: false,
        }
    }
}

impl Args {
    /// The directory whose files are renamed, trimmed; none stands for the
    /// current directory.
    pub fn source_folder(&self) -> (r: Option<String>)
        ensures
            opt_view(r) == match self.source {
                Some(s) => Some(trimmed(s@)),
                None => None,
            },
    {
        match &self.source {
            Some(s) => Some(trim(s.as_str())),
            None => None,
        }
    }

    /// The directory that receives the copies: the given one, trimmed, or
    /// `renamed`.
    pub fn target_folder(&self) -> (r: String)
        ensures
            r@ == match self.target {
                Some(t) => trimmed(t@),
                None => default_target(),
            },
    {
        match &self.target {
            Some(t) => trim(t.as_str()),
            None => {
                proof {
                    reveal_strlit("renamed");
                }
                String::from_str("renamed")
            },
        }
    }

    /// Which files the run renames: those whose extension is among `chosen`
    /// when choosing by extension, else every file when asked, else images.
    pub fn selection(&self, chosen: Vec<String>) -> (r: Selection)
        ensures
            self.extension ==> (r matches Selection::Extensions(v) && v@ == chosen@),
            !self.extension && self.all ==> r is All,
            !self.extension && !self.all ==> r is Images,
    {
        if self.extension {
            Selection::Extensions(chosen)
        } else if self.all {
            Selection::All
        } else {
            Selection::Images
        }
    }
}

} // verus!
