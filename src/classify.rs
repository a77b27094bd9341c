use vstd::prelude::*;

use crate::entry::{contains_text, opt_view, strings_view, Entry};
use crate::file_name::{extension_of, split_file_name};

verus! {

/// Which files of a directory a run renames.
#[derive(Clone, Debug)]
pub enum Selection {
    /// Every file.
    All,
    /// The files whose extension is one of these.
    Extensions(Vec<String>),
    /// The files whose name suggests an image.
    Images,
}

/// Why an entry is left out of a run.
#[derive(Clone, Copy, Debug, PartialEq, Eq, Structural)]
pub enum SkipReason {
    /// It is a directory.
    Directory,
    /// Its extension is not among the chosen ones.
    ExtensionNotChosen,
    /// Its name does not suggest an image.
    NotAnImage,
}

/// Whether an entry takes part in a run.
#[derive(Clone, Copy, Debug, PartialEq, Eq, Structural)]
pub enum Decision {
    Eligible,
    Skipped(SkipReason),
}

/// Names the media type that mime_guess registers first for the extension of
/// a file name, if it registers any.
pub uninterp spec fn guessed_media_type(name: Seq<char>) -> Option<Seq<char>>;

/// Relies on mime_guess::from_path and MimeGuess::first_raw: the first media
/// type of mime_guess's fixed table for the name's extension, as text.
#[verifier::external_body]
fn guess_media_type(name: &str) -> (r: Option<String>)
    ensures
        opt_view(r) == guessed_media_type(name@),
{
    mime_guess::from_path(name).first_raw().map(String::from)
}

/// A media type whose top-level type is `image`.
pub open spec fn is_image_type(media: Option<Seq<char>>) -> bool {
    match media {
        Some(m) => m.len() >= 6 && m.subrange(0, 6) == seq!['i', 'm', 'a', 'g', 'e', '/'],
        None => false,
    }
}

/// The decision on an entry, given the media type guessed from its name.
pub open spec fn decision_of(
    is_dir: bool,
    name: Seq<char>,
    selection: Selection,
    media: Option<Seq<char>>,
) -> Decision {
    if is_dir {
        Decision::Skipped(SkipReason::Directory)
    } else {
        match selection {
            Selection::All => Decision::Eligible,
            Selection::Extensions(chosen) => if strings_view(chosen@).contains(extension_of(name)) {
                Decision::Eligible
            } else {
                Decision::Skipped(SkipReason::ExtensionNotChosen)
            },
            Selection::Images => if is_image_type(media) {
                Decision::Eligible
            } else {
                Decision::Skipped(SkipReason::NotAnImage)
            },
        }
    }
}

/// Whether a media type, given as text, has the top-level type `image`.
pub fn is_image_media(media: &Option<String>) -> (r: bool)
    ensures
        r == is_image_type(opt_view(*media)),
{
    match media {
        Some(m) => {
            let s = m.as_str();
            if s.unicode_len() < 6 {
                return false;
            }
            let prefix = s.substring_char(0, 6);
            let image = String::from_str("image/");
            proof {
                reveal_strlit("image/");
                assert(image@ =~= seq!['i', 'm', 'a', 'g', 'e', '/']);
            }
            String::from_str(prefix) == image
        },
        None => false,
    }
}

/// Decides whether an entry takes part in a run, given the media type that was
/// guessed from its name (only consulted when images are selected).
pub fn classify_with_media(entry: &Entry, selection: &Selection, media: &Option<String>) -> (r:
    Decision)
    ensures
        r == decision_of(entry.is_dir, entry.name@, *selection, opt_view(*media)),
{
    if entry.is_dir {
        return Decision::Skipped(SkipReason::Directory);
    }
    match selection {
        Selection::All => Decision::Eligible,
        Selection::Extensions(chosen) => {
            let (_stem, ext) = split_file_name(entry.name.as_str());
            if contains_text(chosen, &ext) {
                Decision::Eligible
            } else {
                Decision::Skipped(SkipReason::ExtensionNotChosen)
            }
        },
        Selection::Images => {
            if is_image_media(media) {
                Decision::Eligible
            } else {
                Decision::Skipped(SkipReason::NotAnImage)
            }
        },
    }
}

/// Decides whether an entry takes part in a run: directories never do; with
/// `All` every file does; with `Extensions` those whose extension was chosen;
/// with `Images` those whose name mime_guess takes for an image.
pub fn classify(entry: &Entry, selection: &Selection) -> (r: Decision)
    ensures
        r == decision_of(entry.is_dir, entry.name@, *selection, guessed_media_type(entry.name@)),
{
    let media = match selection {
        Selection::Images => guess_media_type(entry.name.as_str()),
        _ => None,
    };
    proof {
        if !(*selection is Images) {
            assert(decision_of(entry.is_dir, entry.name@, *selection, opt_view(media))
                == decision_of(entry.is_dir, entry.name@, *selection, guessed_media_type(entry.name@)));
        }
    }
    classify_with_media(entry, selection, &media)
}

/// The extensions of the files among the first `n` entries, each once, in the
/// order in which they first appear.
pub open spec fn offered_extensions(entries: Seq<Entry>, n: int) -> Seq<Seq<char>>
    decreases n,
{
    if n <= 0 {
        Seq::empty()
    } else {
        let earlier = offered_extensions(entries, n - 1);
        let e = entries[n - 1];
        if e.is_dir || earlier.contains(extension_of(e.name@)) {
            earlier
        } else {
            earlier.push(extension_of(e.name@))
        }
    }
}

/// The extensions to offer for a choice by extension: those of the files in
/// the listing (directories left out), each once, in order of first appearance.
pub fn get_extensions(entries: &Vec<Entry>) -> (r: Vec<String>)
    ensures
        strings_view(r@) == offered_extensions(entries@, entries@.len() as int),
{
    let mut offered: Vec<String> = Vec::new();
    let mut i: usize = 0;
    while i < entries.len()
        invariant
            i <= entries.len(),
            strings_view(offered@) == offered_extensions(entries@, i as int),
        decreases entries.len() - i,
    {
        let e = &entries[i];
        if !e.is_dir {
            let (_stem, ext) = split_file_name(e.name.as_str());
            if !contains_text(&offered, &ext) {
                offered.push(ext);
                proof {
                    assert(strings_view(offered@) =~= offered_extensions(entries@, i + 1));
                }
            }
        }
        i = i + 1;
    }
    offered
}

/// Classifying an entry does not depend on anything but the entry, the
/// selection and the guessed media type: two classifications of the same
/// entry under the same selection agree.
pub proof fn classification_is_stable(entry: Entry, selection: Selection, first: Decision, second: Decision)
    requires
        first == decision_of(entry.is_dir, entry.name@, selection, guessed_media_type(entry.name@)),
        second == decision_of(entry.is_dir, entry.name@, selection, guessed_media_type(entry.name@)),
    ensures
        first == second,
{
}

} // verus!
