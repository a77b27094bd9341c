use vstd::prelude::*;

verus! {

/// The moment a file was last modified, together with the local UTC offset
/// that was in effect at that moment.
#[derive(Clone, Copy, Debug, PartialEq, Eq, Structural)]
pub struct Timestamp {
    /// Whole seconds since the Unix epoch.
    pub secs: i64,
    /// Nanoseconds past `secs`.
    pub nanos: u32,
    /// Seconds east of UTC of the local time zone at that moment.
    pub offset_secs: i32,
}

/// One item of a directory listing.
#[derive(Clone, Debug)]
pub struct Entry {
    /// The file name, including a leading dot for dotfiles.
    pub name: String,
    /// Whether the item is a directory.
    pub is_dir: bool,
    /// When the item was last modified.
    pub modified: Timestamp,
}

/// The characters of each string in `v`.
pub open spec fn strings_view(v: Seq<String>) -> Seq<Seq<char>> {
    v.map_values(|s: String| s@)
}

/// The characters of an optional string.
pub open spec fn opt_view(o: Option<String>) -> Option<Seq<char>> {
    match o {
        Some(s) => Some(s@),
        None => None,
    }
}

/// Whether `item` is among the strings of `list`.
pub fn contains_text(list: &Vec<String>, item: &String) -> (r: bool)
    ensures
        r == strings_view(list@).contains(item@),
{
    let mut i: usize = 0;
    while i < list.len()
        invariant
            i <= list.len(),
            forall|k: int| 0 <= k < i ==> list@[k]@ != item@,
        decreases list.len() - i,
    {
        if list[i] == *item {
            proof {
                assert(strings_view(list@)[i as int] == item@);
            }
            return true;
        }
        i = i + 1;
    }
    proof {
        if strings_view(list@).contains(item@) {
            let k = choose|k: int| 0 <= k < strings_view(list@).len() && strings_view(list@)[k] == item@;
            assert(list@[k]@ == item@);
        }
    }
    false
}

} // verus!
