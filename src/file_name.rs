use vstd::prelude::*;

verus! {

/// A name that starts with a dot, such as `.gitignore`.
pub open spec fn is_dotfile(name: Seq<char>) -> bool {
    name.len() > 0 && name[0] == '.'
}

/// The position of the last dot among the first `n` characters of `name`.
pub open spec fn last_dot_in(name: Seq<char>, n: int) -> Option<int>
    decreases n,
{
    if n <= 0 {
        None
    } else if name[n - 1] == '.' {
        Some(n - 1)
    } else {
        last_dot_in(name, n - 1)
    }
}

/// The position of the last dot in `name`.
pub open spec fn last_dot(name: Seq<char>) -> Option<int> {
    last_dot_in(name, name.len() as int)
}

/// The extension of a file name: what follows its last dot, or, for a
/// dotfile, everything after the leading dot. A name without a dot has an
/// empty extension.
pub open spec fn extension_of(name: Seq<char>) -> Seq<char> {
    if is_dotfile(name) {
        name.subrange(1, name.len() as int)
    } else {
        match last_dot(name) {
            Some(i) => name.subrange(i + 1, name.len() as int),
            None => Seq::empty(),
        }
    }
}

/// The stem of a file name: the name without its extension, or, for a
/// dotfile, everything after the leading dot.
pub open spec fn stem_of(name: Seq<char>) -> Seq<char> {
    if is_dotfile(name) {
        name.subrange(1, name.len() as int)
    } else {
        match last_dot(name) {
            Some(i) => name.subrange(0, i),
            None => name,
        }
    }
}

proof fn lemma_last_dot_in_bounds(name: Seq<char>, n: int)
    requires
        0 <= n <= name.len(),
    ensures
        match last_dot_in(name, n) {
            Some(i) => 0 <= i < n && name[i] == '.',
            None => true,
        },
    decreases n,
{
    if n > 0 && name[n - 1] != '.' {
        lemma_last_dot_in_bounds(name, n - 1);
    }
}

/// Finds the position of the last dot in `name`.
fn find_last_dot(name: &str) -> (r: Option<usize>)
    ensures
        match r {
            Some(i) => last_dot(name@) == Some(i as int),
            None => last_dot(name@) is None,
        },
{
    let len = name.unicode_len();
    let mut i: usize = len;
    while i > 0
        invariant
            i <= len == name@.len(),
            last_dot(name@) == last_dot_in(name@, i as int),
        decreases i,
    {
        if name.get_char(i - 1) == '.' {
            return Some(i - 1);
        }
        i = i - 1;
    }
    None
}

/// Splits a file name into its stem and its extension.
pub fn split_file_name(name: &str) -> (r: (String, String))
    ensures
        r.0@ == stem_of(name@),
        r.1@ == extension_of(name@),
{
    let len = name.unicode_len();
    if len > 0 && name.get_char(0) == '.' {
        let rest = name.substring_char(1, len);
        (String::from_str(rest), String::from_str(rest))
    } else {
        let dot = find_last_dot(name);
        proof {
            lemma_last_dot_in_bounds(name@, name@.len() as int);
        }
        match dot {
            Some(i) => (
                String::from_str(name.substring_char(0, i)),
                String::from_str(name.substring_char(i + 1, len)),
            ),
            None => (String::from_str(name), String::new()),
        }
    }
}

} // verus!
