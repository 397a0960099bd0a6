use vstd::prelude::*;

verus! {

/// What file discovery knows of one entry of the input directory.
pub struct DirEntry {
    /// The entry's full path, as it is handed to training.
    pub path: String,
    /// The last component of the path.
    pub file_name: String,
    /// Whether the entry is a regular file.
    pub is_file: bool,
}

/// Index of the last `'.'` in `name`, or -1 when there is none.
pub open spec fn last_dot(name: Seq<char>) -> int
    decreases name.len(),
{
    if name.len() == 0 {
        -1
    } else if name.last() == '.' {
        name.len() - 1
    } else {
        last_dot(name.drop_last())
    }
}

/// The extension of a file name: what follows its last `'.'`. A name without a
/// dot, a name whose only dot is its first character, and `..` have none.
pub open spec fn extension_of(name: Seq<char>) -> Option<Seq<char>> {
    if name == seq!['.', '.'] || last_dot(name) <= 0 {
        None
    } else {
        Some(name.subrange(last_dot(name) + 1, name.len() as int))
    }
}

/// The path of `e` when it is a regular file whose extension is exactly `ext`.
pub open spec fn selected_path(e: DirEntry, ext: Seq<char>) -> Option<Seq<char>> {
    if e.is_file && extension_of(e.file_name@) == Some(ext) {
        Some(e.path@)
    } else {
        None
    }
}

/// The extension of the file name `name` (see `extension_of`).
pub fn file_extension(name: &str) -> (r: Option<String>)
    ensures
        r matches Some(e) ==> extension_of(name@) == Some(e@),
        r is None ==> extension_of(name@) is None,
{
    let n = name.unicode_len();
    let mut dot: Option<usize> = None;
    let mut i: usize = 0;
    for c in it: name.chars()
        invariant
            n == name@.len(),
            it.seq() == name@,
            i == it.index(),
            i <= n,
            match dot {
                Some(d) => d < i && last_dot(name@.take(i as int)) == d as int,
                None => last_dot(name@.take(i as int)) == -1,
            },
    {
        assert(name@.take(i + 1).drop_last() == name@.take(i as int));
        if c == '.' {
            dot = Some(i);
        }
        i = i + 1;
    }
    assert(name@.take(n as int) == name@);
    if n == 2 && name.get_char(0) == '.' && name.get_char(1) == '.' {
        assert(name@ == seq!['.', '.']);
        return None;
    }
    match dot {
        Some(d) => {
            if d == 0 {
                None
            } else {
                Some(name.substring_char(d + 1, n).to_owned())
            }
        },
        None => None,
    }
}

/// The paths of the entries that are regular files with extension `ext`, in the
/// order of `entries`; every other entry is left out.
pub fn select_files_with_ext(entries: &Vec<DirEntry>, ext: &str) -> (r: Vec<String>)
    ensures
        r@.map_values(|p: String| p@) == entries@.filter_map(|e: DirEntry| selected_path(e, ext@)),
{
    let wanted = ext.to_owned();
    let mut r: Vec<String> = Vec::new();
    for i in 0..entries.len()
        invariant
            wanted@ == ext@,
            r@.map_values(|p: String| p@) == entries@.take(i as int).filter_map(
                |e: DirEntry| selected_path(e, ext@),
            ),
    {
        let e = &entries[i];
        assert(entries@.take(i + 1).drop_last() == entries@.take(i as int));
        let keep = if e.is_file {
            match file_extension(e.file_name.as_str()) {
                Some(x) => x == wanted,
                None => false,
            }
        } else {
            false
        };
        if keep {
            r.push(e.path.clone());
        }
        assert(r@.map_values(|p: String| p@) == entries@.take(i + 1).filter_map(
            |e: DirEntry| selected_path(e, ext@),
        ));
    }
    assert(entries@.take(entries@.len() as int) == entries@);
    r
}

} // verus!
