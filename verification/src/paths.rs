//! Derivation of the default output path of a watched file.
//!
//! When a file entry gives no explicit `output`, the destination is composed
//! from the source path as `<parent><stem>.min.<ext>`: everything up to and
//! including the last `/` is kept, the file name must contain a `.` after at
//! least one leading character, and `.min.` is spliced in before the
//! extension.

use vstd::prelude::*;

verus! {

/// Index of the last occurrence of `c` in `s`, or `-1` when `c` does not
/// occur.
pub open spec fn last_index_of(s: Seq<char>, c: char) -> int
    decreases s.len(),
{
    if s.len() == 0 {
        -1
    } else if s[s.len() - 1] == c {
        s.len() - 1
    } else {
        last_index_of(s.drop_last(), c)
    }
}

/// Position right after the last `/` of a path; `0` when the path has no
/// directory part.
pub open spec fn filename_start(p: Seq<char>) -> int {
    last_index_of(p, '/') + 1
}

/// The file-name portion of a path: everything after the last `/`.
pub open spec fn file_name(p: Seq<char>) -> Seq<char> {
    p.subrange(filename_start(p), p.len() as int)
}

/// The directory portion of a path, up to and including the last `/`; empty
/// when the path has no directory part.
pub open spec fn dir_prefix(p: Seq<char>) -> Seq<char> {
    p.subrange(0, filename_start(p))
}

/// A default output can be derived only when the path ends in a non-empty
/// file name that has an extension separator after at least one character.
pub open spec fn has_output_form(p: Seq<char>) -> bool {
    &&& file_name(p).len() > 0
    &&& last_index_of(file_name(p), '.') > 0
}

/// The stem of the file name: the part before its last `.`.
pub open spec fn name_stem(p: Seq<char>) -> Seq<char> {
    file_name(p).subrange(0, last_index_of(file_name(p), '.'))
}

/// The extension of the file name: the part after its last `.`.
pub open spec fn name_ext(p: Seq<char>) -> Seq<char> {
    file_name(p).subrange(last_index_of(file_name(p), '.') + 1, file_name(p).len() as int)
}

/// The derived default output path: `<parent><stem>.min.<ext>`.
pub open spec fn derived_output(p: Seq<char>) -> Seq<char> {
    dir_prefix(p) + name_stem(p) + seq!['.', 'm', 'i', 'n', '.'] + name_ext(p)
}

/// Index of the last occurrence of `c` in `s`, scanned from the end.
pub fn find_last(s: &str, c: char) -> (r: Option<usize>)
    ensures
        match r {
            Some(i) => i < s@.len() && last_index_of(s@, c) == i,
            None => last_index_of(s@, c) == -1,
        },
{
    let n = s.unicode_len();
    proof {
        assert(s@.take(n as int) =~= s@);
    }
    let mut i: usize = n;
    while i > 0
        invariant
            i <= n,
            n == s@.len(),
            last_index_of(s@, c) == last_index_of(s@.take(i as int), c),
        decreases i,
    {
        i = i - 1;
        if s.get_char(i) == c {
            proof {
                assert(s@.take(i + 1).last() == s@[i as int]);
            }
            return Some(i);
        }
        proof {
            assert(s@.take(i + 1).drop_last() =~= s@.take(i as int));
        }
    }
    proof {
        assert(s@.take(0) =~= Seq::<char>::empty());
    }
    None
}

/// Derives the default output path `<parent><stem>.min.<ext>` from a source
/// path, or reports that the path lacks a usable file name or extension.
pub fn default_output_path(path: &str) -> (r: Option<String>)
    ensures
        match r {
            Some(o) => has_output_form(path@) && o@ == derived_output(path@),
            None => !has_output_form(path@),
        },
{
    let n = path.unicode_len();
    let fs: usize = match find_last(path, '/') {
        Some(i) => i + 1,
        None => 0,
    };
    if fs == n {
        proof {
            assert(file_name(path@) =~= Seq::<char>::empty());
        }
        return None;
    }
    let fname = path.substring_char(fs, n);
    proof {
        assert(fname@ =~= file_name(path@));
    }
    let dot: usize = match find_last(fname, '.') {
        Some(d) => d,
        None => {
            return None;
        },
    };
    if dot == 0 {
        return None;
    }
    let fname_len = fname.unicode_len();
    let stem = fname.substring_char(0, dot);
    let ext = fname.substring_char(dot + 1, fname_len);
    let prefix = path.substring_char(0, fs);
    let mut out = String::new();
    out.append(prefix);
    out.append(stem);
    out.append(".min.");
    out.append(ext);
    proof {
        reveal_strlit(".min.");
        assert(".min."@ =~= seq!['.', 'm', 'i', 'n', '.']);
        assert(prefix@ =~= dir_prefix(path@));
        assert(stem@ =~= name_stem(path@));
        assert(ext@ =~= name_ext(path@));
        assert(out@ =~= derived_output(path@));
    }
    Some(out)
}

} // verus!
