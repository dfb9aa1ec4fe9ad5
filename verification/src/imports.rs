//! Where an imported module is looked for.
//!
//! The paths are computed here; reading the files is left to the caller,
//! who tries the candidates in order and takes the first that opens.

use crate::runtime::texts;
use crate::value::option_text;
use vstd::prelude::*;
use vstd::string::*;

verus! {

/// Whether a path starts with a dot.
pub open spec fn dotted(path: Seq<char>) -> bool {
    path.len() > 0 && path[0] == '.'
}

/// `path` with its leading dot, if it has one, replaced by `base`.
pub open spec fn resolve_dot(path: Seq<char>, base: Seq<char>) -> Seq<char> {
    if dotted(path) {
        base + path.subrange(1, path.len() as int)
    } else {
        path
    }
}

/// The pieces of `s[start..]` between occurrences of `sep`, where
/// `s[start..i]` holds none.
pub open spec fn split_from(s: Seq<char>, sep: char, start: int, i: int) -> Seq<Seq<char>>
    decreases s.len() - i,
{
    if i >= s.len() || start < 0 || i < start {
        seq![s.subrange(start, s.len() as int)]
    } else if s[i] == sep {
        seq![s.subrange(start, i)] + split_from(s, sep, i + 1, i + 1)
    } else {
        split_from(s, sep, start, i + 1)
    }
}

/// The pieces of `s` between occurrences of `sep`; there is one more piece
/// than there are occurrences.
pub open spec fn split(s: Seq<char>, sep: char) -> Seq<Seq<char>> {
    split_from(s, sep, 0, 0)
}

/// The file `name` in the directory `dir`.
pub open spec fn in_dir(dir: Seq<char>, name: Seq<char>) -> Seq<char> {
    dir + seq!['/'] + name
}

/// The file `name` in each of `dirs`.
pub open spec fn in_dirs(dirs: Seq<Seq<char>>, name: Seq<char>) -> Seq<Seq<char>> {
    Seq::new(dirs.len(), |i: int| in_dir(dirs[i], name))
}

/// The files that an import of `path` may mean, in the order in which
/// they are tried. A path that starts with a dot is relative to the
/// directory of the program, `origin_dir`. Any other path that holds a
/// slash is taken as it stands. A bare name is looked for in the directory
/// of the program, then in each directory of the library path `lib`, a
/// list separated by colons.
pub open spec fn candidates(origin_dir: Seq<char>, path: Seq<char>, lib: Option<Seq<char>>) -> Seq<
    Seq<char>,
> {
    if dotted(path) {
        seq![resolve_dot(path, origin_dir)]
    } else if path.contains('/') {
        seq![path]
    } else {
        seq![in_dir(origin_dir, path)] + match lib {
            None => Seq::empty(),
            Some(list) => in_dirs(split(list, ':'), path),
        }
    }
}

/// Whether the path starts with a dot.
pub fn starts_with_dot(path: &String) -> (out: bool)
    ensures
        out == dotted(path@),
{
    path.as_str().unicode_len() > 0 && path.as_str().get_char(0) == '.'
}

/// Whether the path holds a slash.
pub fn has_slash(path: &String) -> (out: bool)
    ensures
        out == path@.contains('/'),
{
    let length = path.as_str().unicode_len();
    let mut i: usize = 0;
    while i < length
        invariant
            i <= length,
            length == path@.len(),
            forall|k: int| 0 <= k < i ==> path@[k] != '/',
        decreases length - i,
    {
        if path.as_str().get_char(i) == '/' {
            return true;
        }
        i += 1;
    }
    false
}

/// The path of the program: a leading dot stands for the working directory.
pub fn origin_path(origin_file: &String, cwd: &String) -> (out: String)
    ensures
        out@ == resolve_dot(origin_file@, cwd@),
{
    if starts_with_dot(origin_file) {
        let length = origin_file.as_str().unicode_len();
        let mut out = cwd.clone();
        out.append(origin_file.as_str().substring_char(1, length));
        out
    } else {
        origin_file.clone()
    }
}

/// The file `name` in the directory `dir`.
pub fn join(dir: &str, name: &String) -> (out: String)
    ensures
        out@ == in_dir(dir@, name@),
{
    proof {
        reveal_strlit("/");
    }
    let mut out = String::from_str(dir);
    out.append("/");
    out.append(name.as_str());
    assert(out@ =~= in_dir(dir@, name@));
    out
}

/// The directories of a library path.
pub fn split_dirs(list: &String) -> (out: Vec<String>)
    ensures
        texts(out@) == split(list@, ':'),
{
    let text = list.as_str();
    let length = text.unicode_len();
    let mut out: Vec<String> = Vec::new();
    let mut start: usize = 0;
    let mut i: usize = 0;
    assert(texts(out@) + split_from(list@, ':', 0, 0) =~= split(list@, ':'));
    while i < length
        invariant
            start <= i <= length,
            length == list@.len(),
            text@ == list@,
            split(list@, ':') == texts(out@) + split_from(list@, ':', start as int, i as int),
        decreases length - i,
    {
        if text.get_char(i) == ':' {
            let ghost before = texts(out@);
            out.push(String::from_str(text.substring_char(start, i)));
            assert(texts(out@) =~= before.push(list@.subrange(start as int, i as int)));
            assert(texts(out@) + split_from(list@, ':', i + 1, i + 1) =~= before + split_from(
                list@,
                ':',
                start as int,
                i as int,
            ));
            start = i + 1;
        }
        i += 1;
    }
    let ghost before = texts(out@);
    out.push(String::from_str(text.substring_char(start, length)));
    assert(texts(out@) =~= before.push(list@.subrange(start as int, length as int)));
    assert(texts(out@) =~= split(list@, ':'));
    out
}

/// The files that an import of `path` may mean, in the order in which they
/// are tried.
pub fn import_candidates(origin_dir: &String, path: &String, lib: &Option<String>) -> (out: Vec<
    String,
>)
    ensures
        texts(out@) == candidates(origin_dir@, path@, option_text(*lib)),
{
    let mut out: Vec<String> = Vec::new();
    if starts_with_dot(path) {
        out.push(origin_path(path, origin_dir));
        assert(texts(out@) =~= seq![resolve_dot(path@, origin_dir@)]);
        return out;
    }
    if has_slash(path) {
        out.push(path.clone());
        assert(texts(out@) =~= seq![path@]);
        return out;
    }
    out.push(join(origin_dir.as_str(), path));
    assert(texts(out@) =~= seq![in_dir(origin_dir@, path@)]);
    match lib {
        None => {
            assert(texts(out@) =~= candidates(origin_dir@, path@, option_text(*lib)));
        },
        Some(list) => {
            let dirs = split_dirs(list);
            let mut i: usize = 0;
            while i < dirs.len()
                invariant
                    i <= dirs.len(),
                    texts(out@) == seq![in_dir(origin_dir@, path@)] + in_dirs(
                        texts(dirs@),
                        path@,
                    ).take(i as int),
                decreases dirs.len() - i,
            {
                let ghost before = texts(out@);
                out.push(join(dirs[i].as_str(), path));
                assert(texts(out@) =~= before.push(in_dir(dirs[i as int]@, path@)));
                assert(texts(out@) =~= seq![in_dir(origin_dir@, path@)] + in_dirs(
                    texts(dirs@),
                    path@,
                ).take(i + 1));
                i += 1;
            }
            assert(in_dirs(texts(dirs@), path@).take(dirs.len() as int) =~= in_dirs(
                texts(dirs@),
                path@,
            ));
        },
    }
    out
}

} // verus!
