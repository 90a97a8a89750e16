//! Paths as the operating system knows them. They need not be text, so that the library carries them
//! without a look inside, together with the text that they are shown as.

use vstd::prelude::*;
use vstd::string::*;

use crate::failure::Failure;
use crate::text::{join_path, path_below};

verus! {

/// A path of the file system; `P` is a path as the operating system knows it.
#[derive(Debug)]
pub enum FilePath<P> {
    /// A path that is known as text.
    Fixed(String),
    /// A path, and the text that it is shown as.
    Given(P, String),
    /// A path and the text that it is shown as, and a relative path that is known as text, which
    /// leads on from there.
    Below(P, String, String),
}

/// A path of the file system, with its texts as values.
pub enum FilePathValue<P> {
    Fixed(Seq<char>),
    Given(P, Seq<char>),
    Below(P, Seq<char>, Seq<char>),
}

impl<P> View for FilePath<P> {
    type V = FilePathValue<P>;

    open spec fn view(&self) -> FilePathValue<P> {
        match self {
            FilePath::Fixed(text) => FilePathValue::Fixed(text@),
            FilePath::Given(path, shown) => FilePathValue::Given(*path, shown@),
            FilePath::Below(path, shown, rest) => FilePathValue::Below(*path, shown@, rest@),
        }
    }
}

impl<P> FilePathValue<P> {
    /// The text that the path is shown as.
    pub open spec fn shown(self) -> Seq<char> {
        match self {
            FilePathValue::Fixed(text) => text,
            FilePathValue::Given(_, shown) => shown,
            FilePathValue::Below(_, shown, rest) => path_below(shown, rest),
        }
    }

    /// The path that `part` leads to from here.
    pub open spec fn below(self, part: Seq<char>) -> FilePathValue<P> {
        match self {
            FilePathValue::Fixed(text) => FilePathValue::Fixed(path_below(text, part)),
            FilePathValue::Given(path, shown) => FilePathValue::Below(path, shown, part),
            FilePathValue::Below(path, shown, rest) => FilePathValue::Below(
                path,
                shown,
                path_below(rest, part),
            ),
        }
    }
}

/// A path, or why there is none.
pub open spec fn path_outcome<P>(result: Result<FilePath<P>, Failure>) -> Result<
    FilePathValue<P>,
    Seq<Seq<char>>,
> {
    match result {
        Ok(path) => Ok(path@),
        Err(failure) => Err(failure@),
    }
}

/// A list of paths, as values.
pub open spec fn path_values<P>(paths: Seq<FilePath<P>>) -> Seq<FilePathValue<P>> {
    Seq::new(paths.len(), |i: int| paths[i]@)
}

/// A list of paths, or why there is none.
pub open spec fn paths_outcome<P>(result: Result<Vec<FilePath<P>>, Failure>) -> Result<
    Seq<FilePathValue<P>>,
    Seq<Seq<char>>,
> {
    match result {
        Ok(list) => Ok(path_values(list@)),
        Err(failure) => Err(failure@),
    }
}

/// Adds a path to a list.
pub fn push_path<P>(list: &mut Vec<FilePath<P>>, path: FilePath<P>)
    ensures
        path_values(final(list)@) == path_values(old(list)@).push(path@),
{
    list.push(path);
    assert(path_values(list@) =~= path_values(old(list)@).push(path@));
}

/// The path, where there is one.
pub open spec fn opt_path<P>(path: Option<&FilePath<P>>) -> Option<FilePathValue<P>> {
    match path {
        Some(path) => Some(path@),
        None => None,
    }
}

impl<P> FilePath<P> {
    /// The text that the path is shown as.
    pub fn text(&self) -> (text: String)
        ensures
            text@ == self@.shown(),
    {
        match self {
            FilePath::Fixed(text) => text.clone(),
            FilePath::Given(_, shown) => shown.clone(),
            FilePath::Below(_, shown, rest) => join_path(shown.as_str(), rest.as_str()),
        }
    }
}

impl<P: Copy> FilePath<P> {
    /// The same path once more.
    pub fn again(&self) -> (path: FilePath<P>)
        ensures
            path@ == self@,
    {
        match self {
            FilePath::Fixed(text) => FilePath::Fixed(text.clone()),
            FilePath::Given(path, shown) => FilePath::Given(*path, shown.clone()),
            FilePath::Below(path, shown, rest) => FilePath::Below(
                *path,
                shown.clone(),
                rest.clone(),
            ),
        }
    }

    /// The path that `part` leads to from here.
    pub fn below(&self, part: &str) -> (path: FilePath<P>)
        ensures
            path@ == self@.below(part@),
    {
        match self {
            FilePath::Fixed(text) => FilePath::Fixed(join_path(text.as_str(), part)),
            FilePath::Given(path, shown) => FilePath::Below(
                *path,
                shown.clone(),
                part.to_string(),
            ),
            FilePath::Below(path, shown, rest) => FilePath::Below(
                *path,
                shown.clone(),
                join_path(rest.as_str(), part),
            ),
        }
    }
}

/// A path below another one is shown as such.
pub proof fn law_paths_are_shown_in_full<P>(base: FilePathValue<P>, part: Seq<char>)
    ensures
        base.below(part).shown() == path_below(base.shown(), part),
{
    if let FilePathValue::Below(_, shown, rest) = base {
        let inner = path_below(rest, part);
        let outer = path_below(path_below(shown, rest), part);
        assert(path_below(shown, inner) =~= outer);
    }
}

/// A path is shown by its own text, and one below another keeps what the operating system knows of
/// it.
pub proof fn law_paths_keep_their_origin<P>(
    path: P,
    shown: Seq<char>,
    rest: Seq<char>,
    part: Seq<char>,
)
    ensures
        FilePathValue::<P>::Fixed(shown).shown() == shown,
        FilePathValue::Given(path, shown).shown() == shown,
        FilePathValue::Below(path, shown, rest).shown() == path_below(shown, rest),
        FilePathValue::<P>::Fixed(shown).below(part) == FilePathValue::<P>::Fixed(
            path_below(shown, part),
        ),
        FilePathValue::Given(path, shown).below(part) == FilePathValue::Below(path, shown, part),
        FilePathValue::Below(path, shown, rest).below(part) == FilePathValue::Below(
            path,
            shown,
            path_below(rest, part),
        ),
{
}

} // verus!
