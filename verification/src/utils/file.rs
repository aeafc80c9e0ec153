use crate::error::ErrorKind;
use crate::text::{append, chars_of, copy_of, ends_with, has_suffix, string_of};
use vstd::prelude::*;

verus! {

/// The place of the file `name` in the directory `dir`: the two joined by one
/// `/`, or `name` alone where no directory is given.
pub open spec fn joined_path(dir: Seq<char>, name: Seq<char>) -> Seq<char> {
    if dir.len() == 0 {
        name
    } else if has_suffix(dir, "/"@) {
        dir + name
    } else {
        dir + "/"@ + name
    }
}

pub(crate) fn joined_chars(dir: &Vec<char>, name: &Vec<char>) -> (out: Vec<char>)
    ensures
        out@ == joined_path(dir@, name@),
{
    if dir.len() == 0 {
        return copy_of(name);
    }
    let mut out = copy_of(dir);
    let slash = chars_of("/");
    if !ends_with(dir, &slash) {
        append(&mut out, &slash);
    }
    append(&mut out, name);
    out
}

/// Names of files on disk.
pub struct FileMisc;

impl FileMisc {
    /// Judges an attempt to create the output directory: it is ready where
    /// the attempt created it (`created`) or found it there already
    /// (`exists`); anything else is a `Filesystem` failure.
    pub fn directory_ready(created: bool, exists: bool) -> (r: Result<(), ErrorKind>)
        ensures
            r is Ok <==> created || exists,
            r is Err ==> r == Err::<(), ErrorKind>(ErrorKind::Filesystem),
    {
        if created || exists {
            Ok(())
        } else {
            Err(ErrorKind::Filesystem)
        }
    }

    /// Where the file `filename` goes in the directory `path`.
    pub fn get_output_path(path: &str, filename: &str) -> (out: String)
        ensures
            out@ == joined_path(path@, filename@),
    {
        string_of(&joined_chars(&chars_of(path), &chars_of(filename)))
    }
}

} // verus!
