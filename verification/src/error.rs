use vstd::prelude::*;

verus! {

/// The kinds of failure that a run can meet.
#[derive(Clone, Copy, Debug, PartialEq, Eq, Structural)]
pub enum ErrorKind {
    /// A URL that cannot be reached, or a name with an unexpected extension.
    Validation,
    /// A provider could not tell where to fetch from or what to call the file.
    Resolution,
    /// A connection or a read failed.
    Transport,
    /// A body or a list could not be read as what it should be.
    Parse,
    /// Handing a file on to its destination failed.
    Delivery,
    /// A directory or a file could not be created.
    Filesystem,
}

/// How far a failure reaches.
#[derive(Clone, Copy, Debug, PartialEq, Eq, Structural)]
pub enum Reach {
    /// The item is reported and skipped; the batch goes on.
    Item,
    /// The line is given up and the error handed to the caller.
    Line,
    /// The whole run ends.
    Run,
}

impl ErrorKind {
    /// How far a failure of this kind reaches. `initiating` says that it
    /// happened while the run was being set up: opening the list, calling
    /// the scrape service, creating the output directory.
    pub open spec fn reach_spec(self, initiating: bool) -> Reach {
        match self {
            ErrorKind::Delivery => Reach::Line,
            ErrorKind::Transport | ErrorKind::Parse | ErrorKind::Filesystem => if initiating {
                Reach::Run
            } else {
                Reach::Item
            },
            ErrorKind::Validation | ErrorKind::Resolution => Reach::Item,
        }
    }

    /// How far a failure of this kind reaches.
    pub fn reach(self, initiating: bool) -> (r: Reach)
        ensures
            r == self.reach_spec(initiating),
    {
        match self {
            ErrorKind::Delivery => Reach::Line,
            ErrorKind::Transport | ErrorKind::Parse | ErrorKind::Filesystem => if initiating {
                Reach::Run
            } else {
                Reach::Item
            },
            ErrorKind::Validation | ErrorKind::Resolution => Reach::Item,
        }
    }
}

} // verus!
