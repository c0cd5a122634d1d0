//! Message sinks.

use vstd::prelude::*;

verus! {

/// A sink for log messages.
pub trait Logger {
    fn log(&self, message: &str);
}

/// A logger that appends each message as a line to a file.
pub struct FileLogger {
    path: String,
}

impl FileLogger {
    /// A logger appending to the file at `path`.
    pub fn new(path: String) -> (l: Self)
        ensures
            l.path_view() == path@,
    {
        FileLogger { path }
    }

    /// The path of the log file.
    pub closed spec fn path_view(&self) -> Seq<char> {
        self.path@
    }

    /// The path of the log file.
    pub fn path(&self) -> (p: &str)
        ensures
            p@ == self.path_view(),
    {
        self.path.as_str()
    }
}

} // verus!
