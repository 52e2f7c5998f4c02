//! The per-entry artefact kind and the audit row of a run.

use vstd::prelude::*;

verus! {

/// The kind of a filesystem entry, as stored in the artefact table.
#[derive(Debug, Clone, Copy, PartialEq, Eq, Structural)]
pub enum ForensicsFileType {
    File,
    Directory,
    Symlink,
    Unknown,
}

impl ForensicsFileType {
    /// The kind of an entry from its type bits: a regular file first, then a
    /// directory, then a symbolic link, anything else unknown.
    pub fn from_flags(is_file: bool, is_dir: bool, is_symlink: bool) -> (r: ForensicsFileType)
        ensures
            r == (if is_file {
                ForensicsFileType::File
            } else if is_dir {
                ForensicsFileType::Directory
            } else if is_symlink {
                ForensicsFileType::Symlink
            } else {
                ForensicsFileType::Unknown
            }),
    {
        if is_file {
            ForensicsFileType::File
        } else if is_dir {
            ForensicsFileType::Directory
        } else if is_symlink {
            ForensicsFileType::Symlink
        } else {
            ForensicsFileType::Unknown
        }
    }

    pub open spec fn spec_code(self) -> Seq<char> {
        match self {
            ForensicsFileType::File => "F"@,
            ForensicsFileType::Directory => "D"@,
            ForensicsFileType::Symlink => "S"@,
            ForensicsFileType::Unknown => "U"@,
        }
    }

    /// The one-letter code stored in the `type` column.
    pub fn code(self) -> (r: &'static str)
        ensures
            r@ == self.spec_code(),
    {
        match self {
            ForensicsFileType::File => "F",
            ForensicsFileType::Directory => "D",
            ForensicsFileType::Symlink => "S",
            ForensicsFileType::Unknown => "U",
        }
    }
}

impl Default for ForensicsFileType {
    fn default() -> (r: ForensicsFileType)
        ensures
            r == ForensicsFileType::Unknown,
    {
        ForensicsFileType::Unknown
    }
}

/// The audit row of one run. Times are microseconds since the Unix epoch.
pub struct RunHistory {
    pub start_time: u64,
    pub end_time: u64,
    /// Number of entries the run enumerated.
    pub nb_files: i64,
    /// The command line, verbatim.
    pub args: String,
    pub tags: String,
}

impl RunHistory {
    /// The row of a run that starts at `start_time`: no entry yet, and an
    /// end time equal to the start until the run finishes.
    pub fn new(start_time: u64, args: String) -> (r: RunHistory)
        ensures
            r.start_time == start_time,
            r.end_time == start_time,
            r.nb_files == 0,
            r.args@ == args@,
            r.tags@ == Seq::<char>::empty(),
    {
        RunHistory { start_time, end_time: start_time, nb_files: 0, args, tags: String::new() }
    }

    /// Records the end of the run and the number of entries it enumerated.
    /// The count saturates at the largest value the column holds.
    pub fn finish(&mut self, end_time: u64, entries: u64)
        ensures
            final(self).start_time == old(self).start_time,
            final(self).end_time == end_time,
            final(self).nb_files == (if entries <= i64::MAX as u64 { entries as i64 } else { i64::MAX }),
            final(self).args@ == old(self).args@,
            final(self).tags@ == old(self).tags@,
    {
        self.end_time = end_time;
        self.nb_files = if entries <= i64::MAX as u64 { entries as i64 } else { i64::MAX };
    }

    /// Elapsed time of the run in microseconds; 0 when the clock went back.
    pub fn elapsed(&self) -> (r: u64)
        ensures
            r == (if self.end_time >= self.start_time { self.end_time - self.start_time } else { 0 }),
    {
        if self.end_time >= self.start_time {
            self.end_time - self.start_time
        } else {
            0
        }
    }
}

} // verus!
