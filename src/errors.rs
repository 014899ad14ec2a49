//! The library's error values, with the messages shown to the user.

use vstd::prelude::*;
use vstd::string::StringExecFns;
use crate::text::{decimal, decimal_string};

verus! {

/// A path that should name a directory names none.
#[derive(Debug, Clone, PartialEq, Eq)]
pub struct DirDoesNotExist {
    pub dir: String,
}

impl DirDoesNotExist {
    pub fn new(dir: String) -> (r: Self)
        ensures
            r.dir == dir,
    {
        Self { dir }
    }

    pub open spec fn spec_message(&self) -> Seq<char> {
        "The directory "@ + self.dir@ + " does not exist."@
    }

    pub fn message(&self) -> (r: String)
        ensures
            r@ == self.spec_message(),
    {
        let mut r = "The directory ".to_string();
        r.append(self.dir.as_str());
        r.append(" does not exist.");
        r
    }
}

/// A directory was missing and could not be created.
#[derive(Debug, Clone, PartialEq, Eq)]
pub struct DirCreationFailed {
    pub dir: String,
    /// The reason the creation failed, as the system reported it.
    pub err: String,
}

impl DirCreationFailed {
    pub fn new(dir: String, err: String) -> (r: Self)
        ensures
            r.dir == dir,
            r.err == err,
    {
        Self { dir, err }
    }

    pub open spec fn spec_message(&self) -> Seq<char> {
        "The directory "@ + self.dir@ + " does not exist, and its creation failed for the following reason: "@
            + self.err@
    }

    pub fn message(&self) -> (r: String)
        ensures
            r@ == self.spec_message(),
    {
        let mut r = "The directory ".to_string();
        r.append(self.dir.as_str());
        r.append(" does not exist, and its creation failed for the following reason: ");
        r.append(self.err.as_str());
        r
    }
}

/// The first part of the message on an invalid line: where it is.
pub open spec fn invalid_line_header(file: Seq<char>, line_no: u64) -> Seq<char> {
    "Invalid line in "@ + file + ", line number "@ + decimal(line_no as nat) + ".\n"@
}

fn invalid_line_header_string(file: &String, line_no: u64) -> (r: String)
    ensures
        r@ == invalid_line_header(file@, line_no),
{
    let mut r = "Invalid line in ".to_string();
    r.append(file.as_str());
    r.append(", line number ");
    let n = decimal_string(line_no);
    r.append(n.as_str());
    r.append(".\n");
    r
}

/// A line of a symlink-specification file does not have the two-path shape.
#[derive(Debug, Clone, PartialEq, Eq)]
pub struct NoMatchForLine {
    /// The path of the symlink-specification file.
    pub file: String,
    /// The number of the line, counted from 1.
    pub line_no: u64,
}

impl NoMatchForLine {
    pub open spec fn spec_message(&self) -> Seq<char> {
        invalid_line_header(self.file@, self.line_no)
            + "Can't match up against the symlink specification format."@
    }

    pub fn message(&self) -> (r: String)
        ensures
            r@ == self.spec_message(),
    {
        let mut r = invalid_line_header_string(&self.file, self.line_no);
        r.append("Can't match up against the symlink specification format.");
        r
    }
}

/// A line of a symlink-specification file names a target that does not exist.
#[derive(Debug, Clone, PartialEq, Eq)]
pub struct TargetDoesNotExistForLine {
    /// The path of the symlink-specification file.
    pub file: String,
    /// The number of the line, counted from 1.
    pub line_no: u64,
}

impl TargetDoesNotExistForLine {
    pub open spec fn spec_message(&self) -> Seq<char> {
        invalid_line_header(self.file@, self.line_no) + "The target does not exist."@
    }

    pub fn message(&self) -> (r: String)
        ensures
            r@ == self.spec_message(),
    {
        let mut r = invalid_line_header_string(&self.file, self.line_no);
        r.append("The target does not exist.");
        r
    }
}

} // verus!
