//! What a caller submits: a job, or a request for a test print.

use vstd::prelude::*;
use crate::command::Command;

verus! {

/// A request to print the built-in test page, a single test line, or both.
#[derive(Debug)]
pub struct PrinterTestSchema {
    test_page: bool,
    test_line: String,
}

impl PrinterTestSchema {
    pub closed spec fn spec_test_page(&self) -> bool {
        self.test_page
    }

    pub closed spec fn spec_test_line(&self) -> Seq<char> {
        self.test_line@
    }

    pub fn new(test_page: bool, test_line: &str) -> (r: Self)
        ensures
            r.spec_test_page() == test_page,
            r.spec_test_line() == test_line@,
    {
        PrinterTestSchema { test_page, test_line: test_line.to_owned() }
    }

    /// The line to print; empty when none is wanted.
    pub fn test_line(&self) -> (r: &str)
        ensures
            r@ == self.spec_test_line(),
    {
        self.test_line.as_str()
    }

    /// Whether the built-in test page is wanted.
    pub fn test_page(&self) -> (r: bool)
        ensures
            r == self.spec_test_page(),
    {
        self.test_page
    }
}

impl Clone for PrinterTestSchema {
    fn clone(&self) -> (r: Self)
        ensures
            r == *self,
    {
        PrinterTestSchema { test_page: self.test_page, test_line: self.test_line.clone() }
    }
}

/// A submitted print job.
#[derive(Debug)]
pub struct Commands {
    pub commands: Vec<Command>,
}

} // verus!
