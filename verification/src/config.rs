//! The run configuration: input names in order, and which numbering
//! policy is selected. At most one of the two numbering flags may be set.

use vstd::prelude::*;

verus! {

/// Ordered input names (`"-"` stands for standard input) together with
/// the numbering policy flags.
#[derive(Debug)]
pub struct Config {
    files: Vec<String>,
    number_lines: bool,
    number_nonblank_lines: bool,
}

impl Config {
    /// The input names, as character sequences.
    pub closed spec fn spec_files(&self) -> Seq<Seq<char>> {
        self.files.deep_view()
    }

    /// Whether every line is numbered.
    pub closed spec fn spec_number_lines(&self) -> bool {
        self.number_lines
    }

    /// Whether only non-blank lines are numbered.
    pub closed spec fn spec_number_nonblank_lines(&self) -> bool {
        self.number_nonblank_lines
    }

    /// At most one numbering policy is selected.
    pub open spec fn wf(&self) -> bool {
        !(self.spec_number_lines() && self.spec_number_nonblank_lines())
    }

    /// Builds a configuration from the resolved arguments. The two
    /// numbering flags are mutually exclusive: both set is rejected.
    /// An empty input list defaults to standard input alone.
    pub fn new(files: Vec<String>, number_lines: bool, number_nonblank_lines: bool) -> (r:
        Option<Config>)
        ensures
            r is Some <==> !(number_lines && number_nonblank_lines),
            r matches Some(c) ==> {
                &&& c.wf()
                &&& c.spec_number_lines() == number_lines
                &&& c.spec_number_nonblank_lines() == number_nonblank_lines
                &&& c.spec_files() == (if files.deep_view().len() == 0 {
                    seq!["-"@]
                } else {
                    files.deep_view()
                })
            },
    {
        if number_lines && number_nonblank_lines {
            return None;
        }
        let mut files = files;
        if files.len() == 0 {
            files.push("-".to_owned());
            proof {
                assert(files.deep_view() =~= seq!["-"@]);
            }
        }
        Some(Config { files, number_lines, number_nonblank_lines })
    }

    /// The input names in order.
    pub fn files(&self) -> (r: &Vec<String>)
        ensures
            r.deep_view() == self.spec_files(),
    {
        &self.files
    }

    /// Whether every line is numbered.
    pub fn number_lines(&self) -> (r: bool)
        ensures
            r == self.spec_number_lines(),
    {
        self.number_lines
    }

    /// Whether only non-blank lines are numbered.
    pub fn number_nonblank_lines(&self) -> (r: bool)
        ensures
            r == self.spec_number_nonblank_lines(),
    {
        self.number_nonblank_lines
    }
}

} // verus!
