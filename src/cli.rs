//! What the command line asks for.

use vstd::prelude::*;

verus! {

/// The options the program runs with.
#[derive(Debug)]
pub struct CliOptions {
    /// Keep running and reapply the mapping whenever the displays or the input
    /// devices change.
    pub watch: bool,
    /// Name of the output the tablets are mapped to.
    pub output: String,
}

impl CliOptions {
    /// Decides from the parsed flags whether to run: a request for help, or
    /// a missing output name, means the usage text is printed instead.
    pub fn from_flags(help: bool, watch: bool, output: Option<String>) -> (r: Option<CliOptions>)
        ensures
            r is None <==> (help || output is None),
            r matches Some(o) ==> o.watch == watch && o.output == output->Some_0,
    {
        if help {
            return None;
        }
        match output {
            Some(name) => Some(CliOptions { watch, output: name }),
            None => None,
        }
    }
}

} // verus!
