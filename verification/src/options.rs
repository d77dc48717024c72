//! How a Node.js instance or worker is configured.

use vstd::prelude::*;
use crate::events::strings_view;

verus! {

/// Where libnode is, and the arguments that Node.js is started with.
pub struct NodejsOptions {
    pub libnode_path: String,
    pub args: Vec<String>,
}

/// A copy of a list of strings.
fn clone_strings(strings: &Vec<String>) -> (copy: Vec<String>)
    ensures
        copy@ == strings@,
{
    let mut copy: Vec<String> = Vec::new();
    let mut i: usize = 0;
    while i < strings.len()
        invariant
            i <= strings.len(),
            copy@ =~= strings@.take(i as int),
        decreases strings.len() - i,
    {
        copy.push(strings[i].clone());
        i = i + 1;
    }
    copy
}

impl NodejsOptions {
    /// The arguments, in the order in which Node.js sees them.
    pub open spec fn argv(&self) -> Seq<Seq<char>> {
        strings_view(self.args@)
    }

    /// The arguments, in the order in which Node.js sees them.
    pub fn as_argv(&self) -> (argv: Vec<String>)
        ensures
            argv@ == self.args@,
            strings_view(argv@) == self.argv(),
    {
        clone_strings(&self.args)
    }
}

impl Default for NodejsOptions {
    /// No path and no arguments.
    fn default() -> (options: Self)
        ensures
            options.libnode_path@ == Seq::<char>::empty(),
            options.argv() == Seq::<Seq<char>>::empty(),
            options.args@ == Seq::<String>::empty(),
    {
        let options = NodejsOptions { libnode_path: String::new(), args: Vec::new() };
        assert(options.argv() =~= Seq::<Seq<char>>::empty());
        options
    }
}

} // verus!
