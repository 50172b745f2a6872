//! A record that borrows its name from text owned by the caller.

use vstd::prelude::*;
use vstd::string::*;
use crate::irun::{lines_view, IRunner};

verus! {

/// Runs the borrowed-name demonstration.
pub struct Runner {}

/// A node that does not own its name: it views text that the caller keeps,
/// and cannot outlive that text.
pub struct Node<'a> {
    pub id: i32,
    pub name: &'a str,
}

/// The lines of this demonstration.
pub open spec fn demo_output() -> Seq<Seq<char>> {
    seq!["lifetime run"@]
}

impl Runner {
    pub fn new() -> (r: Runner)
        ensures
            r.output() == demo_output(),
    {
        Runner {  }
    }
}

impl IRunner for Runner {
    open spec fn output(&self) -> Seq<Seq<char>> {
        demo_output()
    }

    fn run(&self) -> (lines: Vec<String>) {
        let _node = get_node(1, "head");
        let mut lines: Vec<String> = Vec::new();
        lines.push(String::from_str("lifetime run"));
        assert(lines_view(lines@) =~= demo_output());
        lines
    }
}

/// Builds a node with the given id whose name views `nm`.
pub fn get_node<'a>(id: i32, nm: &'a str) -> (node: Node<'a>)
    ensures
        node.id == id,
        node.name@ == nm@,
{
    Node { id: id, name: nm }
}

} // verus!
