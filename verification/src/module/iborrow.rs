//! Shared and exclusive views of a text buffer.
//!
//! While a shared view of a buffer is still in use, the buffer cannot be
//! changed; while an exclusive view is in use, nothing else can read or
//! change the buffer. The compiler enforces both, so the functions here
//! only show the orders of use that are allowed.

use vstd::prelude::*;
use vstd::string::*;
use crate::irun::{lemma_lines_view_concat, lines_view, IRunner};

verus! {

/// Runs the borrowing demonstration.
pub struct Runner {}

/// The lines of this demonstration.
pub open spec fn demo_output() -> Seq<Seq<char>> {
    seq!["rust language"@, "s2:rust language !"@, "s:rust language !"@]
}

impl Runner {
    pub fn new() -> (r: Runner)
        ensures
            r.output() == demo_output(),
    {
        Runner {  }
    }
}

impl IRunner for Runner {
    open spec fn output(&self) -> Seq<Seq<char>> {
        demo_output()
    }

    fn run(&self) -> (lines: Vec<String>) {
        let mut lines = testReference();
        let _grown = testBorrow();
        let mut rest = testMutBorrow();
        let ghost head = lines@;
        let ghost tail = rest@;
        lines.append(&mut rest);
        proof {
            assert(lines@ =~= head + tail);
            lemma_lines_view_concat(head, tail);
            assert(lines_view(head) + lines_view(tail) =~= demo_output());
        }
        lines
    }
}

/// Reads a buffer through a shared view. The buffer is not changed while the
/// view is in use.
#[allow(non_snake_case)]
pub fn testReference() -> (lines: Vec<String>)
    ensures
        lines_view(lines@) == seq!["rust language"@],
{
    let s = String::from_str("rust language");
    let s1 = &s;
    let mut lines: Vec<String> = Vec::new();
    lines.push(s1.clone());
    assert(lines_view(lines@) =~= seq!["rust language"@]);
    lines
}

/// Takes a shared view of a buffer, then changes the buffer. This is allowed
/// because the view is not used after the change. Returns the buffer.
#[allow(non_snake_case)]
pub fn testBorrow() -> (s: String)
    ensures
        s@ == "hello rust!"@,
{
    proof {
        reveal_strlit("hello rust");
        reveal_strlit("!");
        reveal_strlit("hello rust!");
    }
    let mut s = String::from_str("hello rust");
    {
        let _s1 = &s;
        s.append("!");
    }
    assert(s@ =~= "hello rust!"@);
    s
}

/// Changes a buffer through an exclusive view, then reads the view and,
/// once the view is no longer used, the buffer itself. Both show the same
/// text.
#[allow(non_snake_case)]
pub fn testMutBorrow() -> (lines: Vec<String>)
    ensures
        lines_view(lines@) == seq!["s2:rust language !"@, "s:rust language !"@],
{
    proof {
        reveal_strlit("rust language");
        reveal_strlit(" !");
        reveal_strlit("s2:");
        reveal_strlit("s:");
        reveal_strlit("s2:rust language !");
        reveal_strlit("s:rust language !");
    }
    let mut s = String::from_str("rust language");
    let mut lines: Vec<String> = Vec::new();
    {
        let s2 = &mut s;
        let s4 = &s2;
        let _l = s4.as_str().len();
        s2.append(" !");
        lines.push(String::from_str("s2:").concat(s2.as_str()));
        lines.push(String::from_str("s:").concat(s.as_str()));
    }
    assert(lines@[0]@ =~= "s2:rust language !"@);
    assert(lines@[1]@ =~= "s:rust language !"@);
    assert(lines_view(lines@) =~= seq!["s2:rust language !"@, "s:rust language !"@]);
    lines
}

} // verus!
