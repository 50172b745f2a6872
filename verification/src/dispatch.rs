//! The dispatcher: an ordered registry of demonstrations and its single pass.

use vstd::prelude::*;
use crate::irun::{lemma_lines_view_concat, lines_view, IRunner};
use crate::module::{iborrow, ienum, ilifetime, istring};

verus! {

/// One place in the registry: any of the demonstrations.
pub enum Demo {
    Lifetime(ilifetime::Runner),
    Tagged(ienum::Runner),
    Text(istring::Runner),
    Borrow(iborrow::Runner),
}

impl IRunner for Demo {
    open spec fn output(&self) -> Seq<Seq<char>> {
        match self {
            Demo::Lifetime(r) => r.output(),
            Demo::Tagged(r) => r.output(),
            Demo::Text(r) => r.output(),
            Demo::Borrow(r) => r.output(),
        }
    }

    fn run(&self) -> (lines: Vec<String>) {
        match self {
            Demo::Lifetime(r) => r.run(),
            Demo::Tagged(r) => r.run(),
            Demo::Text(r) => r.run(),
            Demo::Borrow(r) => r.run(),
        }
    }
}

/// The registry: each demonstration once, in the order in which they run.
pub open spec fn registry() -> Seq<Demo> {
    seq![
        Demo::Lifetime(ilifetime::Runner {  }),
        Demo::Tagged(ienum::Runner {  }),
        Demo::Text(istring::Runner {  }),
        Demo::Borrow(iborrow::Runner {  }),
    ]
}

/// The lines of a pass over `rs`: the lines of the first entry, then those of
/// the second, and so on to the last.
pub open spec fn outputs_of(rs: Seq<Demo>) -> Seq<Seq<char>>
    decreases rs.len(),
{
    if rs.len() == 0 {
        Seq::empty()
    } else {
        outputs_of(rs.drop_last()) + rs.last().output()
    }
}

/// The lines of the whole program.
pub open spec fn program_output() -> Seq<Seq<char>> {
    ilifetime::demo_output() + ienum::demo_output() + istring::demo_output()
        + iborrow::demo_output()
}

/// A pass over the registry shows the borrowed-name demonstration first,
/// then the matching one, then the scanning one, then the borrowing one.
pub proof fn lemma_registry_order()
    ensures
        registry().len() == 4,
        registry()[0] is Lifetime,
        registry()[1] is Tagged,
        registry()[2] is Text,
        registry()[3] is Borrow,
        outputs_of(registry()) == program_output(),
{
    let r = registry();
    let r3 = r.drop_last();
    let r2 = r3.drop_last();
    let r1 = r2.drop_last();
    let r0 = r1.drop_last();
    assert(r0.len() == 0);
    assert(outputs_of(r0) =~= Seq::empty());
    assert(outputs_of(r1) =~= ilifetime::demo_output());
    assert(outputs_of(r2) =~= ilifetime::demo_output() + ienum::demo_output());
    assert(outputs_of(r3) =~= ilifetime::demo_output() + ienum::demo_output()
        + istring::demo_output());
    assert(outputs_of(r) =~= program_output());
}

/// Two passes over the same entries show the same lines, line for line:
/// a pass depends on nothing but the entries.
pub proof fn lemma_passes_agree(rs: Seq<Demo>, first: Seq<String>, second: Seq<String>)
    requires
        lines_view(first) == outputs_of(rs),
        lines_view(second) == outputs_of(rs),
    ensures
        first.len() == second.len(),
        forall|i: int| 0 <= i < first.len() ==> first[i]@ == second[i]@,
{
    assert(lines_view(first).len() == first.len());
    assert(lines_view(second).len() == second.len());
    assert forall|i: int| 0 <= i < first.len() implies first[i]@ == second[i]@ by {
        assert(lines_view(first)[i] == first[i]@);
        assert(lines_view(second)[i] == second[i]@);
    }
}

/// Builds the registry: one instance of each demonstration, in running order.
pub fn runners() -> (rs: Vec<Demo>)
    ensures
        rs@ == registry(),
{
    let mut rs: Vec<Demo> = Vec::new();
    rs.push(Demo::Lifetime(ilifetime::Runner::new()));
    rs.push(Demo::Tagged(ienum::Runner::new()));
    rs.push(Demo::Text(istring::Runner::new()));
    rs.push(Demo::Borrow(iborrow::Runner::new()));
    assert(rs@ =~= registry());
    rs
}

/// Runs every entry of `rs` once, first to last, and returns all their lines
/// in that order.
pub fn run_each(rs: &Vec<Demo>) -> (lines: Vec<String>)
    ensures
        lines_view(lines@) == outputs_of(rs@),
{
    let mut lines: Vec<String> = Vec::new();
    let mut i: usize = 0;
    assert(lines_view(lines@) =~= outputs_of(rs@.take(0)));
    while i < rs.len()
        invariant
            i <= rs@.len(),
            lines_view(lines@) == outputs_of(rs@.take(i as int)),
        decreases rs@.len() - i,
    {
        let ghost before = lines@;
        let mut part = rs[i].run();
        let ghost added = part@;
        lines.append(&mut part);
        proof {
            let next = rs@.take(i + 1);
            assert(next.drop_last() =~= rs@.take(i as int));
            assert(next.last() == rs@[i as int]);
            assert(lines@ =~= before + added);
            lemma_lines_view_concat(before, added);
        }
        i += 1;
    }
    assert(rs@.take(i as int) =~= rs@);
    lines
}

/// Runs the whole program: builds the registry and makes one pass over it.
pub fn run_all() -> (lines: Vec<String>)
    ensures
        lines_view(lines@) == program_output(),
{
    let rs = runners();
    let lines = run_each(&rs);
    proof {
        lemma_registry_order();
    }
    lines
}

} // verus!
