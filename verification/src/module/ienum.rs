//! Matching on the variant of a tagged value, and on the value it carries.

use vstd::prelude::*;
use vstd::string::*;
use crate::irun::{lemma_lines_view_concat, lines_view, IRunner};

verus! {

/// Runs the matching demonstration.
pub struct Runner {}

/// The line for a `Result`: one for the success that carries exactly 1, one
/// for every other success, one for a failure.
pub open spec fn result_line(re: Result<i32, i32>) -> Seq<char> {
    match re {
        Ok(v) => if v == 1 {
            "result match 1"@
        } else {
            "result match t"@
        },
        Err(_) => "result match none"@,
    }
}

/// The line for an `Option`: one for the value 1, one for every other value,
/// one for `None`.
pub open spec fn option_line(r: Option<i32>) -> Seq<char> {
    match r {
        Some(v) => if v == 1 {
            "option match 1"@
        } else {
            "option match t"@
        },
        None => "option match none"@,
    }
}

/// The lines of this demonstration.
pub open spec fn demo_output() -> Seq<Seq<char>> {
    seq!["enum run"@, result_line(Ok(1)), option_line(Some(1))]
}

/// The arm of a three-way match on a tagged value.
pub enum Arm {
    /// The value is present and is exactly 1.
    Exact,
    /// The value is present and is anything else.
    Generic,
    /// No value is present.
    Absent,
}

/// The arm that a `Result` takes.
pub open spec fn result_arm(re: Result<i32, i32>) -> Arm {
    match re {
        Ok(v) => if v == 1 {
            Arm::Exact
        } else {
            Arm::Generic
        },
        Err(_) => Arm::Absent,
    }
}

/// The arm that an `Option` takes.
pub open spec fn option_arm(r: Option<i32>) -> Arm {
    match r {
        Some(v) => if v == 1 {
            Arm::Exact
        } else {
            Arm::Generic
        },
        None => Arm::Absent,
    }
}

/// The line for a `Result` tells which arm was taken: two values give the
/// same line exactly when they take the same arm.
pub proof fn lemma_result_line_tells_arm(a: Result<i32, i32>, b: Result<i32, i32>)
    ensures
        result_line(a) == result_line(b) <==> result_arm(a) == result_arm(b),
{
    reveal_strlit("result match 1");
    reveal_strlit("result match t");
    reveal_strlit("result match none");
    assert("result match 1"@[13] == '1');
    assert("result match t"@[13] == 't');
    assert("result match 1"@.len() == 14);
    assert("result match t"@.len() == 14);
    assert("result match none"@.len() == 17);
}

/// The line for an `Option` tells which arm was taken: two values give the
/// same line exactly when they take the same arm.
pub proof fn lemma_option_line_tells_arm(a: Option<i32>, b: Option<i32>)
    ensures
        option_line(a) == option_line(b) <==> option_arm(a) == option_arm(b),
{
    reveal_strlit("option match 1");
    reveal_strlit("option match t");
    reveal_strlit("option match none");
    assert("option match 1"@[13] == '1');
    assert("option match t"@[13] == 't');
    assert("option match 1"@.len() == 14);
    assert("option match t"@.len() == 14);
    assert("option match none"@.len() == 17);
}

impl Runner {
    pub fn new() -> (r: Runner)
        ensures
            r.output() == demo_output(),
    {
        Runner {  }
    }
}

impl IRunner for Runner {
    open spec fn output(&self) -> Seq<Seq<char>> {
        demo_output()
    }

    fn run(&self) -> (lines: Vec<String>) {
        let mut lines: Vec<String> = Vec::new();
        lines.push(String::from_str("enum run"));
        let mut matched = test_type_and_value_match();
        let ghost head = lines@;
        let ghost tail = matched@;
        assert(lines_view(head) =~= seq!["enum run"@]);
        lines.append(&mut matched);
        proof {
            assert(lines@ =~= head + tail);
            lemma_lines_view_concat(head, tail);
            assert(lines_view(head) + lines_view(tail) =~= demo_output());
        }
        lines
    }
}

/// Matches a `Result` on its variant and on the value inside.
pub fn match_result(re: Result<i32, i32>) -> (line: String)
    ensures
        line@ == result_line(re),
{
    match re {
        Ok(1) => String::from_str("result match 1"),
        Ok(_t) => String::from_str("result match t"),
        Err(_e) => String::from_str("result match none"),
    }
}

/// Matches an `Option` on its variant and on the value inside.
pub fn match_option(r: Option<i32>) -> (line: String)
    ensures
        line@ == option_line(r),
{
    match r {
        Some(1) => String::from_str("option match 1"),
        Some(_t) => String::from_str("option match t"),
        None => String::from_str("option match none"),
    }
}

/// Matches a success carrying 1 and a present value 1, and returns the line
/// of each.
pub fn test_type_and_value_match() -> (lines: Vec<String>)
    ensures
        lines_view(lines@) == seq![result_line(Ok(1)), option_line(Some(1))],
{
    let re: Result<i32, i32> = Result::Ok(1);
    let r: Option<i32> = Some(1);
    let mut lines: Vec<String> = Vec::new();
    lines.push(match_result(re));
    lines.push(match_option(r));
    assert(lines_view(lines@) =~= seq![result_line(Ok(1)), option_line(Some(1))]);
    lines
}

} // verus!
