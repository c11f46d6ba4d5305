use vstd::prelude::*;
use crate::problem::Problem;

verus! {

/// A change of text style on the terminal.
#[derive(Clone, Copy, Debug, PartialEq, Eq)]
pub enum Style {
    Bold,
    /// Back to plain text weight and decoration.
    ResetAttributes,
    Green,
    Red,
    /// Back to the terminal's own foreground colour.
    ResetColor,
}

/// One thing to show on the terminal, in order.
#[derive(Clone, Copy, Debug, PartialEq, Eq)]
pub enum Out {
    /// Clear the whole screen and put the cursor at the top left.
    Clear,
    Text(&'static str),
    /// One typed character, echoed back.
    Char(char),
    /// A number in decimal.
    Number(u16),
    Style(Style),
}

/// The greeting, with the exit key in bold.
pub open spec fn welcome_output() -> Seq<Out> {
    seq![
        Out::Text("Welcome to the Multiplication Trainer\n"),
        Out::Text("Press"),
        Out::Style(Style::Bold),
        Out::Text(" ESC "),
        Out::Style(Style::ResetAttributes),
        Out::Text("to exit the application\n"),
    ]
}

/// The question `a x b = `.
pub open spec fn prompt_output(p: Problem) -> Seq<Out> {
    seq![Out::Number(p.a), Out::Text(" x "), Out::Number(p.b), Out::Text(" = ")]
}

/// The reply to a submitted answer `v`: a green line where it is the product,
/// otherwise a red line that gives the product in bold.
pub open spec fn verdict_output(v: u16, p: Problem) -> Seq<Out> {
    if v == p.product() {
        seq![
            Out::Style(Style::Green),
            Out::Text("\tCorrect!\n"),
            Out::Style(Style::ResetColor),
        ]
    } else {
        seq![
            Out::Style(Style::Red),
            Out::Text("\tIncorrect! The correct answer was "),
            Out::Style(Style::Bold),
            Out::Number(p.product() as u16),
            Out::Text("\n"),
            Out::Style(Style::ResetColor),
            Out::Style(Style::ResetAttributes),
        ]
    }
}

/// The parting line, in plain text.
pub open spec fn farewell_output() -> Seq<Out> {
    seq![Out::Style(Style::ResetAttributes), Out::Text("\nBye bye!\n")]
}

/// Success is shown in green, and only success.
pub open spec fn reports_success(o: Seq<Out>) -> bool {
    o.contains(Out::Style(Style::Green))
}

/// For every problem of single digits and every answer, the verdict reports
/// success exactly when the answer equals the product, and a wrong answer is
/// always told the product.
pub proof fn law_verdict_matches_product(v: u16, p: Problem)
    requires
        p.wf(),
    ensures
        reports_success(verdict_output(v, p)) <==> v == p.product(),
        v != p.product() ==> verdict_output(v, p).contains(Out::Number(p.product() as u16)),
        p.product() as u16 == p.product(),
{
    assert(p.a * p.b <= 81) by (nonlinear_arith)
        requires
            p.a < 10,
            p.b < 10,
    ;
    let o = verdict_output(v, p);
    if v == p.product() {
        assert(o[0] == Out::Style(Style::Green));
    } else {
        assert(o[3] == Out::Number(p.product() as u16));
        assert forall|i: int| 0 <= i < o.len() implies o[i] != Out::Style(Style::Green) by {
            assert(i == 0 || i == 1 || i == 2 || i == 3 || i == 4 || i == 5 || i == 6);
        }
    }
}

/// Clears the screen.
pub fn clear_screen(out: &mut Vec<Out>)
    ensures
        final(out)@ == old(out)@.push(Out::Clear),
{
    out.push(Out::Clear);
}

/// Shows the greeting.
pub fn write_welcome(out: &mut Vec<Out>)
    ensures
        final(out)@ == old(out)@ + welcome_output(),
{
    let ghost start = out@;
    out.push(Out::Text("Welcome to the Multiplication Trainer\n"));
    out.push(Out::Text("Press"));
    out.push(Out::Style(Style::Bold));
    out.push(Out::Text(" ESC "));
    out.push(Out::Style(Style::ResetAttributes));
    out.push(Out::Text("to exit the application\n"));
    assert(out@ =~= start + welcome_output());
}

/// Poses `p`.
pub fn write_prompt(out: &mut Vec<Out>, p: &Problem)
    ensures
        final(out)@ == old(out)@ + prompt_output(*p),
{
    let ghost start = out@;
    out.push(Out::Number(p.a));
    out.push(Out::Text(" x "));
    out.push(Out::Number(p.b));
    out.push(Out::Text(" = "));
    assert(out@ =~= start + prompt_output(*p));
}

/// Judges the answer `user_input` to `problem` and shows the verdict; true
/// exactly when the answer is the product.
pub fn check_user_input(out: &mut Vec<Out>, user_input: u16, problem: &Problem) -> (r: bool)
    requires
        problem.wf(),
    ensures
        r == (user_input == problem.product()),
        final(out)@ == old(out)@ + verdict_output(user_input, *problem),
{
    let ghost start = out@;
    let correct_answer = problem.correct_answer();
    if user_input == correct_answer {
        out.push(Out::Style(Style::Green));
        out.push(Out::Text("\tCorrect!\n"));
        out.push(Out::Style(Style::ResetColor));
        assert(out@ =~= start + verdict_output(user_input, *problem));
        true
    } else {
        out.push(Out::Style(Style::Red));
        out.push(Out::Text("\tIncorrect! The correct answer was "));
        out.push(Out::Style(Style::Bold));
        out.push(Out::Number(correct_answer));
        out.push(Out::Text("\n"));
        out.push(Out::Style(Style::ResetColor));
        out.push(Out::Style(Style::ResetAttributes));
        assert(out@ =~= start + verdict_output(user_input, *problem));
        false
    }
}

/// Shows the parting line.
pub fn write_farewell(out: &mut Vec<Out>)
    ensures
        final(out)@ == old(out)@ + farewell_output(),
{
    let ghost start = out@;
    out.push(Out::Style(Style::ResetAttributes));
    out.push(Out::Text("\nBye bye!\n"));
    assert(out@ =~= start + farewell_output());
}

} // verus!
