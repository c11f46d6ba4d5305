use vstd::prelude::*;
use crate::input::{
    Input, Key, PendingAnswer, ReadStep, key_meaning, parsed, read_input_key,
};
use crate::output::{
    Out, clear_screen, write_welcome, write_prompt, check_user_input, prompt_output,
    verdict_output, welcome_output,
};
use crate::problem::{Problem, generate_problem};

verus! {

/// Draws a new problem and poses it.
pub fn start_problem(out: &mut Vec<Out>) -> (r: Problem)
    ensures
        r.wf(),
        final(out)@ == old(out)@ + prompt_output(r),
{
    let problem = generate_problem();
    write_prompt(out, &problem);
    problem
}

/// A drill in progress: the problem posed, the digits typed towards its
/// answer, and whether the user has asked to stop.
pub struct Session {
    problem: Problem,
    pending: PendingAnswer,
    running: bool,
}

impl Session {
    /// The problem currently posed.
    pub closed spec fn current(&self) -> Problem {
        self.problem
    }

    /// The digits typed so far this round.
    pub closed spec fn digits(&self) -> Seq<char> {
        self.pending@
    }

    /// False once the user has asked to stop.
    pub closed spec fn active(&self) -> bool {
        self.running
    }

    pub closed spec fn wf(&self) -> bool {
        self.problem.wf() && self.pending.wf()
    }

    /// Clears the screen, greets the user and poses the first problem.
    pub fn start(out: &mut Vec<Out>) -> (s: Session)
        ensures
            s.wf(),
            s.current().wf(),
            s.active(),
            s.digits() == Seq::<char>::empty(),
            final(out)@ == old(out)@.push(Out::Clear) + welcome_output() + prompt_output(
                s.current(),
            ),
    {
        clear_screen(out);
        write_welcome(out);
        let problem = start_problem(out);
        Session { problem, pending: PendingAnswer::new(), running: true }
    }

    /// A session whose current round poses `problem`, with nothing typed yet
    /// and nothing shown.
    pub fn with_problem(problem: Problem) -> (s: Session)
        requires
            problem.wf(),
        ensures
            s.wf(),
            s.current().wf(),
            s.active(),
            s.current() == problem,
            s.digits() == Seq::<char>::empty(),
    {
        Session { problem, pending: PendingAnswer::new(), running: true }
    }

    /// The problem currently posed.
    pub fn problem(&self) -> (r: Problem)
        ensures
            r == self.current(),
    {
        self.problem
    }

    /// Whether the session goes on.
    pub fn is_running(&self) -> (r: bool)
        ensures
            r == self.active(),
    {
        self.running
    }

    /// Takes one key press. A digit is echoed and kept. Enter submits the
    /// digits: a valid answer is judged, and a new problem is drawn and posed;
    /// an empty or oversized one is passed over. Escape ends the session with
    /// no verdict. Any other key, and any key after the end, does nothing.
    pub fn handle_key(&mut self, key: Key, out: &mut Vec<Out>)
        requires
            old(self).wf(),
        ensures
            final(self).wf(),
            final(self).current().wf(),
            !old(self).active() || key_meaning(key) is None ==> {
                &&& *final(self) == *old(self)
                &&& final(out)@ == old(out)@
            },
            old(self).active() ==> match key_meaning(key) {
                None => true,
                Some(Input::Cancel) => {
                    &&& !final(self).active()
                    &&& final(self).digits() == Seq::<char>::empty()
                    &&& final(out)@ == old(out)@
                },
                Some(Input::Digit(c)) => {
                    &&& final(self).active()
                    &&& final(self).current() == old(self).current()
                    &&& final(self).digits() == old(self).digits().push(c)
                    &&& final(out)@ == old(out)@.push(Out::Char(c))
                },
                Some(Input::Accept) => match parsed(old(self).digits()) {
                    None => {
                        &&& final(self).active()
                        &&& final(self).current() == old(self).current()
                        &&& final(self).digits() == old(self).digits()
                        &&& final(out)@ == old(out)@
                    },
                    Some(v) => {
                        &&& final(self).active()
                        &&& final(self).digits() == Seq::<char>::empty()
                        &&& final(out)@ == old(out)@ + verdict_output(v, old(self).current())
                            + prompt_output(final(self).current())
                    },
                },
            },
    {
        if !self.running {
            return;
        }
        match read_input_key(key) {
            None => {},
            Some(input) => {
                match self.pending.get_user_input(input) {
                    ReadStep::Stop => {
                        self.running = false;
                    },
                    ReadStep::Echo(c) => {
                        out.push(Out::Char(c));
                    },
                    ReadStep::Value(v) => {
                        let ghost mid = out@;
                        check_user_input(out, v, &self.problem);
                        self.problem = start_problem(out);
                        assert(out@ =~= mid + verdict_output(v, old(self).current())
                            + prompt_output(self.problem));
                    },
                    ReadStep::Rejected => {},
                }
            },
        }
    }
}

} // verus!
