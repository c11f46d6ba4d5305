use vstd::prelude::*;

verus! {

/// A key press as the terminal delivered it.
#[derive(Clone, Copy, Debug, PartialEq, Eq)]
pub enum Key {
    Esc,
    Enter,
    Char(char),
    /// Any other key: arrows, function keys, mouse and resize events.
    Other,
}

/// A key press that means something to the answer reader.
#[derive(Clone, Copy, Debug, PartialEq, Eq)]
pub enum Input {
    /// Ends the session.
    Cancel,
    /// Submits the digits typed so far.
    Accept,
    /// One decimal digit, `'0'..='9'`.
    Digit(char),
}

/// What the reader does with one key press.
#[derive(Clone, Copy, Debug, PartialEq, Eq)]
pub enum ReadStep {
    /// A digit was added to the answer; show it and keep reading.
    Echo(char),
    /// Accept came with no digits, or with a number too large for `u16`;
    /// nothing is submitted and the digits stay as they are.
    Rejected,
    /// The user asked to stop; the digits typed so far are dropped.
    Stop,
    /// The answer was submitted.
    Value(u16),
}

pub open spec fn is_digit(c: char) -> bool {
    '0' <= c && c <= '9'
}

/// The numeric value of a digit character.
pub open spec fn digit_value(c: char) -> nat {
    (c as nat - '0' as nat) as nat
}

/// The number that a string of decimal digits denotes, most significant first.
pub open spec fn digits_value(s: Seq<char>) -> nat
    decreases s.len(),
{
    if s.len() == 0 {
        0
    } else {
        digits_value(s.drop_last()) * 10 + digit_value(s.last())
    }
}

/// What submitting the digits `s` yields: their value, where there is at
/// least one digit and the value fits in a `u16`.
pub open spec fn parsed(s: Seq<char>) -> Option<u16> {
    if s.len() == 0 || digits_value(s) > u16::MAX {
        None
    } else {
        Some(digits_value(s) as u16)
    }
}

/// The meaning of a key press: Escape cancels, Enter accepts, a decimal digit
/// is a digit, everything else means nothing.
pub open spec fn key_meaning(k: Key) -> Option<Input> {
    match k {
        Key::Esc => Some(Input::Cancel),
        Key::Enter => Some(Input::Accept),
        Key::Char(c) => if is_digit(c) {
            Some(Input::Digit(c))
        } else {
            None
        },
        Key::Other => None,
    }
}

/// Sorts a key press into cancel, accept, a digit, or nothing.
pub fn read_input_key(k: Key) -> (r: Option<Input>)
    ensures
        r == key_meaning(k),
{
    match k {
        Key::Esc => Some(Input::Cancel),
        Key::Enter => Some(Input::Accept),
        Key::Char(c) => {
            if '0' <= c && c <= '9' {
                Some(Input::Digit(c))
            } else {
                None
            }
        },
        Key::Other => None,
    }
}

/// The digits typed so far in the current round.
pub struct PendingAnswer {
    digits: Vec<char>,
}

impl View for PendingAnswer {
    type V = Seq<char>;

    closed spec fn view(&self) -> Seq<char> {
        self.digits@
    }
}

impl PendingAnswer {
    /// Only decimal digits are ever held.
    pub open spec fn wf(&self) -> bool {
        forall|i: int| 0 <= i < self@.len() ==> is_digit(#[trigger] self@[i])
    }

    /// An empty answer.
    pub fn new() -> (r: PendingAnswer)
        ensures
            r@ == Seq::<char>::empty(),
            r.wf(),
    {
        PendingAnswer { digits: Vec::new() }
    }

    /// The number of digits typed.
    pub fn len(&self) -> (r: usize)
        ensures
            r == self@.len(),
    {
        self.digits.len()
    }

    /// Adds one digit at the end.
    pub fn push_digit(&mut self, c: char)
        requires
            old(self).wf(),
            is_digit(c),
        ensures
            final(self)@ == old(self)@.push(c),
            final(self).wf(),
    {
        self.digits.push(c);
        proof {
            assert forall|i: int| 0 <= i < self@.len() implies is_digit(#[trigger] self@[i]) by {
                if i < old(self)@.len() {
                    assert(self@[i] == old(self)@[i]);
                }
            }
        }
    }

    /// Drops every digit.
    pub fn clear(&mut self)
        ensures
            final(self)@ == Seq::<char>::empty(),
            final(self).wf(),
    {
        self.digits = Vec::new();
    }

    /// The value of the digits typed, or `None` where there are none or the
    /// value does not fit in a `u16`.
    pub fn parse(&self) -> (r: Option<u16>)
        requires
            self.wf(),
        ensures
            r == parsed(self@),
    {
        let n = self.digits.len();
        if n == 0 {
            return None;
        }
        let mut value: u16 = 0;
        let mut i: usize = 0;
        while i < n
            invariant
                n == self@.len(),
                i <= n,
                self.wf(),
                value == digits_value(self@.subrange(0, i as int)),
            decreases n - i,
        {
            let c = self.digits[i];
            let d: u16 = (c as u32 - '0' as u32) as u16;
            proof {
                let pre = self@.subrange(0, i as int);
                let next = self@.subrange(0, i + 1);
                assert(next.drop_last() =~= pre);
                assert(next.last() == c);
            }
            if value > 6553 || (value == 6553 && d > 5) {
                proof {
                    lemma_prefix_value_bounded(self@, i + 1);
                }
                return None;
            }
            value = value * 10 + d;
            i = i + 1;
        }
        assert(self@.subrange(0, n as int) =~= self@);
        Some(value)
    }

    /// One key press of input: a digit is added and echoed; Accept submits
    /// the digits when they parse, and rejects them otherwise; Cancel stops
    /// and drops the digits.
    pub fn get_user_input(&mut self, input: Input) -> (r: ReadStep)
        requires
            old(self).wf(),
            input matches Input::Digit(c) ==> is_digit(c),
        ensures
            final(self).wf(),
            r == read_step(old(self)@, input),
            final(self)@ == after_read(old(self)@, input),
    {
        match input {
            Input::Cancel => {
                self.clear();
                ReadStep::Stop
            },
            Input::Digit(c) => {
                self.push_digit(c);
                ReadStep::Echo(c)
            },
            Input::Accept => {
                match self.parse() {
                    Some(v) => {
                        self.clear();
                        ReadStep::Value(v)
                    },
                    None => ReadStep::Rejected,
                }
            },
        }
    }
}

/// The reader's reply to one input, given the digits typed before it.
pub open spec fn read_step(s: Seq<char>, input: Input) -> ReadStep {
    match input {
        Input::Cancel => ReadStep::Stop,
        Input::Digit(c) => ReadStep::Echo(c),
        Input::Accept => match parsed(s) {
            Some(v) => ReadStep::Value(v),
            None => ReadStep::Rejected,
        },
    }
}

/// The digits held after one input.
pub open spec fn after_read(s: Seq<char>, input: Input) -> Seq<char> {
    match input {
        Input::Cancel => Seq::empty(),
        Input::Digit(c) => s.push(c),
        Input::Accept => if parsed(s) is Some {
            Seq::empty()
        } else {
            s
        },
    }
}

/// Leading zeros, however many, change neither what a string of digits is
/// worth nor what submitting it yields.
pub proof fn law_leading_zeros(z: Seq<char>, s: Seq<char>)
    requires
        forall|i: int| 0 <= i < z.len() ==> #[trigger] z[i] == '0',
    ensures
        digits_value(z + s) == digits_value(s),
        s.len() > 0 ==> parsed(z + s) == parsed(s),
    decreases s.len() + z.len(),
{
    if s.len() == 0 {
        assert(z + s =~= z);
        if z.len() > 0 {
            let y = z.drop_last();
            law_leading_zeros(y, s);
            assert(y + s =~= y);
            assert(z.last() == '0');
        }
    } else {
        law_leading_zeros(z, s.drop_last());
        assert((z + s).drop_last() =~= z + s.drop_last());
        assert((z + s).last() == s.last());
    }
}

/// A string of digits is worth at least as much as any of its prefixes.
proof fn lemma_prefix_value_bounded(s: Seq<char>, k: int)
    requires
        0 <= k <= s.len(),
    ensures
        digits_value(s.subrange(0, k)) <= digits_value(s),
    decreases s.len() - k,
{
    if k < s.len() {
        lemma_prefix_value_bounded(s, k + 1);
        let next = s.subrange(0, k + 1);
        assert(next.drop_last() =~= s.subrange(0, k));
    } else {
        assert(s.subrange(0, k) =~= s);
    }
}

} // verus!
