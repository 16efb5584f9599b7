//! The message log, and the text of numbers that appear in messages.

use vstd::prelude::*;
use vstd::string::StringExecFns;

verus! {

/// Messages for the person at the keyboard, oldest first. Lines are only
/// ever added.
pub struct Messages {
    pub lines: Vec<String>,
}

impl View for Messages {
    type V = Seq<Seq<char>>;

    open spec fn view(&self) -> Seq<Seq<char>> {
        Seq::new(self.lines@.len(), |i: int| self.lines@[i]@)
    }
}

impl Messages {
    /// An empty log.
    pub fn new() -> (msgs: Messages)
        ensures
            msgs@ == Seq::<Seq<char>>::empty(),
    {
        let msgs = Messages { lines: Vec::new() };
        assert(msgs@ =~= Seq::<Seq<char>>::empty());
        msgs
    }

    /// Adds a line at the end of the log.
    pub fn add(&mut self, text: String)
        ensures
            final(self)@ == old(self)@.push(text@),
    {
        self.lines.push(text);
        assert(self@ =~= old(self)@.push(text@));
    }

    /// Number of lines in the log.
    pub fn len(&self) -> (n: usize)
        ensures
            n == self@.len(),
    {
        self.lines.len()
    }

    /// Line `i` of the log.
    pub fn line(&self, i: usize) -> (text: &String)
        requires
            i < self@.len(),
        ensures
            text@ == self@[i as int],
    {
        &self.lines[i]
    }
}

/// The character of a decimal digit.
pub open spec fn digit_char(d: int) -> char {
    if d == 0 {
        '0'
    } else if d == 1 {
        '1'
    } else if d == 2 {
        '2'
    } else if d == 3 {
        '3'
    } else if d == 4 {
        '4'
    } else if d == 5 {
        '5'
    } else if d == 6 {
        '6'
    } else if d == 7 {
        '7'
    } else if d == 8 {
        '8'
    } else {
        '9'
    }
}

/// A natural number written in decimal, without leading zeros.
pub open spec fn decimal(n: nat) -> Seq<char>
    decreases n,
{
    if n < 10 {
        seq![digit_char(n as int)]
    } else {
        decimal(n / 10).push(digit_char((n % 10) as int))
    }
}

/// The text of one decimal digit.
fn digit_text(d: u32) -> (text: &'static str)
    requires
        d < 10,
    ensures
        text@ == seq![digit_char(d as int)],
{
    proof {
        reveal_strlit("0");
        reveal_strlit("1");
        reveal_strlit("2");
        reveal_strlit("3");
        reveal_strlit("4");
        reveal_strlit("5");
        reveal_strlit("6");
        reveal_strlit("7");
        reveal_strlit("8");
        reveal_strlit("9");
    }
    let text = if d == 0 {
        "0"
    } else if d == 1 {
        "1"
    } else if d == 2 {
        "2"
    } else if d == 3 {
        "3"
    } else if d == 4 {
        "4"
    } else if d == 5 {
        "5"
    } else if d == 6 {
        "6"
    } else if d == 7 {
        "7"
    } else if d == 8 {
        "8"
    } else {
        "9"
    };
    assert(text@ =~= seq![digit_char(d as int)]);
    text
}

/// Appends a number in decimal to a text.
pub fn push_decimal(text: &mut String, n: u32)
    ensures
        final(text)@ == old(text)@ + decimal(n as nat),
    decreases n,
{
    if n >= 10 {
        push_decimal(text, n / 10);
    }
    text.append(digit_text(n % 10));
    assert(text@ =~= old(text)@ + decimal(n as nat));
}

} // verus!
