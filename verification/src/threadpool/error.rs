//! The errors of a pool and the text each one is reported with.

use vstd::prelude::*;
use vstd::string::*;

verus! {

/// What can go wrong while a pool is built or used.
#[derive(Debug)]
pub enum ThreadPoolError {
    /// The requested number of workers was below one.
    SizeTooLow(usize),
    /// A message could not be handed to the workers.
    Sender(String),
    /// A worker found the queue closed with nothing pending.
    Receiver(String),
    /// The lock around the queue was poisoned.
    Poison(String),
}

/// A [`ThreadPoolError`] with each description as a sequence of characters.
pub enum ErrorView {
    SizeTooLow(usize),
    Sender(Seq<char>),
    Receiver(Seq<char>),
    Poison(Seq<char>),
}

impl View for ThreadPoolError {
    type V = ErrorView;

    open spec fn view(&self) -> ErrorView {
        match self {
            ThreadPoolError::SizeTooLow(size) => ErrorView::SizeTooLow(*size),
            ThreadPoolError::Sender(description) => ErrorView::Sender(description@),
            ThreadPoolError::Receiver(description) => ErrorView::Receiver(description@),
            ThreadPoolError::Poison(description) => ErrorView::Poison(description@),
        }
    }
}

/// The character that stands for a single decimal digit.
pub open spec fn digit(d: nat) -> char {
    if d == 0 {
        '0'
    } else if d == 1 {
        '1'
    } else if d == 2 {
        '2'
    } else if d == 3 {
        '3'
    } else if d == 4 {
        '4'
    } else if d == 5 {
        '5'
    } else if d == 6 {
        '6'
    } else if d == 7 {
        '7'
    } else if d == 8 {
        '8'
    } else {
        '9'
    }
}

/// The decimal numeral of `n`, most significant digit first, without leading zeros.
pub open spec fn decimal(n: nat) -> Seq<char>
    decreases n,
{
    if n < 10 {
        seq![digit(n)]
    } else {
        decimal(n / 10).push(digit(n % 10))
    }
}

impl ErrorView {
    /// The text an error is reported with.
    pub open spec fn text(self) -> Seq<char> {
        match self {
            ErrorView::SizeTooLow(size) => "size of ThreadPool must be at least 1, was "@
                + decimal(size as nat),
            ErrorView::Sender(description) => "Sender Error: "@ + description,
            ErrorView::Receiver(description) => "Receiver Error: "@ + description,
            ErrorView::Poison(description) => "Poison Error: "@ + description,
        }
    }
}

fn digit_str(d: usize) -> (s: &'static str)
    requires
        d < 10,
    ensures
        s@ == seq![digit(d as nat)],
{
    proof {
        reveal_strlit("0");
        reveal_strlit("1");
        reveal_strlit("2");
        reveal_strlit("3");
        reveal_strlit("4");
        reveal_strlit("5");
        reveal_strlit("6");
        reveal_strlit("7");
        reveal_strlit("8");
        reveal_strlit("9");
    }
    let s = if d == 0 {
        "0"
    } else if d == 1 {
        "1"
    } else if d == 2 {
        "2"
    } else if d == 3 {
        "3"
    } else if d == 4 {
        "4"
    } else if d == 5 {
        "5"
    } else if d == 6 {
        "6"
    } else if d == 7 {
        "7"
    } else if d == 8 {
        "8"
    } else {
        "9"
    };
    assert(s@ =~= seq![digit(d as nat)]);
    s
}

/// Writes `n` as a decimal numeral.
pub fn decimal_string(n: usize) -> (s: String)
    ensures
        s@ == decimal(n as nat),
    decreases n,
{
    if n < 10 {
        String::from_str(digit_str(n))
    } else {
        let mut s = decimal_string(n / 10);
        s.append(digit_str(n % 10));
        assert(s@ =~= decimal(n as nat));
        s
    }
}

impl ThreadPoolError {
    /// The text this error is reported with.
    pub fn to_string(&self) -> (text: String)
        ensures
            text@ == self@.text(),
    {
        match self {
            ThreadPoolError::SizeTooLow(size) => {
                let mut text = String::from_str("size of ThreadPool must be at least 1, was ");
                text.append(decimal_string(*size).as_str());
                text
            },
            ThreadPoolError::Sender(description) => {
                let mut text = String::from_str("Sender Error: ");
                text.append(description.as_str());
                text
            },
            ThreadPoolError::Receiver(description) => {
                let mut text = String::from_str("Receiver Error: ");
                text.append(description.as_str());
                text
            },
            ThreadPoolError::Poison(description) => {
                let mut text = String::from_str("Poison Error: ");
                text.append(description.as_str());
                text
            },
        }
    }
}

} // verus!
