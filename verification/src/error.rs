//! Errors, and the text they are reported with.

use vstd::prelude::*;

verus! {

/// The text of an error, kept as its parts until it is asked for.
#[derive(Debug, Clone, Copy)]
pub enum Message {
    /// A fixed text.
    Text(&'static str),
    /// A text with one word put in.
    Word {
        /// What stands in front of the word.
        before: &'static str,
        /// The word.
        word: &'static str,
        /// What stands behind the word.
        after: &'static str,
    },
    /// A text with one number put in, in decimal.
    Number {
        /// What stands in front of the number.
        before: &'static str,
        /// The number.
        number: u64,
        /// What stands behind the number.
        after: &'static str,
    },
    /// Too many of something.
    Limit {
        /// What is counted.
        what: &'static str,
        /// The largest count that is accepted.
        limit: u64,
    },
}

/// The decimal digit for a number below ten.
pub open spec fn digit(n: nat) -> Seq<char> {
    if n == 0 {
        "0"@
    } else if n == 1 {
        "1"@
    } else if n == 2 {
        "2"@
    } else if n == 3 {
        "3"@
    } else if n == 4 {
        "4"@
    } else if n == 5 {
        "5"@
    } else if n == 6 {
        "6"@
    } else if n == 7 {
        "7"@
    } else if n == 8 {
        "8"@
    } else {
        "9"@
    }
}

/// A number in decimal, without leading zeros.
pub open spec fn decimal(n: nat) -> Seq<char>
    decreases n,
{
    if n < 10 {
        digit(n)
    } else {
        decimal(n / 10) + digit(n % 10)
    }
}

fn push_digit(out: &mut String, n: u64)
    requires
        n < 10,
    ensures
        final(out)@ == old(out)@ + digit(n as nat),
{
    let d: &str = match n {
        0 => "0",
        1 => "1",
        2 => "2",
        3 => "3",
        4 => "4",
        5 => "5",
        6 => "6",
        7 => "7",
        8 => "8",
        _ => "9",
    };
    out.append(d);
}

fn push_decimal(out: &mut String, n: u64)
    ensures
        final(out)@ == old(out)@ + decimal(n as nat),
    decreases n,
{
    if n < 10 {
        push_digit(out, n);
    } else {
        push_decimal(out, n / 10);
        push_digit(out, n % 10);
    }
}

impl Message {
    /// The text, with everything put in its place.
    pub open spec fn text(self) -> Seq<char> {
        match self {
            Message::Text(text) => text@,
            Message::Word { before, word, after } => before@ + word@ + after@,
            Message::Number { before, number, after } => before@ + decimal(number as nat) + after@,
            Message::Limit { what, limit } => what@ + " count exceeds limit of "@ + decimal(
                limit as nat,
            ),
        }
    }

    /// Writes the text out.
    pub fn render(&self) -> (text: String)
        ensures
            text@ == self.text(),
    {
        let mut out = String::new();
        match self {
            Message::Text(text) => {
                out.append(text);
            },
            Message::Word { before, word, after } => {
                out.append(before);
                out.append(word);
                out.append(after);
            },
            Message::Number { before, number, after } => {
                out.append(before);
                push_decimal(&mut out, *number);
                out.append(after);
            },
            Message::Limit { what, limit } => {
                out.append(what);
                out.append(" count exceeds limit of ");
                push_decimal(&mut out, *limit);
            },
        }
        out
    }
}

/// An error in a WebAssembly binary, with the place it was found at.
#[derive(Debug, Clone, Copy)]
pub struct BinaryReaderError {
    /// What is wrong.
    pub message: Message,
    /// The offset of the error in the binary.
    pub offset: usize,
}

/// The result of reading or validating a binary.
pub type Result<T> = core::result::Result<T, BinaryReaderError>;

/// The error with a fixed text at an offset.
pub open spec fn error_at(text: &'static str, offset: int) -> BinaryReaderError {
    BinaryReaderError { message: Message::Text(text), offset: offset as usize }
}

/// The error with one word put into its text.
pub open spec fn word_error_at(
    before: &'static str,
    word: &'static str,
    after: &'static str,
    offset: int,
) -> BinaryReaderError {
    BinaryReaderError { message: Message::Word { before, word, after }, offset: offset as usize }
}

/// The error with one number put into its text.
pub open spec fn number_error_at(
    before: &'static str,
    number: int,
    after: &'static str,
    offset: int,
) -> BinaryReaderError {
    BinaryReaderError {
        message: Message::Number { before, number: number as u64, after },
        offset: offset as usize,
    }
}

impl BinaryReaderError {
    /// Creates an error with a fixed text.
    pub fn new(text: &'static str, offset: usize) -> (error: Self)
        ensures
            error == error_at(text, offset as int),
    {
        BinaryReaderError { message: Message::Text(text), offset }
    }

    /// Creates an error with one word put into its text.
    pub fn with_word(
        before: &'static str,
        word: &'static str,
        after: &'static str,
        offset: usize,
    ) -> (error: Self)
        ensures
            error == word_error_at(before, word, after, offset as int),
    {
        BinaryReaderError { message: Message::Word { before, word, after }, offset }
    }

    /// Creates an error with one number put into its text.
    pub fn with_number(
        before: &'static str,
        number: u64,
        after: &'static str,
        offset: usize,
    ) -> (error: Self)
        ensures
            error == number_error_at(before, number as int, after, offset as int),
    {
        BinaryReaderError { message: Message::Number { before, number, after }, offset }
    }

    /// The text of the error.
    pub fn message(&self) -> (text: String)
        ensures
            text@ == self.message.text(),
    {
        self.message.render()
    }

    /// The offset of the error in the binary.
    pub fn offset(&self) -> (offset: usize)
        ensures
            offset == self.offset,
    {
        self.offset
    }
}

/// What is known of a result whose value is known by its view.
pub open spec fn viewed<T: View>(result: Result<T>) -> Result<T::V> {
    match result {
        Ok(value) => Ok(value@),
        Err(error) => Err(error),
    }
}

} // verus!
