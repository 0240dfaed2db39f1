//! How deep a TOML text is nested, found without parsing it.
//!
//! Arrays and inline tables nest as deep as brackets and braces stand open at
//! once, and tables as deep as one table's name has dots. Both are counted
//! here by one pass over the bytes. The pass tells strings and comments from
//! the rest as the parser does, so that a bracket or a dot in a string or a
//! comment counts for nothing.

use vstd::prelude::*;
use vstd::utf8::encode_utf8;

verus! {

/// What the bytes up to here leave the text in.
#[derive(Debug, Clone, Copy, PartialEq, Eq, Structural)]
pub enum Mode {
    /// Among keys, values and what stands between them.
    Plain,
    /// In a comment, which ends with its line.
    Comment,
    /// Just behind the `"` that opens a string.
    BasicOpen,
    /// In a string in double quotes, which the next `"` ends.
    Basic,
    /// Behind a backslash in such a string: the next byte is skipped.
    Escape,
    /// Just behind `""`: an empty string, or with one more `"` the opening of
    /// a string of many lines.
    BasicEmpty,
    /// In a string in three double quotes, behind none, one or two of the
    /// three that end it.
    MultiBasic,
    MultiBasicOne,
    MultiBasicTwo,
    /// Behind a backslash in such a string.
    MultiEscape,
    /// Just behind the `'` that opens a string.
    LiteralOpen,
    /// In a string in single quotes, which the next `'` ends, or its line.
    Literal,
    /// Just behind `''`.
    LiteralEmpty,
    /// In a string in three single quotes, behind none, one or two of the
    /// three that end it.
    MultiLiteral,
    MultiLiteralOne,
    MultiLiteralTwo,
}

/// Whether a byte in this mode stands outside strings and comments.
pub open spec fn outside(mode: Mode) -> bool {
    mode == Mode::Plain || mode == Mode::BasicEmpty || mode == Mode::LiteralEmpty
}

/// The mode behind a byte that stands outside strings and comments.
pub open spec fn from_plain(byte: u8) -> Mode {
    if byte == 0x23 {
        Mode::Comment
    } else if byte == 0x22 {
        Mode::BasicOpen
    } else if byte == 0x27 {
        Mode::LiteralOpen
    } else {
        Mode::Plain
    }
}

/// The mode behind one more byte.
pub open spec fn next_mode(mode: Mode, byte: u8) -> Mode {
    match mode {
        Mode::Plain => from_plain(byte),
        Mode::Comment => if byte == 0x0a {
            Mode::Plain
        } else {
            Mode::Comment
        },
        Mode::BasicOpen => if byte == 0x22 {
            Mode::BasicEmpty
        } else if byte == 0x5c {
            Mode::Escape
        } else {
            Mode::Basic
        },
        Mode::Basic => if byte == 0x22 {
            Mode::Plain
        } else if byte == 0x5c {
            Mode::Escape
        } else {
            Mode::Basic
        },
        Mode::Escape => Mode::Basic,
        Mode::BasicEmpty => if byte == 0x22 {
            Mode::MultiBasic
        } else {
            from_plain(byte)
        },
        Mode::MultiBasic => if byte == 0x22 {
            Mode::MultiBasicOne
        } else if byte == 0x5c {
            Mode::MultiEscape
        } else {
            Mode::MultiBasic
        },
        Mode::MultiBasicOne => if byte == 0x22 {
            Mode::MultiBasicTwo
        } else if byte == 0x5c {
            Mode::MultiEscape
        } else {
            Mode::MultiBasic
        },
        Mode::MultiBasicTwo => if byte == 0x22 {
            Mode::Plain
        } else if byte == 0x5c {
            Mode::MultiEscape
        } else {
            Mode::MultiBasic
        },
        Mode::MultiEscape => Mode::MultiBasic,
        Mode::LiteralOpen => if byte == 0x27 {
            Mode::LiteralEmpty
        } else if byte == 0x0a {
            Mode::Plain
        } else {
            Mode::Literal
        },
        Mode::Literal => if byte == 0x27 || byte == 0x0a {
            Mode::Plain
        } else {
            Mode::Literal
        },
        Mode::LiteralEmpty => if byte == 0x27 {
            Mode::MultiLiteral
        } else {
            from_plain(byte)
        },
        Mode::MultiLiteral => if byte == 0x27 {
            Mode::MultiLiteralOne
        } else {
            Mode::MultiLiteral
        },
        Mode::MultiLiteralOne => if byte == 0x27 {
            Mode::MultiLiteralTwo
        } else {
            Mode::MultiLiteral
        },
        Mode::MultiLiteralTwo => if byte == 0x27 {
            Mode::Plain
        } else {
            Mode::MultiLiteral
        },
    }
}

/// Finds the mode behind one more byte.
pub fn advance(mode: Mode, byte: u8) -> (next: Mode)
    ensures
        next == next_mode(mode, byte),
{
    let plain = if byte == 0x23 {
        Mode::Comment
    } else if byte == 0x22 {
        Mode::BasicOpen
    } else if byte == 0x27 {
        Mode::LiteralOpen
    } else {
        Mode::Plain
    };
    let double = byte == 0x22;
    let single = byte == 0x27;
    let backslash = byte == 0x5c;
    let newline = byte == 0x0a;
    match mode {
        Mode::Plain => plain,
        Mode::Comment => if newline {
            Mode::Plain
        } else {
            Mode::Comment
        },
        Mode::BasicOpen => if double {
            Mode::BasicEmpty
        } else if backslash {
            Mode::Escape
        } else {
            Mode::Basic
        },
        Mode::Basic => if double {
            Mode::Plain
        } else if backslash {
            Mode::Escape
        } else {
            Mode::Basic
        },
        Mode::Escape => Mode::Basic,
        Mode::BasicEmpty => if double {
            Mode::MultiBasic
        } else {
            plain
        },
        Mode::MultiBasic => if double {
            Mode::MultiBasicOne
        } else if backslash {
            Mode::MultiEscape
        } else {
            Mode::MultiBasic
        },
        Mode::MultiBasicOne => if double {
            Mode::MultiBasicTwo
        } else if backslash {
            Mode::MultiEscape
        } else {
            Mode::MultiBasic
        },
        Mode::MultiBasicTwo => if double {
            Mode::Plain
        } else if backslash {
            Mode::MultiEscape
        } else {
            Mode::MultiBasic
        },
        Mode::MultiEscape => Mode::MultiBasic,
        Mode::LiteralOpen => if single {
            Mode::LiteralEmpty
        } else if newline {
            Mode::Plain
        } else {
            Mode::Literal
        },
        Mode::Literal => if single || newline {
            Mode::Plain
        } else {
            Mode::Literal
        },
        Mode::LiteralEmpty => if single {
            Mode::MultiLiteral
        } else {
            plain
        },
        Mode::MultiLiteral => if single {
            Mode::MultiLiteralOne
        } else {
            Mode::MultiLiteral
        },
        Mode::MultiLiteralOne => if single {
            Mode::MultiLiteralTwo
        } else {
            Mode::MultiLiteral
        },
        Mode::MultiLiteralTwo => if single {
            Mode::Plain
        } else {
            Mode::MultiLiteral
        },
    }
}

/// What one pass over a text has found so far.
pub struct Scanned {
    /// What the bytes so far leave the text in.
    pub mode: Mode,
    /// How many brackets and braces stand open.
    pub open: nat,
    /// The most that ever stood open.
    pub deepest: nat,
    /// How many dots the name at hand has.
    pub dots: nat,
    /// The most that one name ever had.
    pub most_dots: nat,
}

/// Before the first byte.
pub open spec fn start() -> Scanned {
    Scanned { mode: Mode::Plain, open: 0, deepest: 0, dots: 0, most_dots: 0 }
}

/// How many brackets and braces stand open behind this byte: outside strings
/// and comments `[` and `{` open, and `]` and `}` close.
pub open spec fn next_open(before: Scanned, byte: u8) -> nat {
    if !outside(before.mode) {
        before.open
    } else if byte == 0x5b || byte == 0x7b {
        before.open + 1
    } else if (byte == 0x5d || byte == 0x7d) && before.open > 0 {
        (before.open - 1) as nat
    } else {
        before.open
    }
}

/// How many dots the name at hand has behind this byte. Outside strings and
/// comments a dot counts; a `[` begins a name, and `,`, `=` and the end of a
/// line cannot stand in one, so each of them starts the count anew.
pub open spec fn next_dots(before: Scanned, byte: u8) -> nat {
    if !outside(before.mode) {
        before.dots
    } else if byte == 0x2e {
        before.dots + 1
    } else if byte == 0x5b || byte == 0x2c || byte == 0x3d || byte == 0x0a {
        0
    } else {
        before.dots
    }
}

/// What the pass has found behind one more byte.
pub open spec fn step(before: Scanned, byte: u8) -> Scanned {
    let open = next_open(before, byte);
    let dots = next_dots(before, byte);
    Scanned {
        mode: next_mode(before.mode, byte),
        open,
        deepest: if open > before.deepest {
            open
        } else {
            before.deepest
        },
        dots,
        most_dots: if dots > before.most_dots {
            dots
        } else {
            before.most_dots
        },
    }
}

/// What the pass finds in these bytes.
pub open spec fn scanned(bytes: Seq<u8>) -> Scanned
    decreases bytes.len(),
{
    if bytes.len() == 0 {
        start()
    } else {
        step(scanned(bytes.drop_last()), bytes.last())
    }
}

/// How deep a text is nested at most: the most brackets and braces that
/// stand open at once, and the most dots of one name.
pub open spec fn nesting(text: Seq<char>) -> nat {
    scanned(encode_utf8(text)).deepest + scanned(encode_utf8(text)).most_dots
}

/// Passes over a text and hands back the most brackets and braces that stand
/// open at once, and the most dots of one name.
pub fn measure(text: &str) -> (found: (usize, usize))
    ensures
        found.0 == scanned(encode_utf8(text@)).deepest,
        found.1 == scanned(encode_utf8(text@)).most_dots,
{
    let bytes = text.as_bytes();
    let mut mode = Mode::Plain;
    let mut open: usize = 0;
    let mut deepest: usize = 0;
    let mut dots: usize = 0;
    let mut most_dots: usize = 0;
    let mut at: usize = 0;
    while at < bytes.len()
        invariant
            at <= bytes.len(),
            open <= at,
            dots <= at,
            scanned(bytes@.take(at as int)) == (Scanned {
                mode,
                open: open as nat,
                deepest: deepest as nat,
                dots: dots as nat,
                most_dots: most_dots as nat,
            }),
        decreases bytes.len() - at,
    {
        let byte = bytes[at];
        proof {
            assert(bytes@.take(at + 1).drop_last() =~= bytes@.take(at as int));
        }
        if mode == Mode::Plain || mode == Mode::BasicEmpty || mode == Mode::LiteralEmpty {
            if byte == 0x5b || byte == 0x7b {
                open += 1;
            } else if (byte == 0x5d || byte == 0x7d) && open > 0 {
                open -= 1;
            }
            if byte == 0x2e {
                dots += 1;
            } else if byte == 0x5b || byte == 0x2c || byte == 0x3d || byte == 0x0a {
                dots = 0;
            }
        }
        if open > deepest {
            deepest = open;
        }
        if dots > most_dots {
            most_dots = dots;
        }
        mode = advance(mode, byte);
        at += 1;
    }
    assert(bytes@.take(at as int) =~= bytes@);
    (deepest, most_dots)
}

} // verus!
