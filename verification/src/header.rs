//! The header of a program: the directives that stand before the body.

use vstd::prelude::*;
use vstd::string::*;

use crate::bytecode::{ByteCode, ByteOption};
use crate::fault::Fault;

verus! {

/// Ends the header; the body starts with the next byte.
pub const END_HEADER: u8 = 0x00;

/// Sets the title. The title follows, up to the next byte of this value;
/// inside a title a zero byte makes a plain character of the byte after it.
pub const SET_TITLE: u8 = 0x01;

/// Makes the program start over whenever it runs off its end.
pub const SET_REPEAT: u8 = 0x02;

/// Asks for the alternative palette.
pub const SET_ALT_PALETTE: u8 = 0x03;

/// Keeps the window open after the program has run off its end.
pub const SET_KEEP_OPEN: u8 = 0x04;

/// Asks for a trace of the instructions.
pub const SET_DEBUG: u8 = 0xd5;

/// What the header of a program says of the run.
pub struct HeaderData {
    pub title: String,
    pub repeat: bool,
    pub alt_colours: bool,
    pub keep_open: bool,
    pub debug: bool,
}

/// A header as plain values.
pub struct HeaderView {
    pub title: Seq<char>,
    pub repeat: bool,
    pub alt_colours: bool,
    pub keep_open: bool,
    pub debug: bool,
}

impl View for HeaderData {
    type V = HeaderView;

    open spec fn view(&self) -> HeaderView {
        HeaderView {
            title: self.title@,
            repeat: self.repeat,
            alt_colours: self.alt_colours,
            keep_open: self.keep_open,
            debug: self.debug,
        }
    }
}

/// Where in a header the reader stands.
pub enum Scan {
    /// Before a directive.
    Directive,
    /// Inside a title.
    Title,
    /// Inside a title, behind a zero byte.
    Escaped,
}

/// The header of a program that has no directive: no title, and every
/// flag unset.
pub open spec fn default_header() -> HeaderView {
    HeaderView {
        title: Seq::empty(),
        repeat: false,
        alt_colours: false,
        keep_open: false,
        debug: false,
    }
}

/// Reads a header byte by byte, from offset `at` on, and gives the header
/// and the offset at which the body starts. `header` is what the bytes
/// before `at` have said.
pub open spec fn read_header(bytes: Seq<u8>, at: int, scan: Scan, header: HeaderView) -> Result<
    (HeaderView, int),
    Fault,
>
    decreases bytes.len() - at,
{
    if at < 0 || at >= bytes.len() {
        Err(Fault::MalformedHeader(None))
    } else {
        let byte = bytes[at];
        match scan {
            Scan::Directive => {
                if byte == END_HEADER {
                    Ok((header, at + 1))
                } else if byte == SET_TITLE {
                    read_header(
                        bytes,
                        at + 1,
                        Scan::Title,
                        HeaderView { title: Seq::empty(), ..header },
                    )
                } else if byte == SET_REPEAT {
                    read_header(bytes, at + 1, scan, HeaderView { repeat: true, ..header })
                } else if byte == SET_ALT_PALETTE {
                    Err(Fault::NotImplemented)
                } else if byte == SET_KEEP_OPEN {
                    read_header(bytes, at + 1, scan, HeaderView { keep_open: true, ..header })
                } else if byte == SET_DEBUG {
                    read_header(bytes, at + 1, scan, HeaderView { debug: true, ..header })
                } else {
                    Err(Fault::MalformedHeader(Some(byte)))
                }
            },
            Scan::Title => {
                if byte == SET_TITLE {
                    read_header(bytes, at + 1, Scan::Directive, header)
                } else if byte == 0x00 {
                    read_header(bytes, at + 1, Scan::Escaped, header)
                } else {
                    read_header(
                        bytes,
                        at + 1,
                        scan,
                        HeaderView { title: header.title.push(byte as char), ..header },
                    )
                }
            },
            Scan::Escaped => read_header(
                bytes,
                at + 1,
                Scan::Title,
                HeaderView { title: header.title.push(byte as char), ..header },
            ),
        }
    }
}

/// What a program says of its run, and its body.
pub open spec fn split_program(program: Seq<u8>) -> Result<(HeaderView, Seq<u8>), Fault> {
    match read_header(program, 0, Scan::Directive, default_header()) {
        Ok((header, body)) => Ok((header, program.subrange(body, program.len() as int))),
        Err(fault) => Err(fault),
    }
}

/// `String::push` of the standard library. It is trusted to append the
/// character to the text and to change nothing else.
#[verifier::external_body]
fn push_char(text: &mut String, c: char)
    ensures
        final(text)@ == old(text)@.push(c),
{
    text.push(c)
}

impl HeaderData {
    /// The header of a program that has no directive.
    pub fn new() -> (header: Self)
        ensures
            header@ == default_header(),
    {
        HeaderData {
            title: String::new(),
            repeat: false,
            alt_colours: false,
            keep_open: false,
            debug: false,
        }
    }

    /// Takes the header off a program: reads the directives up to the
    /// terminator and hands back what they say, with a cursor at the
    /// first byte of the body. A byte that is no directive, a header or a
    /// title that the program ends in, and the directive for the
    /// alternative palette are faults.
    pub fn parse(bytecode: Vec<u8>) -> (parsed: Result<(HeaderData, ByteCode), Fault>)
        ensures
            match split_program(bytecode@) {
                Ok((header, body)) => parsed matches Ok((h, code)) && h@ == header && code.bytes()
                    == body && code.offset() == 0,
                Err(fault) => parsed == Err::<(HeaderData, ByteCode), Fault>(fault),
            },
    {
        let ghost program = bytecode@;
        let mut code = ByteCode::new(bytecode);
        let mut header = HeaderData::new();
        let mut in_title = false;
        let mut escaped = false;
        let ghost mut at: int = 0;
        loop
            invariant
                program == bytecode@,
                0 <= at <= program.len(),
                code.offset() == 0,
                code.bytes() == program.subrange(at, program.len() as int),
                escaped ==> in_title,
                read_header(program, 0, Scan::Directive, default_header()) == read_header(
                    program,
                    at,
                    if escaped {
                        Scan::Escaped
                    } else if in_title {
                        Scan::Title
                    } else {
                        Scan::Directive
                    },
                    header@,
                ),
            decreases program.len() - at,
        {
            let byte = match code.shift() {
                ByteOption::Byte(byte) => byte,
                ByteOption::End(_) => {
                    return Err(Fault::MalformedHeader(None));
                },
            };
            proof {
                assert(byte == program[at]);
                assert(code.bytes() =~= program.subrange(at + 1, program.len() as int));
                at = at + 1;
            }
            if escaped {
                push_char(&mut header.title, byte as char);
                escaped = false;
            } else if in_title {
                if byte == SET_TITLE {
                    in_title = false;
                } else if byte == 0x00 {
                    escaped = true;
                } else {
                    push_char(&mut header.title, byte as char);
                }
            } else if byte == END_HEADER {
                return Ok((header, code));
            } else if byte == SET_TITLE {
                header.title = String::new();
                in_title = true;
            } else if byte == SET_REPEAT {
                header.repeat = true;
            } else if byte == SET_ALT_PALETTE {
                return Err(Fault::NotImplemented);
            } else if byte == SET_KEEP_OPEN {
                header.keep_open = true;
            } else if byte == SET_DEBUG {
                header.debug = true;
            } else {
                return Err(Fault::MalformedHeader(Some(byte)));
            }
        }
    }
}

} // verus!
