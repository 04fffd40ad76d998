use vstd::prelude::*;
use vstd::utf8::*;
use crate::sink::append_bytes;

verus! {

/// The byte that ends a line.
pub const NEWLINE: u8 = 0x0A;

/// The reserved line that lists the registered commands.
pub const HELP_WORD: &'static str = "help";

/// Shown to ask for the next line.
pub const PROMPT: &'static str = "> ";

/// The error for a line that names no registered command.
pub const INVALID_COMMAND: &'static str = "Invalid command";

/// The error for a line whose bytes are not UTF-8.
pub const INVALID_ENCODING: &'static str = "Command is invalid UTF-8";

/// The error for a help listing that the sink refused.
pub const HELP_IO_ERROR: &'static str = "I/O error printing help";

/// Starts each line of the help listing.
pub const HELP_PREFIX: &'static str = "Command: ";

/// Stands between a command's name and its help text in the listing.
pub const HELP_SEPARATOR: &'static str = " - ";

/// Starts the line that reports an error.
pub const ERROR_PREFIX: &'static str = "Error: ";

/// Ends each line of output.
pub const LINE_END: &'static str = "\n";

/// The text that the bytes of a line spell, or `None` where they are not UTF-8.
pub open spec fn line_text(bytes: Seq<u8>) -> Option<Seq<char>> {
    if valid_utf8(bytes) {
        Some(decode_utf8(bytes))
    } else {
        None
    }
}

/// The help listing's line for one command.
pub open spec fn help_line(name: Seq<char>, help_text: Seq<char>) -> Seq<u8> {
    encode_utf8(HELP_PREFIX@ + name + HELP_SEPARATOR@ + help_text + LINE_END@)
}

/// The help listing for commands given as (name, help text), one line each, in order.
pub open spec fn help_listing(entries: Seq<(Seq<char>, Seq<char>)>) -> Seq<u8>
    decreases entries.len(),
{
    if entries.len() == 0 {
        Seq::empty()
    } else {
        help_listing(entries.drop_last()) + help_line(entries.last().0, entries.last().1)
    }
}

/// The line that reports an error message.
pub open spec fn error_line(message: Seq<char>) -> Seq<u8> {
    encode_utf8(ERROR_PREFIX@ + message + LINE_END@)
}

/// Encoding a concatenation encodes each part in turn.
pub proof fn lemma_encode_concat(a: Seq<char>, b: Seq<char>)
    ensures
        encode_utf8(a + b) == encode_utf8(a) + encode_utf8(b),
    decreases a.len(),
{
    if a.len() == 0 {
        assert(a + b =~= b);
        assert(encode_utf8(a) + encode_utf8(b) =~= encode_utf8(b));
    } else {
        assert((a + b).drop_first() =~= a.drop_first() + b);
        assert((a + b)[0] == a[0]);
        lemma_encode_concat(a.drop_first(), b);
        assert(encode_utf8(a + b) =~= encode_utf8(a) + encode_utf8(b));
    }
}

/// Relies on std::str::from_utf8: it accepts exactly the well-formed UTF-8 byte
/// sequences, and the text it hands back is the one they encode.
#[verifier::external_body]
pub(crate) fn decode_text(bytes: &[u8]) -> (r: Option<&str>)
    ensures
        r is Some <==> valid_utf8(bytes@),
        r matches Some(s) ==> s@ == decode_utf8(bytes@),
{
    match std::str::from_utf8(bytes) {
        Ok(s) => Some(s),
        Err(_) => None,
    }
}

/// Whether two texts are the same characters.
pub fn same_text(a: &str, b: &str) -> (r: bool)
    ensures
        r == (a@ == b@),
{
    let x: String = a.to_owned();
    let y: String = b.to_owned();
    x == y
}

/// Appends the UTF-8 encoding of `s` to `out`.
pub fn append_text(out: &mut Vec<u8>, s: &str)
    ensures
        final(out)@ == old(out)@ + encode_utf8(s@),
{
    append_bytes(out, s.as_bytes());
}

} // verus!
