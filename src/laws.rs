use vstd::prelude::*;
use vstd::utf8::*;
use crate::harness::{line_done, Harness};
use crate::sink::Sink;
use crate::text::{help_listing, HELP_IO_ERROR, HELP_WORD, INVALID_COMMAND, INVALID_ENCODING};

verus! {

broadcast use {encode_utf8_valid_utf8, encode_utf8_decode_utf8};

/// A line that spells a registered name whose handler always succeeds gives
/// success; entered twice in a row, it succeeds both times, since the first line
/// leaves nothing pending and the commands as they were. (A name `help` lists the
/// commands instead, which succeeds when the sink accepts every write.)
pub proof fn lemma_command_succeeds_twice<W: Sink, H: Fn() -> Result<(), &'static str>>(
    first: Harness<W, H>,
    between: Harness<W, H>,
    second: Harness<W, H>,
    last: Harness<W, H>,
    name: Seq<char>,
    r1: Result<(), &'static str>,
    r2: Result<(), &'static str>,
)
    requires
        first.commands().contains_key(name),
        name != HELP_WORD@ || first.sink().accepts_all(),
        forall|o: Result<(), &'static str>|
            call_ensures(first.commands()[name].1, (), o) ==> o is Ok,
        first.pending() == encode_utf8(name),
        line_done(first, between, r1),
        second.commands() == between.commands(),
        second.sink() == between.sink(),
        second.pending() == between.pending() + encode_utf8(name),
        line_done(second, last, r2),
    ensures
        r1 is Ok,
        r2 is Ok,
        between.pending() == Seq::<u8>::empty(),
        last.pending() == Seq::<u8>::empty(),
{
    assert(second.pending() =~= encode_utf8(name));
}

/// A line that spells a registered name (other than `help`) whose handler always
/// fails with `message` fails with exactly that message.
pub proof fn lemma_command_failure_passed_on<W: Sink, H: Fn() -> Result<(), &'static str>>(
    before: Harness<W, H>,
    after: Harness<W, H>,
    name: Seq<char>,
    message: &'static str,
    r: Result<(), &'static str>,
)
    requires
        before.commands().contains_key(name),
        name != HELP_WORD@,
        forall|o: Result<(), &'static str>|
            call_ensures(before.commands()[name].1, (), o) ==> o == Err::<(), &'static str>(
                message,
            ),
        before.pending() == encode_utf8(name),
        line_done(before, after, r),
    ensures
        r == Err::<(), &'static str>(message),
{
}

/// A UTF-8 line that is neither `help` nor a registered name fails as an invalid command.
pub proof fn lemma_unknown_line_is_invalid_command<
    W: Sink,
    H: Fn() -> Result<(), &'static str>,
>(before: Harness<W, H>, after: Harness<W, H>, r: Result<(), &'static str>)
    requires
        valid_utf8(before.pending()),
        decode_utf8(before.pending()) != HELP_WORD@,
        !before.commands().contains_key(decode_utf8(before.pending())),
        line_done(before, after, r),
    ensures
        r == Err::<(), &'static str>(INVALID_COMMAND),
        after.sink() == before.sink(),
{
}

/// The line `help` never runs a handler, even one registered as `help`: it
/// succeeds, having written one line for each registered command, whenever the
/// sink accepts every write; otherwise it may instead report that the sink
/// refused the listing.
pub proof fn lemma_help_lists_every_command<W: Sink, H: Fn() -> Result<(), &'static str>>(
    before: Harness<W, H>,
    after: Harness<W, H>,
    r: Result<(), &'static str>,
)
    requires
        before.wf(),
        before.pending() == encode_utf8(HELP_WORD@),
        line_done(before, after, r),
    ensures
        r is Ok || r == Err::<(), &'static str>(HELP_IO_ERROR),
        before.sink().accepts_all() ==> r is Ok,
        r is Ok ==> after.sink().sent() == before.sink().sent() + help_listing(before.listing()),
        forall|i: int, j: int|
            0 <= i < j < before.listing().len() ==> before.listing()[i].0
                != before.listing()[j].0,
        forall|k: Seq<char>|
            #[trigger] before.commands().contains_key(k) <==> exists|i: int|
                0 <= i < before.listing().len() && #[trigger] before.listing()[i].0 == k,
        before.listing().len() == before.commands().dom().len(),
{
    before.lemma_listing_matches();
    let names = before.listing().map_values(|e: (Seq<char>, Seq<char>)| e.0);
    assert(names.no_duplicates());
    assert forall|k: Seq<char>| names.contains(k) <==> before.commands().dom().contains(k) by {
        if names.contains(k) {
            let i = choose|i: int| 0 <= i < names.len() && names[i] == k;
            assert(before.listing()[i].0 == k);
        }
        if before.commands().dom().contains(k) {
            let i = choose|i: int|
                0 <= i < before.listing().len() && #[trigger] before.listing()[i].0 == k;
            assert(names[i] == k);
        }
    }
    assert(names.to_set() =~= before.commands().dom());
    names.unique_seq_to_set();
}

/// A line whose bytes are not UTF-8 fails as an invalid encoding, never as an
/// invalid command.
pub proof fn lemma_bad_encoding_is_reported<W: Sink, H: Fn() -> Result<(), &'static str>>(
    before: Harness<W, H>,
    after: Harness<W, H>,
    r: Result<(), &'static str>,
)
    requires
        !valid_utf8(before.pending()),
        line_done(before, after, r),
    ensures
        r == Err::<(), &'static str>(INVALID_ENCODING),
        r != Err::<(), &'static str>(INVALID_COMMAND),
        after.sink() == before.sink(),
{
    reveal_strlit("Command is invalid UTF-8");
    reveal_strlit("Invalid command");
    assert(INVALID_ENCODING@.len() != INVALID_COMMAND@.len());
}

} // verus!
