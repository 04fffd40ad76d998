use vstd::prelude::*;
use vstd::utf8::*;
use crate::registry::Registry;
use crate::sink::Sink;
use crate::text::{
    append_text, decode_text, error_line, help_line, help_listing, lemma_encode_concat,
    line_text, same_text, ERROR_PREFIX, HELP_IO_ERROR, HELP_PREFIX, HELP_SEPARATOR, HELP_WORD,
    INVALID_COMMAND, INVALID_ENCODING, LINE_END, NEWLINE, PROMPT,
};

verus! {

/// Gathers bytes into lines and runs the command that each completed line names,
/// writing help, errors and prompts to its sink.
pub struct Harness<W, H> {
    cmdline: Vec<u8>,
    commands: Registry<H>,
    writer: W,
}

/// What handling one completed line does: `before` held the line's bytes, `after`
/// is the harness once the line is handled, `r` is the line's result.
pub open spec fn line_done<W: Sink, H: Fn() -> Result<(), &'static str>>(
    before: Harness<W, H>,
    after: Harness<W, H>,
    r: Result<(), &'static str>,
) -> bool {
    &&& after.wf()
    &&& after.pending() == Seq::<u8>::empty()
    &&& after.commands() == before.commands()
    &&& after.listing() == before.listing()
    &&& before.sink().accepts_all() ==> after.sink().accepts_all()
    &&& match line_text(before.pending()) {
        None => r == Err::<(), &'static str>(INVALID_ENCODING) && after.sink() == before.sink(),
        Some(t) => if t == HELP_WORD@ {
            &&& before.sink().accepts_all() ==> r is Ok
            &&& listed(before.sink(), after.sink(), before.listing(), r is Ok)
            &&& r is Err ==> r == Err::<(), &'static str>(HELP_IO_ERROR)
        } else if before.commands().contains_key(t) {
            call_ensures(before.commands()[t].1, (), r) && after.sink() == before.sink()
        } else {
            r == Err::<(), &'static str>(INVALID_COMMAND) && after.sink() == before.sink()
        },
    }
}

/// What writing the help listing for `entries` does to a sink: on success every
/// line is accepted; otherwise writing stopped at the first line that failed, and
/// only the lines before it were accepted.
pub open spec fn listed<W: Sink>(
    before: W,
    after: W,
    entries: Seq<(Seq<char>, Seq<char>)>,
    ok: bool,
) -> bool {
    if ok {
        &&& after.sent() == before.sent() + help_listing(entries)
        &&& after.failures() == before.failures()
    } else {
        &&& after.failures() == before.failures() + 1
        &&& exists|k: int|
            0 <= k < entries.len() && after.sent() == before.sent() + #[trigger] help_listing(
                entries.take(k),
            )
    }
}

/// What writing the prompt and then flushing does to a sink: on success the prompt
/// is accepted and flushed; otherwise either the write failed and no flush was
/// tried, or the write was accepted and the flush failed.
pub open spec fn prompted<W: Sink>(before: W, after: W, r: Result<(), std::io::Error>) -> bool {
    match r {
        Ok(_) => {
            &&& after.sent() == before.sent() + encode_utf8(PROMPT@)
            &&& after.flushed()
            &&& after.failures() == before.failures()
        },
        Err(_) => {
            &&& after.failures() == before.failures() + 1
            &&& {
                ||| after.sent() == before.sent() && after.flushed() == before.flushed()
                ||| after.sent() == before.sent() + encode_utf8(PROMPT@)
            }
        },
    }
}

/// What reporting a line's result `o` does to a sink: a failure's error line is
/// written first, and the prompt follows only once that line was accepted.
pub open spec fn replied<W: Sink>(
    before: W,
    after: W,
    o: Result<(), &'static str>,
    r: Result<(), std::io::Error>,
) -> bool {
    match o {
        Ok(_) => prompted(before, after, r),
        Err(m) => {
            ||| {
                &&& r is Err
                &&& after.sent() == before.sent()
                &&& after.flushed() == before.flushed()
                &&& after.failures() == before.failures() + 1
            }
            ||| exists|w: W|
                w.sent() == before.sent() + error_line(m@) && w.failures() == before.failures()
                    && #[trigger] prompted(w, after, r)
        },
    }
}

impl<W: Sink, H: Fn() -> Result<(), &'static str>> Harness<W, H> {
    /// The bytes received since the last line ended.
    pub closed spec fn pending(&self) -> Seq<u8> {
        self.cmdline@
    }

    /// Each registered name, with its help text and handler.
    pub closed spec fn commands(&self) -> Map<Seq<char>, (Seq<char>, H)> {
        self.commands@
    }

    /// The registered commands as (name, help text), in the order the help listing gives them.
    pub closed spec fn listing(&self) -> Seq<(Seq<char>, Seq<char>)> {
        self.commands.listing()
    }

    /// The sink that output goes to.
    pub closed spec fn sink(&self) -> W {
        self.writer
    }

    /// The registry is well formed and every registered handler may be called.
    pub closed spec fn wf(&self) -> bool {
        &&& self.commands.wf()
        &&& forall|k: Seq<char>|
            #[trigger] self.commands@.contains_key(k) ==> call_requires(self.commands@[k].1, ())
    }

    /// The help listing names every registered command once, with its help text.
    pub proof fn lemma_listing_matches(&self)
        requires
            self.wf(),
        ensures
            forall|i: int, j: int|
                0 <= i < j < self.listing().len() ==> self.listing()[i].0 != self.listing()[j].0,
            forall|i: int|
                0 <= i < self.listing().len() ==> self.commands().contains_key(
                    #[trigger] self.listing()[i].0,
                ) && self.commands()[self.listing()[i].0].0 == self.listing()[i].1,
            forall|k: Seq<char>|
                #[trigger] self.commands().contains_key(k) ==> exists|i: int|
                    0 <= i < self.listing().len() && #[trigger] self.listing()[i].0 == k,
    {
        self.commands.lemma_listing_matches();
        assert forall|k: Seq<char>| #[trigger] self.commands().contains_key(k) implies exists|i: int|
            0 <= i < self.listing().len() && #[trigger] self.listing()[i].0 == k by {
            assert(self.commands@.contains_key(k));
            let i = choose|i: int|
                0 <= i < self.commands.listing().len() && #[trigger] self.commands.listing()[i].0 == k;
            assert(self.listing()[i].0 == k);
        }
    }

    /// A harness with no commands and nothing received, writing to `writer`.
    pub fn new(writer: W) -> (r: Self)
        ensures
            r.wf(),
            r.pending() == Seq::<u8>::empty(),
            r.commands() == Map::<Seq<char>, (Seq<char>, H)>::empty(),
            r.listing() == Seq::<(Seq<char>, Seq<char>)>::empty(),
            r.sink() == writer,
    {
        Harness { cmdline: Vec::new(), commands: Registry::new(), writer }
    }

    /// The sink that output goes to.
    pub fn writer(&self) -> (r: &W)
        ensures
            *r == self.sink(),
    {
        &self.writer
    }

    /// Writes one line `Command: {name} - {help text}` for each registered command.
    pub fn print_help(&mut self) -> (r: Result<(), std::io::Error>)
        requires
            old(self).wf(),
        ensures
            final(self).wf(),
            final(self).pending() == old(self).pending(),
            final(self).commands() == old(self).commands(),
            final(self).listing() == old(self).listing(),
            listed(old(self).sink(), final(self).sink(), old(self).listing(), r is Ok),
            old(self).sink().accepts_all() ==> r is Ok && final(self).sink().accepts_all(),
    {
        let n = self.commands.len();
        let mut i: usize = 0;
        while i < n
            invariant
                self.wf(),
                n == self.listing().len(),
                0 <= i <= n,
                self.pending() == old(self).pending(),
                self.commands() == old(self).commands(),
                self.listing() == old(self).listing(),
                old(self).sink().accepts_all() ==> self.sink().accepts_all(),
                self.sink().sent() == old(self).sink().sent() + help_listing(
                    self.listing().take(i as int),
                ),
                self.sink().failures() == old(self).sink().failures(),
            decreases n - i,
        {
            let cmd = self.commands.entry(i);
            let mut line: Vec<u8> = Vec::new();
            append_text(&mut line, HELP_PREFIX);
            append_text(&mut line, cmd.name.as_str());
            append_text(&mut line, HELP_SEPARATOR);
            append_text(&mut line, cmd.help_text.as_str());
            append_text(&mut line, LINE_END);
            proof {
                let (name, help) = self.listing()[i as int];
                lemma_encode_concat(HELP_PREFIX@, name);
                lemma_encode_concat(HELP_PREFIX@ + name, HELP_SEPARATOR@);
                lemma_encode_concat(HELP_PREFIX@ + name + HELP_SEPARATOR@, help);
                lemma_encode_concat(HELP_PREFIX@ + name + HELP_SEPARATOR@ + help, LINE_END@);
                assert(line@ =~= help_line(name, help));
                assert(self.listing().take(i as int + 1).drop_last() =~= self.listing().take(
                    i as int,
                ));
            }
            match self.writer.write_bytes(line.as_slice()) {
                Ok(()) => {},
                Err(e) => {
                    proof {
                        assert(help_listing(self.listing().take(i as int)) == help_listing(
                            old(self).listing().take(i as int),
                        ));
                    }
                    return Err(e);
                },
            }
            proof {
                assert(self.sink().sent() =~= old(self).sink().sent() + help_listing(
                    self.listing().take(i as int + 1),
                ));
            }
            i = i + 1;
        }
        proof {
            assert(self.listing().take(n as int) =~= self.listing());
        }
        Ok(())
    }

    /// Writes the prompt and flushes the sink.
    pub fn prompt(&mut self) -> (r: Result<(), std::io::Error>)
        requires
            old(self).wf(),
        ensures
            final(self).wf(),
            final(self).pending() == old(self).pending(),
            final(self).commands() == old(self).commands(),
            final(self).listing() == old(self).listing(),
            prompted(old(self).sink(), final(self).sink(), r),
            old(self).sink().accepts_all() ==> r is Ok && final(self).sink().accepts_all(),
    {
        let mut text: Vec<u8> = Vec::new();
        append_text(&mut text, PROMPT);
        proof {
            assert(text@ =~= encode_utf8(PROMPT@));
        }
        match self.writer.write_bytes(text.as_slice()) {
            Ok(()) => {},
            Err(e) => {
                return Err(e);
            },
        }
        self.writer.flush()
    }

    /// Registers `handler` under `name`, replacing any command that had that name.
    pub fn add_command(&mut self, name: &str, help_text: &str, handler: H)
        requires
            old(self).wf(),
            call_requires(handler, ()),
        ensures
            final(self).wf(),
            final(self).pending() == old(self).pending(),
            final(self).sink() == old(self).sink(),
            final(self).commands() == old(self).commands().insert(name@, (help_text@, handler)),
            old(self).commands().contains_key(name@) ==> final(self).listing().len()
                == old(self).listing().len(),
            !old(self).commands().contains_key(name@) ==> final(self).listing()
                == old(self).listing().push((name@, help_text@)),
    {
        self.commands.register(name, help_text, handler);
    }

    /// Takes one byte: a newline completes the line and gives its result, any other
    /// byte is added to the line and gives `None`. Writes the error and the prompt
    /// that follow a completed line.
    pub fn receive_and_print(&mut self, c: u8) -> (r: Result<(), std::io::Error>)
        requires
            old(self).wf(),
        ensures
            final(self).wf(),
            final(self).commands() == old(self).commands(),
            final(self).listing() == old(self).listing(),
            old(self).sink().accepts_all() ==> r is Ok && final(self).sink().accepts_all(),
            c != NEWLINE ==> {
                &&& r is Ok
                &&& final(self).pending() == old(self).pending().push(c)
                &&& final(self).sink() == old(self).sink()
            },
            c == NEWLINE ==> exists|mid: Harness<W, H>, o: Result<(), &'static str>|
                {
                    &&& line_done(*old(self), mid, o)
                    &&& final(self).pending() == Seq::<u8>::empty()
                    &&& replied(mid.sink(), final(self).sink(), o, r)
                },
    {
        let outcome = self.receive(c);
        let ghost mid = *self;
        match outcome {
            None => Ok(()),
            Some(Ok(())) => self.prompt(),
            Some(Err(m)) => {
                let mut text: Vec<u8> = Vec::new();
                append_text(&mut text, ERROR_PREFIX);
                append_text(&mut text, m);
                append_text(&mut text, LINE_END);
                proof {
                    lemma_encode_concat(ERROR_PREFIX@, m@);
                    lemma_encode_concat(ERROR_PREFIX@ + m@, LINE_END@);
                    assert(text@ =~= error_line(m@));
                }
                match self.writer.write_bytes(text.as_slice()) {
                    Ok(()) => {},
                    Err(e) => {
                        return Err(e);
                    },
                }
                let ghost w = self.writer;
                let r = self.prompt();
                proof {
                    assert(prompted(w, self.sink(), r));
                }
                r
            },
        }
    }

    /// Takes one byte: a newline completes the line and gives `Some` of its result,
    /// any other byte is added to the line and gives `None`.
    pub fn receive(&mut self, c: u8) -> (r: Option<Result<(), &'static str>>)
        requires
            old(self).wf(),
        ensures
            final(self).wf(),
            c != NEWLINE ==> {
                &&& r is None
                &&& final(self).pending() == old(self).pending().push(c)
                &&& final(self).commands() == old(self).commands()
                &&& final(self).listing() == old(self).listing()
                &&& final(self).sink() == old(self).sink()
            },
            c == NEWLINE ==> (r matches Some(o) && line_done(*old(self), *final(self), o)),
    {
        if c == NEWLINE {
            Some(self.process())
        } else {
            self.cmdline.push(c);
            None
        }
    }

    /// Handles the line received so far and starts a new one. A line that is not
    /// UTF-8 fails; `help` writes the help listing; a registered name runs its
    /// handler and gives its result unchanged; any other line fails.
    pub fn process(&mut self) -> (r: Result<(), &'static str>)
        requires
            old(self).wf(),
        ensures
            line_done(*old(self), *final(self), r),
    {
        let mut line: Vec<u8> = Vec::new();
        std::mem::swap(&mut self.cmdline, &mut line);
        match decode_text(line.as_slice()) {
            None => Err(INVALID_ENCODING),
            Some(text) => {
                if same_text(text, HELP_WORD) {
                    match self.print_help() {
                        Ok(()) => Ok(()),
                        Err(_) => Err(HELP_IO_ERROR),
                    }
                } else {
                    match self.commands.lookup(text) {
                        Some(cmd) => (cmd.handler)(),
                        None => Err(INVALID_COMMAND),
                    }
                }
            },
        }
    }
}

} // verus!
