use vstd::prelude::*;

verus! {

/// std::io::Error, as a sink's writes report it: carried back to the caller unchanged.
#[verifier::external_type_specification]
#[verifier::external_body]
pub struct ExIoError(std::io::Error);

/// An append-only byte stream that the harness writes its text to.
pub trait Sink {
    /// Every byte that the stream has accepted so far, in order.
    spec fn sent(&self) -> Seq<u8>;

    /// Whether everything accepted has been flushed on to its destination.
    spec fn flushed(&self) -> bool;

    /// How many writes and flushes have failed so far.
    spec fn failures(&self) -> nat;

    /// Whether the stream accepts every write and flush from now on.
    spec fn accepts_all(&self) -> bool;

    /// Appends `bytes` to the stream. A failed write is counted and accepts nothing.
    fn write_bytes(&mut self, bytes: &[u8]) -> (r: Result<(), std::io::Error>)
        ensures
            r is Ok ==> final(self).sent() == old(self).sent() + bytes@ && final(self).failures()
                == old(self).failures(),
            r is Err ==> {
                &&& final(self).sent() == old(self).sent()
                &&& final(self).flushed() == old(self).flushed()
                &&& final(self).failures() == old(self).failures() + 1
            },
            old(self).accepts_all() ==> r is Ok && final(self).accepts_all(),
    ;

    /// Pushes what was accepted on to its destination. A failed flush is counted.
    fn flush(&mut self) -> (r: Result<(), std::io::Error>)
        ensures
            final(self).sent() == old(self).sent(),
            r is Ok ==> final(self).flushed() && final(self).failures() == old(self).failures(),
            r is Err ==> final(self).flushed() == old(self).flushed() && final(self).failures()
                == old(self).failures() + 1,
            old(self).accepts_all() ==> r is Ok && final(self).accepts_all(),
    ;
}

/// Appends `bytes` to `out`.
pub fn append_bytes(out: &mut Vec<u8>, bytes: &[u8])
    ensures
        final(out)@ == old(out)@ + bytes@,
{
    let mut i: usize = 0;
    while i < bytes.len()
        invariant
            0 <= i <= bytes@.len(),
            out@ == old(out)@ + bytes@.take(i as int),
        decreases bytes@.len() - i,
    {
        out.push(bytes[i]);
        proof {
            assert(bytes@.take(i as int + 1) == bytes@.take(i as int).push(bytes@[i as int]));
        }
        i = i + 1;
    }
    proof {
        assert(bytes@.take(bytes@.len() as int) == bytes@);
    }
}

/// An in-memory sink: it accepts every write, and there is never anything to flush.
impl Sink for Vec<u8> {
    open spec fn sent(&self) -> Seq<u8> {
        self@
    }

    open spec fn flushed(&self) -> bool {
        true
    }

    open spec fn failures(&self) -> nat {
        0
    }

    open spec fn accepts_all(&self) -> bool {
        true
    }

    fn write_bytes(&mut self, bytes: &[u8]) -> (r: Result<(), std::io::Error>) {
        append_bytes(self, bytes);
        Ok(())
    }

    fn flush(&mut self) -> (r: Result<(), std::io::Error>) {
        Ok(())
    }
}

/// std::io::Stdout, the process's standard output, carried as an opaque handle.
#[verifier::external_type_specification]
#[verifier::external_body]
pub struct ExStdout(std::io::Stdout);

/// Relies on std::io::stdout: it gives a handle to standard output.
#[verifier::external_body]
fn stdout_handle() -> (r: std::io::Stdout) {
    std::io::stdout()
}

/// Relies on std::io::Write::write_all for standard output: it hands `bytes` on
/// and reports whether all of them were taken. Nothing is assumed of the outcome.
#[verifier::external_body]
fn stdout_write_all(out: &mut std::io::Stdout, bytes: &[u8]) -> (r: Result<(), std::io::Error>) {
    std::io::Write::write_all(out, bytes)
}

/// Relies on std::io::Write::flush for standard output: it passes on what was
/// buffered. Nothing is assumed of the outcome.
#[verifier::external_body]
fn stdout_flush(out: &mut std::io::Stdout) -> (r: Result<(), std::io::Error>) {
    std::io::Write::flush(out)
}

/// A sink on standard output: each write and flush goes straight to it, and its
/// errors come back unchanged.
pub struct StdoutSink {
    out: std::io::Stdout,
    accepted: Ghost<Seq<u8>>,
    is_flushed: Ghost<bool>,
    failed: Ghost<nat>,
}

impl StdoutSink {
    /// A sink on standard output that has accepted nothing yet.
    pub fn new() -> (r: Self)
        ensures
            r.sent() == Seq::<u8>::empty(),
            r.flushed(),
            r.failures() == 0,
    {
        StdoutSink {
            out: stdout_handle(),
            accepted: Ghost(Seq::empty()),
            is_flushed: Ghost(true),
            failed: Ghost(0),
        }
    }
}

impl Sink for StdoutSink {
    closed spec fn sent(&self) -> Seq<u8> {
        self.accepted@
    }

    closed spec fn flushed(&self) -> bool {
        self.is_flushed@
    }

    closed spec fn failures(&self) -> nat {
        self.failed@
    }

    /// Any write to standard output may fail.
    closed spec fn accepts_all(&self) -> bool {
        false
    }

    fn write_bytes(&mut self, bytes: &[u8]) -> (r: Result<(), std::io::Error>) {
        match stdout_write_all(&mut self.out, bytes) {
            Ok(()) => {
                self.accepted = Ghost(self.accepted@ + bytes@);
                self.is_flushed = Ghost(false);
                Ok(())
            },
            Err(e) => {
                self.failed = Ghost(self.failed@ + 1);
                Err(e)
            },
        }
    }

    fn flush(&mut self) -> (r: Result<(), std::io::Error>) {
        match stdout_flush(&mut self.out) {
            Ok(()) => {
                self.is_flushed = Ghost(true);
                Ok(())
            },
            Err(e) => {
                self.failed = Ghost(self.failed@ + 1);
                Err(e)
            },
        }
    }
}

} // verus!
