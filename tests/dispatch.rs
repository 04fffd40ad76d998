use harness::sink::Sink;
use harness::text::{same_text, HELP_IO_ERROR, INVALID_COMMAND, INVALID_ENCODING, NEWLINE};
use harness::{Harness, Registry, StdoutSink};

type Handler = fn() -> Result<(), &'static str>;

fn works() -> Result<(), &'static str> {
    println!("Works!");
    Ok(())
}

fn fails() -> Result<(), &'static str> {
    println!("Fails!");
    Err("boom")
}

fn feed<W: Sink, H: Fn() -> Result<(), &'static str>>(
    h: &mut Harness<W, H>,
    bytes: &[u8],
) -> Option<Result<(), &'static str>> {
    let mut last = None;
    for b in bytes {
        last = h.receive(*b);
    }
    last
}

#[test]
fn bad_command() {
    let outbuf: Vec<u8> = Vec::new();
    let mut h = Harness::new(outbuf);
    h.add_command("foobar", "test function", works);
    assert_eq!(h.receive('h' as u8), None);
    assert_eq!(h.receive('h' as u8), None);
    assert_eq!(h.receive('h' as u8), None);
    assert_eq!(h.receive('h' as u8), None);
    assert_eq!(h.receive('\n' as u8), Some(Err("Invalid command")));
}

#[test]
fn good_command() {
    let outbuf: Vec<u8> = Vec::new();
    let mut h = Harness::new(outbuf);
    h.add_command("foo", "Does stuff.", works);
    assert_eq!(h.receive('f' as u8), None);
    assert_eq!(h.receive('o' as u8), None);
    assert_eq!(h.receive('o' as u8), None);
    assert_eq!(h.receive('\n' as u8), Some(Ok(())));
}

#[test]
fn good_command_but_fails() {
    let outbuf: Vec<u8> = Vec::new();
    let mut h = Harness::new(outbuf);
    h.add_command("foo", "Does stuff.", fails);
    assert_eq!(h.receive('f' as u8), None);
    assert_eq!(h.receive('o' as u8), None);
    assert_eq!(h.receive('o' as u8), None);
    assert_eq!(h.receive('\n' as u8), Some(Err("boom")));
}

#[test]
fn good_command_twice() {
    let outbuf: Vec<u8> = Vec::new();
    let mut h = Harness::new(outbuf);
    h.add_command("foo", "Does stuff.", works);
    assert_eq!(h.receive('f' as u8), None);
    assert_eq!(h.receive('o' as u8), None);
    assert_eq!(h.receive('o' as u8), None);
    assert_eq!(h.receive('\n' as u8), Some(Ok(())));
    assert_eq!(h.receive('f' as u8), None);
    assert_eq!(h.receive('o' as u8), None);
    assert_eq!(h.receive('o' as u8), None);
    assert_eq!(h.receive('\n' as u8), Some(Ok(())));
}

#[test]
fn help() {
    let outbuf: Vec<u8> = Vec::new();
    let mut h: Harness<Vec<u8>, Handler> = Harness::new(outbuf);
    assert_eq!(h.receive('h' as u8), None);
    assert_eq!(h.receive('e' as u8), None);
    assert_eq!(h.receive('l' as u8), None);
    assert_eq!(h.receive('p' as u8), None);
    assert_eq!(h.receive('\n' as u8), Some(Ok(())));
}

#[test]
fn bytes_without_newline_give_no_result() {
    let mut h: Harness<Vec<u8>, Handler> = Harness::new(Vec::new());
    h.add_command("foo", "Does stuff.", works);
    for b in [b'f', b'o', b'o', 0x80, 0x00, 0xff, b'\r', b'h'] {
        assert_eq!(h.receive(b), None);
    }
    assert!(h.writer().is_empty());
}

#[test]
fn help_with_no_commands_writes_no_lines() {
    let mut h: Harness<Vec<u8>, Handler> = Harness::new(Vec::new());
    assert_eq!(feed(&mut h, b"help\n"), Some(Ok(())));
    assert!(h.writer().is_empty());
}

#[test]
fn help_lists_each_command_once_even_when_help_is_registered() {
    let mut h: Harness<Vec<u8>, Handler> = Harness::new(Vec::new());
    h.add_command("foo", "Does stuff.", works);
    h.add_command("help", "Shadowed.", fails);
    h.add_command("bar", "Other stuff.", fails);
    assert_eq!(feed(&mut h, b"help\n"), Some(Ok(())));
    let out = String::from_utf8(h.writer().clone()).unwrap();
    assert_eq!(
        out,
        "Command: foo - Does stuff.\nCommand: help - Shadowed.\nCommand: bar - Other stuff.\n"
    );
    assert_eq!(out.matches("Command: ").count(), 3);
}

#[test]
fn help_lists_again_on_second_request() {
    let mut h: Harness<Vec<u8>, Handler> = Harness::new(Vec::new());
    h.add_command("foo", "Does stuff.", works);
    assert_eq!(feed(&mut h, b"help\n"), Some(Ok(())));
    assert_eq!(feed(&mut h, b"help\n"), Some(Ok(())));
    assert_eq!(h.writer().as_slice(), b"Command: foo - Does stuff.\nCommand: foo - Does stuff.\n");
}

#[test]
fn lone_continuation_byte_is_invalid_encoding() {
    let mut h: Harness<Vec<u8>, Handler> = Harness::new(Vec::new());
    h.add_command("foo", "Does stuff.", works);
    assert_eq!(h.receive(0x80), None);
    assert_eq!(h.receive(NEWLINE), Some(Err(INVALID_ENCODING)));
    assert_eq!(INVALID_ENCODING, "Command is invalid UTF-8");
    assert_ne!(INVALID_ENCODING, INVALID_COMMAND);
}

#[test]
fn truncated_multibyte_sequence_is_invalid_encoding() {
    let mut h: Harness<Vec<u8>, Handler> = Harness::new(Vec::new());
    h.add_command("caf", "Truncated.", works);
    assert_eq!(feed(&mut h, &[b'c', b'a', b'f', 0xc3, b'\n']), Some(Err(INVALID_ENCODING)));
}

#[test]
fn multibyte_name_is_decoded_and_matched() {
    let mut h: Harness<Vec<u8>, Handler> = Harness::new(Vec::new());
    h.add_command("café", "Coffee.", fails);
    assert_eq!(feed(&mut h, "café\n".as_bytes()), Some(Err("boom")));
    assert_eq!(feed(&mut h, b"cafe\n"), Some(Err(INVALID_COMMAND)));
}

#[test]
fn empty_line_is_invalid_command() {
    let mut h: Harness<Vec<u8>, Handler> = Harness::new(Vec::new());
    h.add_command("foo", "Does stuff.", works);
    assert_eq!(h.receive(b'\n'), Some(Err(INVALID_COMMAND)));
}

#[test]
fn empty_name_can_be_registered() {
    let mut h: Harness<Vec<u8>, Handler> = Harness::new(Vec::new());
    h.add_command("", "Blank line.", works);
    assert_eq!(h.receive(b'\n'), Some(Ok(())));
}

#[test]
fn carriage_return_is_part_of_the_name() {
    let mut h: Harness<Vec<u8>, Handler> = Harness::new(Vec::new());
    h.add_command("foo", "Does stuff.", works);
    assert_eq!(feed(&mut h, b"foo\r\n"), Some(Err(INVALID_COMMAND)));
    assert_eq!(feed(&mut h, b"foo\n"), Some(Ok(())));
}

#[test]
fn lookup_is_case_sensitive() {
    let mut h: Harness<Vec<u8>, Handler> = Harness::new(Vec::new());
    h.add_command("foo", "Does stuff.", works);
    assert_eq!(feed(&mut h, b"FOO\n"), Some(Err(INVALID_COMMAND)));
    assert_eq!(feed(&mut h, b"HELP\n"), Some(Err(INVALID_COMMAND)));
}

#[test]
fn registering_a_name_again_replaces_it() {
    let mut h: Harness<Vec<u8>, Handler> = Harness::new(Vec::new());
    h.add_command("foo", "First.", works);
    h.add_command("foo", "Second.", fails);
    assert_eq!(feed(&mut h, b"foo\n"), Some(Err("boom")));
    assert_eq!(feed(&mut h, b"help\n"), Some(Ok(())));
    assert_eq!(h.writer().as_slice(), b"Command: foo - Second.\n");
}

#[test]
fn failed_line_does_not_leak_into_next() {
    let mut h: Harness<Vec<u8>, Handler> = Harness::new(Vec::new());
    h.add_command("foo", "Does stuff.", works);
    assert_eq!(feed(&mut h, &[0xff, b'\n']), Some(Err(INVALID_ENCODING)));
    assert_eq!(feed(&mut h, b"zzz\n"), Some(Err(INVALID_COMMAND)));
    assert_eq!(feed(&mut h, b"foo\n"), Some(Ok(())));
}

#[test]
fn prompt_writes_marker() {
    let mut h: Harness<Vec<u8>, Handler> = Harness::new(Vec::new());
    assert!(h.prompt().is_ok());
    assert_eq!(h.writer().as_slice(), b"> ");
}

#[test]
fn receive_and_print_reports_results() {
    let mut h: Harness<Vec<u8>, Handler> = Harness::new(Vec::new());
    h.add_command("foo", "Does stuff.", works);
    h.add_command("bar", "Breaks.", fails);
    for b in b"foo" {
        assert!(h.receive_and_print(*b).is_ok());
    }
    assert!(h.writer().is_empty());
    assert!(h.receive_and_print(b'\n').is_ok());
    assert_eq!(h.writer().as_slice(), b"> ");
    for b in b"bar\nxyz\n" {
        assert!(h.receive_and_print(*b).is_ok());
    }
    assert_eq!(
        h.writer().as_slice(),
        b"> Error: boom\n> Error: Invalid command\n> "
    );
}

#[test]
fn receive_and_print_reports_invalid_encoding() {
    let mut h: Harness<Vec<u8>, Handler> = Harness::new(Vec::new());
    assert!(h.receive_and_print(0x80).is_ok());
    assert!(h.receive_and_print(b'\n').is_ok());
    assert_eq!(h.writer().as_slice(), b"Error: Command is invalid UTF-8\n> ");
}

#[test]
fn receive_and_print_help_then_prompt() {
    let mut h: Harness<Vec<u8>, Handler> = Harness::new(Vec::new());
    h.add_command("foo", "Does stuff.", works);
    for b in b"help\n" {
        assert!(h.receive_and_print(*b).is_ok());
    }
    assert_eq!(h.writer().as_slice(), b"Command: foo - Does stuff.\n> ");
}

#[test]
fn print_help_writes_listing() {
    let mut h: Harness<Vec<u8>, Handler> = Harness::new(Vec::new());
    h.add_command("a", "x", works);
    h.add_command("b", "y", works);
    assert!(h.print_help().is_ok());
    assert_eq!(h.writer().as_slice(), b"Command: a - x\nCommand: b - y\n");
}

#[test]
fn process_handles_pending_line() {
    let mut h: Harness<Vec<u8>, Handler> = Harness::new(Vec::new());
    h.add_command("foo", "Does stuff.", works);
    assert_eq!(h.receive(b'f'), None);
    assert_eq!(h.receive(b'o'), None);
    assert_eq!(h.receive(b'o'), None);
    assert_eq!(h.process(), Ok(()));
    assert_eq!(h.process(), Err(INVALID_COMMAND));
}

#[test]
fn help_error_message_text() {
    assert_eq!(HELP_IO_ERROR, "I/O error printing help");
    assert_eq!(INVALID_COMMAND, "Invalid command");
}

#[test]
fn registry_lookup_and_listing() {
    let mut r: Registry<Handler> = Registry::new();
    assert_eq!(r.len(), 0);
    r.register("foo", "First.", works);
    r.register("bar", "Second.", fails);
    r.register("foo", "Third.", fails);
    assert_eq!(r.len(), 2);
    assert_eq!(r.entry(0).name, "foo");
    assert_eq!(r.entry(0).help_text, "Third.");
    assert_eq!(r.entry(1).name, "bar");
    let c = r.lookup("foo").unwrap();
    assert_eq!((c.handler)(), Err("boom"));
    assert!(r.lookup("baz").is_none());
    assert!(r.lookup("Foo").is_none());
}

#[test]
fn same_text_compares_characters() {
    assert!(same_text("help", "help"));
    assert!(!same_text("help", "hel"));
    assert!(!same_text("help", "Help"));
    assert!(same_text("", ""));
}

#[test]
fn vec_sink_appends() {
    let mut v: Vec<u8> = vec![1, 2];
    assert!(v.write_bytes(&[3, 4]).is_ok());
    assert!(Sink::flush(&mut v).is_ok());
    assert_eq!(v, vec![1, 2, 3, 4]);
}

#[test]
fn stdout_sink_runs_lines() {
    let mut h: Harness<StdoutSink, Handler> = Harness::new(StdoutSink::new());
    h.add_command("foo", "Does stuff.", works);
    assert!(h.prompt().is_ok());
    for b in b"help\nfoo\nnope\n" {
        assert!(h.receive_and_print(*b).is_ok());
    }
    assert_eq!(feed(&mut h, b"foo\n"), Some(Ok(())));
    assert_eq!(feed(&mut h, b"help\n"), Some(Ok(())));
}

#[test]
fn vec_sink_reports_no_failures_and_stays_usable() {
    let mut h: Harness<Vec<u8>, Handler> = Harness::new(Vec::new());
    h.add_command("bar", "Breaks.", fails);
    assert!(h.prompt().is_ok());
    for b in b"bar\n" {
        assert!(h.receive_and_print(*b).is_ok());
    }
    assert_eq!(h.writer().as_slice(), b"> Error: boom\n> ");
}
