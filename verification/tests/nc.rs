use rustbox::error::IoError;
use rustbox::nc::{
    _pipe_stream, after_partial_write, after_read, after_write, parse_args, Endpoint, Step,
    WriteStep, BUFFER_SIZE,
};
use rustbox::port::{parse_port, push_port};
use rustbox::relay::RelayError;
use rustbox::stream::{BoundedSink, MemorySource, Sink, Source};

#[test]
fn nc__test_write() {
    // Simple test checking if stdin is being copied to stdout
    let mut stdin = MemorySource::new("Hello!".as_bytes().to_vec());
    let mut stdout = Vec::new();

    let ret = _pipe_stream(&mut stdin, &mut stdout);

    assert!(ret.is_ok());
    assert_eq!(stdout, b"Hello!");
}

#[test]
fn _test_pipe_stream_large() {
    // Simple test checking if f_in is being copied to f_out
    // for stdin sizes greater than BUFFER_SIZE
    let stdin_contents = vec![b'a'; BUFFER_SIZE + 123];

    let mut stdin = MemorySource::new(stdin_contents.clone());
    let mut stdout = Vec::new();

    let ret = _pipe_stream(&mut stdin, &mut stdout);

    assert!(ret.is_ok());
    assert_eq!(stdout[0..3], *b"aaa");
    assert_eq!(stdout[BUFFER_SIZE + 122], b'a');
    assert_eq!(stdout, stdin_contents);
}

#[test]
fn _test_pipe_stream_empty() {
    // Ensure it behaves correctly if input is empty
    let mut stdin = MemorySource::new("".as_bytes().to_vec());
    let mut stdout = Vec::new();

    let ret = _pipe_stream(&mut stdin, &mut stdout);

    assert!(ret.is_ok());
    assert_eq!(stdout, b"");
}

#[test]
fn pipe_stream_copies_one_byte() {
    let mut source = MemorySource::new(vec![0x41]);
    let mut out = Vec::new();
    assert_eq!(_pipe_stream(&mut source, &mut out), Ok(()));
    assert_eq!(out, vec![0x41]);
}

#[test]
fn pipe_stream_copies_whatever_the_chunks() {
    for chunk in 0..7 {
        let mut source = MemorySource::chunked(b"ping".to_vec(), chunk);
        let mut out = Vec::new();
        assert_eq!(_pipe_stream(&mut source, &mut out), Ok(()));
        assert_eq!(out, b"ping");
    }
}

#[test]
fn pipe_stream_appends_to_what_the_sink_holds() {
    let mut source = MemorySource::chunked(b"world".to_vec(), 2);
    let mut out = b"hello ".to_vec();
    assert_eq!(_pipe_stream(&mut source, &mut out), Ok(()));
    assert_eq!(out, b"hello world");
}

#[test]
fn pipe_stream_echoes_through_two_copies() {
    for there in 0..6 {
        for back in 0..6 {
            let mut local_input = MemorySource::chunked(b"ping".to_vec(), there);
            let mut remote = Vec::new();
            assert_eq!(_pipe_stream(&mut local_input, &mut remote), Ok(()));
            let mut echoed = MemorySource::chunked(remote, back);
            let mut local_output = Vec::new();
            assert_eq!(_pipe_stream(&mut echoed, &mut local_output), Ok(()));
            assert_eq!(local_output, b"ping");
        }
    }
}

#[test]
fn pipe_stream_hands_on_a_read_failure() {
    let mut source = MemorySource::failing(b"abc".to_vec(), IoError::new("source broke"));
    let mut out = Vec::new();
    let ret = _pipe_stream(&mut source, &mut out);
    assert_eq!(ret, Err(IoError::new("source broke")));
    assert_eq!(out, b"abc");
}

#[test]
fn pipe_stream_hands_on_a_write_failure() {
    let mut source = MemorySource::new(vec![7u8; BUFFER_SIZE + 10]);
    let mut sink = BoundedSink::new(BUFFER_SIZE + 4, IoError::new("sink is full"));
    let ret = _pipe_stream(&mut source, &mut sink);
    assert_eq!(ret, Err(IoError::new("sink is full")));
    assert_eq!(sink.into_bytes(), vec![7u8; BUFFER_SIZE + 4]);
}

#[test]
fn pipe_stream_fills_a_sink_exactly() {
    let mut source = MemorySource::new(b"12345".to_vec());
    let mut sink = BoundedSink::new(5, IoError::new("sink is full"));
    assert_eq!(_pipe_stream(&mut source, &mut sink), Ok(()));
    assert_eq!(sink.into_bytes(), b"12345");
}

#[test]
fn pipe_stream_prefers_the_failure_that_comes_first() {
    let mut source = MemorySource::failing(b"12345".to_vec(), IoError::new("source broke"));
    let mut sink = BoundedSink::new(3, IoError::new("sink is full"));
    assert_eq!(_pipe_stream(&mut source, &mut sink), Err(IoError::new("sink is full")));
    assert_eq!(sink.into_bytes(), b"123");

    let mut source = MemorySource::failing(b"12345".to_vec(), IoError::new("source broke"));
    let mut sink = BoundedSink::new(5, IoError::new("sink is full"));
    assert_eq!(_pipe_stream(&mut source, &mut sink), Err(IoError::new("source broke")));
    assert_eq!(sink.into_bytes(), b"12345");
}

#[test]
fn memory_source_reads_by_its_chunk() {
    let mut source = MemorySource::chunked(b"abcdefg".to_vec(), 3);
    let mut buf = [0u8; 5];
    assert_eq!(source.read(&mut buf), Ok(3));
    assert_eq!(&buf[..3], b"abc");
    assert_eq!(source.read(&mut buf[..2]), Ok(2));
    assert_eq!(&buf[..2], b"de");
    assert_eq!(source.read(&mut buf[..0]), Ok(0));
    assert_eq!(source.read(&mut buf), Ok(2));
    assert_eq!(&buf[..2], b"fg");
    assert_eq!(source.read(&mut buf), Ok(0));
    assert_eq!(source.read(&mut buf), Ok(0));
}

#[test]
fn memory_source_fails_at_its_end() {
    let mut source = MemorySource::failing(b"ab".to_vec(), IoError::new("reset"));
    let mut buf = [0u8; 8];
    assert_eq!(source.read(&mut buf), Ok(2));
    assert_eq!(source.read(&mut buf), Err(IoError::new("reset")));
    assert_eq!(source.read(&mut buf), Err(IoError::new("reset")));
}

#[test]
fn bounded_sink_takes_what_fits() {
    let mut sink = BoundedSink::new(4, IoError::new("full"));
    assert_eq!(sink.write_all(b"abc"), Ok(()));
    assert_eq!(sink.write_all(b"def"), Err(IoError::new("full")));
    assert_eq!(sink.write_all(b""), Ok(()));
    assert_eq!(sink.write_all(b"g"), Err(IoError::new("full")));
    assert_eq!(sink.into_bytes(), b"abcd");
}

#[test]
fn vector_sink_takes_everything() {
    let mut sink = b"ab".to_vec();
    assert_eq!(sink.write_all(b"cd"), Ok(()));
    assert_eq!(sink, b"abcd");
}

#[test]
fn after_read_decides() {
    assert_eq!(after_read(Ok(0)), Step::Finish(Ok(())));
    assert_eq!(after_read(Ok(1)), Step::Forward(1));
    assert_eq!(after_read(Ok(4096)), Step::Forward(4096));
    assert_eq!(after_read(Err(IoError::new("boom"))), Step::Finish(Err(IoError::new("boom"))));
}

#[test]
fn after_write_decides() {
    assert_eq!(after_write(Ok(())), None);
    assert_eq!(after_write(Err(IoError::new("boom"))), Some(Err(IoError::new("boom"))));
}

#[test]
fn buffer_is_one_chunk() {
    assert_eq!(BUFFER_SIZE, 4096);
}

#[test]
fn parse_port_reads_numbers() {
    assert_eq!(parse_port("0"), Some(0));
    assert_eq!(parse_port("1"), Some(1));
    assert_eq!(parse_port("80"), Some(80));
    assert_eq!(parse_port("0080"), Some(80));
    assert_eq!(parse_port("+443"), Some(443));
    assert_eq!(parse_port("65535"), Some(65535));
}

#[test]
fn parse_port_refuses_the_rest() {
    assert_eq!(parse_port(""), None);
    assert_eq!(parse_port("+"), None);
    assert_eq!(parse_port("65536"), None);
    assert_eq!(parse_port("99999999999999999999"), None);
    assert_eq!(parse_port("-1"), None);
    assert_eq!(parse_port("8o"), None);
    assert_eq!(parse_port(" 80"), None);
    assert_eq!(parse_port("80 "), None);
    assert_eq!(parse_port("++80"), None);
    assert_eq!(parse_port("٨٠"), None);
}

#[test]
fn push_port_writes_decimal() {
    for (port, expected) in [(0u16, "0"), (7, "7"), (10, "10"), (8080, "8080"), (65535, "65535")] {
        let mut text = String::from("p=");
        push_port(&mut text, port);
        assert_eq!(text, format!("p={}", expected));
        assert_eq!(parse_port(&text[2..]), Some(port));
    }
}

#[test]
fn parse_args_takes_host_and_port() {
    let args = vec!["127.0.0.1".to_string(), "1".to_string()];
    assert_eq!(parse_args(args), Ok(Endpoint { host: "127.0.0.1".to_string(), port: 1 }));
    let args = vec!["/invalid-host".to_string(), "80".to_string()];
    assert_eq!(parse_args(args), Ok(Endpoint { host: "/invalid-host".to_string(), port: 80 }));
}

#[test]
fn parse_args_refuses_other_shapes() {
    assert_eq!(parse_args(vec![]), Err(RelayError::Usage));
    assert_eq!(parse_args(vec!["host".to_string()]), Err(RelayError::Usage));
    assert_eq!(
        parse_args(vec!["host".to_string(), "1".to_string(), "2".to_string()]),
        Err(RelayError::Usage)
    );
    assert_eq!(parse_args(vec!["host".to_string(), "http".to_string()]), Err(RelayError::Usage));
    assert_eq!(parse_args(vec!["".to_string(), "80".to_string()]), Err(RelayError::Usage));
    assert_eq!(
        RelayError::Usage.describe().to_string(),
        "Usage: nc <destination> <port>"
    );
}

#[test]
fn after_partial_write_decides() {
    assert_eq!(after_partial_write(10, 0, Ok(10)), WriteStep::Finish(Ok(())));
    assert_eq!(after_partial_write(10, 0, Ok(4)), WriteStep::Again(4));
    assert_eq!(after_partial_write(10, 4, Ok(5)), WriteStep::Again(9));
    assert_eq!(after_partial_write(10, 9, Ok(1)), WriteStep::Finish(Ok(())));
    assert_eq!(after_partial_write(10, 9, Ok(usize::MAX)), WriteStep::Finish(Ok(())));
    assert_eq!(after_partial_write(0, 0, Ok(0)), WriteStep::Finish(Ok(())));
    assert_eq!(after_partial_write(10, 10, Ok(0)), WriteStep::Finish(Ok(())));
    assert_eq!(
        after_partial_write(10, 4, Ok(0)),
        WriteStep::Finish(Err(IoError::new("failed to write whole buffer")))
    );
    assert_eq!(
        after_partial_write(10, 4, Err(IoError::new("Interrupted system call"))),
        WriteStep::Finish(Err(IoError::new("Interrupted system call")))
    );
}
