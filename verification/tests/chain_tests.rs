use slow_scan_print::chain::{ChainedReader, ErrorVerdict, ReadAction, ReadOutcome, ReadReply};
use slow_scan_print::input::InputSource;

/// A source in memory: its bytes, or `None` where every read from it fails.
type Data = Option<Vec<u8>>;

/// Reads the whole stream as a host does: it asks the reader where to read,
/// reads at most `step` bytes there, reports the outcome and goes on until
/// the reader is finished or hands an error on. Returns the bytes, the index
/// of the source whose error was handed on if there was one, and the number
/// of reads on the stream.
fn read_all(
    reader: &mut ChainedReader,
    data: &[Data],
    step: usize,
    verdict: ErrorVerdict,
) -> (Vec<u8>, Option<usize>, usize) {
    let mut offsets = vec![0usize; data.len()];
    let mut out = Vec::new();
    let mut reads = 0;
    while !reader.is_finished() {
        reads += 1;
        match reader.begin_read() {
            ReadAction::ReturnZero => {}
            ReadAction::ReadFrom(i) => {
                let outcome = match &data[i] {
                    Some(bytes) => {
                        let n = step.min(bytes.len() - offsets[i]);
                        out.extend_from_slice(&bytes[offsets[i]..offsets[i] + n]);
                        offsets[i] += n;
                        ReadOutcome::Read(n)
                    }
                    None => ReadOutcome::Failed(verdict),
                };
                match reader.finish_read(outcome) {
                    ReadReply::Bytes(n) => {
                        if let ReadOutcome::Read(m) = outcome {
                            assert_eq!(n, m);
                        } else {
                            assert_eq!(n, 0);
                        }
                    }
                    ReadReply::Propagate => return (out, Some(i), reads),
                }
            }
        }
    }
    (out, None, reads)
}

#[test]
fn concat_starts_at_the_first_source() {
    let reader = ChainedReader::concat(vec![InputSource::Stdin, InputSource::File]);
    assert_eq!(reader.cursor(), 0);
    assert_eq!(reader.len(), 2);
    assert!(!reader.is_finished());
}

#[test]
fn reader_without_sources_is_finished() {
    let mut reader = ChainedReader::concat(Vec::new());
    assert!(reader.is_finished());
    assert_eq!(reader.begin_read(), ReadAction::ReturnZero);
    assert_eq!(reader.finish_read(ReadOutcome::Read(9)), ReadReply::Bytes(0));
    assert_eq!(reader.cursor(), 0);
}

#[test]
fn bytes_are_handed_on_and_the_cursor_stays() {
    let mut reader = ChainedReader::concat(vec![InputSource::File, InputSource::File]);
    assert_eq!(reader.begin_read(), ReadAction::ReadFrom(0));
    assert_eq!(reader.finish_read(ReadOutcome::Read(17)), ReadReply::Bytes(17));
    assert_eq!(reader.cursor(), 0);
    assert_eq!(reader.begin_read(), ReadAction::ReadFrom(0));
}

#[test]
fn exhausted_source_costs_one_read_of_zero_bytes() {
    let mut reader = ChainedReader::concat(vec![InputSource::File, InputSource::Stdin]);
    assert_eq!(reader.begin_read(), ReadAction::ReadFrom(0));
    assert_eq!(reader.finish_read(ReadOutcome::Read(0)), ReadReply::Bytes(0));
    assert_eq!(reader.cursor(), 1);
    assert!(!reader.is_finished());
    assert_eq!(reader.begin_read(), ReadAction::ReadFrom(1));
}

#[test]
fn empty_source_is_passed_without_a_read() {
    let mut reader = ChainedReader::concat(vec![InputSource::Empty, InputSource::File]);
    assert_eq!(reader.begin_read(), ReadAction::ReturnZero);
    assert_eq!(reader.cursor(), 1);
    assert_eq!(reader.begin_read(), ReadAction::ReadFrom(1));
}

#[test]
fn continue_skips_the_failing_source() {
    let mut reader = ChainedReader::concat(vec![InputSource::File, InputSource::File]);
    assert_eq!(reader.begin_read(), ReadAction::ReadFrom(0));
    assert_eq!(
        reader.finish_read(ReadOutcome::Failed(ErrorVerdict::Continue)),
        ReadReply::Bytes(0)
    );
    assert_eq!(reader.cursor(), 1);
}

#[test]
fn abort_hands_the_error_on_and_stays() {
    let mut reader = ChainedReader::concat(vec![InputSource::File, InputSource::File]);
    assert_eq!(reader.begin_read(), ReadAction::ReadFrom(0));
    assert_eq!(
        reader.finish_read(ReadOutcome::Failed(ErrorVerdict::Abort)),
        ReadReply::Propagate
    );
    assert_eq!(reader.cursor(), 0);
    assert_eq!(reader.begin_read(), ReadAction::ReadFrom(0));
}

#[test]
fn finished_reader_reports_the_end_of_the_data() {
    let mut reader = ChainedReader::concat(vec![InputSource::File]);
    assert_eq!(reader.begin_read(), ReadAction::ReadFrom(0));
    assert_eq!(reader.finish_read(ReadOutcome::Read(0)), ReadReply::Bytes(0));
    assert!(reader.is_finished());
    for _ in 0..3 {
        assert_eq!(reader.begin_read(), ReadAction::ReturnZero);
        assert_eq!(reader.finish_read(ReadOutcome::Read(5)), ReadReply::Bytes(0));
        assert_eq!(
            reader.finish_read(ReadOutcome::Failed(ErrorVerdict::Abort)),
            ReadReply::Bytes(0)
        );
        assert_eq!(reader.cursor(), 1);
    }
}

#[test]
fn cursor_never_moves_back() {
    let mut reader = ChainedReader::concat(vec![
        InputSource::File,
        InputSource::Empty,
        InputSource::Stdin,
        InputSource::File,
    ]);
    let outcomes = [
        ReadOutcome::Read(3),
        ReadOutcome::Failed(ErrorVerdict::Abort),
        ReadOutcome::Read(0),
        ReadOutcome::Read(1),
        ReadOutcome::Failed(ErrorVerdict::Continue),
        ReadOutcome::Failed(ErrorVerdict::Abort),
        ReadOutcome::Read(0),
        ReadOutcome::Read(8),
    ];
    let mut last = reader.cursor();
    for outcome in outcomes {
        if let ReadAction::ReadFrom(i) = reader.begin_read() {
            assert_eq!(i, reader.cursor());
            reader.finish_read(outcome);
        }
        assert!(reader.cursor() >= last);
        assert!(reader.cursor() <= last + 1);
        last = reader.cursor();
    }
    assert!(reader.is_finished());
}

#[test]
fn sources_are_read_one_after_the_other() {
    let a = b"first file\n".to_vec();
    let b = b"second file, somewhat longer\n".to_vec();
    let data = [Some(a.clone()), Some(b.clone())];
    for step in [1, 4, 1024] {
        let mut reader = ChainedReader::concat(vec![InputSource::File, InputSource::File]);
        let (out, failed, _) = read_all(&mut reader, &data, step, ErrorVerdict::Continue);
        assert_eq!(out, [a.clone(), b.clone()].concat());
        assert_eq!(failed, None);
        assert!(reader.is_finished());
    }
}

#[test]
fn source_that_could_not_be_opened_contributes_nothing() {
    let a = b"contents of a".to_vec();
    let b = b"contents of b".to_vec();
    let data = [Some(a.clone()), Some(Vec::new()), Some(b.clone())];
    let mut reader = ChainedReader::concat(vec![
        InputSource::File,
        InputSource::Empty,
        InputSource::File,
    ]);
    let (out, failed, _) = read_all(&mut reader, &data, 5, ErrorVerdict::Continue);
    assert_eq!(out, [a.clone(), b.clone()].concat());
    assert_eq!(failed, None);

    let data = [Some(a.clone()), Some(b.clone())];
    let mut reader = ChainedReader::concat(vec![InputSource::File, InputSource::File]);
    let (out, failed, _) = read_all(&mut reader, &data, 5, ErrorVerdict::Continue);
    assert_eq!(out, [a, b].concat());
    assert_eq!(failed, None);
}

#[test]
fn failing_source_is_skipped_under_continue() {
    let a = b"contents of a".to_vec();
    let b = b"contents of b".to_vec();
    let data = [Some(a.clone()), None, Some(b.clone())];
    let mut reader = ChainedReader::concat(vec![
        InputSource::File,
        InputSource::File,
        InputSource::File,
    ]);
    let (out, failed, _) = read_all(&mut reader, &data, 4, ErrorVerdict::Continue);
    assert_eq!(out, [a, b].concat());
    assert_eq!(failed, None);
    assert!(reader.is_finished());
}

#[test]
fn abort_returns_the_error_and_reads_nothing_after_it() {
    let a = b"contents of a".to_vec();
    let b = b"contents of b".to_vec();
    let data = [Some(a.clone()), None, Some(b)];
    let mut reader = ChainedReader::concat(vec![
        InputSource::File,
        InputSource::File,
        InputSource::File,
    ]);
    let (out, failed, _) = read_all(&mut reader, &data, 4, ErrorVerdict::Abort);
    assert_eq!(out, a);
    assert_eq!(failed, Some(1));
    assert_eq!(reader.cursor(), 1);
    assert!(!reader.is_finished());
    let (more, failed_again, _) = read_all(&mut reader, &data, 4, ErrorVerdict::Abort);
    assert_eq!(more, Vec::<u8>::new());
    assert_eq!(failed_again, Some(1));
}

#[test]
fn each_source_costs_one_read_beyond_its_data() {
    let data = [Some(vec![1u8; 10]), Some(Vec::new()), Some(vec![2u8; 3])];
    let mut reader = ChainedReader::concat(vec![
        InputSource::File,
        InputSource::Empty,
        InputSource::File,
    ]);
    let (out, _, reads) = read_all(&mut reader, &data, 5, ErrorVerdict::Continue);
    assert_eq!(out.len(), 13);
    assert_eq!(reads, (2 + 1) + 1 + (1 + 1));
}
