use seqgrep::args::GrepArgs;
use seqgrep::processor::GrepProcessor;
use seqgrep::record::{Record, RecordFormatError};

fn strings(items: &[&str]) -> Vec<String> {
    items.iter().map(|s| s.to_string()).collect()
}

fn options() -> GrepArgs {
    GrepArgs {
        pat1: Vec::new(),
        pat2: Vec::new(),
        pat: Vec::new(),
        reg1: Vec::new(),
        reg2: Vec::new(),
        reg: Vec::new(),
        invert: false,
    }
}

fn worker_for_primary(pattern: &str) -> GrepProcessor {
    let mut args = options();
    args.pat1 = strings(&[pattern]);
    args.build_processor().expect("the patterns compile")
}

fn fastq<'a>(id: &'a [u8], seq: &'a [u8], qual: &'a [u8]) -> Record<'a> {
    Record { id, seq, qual: Some(qual) }
}

fn fasta<'a>(id: &'a [u8], seq: &'a [u8]) -> Record<'a> {
    Record { id, seq, qual: None }
}

#[test]
fn record_is_written_as_four_lines() {
    let mut w = worker_for_primary("A");
    assert_eq!(w.write_record(&fastq(b"read1 extra", b"ACGT", b"IIII")), Ok(()));
    let out = w.on_batch_complete();
    assert_eq!(out.bytes, b"@read1 extra\nACGT\n+\nIIII\n".to_vec());
    assert_eq!(out.matches, 0);
}

#[test]
fn record_is_written_without_any_change() {
    let mut w = worker_for_primary("A");
    assert_eq!(w.write_record(&fastq(b"r", b"acgtNNacgt", b"!!!!!!!!!~")), Ok(()));
    assert_eq!(w.write_record(&fastq(b"", b"", b"")), Ok(()));
    let out = w.on_batch_complete();
    assert_eq!(out.bytes, b"@r\nacgtNNacgt\n+\n!!!!!!!!!~\n@\n\n+\n\n".to_vec());
}

#[test]
fn record_without_quality_is_refused() {
    let mut w = worker_for_primary("A");
    assert_eq!(w.write_record(&fastq(b"r1", b"AC", b"II")), Ok(()));
    assert_eq!(w.write_record(&fasta(b"r2", b"ACGT")), Err(RecordFormatError::MissingQuality));
    let out = w.on_batch_complete();
    assert_eq!(out.bytes, b"@r1\nAC\n+\nII\n".to_vec());
}

#[test]
fn selected_single_reads_are_buffered_and_counted() {
    let mut w = worker_for_primary("AC");
    assert_eq!(w.process_record(&fastq(b"r1", b"TACT", b"IIII")), Ok(()));
    assert_eq!(w.process_record(&fastq(b"r2", b"TTTT", b"JJJJ")), Ok(()));
    assert_eq!(w.process_record(&fastq(b"r3", b"ACAC", b"KKKK")), Ok(()));
    let out = w.on_batch_complete();
    assert_eq!(out.bytes, b"@r1\nTACT\n+\nIIII\n@r3\nACAC\n+\nKKKK\n".to_vec());
    assert_eq!(out.matches, 2);
}

#[test]
fn selected_pairs_are_buffered_primary_first_and_counted_once() {
    let mut args = options();
    args.pat = strings(&["TTT"]);
    let mut w = args.build_processor().unwrap();
    assert_eq!(
        w.process_record_pair(&fastq(b"a/1", b"ACGACG", b"IIIIII"), &fastq(b"a/2", b"GTTTG", b"JJJJJ")),
        Ok(())
    );
    assert_eq!(
        w.process_record_pair(&fastq(b"b/1", b"ACGACG", b"IIIIII"), &fastq(b"b/2", b"GTTG", b"JJJJ")),
        Ok(())
    );
    let out = w.on_batch_complete();
    assert_eq!(out.bytes, b"@a/1\nACGACG\n+\nIIIIII\n@a/2\nGTTTG\n+\nJJJJJ\n".to_vec());
    assert_eq!(out.matches, 1);
}

#[test]
fn single_read_is_decided_with_an_empty_secondary() {
    let mut args = options();
    args.pat2 = strings(&["GGG"]);
    let mut w = args.build_processor().unwrap();
    assert_eq!(w.process_record(&fastq(b"r1", b"ACGT", b"IIII")), Ok(()));
    assert_eq!(w.on_batch_complete().matches, 1);
    assert_eq!(
        w.process_record_pair(&fastq(b"r1", b"ACGT", b"IIII"), &fastq(b"r2", b"ACGT", b"IIII")),
        Ok(())
    );
    assert_eq!(w.on_batch_complete().matches, 0);
}

#[test]
fn single_read_with_a_secondary_regex_is_searched_as_empty() {
    let mut args = options();
    args.reg2 = strings(&["GGG"]);
    let mut w = args.build_processor().unwrap();
    assert_eq!(w.process_record(&fastq(b"r1", b"AGGGT", b"IIIII")), Ok(()));
    let out = w.on_batch_complete();
    assert!(out.bytes.is_empty());
    assert_eq!(out.matches, 0);
    assert_eq!(
        w.process_record_pair(&fastq(b"r1", b"ACGT", b"IIII"), &fastq(b"r2", b"AGGGT", b"IIIII")),
        Ok(())
    );
    assert_eq!(w.on_batch_complete().matches, 1);
    let mut args = options();
    args.reg2 = strings(&["^G*$"]);
    let mut w = args.build_processor().unwrap();
    assert_eq!(w.process_record(&fastq(b"r1", b"ACGT", b"IIII")), Ok(()));
    assert_eq!(w.on_batch_complete().matches, 1);
}

#[test]
fn selected_read_without_quality_stops_the_worker_unchanged() {
    let mut w = worker_for_primary("AC");
    assert_eq!(w.process_record(&fastq(b"r1", b"TACT", b"IIII")), Ok(()));
    assert_eq!(w.process_record(&fasta(b"r2", b"ACGT")), Err(RecordFormatError::MissingQuality));
    let out = w.on_batch_complete();
    assert_eq!(out.bytes, b"@r1\nTACT\n+\nIIII\n".to_vec());
    assert_eq!(out.matches, 1);
}

#[test]
fn read_without_quality_that_is_not_selected_is_passed_over() {
    let mut w = worker_for_primary("AC");
    assert_eq!(w.process_record(&fasta(b"r2", b"TTTT")), Ok(()));
    assert_eq!(
        w.process_record_pair(&fasta(b"r2", b"TTTT"), &fasta(b"r3", b"ACAC")),
        Ok(())
    );
    let out = w.on_batch_complete();
    assert!(out.bytes.is_empty());
    assert_eq!(out.matches, 0);
}

#[test]
fn selected_pair_with_a_read_without_quality_leaves_nothing_behind() {
    let mut w = worker_for_primary("AC");
    assert_eq!(
        w.process_record_pair(&fastq(b"a/1", b"ACAC", b"IIII"), &fasta(b"a/2", b"GGGG")),
        Err(RecordFormatError::MissingQuality)
    );
    assert_eq!(
        w.process_record_pair(&fasta(b"a/1", b"ACAC"), &fastq(b"a/2", b"GGGG", b"IIII")),
        Err(RecordFormatError::MissingQuality)
    );
    let out = w.on_batch_complete();
    assert!(out.bytes.is_empty());
    assert_eq!(out.matches, 0);
}

#[test]
fn hand_over_empties_the_worker() {
    let mut w = worker_for_primary("AC");
    assert_eq!(w.process_record(&fastq(b"r1", b"TACT", b"IIII")), Ok(()));
    let first = w.on_batch_complete();
    assert_eq!(first.matches, 1);
    assert_eq!(first.bytes.len(), 16);
    let second = w.on_batch_complete();
    assert_eq!(second.matches, 0);
    assert!(second.bytes.is_empty());
    assert_eq!(w.process_record(&fastq(b"r2", b"ACAC", b"JJJJ")), Ok(()));
    let third = w.on_batch_complete();
    assert_eq!(third.bytes, b"@r2\nACAC\n+\nJJJJ\n".to_vec());
    assert_eq!(third.matches, 1);
}

#[test]
fn inverted_worker_keeps_what_the_criteria_reject() {
    let mut args = options();
    args.pat1 = strings(&["AC"]);
    args.invert = true;
    let mut w = args.build_processor().unwrap();
    assert_eq!(w.process_record(&fastq(b"r1", b"TACT", b"IIII")), Ok(()));
    assert_eq!(w.process_record(&fastq(b"r2", b"TTTT", b"JJJJ")), Ok(()));
    let out = w.on_batch_complete();
    assert_eq!(out.bytes, b"@r2\nTTTT\n+\nJJJJ\n".to_vec());
    assert_eq!(out.matches, 1);
}

#[test]
fn copy_of_a_worker_has_its_criteria_and_its_state() {
    let mut args = options();
    args.pat1 = strings(&["AC"]);
    args.reg = strings(&["^T"]);
    let mut w = args.build_processor().unwrap();
    assert_eq!(w.process_record(&fastq(b"r1", b"TACT", b"IIII")), Ok(()));
    let mut copy = w.clone();
    assert!(copy.pattern_match(b"TACT", b""));
    assert!(!copy.pattern_match(b"AACT", b""));
    assert!(!copy.pattern_match(b"TTTT", b""));
    assert!(copy.pattern_match(b"AACT", b"TG"));
    assert_eq!(copy.process_record(&fastq(b"r2", b"TTAC", b"JJJJ")), Ok(()));
    let from_copy = copy.on_batch_complete();
    assert_eq!(from_copy.bytes, b"@r1\nTACT\n+\nIIII\n@r2\nTTAC\n+\nJJJJ\n".to_vec());
    assert_eq!(from_copy.matches, 2);
    let from_first = w.on_batch_complete();
    assert_eq!(from_first.bytes, b"@r1\nTACT\n+\nIIII\n".to_vec());
    assert_eq!(from_first.matches, 1);
}

fn reads() -> Vec<(Vec<u8>, Vec<u8>, Vec<u8>)> {
    let seqs: [&[u8]; 10] = [
        b"ACGTACGT", b"TTTTTTTT", b"GGACGG", b"CCCC", b"AC", b"CA", b"", b"TTAC", b"GATTACA",
        b"NNNN",
    ];
    seqs.iter()
        .enumerate()
        .map(|(i, s)| (format!("read{i}").into_bytes(), s.to_vec(), vec![b'I'; s.len()]))
        .collect()
}

fn total_with_workers(workers: usize, batch: usize) -> (usize, Vec<Vec<u8>>) {
    let input = reads();
    let first = worker_for_primary("AC");
    let mut pool: Vec<GrepProcessor> = (0..workers).map(|_| first.clone()).collect();
    let mut total = 0;
    let mut flushed = Vec::new();
    for (n, chunk) in input.chunks(batch).enumerate() {
        let w = &mut pool[n % workers];
        for (id, seq, qual) in chunk {
            w.process_record(&fastq(id, seq, qual)).unwrap();
        }
        let out = w.on_batch_complete();
        total += out.matches;
        flushed.push(out.bytes);
    }
    (total, flushed)
}

#[test]
fn total_is_the_same_with_one_worker_and_with_four() {
    let (one, _) = total_with_workers(1, 10);
    let (four, _) = total_with_workers(4, 2);
    let (four_uneven, _) = total_with_workers(4, 3);
    assert_eq!(one, 6);
    assert_eq!(four, 6);
    assert_eq!(four_uneven, 6);
}

#[test]
fn batches_hold_together_what_one_batch_holds() {
    let (_, whole) = total_with_workers(1, 10);
    let (_, parts) = total_with_workers(4, 3);
    assert_eq!(whole.len(), 1);
    assert_eq!(parts.len(), 4);
    assert_eq!(parts.concat(), whole[0]);
    let mut backwards = parts.clone();
    backwards.reverse();
    assert_eq!(backwards.concat().len(), whole[0].len());
}

#[test]
fn missing_quality_has_a_sentence() {
    assert_eq!(
        RecordFormatError::MissingQuality.message(),
        "record has no quality string, which the output format requires"
    );
}
