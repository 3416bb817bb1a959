use codex_longwatch::json::{parse, Json};
use codex_longwatch::jsonl::{
    all_lines, record_key, FileFingerprint, JsonlError, JsonlLineParser, JsonlRecord, JsonlTailer,
    SuffixReader,
};

fn fingerprint(file: &[u8], modified: i128) -> FileFingerprint {
    FileFingerprint {
        len: file.len() as u64,
        modified: Some(modified),
        prefix: file[..file.len().min(256)].to_vec(),
    }
}

fn poll(tailer: &mut JsonlTailer, file: &[u8], modified: i128) -> Vec<JsonlRecord> {
    let start = tailer.look_at(fingerprint(file, modified)) as usize;
    tailer.poll(&file[start..])
}

fn unfinished(file: &[u8]) -> Vec<u8> {
    let mut reader = SuffixReader::new(file.len() as u64);
    while let Some(start) = reader.next_start() {
        let piece = file[start as usize..reader.position as usize].to_vec();
        if reader.take_piece(piece) {
            break;
        }
    }
    reader.suffix
}

fn id(value: &Json) -> Option<String> {
    value.get_text("id")
}

#[test]
fn parser_handles_half_lines() {
    let mut parser = JsonlLineParser::new();
    assert!(parser.push(br#"{"id":"a"}"#).unwrap().is_empty());
    assert_eq!(parser.partial_len(), 10);
    let values = parser.push(b"\n{\"id\":\"b\"}\n").unwrap();
    assert_eq!(values.len(), 2);
    assert_eq!(id(&values[0]).as_deref(), Some("a"));
}

#[test]
fn tailer_deduplicates_and_handles_rotation() {
    let mut file = b"{\"id\":\"one\",\"value\":1}\n".to_vec();
    let mut tailer = JsonlTailer::new("session.jsonl".into());
    assert_eq!(poll(&mut tailer, &file, 1).len(), 1);
    file.extend_from_slice(b"{\"id\":\"one\",\"value\":1}\n");
    assert!(poll(&mut tailer, &file, 2).is_empty());
    let file = b"{\"id\":\"two\",\"value\":2}\n".to_vec();
    let records = poll(&mut tailer, &file, 3);
    assert_eq!(id(&records[0].value).as_deref(), Some("two"));
}

#[test]
fn seek_to_end_retains_only_an_existing_partial_line() {
    let mut file = b"{\"id\":\"old\"}\n{\"id\":\"partial\"".to_vec();
    let mut tailer = JsonlTailer::new("session.jsonl".into());
    tailer.seek_to_end(fingerprint(&file, 1), unfinished(&file));

    file.extend_from_slice(b"}\n");
    let records = poll(&mut tailer, &file, 2);
    assert_eq!(records.len(), 1);
    assert_eq!(id(&records[0].value).as_deref(), Some("partial"));
}

#[test]
fn malformed_complete_line_is_skipped_without_poisoning_future_polls() {
    let file = b"{\"id\":\"first\"}\nnot-json\n{\"id\":\"second\"}\n".to_vec();
    let mut tailer = JsonlTailer::new("session.jsonl".into());

    let records = poll(&mut tailer, &file, 1);
    assert_eq!(records.len(), 2);
    assert_eq!(id(&records[0].value).as_deref(), Some("first"));
    assert_eq!(id(&records[1].value).as_deref(), Some("second"));
    assert!(poll(&mut tailer, &file, 1).is_empty());
    assert_eq!(tailer.offset(), file.len() as u64);
}

#[test]
fn the_unfinished_line_is_found_backwards() {
    let mut file = vec![b'a'; 20_000];
    assert_eq!(unfinished(&file), file);
    file[3] = b'\n';
    assert_eq!(unfinished(&file), &file[4..]);
    file.push(b'\n');
    assert!(unfinished(&file).is_empty());
    assert!(unfinished(b"").is_empty());
}

#[test]
fn pieces_give_the_documents_of_the_whole() {
    let text = b"{\"id\":\"a\"}\n\r\n \n[1,2]\r\n{\"id\"".to_vec();
    let mut whole = JsonlLineParser::new();
    let expected: Vec<String> =
        whole.push(&text).unwrap().iter().map(|value| value.to_text()).collect();
    assert_eq!(expected, ["{\"id\":\"a\"}", "[1,2]"]);
    for cut in 0..text.len() {
        let mut parser = JsonlLineParser::new();
        let mut values = parser.push(&text[..cut]).unwrap();
        values.extend(parser.push(&text[cut..]).unwrap());
        let found: Vec<String> = values.iter().map(|value| value.to_text()).collect();
        assert_eq!(found, expected);
        assert_eq!(parser.partial_len(), whole.partial_len());
    }
}

#[test]
fn a_bad_line_reports_where_it_ends() {
    let mut parser = JsonlLineParser::new();
    let error = parser.push(b"{}\nnope\n").unwrap_err();
    assert!(matches!(&error, JsonlError::Json { offset: 7, .. }));
    assert!(error.message().starts_with("invalid JSONL record at byte 7"));
}

#[test]
fn keys_come_from_the_first_identifier() {
    let key = |text: &str| record_key(&parse(text.as_bytes()).unwrap());
    assert_eq!(key(r#"{"id":"x","event_id":"y"}"#), "event_id:y");
    assert_eq!(key(r#"{"turnId":"u"}"#), "turnId:u");
    let first = key(r#"{"a":1}"#);
    assert_eq!(first, key(r#"{ "a" : 1 }"#));
    assert_ne!(first, key(r#"{"a":2}"#));
    assert!(first.ends_with("015abd7f5cc57a2dd94b7590f04ad8084273905ee33ec5cebeae62276a97f862"));
}

#[test]
fn replaced_files_are_noticed() {
    let before = fingerprint(b"abcdef", 1);
    assert!(!before.looks_replaced(&fingerprint(b"abcdefgh", 2)));
    assert!(before.looks_replaced(&fingerprint(b"abc", 2)));
    assert!(before.looks_replaced(&fingerprint(b"abXdefgh", 2)));
    assert!(before.looks_replaced(&fingerprint(b"abcdef", 0)));
    assert!(!before.looks_replaced(&fingerprint(b"abcdef", 1)));
}

#[test]
fn the_offset_is_the_length_of_the_file() {
    let mut tailer = JsonlTailer::new("s".into());
    assert_eq!(tailer.offset(), 0);
    for (time, file) in ["{\"id\":\"a\"}\n{\"id", "{\"id\":\"a\"}\n{\"id\":\"b\"}\n", "{}", "", "[1]\nxx"]
        .iter()
        .enumerate()
    {
        poll(&mut tailer, file.as_bytes(), time as i128);
        assert_eq!(tailer.offset(), file.len() as u64);
        poll(&mut tailer, file.as_bytes(), time as i128);
        assert_eq!(tailer.offset(), file.len() as u64);
    }
}

#[test]
fn pieces_give_the_records_of_the_whole() {
    let text = b"{\"id\":\"a\"}\nbad\n{\"id\":\"b\"}\r\n{\"id\":\"a\"}\n{\"id";
    let mut whole = JsonlTailer::new("s".into());
    let expected: Vec<String> = whole.poll(text).into_iter().map(|record| record.key).collect();
    assert_eq!(expected, ["id:a", "id:b"]);
    for cut in 0..text.len() {
        let mut tailer = JsonlTailer::new("s".into());
        let mut records = tailer.poll(&text[..cut]);
        records.extend(tailer.poll(&text[cut..]));
        let keys: Vec<String> = records.into_iter().map(|record| record.key).collect();
        assert_eq!(keys, expected);
        assert_eq!(tailer.partial, whole.partial);
        assert_eq!(tailer.seen, whole.seen);
    }
}

#[test]
fn resetting_reads_the_file_again() {
    let file = b"{\"id\":\"one\"}\n".to_vec();
    let mut tailer = JsonlTailer::new("s".into());
    assert_eq!(tailer.path(), "s");
    assert_eq!(poll(&mut tailer, &file, 1).len(), 1);
    tailer.reset_position();
    assert_eq!(poll(&mut tailer, &file, 1).len(), 0);
    tailer.reset();
    assert_eq!(poll(&mut tailer, &file, 1).len(), 1);
    assert_eq!(all_lines(&b"a\nb".to_vec()), [b"a".to_vec(), b"b".to_vec()]);
}

#[test]
fn jsonl_errors_have_texts() {
    let error = JsonlError::Open { path: "p".into(), source: "s".into() };
    assert_eq!(error.message(), "failed to open JSONL session p: s");
    let error = JsonlError::Metadata { path: "p".into(), source: "s".into() };
    assert_eq!(error.message(), "failed to inspect JSONL session p: s");
}
