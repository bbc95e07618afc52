use ttv_reader::analyzer::analyze_archive;
use ttv_reader::analyzer::analyze_index;
use ttv_reader::analyzer::total_documents;
use ttv_reader::classify::classify_tag;
use ttv_reader::classify::contains_bytes;
use ttv_reader::classify::BlobClass;
use ttv_reader::directory::read_directory;
use ttv_reader::directory::BlobDescriptor;
use ttv_reader::directory::SegmentEntry;
use ttv_reader::extract::extract_blob;
use ttv_reader::extract::ExtractError;
use ttv_reader::header::check_header;
use ttv_reader::header::HeaderCheck;
use ttv_reader::json::JsonValue;
use ttv_reader::locator::find_json;
use ttv_reader::locator::find_json_end;
use ttv_reader::locator::locate_directory;
use ttv_reader::terms::extract_terms;

fn obj(members: Vec<(&str, JsonValue)>) -> JsonValue {
    JsonValue::Obj(
        members
            .into_iter()
            .map(|(k, v)| (k.as_bytes().to_vec(), v))
            .collect(),
    )
}

fn s(text: &str) -> JsonValue {
    JsonValue::Str(text.as_bytes().to_vec())
}

#[test]
fn header_shorter_than_four_bytes_is_mismatch() {
    match check_header(&[80, 70, 65]) {
        HeaderCheck::Mismatch(observed) => assert_eq!(observed, vec![80, 70, 65]),
        HeaderCheck::Valid => panic!("short buffer must not validate"),
    }
    match check_header(&[]) {
        HeaderCheck::Mismatch(observed) => assert_eq!(observed, Vec::<u8>::new()),
        HeaderCheck::Valid => panic!("empty buffer must not validate"),
    }
}

#[test]
fn header_magic_is_valid() {
    assert!(check_header(b"PFA1").is_valid());
    assert!(check_header(b"PFA1 trailing content").is_valid());
}

#[test]
fn header_mismatch_carries_observed_bytes() {
    match check_header(b"ABCDEFGH") {
        HeaderCheck::Mismatch(observed) => assert_eq!(observed, b"ABCD".to_vec()),
        HeaderCheck::Valid => panic!("wrong magic must not validate"),
    }
}

#[test]
fn locator_absent_marker_returns_none() {
    assert!(find_json(b"no directory in here at all").is_none());
    assert!(locate_directory(b"{\"blob\":1}").is_none());
}

#[test]
fn locator_marker_outside_tail_window_returns_none() {
    let mut data = b"{\"blobs\":{}}".to_vec();
    data.extend(std::iter::repeat(b'x').take(10_001));
    assert!(find_json(&data).is_none());
}

#[test]
fn locator_marker_inside_tail_window_is_found() {
    let mut data = vec![b'y'; 20_000];
    let start = data.len();
    data.extend_from_slice(b"{\"blobs\":{}}");
    assert_eq!(find_json(&data), Some(start));
}

#[test]
fn locator_returns_exact_balanced_range() {
    let data = b"{\"blobs\":{\"x\":1}}trailing bytes that do not matter";
    assert_eq!(find_json(data), Some(0));
    assert_eq!(find_json_end(data, 0), Some(17));
    assert_eq!(locate_directory(data), Some((0, 17)));
}

#[test]
fn locator_unbalanced_braces_have_no_end() {
    let data = b"{\"blobs\":{\"x\":1}";
    assert_eq!(find_json(data), Some(0));
    assert_eq!(find_json_end(data, 0), None);
    assert!(locate_directory(data).is_none());
}

#[test]
fn extractor_out_of_range_is_reported() {
    let blob = BlobDescriptor {
        tag: b"x".to_vec(),
        kind: b"file".to_vec(),
        offset: 0,
        length: 5,
        properties: JsonValue::Null,
    };
    let data: [u8; 3] = [1, 2, 3];
    match extract_blob(&data, &blob) {
        Err(ExtractError::OutOfRange) => (),
        Ok(_) => panic!("range past the buffer must be out of range"),
    }
}

#[test]
fn extractor_overflowing_range_is_reported() {
    let blob = BlobDescriptor {
        tag: b"x".to_vec(),
        kind: b"file".to_vec(),
        offset: u64::MAX,
        length: 2,
        properties: JsonValue::Null,
    };
    let data: [u8; 3] = [1, 2, 3];
    assert_eq!(extract_blob(&data, &blob), Err(ExtractError::OutOfRange));
}

#[test]
fn extractor_returns_exact_slice() {
    let blob = BlobDescriptor {
        tag: b"x".to_vec(),
        kind: b"file".to_vec(),
        offset: 1,
        length: 3,
        properties: JsonValue::Null,
    };
    let data: [u8; 5] = [10, 20, 30, 40, 50];
    assert_eq!(extract_blob(&data, &blob), Ok(&[20u8, 30, 40][..]));
}

#[test]
fn term_heuristic_drops_short_and_trailing_runs() {
    // The run `ab` is too short, `f` too; `ghi` reaches end of input with no
    // boundary byte after it, so it is never emitted.
    let decoded = extract_terms(b"ab\x00cde\x00f\x00ghi");
    assert_eq!(decoded, vec![b"cde".to_vec()]);
}

#[test]
fn term_heuristic_emits_runs_closed_by_a_boundary() {
    let decoded = extract_terms(b"ab\x00cde\x00f\x00ghi\x00");
    assert_eq!(decoded, vec![b"cde".to_vec(), b"ghi".to_vec()]);
}

#[test]
fn term_heuristic_empty_result_is_not_an_error() {
    assert_eq!(extract_terms(&[0, 1, 2, 200]), Vec::<Vec<u8>>::new());
    assert_eq!(extract_terms(&[]), Vec::<Vec<u8>>::new());
}

#[test]
fn classifier_matches_substrings_not_extensions() {
    assert!(matches!(
        classify_tag(b"segment_03.term.gz"),
        BlobClass::TermDictionary
    ));
    assert!(matches!(
        classify_tag(b"idx.meta.json"),
        BlobClass::StructuredMetadata
    ));
    assert!(matches!(classify_tag(b"payload.bin"), BlobClass::OpaqueBinary));
}

#[test]
fn classifier_metadata_marker_takes_priority() {
    assert!(matches!(
        classify_tag(b"segment.term.meta.json"),
        BlobClass::StructuredMetadata
    ));
}

#[test]
fn contains_bytes_finds_substrings() {
    assert!(contains_bytes(b"abcdef", b"cde"));
    assert!(!contains_bytes(b"abcdef", b"cdf"));
    assert!(contains_bytes(b"abc", b""));
    assert!(!contains_bytes(b"ab", b"abc"));
}

#[test]
fn json_get_returns_first_match_in_order() {
    let doc = obj(vec![("k", JsonValue::UInt(1)), ("k", JsonValue::UInt(2))]);
    match doc.get(b"k") {
        Some(JsonValue::UInt(u)) => assert_eq!(*u, 1),
        _ => panic!("first binding of k expected"),
    }
    assert!(doc.get(b"missing").is_none());
}

#[test]
fn analyzer_sums_segment_documents() {
    let doc = obj(vec![(
        "segments",
        JsonValue::Arr(vec![
            obj(vec![("segment_id", s("s0")), ("max_doc", JsonValue::UInt(0))]),
            obj(vec![("segment_id", s("s1")), ("max_doc", JsonValue::UInt(12))]),
        ]),
    )]);
    let analysis = analyze_index(&doc);
    assert_eq!(analysis.total_documents, 12);
    let segments = analysis.segments.expect("segments array present");
    assert_eq!(segments.len(), 2);
    assert_eq!(segments[0].segment_id, b"s0".to_vec());
    assert_eq!(segments[0].document_count, 0);
    assert_eq!(segments[1].segment_id, b"s1".to_vec());
    assert_eq!(segments[1].document_count, 12);
}

#[test]
fn analyzer_empty_segments_array_totals_zero() {
    let doc = obj(vec![("segments", JsonValue::Arr(vec![]))]);
    let analysis = analyze_index(&doc);
    assert_eq!(analysis.total_documents, 0);
    assert_eq!(analysis.segments.expect("present but empty").len(), 0);
}

#[test]
fn analyzer_missing_arrays_are_absent_not_errors() {
    let doc = obj(vec![("other", JsonValue::Null)]);
    let analysis = analyze_index(&doc);
    assert!(analysis.schema.is_none());
    assert!(analysis.segments.is_none());
    assert_eq!(analysis.total_documents, 0);
}

#[test]
fn analyzer_segment_defaults_apply() {
    let doc = obj(vec![(
        "segments",
        JsonValue::Arr(vec![obj(vec![("max_doc", s("not a number"))])]),
    )]);
    let analysis = analyze_index(&doc);
    let segments = analysis.segments.expect("segments array present");
    assert_eq!(segments[0].segment_id, b"unknown".to_vec());
    assert_eq!(segments[0].document_count, 0);
    assert_eq!(analysis.total_documents, 0);
}

#[test]
fn analyzer_total_saturates_instead_of_wrapping() {
    let entries = vec![
        SegmentEntry { segment_id: b"a".to_vec(), document_count: u64::MAX },
        SegmentEntry { segment_id: b"b".to_vec(), document_count: 5 },
    ];
    assert_eq!(total_documents(&entries), u64::MAX);
}

#[test]
fn schema_indexed_iff_indexing_is_structured() {
    let with_object = obj(vec![
        ("name", s("title")),
        ("type", s("text")),
        (
            "options",
            obj(vec![
                ("indexing", obj(vec![("record", s("position"))])),
                ("stored", JsonValue::Bool(true)),
            ]),
        ),
    ]);
    let with_array = obj(vec![
        ("name", s("tags")),
        ("type", s("text")),
        ("options", obj(vec![("indexing", JsonValue::Arr(vec![s("basic")]))])),
    ]);
    let with_scalar = obj(vec![
        ("name", s("count")),
        ("type", s("u64")),
        ("options", obj(vec![("indexing", JsonValue::UInt(1))])),
    ]);
    let with_null = obj(vec![
        ("name", s("flag")),
        ("type", s("bool")),
        ("options", obj(vec![("indexing", JsonValue::Null)])),
    ]);
    let without_options = obj(vec![("name", s("body")), ("type", s("text"))]);
    let doc = obj(vec![(
        "schema",
        JsonValue::Arr(vec![with_object, with_array, with_scalar, with_null, without_options]),
    )]);
    let analysis = analyze_index(&doc);
    let schema = analysis.schema.expect("schema array present");
    assert_eq!(schema.len(), 5);
    assert_eq!(schema[0].name, b"title".to_vec());
    assert_eq!(schema[0].kind, b"text".to_vec());
    assert!(schema[0].indexed);
    assert!(schema[0].stored);
    assert!(schema[1].indexed);
    assert!(!schema[1].stored);
    assert!(!schema[2].indexed);
    assert!(!schema[2].stored);
    assert!(!schema[3].indexed);
    assert!(!schema[4].indexed);
    assert!(!schema[4].stored);
}

#[test]
fn directory_round_trip_keeps_count_and_order() {
    let mut data = Vec::new();
    data.extend_from_slice(b"PFA1");
    let payload0 = b"ab\x00cde\x00f\x00ghi\x00";
    let off0 = data.len();
    data.extend_from_slice(payload0);
    let meta = br#"{"schema":[{"name":"title","type":"text","options":{"indexing":{"record":"position"},"stored":true}},{"name":"count","type":"u64","options":{}}],"segments":[{"segment_id":"s0","max_doc":0},{"segment_id":"s1","max_doc":12}]}"#;
    let off1 = data.len();
    data.extend_from_slice(meta);
    let payload2: [u8; 2] = [0xDE, 0xAD];
    let off2 = data.len();
    data.extend_from_slice(&payload2);
    let entry0 = format!(
        r#"{{"offset":{},"length":{},"type":"term","properties":{{"blob_tag":"seg.term"}}}}"#,
        off0,
        payload0.len(),
    );
    let entry1 = format!(
        r#"{{"offset":{},"length":{},"type":"json","properties":{{"blob_tag":"idx.meta.json"}}}}"#,
        off1,
        meta.len(),
    );
    let entry2 = format!(
        r#"{{"offset":{},"length":{},"type":"bin","properties":{{"blob_tag":"raw.bin"}}}}"#,
        off2,
        payload2.len(),
    );
    let dir_text = format!(r#"{{"blobs":[{},{},{}]}}"#, entry0, entry1, entry2);
    data.extend_from_slice(dir_text.as_bytes());

    assert!(check_header(&data).is_valid());

    let directory = read_directory(&data).expect("directory decodes");
    assert_eq!(directory.blobs.len(), 3);
    assert_eq!(directory.blobs[0].tag, b"seg.term".to_vec());
    assert_eq!(directory.blobs[1].tag, b"idx.meta.json".to_vec());
    assert_eq!(directory.blobs[2].tag, b"raw.bin".to_vec());
    assert_eq!(directory.blobs[0].offset, off0 as u64);
    assert_eq!(directory.blobs[0].length, payload0.len() as u64);
    assert_eq!(directory.blobs[1].kind, b"json".to_vec());
    assert!(directory.schema.is_none());
    assert!(directory.segments.is_none());

    let term_bytes = extract_blob(&data, &directory.blobs[0]).expect("in range");
    assert_eq!(term_bytes, payload0);
    assert_eq!(
        extract_terms(term_bytes),
        vec![b"cde".to_vec(), b"ghi".to_vec()]
    );

    let analysis = analyze_archive(&data, &directory).expect("metadata blob analyzed");
    assert_eq!(analysis.total_documents, 12);
    let schema = analysis.schema.expect("schema present");
    assert_eq!(schema.len(), 2);
    assert_eq!(schema[0].name, b"title".to_vec());
    assert!(schema[0].indexed);
    assert!(schema[0].stored);
    assert!(!schema[1].indexed);
    assert!(!schema[1].stored);
}

#[test]
fn directory_entry_defaults_apply() {
    let data = b"{\"blobs\":[{}]}";
    let directory = read_directory(data).expect("directory decodes");
    assert_eq!(directory.blobs.len(), 1);
    assert_eq!(directory.blobs[0].tag, b"unknown".to_vec());
    assert_eq!(directory.blobs[0].kind, b"unknown".to_vec());
    assert_eq!(directory.blobs[0].offset, 0);
    assert_eq!(directory.blobs[0].length, 0);
    assert!(matches!(directory.blobs[0].properties, JsonValue::Null));
}

#[test]
fn directory_with_invalid_json_is_absent() {
    // The balanced range is not a complete JSON document.
    let data = b"{\"blobs\":}";
    assert!(read_directory(data).is_none());
}

#[test]
fn analyze_archive_without_metadata_blob_is_none() {
    let data = b"{\"blobs\":[{\"offset\":0,\"length\":1,\"type\":\"bin\",\"properties\":{\"blob_tag\":\"raw.bin\"}}]}";
    let directory = read_directory(data).expect("directory decodes");
    assert!(analyze_archive(data, &directory).is_none());
}

#[test]
fn analyze_archive_with_out_of_range_metadata_is_none() {
    let data = b"{\"blobs\":[{\"offset\":9000,\"length\":10,\"type\":\"json\",\"properties\":{\"blob_tag\":\"m.meta.json\"}}]}";
    let directory = read_directory(data).expect("directory decodes");
    assert!(analyze_archive(data, &directory).is_none());
}

#[test]
fn directory_with_invalid_utf8_is_absent() {
    // The balanced range holds a byte that is not valid UTF-8 text.
    let data = b"{\"blobs\":[\"\xFF\"]}";
    assert!(locate_directory(data).is_some());
    assert!(read_directory(data).is_none());
}

#[test]
fn locator_finds_first_marker_in_window() {
    let data = b"{\"blobs\":1} filler {\"blobs\":2}";
    assert_eq!(find_json(data), Some(0));
}
