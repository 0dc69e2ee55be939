use primenet_rs::{extract_records, RecordKind};

const HEX: &str = "0123456789ABCDEF0123456789ABCDEF";

#[test]
fn extracts_result_line_from_markup() {
    let body = format!(
        "<html>\nnoise line\nTest={},75000077,1,1\nmore noise\n</html>",
        HEX
    );
    let recs = extract_records(&body, RecordKind::PrimenetResult);
    assert_eq!(recs, vec![format!("Test={},75000077,1,1", HEX)]);
}

#[test]
fn extracts_two_records_in_order() {
    let body = format!(
        "header\nTest={},75000077,1,1\nDoubleCheck={},60000001,2,2\nfooter",
        HEX, HEX
    );
    let recs = extract_records(&body, RecordKind::PrimenetResult);
    assert_eq!(
        recs,
        vec![
            format!("Test={},75000077,1,1", HEX),
            format!("DoubleCheck={},60000001,2,2", HEX),
        ]
    );
}

#[test]
fn match_is_trimmed_to_leftmost_start() {
    let body = format!("<td class=x>PRP={},1,2,3", HEX);
    let recs = extract_records(&body, RecordKind::PrimenetResult);
    assert_eq!(recs, vec![format!("PRP={},1,2,3", HEX)]);
}

#[test]
fn tag_embedded_in_longer_word_starts_later() {
    let body = format!("PRPTest={},1,2,3", HEX);
    let recs = extract_records(&body, RecordKind::PrimenetResult);
    assert_eq!(recs, vec![format!("Test={},1,2,3", HEX)]);
}

#[test]
fn whitespace_allowed_around_equals() {
    let body = format!("DoubleCheck \t= {},5,6,7", HEX);
    let recs = extract_records(&body, RecordKind::PrimenetResult);
    assert_eq!(recs, vec![format!("DoubleCheck \t= {},5,6,7", HEX)]);
}

#[test]
fn optional_signed_fields_three_to_five() {
    let three = format!("PRP={},1,2,3,-4,5,-6", HEX);
    let five = format!("PRP={},1,2,3,-4,5,-6,7,8", HEX);
    assert_eq!(
        extract_records(&three, RecordKind::PrimenetResult),
        vec![three.clone()]
    );
    assert_eq!(
        extract_records(&five, RecordKind::PrimenetResult),
        vec![five.clone()]
    );
}

#[test]
fn wrong_optional_field_counts_do_not_match() {
    let one = format!("PRP={},1,2,3,-4", HEX);
    let two = format!("PRP={},1,2,3,-4,5", HEX);
    let six = format!("PRP={},1,2,3,-4,5,-6,7,8,9", HEX);
    assert!(extract_records(&one, RecordKind::PrimenetResult).is_empty());
    assert!(extract_records(&two, RecordKind::PrimenetResult).is_empty());
    assert!(extract_records(&six, RecordKind::PrimenetResult).is_empty());
}

#[test]
fn short_or_lowercase_key_does_not_match() {
    let short = "Test=0123456789ABCDEF0123456789ABCDE,1,2,3";
    let lower = "Test=0123456789abcdef0123456789abcdef,1,2,3";
    assert!(extract_records(short, RecordKind::PrimenetResult).is_empty());
    assert!(extract_records(lower, RecordKind::PrimenetResult).is_empty());
}

#[test]
fn trailing_text_after_fields_does_not_match() {
    let body = format!("Test={},1,2,3 and more", HEX);
    assert!(extract_records(&body, RecordKind::PrimenetResult).is_empty());
}

#[test]
fn no_matches_yield_empty_list() {
    assert!(extract_records("", RecordKind::PrimenetResult).is_empty());
    assert!(extract_records("nothing here\nat all", RecordKind::PrimenetResult).is_empty());
}

#[test]
fn gpu72_assignment_line_matches() {
    let body = "junk\nFactor=N/A,100000000,70,71\ntrailer";
    let recs = extract_records(body, RecordKind::Gpu72Assignment);
    assert_eq!(recs, vec!["Factor=N/A,100000000,70,71".to_string()]);
}

#[test]
fn gpu72_wrong_field_count_does_not_match() {
    assert!(extract_records("Factor=N/A,1,2", RecordKind::Gpu72Assignment).is_empty());
    assert!(extract_records("Factor=N/A,1,2,3,4", RecordKind::Gpu72Assignment).is_empty());
}

#[test]
fn one_record_per_line_at_most() {
    let body = format!("Test={},1,2,3 Test={},4,5,6", HEX, HEX);
    let recs = extract_records(&body, RecordKind::PrimenetResult);
    assert_eq!(recs, vec![format!("Test={},4,5,6", HEX)]);
}
