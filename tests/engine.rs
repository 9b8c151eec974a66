use ai_engine::anchor::{memo_text, FundingPoll, FundingStep, FUNDING_INTERVAL_MS};
use ai_engine::catalog::{insert_params, parse_search_field, record_from_row, search_by_field, SearchField};
use ai_engine::content::{cid_from_field, cid_from_reply, package_hash_and_cid};
use ai_engine::error::Fault;
use ai_engine::extract::{detect_format, extract_document_text, extract_text, extract_text_from_pdf, join_page_texts, DocFormat};
use ai_engine::hash::compute_sha256;
use ai_engine::metadata::{metadata_from_content, metadata_from_response, metadata_prompt, parse_metadata_reply, USER_PROMPT_HEAD};
use ai_engine::model::{ExtractedMetaData, FileRecord};
use ai_engine::pipeline::{Action, PipelineRun, Stage};
use ai_engine::retry::{retry_decision, RetryStep};

const HELLO_WORLD_SHA256: &str = "a591a6d40bf420404a011733cfb7b190d62c65bf0bcda32b57b277d9ad9f146e";

fn no_pages() -> Vec<Option<String>> {
    Vec::new()
}

fn sample_record() -> FileRecord {
    FileRecord { file_hash: HELLO_WORLD_SHA256.to_string(), file_cid: "bafy-test".to_string() }
}

fn sample_metadata() -> ExtractedMetaData {
    ExtractedMetaData {
        title: "Notes".to_string(),
        difficulty: "Beginner".to_string(),
        genre: "Education".to_string(),
        summary: "short note".to_string(),
    }
}

#[test]
fn sha256_of_known_inputs() {
    assert_eq!(compute_sha256(b"Hello World"), HELLO_WORLD_SHA256);
    assert_eq!(
        compute_sha256(b""),
        "e3b0c44298fc1c149afbf4c8996fb92427ae41e4649b934ca495991b7852b855"
    );
    assert_eq!(compute_sha256(b"abc").len(), 64);
}

#[test]
fn sha256_is_deterministic_and_sensitive() {
    let a = compute_sha256(b"Hello World");
    let b = compute_sha256(b"Hello World");
    assert_eq!(a, b);
    // 'W' is 0x57, 'V' is 0x56: one bit apart.
    let c = compute_sha256(b"Hello Vorld");
    assert_ne!(a, c);
}

#[test]
fn formats_from_file_names() {
    assert_eq!(detect_format("notes.txt"), Some(DocFormat::Txt));
    assert_eq!(detect_format("NOTES.TXT"), Some(DocFormat::Txt));
    assert_eq!(detect_format("readme.Md"), Some(DocFormat::Md));
    assert_eq!(detect_format("book.v2.pdf"), Some(DocFormat::Pdf));
    assert_eq!(detect_format("essay.DocX"), Some(DocFormat::Docx));
    assert_eq!(detect_format("archive.tar.gz"), None);
    assert_eq!(detect_format("pdf"), None);
    assert_eq!(detect_format("notes."), None);
    assert_eq!(detect_format("notes.pdf.exe"), None);
    assert_eq!(detect_format(""), None);
}

#[test]
fn plain_text_is_decoded() {
    assert_eq!(extract_document_text("a.txt", b"Hello World", &no_pages()), Ok("Hello World".to_string()));
    assert_eq!(extract_text("caf\u{e9}".as_bytes(), DocFormat::Md, &no_pages()), Ok("caf\u{e9}".to_string()));
    assert_eq!(extract_text(b"", DocFormat::Txt, &no_pages()), Ok(String::new()));
}

#[test]
fn invalid_utf8_fails_extraction() {
    assert_eq!(extract_document_text("a.md", &[0x66, 0xff, 0x66], &no_pages()), Err(Fault::ExtractionFailed));
}

#[test]
fn unknown_extension_is_unsupported() {
    assert_eq!(extract_document_text("a.exe", b"Hello", &no_pages()), Err(Fault::UnsupportedFormat));
    assert_eq!(extract_document_text("noextension", b"Hello", &no_pages()), Err(Fault::UnsupportedFormat));
}

#[test]
fn unreadable_pdf_and_docx_fail() {
    assert_eq!(extract_text_from_pdf(&no_pages()), Err(Fault::ExtractionFailed));
    assert_eq!(extract_document_text("a.pdf", b"Hello", &no_pages()), Err(Fault::ExtractionFailed));
    assert_eq!(extract_document_text("a.docx", b"PK", &no_pages()), Err(Fault::ExtractionFailed));
}

#[test]
fn pdf_without_any_text_fails() {
    let pages = vec![Some(String::new()), None, Some(String::new())];
    assert_eq!(extract_text_from_pdf(&pages), Err(Fault::ExtractionFailed));
}

#[test]
fn pages_join_in_order() {
    let pages = vec![Some("one ".to_string()), None, Some(String::new()), Some("two".to_string())];
    assert_eq!(join_page_texts(&pages), "one two");
    assert_eq!(join_page_texts(&Vec::new()), "");
    assert_eq!(extract_text_from_pdf(&pages), Ok("one two".to_string()));
    assert_eq!(extract_document_text("b.PDF", b"%PDF", &pages), Ok("one two".to_string()));
}

#[test]
fn extracted_text_is_normalized() {
    let decomposed = "cafe\u{301}";
    assert_eq!(extract_text(decomposed.as_bytes(), DocFormat::Txt, &no_pages()), Ok("caf\u{e9}".to_string()));
    let pages = vec![Some(decomposed.to_string())];
    assert_eq!(extract_text_from_pdf(&pages), Ok("caf\u{e9}".to_string()));
}

#[test]
fn prompt_carries_the_text() {
    let p = metadata_prompt("Hello World");
    assert_eq!(p, format!("{}Hello World", USER_PROMPT_HEAD));
}

#[test]
fn complete_reply_parses() {
    let reply = "Genre: Education\nTitle:  Notes \nDifficulty: Beginner\r\nSummary: short note";
    assert_eq!(parse_metadata_reply(reply), Ok(sample_metadata()));
}

#[test]
fn first_line_of_a_label_wins() {
    let reply = "Summary: short note\nGenre: Education\nGenre: Fiction\nTitle: Notes\nDifficulty: Beginner\n";
    assert_eq!(parse_metadata_reply(reply), Ok(sample_metadata()));
}

#[test]
fn missing_field_is_malformed() {
    let reply = "Genre: Education\nTitle: Notes\nSummary: short note";
    assert_eq!(parse_metadata_reply(reply), Err(Fault::MalformedMetadataResponse));
}

#[test]
fn empty_field_is_malformed() {
    let reply = "Genre: Education\nTitle:   \nDifficulty: Beginner\nSummary: short note";
    assert_eq!(parse_metadata_reply(reply), Err(Fault::MalformedMetadataResponse));
    assert_eq!(parse_metadata_reply(""), Err(Fault::MalformedMetadataResponse));
}

#[test]
fn loose_markup_is_not_accepted() {
    let reply = "**Genre:** Education\n**Title:** Notes\n**Difficulty Level:** Beginner\n**Summary:** short note";
    assert_eq!(parse_metadata_reply(reply), Err(Fault::MalformedMetadataResponse));
}

#[test]
fn completion_response_envelope_is_read() {
    let body = r#"{"choices":[{"message":{"role":"assistant","content":"Genre: Education\nTitle: Notes\nDifficulty: Beginner\nSummary: short note"}}]}"#;
    assert_eq!(metadata_from_response(body), Ok(sample_metadata()));
    assert_eq!(metadata_from_response(r#"{"choices":[]}"#), Err(Fault::MalformedMetadataResponse));
    assert_eq!(metadata_from_response("not json"), Err(Fault::MalformedMetadataResponse));
    assert_eq!(metadata_from_content(None), Err(Fault::MalformedMetadataResponse));
}

#[test]
fn store_reply_gives_the_cid() {
    assert_eq!(
        cid_from_reply(r#"{"Name":"notes.txt","Hash":"bafy-test","Size":"19"}"#),
        Ok("bafy-test".to_string())
    );
    assert_eq!(cid_from_reply(r#"{"Name":"notes.txt"}"#), Err(Fault::ContentStoreRejected));
    assert_eq!(cid_from_reply(r#"{"Hash":7}"#), Err(Fault::ContentStoreRejected));
    assert_eq!(cid_from_reply("<html>"), Err(Fault::ContentStoreRejected));
    assert_eq!(cid_from_field(Some(String::new())), Err(Fault::ContentStoreRejected));
}

#[test]
fn file_record_is_whole_or_absent() {
    let rec = package_hash_and_cid(b"Hello World", r#"{"Hash":"bafy-test"}"#).unwrap();
    assert_eq!(rec.file_hash, HELLO_WORLD_SHA256);
    assert_eq!(rec.file_cid, "bafy-test");
    assert_eq!(package_hash_and_cid(b"Hello World", "{}"), Err(Fault::ContentStoreRejected));
}

#[test]
fn memo_payload_format() {
    assert_eq!(memo_text("abc", "bafy-test"), "hash:abc;cid:bafy-test");
    assert_eq!(memo_text("", ""), "hash:;cid:");
}

#[test]
fn funding_stops_at_first_balance() {
    let mut poll = FundingPoll::new(5);
    assert_eq!(poll.observe(0), FundingStep::Retry(FUNDING_INTERVAL_MS));
    assert_eq!(poll.observe(0), FundingStep::Retry(FUNDING_INTERVAL_MS));
    assert_eq!(poll.observe(1_000_000_000), FundingStep::Funded(3));
    assert_eq!(poll.attempts, 3);
    assert_eq!(FundingStep::Funded(3).fault(), None);
}

#[test]
fn funding_times_out_after_exactly_max() {
    let mut poll = FundingPoll::new(4);
    let mut steps = Vec::new();
    while poll.attempts < poll.max_attempts {
        steps.push(poll.observe(0));
    }
    assert_eq!(steps.len(), 4);
    assert_eq!(steps[3], FundingStep::TimedOut(4));
    assert_eq!(steps[3].fault(), Some(Fault::FundingTimeout));
    let mut single = FundingPoll::new(1);
    assert_eq!(single.observe(0), FundingStep::TimedOut(1));
}

#[test]
fn transient_faults_back_off() {
    assert_eq!(retry_decision(1, Fault::MetadataServiceUnavailable), RetryStep::RetryAfter(500));
    assert_eq!(retry_decision(2, Fault::ContentStoreUnavailable), RetryStep::RetryAfter(1000));
    assert_eq!(
        retry_decision(3, Fault::ContentStoreUnavailable),
        RetryStep::GiveUp(Fault::ContentStoreUnavailable)
    );
    assert_eq!(
        retry_decision(1, Fault::MalformedMetadataResponse),
        RetryStep::GiveUp(Fault::MalformedMetadataResponse)
    );
    assert!(Fault::ContentStoreUnavailable.is_transient());
    assert!(!Fault::ContentStoreRejected.is_transient());
}

#[test]
fn search_fields_are_allow_listed() {
    assert_eq!(parse_search_field("genre"), Ok(SearchField::Genre));
    assert_eq!(parse_search_field("file_cid"), Ok(SearchField::FileCid));
    assert_eq!(parse_search_field("file_hash"), Ok(SearchField::FileHash));
    for bad in ["id", "Genre", "fileHash", "fileCid", "genre; DROP TABLE archive;--", "title OR 1=1", "", "file_hash "] {
        assert_eq!(parse_search_field(bad), Err(Fault::InvalidFieldQuery));
        assert_eq!(search_by_field(bad, "x"), Err(Fault::InvalidFieldQuery));
    }
}

#[test]
fn search_query_binds_the_value() {
    let q = search_by_field("file_hash", "a5'; --").unwrap();
    assert_eq!(
        q.sql,
        "SELECT id, genre, title, difficulty, summary, file_hash, file_cid FROM archive WHERE instr(file_hash, ?1) > 0"
    );
    assert_eq!(q.needle, "a5'; --");
    let w = search_by_field("title", "50%_off").unwrap();
    assert_eq!(w.needle, "50%_off");
    assert_eq!(SearchField::Summary.column(), "summary");
}

#[test]
fn stored_row_reads_back_as_inserted() {
    let m = sample_metadata();
    let f = sample_record();
    let params = insert_params(&m, &f);
    assert_eq!(params, vec!["Education", "Notes", "Beginner", "short note", HELLO_WORLD_SHA256, "bafy-test"]);
    let rec = record_from_row(7, &params);
    assert_eq!(rec.id, 7);
    assert_eq!(rec.genre, m.genre);
    assert_eq!(rec.title, m.title);
    assert_eq!(rec.difficulty, m.difficulty);
    assert_eq!(rec.summary, m.summary);
    assert_eq!(rec.file_hash, f.file_hash);
    assert_eq!(rec.file_cid, f.file_cid);
}

#[test]
fn store_failure_aborts_the_run() {
    let mut run = PipelineRun::new();
    assert_eq!(run.next_action(), Action::ExtractText);
    run.text_extracted(Ok("Hello World".to_string()));
    assert_eq!(run.next_action(), Action::ExtractMetadata);
    run.metadata_extracted(Ok(sample_metadata()));
    assert_eq!(run.next_action(), Action::AddressContent);
    run.content_addressed(Err(Fault::ContentStoreUnavailable));
    assert_eq!(run.next_action(), Action::Done);
    assert_eq!(run.entry_id, None);
    let err = run.finish().unwrap_err();
    assert_eq!(err.stage, Stage::ContentAddressing);
    assert_eq!(err.stage.name(), "content_addressing");
    assert_eq!(err.cause, Fault::ContentStoreUnavailable);
    assert_eq!(err.partial.text, Some("Hello World".to_string()));
    assert_eq!(err.partial.metadata, Some(sample_metadata()));
    assert_eq!(err.partial.file_record, None);
}

#[test]
fn end_to_end_hello_world() {
    let bytes = b"Hello World";
    let mut run = PipelineRun::new();
    run.text_extracted(extract_document_text("notes.txt", bytes, &no_pages()));
    let reply = "Genre: Education\nTitle: Notes\nDifficulty: Beginner\nSummary: short note";
    run.metadata_extracted(parse_metadata_reply(reply));
    run.content_addressed(package_hash_and_cid(bytes, r#"{"Hash":"bafy-test"}"#));
    assert_eq!(run.next_action(), Action::Anchor);
    run.anchored(Ok("5sig".to_string()));
    assert_eq!(run.next_action(), Action::WriteCatalog);
    run.catalog_written(Ok(1));
    assert_eq!(run.next_action(), Action::Done);
    let out = run.finish().unwrap();
    assert_eq!(out.entry.file_hash, HELLO_WORLD_SHA256);
    assert_eq!(out.entry.file_cid, "bafy-test");
    assert_eq!(out.entry.genre, "Education");
    assert_eq!(out.entry.id, 1);
    assert!(!out.response.memo.is_empty());
    assert_eq!(out.response.metadata, sample_metadata());
}

#[test]
fn failures_at_each_stage_are_reported() {
    let mut run = PipelineRun::new();
    run.text_extracted(Err(Fault::UnsupportedFormat));
    assert_eq!(run.next_action(), Action::Done);
    assert_eq!(run.clone().finish().unwrap_err().stage, Stage::TextExtraction);

    let mut run = PipelineRun::new();
    run.text_extracted(Ok("t".to_string()));
    let mut hollow = sample_metadata();
    hollow.summary = String::new();
    run.metadata_extracted(Ok(hollow));
    let err = run.finish().unwrap_err();
    assert_eq!(err.stage, Stage::MetadataExtraction);
    assert_eq!(err.cause, Fault::MalformedMetadataResponse);

    let mut run = PipelineRun::new();
    run.text_extracted(Ok("t".to_string()));
    run.metadata_extracted(Ok(sample_metadata()));
    run.content_addressed(Ok(sample_record()));
    run.anchored(Err(Fault::FundingTimeout));
    let err = run.finish().unwrap_err();
    assert_eq!(err.stage, Stage::ChainAnchoring);
    assert_eq!(err.cause, Fault::FundingTimeout);
    assert!(err.partial.file_record.is_some());

    let mut run = PipelineRun::new();
    run.text_extracted(Ok("t".to_string()));
    run.metadata_extracted(Ok(sample_metadata()));
    run.content_addressed(Ok(sample_record()));
    run.anchored(Ok(String::new()));
    assert_eq!(run.clone().finish().unwrap_err().cause, Fault::AnchorSubmissionFailed);

    let mut run = PipelineRun::new();
    run.text_extracted(Ok("t".to_string()));
    run.metadata_extracted(Ok(sample_metadata()));
    run.content_addressed(Ok(sample_record()));
    run.anchored(Ok("sig".to_string()));
    run.catalog_written(Err(Fault::CatalogWriteFailed));
    let err = run.finish().unwrap_err();
    assert_eq!(err.stage, Stage::CatalogWrite);
    assert_eq!(err.partial.signature, Some("sig".to_string()));
}

#[test]
fn malformed_file_record_is_rejected() {
    let mut run = PipelineRun::new();
    run.text_extracted(Ok("t".to_string()));
    run.metadata_extracted(Ok(sample_metadata()));
    run.content_addressed(Ok(FileRecord { file_hash: HELLO_WORLD_SHA256.to_uppercase(), file_cid: "c".to_string() }));
    let err = run.finish().unwrap_err();
    assert_eq!(err.stage, Stage::ContentAddressing);
    assert_eq!(err.cause, Fault::ContentStoreRejected);
    assert!(sample_record().is_wf());
    assert!(!FileRecord { file_hash: "h".to_string(), file_cid: "c".to_string() }.is_wf());
    assert!(!FileRecord { file_hash: HELLO_WORLD_SHA256.to_string(), file_cid: String::new() }.is_wf());
}
