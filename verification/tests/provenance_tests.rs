use clip_tray_core::provenance::ClipCall;
use clip_tray_core::provenance::ScriptedClipboard;
use clip_tray_core::provenance::extract_source_url;
use clip_tray_core::provenance::extract_url_bytes;
use clip_tray_core::provenance::title_from_utf16;

fn count(calls: &[ClipCall], kind: ClipCall) -> usize {
    calls.iter().filter(|c| **c == kind).count()
}

fn balanced(clip: &ScriptedClipboard) -> bool {
    count(&clip.calls, ClipCall::Open) == count(&clip.calls, ClipCall::Close)
}

#[test]
fn payload_with_source_url_line_yields_the_url() {
    let payload = b"Version:0.9\nSourceURL:https://example.com/page\n<html></html>\n".to_vec();
    let mut clip = ScriptedClipboard::new(Some(payload));
    let r = extract_source_url(&mut clip);
    assert_eq!(r, Some("https://example.com/page".to_string()));
    assert!(balanced(&clip));
}

#[test]
fn extracted_url_is_trimmed_of_whitespace() {
    let payload = b"SourceURL:  https://example.com/page \t\r\nmore\n".to_vec();
    let mut clip = ScriptedClipboard::new(Some(payload));
    let r = extract_source_url(&mut clip);
    assert_eq!(r, Some("https://example.com/page".to_string()));
}

#[test]
fn payload_without_source_url_yields_the_sentinel() {
    let payload = b"Version:0.9\n<html><body>hello</body></html>\n".to_vec();
    let mut clip = ScriptedClipboard::new(Some(payload));
    let r = extract_source_url(&mut clip);
    assert_eq!(r, Some("No URL found".to_string()));
    assert!(balanced(&clip));
}

#[test]
fn absent_html_format_yields_none_and_touches_no_lock() {
    let mut clip = ScriptedClipboard::new(None);
    let r = extract_source_url(&mut clip);
    assert_eq!(r, None);
    assert_eq!(clip.calls, vec![ClipCall::Open, ClipCall::Close]);
}

#[test]
fn refused_open_yields_none_with_nothing_to_release() {
    let mut clip = ScriptedClipboard::new(Some(b"SourceURL:x\n".to_vec()));
    clip.deny_open = true;
    let r = extract_source_url(&mut clip);
    assert_eq!(r, None);
    assert!(clip.calls.is_empty());
    assert!(balanced(&clip));
}

#[test]
fn null_data_handle_still_releases_once() {
    let mut clip = ScriptedClipboard::new(Some(b"SourceURL:x\n".to_vec()));
    clip.deny_handle = true;
    let r = extract_source_url(&mut clip);
    assert_eq!(r, None);
    assert_eq!(clip.calls, vec![ClipCall::Open, ClipCall::Close]);
}

#[test]
fn failed_memory_lock_still_releases_once() {
    let mut clip = ScriptedClipboard::new(Some(b"SourceURL:x\n".to_vec()));
    clip.deny_lock = true;
    let r = extract_source_url(&mut clip);
    assert_eq!(r, None);
    assert_eq!(clip.calls, vec![ClipCall::Open, ClipCall::Lock, ClipCall::Close]);
}

#[test]
fn successful_extraction_unlocks_before_release() {
    let mut clip = ScriptedClipboard::new(Some(b"SourceURL:x\n".to_vec()));
    let r = extract_source_url(&mut clip);
    assert_eq!(r, Some("x".to_string()));
    assert_eq!(
        clip.calls,
        vec![ClipCall::Open, ClipCall::Lock, ClipCall::Unlock, ClipCall::Close]
    );
}

#[test]
fn first_source_url_line_wins() {
    let payload = b"SourceURL:https://first.example\nSourceURL:https://second.example\n".to_vec();
    let mut clip = ScriptedClipboard::new(Some(payload));
    let r = extract_source_url(&mut clip);
    assert_eq!(r, Some("https://first.example".to_string()));
}

#[test]
fn marker_must_start_the_line() {
    let payload = b"x SourceURL:https://example.com\n".to_vec();
    let mut clip = ScriptedClipboard::new(Some(payload));
    let r = extract_source_url(&mut clip);
    assert_eq!(r, Some("No URL found".to_string()));
}

#[test]
fn empty_payload_yields_the_sentinel() {
    let mut clip = ScriptedClipboard::new(Some(Vec::new()));
    let r = extract_source_url(&mut clip);
    assert_eq!(r, Some("No URL found".to_string()));
}

#[test]
fn url_bytes_decode_as_utf8() {
    let payload = "SourceURL:https://example.com/caf\u{e9}\n".as_bytes().to_vec();
    let mut clip = ScriptedClipboard::new(Some(payload));
    let r = extract_source_url(&mut clip);
    assert_eq!(r, Some("https://example.com/caf\u{e9}".to_string()));
}

#[test]
fn invalid_utf8_in_url_is_substituted() {
    let mut payload = b"SourceURL:https://example.com/".to_vec();
    payload.push(0xFF);
    payload.push(b'\n');
    let mut clip = ScriptedClipboard::new(Some(payload));
    let r = extract_source_url(&mut clip);
    assert_eq!(r, Some("https://example.com/\u{fffd}".to_string()));
}

#[test]
fn source_url_without_newline_at_end_is_found() {
    let payload = b"first\nSourceURL:tail".to_vec();
    let r = extract_url_bytes(&payload);
    assert_eq!(r, Some(b"tail".to_vec()));
}

#[test]
fn no_marker_gives_no_bytes() {
    let payload = b"one\ntwo\nthree".to_vec();
    assert_eq!(extract_url_bytes(&payload), None);
}

#[test]
fn empty_title_query_yields_none() {
    let buffer: Vec<u16> = vec![0; 512];
    assert_eq!(title_from_utf16(&buffer, 0), None);
}

#[test]
fn title_is_decoded_from_utf16() {
    let mut buffer: Vec<u16> = "Notes \u{2014} Editor".encode_utf16().collect();
    let len = buffer.len();
    buffer.resize(512, 0);
    assert_eq!(
        title_from_utf16(&buffer, len),
        Some("Notes \u{2014} Editor".to_string())
    );
}

#[test]
fn reported_length_is_clamped_to_the_buffer() {
    let buffer: Vec<u16> = "abc".encode_utf16().collect();
    assert_eq!(title_from_utf16(&buffer, 100), Some("abc".to_string()));
}

#[test]
fn overlong_titles_are_truncated_not_rejected() {
    let buffer: Vec<u16> = "a".repeat(600).encode_utf16().collect();
    let r = title_from_utf16(&buffer, 600).unwrap();
    assert_eq!(r.len(), 512);
    assert_eq!(r, "a".repeat(512));
}
