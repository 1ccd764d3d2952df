use kobo_annot::extract::MarkupEvent;
use kobo_annot::extract::Output;
use kobo_annot::extract::extract_from_bytes;
use kobo_annot::extract::extract_outputs;
use kobo_annot::extract::render;

fn title(content: &str) -> Output {
    Output::Title { content: content.to_string() }
}

fn body(content: &str) -> Output {
    Output::Body { content: content.to_string() }
}

#[test]
fn well_formed_document_yields_banner_then_text() {
    let doc = b"<annotationSet><title>Book Name</title><text>Hello</text></annotationSet>";
    let outputs = extract_from_bytes(doc);
    assert_eq!(outputs, vec![title("Book Name"), body("Hello")]);
    let banner = render(&outputs[0]);
    assert!(banner.contains("Book Name"));
    assert_eq!(banner, "\n=== Book Name ===\n");
    assert_eq!(render(&outputs[1]), "Hello");
}

#[test]
fn structural_error_after_valid_content_keeps_the_content() {
    let doc = b"<annotationSet><title>Book Name</title><text>Hello</text><broken</annotationSet>";
    let outputs = extract_from_bytes(doc);
    assert!(outputs.len() == 3);
    assert_eq!(outputs[0], title("Book Name"));
    assert_eq!(outputs[1], body("Hello"));
    assert!(matches!(outputs[2], Output::Diagnostic { .. }));
    assert!(render(&outputs[2]).starts_with("Error: "));
}

#[test]
fn unparseable_document_yields_only_a_diagnostic() {
    let doc = b"not markup at all";
    let outputs = extract_from_bytes(doc);
    assert_eq!(outputs.len(), 1);
    assert!(matches!(outputs[0], Output::Diagnostic { .. }));
}

#[test]
fn unrecognized_tags_yield_no_output() {
    let doc = b"<annotationSet><note>hidden</note><aside>also hidden</aside></annotationSet>";
    let outputs = extract_from_bytes(doc);
    assert_eq!(outputs, Vec::<Output>::new());
}

#[test]
fn empty_document_body_yields_no_output() {
    let doc = b"<annotationSet></annotationSet>";
    let outputs = extract_from_bytes(doc);
    assert_eq!(outputs, Vec::<Output>::new());
}

#[test]
fn current_tag_follows_the_most_recent_open() {
    let events = vec![
        MarkupEvent::Open { tag: "title".to_string() },
        MarkupEvent::Text { content: "A Book".to_string() },
        MarkupEvent::Open { tag: "margin".to_string() },
        MarkupEvent::Text { content: "ignored".to_string() },
        MarkupEvent::Open { tag: "text".to_string() },
        MarkupEvent::Text { content: "a note".to_string() },
        MarkupEvent::Text { content: "another".to_string() },
    ];
    let outputs = extract_outputs(&events);
    assert_eq!(outputs, vec![title("A Book"), body("a note"), body("another")]);
}

#[test]
fn text_before_any_open_tag_is_ignored() {
    let events = vec![MarkupEvent::Text { content: "stray".to_string() }];
    assert_eq!(extract_outputs(&events), Vec::<Output>::new());
}

#[test]
fn scan_stops_at_a_malformed_event() {
    let events = vec![
        MarkupEvent::Open { tag: "text".to_string() },
        MarkupEvent::Text { content: "kept".to_string() },
        MarkupEvent::Malformed { message: "unexpected end".to_string() },
        MarkupEvent::Text { content: "dropped".to_string() },
    ];
    let outputs = extract_outputs(&events);
    assert_eq!(
        outputs,
        vec![body("kept"), Output::Diagnostic { message: "unexpected end".to_string() }]
    );
}

#[test]
fn other_events_do_not_disturb_the_state() {
    let events = vec![
        MarkupEvent::Open { tag: "text".to_string() },
        MarkupEvent::Other,
        MarkupEvent::Text { content: "still text".to_string() },
    ];
    assert_eq!(extract_outputs(&events), vec![body("still text")]);
}
