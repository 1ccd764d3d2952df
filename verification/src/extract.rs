//! Extraction of the readable text of one annotation file.
//!
//! A file is parsed into a flat stream of structural events — element
//! opens, character data, anything else — by the markup reader; a
//! parse error ends the stream with a diagnostic event. The scanner
//! then walks the events once, remembering only the name of the tag
//! it last saw opened: character data inside a `title` element is a
//! title, inside a `text` element it is body text, anything else is
//! ignored, and a malformed event yields its diagnostic and stops the
//! scan of this file.

use vstd::prelude::*;
use xml::reader::XmlEvent;

verus! {

/// One structural event of an annotation document, as the markup
/// reader hands them out.
#[derive(Debug, PartialEq, Eq)]
pub enum MarkupEvent {
    /// An element opened; `tag` is its local name.
    Open { tag: String },
    /// A run of character data.
    Text { content: String },
    /// The stream could not be parsed further; `message` says why.
    /// Nothing follows this event.
    Malformed { message: String },
    /// Any other structural event; the scanner ignores it.
    Other,
}

/// One item of the transcript the scanner emits.
#[derive(Debug, PartialEq, Eq)]
pub enum Output {
    /// A book title, shown inside a banner.
    Title { content: String },
    /// A run of annotation text, shown verbatim.
    Body { content: String },
    /// The diagnostic for a file whose structure could not be parsed;
    /// the scan of the file stopped here.
    Diagnostic { message: String },
}

/// The tag the scanner last saw opened, as far as extraction cares:
/// none yet, the title element, the text element, or any other.
#[derive(Clone, Copy)]
pub enum CurrentTag {
    NoTag,
    TitleTag,
    TextTag,
    OtherTag,
}

/// The scanner state reached when an element named `tag` opens.
pub open spec fn tag_of(tag: Seq<char>) -> CurrentTag {
    if tag == "title"@ {
        CurrentTag::TitleTag
    } else if tag == "text"@ {
        CurrentTag::TextTag
    } else {
        CurrentTag::OtherTag
    }
}

/// What a character-data event with this content emits in state `cur`.
pub open spec fn text_output(cur: CurrentTag, content: String) -> Seq<Output> {
    match cur {
        CurrentTag::TitleTag => seq![Output::Title { content }],
        CurrentTag::TextTag => seq![Output::Body { content }],
        _ => Seq::empty(),
    }
}

/// The transcript of scanning `events` in state `cur`: an element
/// open moves the state to its tag, character data emits by
/// `text_output`, a malformed event emits its diagnostic and ends the
/// scan, any other event is ignored.
pub open spec fn extract_spec(events: Seq<MarkupEvent>, cur: CurrentTag) -> Seq<Output>
    decreases events.len(),
{
    if events.len() == 0 {
        Seq::empty()
    } else {
        match events[0] {
            MarkupEvent::Open { tag } => extract_spec(events.drop_first(), tag_of(tag@)),
            MarkupEvent::Text { content } => text_output(cur, content) + extract_spec(
                events.drop_first(),
                cur,
            ),
            MarkupEvent::Malformed { message } => seq![Output::Diagnostic { message }],
            MarkupEvent::Other => extract_spec(events.drop_first(), cur),
        }
    }
}

/// Decides which scanner state an element name moves to: the same
/// case-sensitive comparison against `title` and `text` as `tag_of`.
pub fn tag_kind(tag: &String) -> (k: CurrentTag)
    ensures
        k == tag_of(tag@),
{
    let title: String = "title".to_owned();
    let text: String = "text".to_owned();
    if *tag == title {
        CurrentTag::TitleTag
    } else if *tag == text {
        CurrentTag::TextTag
    } else {
        CurrentTag::OtherTag
    }
}

/// Scans a file's whole event list, starting with no tag seen, and
/// returns exactly the transcript of `extract_spec`.
pub fn extract_outputs(events: &Vec<MarkupEvent>) -> (r: Vec<Output>)
    ensures
        r@ == extract_spec(events@, CurrentTag::NoTag),
{
    let mut out: Vec<Output> = Vec::new();
    let mut cur = CurrentTag::NoTag;
    let mut i: usize = 0;
    proof {
        assert(events@.skip(0) =~= events@);
    }
    while i < events.len()
        invariant
            i <= events.len(),
            extract_spec(events@, CurrentTag::NoTag) == out@ + extract_spec(
                events@.skip(i as int),
                cur,
            ),
        decreases events.len() - i,
    {
        proof {
            assert(events@.skip(i as int)[0] == events@[i as int]);
            assert(events@.skip(i as int).drop_first() =~= events@.skip(i + 1));
        }
        let ghost out0 = out@;
        match &events[i] {
            MarkupEvent::Open { tag } => {
                cur = tag_kind(tag);
            },
            MarkupEvent::Text { content } => {
                match cur {
                    CurrentTag::TitleTag => {
                        out.push(Output::Title { content: content.clone() });
                    },
                    CurrentTag::TextTag => {
                        out.push(Output::Body { content: content.clone() });
                    },
                    _ => {},
                }
                proof {
                    assert(out@ =~= out0 + text_output(cur, events@[i as int]->Text_content));
                }
            },
            MarkupEvent::Malformed { message } => {
                out.push(Output::Diagnostic { message: message.clone() });
                proof {
                    assert(out@ =~= out0 + seq![
                        Output::Diagnostic { message: events@[i as int]->Malformed_message },
                    ]);
                }
                return out;
            },
            MarkupEvent::Other => {},
        }
        i += 1;
    }
    proof {
        assert(events@.skip(events@.len() as int) =~= Seq::<MarkupEvent>::empty());
    }
    out
}

/// The structural events that the markup reader yields for a byte
/// sequence, cut off after the first parse error: a function of the
/// bytes alone.
pub uninterp spec fn events_of(data: Seq<u8>) -> Seq<MarkupEvent>;

/// Relies on xml::reader::EventReader: pulls the structural events of
/// the document held in `data`, in document order. An element open is
/// carried with its local name and character data with its content; a
/// parse error becomes `Malformed` and nothing follows it.
#[verifier::external_body]
fn read_events(data: &[u8]) -> (r: Vec<MarkupEvent>)
    ensures
        r@ == events_of(data@),
{
    let mut out = Vec::new();
    for event in xml::reader::EventReader::new(data) {
        match event {
            Ok(XmlEvent::StartElement { name, .. }) => out.push(MarkupEvent::Open { tag: name.local_name }),
            Ok(XmlEvent::Characters(content)) => out.push(MarkupEvent::Text { content }),
            Ok(_) => out.push(MarkupEvent::Other),
            Err(e) => {
                out.push(MarkupEvent::Malformed { message: e.to_string() });
                break;
            },
        }
    }
    out
}

/// Extracts one annotation file: parses its bytes into structural
/// events and scans them, starting with no tag seen. A file whose
/// structure gives out mid-stream keeps the transcript gathered up to
/// there and ends it with a `Diagnostic` item; a file with no
/// recognized tags yields an empty transcript, which is no error.
pub fn extract_from_bytes(data: &[u8]) -> (r: Vec<Output>)
    ensures
        r@ == extract_spec(events_of(data@), CurrentTag::NoTag),
{
    let events = read_events(data);
    extract_outputs(&events)
}

/// The printed form of one transcript item: a title inside a banner
/// framed by blank lines, body text verbatim, a diagnostic behind an
/// error marker.
pub open spec fn render_spec(o: Output) -> Seq<char> {
    match o {
        Output::Title { content } => "\n=== "@ + content@ + " ===\n"@,
        Output::Body { content } => content@,
        Output::Diagnostic { message } => "Error: "@ + message@,
    }
}

/// Lays one transcript item out for printing, as `render_spec` says.
pub fn render(o: &Output) -> (r: String)
    ensures
        r@ == render_spec(*o),
{
    match o {
        Output::Title { content } => {
            let mut s: String = "\n=== ".to_owned();
            s.append(content.as_str());
            s.append(" ===\n");
            s
        },
        Output::Body { content } => content.clone(),
        Output::Diagnostic { message } => {
            let mut s: String = "Error: ".to_owned();
            s.append(message.as_str());
            s
        },
    }
}

} // verus!
