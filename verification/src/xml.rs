//! XML events as plain values, read from a document with quick-xml, and the
//! small queries the BoardGameGeek parsers make of them.

use vstd::prelude::*;
use quick_xml::events::{BytesStart, Event};
use quick_xml::reader::Reader;

use crate::text::{chars_of, opt_view, string_is};

verus! {

/// An opening (or self-closing) tag: its local name and its attributes, in
/// document order. An attribute that quick-xml could not parse is `None`.
pub struct XmlTag {
    pub name: String,
    pub attrs: Vec<Option<(String, String)>>,
}

/// One event of an XML document, as quick-xml reports it. `Text` holds the
/// text decoded to UTF-8 but not yet unescaped (`None` when decoding failed);
/// `Ref` holds the name inside an entity or character reference (`amp` for
/// `&amp;`, `#10` for `&#10;`), which quick-xml reports apart from the text
/// around it; `Other` stands for every kind of event the parsers here ignore
/// (comments, declarations, CDATA...).
pub enum XmlEvent {
    Start(XmlTag),
    Empty(XmlTag),
    End(String),
    Text(Option<String>),
    Ref(Option<String>),
    Eof,
    Error,
    Other,
}

pub struct SpecXmlTag {
    pub name: Seq<char>,
    pub attrs: Seq<Option<(Seq<char>, Seq<char>)>>,
}

pub enum SpecXmlEvent {
    Start(SpecXmlTag),
    Empty(SpecXmlTag),
    End(Seq<char>),
    Text(Option<Seq<char>>),
    Ref(Option<Seq<char>>),
    Eof,
    Error,
    Other,
}

pub open spec fn attr_view(a: Option<(String, String)>) -> Option<(Seq<char>, Seq<char>)> {
    match a {
        Some((k, v)) => Some((k@, v@)),
        None => None,
    }
}

impl View for XmlTag {
    type V = SpecXmlTag;

    open spec fn view(&self) -> SpecXmlTag {
        SpecXmlTag { name: self.name@, attrs: self.attrs@.map_values(|a| attr_view(a)) }
    }
}

impl View for XmlEvent {
    type V = SpecXmlEvent;

    open spec fn view(&self) -> SpecXmlEvent {
        match self {
            XmlEvent::Start(t) => SpecXmlEvent::Start(t@),
            XmlEvent::Empty(t) => SpecXmlEvent::Empty(t@),
            XmlEvent::End(n) => SpecXmlEvent::End(n@),
            XmlEvent::Text(t) => SpecXmlEvent::Text(opt_view(*t)),
            XmlEvent::Ref(n) => SpecXmlEvent::Ref(opt_view(*n)),
            XmlEvent::Eof => SpecXmlEvent::Eof,
            XmlEvent::Error => SpecXmlEvent::Error,
            XmlEvent::Other => SpecXmlEvent::Other,
        }
    }
}

/// The views of a run of events.
pub open spec fn events_view(v: Seq<XmlEvent>) -> Seq<SpecXmlEvent> {
    v.map_values(|e: XmlEvent| e@)
}

/// The end of the input, or an error that stops reading.
pub open spec fn is_terminal(e: SpecXmlEvent) -> bool {
    e is Eof || e is Error
}

/// A run of events that ends with its one and only terminal event.
pub open spec fn well_terminated(s: Seq<SpecXmlEvent>) -> bool {
    &&& s.len() > 0
    &&& is_terminal(s.last())
    &&& forall|i: int| 0 <= i < s.len() - 1 ==> !is_terminal(#[trigger] s[i])
}

#[verifier::external_type_specification]
#[verifier::external_body]
#[verifier::reject_recursive_types(R)]
pub struct ExXmlReader<R>(Reader<R>);

/// The events that quick-xml's reader, with its default configuration (no
/// trimming), reports for the document `xml`, up to and including the first
/// end-of-input or error.
pub uninterp spec fn xml_events_of(xml: Seq<char>) -> Seq<SpecXmlEvent>;

/// The events that a reader still has to hand out, up to and including the
/// first end-of-input or error.
pub uninterp spec fn pending_events(reader: Reader<&[u8]>) -> Seq<SpecXmlEvent>;

/// Calls quick-xml's `Reader::from_str`. Claims: the new reader will hand out exactly `xml_events_of(xml)`, and
/// that run ends with its one end-of-input or error event (quick-xml always
/// stops a finite document with one of the two).
#[verifier::external_body]
fn open_reader<'a>(xml: &'a str) -> (reader: Reader<&'a [u8]>)
    ensures
        pending_events(reader) == xml_events_of(xml@),
        well_terminated(pending_events(reader)),
{
    Reader::from_str(xml)
}

#[verifier::external_type_specification]
#[verifier::external_body]
pub struct ExBytesStart<'a>(BytesStart<'a>);

/// A start tag's local name and attributes as text: calls quick-xml's
/// `BytesStart::local_name` and `BytesStart::attributes`, decoding keys and
/// values lossily and leaving values escaped; an attribute quick-xml cannot
/// read is `None`. Nothing is claimed here: what the tags of a document are
/// is part of `xml_events_of`.
#[verifier::external_body]
fn tag_of(e: &BytesStart) -> (r: XmlTag) {
    let lossy = |b: &[u8]| String::from_utf8_lossy(b).into_owned();
    XmlTag {
        name: lossy(e.local_name().as_ref()),
        attrs: e.attributes().map(|a| a.ok().map(|a| (lossy(a.key.as_ref()), lossy(&a.value)))).collect(),
    }
}

/// Calls quick-xml's `Reader::read_event_into` once and converts the event:
/// a start or empty tag to its local name and attributes (keys and values
/// decoded lossily, values left escaped), an end tag to its local name, text
/// to its `BytesText::decode` result, a reference to its `BytesRef::decode`
/// result. Claims: the event is the first pending
/// one and the reader moves past it.
#[verifier::external_body]
fn next_event(reader: &mut Reader<&[u8]>) -> (e: XmlEvent)
    requires
        pending_events(*old(reader)).len() > 0,
    ensures
        e@ == pending_events(*old(reader))[0],
        pending_events(*final(reader)) == pending_events(*old(reader)).drop_first(),
{
    let mut buf = Vec::new();
    match reader.read_event_into(&mut buf) {
        Ok(Event::Start(e)) => XmlEvent::Start(tag_of(&e)),
        Ok(Event::Empty(e)) => XmlEvent::Empty(tag_of(&e)),
        Ok(Event::End(e)) => XmlEvent::End(String::from_utf8_lossy(e.local_name().as_ref()).into_owned()),
        Ok(Event::Text(t)) => XmlEvent::Text(t.decode().ok().map(|d| d.into_owned())),
        Ok(Event::GeneralRef(r)) => XmlEvent::Ref(r.decode().ok().map(|d| d.into_owned())),
        Ok(Event::Eof) => XmlEvent::Eof,
        Err(_) => XmlEvent::Error,
        Ok(_) => XmlEvent::Other,
    }
}

// ---------------------------------------------------------------------------
// Text runs
// ---------------------------------------------------------------------------
/// XML white space: space, carriage return, line feed and tab.
pub open spec fn is_xml_space(c: char) -> bool {
    c == ' ' || c == '\r' || c == '\n' || c == '\t'
}

pub open spec fn xml_trim_start(s: Seq<char>) -> Seq<char>
    decreases s.len(),
{
    if s.len() > 0 && is_xml_space(s[0]) {
        xml_trim_start(s.drop_first())
    } else {
        s
    }
}

pub open spec fn xml_trim_end(s: Seq<char>) -> Seq<char>
    decreases s.len(),
{
    if s.len() > 0 && is_xml_space(s.last()) {
        xml_trim_end(s.drop_last())
    } else {
        s
    }
}

/// `s` without the XML white space at either end.
pub open spec fn xml_trim(s: Seq<char>) -> Seq<char> {
    xml_trim_end(xml_trim_start(s))
}

fn xml_space(c: char) -> (r: bool)
    ensures
        r == is_xml_space(c),
{
    c == ' ' || c == '\r' || c == '\n' || c == '\t'
}

fn xml_trim_chars(v: &Vec<char>) -> (r: Vec<char>)
    ensures
        r@ == xml_trim(v@),
{
    let ghost s = v@;
    let mut a: usize = 0;
    assert(s.skip(0) =~= s);
    while a < v.len() && xml_space(v[a])
        invariant
            a <= v.len(),
            s == v@,
            xml_trim_start(s) == xml_trim_start(s.skip(a as int)),
        decreases v.len() - a,
    {
        assert(s.skip(a as int)[0] == s[a as int]);
        assert(s.skip(a as int).drop_first() =~= s.skip(a + 1));
        a = a + 1;
    }
    if a < v.len() {
        assert(s.skip(a as int)[0] == s[a as int]);
    } else {
        assert(s.skip(a as int).len() == 0);
    }
    assert(xml_trim_start(s) == s.skip(a as int));
    let ghost t = s.skip(a as int);
    let mut k: usize = v.len() - a;
    assert(t.take(k as int) =~= t);
    while k > 0 && xml_space(v[a + k - 1])
        invariant
            a + k <= v.len(),
            s == v@,
            t == s.skip(a as int),
            xml_trim_end(t) == xml_trim_end(t.take(k as int)),
        decreases k,
    {
        assert(t.take(k as int).last() == s[a + k - 1]);
        assert(t.take(k as int).drop_last() =~= t.take(k - 1));
        k = k - 1;
    }
    if k > 0 {
        assert(t.take(k as int).last() == s[a + k - 1]);
    }
    assert(xml_trim_end(t.take(k as int)) == t.take(k as int));
    assert(t.take(k as int) =~= s.subrange(a as int, (a + k) as int));
    crate::text::copy_range(v, a, a + k)
}

/// What a text or reference event adds to the text around it: the decoded
/// text, or the reference written back as `&name;` (so that unescaping the
/// whole run resolves it); `None` inside when decoding failed. Other events
/// add nothing and end the run.
pub open spec fn text_piece(e: SpecXmlEvent) -> Option<Option<Seq<char>>> {
    match e {
        SpecXmlEvent::Text(d) => Some(d),
        SpecXmlEvent::Ref(n) => Some(
            match n {
                Some(n) => Some("&"@ + n + ";"@),
                None => None,
            },
        ),
        _ => None,
    }
}

pub open spec fn join_pieces(a: Option<Seq<char>>, b: Option<Seq<char>>) -> Option<Seq<char>> {
    match (a, b) {
        (Some(x), Some(y)) => Some(x + y),
        _ => None,
    }
}

/// Ends a text run: its text, trimmed, becomes one text event, unless
/// nothing but white space is left.
pub open spec fn flush_run(out: Seq<SpecXmlEvent>, run: Option<Option<Seq<char>>>) -> Seq<SpecXmlEvent> {
    match run {
        None => out,
        Some(None) => out.push(SpecXmlEvent::Text(None)),
        Some(Some(t)) => if xml_trim(t).len() == 0 {
            out
        } else {
            out.push(SpecXmlEvent::Text(Some(xml_trim(t))))
        },
    }
}

pub open spec fn merge_step(out: Seq<SpecXmlEvent>, run: Option<Option<Seq<char>>>, e: SpecXmlEvent) -> (
    Seq<SpecXmlEvent>,
    Option<Option<Seq<char>>>,
) {
    match text_piece(e) {
        Some(p) => (
            out,
            Some(
                match run {
                    None => p,
                    Some(r) => join_pieces(r, p),
                },
            ),
        ),
        None => (flush_run(out, run).push(e), None),
    }
}

pub open spec fn merge_run(evs: Seq<SpecXmlEvent>, out: Seq<SpecXmlEvent>, run: Option<Option<Seq<char>>>) -> Seq<
    SpecXmlEvent,
>
    decreases evs.len(),
{
    if evs.len() == 0 {
        flush_run(out, run)
    } else {
        let (o, r) = merge_step(out, run, evs[0]);
        merge_run(evs.drop_first(), o, r)
    }
}

/// The events of a document with each run of text and references between
/// two other events joined into one text event, trimmed of XML white space
/// and dropped when nothing else is left: a text node whole, as the parsers
/// read it.
pub open spec fn merged_events(evs: Seq<SpecXmlEvent>) -> Seq<SpecXmlEvent> {
    merge_run(evs, seq![], None)
}

/// The events the BoardGameGeek parsers read for the document `xml`.
pub open spec fn document_events(xml: Seq<char>) -> Seq<SpecXmlEvent> {
    merged_events(xml_events_of(xml))
}

pub open spec fn run_view(run: Option<Option<Vec<char>>>) -> Option<Option<Seq<char>>> {
    match run {
        None => None,
        Some(None) => Some(None),
        Some(Some(v)) => Some(Some(v@)),
    }
}

fn flush_exec(out: &mut Vec<XmlEvent>, run: Option<Option<Vec<char>>>)
    ensures
        events_view(final(out)@) == flush_run(events_view(old(out)@), run_view(run)),
{
    let ghost before = events_view(out@);
    match run {
        None => {},
        Some(None) => {
            out.push(XmlEvent::Text(None));
            assert(events_view(out@) =~= before.push(SpecXmlEvent::Text(None)));
        },
        Some(Some(t)) => {
            let tt = xml_trim_chars(&t);
            if tt.len() > 0 {
                let e = XmlEvent::Text(Some(crate::text::string_of(&tt)));
                let ghost ev = e@;
                out.push(e);
                assert(events_view(out@) =~= before.push(ev));
            }
        },
    }
}

/// Reads every event of `xml`, stopping after the end of the input or the
/// first error, with each run of text and references joined into one text
/// event (see `merged_events`).
pub fn read_document(xml: &str) -> (events: Vec<XmlEvent>)
    ensures
        events_view(events@) == document_events(xml@),
{
    let mut reader = open_reader(xml);
    let mut out: Vec<XmlEvent> = Vec::new();
    let mut run: Option<Option<Vec<char>>> = None;
    let ghost all = xml_events_of(xml@);
    assert(events_view(out@) =~= Seq::<SpecXmlEvent>::empty());
    loop
        invariant
            well_terminated(pending_events(reader)),
            merged_events(all) == merge_run(pending_events(reader), events_view(out@), run_view(run)),
            all == xml_events_of(xml@),
        decreases pending_events(reader).len(),
    {
        let ghost before = pending_events(reader);
        let ghost prev_out = events_view(out@);
        let ghost prev_run = run_view(run);
        let e = next_event(&mut reader);
        let ghost ev = e@;
        assert(before[0] == ev);
        assert(before.drop_first() == pending_events(reader));
        let stop = event_is_terminal(&e);
        match e {
            XmlEvent::Text(d) => {
                let p: Option<Vec<char>> = match d {
                    Some(t) => Some(chars_of(t.as_str())),
                    None => None,
                };
                assert(run_view(Some(p)) == Some(text_piece(ev)->0));
                run = match run {
                    None => Some(p),
                    Some(r) => match (r, p) {
                        (Some(mut x), Some(y)) => {
                            crate::text::push_all(&mut x, &y);
                            Some(Some(x))
                        },
                        _ => Some(None),
                    },
                };
            },
            XmlEvent::Ref(n) => {
                let p: Option<Vec<char>> = match n {
                    Some(t) => {
                        let mut v: Vec<char> = Vec::new();
                        v.push('&');
                        crate::text::push_str(&mut v, t.as_str());
                        v.push(';');
                        proof {
                            reveal_strlit("&");
                            reveal_strlit(";");
                        }
                        assert(v@ =~= "&"@ + t@ + ";"@);
                        Some(v)
                    },
                    None => None,
                };
                run = match run {
                    None => Some(p),
                    Some(r) => match (r, p) {
                        (Some(mut x), Some(y)) => {
                            crate::text::push_all(&mut x, &y);
                            Some(Some(x))
                        },
                        _ => Some(None),
                    },
                };
            },
            other => {
                let r = run;
                run = None;
                flush_exec(&mut out, r);
                let ghost flushed = events_view(out@);
                out.push(other);
                assert(events_view(out@) =~= flushed.push(ev));
            },
        }
        assert(merge_step(prev_out, prev_run, ev) == (events_view(out@), run_view(run)));
        if stop {
            assert(pending_events(reader).len() == 0) by {
                if pending_events(reader).len() > 0 {
                    assert(!is_terminal(before[0]));
                }
            }
            assert(text_piece(ev) is None);
            assert(run_view(run) is None);
            assert(merge_run(pending_events(reader), events_view(out@), run_view(run)) == events_view(out@));
            return out;
        }
        assert(well_terminated(pending_events(reader))) by {
            if pending_events(reader).len() == 0 {
                assert(before.len() == 1);
                assert(is_terminal(before.last()));
            }
            let p = pending_events(reader);
            assert forall|i: int| 0 <= i < p.len() - 1 implies !is_terminal(#[trigger] p[i]) by {
                assert(p[i] == before[i + 1]);
            }
            assert(p.last() == before.last());
        }
    }
}

/// The value of the first well-formed attribute named `key`, as quick-xml's
/// `attributes().flatten().find(..)` picks it.
pub open spec fn spec_attr(attrs: Seq<Option<(Seq<char>, Seq<char>)>>, key: Seq<char>) -> Option<
    Seq<char>,
>
    decreases attrs.len(),
{
    if attrs.len() == 0 {
        None
    } else {
        match attrs[0] {
            Some((k, v)) => if k == key {
                Some(v)
            } else {
                spec_attr(attrs.drop_first(), key)
            },
            None => spec_attr(attrs.drop_first(), key),
        }
    }
}

/// The value of the attribute `key` of `tag`.
pub fn get_attr(tag: &XmlTag, key: &str) -> (r: Option<String>)
    ensures
        opt_view(r) == spec_attr(tag@.attrs, key@),
{
    let mut i: usize = 0;
    let ghost all = tag@.attrs;
    assert(all.skip(0) =~= all);
    while i < tag.attrs.len()
        invariant
            i <= tag.attrs.len(),
            all == tag@.attrs,
            spec_attr(all, key@) == spec_attr(all.skip(i as int), key@),
        decreases tag.attrs.len() - i,
    {
        assert(all.skip(i as int).drop_first() =~= all.skip(i + 1));
        assert(all.skip(i as int)[0] == attr_view(tag.attrs@[i as int]));
        match &tag.attrs[i] {
            Some((k, v)) => {
                if string_is(k, key) {
                    return Some(v.clone());
                }
            },
            None => {},
        }
        i = i + 1;
    }
    None
}

/// Whether the attribute `key` of `tag` is exactly `lit`.
pub fn attr_is(tag: &XmlTag, key: &str, lit: &str) -> (r: bool)
    ensures
        r == (spec_attr(tag@.attrs, key@) == Some(lit@)),
{
    let a = get_attr(tag, key);
    crate::text::opt_string_is(&a, lit)
}

/// What quick-xml's `escape::unescape` makes of `text`: the text with its
/// entity and character references replaced, or `None` when one is malformed.
pub uninterp spec fn xml_unescaped(text: Seq<char>) -> Option<Seq<char>>;

/// Calls quick-xml's `escape::unescape`. Claims: the result is
/// `xml_unescaped(text)`, `None` standing for quick-xml's error.
#[verifier::external_body]
fn unescape_xml(text: &str) -> (r: Option<String>)
    ensures
        opt_view(r) == xml_unescaped(text@),
{
    quick_xml::escape::unescape(text).ok().map(|s| s.into_owned())
}

/// The text of a text event: decoded, then with its XML references replaced.
pub open spec fn spec_decode_text(decoded: Option<Seq<char>>) -> Option<Seq<char>> {
    match decoded {
        Some(d) => xml_unescaped(d),
        None => None,
    }
}

/// Unescapes the decoded text of a text event.
pub fn decode_text(decoded: &Option<String>) -> (r: Option<String>)
    ensures
        opt_view(r) == spec_decode_text(opt_view(*decoded)),
{
    match decoded {
        Some(d) => unescape_xml(d.as_str()),
        None => None,
    }
}

} // verus!

verus! {

/// Feeds `evs` to `step`, starting from `st`, and stops before the first
/// end-of-input or error event.
pub open spec fn fold_events<S>(evs: Seq<SpecXmlEvent>, st: S, step: spec_fn(S, SpecXmlEvent) -> S) -> S
    decreases evs.len(),
{
    if evs.len() == 0 || is_terminal(evs[0]) {
        st
    } else {
        fold_events(evs.drop_first(), step(st, evs[0]), step)
    }
}

pub proof fn lemma_fold_step<S>(evs: Seq<SpecXmlEvent>, i: int, st: S, step: spec_fn(S, SpecXmlEvent) -> S)
    requires
        0 <= i < evs.len(),
    ensures
        is_terminal(evs[i]) ==> fold_events(evs.skip(i), st, step) == st,
        !is_terminal(evs[i]) ==> fold_events(evs.skip(i), st, step) == fold_events(
            evs.skip(i + 1),
            step(st, evs[i]),
            step,
        ),
{
    assert(evs.skip(i).drop_first() =~= evs.skip(i + 1));
    assert(evs.skip(i)[0] == evs[i]);
}

pub proof fn lemma_fold_end<S>(evs: Seq<SpecXmlEvent>, st: S, step: spec_fn(S, SpecXmlEvent) -> S)
    ensures
        fold_events(evs.skip(evs.len() as int), st, step) == st,
        evs.skip(0) == evs,
{
    assert(evs.skip(evs.len() as int) =~= Seq::<SpecXmlEvent>::empty());
    assert(evs.skip(0) =~= evs);
}

/// Whether an event ends the document.
pub fn event_is_terminal(e: &XmlEvent) -> (r: bool)
    ensures
        r == is_terminal(e@),
{
    match e {
        XmlEvent::Eof => true,
        XmlEvent::Error => true,
        _ => false,
    }
}

} // verus!
