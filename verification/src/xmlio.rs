//! The markup substrate: reading markup text into events and writing events
//! back out, through the `xml` crate.
//!
//! The library's own logic never looks inside the substrate: it works on
//! [`MarkupEvent`] values, which these items produce and consume.

use crate::model::{EventModel, MarkupAttribute, MarkupEvent, MarkupName, MarkupVersion};
use vstd::prelude::*;

verus! {

#[verifier::external_type_specification]
#[verifier::external_body]
pub struct ExXmlEvent(xml::reader::XmlEvent);

#[verifier::external_type_specification]
#[verifier::external_body]
pub struct ExOwnedName(xml::name::OwnedName);

#[verifier::external_type_specification]
#[verifier::external_body]
pub struct ExOwnedAttribute(xml::attribute::OwnedAttribute);

#[verifier::external_type_specification]
#[verifier::external_body]
pub struct ExNamespace(xml::namespace::Namespace);

#[verifier::external_type_specification]
#[verifier::external_body]
pub struct ExXmlVersion(xml::common::XmlVersion);

#[verifier::external_type_specification]
#[verifier::external_body]
#[verifier::reject_recursive_types(T)]
pub struct ExCursor<T>(std::io::Cursor<T>);

#[verifier::external_type_specification]
#[verifier::external_body]
#[verifier::reject_recursive_types(W)]
pub struct ExEventWriter<W>(xml::writer::EventWriter<W>);

/// The event sequence that the markup reader yields for the text, or nothing
/// when the text is not well-formed markup.
pub uninterp spec fn xml_events_of(s: Seq<char>) -> Option<Seq<EventModel>>;

/// The events written so far into a markup writer.
pub uninterp spec fn writer_doc(w: xml::writer::EventWriter<std::io::Cursor<Vec<u8>>>) -> Seq<
    EventModel,
>;

/// The markup text that the writer emits for an event sequence.
pub uninterp spec fn markup_text_of(events: Seq<EventModel>) -> Seq<char>;

/// Whether the writer accepts one more event after the given ones: the
/// emitter rejects, for example, a closing tag that does not match the open
/// element, and its verdict depends on the events already written and the
/// event alone.
pub uninterp spec fn writer_accepts(doc: Seq<EventModel>, e: EventModel) -> bool;

/// Relies on xml::common::XmlVersion: the declaration version is 1.0 or 1.1.
#[verifier::external_body]
fn version_of_xml(v: xml::common::XmlVersion) -> MarkupVersion {
    match v {
        xml::common::XmlVersion::Version10 => MarkupVersion::V10,
        xml::common::XmlVersion::Version11 => MarkupVersion::V11,
    }
}

/// Relies on xml::name::OwnedName: its fields are the name's prefix,
/// namespace and local part.
#[verifier::external_body]
fn name_of_xml(n: &xml::name::OwnedName) -> MarkupName {
    MarkupName { prefix: n.prefix.clone(), namespace: n.namespace.clone(), local: n.local_name.clone() }
}

/// Relies on xml::attribute::OwnedAttribute: its fields are the attribute's
/// name and value.
#[verifier::external_body]
fn attr_of_xml(a: &xml::attribute::OwnedAttribute) -> MarkupAttribute {
    MarkupAttribute { name: name_of_xml(&a.name), value: a.value.clone() }
}

/// Relies on xml::namespace::Namespace: it maps prefixes to namespaces,
/// ordered by prefix.
#[verifier::external_body]
fn bindings_of_xml(ns: &xml::namespace::Namespace) -> Vec<(String, String)> {
    ns.0.iter().map(|p| (p.0.clone(), p.1.clone())).collect()
}

/// Relies on xml::reader::XmlEvent: an element opening is carried over with
/// its name, attributes and namespace bindings.
#[verifier::external_body]
fn start_element_of_xml(
    name: &xml::name::OwnedName,
    attributes: &Vec<xml::attribute::OwnedAttribute>,
    namespace: &xml::namespace::Namespace,
) -> MarkupEvent {
    MarkupEvent::StartElement {
        name: name_of_xml(name),
        attributes: attributes.iter().map(attr_of_xml).collect(),
        namespace_bindings: bindings_of_xml(namespace),
    }
}

/// Relies on xml::reader::XmlEvent: the textual variants are carried over
/// one for one.
#[verifier::external_body]
fn text_event_of_xml(e: &xml::reader::XmlEvent) -> MarkupEvent {
    match e {
        xml::reader::XmlEvent::CData(s) => MarkupEvent::CData(s.clone()),
        xml::reader::XmlEvent::Comment(s) => MarkupEvent::Comment(s.clone()),
        xml::reader::XmlEvent::Whitespace(s) => MarkupEvent::Whitespace(s.clone()),
        _ => MarkupEvent::EndDocument,
    }
}

/// Relies on xml::reader::XmlEvent: each variant is carried over one for one.
#[verifier::external_body]
fn markup_event_of_xml(e: &xml::reader::XmlEvent) -> MarkupEvent {
    match e {
        xml::reader::XmlEvent::StartDocument { version, encoding, standalone } => MarkupEvent::StartDocument { version: version_of_xml(*version), encoding: encoding.clone(), standalone: *standalone },
        xml::reader::XmlEvent::EndDocument => MarkupEvent::EndDocument,
        xml::reader::XmlEvent::ProcessingInstruction { name, data } => MarkupEvent::ProcessingInstruction { name: name.clone(), data: data.clone() },
        xml::reader::XmlEvent::StartElement { name, attributes, namespace } => start_element_of_xml(name, attributes, namespace),
        xml::reader::XmlEvent::EndElement { name } => MarkupEvent::EndElement { name: name_of_xml(name) },
        xml::reader::XmlEvent::Characters(s) => MarkupEvent::Characters(s.clone()),
        _ => text_event_of_xml(e),
    }
}

/// Relies on xml::reader::EventReader: it yields the document's events in
/// order, or an error on text that is not well-formed markup.
#[verifier::external_body]
pub(crate) fn read_markup_events(s: &str) -> (r: Option<Vec<MarkupEvent>>)
    ensures
        r.deep_view() == xml_events_of(s@),
{
    let reader = xml::reader::EventReader::new(s.as_bytes());
    let mut out: Vec<MarkupEvent> = Vec::new();
    for item in reader {
        match item {
            Ok(e) => out.push(markup_event_of_xml(&e)),
            Err(_) => return None,
        }
    }
    Some(out)
}

/// Relies on xml::common::XmlVersion: the declaration version is 1.0 or 1.1.
#[verifier::external_body]
fn xml_version_of(v: MarkupVersion) -> xml::common::XmlVersion {
    match v {
        MarkupVersion::V10 => xml::common::XmlVersion::Version10,
        MarkupVersion::V11 => xml::common::XmlVersion::Version11,
    }
}

/// Relies on xml::name::OwnedName: built back from prefix, namespace and
/// local part.
#[verifier::external_body]
fn xml_name_of(n: &MarkupName) -> xml::name::OwnedName {
    xml::name::OwnedName { local_name: n.local.clone(), namespace: n.namespace.clone(), prefix: n.prefix.clone() }
}

/// Relies on xml::attribute::OwnedAttribute: built back from name and value.
#[verifier::external_body]
fn xml_attr_of(a: &MarkupAttribute) -> xml::attribute::OwnedAttribute {
    xml::attribute::OwnedAttribute { name: xml_name_of(&a.name), value: a.value.clone() }
}

/// Relies on xml::namespace::Namespace: built back from the binding list.
#[verifier::external_body]
fn xml_namespace_of(b: &Vec<(String, String)>) -> xml::namespace::Namespace {
    xml::namespace::Namespace(b.iter().cloned().collect())
}

/// Relies on xml::reader::XmlEvent: an element opening is built back from
/// its name, attributes and namespace bindings.
#[verifier::external_body]
fn xml_start_element_of(
    name: &MarkupName,
    attributes: &Vec<MarkupAttribute>,
    namespace_bindings: &Vec<(String, String)>,
) -> xml::reader::XmlEvent {
    xml::reader::XmlEvent::StartElement {
        name: xml_name_of(name),
        attributes: attributes.iter().map(xml_attr_of).collect(),
        namespace: xml_namespace_of(namespace_bindings),
    }
}

/// Relies on xml::reader::XmlEvent: the textual variants are built back one
/// for one.
#[verifier::external_body]
fn xml_text_event_of(e: &MarkupEvent) -> xml::reader::XmlEvent {
    match e {
        MarkupEvent::CData(s) => xml::reader::XmlEvent::CData(s.clone()),
        MarkupEvent::Comment(s) => xml::reader::XmlEvent::Comment(s.clone()),
        MarkupEvent::Whitespace(s) => xml::reader::XmlEvent::Whitespace(s.clone()),
        _ => xml::reader::XmlEvent::EndDocument,
    }
}

/// Relies on xml::reader::XmlEvent: each variant is carried back one for one.
#[verifier::external_body]
fn xml_event_of(e: &MarkupEvent) -> xml::reader::XmlEvent {
    match e {
        MarkupEvent::StartDocument { version, encoding, standalone } => xml::reader::XmlEvent::StartDocument { version: xml_version_of(*version), encoding: encoding.clone(), standalone: *standalone },
        MarkupEvent::EndDocument => xml::reader::XmlEvent::EndDocument,
        MarkupEvent::ProcessingInstruction { name, data } => xml::reader::XmlEvent::ProcessingInstruction { name: name.clone(), data: data.clone() },
        MarkupEvent::StartElement { name, attributes, namespace_bindings } => xml_start_element_of(name, attributes, namespace_bindings),
        MarkupEvent::EndElement { name } => xml::reader::XmlEvent::EndElement { name: xml_name_of(name) },
        MarkupEvent::Characters(s) => xml::reader::XmlEvent::Characters(s.clone()),
        _ => xml_text_event_of(e),
    }
}

/// Relies on xml::EmitterConfig::create_writer: a fresh writer has emitted
/// nothing yet.  Indentation is off and self-closing tags are not padded.
#[verifier::external_body]
pub(crate) fn new_markup_writer() -> (w: xml::writer::EventWriter<std::io::Cursor<Vec<u8>>>)
    ensures
        writer_doc(w) == Seq::<EventModel>::empty(),
{
    xml::EmitterConfig::new().perform_indent(false).pad_self_closing(false).create_writer(
        std::io::Cursor::new(Vec::new()),
    )
}

/// Relies on xml::writer::EventWriter::write and
/// xml::reader::XmlEvent::as_writer_event: the event is accepted or rejected
/// as a function of what was already written; on success it is appended to
/// what the writer has emitted; the end-of-document event has no writer form
/// and leaves the output unchanged.
#[verifier::external_body]
pub(crate) fn write_markup_event(
    w: &mut xml::writer::EventWriter<std::io::Cursor<Vec<u8>>>,
    e: &MarkupEvent,
) -> (ok: bool)
    ensures
        ok == writer_accepts(writer_doc(*old(w)), e.deep_view()),
        ok && !(e.deep_view() is EndDocument) ==> writer_doc(*final (w)) == writer_doc(
            *old(w),
        ).push(e.deep_view()),
        ok && (e.deep_view() is EndDocument) ==> writer_doc(*final (w)) == writer_doc(*old(w)),
{
    let re = xml_event_of(e);
    match re.as_writer_event() {
        Some(we) => w.write(we).is_ok(),
        None => true,
    }
}

/// Relies on xml::writer::EventWriter::into_inner: the bytes written are the
/// markup text of the events emitted; the emitter writes text, so they are
/// always a valid encoding.
#[verifier::external_body]
pub(crate) fn markup_writer_text(w: xml::writer::EventWriter<std::io::Cursor<Vec<u8>>>) -> (r:
    String)
    ensures
        r@ == markup_text_of(writer_doc(w)),
{
    String::from_utf8_lossy(&w.into_inner().into_inner()).into_owned()
}

} // verus!
