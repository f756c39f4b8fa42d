//! The events of an XML document as plain values.
//!
//! A document is held as the list of its events in document order and the
//! way the list ends: at the end of the input, or at the first fault of
//! the reader. Everything the package and container readers decide is
//! decided on these values.

use vstd::prelude::*;

use crate::text::{bytes_are, bytes_opt, chars_opt, copy_bytes, utf8};

verus! {

/// `std::io::ErrorKind`, the kind of a failure of a byte source. The
/// library hands it on and never looks into it.
#[verifier::external_type_specification]
#[verifier::external_body]
pub struct ExErrorKind(std::io::ErrorKind);

/// The kinds of event the readers tell apart. Comments, declarations,
/// processing instructions, document types and character data sections
/// are all `Other`.
#[derive(Clone, Copy, Debug, PartialEq, Eq, Structural)]
pub enum XmlKind {
    Start,
    End,
    Empty,
    Text,
    Other,
}

/// How reading a document stopped short of its end.
#[derive(Clone, Copy, Debug)]
pub enum XmlFault {
    /// The byte source failed.
    Io(std::io::ErrorKind),
    /// The input is not well-formed XML.
    Malformed,
}

/// One attribute of a tag.
#[derive(Clone, Debug)]
pub struct XmlAttribute {
    /// The qualified name as written, prefix included.
    pub name: Vec<u8>,
    /// The name without its prefix.
    pub local_name: Vec<u8>,
    /// The namespace the prefix is bound to, if it is bound to one.
    pub namespace: Option<Vec<u8>>,
    /// The value as written between the quotes.
    pub raw: Vec<u8>,
    /// The value decoded and with its entities resolved, or `None` where
    /// it cannot be.
    pub value: Option<String>,
}

/// What an [`XmlAttribute`] is.
pub struct AttributeModel {
    pub name: Seq<u8>,
    pub local_name: Seq<u8>,
    pub namespace: Option<Seq<u8>>,
    pub raw: Seq<u8>,
    pub value: Option<Seq<char>>,
}

impl View for XmlAttribute {
    type V = AttributeModel;

    open spec fn view(&self) -> AttributeModel {
        AttributeModel {
            name: self.name@,
            local_name: self.local_name@,
            namespace: bytes_opt(self.namespace),
            raw: self.raw@,
            value: chars_opt(self.value),
        }
    }
}

impl DeepView for XmlAttribute {
    type V = AttributeModel;

    open spec fn deep_view(&self) -> AttributeModel {
        self@
    }
}

/// One event of a document.
#[derive(Clone, Debug)]
pub struct XmlEvent {
    pub kind: XmlKind,
    /// The namespace of the element of a tag, if its name is bound to one.
    pub namespace: Option<Vec<u8>>,
    /// The element name of a tag without its prefix; empty for other events.
    pub local_name: Vec<u8>,
    /// The attributes of a start or empty tag in the order written. A
    /// `None` stands where the tag's text could not be read as an
    /// attribute.
    pub attributes: Vec<Option<XmlAttribute>>,
    /// The same attributes read with the check that no name occurs twice:
    /// a `None` stands for a repeated name as well.
    pub unique: Vec<Option<XmlAttribute>>,
    /// The content of a text event, decoded and with its entities
    /// resolved, or `None` where it cannot be.
    pub text: Option<String>,
}

/// What an [`XmlEvent`] is.
pub struct EventModel {
    pub kind: XmlKind,
    pub namespace: Option<Seq<u8>>,
    pub local_name: Seq<u8>,
    pub attributes: Seq<Option<AttributeModel>>,
    pub unique: Seq<Option<AttributeModel>>,
    pub text: Option<Seq<char>>,
}

impl View for XmlEvent {
    type V = EventModel;

    open spec fn view(&self) -> EventModel {
        EventModel {
            kind: self.kind,
            namespace: bytes_opt(self.namespace),
            local_name: self.local_name@,
            attributes: self.attributes.deep_view(),
            unique: self.unique.deep_view(),
            text: chars_opt(self.text),
        }
    }
}

impl DeepView for XmlEvent {
    type V = EventModel;

    open spec fn deep_view(&self) -> EventModel {
        self@
    }
}

/// A document read to its end or to its first fault.
#[derive(Debug)]
pub struct XmlDocument {
    pub events: Vec<XmlEvent>,
    /// `None` where the reader reached the end of the input after the
    /// last event; otherwise what it reported in place of a further event.
    pub fault: Option<XmlFault>,
}

/// What an [`XmlDocument`] is.
pub struct DocumentModel {
    pub events: Seq<EventModel>,
    pub fault: Option<XmlFault>,
}

impl View for XmlDocument {
    type V = DocumentModel;

    open spec fn view(&self) -> DocumentModel {
        DocumentModel { events: self.events.deep_view(), fault: self.fault }
    }
}

/// The first attribute named `name`, as a lookup that reads the
/// attributes in order sees it: a place that is no attribute ends the
/// lookup in an error when it comes before any attribute of that name.
pub open spec fn find_attribute(
    attributes: Seq<Option<AttributeModel>>,
    name: Seq<u8>,
    from: int,
) -> Result<Option<AttributeModel>, ()>
    decreases attributes.len() - from,
{
    if from < 0 || from >= attributes.len() {
        Ok(None)
    } else {
        match attributes[from] {
            None => Err(()),
            Some(a) => if a.name == name {
                Ok(Some(a))
            } else {
                find_attribute(attributes, name, from + 1)
            },
        }
    }
}

impl EventModel {
    /// The attribute named `name`.
    pub open spec fn attribute(self, name: Seq<u8>) -> Result<Option<AttributeModel>, ()> {
        find_attribute(self.attributes, name, 0)
    }

    /// The value of the attribute named `name` as written.
    pub open spec fn attribute_raw(self, name: Seq<u8>) -> Result<Option<Seq<u8>>, ()> {
        match self.attribute(name) {
            Err(_) => Err(()),
            Ok(None) => Ok(None),
            Ok(Some(a)) => Ok(Some(a.raw)),
        }
    }

    /// The decoded value of the attribute named `name`; an error where
    /// the attribute is there and its value cannot be decoded.
    pub open spec fn attribute_text(self, name: Seq<u8>) -> Result<Option<Seq<char>>, ()> {
        match self.attribute(name) {
            Err(_) => Err(()),
            Ok(None) => Ok(None),
            Ok(Some(a)) => match a.value {
                None => Err(()),
                Some(v) => Ok(Some(v)),
            },
        }
    }

    /// Whether this is an event of kind `kind` for the element `name`.
    pub open spec fn is_tag(self, kind: XmlKind, name: &str) -> bool {
        self.kind == kind && self.local_name == utf8(name)
    }
}

/// The outcome of a lookup of a value as written, taken by its view.
pub open spec fn raw_outcome(r: Result<Option<Vec<u8>>, ()>) -> Result<Option<Seq<u8>>, ()> {
    match r {
        Err(_) => Err(()),
        Ok(v) => Ok(bytes_opt(v)),
    }
}

/// The outcome of a lookup of a decoded value, taken by its view.
pub open spec fn text_outcome(r: Result<Option<String>, ()>) -> Result<Option<Seq<char>>, ()> {
    match r {
        Err(_) => Err(()),
        Ok(v) => Ok(chars_opt(v)),
    }
}

impl XmlEvent {
    /// The place of the first attribute named `name` in `attributes`.
    fn attribute_index(&self, name: &str) -> (r: Result<Option<usize>, ()>)
        ensures
            match r {
                Err(_) => self@.attribute(utf8(name)) is Err,
                Ok(None) => self@.attribute(utf8(name)) == Ok::<Option<AttributeModel>, ()>(None),
                Ok(Some(i)) => i < self.attributes.len() && self.attributes[i as int] is Some
                    && self@.attribute(utf8(name)) == Ok::<Option<AttributeModel>, ()>(
                    Some(self.attributes[i as int]->0@),
                ),
            },
    {
        let ghost attrs = self@.attributes;
        let mut i: usize = 0;
        while i < self.attributes.len()
            invariant
                i <= self.attributes.len(),
                attrs == self.attributes.deep_view(),
                find_attribute(attrs, utf8(name), 0) == find_attribute(attrs, utf8(name), i as int),
            decreases self.attributes.len() - i,
        {
            match &self.attributes[i] {
                None => {
                    return Err(());
                },
                Some(a) => {
                    assert(attrs[i as int] == Some(a@));
                    if bytes_are(a.name.as_slice(), name) {
                        return Ok(Some(i));
                    }
                },
            }
            i += 1;
        }
        Ok(None)
    }

    /// The value, as written, of the attribute named `name`.
    pub fn attribute_raw(&self, name: &str) -> (r: Result<Option<Vec<u8>>, ()>)
        ensures
            raw_outcome(r) == self@.attribute_raw(utf8(name)),
    {
        match self.attribute_index(name) {
            Err(_) => Err(()),
            Ok(None) => Ok(None),
            Ok(Some(i)) => match &self.attributes[i] {
                Some(a) => Ok(Some(copy_bytes(a.raw.as_slice()))),
                None => Err(()),
            },
        }
    }

    /// The decoded value of the attribute named `name`.
    pub fn attribute_text(&self, name: &str) -> (r: Result<Option<String>, ()>)
        ensures
            text_outcome(r) == self@.attribute_text(utf8(name)),
    {
        match self.attribute_index(name) {
            Err(_) => Err(()),
            Ok(None) => Ok(None),
            Ok(Some(i)) => match &self.attributes[i] {
                Some(a) => match &a.value {
                    Some(v) => Ok(Some(v.clone())),
                    None => Err(()),
                },
                None => Err(()),
            },
        }
    }

    /// Whether this is an event of kind `kind` for the element `name`.
    pub fn is_tag(&self, kind: XmlKind, name: &str) -> (r: bool)
        ensures
            r == self@.is_tag(kind, name),
    {
        self.kind == kind && bytes_are(self.local_name.as_slice(), name)
    }
}

} // verus!
