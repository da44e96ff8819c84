//! A route exported as a GPX document.
use vstd::prelude::*;

verus! {

/// A GPX document with the name of the file it is offered under.
pub struct RouteGpx {
    pub name: String,
    pub data: Vec<u8>,
}

impl RouteGpx {
    /// The document `data` offered under `name`.
    pub fn new(name: String, data: Vec<u8>) -> (g: RouteGpx)
        ensures
            g.name@ == name@,
            g.data@ == data@,
    {
        RouteGpx { name, data }
    }

    /// The file name.
    pub fn name(&self) -> (n: &String)
        ensures
            n == &self.name,
    {
        &self.name
    }

    /// The document's bytes.
    pub fn as_slice(&self) -> (b: &[u8])
        ensures
            b@ == self.data@,
    {
        self.data.as_slice()
    }
}

/// What an event read from a GPX document is, for adding the GPX namespaces
/// to it: the start of the `gpx` element, the end of the document, any other
/// event, or a read error.
#[derive(Clone, Copy, Debug, PartialEq, Eq, Structural)]
pub enum XmlEventKind {
    GpxStart,
    Eof,
    Other,
    Invalid,
}

/// What to do with an event: write it with the namespace attributes added,
/// write it as it is, stop with the document done, or stop refused because
/// the document has no `gpx` element or cannot be read.
#[derive(Clone, Copy, Debug, PartialEq, Eq, Structural)]
pub enum RewriteAction {
    WriteWithNamespaces,
    Write,
    Finish,
    MissingGpx,
    InvalidXml,
}

/// The step of the rewrite for an event of kind `ev`, `found` telling
/// whether a `gpx` element was met before: whether one is met now, and what
/// to do with the event.
pub open spec fn rewrite_step(found: bool, ev: XmlEventKind) -> (bool, RewriteAction) {
    match ev {
        XmlEventKind::GpxStart => (true, RewriteAction::WriteWithNamespaces),
        XmlEventKind::Eof => (found, if found { RewriteAction::Finish } else { RewriteAction::MissingGpx }),
        XmlEventKind::Other => (found, RewriteAction::Write),
        XmlEventKind::Invalid => (found, RewriteAction::InvalidXml),
    }
}

/// One step of adding the GPX namespaces to a document (see [`rewrite_step`]).
pub fn gpx_rewrite_step(found: bool, ev: XmlEventKind) -> (r: (bool, RewriteAction))
    ensures
        r == rewrite_step(found, ev),
{
    match ev {
        XmlEventKind::GpxStart => (true, RewriteAction::WriteWithNamespaces),
        XmlEventKind::Eof => (found, if found { RewriteAction::Finish } else { RewriteAction::MissingGpx }),
        XmlEventKind::Other => (found, RewriteAction::Write),
        XmlEventKind::Invalid => (found, RewriteAction::InvalidXml),
    }
}

/// The attributes added to the `gpx` element: the schema location and the
/// GPX 1.1 and XML Schema instance namespaces, in that order.
pub fn gpx_namespace_attributes() -> (r: Vec<(&'static str, &'static str)>)
    ensures
        r@.len() == 3,
        r@[0].0@ == "xsi:schemaLocation"@ && r@[0].1@ == "http://www.topografix.com/GPX/11.xsd"@,
        r@[1].0@ == "xmlns"@ && r@[1].1@ == "http://www.topografix.com/GPX/1/1"@,
        r@[2].0@ == "xmlns:xsi"@ && r@[2].1@ == "http://www.w3.org/2001/XMLSchema-instance"@,
{
    let mut r: Vec<(&'static str, &'static str)> = Vec::new();
    r.push(("xsi:schemaLocation", "http://www.topografix.com/GPX/11.xsd"));
    r.push(("xmlns", "http://www.topografix.com/GPX/1/1"));
    r.push(("xmlns:xsi", "http://www.w3.org/2001/XMLSchema-instance"));
    r
}

} // verus!
