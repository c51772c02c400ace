use vstd::prelude::*;

verus! {

/// The relation a link bears to the document that carries it.
#[derive(Clone, Copy, Debug, PartialEq, Eq, Structural)]
pub enum LinkRel {
    Self_,
    Next,
    Alternate,
    Collection,
    Items,
    ServiceDesc,
    ServiceDoc,
    Conformance,
    Data,
}

impl LinkRel {
    /// The relation's wire name, as it appears in serialized link objects.
    pub fn as_str(&self) -> (r: &'static str)
        ensures
            *self == LinkRel::Self_ ==> r@ == "self"@,
            *self == LinkRel::Next ==> r@ == "next"@,
            *self == LinkRel::Alternate ==> r@ == "alternate"@,
            *self == LinkRel::Collection ==> r@ == "collection"@,
            *self == LinkRel::Items ==> r@ == "items"@,
            *self == LinkRel::ServiceDesc ==> r@ == "service-desc"@,
            *self == LinkRel::ServiceDoc ==> r@ == "service-doc"@,
            *self == LinkRel::Conformance ==> r@ == "conformance"@,
            *self == LinkRel::Data ==> r@ == "data"@,
    {
        match self {
            LinkRel::Self_ => "self",
            LinkRel::Next => "next",
            LinkRel::Alternate => "alternate",
            LinkRel::Collection => "collection",
            LinkRel::Items => "items",
            LinkRel::ServiceDesc => "service-desc",
            LinkRel::ServiceDoc => "service-doc",
            LinkRel::Conformance => "conformance",
            LinkRel::Data => "data",
        }
    }
}

/// One hyperlink of a response envelope.
#[derive(Debug)]
pub struct Link {
    pub href: String,
    pub rel: LinkRel,
    pub type_: Option<String>,
    pub title: Option<String>,
}

/// The descriptor of one configured collection, as listed and served.
#[derive(Debug)]
pub struct Collection {
    pub id: String,
    pub title: String,
    pub description: String,
    pub links: Vec<Link>,
}

/// The list of all configured collections.
#[derive(Debug)]
pub struct Collections {
    pub collections: Vec<Collection>,
}

/// The conformance declaration: the conformance class URIs this service
/// implements.
#[derive(Debug)]
pub struct Conformance {
    pub conforms_to: Vec<String>,
}

/// The landing page: service metadata and the links into the API.
#[derive(Debug)]
pub struct LandingPage {
    pub title: String,
    pub description: String,
    pub links: Vec<Link>,
}

} // verus!
