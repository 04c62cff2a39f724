//! The instrumentation scope: where a meter comes from.

use vstd::prelude::*;

verus! {

/// A key and a value that describe an instrumentation scope.
#[derive(Clone, Debug, PartialEq, Eq)]
pub struct KeyValue {
    key: String,
    value: String,
}

impl View for KeyValue {
    type V = (Seq<char>, Seq<char>);

    closed spec fn view(&self) -> (Seq<char>, Seq<char>) {
        (self.key@, self.value@)
    }
}

impl KeyValue {
    /// Pairs `key` with `value`.
    pub fn new(key: &str, value: &str) -> (kv: KeyValue)
        ensures
            kv@ == (key@, value@),
    {
        KeyValue { key: key.to_owned(), value: value.to_owned() }
    }

    pub fn key(&self) -> (k: &str)
        ensures
            k@ == self@.0,
    {
        self.key.as_str()
    }

    pub fn value(&self) -> (v: &str)
        ensures
            v@ == self@.1,
    {
        self.value.as_str()
    }
}

/// An instrumentation scope as a mathematical value.
pub struct ScopeView {
    pub name: Seq<char>,
    pub version: Option<Seq<char>>,
    pub schema_url: Option<Seq<char>>,
    pub attributes: Seq<(Seq<char>, Seq<char>)>,
}

impl ScopeView {
    /// The scope that carries a name and nothing else.
    pub open spec fn named(name: Seq<char>) -> ScopeView {
        ScopeView { name, version: None, schema_url: None, attributes: Seq::empty() }
    }
}

/// The views of a list of attributes, in order.
pub open spec fn attribute_views(attributes: Seq<KeyValue>) -> Seq<(Seq<char>, Seq<char>)> {
    Seq::new(attributes.len(), |i: int| attributes[i]@)
}

/// The view of an optional string.
pub open spec fn text_view(text: Option<String>) -> Option<Seq<char>> {
    match text {
        Some(s) => Some(s@),
        None => None,
    }
}

/// The logical origin of a meter: a name, and optionally a version, a schema
/// URL and attributes. Immutable once built.
#[derive(Clone, Debug, PartialEq, Eq)]
pub struct InstrumentationScope {
    name: String,
    version: Option<String>,
    schema_url: Option<String>,
    attributes: Vec<KeyValue>,
}

impl View for InstrumentationScope {
    type V = ScopeView;

    closed spec fn view(&self) -> ScopeView {
        ScopeView {
            name: self.name@,
            version: text_view(self.version),
            schema_url: text_view(self.schema_url),
            attributes: attribute_views(self.attributes@),
        }
    }
}

impl InstrumentationScope {
    /// Starts a scope with the given name and nothing else.
    pub fn builder(name: &str) -> (b: InstrumentationScopeBuilder)
        ensures
            b@ == ScopeView::named(name@),
    {
        let b = InstrumentationScopeBuilder {
            name: name.to_owned(),
            version: None,
            schema_url: None,
            attributes: Vec::new(),
        };
        assert(b@.attributes =~= Seq::empty());
        b
    }

    pub fn name(&self) -> (n: &str)
        ensures
            n@ == self@.name,
    {
        self.name.as_str()
    }

    pub fn version(&self) -> (v: Option<&str>)
        ensures
            v is Some == self@.version is Some,
            v is Some ==> v->0@ == self@.version->0,
    {
        match &self.version {
            Some(s) => Some(s.as_str()),
            None => None,
        }
    }

    pub fn schema_url(&self) -> (u: Option<&str>)
        ensures
            u is Some == self@.schema_url is Some,
            u is Some ==> u->0@ == self@.schema_url->0,
    {
        match &self.schema_url {
            Some(s) => Some(s.as_str()),
            None => None,
        }
    }

    pub fn attributes(&self) -> (a: &Vec<KeyValue>)
        ensures
            attribute_views(a@) == self@.attributes,
    {
        &self.attributes
    }
}

/// Collects the parts of an [`InstrumentationScope`].
#[derive(Debug)]
pub struct InstrumentationScopeBuilder {
    name: String,
    version: Option<String>,
    schema_url: Option<String>,
    attributes: Vec<KeyValue>,
}

impl View for InstrumentationScopeBuilder {
    type V = ScopeView;

    closed spec fn view(&self) -> ScopeView {
        ScopeView {
            name: self.name@,
            version: text_view(self.version),
            schema_url: text_view(self.schema_url),
            attributes: attribute_views(self.attributes@),
        }
    }
}

impl InstrumentationScopeBuilder {
    /// Sets the version, replacing an earlier one.
    pub fn with_version(self, version: &str) -> (b: InstrumentationScopeBuilder)
        ensures
            b@ == (ScopeView { version: Some(version@), ..self@ }),
    {
        InstrumentationScopeBuilder {
            name: self.name,
            version: Some(version.to_owned()),
            schema_url: self.schema_url,
            attributes: self.attributes,
        }
    }

    /// Sets the schema URL, replacing an earlier one.
    pub fn with_schema_url(self, schema_url: &str) -> (b: InstrumentationScopeBuilder)
        ensures
            b@ == (ScopeView { schema_url: Some(schema_url@), ..self@ }),
    {
        InstrumentationScopeBuilder {
            name: self.name,
            version: self.version,
            schema_url: Some(schema_url.to_owned()),
            attributes: self.attributes,
        }
    }

    /// Sets the attributes, replacing earlier ones.
    pub fn with_attributes(self, attributes: Vec<KeyValue>) -> (b: InstrumentationScopeBuilder)
        ensures
            b@ == (ScopeView { attributes: attribute_views(attributes@), ..self@ }),
    {
        InstrumentationScopeBuilder {
            name: self.name,
            version: self.version,
            schema_url: self.schema_url,
            attributes,
        }
    }

    /// The scope with the parts collected so far.
    pub fn build(self) -> (scope: InstrumentationScope)
        ensures
            scope@ == self@,
    {
        InstrumentationScope {
            name: self.name,
            version: self.version,
            schema_url: self.schema_url,
            attributes: self.attributes,
        }
    }
}

} // verus!
