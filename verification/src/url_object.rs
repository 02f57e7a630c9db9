//! A URL taken apart.

use vstd::prelude::*;

verus! {

/// The parts of a parsed URL, each as the parser wrote it.
#[derive(Clone, Debug, PartialEq, Eq)]
pub struct UrlParts {
    /// The whole URL.
    pub href: String,
    pub scheme: String,
    pub username: String,
    pub password: Option<String>,
    pub host: Option<String>,
    /// The port, where one is given that is not the scheme's own.
    pub port: Option<u16>,
    pub path: String,
    pub query: Option<String>,
    pub fragment: Option<String>,
}

/// `UrlParts` with its texts as characters.
pub struct UrlPartsView {
    pub href: Seq<char>,
    pub scheme: Seq<char>,
    pub username: Seq<char>,
    pub password: Option<Seq<char>>,
    pub host: Option<Seq<char>>,
    pub port: Option<u16>,
    pub path: Seq<char>,
    pub query: Option<Seq<char>>,
    pub fragment: Option<Seq<char>>,
}

/// A text that may be missing, as characters.
pub open spec fn text_view(text: Option<String>) -> Option<Seq<char>> {
    match text {
        Some(t) => Some(t@),
        None => None,
    }
}

impl View for UrlParts {
    type V = UrlPartsView;

    open spec fn view(&self) -> UrlPartsView {
        UrlPartsView {
            href: self.href@,
            scheme: self.scheme@,
            username: self.username@,
            password: text_view(self.password),
            host: text_view(self.host),
            port: self.port,
            path: self.path@,
            query: text_view(self.query),
            fragment: text_view(self.fragment),
        }
    }
}

/// The parts of a URL without any part.
pub open spec fn no_parts() -> UrlPartsView {
    UrlPartsView {
        href: Seq::empty(),
        scheme: Seq::empty(),
        username: Seq::empty(),
        password: None,
        host: None,
        port: None,
        path: Seq::empty(),
        query: None,
        fragment: None,
    }
}

/// What a property of a script object holds.
#[derive(Clone, Debug, PartialEq, Eq)]
pub enum PropertyValue {
    Text(String),
    Number(u16),
    /// Nothing: the URL has no such part.
    Missing,
}

/// A `PropertyValue` with its text as characters.
pub enum PropertyView {
    Text(Seq<char>),
    Number(u16),
    Missing,
}

impl View for PropertyValue {
    type V = PropertyView;

    open spec fn view(&self) -> PropertyView {
        match *self {
            PropertyValue::Text(text) => PropertyView::Text(text@),
            PropertyValue::Number(n) => PropertyView::Number(n),
            PropertyValue::Missing => PropertyView::Missing,
        }
    }
}

/// Properties as pairs of a name and what it holds.
pub open spec fn properties_view(properties: Seq<(String, PropertyValue)>) -> Seq<
    (Seq<char>, PropertyView),
> {
    Seq::new(properties.len(), |i: int| (properties[i].0@, properties[i].1@))
}

/// A text that may be missing, as a property.
pub open spec fn text_property(text: Option<Seq<char>>) -> PropertyView {
    match text {
        Some(t) => PropertyView::Text(t),
        None => PropertyView::Missing,
    }
}

/// The properties of the script object of a URL: one for each part, under
/// the part's name, but for the host, which is the `hostname`.
pub open spec fn url_properties(parts: UrlPartsView) -> Seq<(Seq<char>, PropertyView)> {
    seq![
        ("href"@, PropertyView::Text(parts.href)),
        ("scheme"@, PropertyView::Text(parts.scheme)),
        ("username"@, PropertyView::Text(parts.username)),
        ("password"@, text_property(parts.password)),
        ("hostname"@, text_property(parts.host)),
        (
            "port"@,
            match parts.port {
                Some(n) => PropertyView::Number(n),
                None => PropertyView::Missing,
            },
        ),
        ("path"@, PropertyView::Text(parts.path)),
        ("query"@, text_property(parts.query)),
        ("fragment"@, text_property(parts.fragment)),
    ]
}

/// A text that may be missing, as a property.
fn optional(text: &Option<String>) -> (r: PropertyValue)
    ensures
        r@ == text_property(text_view(*text)),
{
    match text {
        Some(t) => PropertyValue::Text(t.clone()),
        None => PropertyValue::Missing,
    }
}

impl UrlParts {
    /// The properties of the script object of this URL, in their order.
    pub fn properties(&self) -> (r: Vec<(String, PropertyValue)>)
        ensures
            properties_view(r@) == url_properties(self@),
    {
        let mut list: Vec<(String, PropertyValue)> = Vec::new();
        list.push(("href".to_owned(), PropertyValue::Text(self.href.clone())));
        list.push(("scheme".to_owned(), PropertyValue::Text(self.scheme.clone())));
        list.push(("username".to_owned(), PropertyValue::Text(self.username.clone())));
        list.push(("password".to_owned(), optional(&self.password)));
        list.push(("hostname".to_owned(), optional(&self.host)));
        list.push(
            (
                "port".to_owned(),
                match self.port {
                    Some(n) => PropertyValue::Number(n),
                    None => PropertyValue::Missing,
                },
            ),
        );
        list.push(("path".to_owned(), PropertyValue::Text(self.path.clone())));
        list.push(("query".to_owned(), optional(&self.query)));
        list.push(("fragment".to_owned(), optional(&self.fragment)));
        assert(properties_view(list@) =~= url_properties(self@));
        list
    }
}

/// The object that a script gets for a URL. It has a value once a parsed
/// URL has been put into it.
#[derive(Clone, Debug, PartialEq, Eq)]
pub struct UrlObject {
    pub parts: UrlParts,
    pub has_value: bool,
}

/// What a script is handed for a `UrlObject`.
#[derive(Clone, Debug, PartialEq, Eq)]
pub enum ScriptValue {
    Object(UrlParts),
    Text(String),
}

impl UrlObject {
    /// An object without a value.
    pub fn new() -> (r: UrlObject)
        ensures
            !r.has_value,
            r.parts@ == no_parts(),
    {
        UrlObject {
            parts: UrlParts {
                href: String::new(),
                scheme: String::new(),
                username: String::new(),
                password: None,
                host: None,
                port: None,
                path: String::new(),
                query: None,
                fragment: None,
            },
            has_value: false,
        }
    }

    /// The object of a parsed URL.
    pub fn of(parts: UrlParts) -> (r: UrlObject)
        ensures
            r.has_value,
            r.parts == parts,
    {
        UrlObject { parts, has_value: true }
    }

    /// The object as a script value: its parts where it has a value, and
    /// the empty text where it has none.
    pub fn into_value(self) -> (r: ScriptValue)
        ensures
            match r {
                ScriptValue::Object(parts) => self.has_value && parts == self.parts,
                ScriptValue::Text(text) => !self.has_value && text@ == Seq::<char>::empty(),
            },
    {
        if self.has_value {
            ScriptValue::Object(self.parts)
        } else {
            ScriptValue::Text(String::new())
        }
    }
}

} // verus!
