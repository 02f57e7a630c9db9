//! The operations that the module offers to scripts: UUIDs made, read and
//! printed, and URLs taken apart.

use vstd::prelude::*;
use vstd::slice::slice_subrange;
use vstd::utf8::encode_utf8;
use crate::failure::{Domain, Failure};
use crate::ident::{input_bytes, Input, NodeId, Uuid};
use crate::module::{
    all_declared, default_name, exports_view, fields_view, names_of, Binding, BindingView,
    Declarations, Export, ExportView, Exports, Operation,
};
use crate::url_calls::{join, joined_url, parse as parse_url, parsed_url};
use crate::url_object::{UrlObject, UrlParts, UrlPartsView};
use crate::uuid_calls::{
    as_hyphenated, format_hyphenated, from_slice, namespace_dns, namespace_dns_bytes,
    namespace_url, namespace_url_bytes, new_v3, new_v4, new_v5, now_v1, try_parse_ascii,
    v3_bytes, v5_bytes,
};
use crate::uuid_text::{
    canonical_ascii, canonical_text, has_standard_variant, hex_digit, lemma_canonical_parses,
    nibble, parse_ascii, parse_text, version_field, version_number,
};

verus! {

/// The text of the UUID whose bytes are all zero.
pub const NIL: &'static str = "00000000-0000-0000-0000-000000000000";

/// What a `Result` with a text says, the text taken as its characters.
pub open spec fn text_result(r: Result<String, Failure>) -> Result<Seq<char>, Failure> {
    match r {
        Ok(text) => Ok(text@),
        Err(e) => Err(e),
    }
}

/// The failure of every UUID operation: the input is no UUID.
pub open spec fn no_uuid() -> Failure {
    Failure::MalformedInput(Domain::Uuid)
}

/// The UUID in `bytes`: what they spell where they are the bytes of a text,
/// and themselves where they are raw and 16 in number.
pub open spec fn uuid_in(bytes: Seq<u8>, textual: bool) -> Option<Seq<u8>> {
    if textual {
        parse_ascii(bytes)
    } else if bytes.len() == 16 {
        Some(bytes)
    } else {
        None
    }
}

/// The UUID that an input stands for.
pub open spec fn uuid_of_input(value: Input) -> Option<Seq<u8>> {
    uuid_in(input_bytes(value), value is Text)
}

/// `bytes` without its first `offset` bytes; without all of them where
/// there are no more than that.
pub open spec fn skip_offset(bytes: Seq<u8>, offset: Option<u8>) -> Seq<u8> {
    let start = match offset {
        Some(o) => if o as int <= bytes.len() {
            o as int
        } else {
            bytes.len() as int
        },
        None => 0,
    };
    bytes.subrange(start, bytes.len() as int)
}

/// A digest as a UUID of the given version: 16 bytes, the version in its
/// field, the standard variant, and the digest's bits everywhere else.
pub open spec fn stamped(digest: Seq<u8>, version: int) -> Seq<u8> {
    Seq::new(
        16,
        |i: int|
            if i == 6 {
                (version * 16 + digest[6] as int % 16) as u8
            } else if i == 8 {
                (128 + digest[8] as int % 64) as u8
            } else {
                digest[i]
            },
    )
}

/// The version 3 UUID of a name in a namespace.
pub open spec fn v3_uuid(namespace: Seq<u8>, name: Seq<char>) -> Seq<u8> {
    stamped(v3_bytes(namespace, encode_utf8(name)), 3)
}

/// The version 5 UUID of a name in a namespace.
pub open spec fn v5_uuid(namespace: Seq<u8>, name: Seq<char>) -> Seq<u8> {
    stamped(v5_bytes(namespace, encode_utf8(name)), 5)
}

/// What `uuidv3` returns.
pub open spec fn uuidv3_spec(name: Seq<char>, namespace: Input) -> Result<Seq<char>, Failure> {
    match uuid_of_input(namespace) {
        Some(ns) => Ok(canonical_text(v3_uuid(ns, name))),
        None => Err(no_uuid()),
    }
}

/// What `uuidv5` returns.
pub open spec fn uuidv5_spec(name: Seq<char>, namespace: Input) -> Result<Seq<char>, Failure> {
    match uuid_of_input(namespace) {
        Some(ns) => Ok(canonical_text(v5_uuid(ns, name))),
        None => Err(no_uuid()),
    }
}

/// What `stringify` returns.
pub open spec fn stringify_spec(value: Input, offset: Option<u8>) -> Result<Seq<char>, Failure> {
    match uuid_in(skip_offset(input_bytes(value), offset), value is Text) {
        Some(id) => Ok(canonical_text(id)),
        None => Err(no_uuid()),
    }
}

/// What `validate` returns.
pub open spec fn is_uuid(text: Seq<char>) -> bool {
    parse_text(text) is Some
}

/// What `version` returns.
pub open spec fn version_spec(text: Seq<char>) -> Result<u8, Failure> {
    match parse_text(text) {
        Some(id) => Ok(version_number(id)),
        None => Err(no_uuid()),
    }
}

/// Whether `text` is the canonical form of a UUID of the given version
/// and of the standard variant.
pub open spec fn is_generated(text: Seq<char>, version: int) -> bool {
    match parse_text(text) {
        Some(id) => text == canonical_text(id) && version_field(id) == version
            && has_standard_variant(id),
        None => false,
    }
}

/// The node of a time-based UUID in its text: the last six bytes.
pub open spec fn node_of(text: Seq<char>) -> Seq<u8> {
    match parse_text(text) {
        Some(id) => id.subrange(10, 16),
        None => Seq::empty(),
    }
}

/// The twelve digits that a node prints as.
pub open spec fn node_digits(node: Seq<u8>) -> Seq<char> {
    Seq::new(12, |i: int| hex_digit(nibble(node, i)) as char)
}

/// The sixteen zero bytes of the nil UUID.
pub open spec fn nil_bytes() -> Seq<u8> {
    Seq::new(16, |i: int| 0u8)
}

/// `NIL` is the canonical form of the nil UUID: it is valid, and its
/// version is 0.
pub proof fn lemma_nil()
    ensures
        NIL@ == canonical_text(nil_bytes()),
        is_uuid(NIL@),
        version_spec(NIL@) == Ok::<u8, Failure>(0u8),
{
    reveal_strlit("00000000-0000-0000-0000-000000000000");
    lemma_canonical_parses(nil_bytes());
}

/// The last twelve digits of a canonical form spell the last six bytes.
pub proof fn lemma_node_digits(id: Seq<u8>)
    requires
        id.len() == 16,
    ensures
        canonical_text(id).subrange(24, 36) == node_digits(id.subrange(10, 16)),
{
    let node = id.subrange(10, 16);
    assert forall|i: int| 0 <= i < 12 implies canonical_text(id)[24 + i] == node_digits(node)[i] by {}
}

/// A UUID that has the version and the standard variant is its own digest,
/// stamped.
pub proof fn lemma_stamped_fixed(id: Seq<u8>, version: int)
    requires
        id.len() == 16,
        version_field(id) == version,
        has_standard_variant(id),
    ensures
        stamped(id, version) == id,
{
}

/// What `stamped` gives has the version and the standard variant.
pub proof fn lemma_stamped_version(digest: Seq<u8>, version: int)
    requires
        0 <= version < 16,
    ensures
        stamped(digest, version).len() == 16,
        version_field(stamped(digest, version)) == version,
        has_standard_variant(stamped(digest, version)),
{
}

/// Reads the UUID in `bytes`, the bytes of a text or raw ones.
fn read_uuid(bytes: &[u8], textual: bool) -> (r: Result<Uuid, Failure>)
    ensures
        match r {
            Ok(id) => uuid_in(bytes@, textual) == Some(id@),
            Err(e) => e == no_uuid() && uuid_in(bytes@, textual) is None,
        },
{
    let read = if textual {
        try_parse_ascii(bytes)
    } else {
        from_slice(bytes)
    };
    match read {
        Ok(bytes) => Ok(Uuid { bytes }),
        Err(_) => Err(Failure::MalformedInput(Domain::Uuid)),
    }
}

/// The bytes of an input: those of a buffer, or the UTF-8 bytes of a text.
fn bytes_of(value: &Input) -> (r: &[u8])
    ensures
        r@ == input_bytes(*value),
{
    match value {
        Input::Text(text) => text.as_str().as_bytes(),
        Input::Bytes(bytes) => bytes.as_slice(),
    }
}

/// Whether an input is a text.
fn is_text(value: &Input) -> (r: bool)
    ensures
        r == (*value is Text),
{
    match value {
        Input::Text(_) => true,
        Input::Bytes(_) => false,
    }
}

/// Reads a UUID from a text in any of the accepted shapes, or from 16 raw
/// bytes.
pub fn from_value(value: &Input) -> (r: Result<Uuid, Failure>)
    ensures
        match r {
            Ok(id) => uuid_of_input(*value) == Some(id@),
            Err(e) => e == no_uuid() && uuid_of_input(*value) is None,
        },
{
    read_uuid(bytes_of(value), is_text(value))
}

/// A new time-based UUID, in canonical form. Its time and its counter are
/// the machine's; its node is the one given, and the last twelve digits
/// spell it. The clock must not read a time before 1970, and the system
/// must have a source of random bits.
pub fn uuidv1(node_id: &NodeId) -> (r: String)
    ensures
        is_generated(r@, 1),
        node_of(r@) == node_id@,
        r@.subrange(24, 36) == node_digits(node_id@),
{
    let id = Uuid { bytes: now_v1(&node_id.bytes) };
    proof {
        lemma_canonical_parses(id@);
        lemma_node_digits(id@);
    }
    id.hyphenated()
}

/// The version 3 UUID of `name` in `namespace`, in canonical form.
pub fn uuidv3(name: &str, namespace: &Input) -> (r: Result<String, Failure>)
    ensures
        text_result(r) == uuidv3_spec(name@, *namespace),
{
    let ns = from_value(namespace)?;
    let id = Uuid { bytes: new_v3(&ns.bytes, name.as_bytes()) };
    proof {
        lemma_stamped_fixed(id@, 3);
    }
    Ok(id.hyphenated())
}

/// The version 5 UUID of `name` in `namespace`, in canonical form.
pub fn uuidv5(name: &str, namespace: &Input) -> (r: Result<String, Failure>)
    ensures
        text_result(r) == uuidv5_spec(name@, *namespace),
{
    let ns = from_value(namespace)?;
    let id = Uuid { bytes: new_v5(&ns.bytes, name.as_bytes()) };
    proof {
        lemma_stamped_fixed(id@, 5);
    }
    Ok(id.hyphenated())
}

/// A new random UUID, in canonical form. The system must have a source of
/// random bits.
pub fn uuidv4() -> (r: String)
    ensures
        is_generated(r@, 4),
{
    let id = Uuid { bytes: new_v4() };
    proof {
        lemma_canonical_parses(id@);
    }
    id.hyphenated()
}

/// The canonical form of the UUID in `value`, read behind the first `offset`
/// bytes where an offset is given: a text is parsed, and raw bytes are a
/// UUID where there are 16 of them.
pub fn stringify(value: &Input, offset: Option<u8>) -> (r: Result<String, Failure>)
    ensures
        text_result(r) == stringify_spec(*value, offset),
{
    let bytes = bytes_of(value);
    let start = match offset {
        Some(o) => if (o as usize) <= bytes.len() {
            o as usize
        } else {
            bytes.len()
        },
        None => 0,
    };
    let id = read_uuid(slice_subrange(bytes, start, bytes.len()), is_text(value))?;
    Ok(as_hyphenated(&id.bytes))
}

/// The canonical form of the UUID in `value`: `stringify` without an
/// offset.
pub fn parse(value: &Input) -> (r: Result<String, Failure>)
    ensures
        text_result(r) == stringify_spec(*value, None),
{
    stringify(value, None)
}

/// Whether `text` spells a UUID.
pub fn validate(text: &str) -> (r: bool)
    ensures
        r == is_uuid(text@),
{
    read_uuid(text.as_bytes(), true).is_ok()
}

/// The version of the UUID that `text` spells, 0 where it has no known one.
pub fn version(text: &str) -> (r: Result<u8, Failure>)
    ensures
        r == version_spec(text@),
{
    let id = read_uuid(text.as_bytes(), true)?;
    Ok(id.version())
}

/// The failure of every URL operation: the input is no URL.
pub open spec fn no_url() -> Failure {
    Failure::MalformedInput(Domain::Url)
}

/// The parts of the URL that `input` spells: read alone as an absolute URL,
/// or as a reference against the URL that `base` spells.
pub open spec fn construct_spec(input: Seq<char>, base: Option<Seq<char>>) -> Result<
    UrlPartsView,
    Failure,
> {
    let found = match base {
        Some(b) => joined_url(b, input),
        None => parsed_url(input),
    };
    match found {
        Some(parts) => Ok(parts),
        None => Err(no_url()),
    }
}

/// The object of a URL that was read, or the failure to tell of.
pub fn url_object(parsed: Result<UrlParts, url::ParseError>) -> (r: Result<UrlObject, Failure>)
    ensures
        match parsed {
            Ok(parts) => r == Ok::<UrlObject, Failure>(UrlObject { parts, has_value: true }),
            Err(_) => r == Err::<UrlObject, Failure>(no_url()),
        },
{
    match parsed {
        Ok(parts) => Ok(UrlObject::of(parts)),
        Err(_) => Err(Failure::MalformedInput(Domain::Url)),
    }
}

/// Reads a URL: `input` alone, which must then be absolute, or against
/// `base`, which must itself be an absolute URL.
pub fn construct(input: &str, base: Option<&str>) -> (r: Result<UrlObject, Failure>)
    ensures
        match r {
            Ok(object) => object.has_value && construct_spec(input@, text_of(base)) == Ok::<
                UrlPartsView,
                Failure,
            >(object.parts@),
            Err(e) => construct_spec(input@, text_of(base)) == Err::<UrlPartsView, Failure>(e),
        },
{
    let parsed = match base {
        Some(b) => join(b, input),
        None => parse_url(input),
    };
    url_object(parsed)
}

/// Whether `input` alone spells a URL.
pub fn can_parse(input: &str) -> (r: bool)
    ensures
        r == construct_spec(input@, None) is Ok,
{
    construct(input, None).is_ok()
}

/// A text that may be missing, as characters.
pub open spec fn text_of(text: Option<&str>) -> Option<Seq<char>> {
    match text {
        Some(t) => Some(t@),
        None => None,
    }
}

/// The constants that hang on the functions that take a namespace: the two
/// standard namespaces in canonical form, by name.
pub open spec fn namespace_fields() -> Seq<(Seq<char>, Seq<char>)> {
    seq![
        ("DNS"@, canonical_text(namespace_dns_bytes())),
        ("URL"@, canonical_text(namespace_url_bytes())),
    ]
}

/// A function under its name.
pub open spec fn function_export(
    name: Seq<char>,
    operation: Operation,
    fields: Seq<(Seq<char>, Seq<char>)>,
) -> ExportView {
    ExportView { name, value: BindingView::Function { operation, fields } }
}

/// What the module exports, in the order in which it does.
pub open spec fn export_table() -> Seq<ExportView> {
    seq![
        function_export("v1"@, Operation::GenerateV1, Seq::empty()),
        function_export("v3"@, Operation::GenerateV3, namespace_fields()),
        function_export("v4"@, Operation::GenerateV4, Seq::empty()),
        function_export("v5"@, Operation::GenerateV5, namespace_fields()),
        ExportView { name: "NIL"@, value: BindingView::Text(NIL@) },
        function_export("parse"@, Operation::Stringify, Seq::empty()),
        function_export("stringify"@, Operation::Stringify, Seq::empty()),
        function_export("validate"@, Operation::Validate, Seq::empty()),
        function_export("version"@, Operation::Version, Seq::empty()),
        function_export("URL"@, Operation::Construct, Seq::empty()),
        function_export("canParse"@, Operation::CanParse, Seq::empty()),
        function_export("URLSearchParams"@, Operation::BuildSearchParams, Seq::empty()),
    ]
}

/// The names that the module declares: those of its exports, in their
/// order, and that of the default object.
pub open spec fn declared_names() -> Seq<Seq<char>> {
    names_of(export_table()).push(default_name())
}

/// The two standard namespaces in canonical form, by name.
fn namespaces() -> (r: Vec<(String, String)>)
    ensures
        fields_view(r@) == namespace_fields(),
{
    let mut fields: Vec<(String, String)> = Vec::new();
    fields.push(("DNS".to_owned(), format_hyphenated(&namespace_dns())));
    fields.push(("URL".to_owned(), format_hyphenated(&namespace_url())));
    fields
}

/// A function under its name.
fn function(name: &str, operation: Operation, fields: Vec<(String, String)>) -> (r: Export)
    ensures
        r@ == function_export(name@, operation, fields_view(fields@)),
{
    Export { name: name.to_owned(), value: Binding::Function { operation, fields } }
}

/// The module of UUID and URL operations, as the host sees it.
pub struct UrlModule;

impl UrlModule {
    /// Declares the name of every export, and that of the default object
    /// last.
    pub fn declare(declare: &mut Declarations)
        ensures
            final(declare)@ == old(declare)@ + declared_names(),
    {
        declare.declare("v1");
        declare.declare("v3");
        declare.declare("v4");
        declare.declare("v5");
        declare.declare("NIL");
        declare.declare("parse");
        declare.declare("stringify");
        declare.declare("validate");
        declare.declare("version");
        declare.declare("URL");
        declare.declare("canParse");
        declare.declare("URLSearchParams");
        declare.declare("default");
    }

    /// The exports of the module, in their order: the operations as
    /// functions, the nil UUID as a text, and on each function that takes a
    /// namespace the two standard ones.
    pub fn exports() -> (r: Vec<Export>)
        ensures
            exports_view(r@) == export_table(),
    {
        let mut table: Vec<Export> = Vec::new();
        table.push(function("v1", Operation::GenerateV1, Vec::new()));
        table.push(function("v3", Operation::GenerateV3, namespaces()));
        table.push(function("v4", Operation::GenerateV4, Vec::new()));
        table.push(function("v5", Operation::GenerateV5, namespaces()));
        table.push(Export { name: "NIL".to_owned(), value: Binding::Text(NIL.to_owned()) });
        table.push(function("parse", Operation::Stringify, Vec::new()));
        table.push(function("stringify", Operation::Stringify, Vec::new()));
        table.push(function("validate", Operation::Validate, Vec::new()));
        table.push(function("version", Operation::Version, Vec::new()));
        table.push(function("URL", Operation::Construct, Vec::new()));
        table.push(function("canParse", Operation::CanParse, Vec::new()));
        table.push(function("URLSearchParams", Operation::BuildSearchParams, Vec::new()));
        proof {
            assert(fields_view(Seq::<(String, String)>::empty()) =~= Seq::empty());
        }
        table
    }

    /// Exports every operation and constant under its name, and all of them
    /// once more as the properties of the default object. Where one of the
    /// names has not been declared, nothing is exported.
    pub fn evaluate(exports: &mut Exports) -> (r: Result<(), Failure>)
        ensures
            r is Ok <==> all_declared(old(exports).declared(), declared_names()),
            r is Ok ==> final(exports).named() == old(exports).named() + export_table(),
            r is Ok ==> final(exports).default_object() == Some(export_table()),
            r is Ok ==> final(exports).declared() == old(exports).declared(),
            r is Err ==> r == Err::<(), Failure>(Failure::UndeclaredExport) && *final(exports)
                == *old(exports),
    {
        let table = Self::exports();
        proof {
            lemma_declared_names_split(exports.declared());
        }
        exports.export_default(table)
    }
}

/// The declared names are covered where the default object's name and the
/// names of the exports are.
pub proof fn lemma_declared_names_split(declared: Seq<Seq<char>>)
    ensures
        all_declared(declared, declared_names()) <==> declared.contains(default_name())
            && all_declared(declared, names_of(export_table())),
{
    let names = names_of(export_table());
    let all = declared_names();
    if all_declared(declared, all) {
        assert(declared.contains(all[names.len() as int]));
        assert forall|i: int| 0 <= i < names.len() implies declared.contains(
            #[trigger] names[i],
        ) by {
            assert(all[i] == names[i]);
        }
    }
    if declared.contains(default_name()) && all_declared(declared, names) {
        assert forall|i: int| 0 <= i < all.len() implies declared.contains(#[trigger] all[i]) by {}
    }
}

} // verus!
