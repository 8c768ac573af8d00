//! Compiled-contract artifacts: a document tree, the two schema shapes that
//! toolchains emit, and extraction of bytecode and selectors from them.
use vstd::prelude::*;
use vstd::string::*;
use crate::hex::{decode_hex, decoded_hex};

verus! {

/// A structured document; texts and keys are held as their UTF-8 bytes.
#[derive(Debug)]
pub enum Json {
    Null,
    Bool(bool),
    Number(Vec<u8>),
    Str(Vec<u8>),
    Array(Vec<Json>),
    Object(Vec<(Vec<u8>, Json)>),
}

/// Where an artifact keeps its interface description.
#[derive(Debug, Clone, Copy, PartialEq, Eq, Structural)]
pub enum Schema {
    /// `spec.constructors[]` / `spec.messages[]`, entries named by `name`.
    Flat,
    /// `V3.spec.constructors[]` / `V3.spec.messages[]`, entries named by `label`.
    Versioned,
}

/// Which list of an interface description is searched.
#[derive(Debug, Clone, Copy, PartialEq, Eq, Structural)]
pub enum Role {
    Constructor,
    Message,
}

#[derive(Debug, Clone, Copy, PartialEq, Eq, Structural)]
pub enum ArtifactError {
    /// No entry's name or label holds the text searched for.
    NotFound,
    /// The document does not have the shape of the schema.
    Malformed,
}

/// The value under `key` in a list of object members (the first, if several).
pub open spec fn member(es: Seq<(Vec<u8>, Json)>, key: Seq<u8>) -> Option<Json>
    decreases es.len(),
{
    if es.len() == 0 {
        None
    } else if es[0].0@ == key {
        Some(es[0].1)
    } else {
        member(es.drop_first(), key)
    }
}

/// The value under `key`, where `j` is an object that has it.
pub open spec fn json_field(j: Json, key: Seq<u8>) -> Option<Json> {
    match j {
        Json::Object(es) => member(es@, key),
        _ => None,
    }
}

/// The text under `key`, where `j` is an object that has a string there.
pub open spec fn text_field(j: Json, key: Seq<u8>) -> Option<Seq<u8>> {
    match json_field(j, key) {
        Some(Json::Str(s)) => Some(s@),
        _ => None,
    }
}

pub open spec fn deref_json(r: Option<&Json>) -> Option<Json> {
    match r {
        Some(x) => Some(*x),
        None => None,
    }
}

pub open spec fn bytes_result<E>(r: Result<Vec<u8>, E>) -> Result<Seq<u8>, E> {
    match r {
        Ok(v) => Ok(v@),
        Err(e) => Err(e),
    }
}

/// Whether `needle` occurs in `hay` as a contiguous run.
pub open spec fn byte_contains(hay: Seq<u8>, needle: Seq<u8>) -> bool {
    exists|i: int|
        0 <= i && i + needle.len() <= hay.len() && #[trigger] hay.subrange(i, i + needle.len())
            == needle
}

fn bytes_equal(a: &[u8], b: &[u8]) -> (r: bool)
    ensures
        r == (a@ == b@),
{
    if a.len() != b.len() {
        return false;
    }
    let mut i: usize = 0;
    while i < a.len()
        invariant
            a@.len() == b@.len(),
            i <= a@.len(),
            forall|k: int| 0 <= k < i ==> a@[k] == b@[k],
        decreases a@.len() - i,
    {
        if a[i] != b[i] {
            return false;
        }
        i = i + 1;
    }
    assert(a@ =~= b@);
    true
}

/// Looks `key` up in an object; `None` for a missing key or a value that is no object.
pub fn get_field<'a>(j: &'a Json, key: &[u8]) -> (r: Option<&'a Json>)
    ensures
        deref_json(r) == json_field(*j, key@),
{
    match j {
        Json::Object(es) => {
            let mut i: usize = 0;
            assert(es@.subrange(0, es@.len() as int) =~= es@);
            while i < es.len()
                invariant
                    i <= es@.len(),
                    json_field(*j, key@) == member(es@, key@),
                    member(es@, key@) == member(es@.subrange(i as int, es@.len() as int), key@),
                decreases es@.len() - i,
            {
                let ghost rest = es@.subrange(i as int, es@.len() as int);
                assert(rest.drop_first() =~= es@.subrange(i + 1, es@.len() as int));
                assert(rest[0] == es@[i as int]);
                if bytes_equal(es[i].0.as_slice(), key) {
                    assert(es@[i as int].0@ == key@);
                    assert(member(rest, key@) == Some(es@[i as int].1));
                    return Some(&es[i].1);
                }
                i = i + 1;
            }
            None
        },
        _ => None,
    }
}

fn get_text<'a>(j: &'a Json, key: &[u8]) -> (r: Option<&'a Vec<u8>>)
    ensures
        match r {
            Some(s) => text_field(*j, key@) == Some(s@),
            None => text_field(*j, key@) is None,
        },
{
    match get_field(j, key) {
        Some(Json::Str(s)) => Some(s),
        _ => None,
    }
}

fn occurs_at(hay: &[u8], needle: &[u8], i: usize) -> (r: bool)
    requires
        i + needle@.len() <= hay@.len(),
    ensures
        r == (hay@.subrange(i as int, i + needle@.len()) == needle@),
{
    let n = hay.len();
    let mut j: usize = 0;
    while j < needle.len()
        invariant
            n == hay@.len(),
            i + needle@.len() <= hay@.len(),
            j <= needle@.len(),
            forall|k: int| 0 <= k < j ==> hay@[i + k] == needle@[k],
        decreases needle@.len() - j,
    {
        if hay[i + j] != needle[j] {
            assert(hay@.subrange(i as int, i + needle@.len())[j as int] != needle@[j as int]);
            return false;
        }
        j = j + 1;
    }
    assert(hay@.subrange(i as int, i + needle@.len()) =~= needle@);
    true
}

/// Whether `needle` occurs in `hay`.
pub fn contains_bytes(hay: &[u8], needle: &[u8]) -> (r: bool)
    ensures
        r == byte_contains(hay@, needle@),
{
    if needle.len() > hay.len() {
        return false;
    }
    let last = hay.len() - needle.len();
    let mut i: usize = 0;
    loop
        invariant
            last == hay@.len() - needle@.len(),
            i <= last,
            forall|k: int|
                0 <= k < i ==> #[trigger] hay@.subrange(k, k + needle@.len()) != needle@,
        decreases last - i,
    {
        if occurs_at(hay, needle, i) {
            return true;
        }
        if i == last {
            return false;
        }
        i = i + 1;
    }
}

/// The interface description of a document under a schema.
pub open spec fn interface_of(doc: Json, schema: Schema) -> Option<Json> {
    match schema {
        Schema::Flat => json_field(doc, "spec".spec_bytes()),
        Schema::Versioned => match json_field(doc, "V3".spec_bytes()) {
            Some(v) => json_field(v, "spec".spec_bytes()),
            None => None,
        },
    }
}

pub open spec fn role_key(role: Role) -> Seq<u8> {
    match role {
        Role::Constructor => "constructors".spec_bytes(),
        Role::Message => "messages".spec_bytes(),
    }
}

/// The key under which an entry carries its human-readable name.
pub open spec fn label_key(schema: Schema) -> Seq<u8> {
    match schema {
        Schema::Flat => "name".spec_bytes(),
        Schema::Versioned => "label".spec_bytes(),
    }
}

/// The constructors or messages of a document, where it has the schema's shape.
pub open spec fn role_entries(doc: Json, schema: Schema, role: Role) -> Option<Seq<Json>> {
    match interface_of(doc, schema) {
        Some(i) => match json_field(i, role_key(role)) {
            Some(Json::Array(es)) => Some(es@),
            _ => None,
        },
        None => None,
    }
}

/// The first entry whose label holds `needle`; an entry without a text label
/// before it makes the list malformed.
pub open spec fn first_match(es: Seq<Json>, schema: Schema, needle: Seq<u8>) -> Result<
    Json,
    ArtifactError,
>
    decreases es.len(),
{
    if es.len() == 0 {
        Err(ArtifactError::NotFound)
    } else {
        match text_field(es[0], label_key(schema)) {
            None => Err(ArtifactError::Malformed),
            Some(l) => if byte_contains(l, needle) {
                Ok(es[0])
            } else {
                first_match(es.drop_first(), schema, needle)
            },
        }
    }
}

/// The decoded `selector` of an entry.
pub open spec fn entry_selector(e: Json) -> Result<Seq<u8>, ArtifactError> {
    match text_field(e, "selector".spec_bytes()) {
        Some(t) => match decoded_hex(t) {
            Some(b) => Ok(b),
            None => Err(ArtifactError::Malformed),
        },
        None => Err(ArtifactError::Malformed),
    }
}

/// The selector of the first constructor or message whose label holds `needle`.
pub open spec fn selector_of(doc: Json, schema: Schema, role: Role, needle: Seq<u8>) -> Result<
    Seq<u8>,
    ArtifactError,
> {
    match role_entries(doc, schema, role) {
        None => Err(ArtifactError::Malformed),
        Some(es) => match first_match(es, schema, needle) {
            Ok(e) => entry_selector(e),
            Err(err) => Err(err),
        },
    }
}

/// The decoded `source.wasm` of a document.
pub open spec fn bytecode_of(doc: Json) -> Result<Seq<u8>, ArtifactError> {
    match json_field(doc, "source".spec_bytes()) {
        Some(src) => match text_field(src, "wasm".spec_bytes()) {
            Some(t) => match decoded_hex(t) {
                Some(b) => Ok(b),
                None => Err(ArtifactError::Malformed),
            },
            None => Err(ArtifactError::Malformed),
        },
        None => Err(ArtifactError::Malformed),
    }
}

fn interface<'a>(doc: &'a Json, schema: Schema) -> (r: Option<&'a Json>)
    ensures
        deref_json(r) == interface_of(*doc, schema),
{
    match schema {
        Schema::Flat => get_field(doc, "spec".as_bytes()),
        Schema::Versioned => match get_field(doc, "V3".as_bytes()) {
            Some(v) => get_field(v, "spec".as_bytes()),
            None => None,
        },
    }
}

fn entries<'a>(doc: &'a Json, schema: Schema, role: Role) -> (r: Option<&'a Vec<Json>>)
    ensures
        match r {
            Some(es) => role_entries(*doc, schema, role) == Some(es@),
            None => role_entries(*doc, schema, role) is None,
        },
{
    let i = match interface(doc, schema) {
        Some(i) => i,
        None => return None,
    };
    let key = match role {
        Role::Constructor => "constructors".as_bytes(),
        Role::Message => "messages".as_bytes(),
    };
    match get_field(i, key) {
        Some(Json::Array(es)) => Some(es),
        _ => None,
    }
}

fn decode_text(t: &Vec<u8>) -> (r: Result<Vec<u8>, ArtifactError>)
    ensures
        bytes_result(r) == match decoded_hex(t@) {
            Some(b) => Ok(b),
            None => Err(ArtifactError::Malformed),
        },
{
    match decode_hex(t.as_slice()) {
        Some(b) => Ok(b),
        None => Err(ArtifactError::Malformed),
    }
}

/// Extracts the selector of the first constructor or message whose name
/// (flat schema) or label (versioned schema) holds `needle`.
pub fn find_selector(doc: &Json, schema: Schema, role: Role, needle: &str) -> (r: Result<
    Vec<u8>,
    ArtifactError,
>)
    ensures
        bytes_result(r) == selector_of(*doc, schema, role, needle.spec_bytes()),
{
    let pat = needle.as_bytes();
    let es = match entries(doc, schema, role) {
        Some(es) => es,
        None => return Err(ArtifactError::Malformed),
    };
    let label = match schema {
        Schema::Flat => "name".as_bytes(),
        Schema::Versioned => "label".as_bytes(),
    };
    let ghost all = es@;
    let mut i: usize = 0;
    assert(all.subrange(0, all.len() as int) =~= all);
    while i < es.len()
        invariant
            all == es@,
            role_entries(*doc, schema, role) == Some(all),
            pat@ == needle.spec_bytes(),
            i <= all.len(),
            label@ == label_key(schema),
            first_match(all, schema, pat@) == first_match(
                all.subrange(i as int, all.len() as int),
                schema,
                pat@,
            ),
        decreases all.len() - i,
    {
        let ghost rest = all.subrange(i as int, all.len() as int);
        assert(rest.drop_first() =~= all.subrange(i + 1, all.len() as int));
        assert(rest[0] == all[i as int]);
        let e = &es[i];
        match get_text(e, label) {
            None => return Err(ArtifactError::Malformed),
            Some(l) => {
                if contains_bytes(l.as_slice(), pat) {
                    return match get_text(e, "selector".as_bytes()) {
                        Some(t) => decode_text(t),
                        None => Err(ArtifactError::Malformed),
                    };
                }
            },
        }
        i = i + 1;
    }
    Err(ArtifactError::NotFound)
}

/// Extracts the compiled code, hex-encoded under `source.wasm` in both schemas.
pub fn find_bytecode(doc: &Json) -> (r: Result<Vec<u8>, ArtifactError>)
    ensures
        bytes_result(r) == bytecode_of(*doc),
{
    match get_field(doc, "source".as_bytes()) {
        Some(src) => match get_text(src, "wasm".as_bytes()) {
            Some(t) => decode_text(t),
            None => Err(ArtifactError::Malformed),
        },
        None => Err(ArtifactError::Malformed),
    }
}

/// An artifact with no interface description under its schema (a flat one
/// without `spec`, a versioned one without `V3` or `V3.spec`) is malformed
/// for every selector search, never "not found".
pub proof fn lemma_missing_interface_is_malformed(
    doc: Json,
    schema: Schema,
    role: Role,
    needle: Seq<u8>,
)
    requires
        interface_of(doc, schema) is None,
    ensures
        selector_of(doc, schema, role, needle) == Err::<Seq<u8>, ArtifactError>(
            ArtifactError::Malformed,
        ),
{
}

} // verus!
