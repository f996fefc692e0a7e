//! Bulk-body construction: JSON string escaping, the action line carrying a
//! document's id, the id extraction from a raw document line, and the
//! interleaved action/source body of one bulk submission.

use vstd::prelude::*;
use vstd::string::StrSliceExecFns;
use vstd::string::StringExecFns;

verus! {

/// std's `String::push` appends exactly the given character.
pub assume_specification[ String::push ](s: &mut String, ch: char)
    ensures
        final(s)@ == old(s)@.push(ch),
;

/// One hexadecimal digit, lower case.
pub open spec fn spec_hex_digit(d: nat) -> char
    recommends
        d < 16,
{
    if d < 10 {
        ((d + ('0' as nat)) as u8) as char
    } else {
        ((d - 10 + ('a' as nat)) as u8) as char
    }
}

fn hex_digit(d: u32) -> (c: char)
    requires
        d < 16,
    ensures
        c == spec_hex_digit(d as nat),
{
    let x: u8 = if d < 10 {
        ('0' as u8) + (d as u8)
    } else {
        ('a' as u8) + (d as u8 - 10)
    };
    x as char
}

/// How one character stands inside a JSON string: quote and backslash get a
/// backslash escape, other control characters a `\u00XX` escape, and every
/// other character stands as itself.
pub open spec fn spec_escape_char(c: char) -> Seq<char> {
    if c == '"' {
        seq!['\\', '"']
    } else if c == '\\' {
        seq!['\\', '\\']
    } else if (c as u32) < 32 {
        seq![
            '\\',
            'u',
            '0',
            '0',
            spec_hex_digit(((c as u32) / 16) as nat),
            spec_hex_digit(((c as u32) % 16) as nat),
        ]
    } else {
        seq![c]
    }
}

/// The body of a JSON string encoding the characters `s`.
pub open spec fn spec_escape(s: Seq<char>) -> Seq<char> {
    s.flat_map(|c: char| spec_escape_char(c))
}

/// Escapes `s` for use as the body of a JSON string.
pub fn escape_json_string(s: &str) -> (r: String)
    ensures
        r@ == spec_escape(s@),
{
    let len: usize = s.unicode_len();
    let mut r = String::new();
    let mut i: usize = 0;
    while i < len
        invariant
            i <= len,
            len == s@.len(),
            r@ == spec_escape(s@.take(i as int)),
        decreases len - i,
    {
        let c = s.get_char(i);
        proof {
            assert(s@.take(i as int).push(c) =~= s@.take(i + 1 as int));
            s@.take(i as int).lemma_flat_map_push(|ch: char| spec_escape_char(ch), c);
        }
        if c == '"' {
            r.push('\\');
            r.push('"');
        } else if c == '\\' {
            r.push('\\');
            r.push('\\');
        } else if (c as u32) < 32 {
            let v: u32 = c as u32;
            r.push('\\');
            r.push('u');
            r.push('0');
            r.push('0');
            r.push(hex_digit(v / 16));
            r.push(hex_digit(v % 16));
        } else {
            r.push(c);
        }
        assert(r@ =~= spec_escape(s@.take(i as int)) + spec_escape_char(c));
        i += 1;
    }
    proof {
        assert(s@.take(len as int) =~= s@);
    }
    r
}

/// The action line that precedes a document with id `id` in a bulk body.
pub open spec fn spec_action_line(id: Seq<char>) -> Seq<char> {
    "{\"index\":{\"_id\":\""@ + spec_escape(id) + "\"}}"@
}

/// Builds the action line `{"index":{"_id":<id>}}` for a document id.
pub fn action_line(id: &str) -> (r: String)
    ensures
        r@ == spec_action_line(id@),
{
    let mut r = String::from_str("{\"index\":{\"_id\":\"");
    let escaped = escape_json_string(id);
    r.append(escaped.as_str());
    r.append("\"}}");
    r
}

/// The string value of member `field` of the JSON object written on `line`:
/// `None` when the line is not a JSON object, the member is missing, or its
/// value is not a JSON string.
pub uninterp spec fn doc_id_of(line: Seq<char>, field: Seq<char>) -> Option<Seq<char>>;

/// Relies on serde_json: `from_str` parses a line as a JSON object,
/// `Map::get` looks the field up, and `Value::as_str` gives the member's
/// characters exactly when the member is a JSON string. All three depend on
/// the line and the field name alone.
#[verifier::external_body]
fn extract_id(line: &str, field: &str) -> (r: Option<String>)
    ensures
        match r {
            Some(id) => doc_id_of(line@, field@) == Some(id@),
            None => doc_id_of(line@, field@) is None,
        },
{
    match serde_json::from_str::<serde_json::Map<String, serde_json::Value>>(line) {
        Err(_) => None,
        Ok(map) => match map.get(field) {
            None => None,
            Some(value) => match value.as_str() {
                None => None,
                Some(id) => Some(id.to_string()),
            },
        },
    }
}

/// A document whose id cannot be extracted: the line at `line_index` of the
/// chunk is not a JSON object whose id member is a string.
#[derive(Debug, Clone, Copy, PartialEq, Eq, Structural)]
pub struct DocumentError {
    pub line_index: usize,
}

/// Builds the body of one bulk submission from a chunk of raw document
/// lines: for each document, in chunk order, the action line carrying the
/// document's id under `id_field`, then the document line itself, verbatim.
/// Fails on the first document whose id cannot be extracted; nothing of
/// such a chunk is submitted.
pub fn build_bulk_body(chunk: &Vec<String>, id_field: &str) -> (r: Result<
    Vec<String>,
    DocumentError,
>)
    ensures
        match r {
            Ok(body) => {
                &&& body@.len() == 2 * chunk@.len()
                &&& forall|i: int|
                    0 <= i < chunk@.len() ==> doc_id_of(
                        (#[trigger] chunk@[i])@,
                        id_field@,
                    ) is Some
                &&& forall|i: int|
                    0 <= i < chunk@.len() ==> body@[2 * i]@ == spec_action_line(
                        doc_id_of((#[trigger] chunk@[i])@, id_field@).unwrap(),
                    )
                &&& forall|i: int|
                    0 <= i < chunk@.len() ==> body@[2 * i + 1]@ == (#[trigger] chunk@[i])@
            },
            Err(e) => {
                &&& e.line_index < chunk@.len()
                &&& doc_id_of(chunk@[e.line_index as int]@, id_field@) is None
                &&& forall|i: int|
                    0 <= i < e.line_index ==> doc_id_of((#[trigger] chunk@[i])@, id_field@) is Some
            },
        },
{
    let mut body: Vec<String> = Vec::new();
    let mut i: usize = 0;
    while i < chunk.len()
        invariant
            i <= chunk@.len(),
            body@.len() == 2 * i,
            forall|j: int| 0 <= j < i ==> doc_id_of((#[trigger] chunk@[j])@, id_field@) is Some,
            forall|j: int|
                0 <= j < i ==> body@[2 * j]@ == spec_action_line(
                    doc_id_of((#[trigger] chunk@[j])@, id_field@).unwrap(),
                ),
            forall|j: int| 0 <= j < i ==> body@[2 * j + 1]@ == (#[trigger] chunk@[j])@,
        decreases chunk@.len() - i,
    {
        let line = &chunk[i];
        match extract_id(line.as_str(), id_field) {
            None => {
                return Err(DocumentError { line_index: i });
            },
            Some(id) => {
                body.push(action_line(id.as_str()));
                body.push(line.clone());
            },
        }
        i += 1;
    }
    Ok(body)
}

/// One item of a bulk response: the document's id and, for a failed item,
/// the error's type and reason.
#[derive(Debug, Clone)]
pub struct BulkItemReport {
    pub id: String,
    pub error: Option<BulkItemError>,
}

/// The error a failed bulk item carries.
#[derive(Debug, Clone)]
pub struct BulkItemError {
    pub error_type: String,
    pub reason: String,
}

fn clone_item(it: &BulkItemReport) -> (r: BulkItemReport)
    ensures
        r == *it,
{
    let error = match &it.error {
        None => None,
        Some(e) => Some(BulkItemError { error_type: e.error_type.clone(), reason: e.reason.clone() }),
    };
    BulkItemReport { id: it.id.clone(), error }
}

/// After a bulk submission was answered inside the 2xx range: the items to
/// warn about. A response with `errors == false` reports nothing; otherwise
/// exactly the failed items, in response order. The chunk counts as
/// delivered either way.
pub fn bulk_item_warnings(errors: bool, items: &Vec<BulkItemReport>) -> (r: Vec<BulkItemReport>)
    ensures
        r@ == (if errors {
            items@.filter(|it: BulkItemReport| it.error is Some)
        } else {
            Seq::<BulkItemReport>::empty()
        }),
{
    let mut r: Vec<BulkItemReport> = Vec::new();
    if !errors {
        return r;
    }
    let mut i: usize = 0;
    while i < items.len()
        invariant
            i <= items@.len(),
            r@ == items@.take(i as int).filter(|it: BulkItemReport| it.error is Some),
        decreases items@.len() - i,
    {
        proof {
            let pred = |it: BulkItemReport| it.error is Some;
            items@.take(i as int).lemma_filter_push(items@[i as int], pred);
            assert(items@.take(i as int).push(items@[i as int]) =~= items@.take(i + 1 as int));
        }
        if items[i].error.is_some() {
            let item = clone_item(&items[i]);
            r.push(item);
        }
        i += 1;
    }
    proof {
        assert(items@.take(items@.len() as int) =~= items@);
    }
    r
}

} // verus!
