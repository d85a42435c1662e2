//! Header maps and their flat form.
//!
//! A header map is the multimap of the `http` crate. This module says what
//! such a map holds, as a list of names with their values, and states the
//! few operations of the map that the library uses over that list. On top
//! of them stand the two directions of the marshalling: a map becomes a
//! list of (name, values) records, and such a list becomes a map again by
//! appending value after value.

use http::header::{HeaderMap, HeaderName, HeaderValue};
use vstd::prelude::*;
use vstd::utf8::{decode_utf8, encode_utf8, valid_utf8};

use crate::ffi::{HttpHeaderFfi, HttpHeaderModel};

verus! {

// === The map of the http crate ===

/// `http::HeaderMap`, of which nothing is known but what the functions
/// below state.
#[verifier::external_type_specification]
#[verifier::external_body]
#[verifier::reject_recursive_types(Value)]
pub struct ExHeaderMap<Value>(HeaderMap<Value>);

/// `http::HeaderValue`, the type of the values of a header map. Nothing
/// is known of it; the functions below take and give the bytes of a value.
#[verifier::external_type_specification]
#[verifier::external_body]
pub struct ExHeaderValue(HeaderValue);

/// What a header map holds: its names in the order in which `keys` walks
/// them, each as its text, and with each name the bytes of its values in
/// the order in which `get_all` gives them when asked with the name
/// itself, not with its text.
pub uninterp spec fn header_entries(map: HeaderMap<HeaderValue>) -> Seq<(Seq<char>, Seq<Seq<u8>>)>;

/// The entries of a header map: each name with the bytes of its values.
pub type HeaderEntries = Seq<(Seq<char>, Seq<Seq<u8>>)>;

/// What `HeaderName::from_bytes` makes of a text: the name in its normal
/// form, or nothing where the text is no header name.
pub uninterp spec fn parsed_header_name(text: Seq<char>) -> Option<Seq<char>>;

/// The largest capacity that a header map can be made with.
pub const MAX_HEADER_CAPACITY: usize = 24576;

/// The least number of names that a header map holds when it refuses a
/// value: a map with fewer names takes every value.
pub const MIN_FULL_HEADER_NAMES: usize = 6554;

/// Whether a name is among the entries.
pub open spec fn has_name(entries: HeaderEntries, name: Seq<char>) -> bool {
    exists|i: int| 0 <= i < entries.len() && (#[trigger] entries[i]).0 == name
}

/// Whether no name stands twice among the entries.
pub open spec fn names_distinct(entries: HeaderEntries) -> bool {
    forall|i: int, j: int|
        0 <= i < j < entries.len() ==> (#[trigger] entries[i]).0 != (#[trigger] entries[j]).0
}

/// The entries after one value was appended under a name: the first entry
/// of that name gets the value behind its own; where there is none, a new
/// entry with the one value comes last.
pub open spec fn append_entry(
    entries: HeaderEntries,
    name: Seq<char>,
    value: Seq<u8>,
) -> HeaderEntries
    decreases entries.len(),
{
    if entries.len() == 0 {
        seq![(name, seq![value])]
    } else if entries[0].0 == name {
        entries.update(0, (name, entries[0].1.push(value)))
    } else {
        seq![entries[0]] + append_entry(entries.drop_first(), name, value)
    }
}

/// Whether a byte may stand in a header value: no control character but
/// the tabulator.
pub open spec fn is_value_byte(b: u8) -> bool {
    b >= 32 && b != 127 || b == 9
}

/// Whether a byte is a visible ASCII character, a blank or a tabulator.
pub open spec fn is_visible_ascii(b: u8) -> bool {
    b >= 32 && b < 127 || b == 9
}

/// `HeaderMap::with_capacity`: an empty map. The `http` crate refuses a
/// capacity whose table would have more than 32768 slots; none up to
/// [`MAX_HEADER_CAPACITY`] does.
#[verifier::external_body]
pub(crate) fn header_map_with_capacity(capacity: usize) -> (map: HeaderMap<HeaderValue>)
    requires
        capacity <= MAX_HEADER_CAPACITY,
    ensures
        header_entries(map) == HeaderEntries::empty(),
{
    HeaderMap::with_capacity(capacity)
}

/// `HeaderMap::keys`, each name as its text: the names of the entries, in
/// their order. No name comes twice.
#[verifier::external_body]
fn header_names(map: &HeaderMap<HeaderValue>) -> (names: Vec<String>)
    ensures
        names.len() == header_entries(*map).len(),
        forall|i: int|
            0 <= i < names.len() ==> (#[trigger] names@[i])@ == header_entries(*map)[i].0,
        forall|i: int, j: int|
            0 <= i < j < names.len() ==> (#[trigger] names@[i])@ != (#[trigger] names@[j])@,
{
    let mut names = Vec::new();
    for name in map.keys() {
        names.push(name.as_str().to_owned());
    }
    names
}

/// `HeaderMap::get_all` for the name that `keys` gives at an index, each
/// value as its bytes: the values of that entry, in their order, and at
/// least one.
#[verifier::external_body]
fn header_values(map: &HeaderMap<HeaderValue>, at: usize) -> (values: Vec<Vec<u8>>)
    ensures
        at < header_entries(*map).len() ==> values.deep_view() == header_entries(*map)[at as int].1
            && values.len() > 0,
{
    let mut values = Vec::new();
    if let Some(name) = map.keys().nth(at) {
        for value in map.get_all(name) {
            values.push(value.as_bytes().to_vec());
        }
    }
    values
}

/// `HeaderName::from_bytes` on the bytes of a text, the name as its text:
/// the name that the text stands for, in its normal form, or nothing
/// where the text is no header name.
#[verifier::external_body]
fn normal_header_name(text: &str) -> (normal: Option<String>)
    ensures
        match normal {
            Some(name) => parsed_header_name(text@) == Some(name@),
            None => parsed_header_name(text@) is None,
        },
{
    match HeaderName::from_bytes(text.as_bytes()) {
        Ok(name) => Some(name.as_str().to_owned()),
        Err(_) => None,
    }
}

/// `HeaderMap::try_append`, with the name made by `HeaderName::from_bytes`
/// and the value by `HeaderValue::from_bytes`.
///
/// On success the text was a header name and no byte of the value a
/// control character other than the tabulator; the value stands behind
/// the values that the name, in its normal form, had, or the name is new
/// and stands last; the result tells whether the name was there. On
/// refusal, be it that of the name, of the value or of a map that is full,
/// the map is as it was.
///
/// A good name with a good value is refused only by a map that is full.
/// The map refuses where its table would have to grow beyond 32768 slots
/// or its list of names beyond 32768 names; the first needs a table of
/// 32768 slots that is filled to a fifth at least, so no map with fewer
/// than [`MIN_FULL_HEADER_NAMES`] names refuses.
#[verifier::external_body]
fn header_map_append(map: &mut HeaderMap<HeaderValue>, name: &str, value: &[u8]) -> (known: Option<
    bool,
>)
    ensures
        match known {
            Some(k) => {
                &&& parsed_header_name(name@) matches Some(n)
                &&& forall|i: int| 0 <= i < value@.len() ==> is_value_byte(#[trigger] value@[i])
                &&& header_entries(*final(map)) == append_entry(header_entries(*old(map)), n, value@)
                &&& k == has_name(header_entries(*old(map)), n)
            },
            None => header_entries(*final(map)) == header_entries(*old(map)),
        },
        parsed_header_name(name@) is Some && (forall|i: int|
            0 <= i < value@.len() ==> is_value_byte(#[trigger] value@[i])) && header_entries(
            *old(map),
        ).len() < MIN_FULL_HEADER_NAMES ==> known is Some,
{
    let name = HeaderName::from_bytes(name.as_bytes()).ok()?;
    let value = HeaderValue::from_bytes(value).ok()?;
    map.try_append(name, value).ok()
}

/// `String::from_utf8`: the text that the bytes encode, unless they are
/// not UTF-8.
#[verifier::external_body]
fn string_from_utf8(bytes: Vec<u8>) -> (text: Option<String>)
    ensures
        text is Some <==> valid_utf8(bytes@),
        text matches Some(s) ==> s@ == decode_utf8(bytes@),
{
    String::from_utf8(bytes).ok()
}

// === From a map to the flat form ===

/// How the bytes of a header value become text.
#[derive(Debug, Clone, Copy, PartialEq, Eq)]
pub enum ValueText {
    /// The text that the bytes encode in UTF-8.
    Utf8,
    /// The bytes as characters, where all of them are visible ASCII,
    /// blanks or tabulators.
    VisibleAscii,
}

/// Whether the bytes of a value have a text in the given reading.
pub open spec fn is_readable(bytes: Seq<u8>, how: ValueText) -> bool {
    match how {
        ValueText::Utf8 => valid_utf8(bytes),
        ValueText::VisibleAscii => forall|i: int|
            0 <= i < bytes.len() ==> is_visible_ascii(#[trigger] bytes[i]),
    }
}

/// The text of a value's bytes; empty where the bytes have none.
pub open spec fn value_text(bytes: Seq<u8>, how: ValueText) -> Seq<char> {
    if is_readable(bytes, how) {
        decode_utf8(bytes)
    } else {
        Seq::empty()
    }
}

/// Bytes that are all visible ASCII are UTF-8.
proof fn lemma_visible_ascii_is_utf8(bytes: Seq<u8>)
    requires
        forall|i: int| 0 <= i < bytes.len() ==> is_visible_ascii(#[trigger] bytes[i]),
    ensures
        valid_utf8(bytes),
{
    assert forall|i: int| 0 <= i < bytes.len() implies #[trigger] vstd::utf8::is_leading_byte_width_1(
        bytes[i],
    ) by {
        let b = bytes[i];
        assert(is_visible_ascii(b));
        assert(b < 128 ==> b & 0x80 == 0) by (bit_vector);
    }
    assert(bytes.subrange(0, 0) =~= Seq::<u8>::empty());
    assert(vstd::utf8::partial_valid_utf8(bytes, 0));
    vstd::utf8::partial_valid_utf8_extend_ascii_block(bytes, 0, bytes.len() as int);
    assert(bytes.subrange(0, bytes.len() as int) =~= bytes);
}

/// The flat form of the entries of a map: one record for each name, in
/// the order of the names, with the text of each value in their order.
pub open spec fn flatten_entries(
    entries: HeaderEntries,
    how: ValueText,
) -> Seq<HttpHeaderModel> {
    entries.map_values(
        |e: (Seq<char>, Seq<Seq<u8>>)|
            HttpHeaderModel { k: e.0, v: e.1.map_values(|b: Seq<u8>| value_text(b, how)) },
    )
}

fn all_visible_ascii(bytes: &Vec<u8>) -> (r: bool)
    ensures
        r == forall|i: int| 0 <= i < bytes@.len() ==> is_visible_ascii(#[trigger] bytes@[i]),
{
    let mut i: usize = 0;
    while i < bytes.len()
        invariant
            i <= bytes.len(),
            forall|j: int| 0 <= j < i ==> is_visible_ascii(#[trigger] bytes@[j]),
        decreases bytes.len() - i,
    {
        let b = bytes[i];
        if !(b >= 32 && b < 127 || b == 9) {
            return false;
        }
        i += 1;
    }
    true
}

/// The text of a header value.
fn text_of_value(bytes: Vec<u8>, how: ValueText) -> (text: String)
    ensures
        text@ == value_text(bytes@, how),
{
    let wanted = match how {
        ValueText::Utf8 => true,
        ValueText::VisibleAscii => all_visible_ascii(&bytes),
    };
    if !wanted {
        return String::new();
    }
    proof {
        if how == ValueText::VisibleAscii {
            lemma_visible_ascii_is_utf8(bytes@);
        }
    }
    match string_from_utf8(bytes) {
        Some(text) => text,
        None => String::new(),
    }
}

/// Flattens a header map: one record for each name, in the order of the
/// names, with all values of the name in their order. A value that has no
/// text in the given reading becomes the empty string. No two records have
/// the same name, and every record has a value.
pub fn flatten_headers(map: &HeaderMap<HeaderValue>, how: ValueText) -> (records: Vec<HttpHeaderFfi>)
    ensures
        records.deep_view() == flatten_entries(header_entries(*map), how),
        forall|i: int, j: int|
            0 <= i < j < records.len() ==> (#[trigger] records@[i]).k@ != (#[trigger] records@[j]).k@,
        forall|i: int| 0 <= i < records.len() ==> (#[trigger] records@[i]).v.len() > 0,
{
    let ghost entries = header_entries(*map);
    let names = header_names(map);
    assert(names_distinct(entries)) by {
        assert forall|i: int, j: int| 0 <= i < j < entries.len() implies (#[trigger] entries[i]).0 != (
        #[trigger] entries[j]).0 by {
            assert(names@[i]@ == entries[i].0 && names@[j]@ == entries[j].0);
        }
    }
    let mut records: Vec<HttpHeaderFfi> = Vec::with_capacity(names.len());
    for name in it: names
        invariant
            entries == header_entries(*map),
            it.seq().len() == entries.len(),
            forall|i: int| 0 <= i < entries.len() ==> (#[trigger] it.seq()[i])@ == entries[i].0,
            records.len() == it.index(),
            forall|i: int|
                0 <= i < it.index() ==> (#[trigger] records@[i])@ == flatten_entries(
                    entries,
                    how,
                )[i],
            forall|i: int| 0 <= i < it.index() ==> (#[trigger] records@[i]).v.len() > 0,
    {
        let ghost at = it.index() as int;
        assert(name == it.seq()[at]);
        let values = header_values(map, records.len());
        assert(values.deep_view() == entries[at].1);
        let ghost given = values.deep_view();
        let mut texts: Vec<String> = Vec::with_capacity(values.len());
        for bytes in inner: values
            invariant
                inner.seq().len() == given.len(),
                forall|j: int| 0 <= j < given.len() ==> (#[trigger] inner.seq()[j])@ == given[j],
                texts.len() == inner.index(),
                forall|j: int|
                    0 <= j < inner.index() ==> (#[trigger] texts@[j])@ == value_text(given[j], how),
        {
            assert(bytes == inner.seq()[inner.index() as int]);
            texts.push(text_of_value(bytes, how));
        }
        assert(texts.deep_view() =~= entries[at].1.map_values(|b: Seq<u8>| value_text(b, how)));
        records.push(HttpHeaderFfi { k: name, v: texts });
    }
    assert(records.deep_view() =~= flatten_entries(entries, how));
    assert forall|i: int, j: int| 0 <= i < j < records.len() implies (#[trigger] records@[i]).k@ != (
    #[trigger] records@[j]).k@ by {
        assert(records@[i]@.k == entries[i].0);
        assert(records@[j]@.k == entries[j].0);
    }
    records
}

// === From the flat form to a map ===

/// Whether the bytes of a text may stand in a header value.
pub open spec fn is_value_text(text: Seq<char>) -> bool {
    forall|i: int| 0 <= i < encode_utf8(text).len() ==> is_value_byte(#[trigger] encode_utf8(text)[i])
}

/// The entries after the values of one record were appended under the
/// record's name in its normal form, one after the other. Nothing where
/// the name is no header name, or where a value cannot stand in a header.
pub open spec fn expand_values(
    entries: HeaderEntries,
    name: Seq<char>,
    values: Seq<Seq<char>>,
) -> Option<HeaderEntries>
    decreases values.len(),
{
    if values.len() == 0 {
        Some(entries)
    } else {
        match (expand_values(entries, name, values.drop_last()), parsed_header_name(name)) {
            (Some(earlier), Some(normal)) => if is_value_text(values.last()) {
                Some(append_entry(earlier, normal, encode_utf8(values.last())))
            } else {
                None
            },
            _ => None,
        }
    }
}

/// The entries of the map that a list of records stands for: record after
/// record, each value of the record is appended under the record's name.
/// Nothing where the name of a record is no header name, be the record
/// with or without values, or where a value cannot stand in a header.
pub open spec fn expand_records(records: Seq<HttpHeaderModel>) -> Option<HeaderEntries>
    decreases records.len(),
{
    if records.len() == 0 {
        Some(Seq::empty())
    } else {
        match expand_records(records.drop_last()) {
            Some(earlier) => if parsed_header_name(records.last().k) is Some {
                expand_values(earlier, records.last().k, records.last().v)
            } else {
                None
            },
            None => None,
        }
    }
}

/// Appending a value under a name adds one entry where the name is new
/// and none where it is there; afterwards the name is there.
proof fn lemma_append_entry_len(entries: HeaderEntries, name: Seq<char>, value: Seq<u8>)
    ensures
        has_name(append_entry(entries, name, value), name),
        append_entry(entries, name, value).len() == (if has_name(entries, name) {
            entries.len()
        } else {
            entries.len() + 1
        }),
    decreases entries.len(),
{
    let after = append_entry(entries, name, value);
    if entries.len() == 0 {
        assert(after[0].0 == name);
    } else if entries[0].0 == name {
        assert(after[0].0 == name);
    } else {
        let rest = entries.drop_first();
        let tail = append_entry(rest, name, value);
        lemma_append_entry_len(rest, name, value);
        let at = choose|i: int| 0 <= i < tail.len() && (#[trigger] tail[i]).0 == name;
        assert(after[at + 1] == tail[at]);
        if has_name(entries, name) {
            let i = choose|i: int| 0 <= i < entries.len() && (#[trigger] entries[i]).0 == name;
            assert(rest[i - 1] == entries[i]);
        }
        if has_name(rest, name) {
            let i = choose|i: int| 0 <= i < rest.len() && (#[trigger] rest[i]).0 == name;
            assert(entries[i + 1] == rest[i]);
        }
    }
}

/// The values of one record add at most one entry, and where there is a
/// value the record's name is there afterwards.
proof fn lemma_expand_values_len(entries: HeaderEntries, name: Seq<char>, values: Seq<Seq<char>>)
    requires
        expand_values(entries, name, values) is Some,
    ensures
        entries.len() <= expand_values(entries, name, values)->0.len() <= entries.len() + 1,
        values.len() > 0 ==> parsed_header_name(name) is Some && has_name(
            expand_values(entries, name, values)->0,
            parsed_header_name(name)->0,
        ),
    decreases values.len(),
{
    if values.len() > 0 {
        let earlier = expand_values(entries, name, values.drop_last())->0;
        let normal = parsed_header_name(name)->0;
        lemma_expand_values_len(entries, name, values.drop_last());
        lemma_append_entry_len(earlier, normal, encode_utf8(values.last()));
    }
}

/// Where the values of a record can be appended, so can the first of
/// them, and they leave no more entries than all of them.
proof fn lemma_expand_values_prefix(
    entries: HeaderEntries,
    name: Seq<char>,
    values: Seq<Seq<char>>,
    n: int,
)
    requires
        0 <= n <= values.len(),
        expand_values(entries, name, values) is Some,
    ensures
        expand_values(entries, name, values.take(n)) is Some,
        expand_values(entries, name, values.take(n))->0.len() <= expand_values(
            entries,
            name,
            values,
        )->0.len(),
    decreases values.len(),
{
    if n == values.len() {
        assert(values.take(n) =~= values);
    } else {
        let earlier = expand_values(entries, name, values.drop_last())->0;
        lemma_expand_values_prefix(entries, name, values.drop_last(), n);
        assert(values.drop_last().take(n) =~= values.take(n));
        lemma_append_entry_len(earlier, parsed_header_name(name)->0, encode_utf8(values.last()));
    }
}

/// Where a list of records stands for a map, so do its first records, for
/// a map with no more names; and a map has no more names than the list
/// has records.
proof fn lemma_expand_records_prefix(records: Seq<HttpHeaderModel>, n: int)
    requires
        0 <= n <= records.len(),
        expand_records(records) is Some,
    ensures
        expand_records(records.take(n)) is Some,
        expand_records(records.take(n))->0.len() <= expand_records(records)->0.len(),
        expand_records(records.take(n))->0.len() <= n,
    decreases records.len(),
{
    if records.len() == 0 {
        assert(records.take(n) =~= records);
    } else {
        let earlier = expand_records(records.drop_last())->0;
        lemma_expand_values_len(earlier, records.last().k, records.last().v);
        if n == records.len() {
            assert(records.take(n) =~= records);
            lemma_expand_records_prefix(records.drop_last(), n - 1);
            assert(records.drop_last().take(n - 1) =~= records.drop_last());
        } else {
            lemma_expand_records_prefix(records.drop_last(), n);
            assert(records.drop_last().take(n) =~= records.take(n));
        }
    }
}

/// Makes the header map that a list of records stands for, by appending
/// each value of each record under the record's name.
///
/// There is no map where there are more records than a map can be made
/// for, where the name of a record is no header name, where a value holds
/// a control character other than the tabulator, or where the map refuses
/// a value because it is full. A map that comes back holds what
/// [`expand_records`] says. A map comes back whenever the records stand
/// for one with fewer than [`MIN_FULL_HEADER_NAMES`] names, and so for
/// every list of fewer records with names and values in order.
#[verifier::loop_isolation(false)]
pub fn expand_headers(records: Vec<HttpHeaderFfi>) -> (r: Option<HeaderMap<HeaderValue>>)
    ensures
        r matches Some(map) ==> expand_records(records.deep_view()) == Some(header_entries(map)),
        records.len() > MAX_HEADER_CAPACITY ==> r is None,
        expand_records(records.deep_view()) is None ==> r is None,
        records.len() <= MAX_HEADER_CAPACITY && expand_records(records.deep_view()) is Some
            && expand_records(records.deep_view())->0.len() < MIN_FULL_HEADER_NAMES ==> r is Some,
        records.len() < MIN_FULL_HEADER_NAMES && expand_records(records.deep_view()) is Some ==> r
            is Some,
{
    if records.len() > MAX_HEADER_CAPACITY {
        return None;
    }
    let ghost given = records.deep_view();
    proof {
        if expand_records(given) is Some {
            lemma_expand_records_prefix(given, given.len() as int);
            assert(given.take(given.len() as int) =~= given);
        }
    }
    let mut map = header_map_with_capacity(records.len());
    for record in it: records
        invariant
            it.seq().len() == given.len(),
            forall|i: int| 0 <= i < given.len() ==> (#[trigger] it.seq()[i])@ == given[i],
            expand_records(given.take(it.index() as int)) == Some(header_entries(map)),
    {
        let ghost at = it.index() as int;
        let ghost earlier = header_entries(map);
        assert(record == it.seq()[at]);
        assert(given.take(at + 1).drop_last() =~= given.take(at));
        let HttpHeaderFfi { k, v } = record;
        let ghost values = v.deep_view();
        if normal_header_name(k.as_str()).is_none() {
            proof {
                assert(expand_records(given.take(at + 1)) is None);
                if expand_records(given) is Some {
                    lemma_expand_records_prefix(given, at + 1);
                }
            }
            return None;
        }
        for value in inner: v
            invariant
                inner.seq().len() == values.len(),
                forall|j: int| 0 <= j < values.len() ==> (#[trigger] inner.seq()[j])@ == values[j],
                expand_values(earlier, k@, values.take(inner.index() as int)) == Some(
                    header_entries(map),
                ),
        {
            let ghost j = inner.index() as int;
            let ghost before = header_entries(map);
            assert(value == inner.seq()[j]);
            assert(values.take(j + 1).drop_last() =~= values.take(j));
            match header_map_append(&mut map, k.as_str(), value.as_str().as_bytes()) {
                Some(_) => {},
                None => {
                    proof {
                        if expand_records(given) is Some {
                            lemma_expand_records_prefix(given, at + 1);
                            assert(expand_records(given.take(at + 1)) == expand_values(
                                earlier,
                                k@,
                                values,
                            ));
                            lemma_expand_values_prefix(earlier, k@, values, j);
                            lemma_expand_values_prefix(earlier, k@, values, j + 1);
                            assert(is_value_text(values[j]));
                            assert(before.len() >= MIN_FULL_HEADER_NAMES);
                        }
                    }
                    return None;
                },
            }
        }
        assert(values.take(values.len() as int) =~= values);
    }
    assert(given.take(given.len() as int) =~= given);
    Some(map)
}

// === Laws ===

/// Whether the entries are such as a header map holds them and such that
/// every value has a text in the given reading: no name stands twice,
/// every name is a header name in its normal form, every name has a value,
/// and every value is readable and free of control characters.
pub open spec fn is_faithful(entries: HeaderEntries, how: ValueText) -> bool {
    &&& names_distinct(entries)
    &&& forall|i: int|
        0 <= i < entries.len() ==> parsed_header_name((#[trigger] entries[i]).0) == Some(
            entries[i].0,
        ) && entries[i].1.len() > 0
    &&& forall|i: int, j: int|
        0 <= i < entries.len() && 0 <= j < entries[i].1.len() ==> is_readable(
            #[trigger] entries[i].1[j],
            how,
        ) && forall|k: int|
            0 <= k < entries[i].1[j].len() ==> is_value_byte(#[trigger] entries[i].1[j][k])
}

fn all_value_bytes(bytes: &Vec<u8>) -> (r: bool)
    ensures
        r == forall|i: int| 0 <= i < bytes@.len() ==> is_value_byte(#[trigger] bytes@[i]),
{
    let mut i: usize = 0;
    while i < bytes.len()
        invariant
            i <= bytes.len(),
            forall|j: int| 0 <= j < i ==> is_value_byte(#[trigger] bytes@[j]),
        decreases bytes.len() - i,
    {
        let b = bytes[i];
        if !(b >= 32 && b != 127 || b == 9) {
            return false;
        }
        i += 1;
    }
    true
}

/// Whether a value is readable in the given reading and free of control
/// characters.
fn is_faithful_value(bytes: Vec<u8>, how: ValueText) -> (r: bool)
    ensures
        r == (is_readable(bytes@, how) && forall|k: int|
            0 <= k < bytes@.len() ==> is_value_byte(#[trigger] bytes@[k])),
{
    if !all_value_bytes(&bytes) {
        return false;
    }
    match how {
        ValueText::Utf8 => string_from_utf8(bytes).is_some(),
        ValueText::VisibleAscii => all_visible_ascii(&bytes),
    }
}

/// Whether the entries of a map are faithful in the given reading (see
/// [`is_faithful`]), so that the map comes back from its flat form.
///
/// Not every map is: a name made from lower-case text may hold a
/// quotation mark, which no name read from bytes holds, and a value may
/// hold bytes that are no text.
#[verifier::loop_isolation(false)]
pub fn is_faithful_map(map: &HeaderMap<HeaderValue>, how: ValueText) -> (faithful: bool)
    ensures
        faithful == is_faithful(header_entries(*map), how),
{
    let ghost entries = header_entries(*map);
    let names = header_names(map);
    assert(names_distinct(entries)) by {
        assert forall|i: int, j: int| 0 <= i < j < entries.len() implies (#[trigger] entries[i]).0 != (
        #[trigger] entries[j]).0 by {
            assert(names@[i]@ == entries[i].0 && names@[j]@ == entries[j].0);
        }
    }
    let mut at: usize = 0;
    while at < names.len()
        invariant
            at <= names.len(),
            entries == header_entries(*map),
            names.len() == entries.len(),
            names_distinct(entries),
            forall|i: int| 0 <= i < names.len() ==> (#[trigger] names@[i])@ == entries[i].0,
            forall|i: int|
                0 <= i < at ==> parsed_header_name((#[trigger] entries[i]).0) == Some(entries[i].0)
                    && entries[i].1.len() > 0,
            forall|i: int, j: int|
                0 <= i < at && 0 <= j < entries[i].1.len() ==> is_readable(
                    #[trigger] entries[i].1[j],
                    how,
                ) && forall|k: int|
                    0 <= k < entries[i].1[j].len() ==> is_value_byte(#[trigger] entries[i].1[j][k]),
        decreases names.len() - at,
    {
        let name = names[at].as_str();
        let ghost entry = entries[at as int];
        assert(names@[at as int]@ == entry.0);
        let normal = match normal_header_name(name) {
            Some(normal) => normal,
            None => {
                return false;
            },
        };
        if !same_text(normal.as_str(), name) {
            return false;
        }
        let values = header_values(map, at);
        assert(values.deep_view() == entry.1 && values.len() > 0);
        let ghost given = values.deep_view();
        for bytes in inner: values
            invariant
                given == entries[at as int].1,
                inner.seq().len() == given.len(),
                forall|j: int| 0 <= j < given.len() ==> (#[trigger] inner.seq()[j])@ == given[j],
                forall|j: int|
                    0 <= j < inner.index() ==> is_readable(#[trigger] given[j], how) && forall|k: int|
                        0 <= k < given[j].len() ==> is_value_byte(#[trigger] given[j][k]),
        {
            let ghost j = inner.index() as int;
            assert(bytes == inner.seq()[j]);
            if !is_faithful_value(bytes, how) {
                assert(!(is_readable(entries[at as int].1[j], how) && forall|k: int|
                    0 <= k < entries[at as int].1[j].len() ==> is_value_byte(
                        #[trigger] entries[at as int].1[j][k],
                    )));
                return false;
            }
        }
        at += 1;
    }
    true
}

/// Whether two texts are the same.
pub(crate) fn same_text(a: &str, b: &str) -> (same: bool)
    ensures
        same == (a@ == b@),
{
    a.to_owned() == b.to_owned()
}

proof fn lemma_append_new_name(
    entries: HeaderEntries,
    name: Seq<char>,
    value: Seq<u8>,
)
    requires
        !has_name(entries, name),
    ensures
        append_entry(entries, name, value) == entries.push((name, seq![value])),
    decreases entries.len(),
{
    if entries.len() == 0 {
        assert(append_entry(entries, name, value) =~= entries.push((name, seq![value])));
    } else {
        assert(entries[0].0 != name);
        let rest = entries.drop_first();
        assert forall|i: int| 0 <= i < rest.len() implies (#[trigger] rest[i]).0 != name by {
            assert(rest[i] == entries[i + 1]);
        }
        lemma_append_new_name(rest, name, value);
        assert(seq![entries[0]] + rest.push((name, seq![value])) =~= entries.push(
            (name, seq![value]),
        ));
    }
}

proof fn lemma_append_last_name(
    entries: HeaderEntries,
    name: Seq<char>,
    values: Seq<Seq<u8>>,
    value: Seq<u8>,
)
    requires
        !has_name(entries, name),
    ensures
        append_entry(entries.push((name, values)), name, value) == entries.push(
            (name, values.push(value)),
        ),
    decreases entries.len(),
{
    let all = entries.push((name, values));
    if entries.len() == 0 {
        assert(append_entry(all, name, value) =~= entries.push((name, values.push(value))));
    } else {
        assert(all[0] == entries[0]);
        assert(entries[0].0 != name);
        let rest = entries.drop_first();
        assert forall|i: int| 0 <= i < rest.len() implies (#[trigger] rest[i]).0 != name by {
            assert(rest[i] == entries[i + 1]);
        }
        lemma_append_last_name(rest, name, values, value);
        assert(all.drop_first() =~= rest.push((name, values)));
        assert(seq![entries[0]] + rest.push((name, values.push(value))) =~= entries.push(
            (name, values.push(value)),
        ));
    }
}

proof fn lemma_expand_values_of_new_name(
    entries: HeaderEntries,
    name: Seq<char>,
    values: Seq<Seq<u8>>,
    how: ValueText,
)
    requires
        !has_name(entries, name),
        parsed_header_name(name) == Some(name),
        values.len() > 0,
        forall|j: int|
            0 <= j < values.len() ==> is_readable(#[trigger] values[j], how) && forall|k: int|
                0 <= k < values[j].len() ==> is_value_byte(#[trigger] values[j][k]),
    ensures
        expand_values(entries, name, values.map_values(|b: Seq<u8>| value_text(b, how))) == Some(
            entries.push((name, values)),
        ),
    decreases values.len(),
{
    broadcast use vstd::utf8::decode_utf8_encode_utf8;

    let texts = values.map_values(|b: Seq<u8>| value_text(b, how));
    let last = values.last();
    assert(is_readable(last, how));
    if how == ValueText::VisibleAscii {
        lemma_visible_ascii_is_utf8(last);
    }
    assert(encode_utf8(texts.last()) == last);
    assert(is_value_text(texts.last()));
    let earlier = values.drop_last();
    assert(texts.drop_last() =~= earlier.map_values(|b: Seq<u8>| value_text(b, how)));
    if earlier.len() == 0 {
        assert(expand_values(entries, name, texts.drop_last()) == Some(entries));
        lemma_append_new_name(entries, name, last);
        assert(seq![last] =~= values);
    } else {
        lemma_expand_values_of_new_name(entries, name, earlier, how);
        lemma_append_last_name(entries, name, earlier, last);
        assert(earlier.push(last) =~= values);
    }
}

/// Flattening the entries of a header map and expanding the records
/// gives the entries back: the same names in the same order, each with
/// the same values in the same order. This holds of entries as a map
/// holds them whose values all have a text in the reading used; whether
/// a map at hand is such a one, [`is_faithful_map`] tells.
pub proof fn lemma_flatten_expand(entries: HeaderEntries, how: ValueText)
    requires
        is_faithful(entries, how),
    ensures
        expand_records(flatten_entries(entries, how)) == Some(entries),
    decreases entries.len(),
{
    let records = flatten_entries(entries, how);
    if entries.len() == 0 {
        assert(entries =~= Seq::empty());
    } else {
        let earlier = entries.drop_last();
        let last = entries.last();
        assert(records.drop_last() =~= flatten_entries(earlier, how));
        assert(is_faithful(earlier, how)) by {
            assert forall|i: int| 0 <= i < earlier.len() implies earlier[i] == entries[i] by {}
        }
        lemma_flatten_expand(earlier, how);
        assert(!has_name(earlier, last.0)) by {
            assert forall|i: int| 0 <= i < earlier.len() implies (#[trigger] earlier[i]).0
                != last.0 by {
                assert(earlier[i] == entries[i]);
                assert(last == entries[entries.len() - 1]);
            }
        }
        assert forall|j: int| 0 <= j < last.1.len() implies is_readable(
            #[trigger] last.1[j],
            how,
        ) && forall|k: int| 0 <= k < last.1[j].len() ==> is_value_byte(#[trigger] last.1[j][k]) by {
            assert(last.1[j] == entries[entries.len() - 1].1[j]);
        }
        lemma_expand_values_of_new_name(earlier, last.0, last.1, how);
        assert(earlier.push(last) =~= entries);
    }
}

} // verus!
