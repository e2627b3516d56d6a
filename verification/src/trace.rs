//! What the trace of a request records of its headers.
use crate::text::same_text;
use vstd::prelude::*;

verus! {

/// The headers of a request, `http::HeaderMap`.
#[verifier::external_type_specification]
#[verifier::external_body]
#[verifier::reject_recursive_types(T)]
pub struct ExHeaderMap<T>(http::HeaderMap<T>);

/// The value of a header, `http::HeaderValue`.
#[verifier::external_type_specification]
#[verifier::external_body]
pub struct ExHeaderValue(http::HeaderValue);

/// The headers as they are walked: each name, in lower case, with each of its
/// values.
pub uninterp spec fn header_entries(headers: http::HeaderMap<http::HeaderValue>) -> Seq<
    (Seq<char>, Seq<u8>),
>;

/// The bytes of a value.
pub uninterp spec fn value_bytes(value: http::HeaderValue) -> Seq<u8>;

/// Some headers as values.
pub open spec fn entries_view(entries: Seq<(String, http::HeaderValue)>) -> Seq<
    (Seq<char>, Seq<u8>),
> {
    entries.map_values(|entry: (String, http::HeaderValue)| (entry.0@, value_bytes(entry.1)))
}

/// Calls `http::HeaderMap::iter`: every name with each of its values, in the
/// order in which the map is walked.
#[verifier::external_body]
fn header_list(headers: &http::HeaderMap<http::HeaderValue>) -> (r: Vec<
    (String, http::HeaderValue),
>)
    ensures
        entries_view(r@) == header_entries(*headers),
{
    headers.iter().map(|(name, value)| (name.as_str().to_owned(), value.clone())).collect()
}

/// Whether a byte is a visible ASCII character, a space or a tab.
pub open spec fn is_visible_ascii(byte: u8) -> bool {
    byte == 9 || 32 <= byte < 127
}

/// Whether all the bytes are visible ASCII characters.
pub open spec fn is_printable(bytes: Seq<u8>) -> bool {
    forall|i: int| 0 <= i < bytes.len() ==> is_visible_ascii(#[trigger] bytes[i])
}

/// The characters that ASCII bytes stand for.
pub open spec fn ascii_text(bytes: Seq<u8>) -> Seq<char> {
    Seq::new(bytes.len(), |i: int| bytes[i] as char)
}

/// Calls `http::HeaderValue::to_str`: the value as text, if all of it is visible
/// ASCII.
#[verifier::external_body]
fn header_text(value: &http::HeaderValue) -> (r: Option<String>)
    ensures
        match r {
            Some(text) => is_printable(value_bytes(*value)) && text@ == ascii_text(
                value_bytes(*value),
            ),
            None => !is_printable(value_bytes(*value)),
        },
{
    value.to_str().ok().map(|text| text.to_owned())
}

/// Whether the header is one of those that are recorded.
pub open spec fn is_recorded(name: Seq<char>) -> bool {
    name == "user-agent"@ || name == "content-type"@ || name == "content-length"@
}

/// What is recorded of a value.
pub open spec fn field_text(value: Seq<u8>) -> Seq<char> {
    if is_printable(value) {
        ascii_text(value)
    } else {
        "invalid"@
    }
}

/// The fields that some headers lead to, in their order.
pub open spec fn fields_of(entries: Seq<(Seq<char>, Seq<u8>)>) -> Seq<(Seq<char>, Seq<char>)>
    decreases entries.len(),
{
    if entries.len() == 0 {
        Seq::empty()
    } else {
        let fields = fields_of(entries.drop_last());
        let (name, value) = entries.last();
        if is_recorded(name) {
            fields.push((name, field_text(value)))
        } else {
            fields
        }
    }
}

/// Some fields as values.
pub open spec fn fields_view(fields: Seq<(String, String)>) -> Seq<(Seq<char>, Seq<char>)> {
    fields.map_values(|field: (String, String)| (field.0@, field.1@))
}

/// Whether the header is one of those that are recorded.
pub fn records(name: &str) -> (r: bool)
    ensures
        r == is_recorded(name@),
{
    same_text(name, "user-agent") || same_text(name, "content-type") || same_text(
        name,
        "content-length",
    )
}

/// What is recorded of a value that is text or, where there is none, is not.
pub fn text_or_invalid(text: Option<String>) -> (r: String)
    ensures
        r@ == (match text {
            Some(text) => text@,
            None => "invalid"@,
        }),
{
    match text {
        Some(text) => text,
        None => "invalid".to_owned(),
    }
}

/// The fields that some headers lead to.
pub fn recorded_fields(entries: &Vec<(String, http::HeaderValue)>) -> (r: Vec<(String, String)>)
    ensures
        fields_view(r@) == fields_of(entries_view(entries@)),
{
    let ghost all = entries_view(entries@);
    let mut fields: Vec<(String, String)> = Vec::new();
    let mut i: usize = 0;
    assert(fields_view(fields@) == fields_of(all.take(0)));
    while i < entries.len()
        invariant
            i <= entries@.len(),
            all == entries_view(entries@),
            fields_view(fields@) == fields_of(all.take(i as int)),
        decreases entries@.len() - i,
    {
        let ghost before = fields@;
        let name = entries[i].0.clone();
        proof {
            assert(all.take(i + 1).drop_last() == all.take(i as int));
            assert(all.take(i + 1).last() == (name@, value_bytes(entries@[i as int].1)));
        }
        if records(name.as_str()) {
            let text = text_or_invalid(header_text(&entries[i].1));
            fields.push((name, text));
            assert(fields_view(fields@) == fields_view(before).push(
                (name@, field_text(value_bytes(entries@[i as int].1))),
            ));
        }
        i = i + 1;
    }
    assert(all.take(all.len() as int) == all);
    fields
}

/// The fields that the span of a request records: the client, and the type and
/// length of the body, as far as the request's headers tell them.
pub fn span_fields(headers: &http::HeaderMap<http::HeaderValue>) -> (r: Vec<(String, String)>)
    ensures
        fields_view(r@) == fields_of(header_entries(*headers)),
{
    recorded_fields(&header_list(headers))
}

/// Whether a character is visible ASCII, a space or a tab.
pub open spec fn is_visible_char(c: char) -> bool {
    c == '\t' || ' ' <= c <= '~'
}

/// Whether all the characters are visible.
pub open spec fn is_visible_text(text: Seq<char>) -> bool {
    forall|i: int| 0 <= i < text.len() ==> is_visible_char(#[trigger] text[i])
}

/// No header leads to a field but the three that are recorded, and no value,
/// whatever bytes a client sends, puts an unprintable character in a field.
pub proof fn law_fields_are_printable(entries: Seq<(Seq<char>, Seq<u8>)>, i: int)
    requires
        0 <= i < fields_of(entries).len(),
    ensures
        is_recorded(fields_of(entries)[i].0),
        is_visible_text(fields_of(entries)[i].1),
    decreases entries.len(),
{
    let earlier = fields_of(entries.drop_last());
    if i < earlier.len() {
        law_fields_are_printable(entries.drop_last(), i);
    } else {
        let value = entries.last().1;
        reveal_strlit("invalid");
        if is_printable(value) {
            assert forall|j: int| 0 <= j < value.len() implies is_visible_char(
                #[trigger] ascii_text(value)[j],
            ) by {
                assert(is_visible_ascii(value[j]));
            }
        }
    }
}

/// A single header leads to a field just when it is one of the three, under its own
/// name and with its own text, or with `invalid` where one of its bytes is neither
/// visible ASCII, a space nor a tab.
pub proof fn law_header_leads_to_its_field(name: Seq<char>, value: Seq<u8>, i: int)
    ensures
        ({
            let fields = fields_of(seq![(name, value)]);
            let recorded = name == "user-agent"@ || name == "content-type"@ || name
                == "content-length"@;
            let visible = forall|j: int|
                0 <= j < value.len() ==> (#[trigger] value[j]) == 9 || 32 <= value[j] <= 126;
            &&& fields.len() == (if recorded { 1nat } else { 0nat })
            &&& recorded ==> fields[0].0 == name
            &&& recorded && !visible ==> fields[0].1 == "invalid"@
            &&& recorded && visible ==> {
                &&& fields[0].1.len() == value.len()
                &&& 0 <= i < value.len() ==> fields[0].1[i] as u32 == value[i] as u32
            }
        }),
{
    let entries = seq![(name, value)];
    assert(entries.drop_last() == Seq::<(Seq<char>, Seq<u8>)>::empty());
    assert(fields_of(entries.drop_last()) == Seq::<(Seq<char>, Seq<char>)>::empty());
    assert(entries.last() == (name, value));
    let visible = forall|j: int|
        0 <= j < value.len() ==> (#[trigger] value[j]) == 9 || 32 <= value[j] <= 126;
    if visible {
        assert forall|j: int| 0 <= j < value.len() implies is_visible_ascii(
            #[trigger] value[j],
        ) by {}
    } else {
        let j = choose|j: int|
            0 <= j < value.len() && !((#[trigger] value[j]) == 9 || 32 <= value[j] <= 126);
        assert(!is_visible_ascii(value[j]));
    }
}

/// Headers lead to the same fields whatever other headers stand before or behind
/// them, and in their own order.
pub proof fn law_headers_do_not_change_each_other(
    first: Seq<(Seq<char>, Seq<u8>)>,
    second: Seq<(Seq<char>, Seq<u8>)>,
)
    ensures
        fields_of(first + second) == fields_of(first) + fields_of(second),
        fields_of(Seq::empty()).len() == 0,
    decreases second.len(),
{
    if second.len() == 0 {
        assert(first + second == first);
        assert(fields_of(second) == Seq::<(Seq<char>, Seq<char>)>::empty());
        assert(fields_of(first) + fields_of(second) == fields_of(first));
    } else {
        law_headers_do_not_change_each_other(first, second.drop_last());
        assert((first + second).drop_last() == first + second.drop_last());
        assert((first + second).last() == second.last());
        assert(fields_of(first + second) == fields_of(first) + fields_of(second));
    }
}

/// A header is recorded for its name alone.
pub proof fn law_three_names_are_recorded(name: Seq<char>)
    ensures
        is_recorded(name) <==> name == "user-agent"@ || name == "content-type"@ || name
            == "content-length"@,
{
}

/// The views of headers and of fields have each of them in its place, names and
/// texts by their characters.
pub proof fn law_views_keep_headers(
    entries: Seq<(String, http::HeaderValue)>,
    fields: Seq<(String, String)>,
    i: int,
)
    ensures
        entries_view(entries).len() == entries.len(),
        0 <= i < entries.len() ==> entries_view(entries)[i] == (entries[i].0@, value_bytes(
            entries[i].1,
        )),
        fields_view(fields).len() == fields.len(),
        0 <= i < fields.len() ==> fields_view(fields)[i] == (fields[i].0@, fields[i].1@),
{
}

} // verus!
