//! The JSON document model: what an entity stands for, and its compact text.

use vstd::prelude::*;

verus! {

/// A JSON document, as far as messages need one: strings, arrays and objects.
pub enum JsonValue {
    Text(Seq<char>),
    Array(Seq<JsonValue>),
    Object(Seq<Member>),
}

/// One `key: value` pair of an object.
pub struct Member {
    pub key: Seq<char>,
    pub value: JsonValue,
}

/// One declared field of an entity: its key, and its value if the field is set.
pub struct Field {
    pub key: Seq<char>,
    pub value: Option<JsonValue>,
}

/// The lower-case hexadecimal digit for a value below sixteen.
pub open spec fn hex_digit(n: int) -> char {
    "0123456789abcdef"@[n]
}

/// What a single character becomes inside a JSON string.
///
/// The quote and the backslash get a backslash in front, the control characters
/// below U+0020 get their short form where JSON has one and `\u00XX` otherwise,
/// and every other character stands for itself.
pub open spec fn escape_char(c: char) -> Seq<char> {
    if c == '"' {
        seq!['\\', '"']
    } else if c == '\\' {
        seq!['\\', '\\']
    } else if c == '\u{8}' {
        seq!['\\', 'b']
    } else if c == '\t' {
        seq!['\\', 't']
    } else if c == '\n' {
        seq!['\\', 'n']
    } else if c == '\u{c}' {
        seq!['\\', 'f']
    } else if c == '\r' {
        seq!['\\', 'r']
    } else if (c as u32) < 0x20 {
        seq![
            '\\',
            'u',
            '0',
            '0',
            hex_digit((c as u32) as int / 16),
            hex_digit((c as u32) as int % 16),
        ]
    } else {
        seq![c]
    }
}

/// The escaped form of a whole string: its characters, escaped one by one, in order.
pub open spec fn escape(s: Seq<char>) -> Seq<char>
    decreases s.len(),
{
    if s.len() == 0 {
        Seq::empty()
    } else {
        escape_char(s[0]) + escape(s.drop_first())
    }
}

/// A JSON string literal: the escaped text between two quotes.
pub open spec fn quoted(s: Seq<char>) -> Seq<char> {
    seq!['"'] + escape(s) + seq!['"']
}

/// The members that a table of fields gives rise to: one for each field that is
/// set, in the order of the table. A field that is unset gives none.
pub open spec fn present(fields: Seq<Field>) -> Seq<Member>
    decreases fields.len(),
{
    if fields.len() == 0 {
        Seq::empty()
    } else {
        let earlier = present(fields.drop_last());
        match fields.last().value {
            Some(value) => earlier.push(Member { key: fields.last().key, value }),
            None => earlier,
        }
    }
}

/// The object that an entity with this table of fields stands for.
pub open spec fn object_of(fields: Seq<Field>) -> JsonValue {
    JsonValue::Object(present(fields))
}

/// The field value of an optional string.
pub open spec fn text_value(text: Option<Seq<char>>) -> Option<JsonValue> {
    match text {
        Some(s) => Some(JsonValue::Text(s)),
        None => None,
    }
}

/// The array of the documents of a list of values.
pub open spec fn array_of<T>(items: Seq<T>, document: spec_fn(T) -> JsonValue) -> JsonValue {
    JsonValue::Array(items.map_values(document))
}

/// The comma that stands before every element but the first.
pub open spec fn separator(preceding: nat) -> Seq<char> {
    if preceding == 0 {
        Seq::empty()
    } else {
        seq![',']
    }
}

/// The comma that stands between two parts of a list where neither is empty.
pub open spec fn joint(left: nat, right: nat) -> Seq<char> {
    if left == 0 || right == 0 {
        Seq::empty()
    } else {
        seq![',']
    }
}

/// The compact text of a document: no white space, members and elements in
/// their order, separated by commas.
pub open spec fn render(value: JsonValue) -> Seq<char>
    decreases value,
{
    match value {
        JsonValue::Text(s) => quoted(s),
        JsonValue::Array(items) => seq!['['] + render_items(items) + seq![']'],
        JsonValue::Object(members) => seq!['{'] + render_members(members) + seq!['}'],
    }
}

/// The text of the elements of an array, without the brackets.
pub open spec fn render_items(items: Seq<JsonValue>) -> Seq<char>
    decreases items,
{
    if items.len() == 0 {
        Seq::empty()
    } else {
        render_items(items.drop_last()) + separator(items.drop_last().len()) + render(items.last())
    }
}

/// The text of the members of an object, without the braces.
pub open spec fn render_members(members: Seq<Member>) -> Seq<char>
    decreases members,
{
    if members.len() == 0 {
        Seq::empty()
    } else {
        render_members(members.drop_last()) + separator(members.drop_last().len())
            + render_member(members.last())
    }
}

/// The text of one member: the quoted key, a colon, the value.
pub open spec fn render_member(member: Member) -> Seq<char>
    decreases member,
{
    quoted(member.key) + seq![':'] + render(member.value)
}

/// Whether an object has a member with this key.
pub open spec fn has_key(value: JsonValue, key: Seq<char>) -> bool {
    &&& value is Object
    &&& exists|i: int| 0 <= i < value->Object_0.len() && #[trigger] value->Object_0[i].key == key
}

/// Whether a table has a field with this key that is set.
pub open spec fn is_set(fields: Seq<Field>, key: Seq<char>) -> bool {
    exists|i: int|
        0 <= i < fields.len() && #[trigger] fields[i].key == key && fields[i].value is Some
}

/// A key occurs in an entity's object exactly when a field of that key is set:
/// a field that is unset leaves no member behind, neither a `null` nor an empty
/// value.
pub proof fn lemma_key_present_iff_set(fields: Seq<Field>, key: Seq<char>)
    ensures
        has_key(object_of(fields), key) <==> is_set(fields, key),
    decreases fields.len(),
{
    if fields.len() > 0 {
        let earlier = fields.drop_last();
        let last = fields.last();
        lemma_key_present_iff_set(earlier, key);
        let members = present(fields);
        if has_key(object_of(fields), key) {
            let i = choose|i: int| 0 <= i < members.len() && #[trigger] members[i].key == key;
            if i < present(earlier).len() {
                assert(present(earlier)[i].key == key);
                let j = choose|j: int|
                    0 <= j < earlier.len() && #[trigger] earlier[j].key == key
                        && earlier[j].value is Some;
                assert(fields[j].key == key);
            } else {
                assert(fields[fields.len() - 1].key == key);
            }
        }
        if is_set(fields, key) {
            let j = choose|j: int|
                0 <= j < fields.len() && #[trigger] fields[j].key == key && fields[j].value is Some;
            if j < earlier.len() {
                assert(earlier[j].key == key);
                let i = choose|i: int|
                    0 <= i < present(earlier).len() && #[trigger] present(earlier)[i].key == key;
                assert(members[i].key == key);
            } else {
                assert(members[members.len() - 1].key == key);
            }
        }
    }
}

/// A field that is unset leaves no trace: the members are the same as if the
/// table did not have the field at all, and so are the object and its text.
pub proof fn lemma_unset_field_leaves_no_trace(fields: Seq<Field>, i: int)
    requires
        0 <= i < fields.len(),
        fields[i].value is None,
    ensures
        present(fields.remove(i)) == present(fields),
        render(object_of(fields.remove(i))) == render(object_of(fields)),
    decreases fields.len(),
{
    if i == fields.len() - 1 {
        assert(fields.remove(i) =~= fields.drop_last());
    } else {
        lemma_unset_field_leaves_no_trace(fields.drop_last(), i);
        assert(fields.remove(i).drop_last() =~= fields.drop_last().remove(i));
        assert(fields.remove(i).last() == fields.last());
    }
}

/// Every member of an entity's object comes from a field that is set, and the
/// members stand in the order of their fields.
pub proof fn lemma_members_follow_fields(fields: Seq<Field>) -> (origin: Seq<int>)
    ensures
        origin.len() == present(fields).len(),
        forall|i: int|
            0 <= i < origin.len() ==> 0 <= #[trigger] origin[i] < fields.len()
                && fields[origin[i]].key == present(fields)[i].key
                && fields[origin[i]].value == Some(present(fields)[i].value),
        forall|i: int, j: int| 0 <= i < j < origin.len() ==> origin[i] < origin[j],
    decreases fields.len(),
{
    if fields.len() == 0 {
        Seq::empty()
    } else {
        let earlier = lemma_members_follow_fields(fields.drop_last());
        if fields.last().value is Some {
            earlier.push(fields.len() - 1)
        } else {
            earlier
        }
    }
}

/// A table in which no field is set gives the empty object, whose text is `{}`.
pub proof fn lemma_nothing_set_renders_empty_object(fields: Seq<Field>)
    requires
        forall|i: int| 0 <= i < fields.len() ==> (#[trigger] fields[i]).value is None,
    ensures
        present(fields) == Seq::<Member>::empty(),
        render(object_of(fields)) == "{}"@,
    decreases fields.len(),
{
    reveal_strlit("{}");
    if fields.len() > 0 {
        lemma_nothing_set_renders_empty_object(fields.drop_last());
    }
    assert(render(object_of(fields)) =~= "{}"@);
}

/// The text of an array keeps the order of its elements: the text of a list
/// that is made of two parts is the text of the first part, then the text of
/// the second, with a comma between them where neither is empty.
pub proof fn lemma_render_items_concat(first: Seq<JsonValue>, second: Seq<JsonValue>)
    ensures
        render_items(first + second) == render_items(first) + joint(first.len(), second.len())
            + render_items(second),
    decreases second.len(),
{
    if second.len() == 0 {
        assert(first + second =~= first);
        assert(render_items(first) + joint(first.len(), 0) + render_items(second) =~= render_items(
            first,
        ));
    } else {
        let shorter = second.drop_last();
        lemma_render_items_concat(first, shorter);
        assert((first + second).drop_last() =~= first + shorter);
        assert((first + second).last() == second.last());
        assert(render_items(first + second) =~= render_items(first) + joint(
            first.len(),
            second.len(),
        ) + render_items(second));
    }
}

/// An array holds one element for each value of the list, at the same place.
pub proof fn lemma_array_keeps_order<T>(items: Seq<T>, document: spec_fn(T) -> JsonValue, i: int)
    requires
        0 <= i < items.len(),
    ensures
        array_of(items, document) is Array,
        array_of(items, document)->Array_0.len() == items.len(),
        array_of(items, document)->Array_0[i] == document(items[i]),
{
}

/// Adding one more field to a table adds its member at the end if it is set,
/// and nothing if it is not.
pub proof fn lemma_present_push(fields: Seq<Field>, field: Field)
    ensures
        present(fields.push(field)) == match field.value {
            Some(value) => present(fields).push(Member { key: field.key, value }),
            None => present(fields),
        },
{
    assert(fields.push(field).drop_last() =~= fields);
}

/// The text of a member list that grew by one member at its end.
pub proof fn lemma_render_members_push(members: Seq<Member>, member: Member)
    ensures
        render_members(members.push(member)) == render_members(members) + separator(members.len())
            + render_member(member),
{
    assert(members.push(member).drop_last() =~= members);
}

/// The text of an element list that grew by one element at its end.
pub proof fn lemma_render_items_push(items: Seq<JsonValue>, item: JsonValue)
    ensures
        render_items(items.push(item)) == render_items(items) + separator(items.len()) + render(
            item,
        ),
{
    assert(items.push(item).drop_last() =~= items);
}

} // verus!
