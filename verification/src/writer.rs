//! Writing the compact text of a JSON document into a `String`.

use crate::json::{
    escape, escape_char, lemma_present_push, lemma_render_items_push, lemma_render_members_push,
    object_of, present, quoted, render, render_items, render_members, render_member, separator,
    text_value, Field, JsonValue, Member,
};
use std::str::Chars;
use vstd::prelude::*;
use vstd::std_specs::iter::IteratorSpec;
use vstd::string::*;

verus! {

/// `String::push` appends the one character to the end of the string.
pub assume_specification[ String::push ](s: &mut String, ch: char)
    ensures
        final(s)@ == old(s)@.push(ch),
;

/// Appends the escaped form of one character.
fn push_escaped_char(out: &mut String, c: char)
    ensures
        final(out)@ == old(out)@ + escape_char(c),
{
    let code: u32 = c as u32;
    if c == '"' {
        out.push('\\');
        out.push('"');
    } else if c == '\\' {
        out.push('\\');
        out.push('\\');
    } else if c == '\u{8}' {
        out.push('\\');
        out.push('b');
    } else if c == '\t' {
        out.push('\\');
        out.push('t');
    } else if c == '\n' {
        out.push('\\');
        out.push('n');
    } else if c == '\u{c}' {
        out.push('\\');
        out.push('f');
    } else if c == '\r' {
        out.push('\\');
        out.push('r');
    } else if code < 0x20 {
        let digits = "0123456789abcdef";
        proof {
            reveal_strlit("0123456789abcdef");
        }
        let high: char = digits.get_char((code / 16) as usize);
        let low: char = digits.get_char((code % 16) as usize);
        out.push('\\');
        out.push('u');
        out.push('0');
        out.push('0');
        out.push(high);
        out.push(low);
    } else {
        out.push(c);
    }
    assert(out@ =~= old(out)@ + escape_char(c));
}

/// Appends the JSON string literal for `s`.
pub fn push_quoted(out: &mut String, s: &str)
    ensures
        final(out)@ == old(out)@ + quoted(s@),
{
    out.push('"');
    let mut rest: Chars<'_> = s.chars();
    let ghost start = out@;
    loop
        invariant_except_break
            rest.decrease() is Some,
            out@ + escape(rest.remaining()) == start + escape(s@),
        ensures
            out@ == start + escape(s@),
        decreases rest.decrease()->0,
    {
        match rest.next() {
            Some(c) => {
                let ghost before = out@;
                let ghost tail = rest.remaining();
                push_escaped_char(out, c);
                assert(out@ + escape(tail) =~= before + (escape_char(c) + escape(tail)));
            },
            None => {
                assert(out@ + escape(rest.remaining()) =~= out@);
                break ;
            },
        }
    }
    out.push('"');
    assert(out@ =~= old(out)@ + quoted(s@));
}

/// Writes one JSON object, field by field.
///
/// The writer remembers which fields it was given, set or unset, and holds the
/// text of the members that the set ones gave rise to.
pub(crate) struct ObjectWriter {
    text: String,
    empty: bool,
    fields: Ghost<Seq<Field>>,
}

impl ObjectWriter {
    /// The fields given so far, in the order in which they were given.
    pub(crate) closed spec fn fields(&self) -> Seq<Field> {
        self.fields@
    }

    pub(crate) closed spec fn wf(&self) -> bool {
        &&& self.text@ == seq!['{'] + render_members(present(self.fields@))
        &&& self.empty <==> present(self.fields@).len() == 0
    }

    pub(crate) fn new() -> (writer: Self)
        ensures
            writer.wf(),
            writer.fields() == Seq::<Field>::empty(),
    {
        let mut text = String::new();
        text.push('{');
        assert(text@ =~= seq!['{'] + render_members(present(Seq::<Field>::empty())));
        ObjectWriter { text, empty: true, fields: Ghost(Seq::empty()) }
    }

    /// Writes a field that is set; `rendered` is the text of its value.
    pub(crate) fn member(&mut self, key: &str, rendered: &str, Ghost(value): Ghost<JsonValue>)
        requires
            old(self).wf(),
            rendered@ == render(value),
        ensures
            final(self).wf(),
            final(self).fields() == old(self).fields().push(
                Field { key: key@, value: Some(value) },
            ),
    {
        let ghost before = self.text@;
        let ghost members = present(self.fields@);
        let ghost member = Member { key: key@, value };
        if !self.empty {
            self.text.push(',');
        }
        assert(self.text@ =~= before + separator(members.len()));
        push_quoted(&mut self.text, key);
        self.text.push(':');
        self.text.append(rendered);
        self.empty = false;
        proof {
            lemma_present_push(self.fields@, Field { key: key@, value: Some(value) });
            lemma_render_members_push(members, member);
            assert(self.text@ =~= before + separator(members.len()) + render_member(member));
            assert(self.text@ =~= seq!['{'] + render_members(members.push(member)));
            self.fields@ = self.fields@.push(Field { key: key@, value: Some(value) });
        }
    }

    /// Takes note of a field that is unset: nothing is written for it.
    pub(crate) fn absent(&mut self, Ghost(key): Ghost<Seq<char>>)
        requires
            old(self).wf(),
        ensures
            final(self).wf(),
            final(self).fields() == old(self).fields().push(Field { key, value: None }),
    {
        proof {
            lemma_present_push(self.fields@, Field { key, value: None });
            self.fields@ = self.fields@.push(Field { key, value: None });
        }
    }

    /// Writes a field that holds an entity or a sequence, if it is set;
    /// `rendered` is the text of its value.
    pub(crate) fn field(
        &mut self,
        key: &str,
        rendered: &Option<String>,
        Ghost(value): Ghost<Option<JsonValue>>,
    )
        requires
            old(self).wf(),
            rendered is Some <==> value is Some,
            rendered is Some ==> rendered.unwrap()@ == render(value.unwrap()),
        ensures
            final(self).wf(),
            final(self).fields() == old(self).fields().push(Field { key: key@, value }),
    {
        match rendered {
            Some(text) => self.member(key, text.as_str(), Ghost(value.unwrap())),
            None => self.absent(Ghost(key@)),
        }
    }

    /// Writes a field that holds a string, if it is set.
    pub(crate) fn text_field(&mut self, key: &str, text: &Option<String>)
        requires
            old(self).wf(),
        ensures
            final(self).wf(),
            final(self).fields() == old(self).fields().push(
                Field { key: key@, value: text_value(text.deep_view()) },
            ),
    {
        match text {
            Some(s) => self.text_member(key, s.as_str()),
            None => self.absent(Ghost(key@)),
        }
    }

    /// Writes a field that holds a string and is always set.
    pub(crate) fn text_member(&mut self, key: &str, text: &str)
        requires
            old(self).wf(),
        ensures
            final(self).wf(),
            final(self).fields() == old(self).fields().push(
                Field { key: key@, value: Some(JsonValue::Text(text@)) },
            ),
    {
        let mut rendered = String::new();
        push_quoted(&mut rendered, text);
        assert(rendered@ =~= render(JsonValue::Text(text@)));
        self.member(key, rendered.as_str(), Ghost(JsonValue::Text(text@)));
    }

    /// Closes the object and hands out its text.
    pub(crate) fn finish(self) -> (text: String)
        requires
            self.wf(),
        ensures
            text@ == render(object_of(self.fields())),
    {
        let mut text = self.text;
        text.push('}');
        assert(text@ =~= render(object_of(self.fields@)));
        text
    }
}

/// Writes one JSON array, element by element.
pub(crate) struct ArrayWriter {
    text: String,
    empty: bool,
    items: Ghost<Seq<JsonValue>>,
}

impl ArrayWriter {
    /// The elements given so far, in the order in which they were given.
    pub(crate) closed spec fn items(&self) -> Seq<JsonValue> {
        self.items@
    }

    pub(crate) closed spec fn wf(&self) -> bool {
        &&& self.text@ == seq!['['] + render_items(self.items@)
        &&& self.empty <==> self.items@.len() == 0
    }

    pub(crate) fn new() -> (writer: Self)
        ensures
            writer.wf(),
            writer.items() == Seq::<JsonValue>::empty(),
    {
        let mut text = String::new();
        text.push('[');
        assert(text@ =~= seq!['['] + render_items(Seq::<JsonValue>::empty()));
        ArrayWriter { text, empty: true, items: Ghost(Seq::empty()) }
    }

    /// Writes the next element; `rendered` is its text.
    pub(crate) fn item(&mut self, rendered: &str, Ghost(value): Ghost<JsonValue>)
        requires
            old(self).wf(),
            rendered@ == render(value),
        ensures
            final(self).wf(),
            final(self).items() == old(self).items().push(value),
    {
        let ghost before = self.text@;
        if !self.empty {
            self.text.push(',');
        }
        assert(self.text@ =~= before + separator(self.items@.len()));
        self.text.append(rendered);
        self.empty = false;
        proof {
            lemma_render_items_push(self.items@, value);
            assert(self.text@ =~= seq!['['] + render_items(self.items@.push(value)));
            self.items@ = self.items@.push(value);
        }
    }

    /// Closes the array and hands out its text.
    pub(crate) fn finish(self) -> (text: String)
        requires
            self.wf(),
        ensures
            text@ == render(JsonValue::Array(self.items())),
    {
        let mut text = self.text;
        text.push(']');
        text
    }
}

} // verus!
