//! The two messages: `Text` and `Cards`.

use crate::card::{Card, CardView};
use crate::error::{missing_field_message, uninitialized, ChatTypeBuildError};
use crate::json::{has_key, lemma_key_present_iff_set, object_of, render, Field, JsonValue};
use crate::writer::ObjectWriter;
use vstd::prelude::*;
use vstd::string::*;

verus! {

/// What a `Text` holds.
pub struct TextView {
    pub text: Seq<char>,
}

impl TextView {
    /// The declared fields, in their order.
    pub open spec fn fields(self) -> Seq<Field> {
        seq![
            Field { key: "text"@, value: Some(JsonValue::Text(self.text)) },
        ]
    }

    /// The JSON object that the text message stands for.
    pub open spec fn document(self) -> JsonValue {
        object_of(self.fields())
    }
}

/// A text message. Its `text` is required.
#[derive(Debug)]
pub struct Text {
    text: String,
}

impl DeepView for Text {
    type V = TextView;

    closed spec fn deep_view(&self) -> TextView {
        TextView {
            text: self.text.deep_view(),
        }
    }
}

impl View for Text {
    type V = TextView;

    open spec fn view(&self) -> TextView {
        self.deep_view()
    }
}

impl Clone for Text {
    fn clone(&self) -> (copy: Self)
        ensures
            copy@ == self@,
    {
        Text { text: self.text.clone() }
    }
}

impl Text {
    /// The `text`.
    pub fn text(&self) -> (text: &str)
        ensures
            text@ == self@.text,
    {
        self.text.as_str()
    }

    /// The compact JSON text of the text message.
    pub fn to_json(&self) -> (text: String)
        ensures
            text@ == render(self@.document()),
    {
        let mut writer = ObjectWriter::new();
        writer.text_member("text", self.text.as_str());
        assert(writer.fields() =~= self@.fields());
        writer.finish()
    }
}

/// Stages the fields of a `Text`. The view is the `text`, once it is set.
#[derive(Debug)]
pub struct TextBuilder {
    text: Option<String>,
}

impl View for TextBuilder {
    type V = Option<Seq<char>>;

    closed spec fn view(&self) -> Option<Seq<char>> {
        self.text.deep_view()
    }
}

impl Default for TextBuilder {
    /// A builder with nothing set.
    fn default() -> (builder: Self)
        ensures
            builder@ is None,
    {
        TextBuilder { text: None }
    }
}

impl Clone for TextBuilder {
    fn clone(&self) -> (copy: Self)
        ensures
            copy@ == self@,
    {
        TextBuilder { text: self.text.clone() }
    }
}

impl TextBuilder {
    /// Sets `text`; an earlier value is overwritten.
    pub fn text(&mut self, value: &str) -> (builder: &mut Self)
        ensures
            builder@ == Some(value@),
            *final(self) == *final(builder),
    {
        self.text = Some(String::from_str(value));
        self
    }

    /// The finished text message, or the error that names `text` if it was never set.
    pub fn build(&self) -> (built: Result<Text, ChatTypeBuildError>)
        ensures
            match self@ {
                Some(text) => built is Ok && built.unwrap()@ == (TextView { text }),
                None => built is Err && built.unwrap_err()@ == missing_field_message("text"@),
            },
    {
        match &self.text {
            Some(value) => Ok(Text { text: value.clone() }),
            None => Err(uninitialized("text")),
        }
    }
}

/// Building twice from one builder gives the same outcome: both times the
/// same error, or two text messages with the same JSON text.
pub proof fn lemma_text_build_repeatable(
    builder: TextBuilder,
    first: Result<Text, ChatTypeBuildError>,
    second: Result<Text, ChatTypeBuildError>,
)
    requires
        call_ensures(TextBuilder::build, (&builder,), first),
        call_ensures(TextBuilder::build, (&builder,), second),
    ensures
        first is Ok <==> second is Ok,
        first is Ok ==> render(first.unwrap()@.document()) == render(
            second.unwrap()@.document(),
        ),
        first is Err ==> first.unwrap_err()@ == second.unwrap_err()@,
{
}

/// The object of a text message always has the key `text`.
pub proof fn lemma_text_keys(text: TextView)
    ensures
        has_key(text.document(), "text"@),
{
    reveal_strlit("text");
    let fields = text.fields();
    lemma_key_present_iff_set(fields, "text"@);
    assert(fields[0].key == "text"@);
}

/// What a `Cards` holds.
pub struct CardsView {
    pub cards: Seq<CardView>,
}

impl CardsView {
    /// The declared fields, in their order.
    pub open spec fn fields(self) -> Seq<Field> {
        seq![
            Field { key: "cards"@, value: Some(CardView::array_document(self.cards)) },
        ]
    }

    /// The JSON object that the card message stands for.
    pub open spec fn document(self) -> JsonValue {
        object_of(self.fields())
    }
}

/// A card message. Its `cards` are required; the list may be empty.
#[derive(Debug)]
pub struct Cards {
    cards: Vec<Card>,
}

impl DeepView for Cards {
    type V = CardsView;

    closed spec fn deep_view(&self) -> CardsView {
        CardsView {
            cards: self.cards.deep_view(),
        }
    }
}

impl View for Cards {
    type V = CardsView;

    open spec fn view(&self) -> CardsView {
        self.deep_view()
    }
}

impl Clone for Cards {
    fn clone(&self) -> (copy: Self)
        ensures
            copy@ == self@,
    {
        Cards { cards: self.cards.clone() }
    }
}

impl Cards {
    /// The `cards`.
    pub fn cards(&self) -> (cards: &Vec<Card>)
        ensures
            cards.deep_view() == self@.cards,
    {
        &self.cards
    }

    /// The compact JSON text of the card message.
    pub fn to_json(&self) -> (text: String)
        ensures
            text@ == render(self@.document()),
    {
        let mut writer = ObjectWriter::new();
        let cards = Card::list_to_json(&self.cards);
        writer.member("cards", cards.as_str(), Ghost(CardView::array_document(self@.cards)));
        assert(writer.fields() =~= self@.fields());
        writer.finish()
    }
}

/// Stages the fields of a `Cards`. The view is the `cards`, once it is set.
#[derive(Debug)]
pub struct CardsBuilder {
    cards: Option<Vec<Card>>,
}

impl View for CardsBuilder {
    type V = Option<Seq<CardView>>;

    closed spec fn view(&self) -> Option<Seq<CardView>> {
        self.cards.deep_view()
    }
}

impl Default for CardsBuilder {
    /// A builder with nothing set.
    fn default() -> (builder: Self)
        ensures
            builder@ is None,
    {
        CardsBuilder { cards: None }
    }
}

impl Clone for CardsBuilder {
    fn clone(&self) -> (copy: Self)
        ensures
            copy@ == self@,
    {
        CardsBuilder { cards: self.cards.clone() }
    }
}

impl CardsBuilder {
    /// Sets `cards`; an earlier value is overwritten.
    pub fn cards(&mut self, value: Vec<Card>) -> (builder: &mut Self)
        ensures
            builder@ == Some(value.deep_view()),
            *final(self) == *final(builder),
    {
        self.cards = Some(value);
        self
    }

    /// The finished card message, or the error that names `cards` if it was never set.
    pub fn build(&self) -> (built: Result<Cards, ChatTypeBuildError>)
        ensures
            match self@ {
                Some(cards) => built is Ok && built.unwrap()@ == (CardsView { cards }),
                None => built is Err && built.unwrap_err()@ == missing_field_message("cards"@),
            },
    {
        match &self.cards {
            Some(value) => Ok(Cards { cards: value.clone() }),
            None => Err(uninitialized("cards")),
        }
    }
}

/// Building twice from one builder gives the same outcome: both times the
/// same error, or two card messages with the same JSON text.
pub proof fn lemma_cards_build_repeatable(
    builder: CardsBuilder,
    first: Result<Cards, ChatTypeBuildError>,
    second: Result<Cards, ChatTypeBuildError>,
)
    requires
        call_ensures(CardsBuilder::build, (&builder,), first),
        call_ensures(CardsBuilder::build, (&builder,), second),
    ensures
        first is Ok <==> second is Ok,
        first is Ok ==> render(first.unwrap()@.document()) == render(
            second.unwrap()@.document(),
        ),
        first is Err ==> first.unwrap_err()@ == second.unwrap_err()@,
{
}

/// The object of a card message always has the key `cards`.
pub proof fn lemma_cards_keys(cards: CardsView)
    ensures
        has_key(cards.document(), "cards"@),
{
    reveal_strlit("cards");
    let fields = cards.fields();
    lemma_key_present_iff_set(fields, "cards"@);
    assert(fields[0].key == "cards"@);
}

} // verus!
