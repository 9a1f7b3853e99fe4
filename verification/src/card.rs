//! Cards: `Card`, its `Header` and its `Section`s.

use crate::error::ChatTypeBuildError;
use crate::json::{
    array_of, has_key, lemma_key_present_iff_set, lemma_nothing_set_renders_empty_object, object_of,
    render, text_value, Field, JsonValue,
};
use crate::widget::{Widget, WidgetView};
use crate::writer::{ArrayWriter, ObjectWriter};
use vstd::prelude::*;
use vstd::string::*;

verus! {

/// What a `Header` holds.
pub struct HeaderView {
    pub title: Option<Seq<char>>,
    pub subtitle: Option<Seq<char>>,
    pub image_url: Option<Seq<char>>,
    pub image_style: Option<Seq<char>>,
}

impl HeaderView {
    /// The header with no field set.
    pub open spec fn empty() -> Self {
        HeaderView { title: None, subtitle: None, image_url: None, image_style: None }
    }

    /// The declared fields, in their order.
    pub open spec fn fields(self) -> Seq<Field> {
        seq![
            Field { key: "title"@, value: text_value(self.title) },
            Field { key: "subtitle"@, value: text_value(self.subtitle) },
            Field { key: "imageUrl"@, value: text_value(self.image_url) },
            Field { key: "imageStyle"@, value: text_value(self.image_style) },
        ]
    }

    /// The JSON object that the header stands for.
    pub open spec fn document(self) -> JsonValue {
        object_of(self.fields())
    }

    /// The value of a field that may hold a header.
    pub open spec fn optional_document(value: Option<Self>) -> Option<JsonValue> {
        match value {
            Some(inner) => Some(inner.document()),
            None => None,
        }
    }
}

/// The header of a card. Every field is optional.
#[derive(Debug)]
pub struct Header {
    title: Option<String>,
    subtitle: Option<String>,
    image_url: Option<String>,
    image_style: Option<String>,
}

impl DeepView for Header {
    type V = HeaderView;

    closed spec fn deep_view(&self) -> HeaderView {
        HeaderView {
            title: self.title.deep_view(),
            subtitle: self.subtitle.deep_view(),
            image_url: self.image_url.deep_view(),
            image_style: self.image_style.deep_view(),
        }
    }
}

impl View for Header {
    type V = HeaderView;

    open spec fn view(&self) -> HeaderView {
        self.deep_view()
    }
}

impl Clone for Header {
    fn clone(&self) -> (copy: Self)
        ensures
            copy@ == self@,
    {
        Header {
            title: self.title.clone(),
            subtitle: self.subtitle.clone(),
            image_url: self.image_url.clone(),
            image_style: self.image_style.clone(),
        }
    }
}

impl Default for Header {
    /// The header with no field set.
    fn default() -> (empty: Self)
        ensures
            empty@ == HeaderView::empty(),
    {
        Header { title: None, subtitle: None, image_url: None, image_style: None }
    }
}

impl Header {
    /// The `title`, if it is set.
    pub fn title(&self) -> (title: &Option<String>)
        ensures
            title.deep_view() == self@.title,
    {
        &self.title
    }

    /// The `subtitle`, if it is set.
    pub fn subtitle(&self) -> (subtitle: &Option<String>)
        ensures
            subtitle.deep_view() == self@.subtitle,
    {
        &self.subtitle
    }

    /// The `image_url`, if it is set.
    pub fn image_url(&self) -> (image_url: &Option<String>)
        ensures
            image_url.deep_view() == self@.image_url,
    {
        &self.image_url
    }

    /// The `image_style`, if it is set.
    pub fn image_style(&self) -> (image_style: &Option<String>)
        ensures
            image_style.deep_view() == self@.image_style,
    {
        &self.image_style
    }

    /// The compact JSON text of the header.
    pub fn to_json(&self) -> (text: String)
        ensures
            text@ == render(self@.document()),
    {
        let mut writer = ObjectWriter::new();
        writer.text_field("title", &self.title);
        writer.text_field("subtitle", &self.subtitle);
        writer.text_field("imageUrl", &self.image_url);
        writer.text_field("imageStyle", &self.image_style);
        assert(writer.fields() =~= self@.fields());
        writer.finish()
    }
}

/// Stages the fields of a `Header`. The view is the header that the fields set so
/// far describe.
#[derive(Debug)]
pub struct HeaderBuilder {
    title: Option<String>,
    subtitle: Option<String>,
    image_url: Option<String>,
    image_style: Option<String>,
}

impl View for HeaderBuilder {
    type V = HeaderView;

    closed spec fn view(&self) -> HeaderView {
        HeaderView {
            title: self.title.deep_view(),
            subtitle: self.subtitle.deep_view(),
            image_url: self.image_url.deep_view(),
            image_style: self.image_style.deep_view(),
        }
    }
}

impl Default for HeaderBuilder {
    /// A builder with nothing set.
    fn default() -> (builder: Self)
        ensures
            builder@ == HeaderView::empty(),
    {
        HeaderBuilder { title: None, subtitle: None, image_url: None, image_style: None }
    }
}

impl Clone for HeaderBuilder {
    fn clone(&self) -> (copy: Self)
        ensures
            copy@ == self@,
    {
        HeaderBuilder {
            title: self.title.clone(),
            subtitle: self.subtitle.clone(),
            image_url: self.image_url.clone(),
            image_style: self.image_style.clone(),
        }
    }
}

impl HeaderBuilder {
    /// Sets `title`; an earlier value is overwritten.
    pub fn title(&mut self, value: &str) -> (builder: &mut Self)
        ensures
            builder@ == (HeaderView { title: Some(value@), ..old(self)@ }),
            *final(self) == *final(builder),
    {
        self.title = Some(String::from_str(value));
        self
    }

    /// Sets `subtitle`; an earlier value is overwritten.
    pub fn subtitle(&mut self, value: &str) -> (builder: &mut Self)
        ensures
            builder@ == (HeaderView { subtitle: Some(value@), ..old(self)@ }),
            *final(self) == *final(builder),
    {
        self.subtitle = Some(String::from_str(value));
        self
    }

    /// Sets `image_url`; an earlier value is overwritten.
    pub fn image_url(&mut self, value: &str) -> (builder: &mut Self)
        ensures
            builder@ == (HeaderView { image_url: Some(value@), ..old(self)@ }),
            *final(self) == *final(builder),
    {
        self.image_url = Some(String::from_str(value));
        self
    }

    /// Sets `image_style`; an earlier value is overwritten.
    pub fn image_style(&mut self, value: &str) -> (builder: &mut Self)
        ensures
            builder@ == (HeaderView { image_style: Some(value@), ..old(self)@ }),
            *final(self) == *final(builder),
    {
        self.image_style = Some(String::from_str(value));
        self
    }

    /// The finished header: every field as it was set, the others unset. This
    /// never fails, as no field is required.
    pub fn build(&self) -> (built: Result<Header, ChatTypeBuildError>)
        ensures
            built is Ok,
            built.unwrap()@ == self@,
    {
        Ok(
            Header {
                title: self.title.clone(),
                subtitle: self.subtitle.clone(),
                image_url: self.image_url.clone(),
                image_style: self.image_style.clone(),
            },
        )
    }
}

/// A builder with nothing set builds a header whose JSON text is `{}`.
pub proof fn lemma_header_nothing_set(
    builder: HeaderBuilder,
    built: Result<Header, ChatTypeBuildError>,
)
    requires
        builder@ == HeaderView::empty(),
        call_ensures(HeaderBuilder::build, (&builder,), built),
    ensures
        built is Ok,
        render(built.unwrap()@.document()) == "{}"@,
{
    lemma_nothing_set_renders_empty_object(HeaderView::empty().fields());
}

/// Building twice from one builder gives the same outcome: both times the
/// same error, or two headers with the same JSON text.
pub proof fn lemma_header_build_repeatable(
    builder: HeaderBuilder,
    first: Result<Header, ChatTypeBuildError>,
    second: Result<Header, ChatTypeBuildError>,
)
    requires
        call_ensures(HeaderBuilder::build, (&builder,), first),
        call_ensures(HeaderBuilder::build, (&builder,), second),
    ensures
        first is Ok <==> second is Ok,
        first is Ok ==> render(first.unwrap()@.document()) == render(
            second.unwrap()@.document(),
        ),
        first is Err ==> first.unwrap_err()@ == second.unwrap_err()@,
{
}

/// The object of a header has a key exactly when the field of that key is set.
pub proof fn lemma_header_keys(header: HeaderView)
    ensures
        has_key(header.document(), "title"@) <==> header.title is Some,
        has_key(header.document(), "subtitle"@) <==> header.subtitle is Some,
        has_key(header.document(), "imageUrl"@) <==> header.image_url is Some,
        has_key(header.document(), "imageStyle"@) <==> header.image_style is Some,
{
    reveal_strlit("title");
    reveal_strlit("subtitle");
    reveal_strlit("imageUrl");
    reveal_strlit("imageStyle");
    assert("subtitle"@[0] != "imageUrl"@[0]);
    let fields = header.fields();
    lemma_key_present_iff_set(fields, "title"@);
    assert(fields[0].key == "title"@);
    lemma_key_present_iff_set(fields, "subtitle"@);
    assert(fields[1].key == "subtitle"@);
    lemma_key_present_iff_set(fields, "imageUrl"@);
    assert(fields[2].key == "imageUrl"@);
    lemma_key_present_iff_set(fields, "imageStyle"@);
    assert(fields[3].key == "imageStyle"@);
}

/// What a `Section` holds.
pub struct SectionView {
    pub header: Option<Seq<char>>,
    pub widgets: Option<Seq<WidgetView>>,
}

impl SectionView {
    /// The section with no field set.
    pub open spec fn empty() -> Self {
        SectionView { header: None, widgets: None }
    }

    /// The declared fields, in their order.
    pub open spec fn fields(self) -> Seq<Field> {
        seq![
            Field { key: "header"@, value: text_value(self.header) },
            Field { key: "widgets"@, value: WidgetView::optional_array_document(self.widgets) },
        ]
    }

    /// The JSON object that the section stands for.
    pub open spec fn document(self) -> JsonValue {
        object_of(self.fields())
    }

    /// The array that a list of sections stands for: the object of each, in order.
    pub open spec fn array_document(items: Seq<Self>) -> JsonValue {
        array_of(items, |item: Self| item.document())
    }

    /// The value of a field that may hold a list of sections. A list that is set
    /// and empty gives the empty array, not an unset field.
    pub open spec fn optional_array_document(items: Option<Seq<Self>>) -> Option<
        JsonValue,
    > {
        match items {
            Some(list) => Some(Self::array_document(list)),
            None => None,
        }
    }
}

/// A section of a card. Every field is optional.
#[derive(Debug)]
pub struct Section {
    header: Option<String>,
    widgets: Option<Vec<Widget>>,
}

impl DeepView for Section {
    type V = SectionView;

    closed spec fn deep_view(&self) -> SectionView {
        SectionView {
            header: self.header.deep_view(),
            widgets: self.widgets.deep_view(),
        }
    }
}

impl View for Section {
    type V = SectionView;

    open spec fn view(&self) -> SectionView {
        self.deep_view()
    }
}

impl Clone for Section {
    fn clone(&self) -> (copy: Self)
        ensures
            copy@ == self@,
    {
        Section { header: self.header.clone(), widgets: self.widgets.clone() }
    }
}

impl Default for Section {
    /// The section with no field set.
    fn default() -> (empty: Self)
        ensures
            empty@ == SectionView::empty(),
    {
        Section { header: None, widgets: None }
    }
}

impl Section {
    /// The `header`, if it is set.
    pub fn header(&self) -> (header: &Option<String>)
        ensures
            header.deep_view() == self@.header,
    {
        &self.header
    }

    /// The `widgets`, if it is set.
    pub fn widgets(&self) -> (widgets: &Option<Vec<Widget>>)
        ensures
            widgets.deep_view() == self@.widgets,
    {
        &self.widgets
    }

    /// The compact JSON text of the section.
    pub fn to_json(&self) -> (text: String)
        ensures
            text@ == render(self@.document()),
    {
        let mut writer = ObjectWriter::new();
        writer.text_field("header", &self.header);
        let widgets = match &self.widgets {
            Some(items) => Some(Widget::list_to_json(items)),
            None => None,
        };
        writer.field(
            "widgets",
            &widgets,
            Ghost(WidgetView::optional_array_document(self@.widgets)),
        );
        assert(writer.fields() =~= self@.fields());
        writer.finish()
    }

    /// The compact JSON text of a list of sections: an array, in the order of the list.
    pub fn list_to_json(items: &Vec<Section>) -> (text: String)
        ensures
            text@ == render(SectionView::array_document(items.deep_view())),
    {
        let mut writer = ArrayWriter::new();
        let mut done: usize = 0;
        while done < items.len()
            invariant
                writer.wf(),
                done <= items.len(),
                writer.items().len() == done,
                forall|i: int|
                    0 <= i < done ==> writer.items()[i] == items[i]@.document(),
            decreases items.len() - done,
        {
            let rendered = items[done].to_json();
            writer.item(rendered.as_str(), Ghost(items[done as int]@.document()));
            done += 1;
        }
        assert(writer.items() =~= items.deep_view().map_values(
            |item: SectionView| item.document(),
        ));
        writer.finish()
    }
}

/// Stages the fields of a `Section`. The view is the section that the fields set so
/// far describe.
#[derive(Debug)]
pub struct SectionBuilder {
    header: Option<String>,
    widgets: Option<Vec<Widget>>,
}

impl View for SectionBuilder {
    type V = SectionView;

    closed spec fn view(&self) -> SectionView {
        SectionView {
            header: self.header.deep_view(),
            widgets: self.widgets.deep_view(),
        }
    }
}

impl Default for SectionBuilder {
    /// A builder with nothing set.
    fn default() -> (builder: Self)
        ensures
            builder@ == SectionView::empty(),
    {
        SectionBuilder { header: None, widgets: None }
    }
}

impl Clone for SectionBuilder {
    fn clone(&self) -> (copy: Self)
        ensures
            copy@ == self@,
    {
        SectionBuilder { header: self.header.clone(), widgets: self.widgets.clone() }
    }
}

impl SectionBuilder {
    /// Sets `header`; an earlier value is overwritten.
    pub fn header(&mut self, value: &str) -> (builder: &mut Self)
        ensures
            builder@ == (SectionView { header: Some(value@), ..old(self)@ }),
            *final(self) == *final(builder),
    {
        self.header = Some(String::from_str(value));
        self
    }

    /// Sets `widgets`; an earlier value is overwritten.
    pub fn widgets(&mut self, value: Vec<Widget>) -> (builder: &mut Self)
        ensures
            builder@ == (SectionView { widgets: Some(value.deep_view()), ..old(self)@ }),
            *final(self) == *final(builder),
    {
        self.widgets = Some(value);
        self
    }

    /// The finished section: every field as it was set, the others unset. This
    /// never fails, as no field is required.
    pub fn build(&self) -> (built: Result<Section, ChatTypeBuildError>)
        ensures
            built is Ok,
            built.unwrap()@ == self@,
    {
        Ok(Section { header: self.header.clone(), widgets: self.widgets.clone() })
    }
}

/// A builder with nothing set builds a section whose JSON text is `{}`.
pub proof fn lemma_section_nothing_set(
    builder: SectionBuilder,
    built: Result<Section, ChatTypeBuildError>,
)
    requires
        builder@ == SectionView::empty(),
        call_ensures(SectionBuilder::build, (&builder,), built),
    ensures
        built is Ok,
        render(built.unwrap()@.document()) == "{}"@,
{
    lemma_nothing_set_renders_empty_object(SectionView::empty().fields());
}

/// Building twice from one builder gives the same outcome: both times the
/// same error, or two sections with the same JSON text.
pub proof fn lemma_section_build_repeatable(
    builder: SectionBuilder,
    first: Result<Section, ChatTypeBuildError>,
    second: Result<Section, ChatTypeBuildError>,
)
    requires
        call_ensures(SectionBuilder::build, (&builder,), first),
        call_ensures(SectionBuilder::build, (&builder,), second),
    ensures
        first is Ok <==> second is Ok,
        first is Ok ==> render(first.unwrap()@.document()) == render(
            second.unwrap()@.document(),
        ),
        first is Err ==> first.unwrap_err()@ == second.unwrap_err()@,
{
}

/// The object of a section has a key exactly when the field of that key is set.
pub proof fn lemma_section_keys(section: SectionView)
    ensures
        has_key(section.document(), "header"@) <==> section.header is Some,
        has_key(section.document(), "widgets"@) <==> section.widgets is Some,
{
    reveal_strlit("header");
    reveal_strlit("widgets");
    let fields = section.fields();
    lemma_key_present_iff_set(fields, "header"@);
    assert(fields[0].key == "header"@);
    lemma_key_present_iff_set(fields, "widgets"@);
    assert(fields[1].key == "widgets"@);
}

/// What a `Card` holds.
pub struct CardView {
    pub header: Option<HeaderView>,
    pub sections: Option<Seq<SectionView>>,
}

impl CardView {
    /// The card with no field set.
    pub open spec fn empty() -> Self {
        CardView { header: None, sections: None }
    }

    /// The declared fields, in their order.
    pub open spec fn fields(self) -> Seq<Field> {
        seq![
            Field { key: "header"@, value: HeaderView::optional_document(self.header) },
            Field { key: "sections"@, value: SectionView::optional_array_document(self.sections) },
        ]
    }

    /// The JSON object that the card stands for.
    pub open spec fn document(self) -> JsonValue {
        object_of(self.fields())
    }

    /// The array that a list of cards stands for: the object of each, in order.
    pub open spec fn array_document(items: Seq<Self>) -> JsonValue {
        array_of(items, |item: Self| item.document())
    }
}

/// One card of a card message. Every field is optional.
#[derive(Debug)]
pub struct Card {
    header: Option<Header>,
    sections: Option<Vec<Section>>,
}

impl DeepView for Card {
    type V = CardView;

    closed spec fn deep_view(&self) -> CardView {
        CardView {
            header: self.header.deep_view(),
            sections: self.sections.deep_view(),
        }
    }
}

impl View for Card {
    type V = CardView;

    open spec fn view(&self) -> CardView {
        self.deep_view()
    }
}

impl Clone for Card {
    fn clone(&self) -> (copy: Self)
        ensures
            copy@ == self@,
    {
        Card { header: self.header.clone(), sections: self.sections.clone() }
    }
}

impl Default for Card {
    /// The card with no field set.
    fn default() -> (empty: Self)
        ensures
            empty@ == CardView::empty(),
    {
        Card { header: None, sections: None }
    }
}

impl Card {
    /// The `header`, if it is set.
    pub fn header(&self) -> (header: &Option<Header>)
        ensures
            header.deep_view() == self@.header,
    {
        &self.header
    }

    /// The `sections`, if it is set.
    pub fn sections(&self) -> (sections: &Option<Vec<Section>>)
        ensures
            sections.deep_view() == self@.sections,
    {
        &self.sections
    }

    /// The compact JSON text of the card.
    pub fn to_json(&self) -> (text: String)
        ensures
            text@ == render(self@.document()),
    {
        let mut writer = ObjectWriter::new();
        let header = match &self.header {
            Some(value) => Some(value.to_json()),
            None => None,
        };
        writer.field("header", &header, Ghost(HeaderView::optional_document(self@.header)));
        let sections = match &self.sections {
            Some(items) => Some(Section::list_to_json(items)),
            None => None,
        };
        writer.field(
            "sections",
            &sections,
            Ghost(SectionView::optional_array_document(self@.sections)),
        );
        assert(writer.fields() =~= self@.fields());
        writer.finish()
    }

    /// The compact JSON text of a list of cards: an array, in the order of the list.
    pub fn list_to_json(items: &Vec<Card>) -> (text: String)
        ensures
            text@ == render(CardView::array_document(items.deep_view())),
    {
        let mut writer = ArrayWriter::new();
        let mut done: usize = 0;
        while done < items.len()
            invariant
                writer.wf(),
                done <= items.len(),
                writer.items().len() == done,
                forall|i: int|
                    0 <= i < done ==> writer.items()[i] == items[i]@.document(),
            decreases items.len() - done,
        {
            let rendered = items[done].to_json();
            writer.item(rendered.as_str(), Ghost(items[done as int]@.document()));
            done += 1;
        }
        assert(writer.items() =~= items.deep_view().map_values(
            |item: CardView| item.document(),
        ));
        writer.finish()
    }
}

/// Stages the fields of a `Card`. The view is the card that the fields set so
/// far describe.
#[derive(Debug)]
pub struct CardBuilder {
    header: Option<Header>,
    sections: Option<Vec<Section>>,
}

impl View for CardBuilder {
    type V = CardView;

    closed spec fn view(&self) -> CardView {
        CardView {
            header: self.header.deep_view(),
            sections: self.sections.deep_view(),
        }
    }
}

impl Default for CardBuilder {
    /// A builder with nothing set.
    fn default() -> (builder: Self)
        ensures
            builder@ == CardView::empty(),
    {
        CardBuilder { header: None, sections: None }
    }
}

impl Clone for CardBuilder {
    fn clone(&self) -> (copy: Self)
        ensures
            copy@ == self@,
    {
        CardBuilder { header: self.header.clone(), sections: self.sections.clone() }
    }
}

impl CardBuilder {
    /// Sets `header`; an earlier value is overwritten.
    pub fn header(&mut self, value: Header) -> (builder: &mut Self)
        ensures
            builder@ == (CardView { header: Some(value@), ..old(self)@ }),
            *final(self) == *final(builder),
    {
        self.header = Some(value);
        self
    }

    /// Sets `sections`; an earlier value is overwritten.
    pub fn sections(&mut self, value: Vec<Section>) -> (builder: &mut Self)
        ensures
            builder@ == (CardView { sections: Some(value.deep_view()), ..old(self)@ }),
            *final(self) == *final(builder),
    {
        self.sections = Some(value);
        self
    }

    /// The finished card: every field as it was set, the others unset. This
    /// never fails, as no field is required.
    pub fn build(&self) -> (built: Result<Card, ChatTypeBuildError>)
        ensures
            built is Ok,
            built.unwrap()@ == self@,
    {
        Ok(Card { header: self.header.clone(), sections: self.sections.clone() })
    }
}

/// A builder with nothing set builds a card whose JSON text is `{}`.
pub proof fn lemma_card_nothing_set(builder: CardBuilder, built: Result<Card, ChatTypeBuildError>)
    requires
        builder@ == CardView::empty(),
        call_ensures(CardBuilder::build, (&builder,), built),
    ensures
        built is Ok,
        render(built.unwrap()@.document()) == "{}"@,
{
    lemma_nothing_set_renders_empty_object(CardView::empty().fields());
}

/// Building twice from one builder gives the same outcome: both times the
/// same error, or two cards with the same JSON text.
pub proof fn lemma_card_build_repeatable(
    builder: CardBuilder,
    first: Result<Card, ChatTypeBuildError>,
    second: Result<Card, ChatTypeBuildError>,
)
    requires
        call_ensures(CardBuilder::build, (&builder,), first),
        call_ensures(CardBuilder::build, (&builder,), second),
    ensures
        first is Ok <==> second is Ok,
        first is Ok ==> render(first.unwrap()@.document()) == render(
            second.unwrap()@.document(),
        ),
        first is Err ==> first.unwrap_err()@ == second.unwrap_err()@,
{
}

/// The object of a card has a key exactly when the field of that key is set.
pub proof fn lemma_card_keys(card: CardView)
    ensures
        has_key(card.document(), "header"@) <==> card.header is Some,
        has_key(card.document(), "sections"@) <==> card.sections is Some,
{
    reveal_strlit("header");
    reveal_strlit("sections");
    let fields = card.fields();
    lemma_key_present_iff_set(fields, "header"@);
    assert(fields[0].key == "header"@);
    lemma_key_present_iff_set(fields, "sections"@);
    assert(fields[1].key == "sections"@);
}

} // verus!
