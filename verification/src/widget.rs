//! Widgets: `Widget` and what it can hold.

use crate::button::{Button, ButtonView};
use crate::error::{missing_field_message, uninitialized, ChatTypeBuildError};
use crate::json::{
    array_of, has_key, lemma_key_present_iff_set, lemma_nothing_set_renders_empty_object, object_of,
    render, text_value, Field, JsonValue,
};
use crate::link::{OnClick, OnClickView};
use crate::writer::{ArrayWriter, ObjectWriter};
use vstd::prelude::*;
use vstd::string::*;

verus! {

/// What a `TextParagraph` holds.
pub struct TextParagraphView {
    pub text: Seq<char>,
}

impl TextParagraphView {
    /// The declared fields, in their order.
    pub open spec fn fields(self) -> Seq<Field> {
        seq![
            Field { key: "text"@, value: Some(JsonValue::Text(self.text)) },
        ]
    }

    /// The JSON object that the paragraph stands for.
    pub open spec fn document(self) -> JsonValue {
        object_of(self.fields())
    }

    /// The value of a field that may hold a paragraph.
    pub open spec fn optional_document(value: Option<Self>) -> Option<JsonValue> {
        match value {
            Some(inner) => Some(inner.document()),
            None => None,
        }
    }
}

/// A paragraph of text. Its `text` is required.
#[derive(Debug)]
pub struct TextParagraph {
    text: String,
}

impl DeepView for TextParagraph {
    type V = TextParagraphView;

    closed spec fn deep_view(&self) -> TextParagraphView {
        TextParagraphView {
            text: self.text.deep_view(),
        }
    }
}

impl View for TextParagraph {
    type V = TextParagraphView;

    open spec fn view(&self) -> TextParagraphView {
        self.deep_view()
    }
}

impl Clone for TextParagraph {
    fn clone(&self) -> (copy: Self)
        ensures
            copy@ == self@,
    {
        TextParagraph { text: self.text.clone() }
    }
}

impl TextParagraph {
    /// The `text`.
    pub fn text(&self) -> (text: &str)
        ensures
            text@ == self@.text,
    {
        self.text.as_str()
    }

    /// The compact JSON text of the paragraph.
    pub fn to_json(&self) -> (text: String)
        ensures
            text@ == render(self@.document()),
    {
        let mut writer = ObjectWriter::new();
        writer.text_member("text", self.text.as_str());
        assert(writer.fields() =~= self@.fields());
        writer.finish()
    }
}

/// Stages the fields of a `TextParagraph`. The view is the `text`, once it is set.
#[derive(Debug)]
pub struct TextParagraphBuilder {
    text: Option<String>,
}

impl View for TextParagraphBuilder {
    type V = Option<Seq<char>>;

    closed spec fn view(&self) -> Option<Seq<char>> {
        self.text.deep_view()
    }
}

impl Default for TextParagraphBuilder {
    /// A builder with nothing set.
    fn default() -> (builder: Self)
        ensures
            builder@ is None,
    {
        TextParagraphBuilder { text: None }
    }
}

impl Clone for TextParagraphBuilder {
    fn clone(&self) -> (copy: Self)
        ensures
            copy@ == self@,
    {
        TextParagraphBuilder { text: self.text.clone() }
    }
}

impl TextParagraphBuilder {
    /// Sets `text`; an earlier value is overwritten.
    pub fn text(&mut self, value: &str) -> (builder: &mut Self)
        ensures
            builder@ == Some(value@),
            *final(self) == *final(builder),
    {
        self.text = Some(String::from_str(value));
        self
    }

    /// The finished paragraph, or the error that names `text` if it was never set.
    pub fn build(&self) -> (built: Result<TextParagraph, ChatTypeBuildError>)
        ensures
            match self@ {
                Some(text) => built is Ok && built.unwrap()@ == (TextParagraphView { text }),
                None => built is Err && built.unwrap_err()@ == missing_field_message("text"@),
            },
    {
        match &self.text {
            Some(value) => Ok(TextParagraph { text: value.clone() }),
            None => Err(uninitialized("text")),
        }
    }
}

/// Building twice from one builder gives the same outcome: both times the
/// same error, or two paragraphs with the same JSON text.
pub proof fn lemma_text_paragraph_build_repeatable(
    builder: TextParagraphBuilder,
    first: Result<TextParagraph, ChatTypeBuildError>,
    second: Result<TextParagraph, ChatTypeBuildError>,
)
    requires
        call_ensures(TextParagraphBuilder::build, (&builder,), first),
        call_ensures(TextParagraphBuilder::build, (&builder,), second),
    ensures
        first is Ok <==> second is Ok,
        first is Ok ==> render(first.unwrap()@.document()) == render(
            second.unwrap()@.document(),
        ),
        first is Err ==> first.unwrap_err()@ == second.unwrap_err()@,
{
}

/// The object of a paragraph always has the key `text`.
pub proof fn lemma_text_paragraph_keys(text_paragraph: TextParagraphView)
    ensures
        has_key(text_paragraph.document(), "text"@),
{
    reveal_strlit("text");
    let fields = text_paragraph.fields();
    lemma_key_present_iff_set(fields, "text"@);
    assert(fields[0].key == "text"@);
}

/// What a `KeyValue` holds.
pub struct KeyValueView {
    pub top_label: Option<Seq<char>>,
    pub content: Option<Seq<char>>,
    pub icon: Option<Seq<char>>,
    pub content_multiline: Option<Seq<char>>,
    pub bottom_label: Option<Seq<char>>,
    pub on_click: Option<OnClickView>,
    pub button: Option<ButtonView>,
}

impl KeyValueView {
    /// The key-value widget with no field set.
    pub open spec fn empty() -> Self {
        KeyValueView {
            top_label: None,
            content: None,
            icon: None,
            content_multiline: None,
            bottom_label: None,
            on_click: None,
            button: None,
        }
    }

    /// The declared fields, in their order.
    pub open spec fn fields(self) -> Seq<Field> {
        seq![
            Field { key: "topLabel"@, value: text_value(self.top_label) },
            Field { key: "content"@, value: text_value(self.content) },
            Field { key: "icon"@, value: text_value(self.icon) },
            Field { key: "contentMultiline"@, value: text_value(self.content_multiline) },
            Field { key: "bottomLabel"@, value: text_value(self.bottom_label) },
            Field { key: "onClick"@, value: OnClickView::optional_document(self.on_click) },
            Field { key: "button"@, value: ButtonView::optional_document(self.button) },
        ]
    }

    /// The JSON object that the key-value widget stands for.
    pub open spec fn document(self) -> JsonValue {
        object_of(self.fields())
    }

    /// The value of a field that may hold a key-value widget.
    pub open spec fn optional_document(value: Option<Self>) -> Option<JsonValue> {
        match value {
            Some(inner) => Some(inner.document()),
            None => None,
        }
    }
}

/// A labelled piece of content. Every field is optional.
#[derive(Debug)]
pub struct KeyValue {
    top_label: Option<String>,
    content: Option<String>,
    icon: Option<String>,
    content_multiline: Option<String>,
    bottom_label: Option<String>,
    on_click: Option<OnClick>,
    button: Option<Button>,
}

impl DeepView for KeyValue {
    type V = KeyValueView;

    closed spec fn deep_view(&self) -> KeyValueView {
        KeyValueView {
            top_label: self.top_label.deep_view(),
            content: self.content.deep_view(),
            icon: self.icon.deep_view(),
            content_multiline: self.content_multiline.deep_view(),
            bottom_label: self.bottom_label.deep_view(),
            on_click: self.on_click.deep_view(),
            button: self.button.deep_view(),
        }
    }
}

impl View for KeyValue {
    type V = KeyValueView;

    open spec fn view(&self) -> KeyValueView {
        self.deep_view()
    }
}

impl Clone for KeyValue {
    fn clone(&self) -> (copy: Self)
        ensures
            copy@ == self@,
    {
        KeyValue {
            top_label: self.top_label.clone(),
            content: self.content.clone(),
            icon: self.icon.clone(),
            content_multiline: self.content_multiline.clone(),
            bottom_label: self.bottom_label.clone(),
            on_click: self.on_click.clone(),
            button: self.button.clone(),
        }
    }
}

impl Default for KeyValue {
    /// The key-value widget with no field set.
    fn default() -> (empty: Self)
        ensures
            empty@ == KeyValueView::empty(),
    {
        KeyValue {
            top_label: None,
            content: None,
            icon: None,
            content_multiline: None,
            bottom_label: None,
            on_click: None,
            button: None,
        }
    }
}

impl KeyValue {
    /// The `top_label`, if it is set.
    pub fn top_label(&self) -> (top_label: &Option<String>)
        ensures
            top_label.deep_view() == self@.top_label,
    {
        &self.top_label
    }

    /// The `content`, if it is set.
    pub fn content(&self) -> (content: &Option<String>)
        ensures
            content.deep_view() == self@.content,
    {
        &self.content
    }

    /// The `icon`, if it is set.
    pub fn icon(&self) -> (icon: &Option<String>)
        ensures
            icon.deep_view() == self@.icon,
    {
        &self.icon
    }

    /// The `content_multiline`, if it is set.
    pub fn content_multiline(&self) -> (content_multiline: &Option<String>)
        ensures
            content_multiline.deep_view() == self@.content_multiline,
    {
        &self.content_multiline
    }

    /// The `bottom_label`, if it is set.
    pub fn bottom_label(&self) -> (bottom_label: &Option<String>)
        ensures
            bottom_label.deep_view() == self@.bottom_label,
    {
        &self.bottom_label
    }

    /// The `on_click`, if it is set.
    pub fn on_click(&self) -> (on_click: &Option<OnClick>)
        ensures
            on_click.deep_view() == self@.on_click,
    {
        &self.on_click
    }

    /// The `button`, if it is set.
    pub fn button(&self) -> (button: &Option<Button>)
        ensures
            button.deep_view() == self@.button,
    {
        &self.button
    }

    /// A widget that holds a copy of this key-value widget and nothing else.
    pub fn to_widget(&self) -> (widget: Widget)
        ensures
            widget@ == (WidgetView { key_value: Some(self@), ..WidgetView::empty() }),
    {
        Widget {
            text_paragraph: None,
            image: None,
            buttons: None,
            key_value: Some(self.clone()),
        }
    }

    /// The compact JSON text of the key-value widget.
    pub fn to_json(&self) -> (text: String)
        ensures
            text@ == render(self@.document()),
    {
        let mut writer = ObjectWriter::new();
        writer.text_field("topLabel", &self.top_label);
        writer.text_field("content", &self.content);
        writer.text_field("icon", &self.icon);
        writer.text_field("contentMultiline", &self.content_multiline);
        writer.text_field("bottomLabel", &self.bottom_label);
        let on_click = match &self.on_click {
            Some(value) => Some(value.to_json()),
            None => None,
        };
        writer.field("onClick", &on_click, Ghost(OnClickView::optional_document(self@.on_click)));
        let button = match &self.button {
            Some(value) => Some(value.to_json()),
            None => None,
        };
        writer.field("button", &button, Ghost(ButtonView::optional_document(self@.button)));
        assert(writer.fields() =~= self@.fields());
        writer.finish()
    }
}

/// Stages the fields of a `KeyValue`. The view is the key-value widget that the fields set so
/// far describe.
#[derive(Debug)]
pub struct KeyValueBuilder {
    top_label: Option<String>,
    content: Option<String>,
    icon: Option<String>,
    content_multiline: Option<String>,
    bottom_label: Option<String>,
    on_click: Option<OnClick>,
    button: Option<Button>,
}

impl View for KeyValueBuilder {
    type V = KeyValueView;

    closed spec fn view(&self) -> KeyValueView {
        KeyValueView {
            top_label: self.top_label.deep_view(),
            content: self.content.deep_view(),
            icon: self.icon.deep_view(),
            content_multiline: self.content_multiline.deep_view(),
            bottom_label: self.bottom_label.deep_view(),
            on_click: self.on_click.deep_view(),
            button: self.button.deep_view(),
        }
    }
}

impl Default for KeyValueBuilder {
    /// A builder with nothing set.
    fn default() -> (builder: Self)
        ensures
            builder@ == KeyValueView::empty(),
    {
        KeyValueBuilder {
            top_label: None,
            content: None,
            icon: None,
            content_multiline: None,
            bottom_label: None,
            on_click: None,
            button: None,
        }
    }
}

impl Clone for KeyValueBuilder {
    fn clone(&self) -> (copy: Self)
        ensures
            copy@ == self@,
    {
        KeyValueBuilder {
            top_label: self.top_label.clone(),
            content: self.content.clone(),
            icon: self.icon.clone(),
            content_multiline: self.content_multiline.clone(),
            bottom_label: self.bottom_label.clone(),
            on_click: self.on_click.clone(),
            button: self.button.clone(),
        }
    }
}

impl KeyValueBuilder {
    /// Sets `top_label`; an earlier value is overwritten.
    pub fn top_label(&mut self, value: &str) -> (builder: &mut Self)
        ensures
            builder@ == (KeyValueView { top_label: Some(value@), ..old(self)@ }),
            *final(self) == *final(builder),
    {
        self.top_label = Some(String::from_str(value));
        self
    }

    /// Sets `content`; an earlier value is overwritten.
    pub fn content(&mut self, value: &str) -> (builder: &mut Self)
        ensures
            builder@ == (KeyValueView { content: Some(value@), ..old(self)@ }),
            *final(self) == *final(builder),
    {
        self.content = Some(String::from_str(value));
        self
    }

    /// Sets `icon`; an earlier value is overwritten.
    pub fn icon(&mut self, value: &str) -> (builder: &mut Self)
        ensures
            builder@ == (KeyValueView { icon: Some(value@), ..old(self)@ }),
            *final(self) == *final(builder),
    {
        self.icon = Some(String::from_str(value));
        self
    }

    /// Sets `content_multiline`; an earlier value is overwritten.
    pub fn content_multiline(&mut self, value: &str) -> (builder: &mut Self)
        ensures
            builder@ == (KeyValueView { content_multiline: Some(value@), ..old(self)@ }),
            *final(self) == *final(builder),
    {
        self.content_multiline = Some(String::from_str(value));
        self
    }

    /// Sets `bottom_label`; an earlier value is overwritten.
    pub fn bottom_label(&mut self, value: &str) -> (builder: &mut Self)
        ensures
            builder@ == (KeyValueView { bottom_label: Some(value@), ..old(self)@ }),
            *final(self) == *final(builder),
    {
        self.bottom_label = Some(String::from_str(value));
        self
    }

    /// Sets `on_click`; an earlier value is overwritten.
    pub fn on_click(&mut self, value: OnClick) -> (builder: &mut Self)
        ensures
            builder@ == (KeyValueView { on_click: Some(value@), ..old(self)@ }),
            *final(self) == *final(builder),
    {
        self.on_click = Some(value);
        self
    }

    /// Sets `button`; an earlier value is overwritten.
    pub fn button(&mut self, value: Button) -> (builder: &mut Self)
        ensures
            builder@ == (KeyValueView { button: Some(value@), ..old(self)@ }),
            *final(self) == *final(builder),
    {
        self.button = Some(value);
        self
    }

    /// The finished key-value widget: every field as it was set, the others unset. This
    /// never fails, as no field is required.
    pub fn build(&self) -> (built: Result<KeyValue, ChatTypeBuildError>)
        ensures
            built is Ok,
            built.unwrap()@ == self@,
    {
        Ok(
            KeyValue {
                top_label: self.top_label.clone(),
                content: self.content.clone(),
                icon: self.icon.clone(),
                content_multiline: self.content_multiline.clone(),
                bottom_label: self.bottom_label.clone(),
                on_click: self.on_click.clone(),
                button: self.button.clone(),
            },
        )
    }
}

/// A builder with nothing set builds a key-value widget whose JSON text is `{}`.
pub proof fn lemma_key_value_nothing_set(
    builder: KeyValueBuilder,
    built: Result<KeyValue, ChatTypeBuildError>,
)
    requires
        builder@ == KeyValueView::empty(),
        call_ensures(KeyValueBuilder::build, (&builder,), built),
    ensures
        built is Ok,
        render(built.unwrap()@.document()) == "{}"@,
{
    lemma_nothing_set_renders_empty_object(KeyValueView::empty().fields());
}

/// Building twice from one builder gives the same outcome: both times the
/// same error, or two key-value widgets with the same JSON text.
pub proof fn lemma_key_value_build_repeatable(
    builder: KeyValueBuilder,
    first: Result<KeyValue, ChatTypeBuildError>,
    second: Result<KeyValue, ChatTypeBuildError>,
)
    requires
        call_ensures(KeyValueBuilder::build, (&builder,), first),
        call_ensures(KeyValueBuilder::build, (&builder,), second),
    ensures
        first is Ok <==> second is Ok,
        first is Ok ==> render(first.unwrap()@.document()) == render(
            second.unwrap()@.document(),
        ),
        first is Err ==> first.unwrap_err()@ == second.unwrap_err()@,
{
}

/// The object of a key-value widget has a key exactly when the field of that key is set.
pub proof fn lemma_key_value_keys(key_value: KeyValueView)
    ensures
        has_key(key_value.document(), "topLabel"@) <==> key_value.top_label is Some,
        has_key(key_value.document(), "content"@) <==> key_value.content is Some,
        has_key(key_value.document(), "icon"@) <==> key_value.icon is Some,
        has_key(key_value.document(), "contentMultiline"@) <==> key_value.content_multiline is Some,
        has_key(key_value.document(), "bottomLabel"@) <==> key_value.bottom_label is Some,
        has_key(key_value.document(), "onClick"@) <==> key_value.on_click is Some,
        has_key(key_value.document(), "button"@) <==> key_value.button is Some,
{
    reveal_strlit("topLabel");
    reveal_strlit("content");
    reveal_strlit("icon");
    reveal_strlit("contentMultiline");
    reveal_strlit("bottomLabel");
    reveal_strlit("onClick");
    reveal_strlit("button");
    assert("content"@[0] != "onClick"@[0]);
    let fields = key_value.fields();
    lemma_key_present_iff_set(fields, "topLabel"@);
    assert(fields[0].key == "topLabel"@);
    lemma_key_present_iff_set(fields, "content"@);
    assert(fields[1].key == "content"@);
    lemma_key_present_iff_set(fields, "icon"@);
    assert(fields[2].key == "icon"@);
    lemma_key_present_iff_set(fields, "contentMultiline"@);
    assert(fields[3].key == "contentMultiline"@);
    lemma_key_present_iff_set(fields, "bottomLabel"@);
    assert(fields[4].key == "bottomLabel"@);
    lemma_key_present_iff_set(fields, "onClick"@);
    assert(fields[5].key == "onClick"@);
    lemma_key_present_iff_set(fields, "button"@);
    assert(fields[6].key == "button"@);
}

/// What an `Image` holds.
pub struct ImageView {
    pub image_url: Option<Seq<char>>,
    pub on_click: Option<OnClickView>,
}

impl ImageView {
    /// The image with no field set.
    pub open spec fn empty() -> Self {
        ImageView { image_url: None, on_click: None }
    }

    /// The declared fields, in their order.
    pub open spec fn fields(self) -> Seq<Field> {
        seq![
            Field { key: "imageUrl"@, value: text_value(self.image_url) },
            Field { key: "onClick"@, value: OnClickView::optional_document(self.on_click) },
        ]
    }

    /// The JSON object that the image stands for.
    pub open spec fn document(self) -> JsonValue {
        object_of(self.fields())
    }

    /// The value of a field that may hold an image.
    pub open spec fn optional_document(value: Option<Self>) -> Option<JsonValue> {
        match value {
            Some(inner) => Some(inner.document()),
            None => None,
        }
    }
}

/// An image. Every field is optional.
#[derive(Debug)]
pub struct Image {
    image_url: Option<String>,
    on_click: Option<OnClick>,
}

impl DeepView for Image {
    type V = ImageView;

    closed spec fn deep_view(&self) -> ImageView {
        ImageView {
            image_url: self.image_url.deep_view(),
            on_click: self.on_click.deep_view(),
        }
    }
}

impl View for Image {
    type V = ImageView;

    open spec fn view(&self) -> ImageView {
        self.deep_view()
    }
}

impl Clone for Image {
    fn clone(&self) -> (copy: Self)
        ensures
            copy@ == self@,
    {
        Image { image_url: self.image_url.clone(), on_click: self.on_click.clone() }
    }
}

impl Default for Image {
    /// The image with no field set.
    fn default() -> (empty: Self)
        ensures
            empty@ == ImageView::empty(),
    {
        Image { image_url: None, on_click: None }
    }
}

impl Image {
    /// The `image_url`, if it is set.
    pub fn image_url(&self) -> (image_url: &Option<String>)
        ensures
            image_url.deep_view() == self@.image_url,
    {
        &self.image_url
    }

    /// The `on_click`, if it is set.
    pub fn on_click(&self) -> (on_click: &Option<OnClick>)
        ensures
            on_click.deep_view() == self@.on_click,
    {
        &self.on_click
    }

    /// A widget that holds a copy of this image and nothing else.
    pub fn to_widget(&self) -> (widget: Widget)
        ensures
            widget@ == (WidgetView { image: Some(self@), ..WidgetView::empty() }),
    {
        Widget {
            text_paragraph: None,
            key_value: None,
            image: Some(self.clone()),
            buttons: None,
        }
    }

    /// The compact JSON text of the image.
    pub fn to_json(&self) -> (text: String)
        ensures
            text@ == render(self@.document()),
    {
        let mut writer = ObjectWriter::new();
        writer.text_field("imageUrl", &self.image_url);
        let on_click = match &self.on_click {
            Some(value) => Some(value.to_json()),
            None => None,
        };
        writer.field("onClick", &on_click, Ghost(OnClickView::optional_document(self@.on_click)));
        assert(writer.fields() =~= self@.fields());
        writer.finish()
    }
}

/// Stages the fields of an `Image`. The view is the image that the fields set so
/// far describe.
#[derive(Debug)]
pub struct ImageBuilder {
    image_url: Option<String>,
    on_click: Option<OnClick>,
}

impl View for ImageBuilder {
    type V = ImageView;

    closed spec fn view(&self) -> ImageView {
        ImageView {
            image_url: self.image_url.deep_view(),
            on_click: self.on_click.deep_view(),
        }
    }
}

impl Default for ImageBuilder {
    /// A builder with nothing set.
    fn default() -> (builder: Self)
        ensures
            builder@ == ImageView::empty(),
    {
        ImageBuilder { image_url: None, on_click: None }
    }
}

impl Clone for ImageBuilder {
    fn clone(&self) -> (copy: Self)
        ensures
            copy@ == self@,
    {
        ImageBuilder { image_url: self.image_url.clone(), on_click: self.on_click.clone() }
    }
}

impl ImageBuilder {
    /// Sets `image_url`; an earlier value is overwritten.
    pub fn image_url(&mut self, value: &str) -> (builder: &mut Self)
        ensures
            builder@ == (ImageView { image_url: Some(value@), ..old(self)@ }),
            *final(self) == *final(builder),
    {
        self.image_url = Some(String::from_str(value));
        self
    }

    /// Sets `on_click`; an earlier value is overwritten.
    pub fn on_click(&mut self, value: OnClick) -> (builder: &mut Self)
        ensures
            builder@ == (ImageView { on_click: Some(value@), ..old(self)@ }),
            *final(self) == *final(builder),
    {
        self.on_click = Some(value);
        self
    }

    /// The finished image: every field as it was set, the others unset. This
    /// never fails, as no field is required.
    pub fn build(&self) -> (built: Result<Image, ChatTypeBuildError>)
        ensures
            built is Ok,
            built.unwrap()@ == self@,
    {
        Ok(Image { image_url: self.image_url.clone(), on_click: self.on_click.clone() })
    }
}

/// A builder with nothing set builds an image whose JSON text is `{}`.
pub proof fn lemma_image_nothing_set(
    builder: ImageBuilder,
    built: Result<Image, ChatTypeBuildError>,
)
    requires
        builder@ == ImageView::empty(),
        call_ensures(ImageBuilder::build, (&builder,), built),
    ensures
        built is Ok,
        render(built.unwrap()@.document()) == "{}"@,
{
    lemma_nothing_set_renders_empty_object(ImageView::empty().fields());
}

/// Building twice from one builder gives the same outcome: both times the
/// same error, or two images with the same JSON text.
pub proof fn lemma_image_build_repeatable(
    builder: ImageBuilder,
    first: Result<Image, ChatTypeBuildError>,
    second: Result<Image, ChatTypeBuildError>,
)
    requires
        call_ensures(ImageBuilder::build, (&builder,), first),
        call_ensures(ImageBuilder::build, (&builder,), second),
    ensures
        first is Ok <==> second is Ok,
        first is Ok ==> render(first.unwrap()@.document()) == render(
            second.unwrap()@.document(),
        ),
        first is Err ==> first.unwrap_err()@ == second.unwrap_err()@,
{
}

/// The object of an image has a key exactly when the field of that key is set.
pub proof fn lemma_image_keys(image: ImageView)
    ensures
        has_key(image.document(), "imageUrl"@) <==> image.image_url is Some,
        has_key(image.document(), "onClick"@) <==> image.on_click is Some,
{
    reveal_strlit("imageUrl");
    reveal_strlit("onClick");
    let fields = image.fields();
    lemma_key_present_iff_set(fields, "imageUrl"@);
    assert(fields[0].key == "imageUrl"@);
    lemma_key_present_iff_set(fields, "onClick"@);
    assert(fields[1].key == "onClick"@);
}

/// What a `Widget` holds.
pub struct WidgetView {
    pub text_paragraph: Option<TextParagraphView>,
    pub key_value: Option<KeyValueView>,
    pub image: Option<ImageView>,
    pub buttons: Option<Seq<ButtonView>>,
}

impl WidgetView {
    /// The widget with no field set.
    pub open spec fn empty() -> Self {
        WidgetView { text_paragraph: None, key_value: None, image: None, buttons: None }
    }

    /// The declared fields, in their order.
    pub open spec fn fields(self) -> Seq<Field> {
        seq![
            Field {
                key: "textParagraph"@,
                value: TextParagraphView::optional_document(self.text_paragraph),
            },
            Field { key: "keyValue"@, value: KeyValueView::optional_document(self.key_value) },
            Field { key: "image"@, value: ImageView::optional_document(self.image) },
            Field { key: "buttons"@, value: ButtonView::optional_array_document(self.buttons) },
        ]
    }

    /// The JSON object that the widget stands for.
    pub open spec fn document(self) -> JsonValue {
        object_of(self.fields())
    }

    /// The array that a list of widgets stands for: the object of each, in order.
    pub open spec fn array_document(items: Seq<Self>) -> JsonValue {
        array_of(items, |item: Self| item.document())
    }

    /// The value of a field that may hold a list of widgets. A list that is set
    /// and empty gives the empty array, not an unset field.
    pub open spec fn optional_array_document(items: Option<Seq<Self>>) -> Option<
        JsonValue,
    > {
        match items {
            Some(list) => Some(Self::array_document(list)),
            None => None,
        }
    }
}

/// One element of a section. A widget is meant to have one of its four fields
/// set; nothing enforces that, and every field is optional.
#[derive(Debug)]
pub struct Widget {
    text_paragraph: Option<TextParagraph>,
    key_value: Option<KeyValue>,
    image: Option<Image>,
    buttons: Option<Vec<Button>>,
}

impl DeepView for Widget {
    type V = WidgetView;

    closed spec fn deep_view(&self) -> WidgetView {
        WidgetView {
            text_paragraph: self.text_paragraph.deep_view(),
            key_value: self.key_value.deep_view(),
            image: self.image.deep_view(),
            buttons: self.buttons.deep_view(),
        }
    }
}

impl View for Widget {
    type V = WidgetView;

    open spec fn view(&self) -> WidgetView {
        self.deep_view()
    }
}

impl Clone for Widget {
    fn clone(&self) -> (copy: Self)
        ensures
            copy@ == self@,
    {
        Widget {
            text_paragraph: self.text_paragraph.clone(),
            key_value: self.key_value.clone(),
            image: self.image.clone(),
            buttons: self.buttons.clone(),
        }
    }
}

impl Default for Widget {
    /// The widget with no field set.
    fn default() -> (empty: Self)
        ensures
            empty@ == WidgetView::empty(),
    {
        Widget { text_paragraph: None, key_value: None, image: None, buttons: None }
    }
}

impl Widget {
    /// The `text_paragraph`, if it is set.
    pub fn text_paragraph(&self) -> (text_paragraph: &Option<TextParagraph>)
        ensures
            text_paragraph.deep_view() == self@.text_paragraph,
    {
        &self.text_paragraph
    }

    /// The `key_value`, if it is set.
    pub fn key_value(&self) -> (key_value: &Option<KeyValue>)
        ensures
            key_value.deep_view() == self@.key_value,
    {
        &self.key_value
    }

    /// The `image`, if it is set.
    pub fn image(&self) -> (image: &Option<Image>)
        ensures
            image.deep_view() == self@.image,
    {
        &self.image
    }

    /// The `buttons`, if it is set.
    pub fn buttons(&self) -> (buttons: &Option<Vec<Button>>)
        ensures
            buttons.deep_view() == self@.buttons,
    {
        &self.buttons
    }

    /// The compact JSON text of the widget.
    pub fn to_json(&self) -> (text: String)
        ensures
            text@ == render(self@.document()),
    {
        let mut writer = ObjectWriter::new();
        let text_paragraph = match &self.text_paragraph {
            Some(value) => Some(value.to_json()),
            None => None,
        };
        writer.field(
            "textParagraph",
            &text_paragraph,
            Ghost(TextParagraphView::optional_document(self@.text_paragraph)),
        );
        let key_value = match &self.key_value {
            Some(value) => Some(value.to_json()),
            None => None,
        };
        writer.field(
            "keyValue",
            &key_value,
            Ghost(KeyValueView::optional_document(self@.key_value)),
        );
        let image = match &self.image {
            Some(value) => Some(value.to_json()),
            None => None,
        };
        writer.field("image", &image, Ghost(ImageView::optional_document(self@.image)));
        let buttons = match &self.buttons {
            Some(items) => Some(Button::list_to_json(items)),
            None => None,
        };
        writer.field(
            "buttons",
            &buttons,
            Ghost(ButtonView::optional_array_document(self@.buttons)),
        );
        assert(writer.fields() =~= self@.fields());
        writer.finish()
    }

    /// The compact JSON text of a list of widgets: an array, in the order of the list.
    pub fn list_to_json(items: &Vec<Widget>) -> (text: String)
        ensures
            text@ == render(WidgetView::array_document(items.deep_view())),
    {
        let mut writer = ArrayWriter::new();
        let mut done: usize = 0;
        while done < items.len()
            invariant
                writer.wf(),
                done <= items.len(),
                writer.items().len() == done,
                forall|i: int|
                    0 <= i < done ==> writer.items()[i] == items[i]@.document(),
            decreases items.len() - done,
        {
            let rendered = items[done].to_json();
            writer.item(rendered.as_str(), Ghost(items[done as int]@.document()));
            done += 1;
        }
        assert(writer.items() =~= items.deep_view().map_values(
            |item: WidgetView| item.document(),
        ));
        writer.finish()
    }
}

/// Stages the fields of a `Widget`. The view is the widget that the fields set so
/// far describe.
#[derive(Debug)]
pub struct WidgetBuilder {
    text_paragraph: Option<TextParagraph>,
    key_value: Option<KeyValue>,
    image: Option<Image>,
    buttons: Option<Vec<Button>>,
}

impl View for WidgetBuilder {
    type V = WidgetView;

    closed spec fn view(&self) -> WidgetView {
        WidgetView {
            text_paragraph: self.text_paragraph.deep_view(),
            key_value: self.key_value.deep_view(),
            image: self.image.deep_view(),
            buttons: self.buttons.deep_view(),
        }
    }
}

impl Default for WidgetBuilder {
    /// A builder with nothing set.
    fn default() -> (builder: Self)
        ensures
            builder@ == WidgetView::empty(),
    {
        WidgetBuilder { text_paragraph: None, key_value: None, image: None, buttons: None }
    }
}

impl Clone for WidgetBuilder {
    fn clone(&self) -> (copy: Self)
        ensures
            copy@ == self@,
    {
        WidgetBuilder {
            text_paragraph: self.text_paragraph.clone(),
            key_value: self.key_value.clone(),
            image: self.image.clone(),
            buttons: self.buttons.clone(),
        }
    }
}

impl WidgetBuilder {
    /// Sets `text_paragraph`; an earlier value is overwritten.
    pub fn text_paragraph(&mut self, value: TextParagraph) -> (builder: &mut Self)
        ensures
            builder@ == (WidgetView { text_paragraph: Some(value@), ..old(self)@ }),
            *final(self) == *final(builder),
    {
        self.text_paragraph = Some(value);
        self
    }

    /// Sets `key_value`; an earlier value is overwritten.
    pub fn key_value(&mut self, value: KeyValue) -> (builder: &mut Self)
        ensures
            builder@ == (WidgetView { key_value: Some(value@), ..old(self)@ }),
            *final(self) == *final(builder),
    {
        self.key_value = Some(value);
        self
    }

    /// Sets `image`; an earlier value is overwritten.
    pub fn image(&mut self, value: Image) -> (builder: &mut Self)
        ensures
            builder@ == (WidgetView { image: Some(value@), ..old(self)@ }),
            *final(self) == *final(builder),
    {
        self.image = Some(value);
        self
    }

    /// Sets `buttons`; an earlier value is overwritten.
    pub fn buttons(&mut self, value: Vec<Button>) -> (builder: &mut Self)
        ensures
            builder@ == (WidgetView { buttons: Some(value.deep_view()), ..old(self)@ }),
            *final(self) == *final(builder),
    {
        self.buttons = Some(value);
        self
    }

    /// The finished widget: every field as it was set, the others unset. This
    /// never fails, as no field is required.
    pub fn build(&self) -> (built: Result<Widget, ChatTypeBuildError>)
        ensures
            built is Ok,
            built.unwrap()@ == self@,
    {
        Ok(
            Widget {
                text_paragraph: self.text_paragraph.clone(),
                key_value: self.key_value.clone(),
                image: self.image.clone(),
                buttons: self.buttons.clone(),
            },
        )
    }
}

/// A builder with nothing set builds a widget whose JSON text is `{}`.
pub proof fn lemma_widget_nothing_set(
    builder: WidgetBuilder,
    built: Result<Widget, ChatTypeBuildError>,
)
    requires
        builder@ == WidgetView::empty(),
        call_ensures(WidgetBuilder::build, (&builder,), built),
    ensures
        built is Ok,
        render(built.unwrap()@.document()) == "{}"@,
{
    lemma_nothing_set_renders_empty_object(WidgetView::empty().fields());
}

/// Building twice from one builder gives the same outcome: both times the
/// same error, or two widgets with the same JSON text.
pub proof fn lemma_widget_build_repeatable(
    builder: WidgetBuilder,
    first: Result<Widget, ChatTypeBuildError>,
    second: Result<Widget, ChatTypeBuildError>,
)
    requires
        call_ensures(WidgetBuilder::build, (&builder,), first),
        call_ensures(WidgetBuilder::build, (&builder,), second),
    ensures
        first is Ok <==> second is Ok,
        first is Ok ==> render(first.unwrap()@.document()) == render(
            second.unwrap()@.document(),
        ),
        first is Err ==> first.unwrap_err()@ == second.unwrap_err()@,
{
}

/// The object of a widget has a key exactly when the field of that key is set.
pub proof fn lemma_widget_keys(widget: WidgetView)
    ensures
        has_key(widget.document(), "textParagraph"@) <==> widget.text_paragraph is Some,
        has_key(widget.document(), "keyValue"@) <==> widget.key_value is Some,
        has_key(widget.document(), "image"@) <==> widget.image is Some,
        has_key(widget.document(), "buttons"@) <==> widget.buttons is Some,
{
    reveal_strlit("textParagraph");
    reveal_strlit("keyValue");
    reveal_strlit("image");
    reveal_strlit("buttons");
    let fields = widget.fields();
    lemma_key_present_iff_set(fields, "textParagraph"@);
    assert(fields[0].key == "textParagraph"@);
    lemma_key_present_iff_set(fields, "keyValue"@);
    assert(fields[1].key == "keyValue"@);
    lemma_key_present_iff_set(fields, "image"@);
    assert(fields[2].key == "image"@);
    lemma_key_present_iff_set(fields, "buttons"@);
    assert(fields[3].key == "buttons"@);
}

} // verus!
