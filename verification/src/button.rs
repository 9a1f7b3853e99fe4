//! Buttons: `Button` and its two forms.

use crate::error::ChatTypeBuildError;
use crate::json::{
    array_of, has_key, lemma_key_present_iff_set, lemma_nothing_set_renders_empty_object, object_of,
    render, text_value, Field, JsonValue,
};
use crate::link::{OnClick, OnClickView};
use crate::writer::{ArrayWriter, ObjectWriter};
use vstd::prelude::*;
use vstd::string::*;

verus! {

/// What a `TextButton` holds.
pub struct TextButtonView {
    pub text: Option<Seq<char>>,
    pub on_click: Option<OnClickView>,
}

impl TextButtonView {
    /// The text button with no field set.
    pub open spec fn empty() -> Self {
        TextButtonView { text: None, on_click: None }
    }

    /// The declared fields, in their order.
    pub open spec fn fields(self) -> Seq<Field> {
        seq![
            Field { key: "text"@, value: text_value(self.text) },
            Field { key: "onClick"@, value: OnClickView::optional_document(self.on_click) },
        ]
    }

    /// The JSON object that the text button stands for.
    pub open spec fn document(self) -> JsonValue {
        object_of(self.fields())
    }

    /// The value of a field that may hold a text button.
    pub open spec fn optional_document(value: Option<Self>) -> Option<JsonValue> {
        match value {
            Some(inner) => Some(inner.document()),
            None => None,
        }
    }
}

/// A button that shows a text. Every field is optional.
#[derive(Debug)]
pub struct TextButton {
    text: Option<String>,
    on_click: Option<OnClick>,
}

impl DeepView for TextButton {
    type V = TextButtonView;

    closed spec fn deep_view(&self) -> TextButtonView {
        TextButtonView {
            text: self.text.deep_view(),
            on_click: self.on_click.deep_view(),
        }
    }
}

impl View for TextButton {
    type V = TextButtonView;

    open spec fn view(&self) -> TextButtonView {
        self.deep_view()
    }
}

impl Clone for TextButton {
    fn clone(&self) -> (copy: Self)
        ensures
            copy@ == self@,
    {
        TextButton { text: self.text.clone(), on_click: self.on_click.clone() }
    }
}

impl Default for TextButton {
    /// The text button with no field set.
    fn default() -> (empty: Self)
        ensures
            empty@ == TextButtonView::empty(),
    {
        TextButton { text: None, on_click: None }
    }
}

impl TextButton {
    /// The `text`, if it is set.
    pub fn text(&self) -> (text: &Option<String>)
        ensures
            text.deep_view() == self@.text,
    {
        &self.text
    }

    /// The `on_click`, if it is set.
    pub fn on_click(&self) -> (on_click: &Option<OnClick>)
        ensures
            on_click.deep_view() == self@.on_click,
    {
        &self.on_click
    }

    /// The compact JSON text of the text button.
    pub fn to_json(&self) -> (text: String)
        ensures
            text@ == render(self@.document()),
    {
        let mut writer = ObjectWriter::new();
        writer.text_field("text", &self.text);
        let on_click = match &self.on_click {
            Some(value) => Some(value.to_json()),
            None => None,
        };
        writer.field("onClick", &on_click, Ghost(OnClickView::optional_document(self@.on_click)));
        assert(writer.fields() =~= self@.fields());
        writer.finish()
    }
}

/// Stages the fields of a `TextButton`. The view is the text button that the fields set so
/// far describe.
#[derive(Debug)]
pub struct TextButtonBuilder {
    text: Option<String>,
    on_click: Option<OnClick>,
}

impl View for TextButtonBuilder {
    type V = TextButtonView;

    closed spec fn view(&self) -> TextButtonView {
        TextButtonView {
            text: self.text.deep_view(),
            on_click: self.on_click.deep_view(),
        }
    }
}

impl Default for TextButtonBuilder {
    /// A builder with nothing set.
    fn default() -> (builder: Self)
        ensures
            builder@ == TextButtonView::empty(),
    {
        TextButtonBuilder { text: None, on_click: None }
    }
}

impl Clone for TextButtonBuilder {
    fn clone(&self) -> (copy: Self)
        ensures
            copy@ == self@,
    {
        TextButtonBuilder { text: self.text.clone(), on_click: self.on_click.clone() }
    }
}

impl TextButtonBuilder {
    /// Sets `text`; an earlier value is overwritten.
    pub fn text(&mut self, value: String) -> (builder: &mut Self)
        ensures
            builder@ == (TextButtonView { text: Some(value@), ..old(self)@ }),
            *final(self) == *final(builder),
    {
        self.text = Some(value);
        self
    }

    /// Sets `on_click`; an earlier value is overwritten.
    pub fn on_click(&mut self, value: OnClick) -> (builder: &mut Self)
        ensures
            builder@ == (TextButtonView { on_click: Some(value@), ..old(self)@ }),
            *final(self) == *final(builder),
    {
        self.on_click = Some(value);
        self
    }

    /// The finished text button: every field as it was set, the others unset. This
    /// never fails, as no field is required.
    pub fn build(&self) -> (built: Result<TextButton, ChatTypeBuildError>)
        ensures
            built is Ok,
            built.unwrap()@ == self@,
    {
        Ok(TextButton { text: self.text.clone(), on_click: self.on_click.clone() })
    }
}

/// A builder with nothing set builds a text button whose JSON text is `{}`.
pub proof fn lemma_text_button_nothing_set(
    builder: TextButtonBuilder,
    built: Result<TextButton, ChatTypeBuildError>,
)
    requires
        builder@ == TextButtonView::empty(),
        call_ensures(TextButtonBuilder::build, (&builder,), built),
    ensures
        built is Ok,
        render(built.unwrap()@.document()) == "{}"@,
{
    lemma_nothing_set_renders_empty_object(TextButtonView::empty().fields());
}

/// Building twice from one builder gives the same outcome: both times the
/// same error, or two text buttons with the same JSON text.
pub proof fn lemma_text_button_build_repeatable(
    builder: TextButtonBuilder,
    first: Result<TextButton, ChatTypeBuildError>,
    second: Result<TextButton, ChatTypeBuildError>,
)
    requires
        call_ensures(TextButtonBuilder::build, (&builder,), first),
        call_ensures(TextButtonBuilder::build, (&builder,), second),
    ensures
        first is Ok <==> second is Ok,
        first is Ok ==> render(first.unwrap()@.document()) == render(
            second.unwrap()@.document(),
        ),
        first is Err ==> first.unwrap_err()@ == second.unwrap_err()@,
{
}

/// The object of a text button has a key exactly when the field of that key is set.
pub proof fn lemma_text_button_keys(text_button: TextButtonView)
    ensures
        has_key(text_button.document(), "text"@) <==> text_button.text is Some,
        has_key(text_button.document(), "onClick"@) <==> text_button.on_click is Some,
{
    reveal_strlit("text");
    reveal_strlit("onClick");
    let fields = text_button.fields();
    lemma_key_present_iff_set(fields, "text"@);
    assert(fields[0].key == "text"@);
    lemma_key_present_iff_set(fields, "onClick"@);
    assert(fields[1].key == "onClick"@);
}

/// What an `ImageButton` holds.
pub struct ImageButtonView {
    pub icon_url: Option<Seq<char>>,
    pub icon: Option<Seq<char>>,
    pub on_click: Option<OnClickView>,
}

impl ImageButtonView {
    /// The image button with no field set.
    pub open spec fn empty() -> Self {
        ImageButtonView { icon_url: None, icon: None, on_click: None }
    }

    /// The declared fields, in their order.
    pub open spec fn fields(self) -> Seq<Field> {
        seq![
            Field { key: "iconUrl"@, value: text_value(self.icon_url) },
            Field { key: "icon"@, value: text_value(self.icon) },
            Field { key: "onClick"@, value: OnClickView::optional_document(self.on_click) },
        ]
    }

    /// The JSON object that the image button stands for.
    pub open spec fn document(self) -> JsonValue {
        object_of(self.fields())
    }

    /// The value of a field that may hold an image button.
    pub open spec fn optional_document(value: Option<Self>) -> Option<JsonValue> {
        match value {
            Some(inner) => Some(inner.document()),
            None => None,
        }
    }
}

/// A button that shows an icon. Every field is optional.
#[derive(Debug)]
pub struct ImageButton {
    icon_url: Option<String>,
    icon: Option<String>,
    on_click: Option<OnClick>,
}

impl DeepView for ImageButton {
    type V = ImageButtonView;

    closed spec fn deep_view(&self) -> ImageButtonView {
        ImageButtonView {
            icon_url: self.icon_url.deep_view(),
            icon: self.icon.deep_view(),
            on_click: self.on_click.deep_view(),
        }
    }
}

impl View for ImageButton {
    type V = ImageButtonView;

    open spec fn view(&self) -> ImageButtonView {
        self.deep_view()
    }
}

impl Clone for ImageButton {
    fn clone(&self) -> (copy: Self)
        ensures
            copy@ == self@,
    {
        ImageButton {
            icon_url: self.icon_url.clone(),
            icon: self.icon.clone(),
            on_click: self.on_click.clone(),
        }
    }
}

impl Default for ImageButton {
    /// The image button with no field set.
    fn default() -> (empty: Self)
        ensures
            empty@ == ImageButtonView::empty(),
    {
        ImageButton { icon_url: None, icon: None, on_click: None }
    }
}

impl ImageButton {
    /// The `icon_url`, if it is set.
    pub fn icon_url(&self) -> (icon_url: &Option<String>)
        ensures
            icon_url.deep_view() == self@.icon_url,
    {
        &self.icon_url
    }

    /// The `icon`, if it is set.
    pub fn icon(&self) -> (icon: &Option<String>)
        ensures
            icon.deep_view() == self@.icon,
    {
        &self.icon
    }

    /// The `on_click`, if it is set.
    pub fn on_click(&self) -> (on_click: &Option<OnClick>)
        ensures
            on_click.deep_view() == self@.on_click,
    {
        &self.on_click
    }

    /// The compact JSON text of the image button.
    pub fn to_json(&self) -> (text: String)
        ensures
            text@ == render(self@.document()),
    {
        let mut writer = ObjectWriter::new();
        writer.text_field("iconUrl", &self.icon_url);
        writer.text_field("icon", &self.icon);
        let on_click = match &self.on_click {
            Some(value) => Some(value.to_json()),
            None => None,
        };
        writer.field("onClick", &on_click, Ghost(OnClickView::optional_document(self@.on_click)));
        assert(writer.fields() =~= self@.fields());
        writer.finish()
    }
}

/// Stages the fields of an `ImageButton`. The view is the image button that the fields set so
/// far describe.
#[derive(Debug)]
pub struct ImageButtonBuilder {
    icon_url: Option<String>,
    icon: Option<String>,
    on_click: Option<OnClick>,
}

impl View for ImageButtonBuilder {
    type V = ImageButtonView;

    closed spec fn view(&self) -> ImageButtonView {
        ImageButtonView {
            icon_url: self.icon_url.deep_view(),
            icon: self.icon.deep_view(),
            on_click: self.on_click.deep_view(),
        }
    }
}

impl Default for ImageButtonBuilder {
    /// A builder with nothing set.
    fn default() -> (builder: Self)
        ensures
            builder@ == ImageButtonView::empty(),
    {
        ImageButtonBuilder { icon_url: None, icon: None, on_click: None }
    }
}

impl Clone for ImageButtonBuilder {
    fn clone(&self) -> (copy: Self)
        ensures
            copy@ == self@,
    {
        ImageButtonBuilder {
            icon_url: self.icon_url.clone(),
            icon: self.icon.clone(),
            on_click: self.on_click.clone(),
        }
    }
}

impl ImageButtonBuilder {
    /// Sets `icon_url`; an earlier value is overwritten.
    pub fn icon_url(&mut self, value: &str) -> (builder: &mut Self)
        ensures
            builder@ == (ImageButtonView { icon_url: Some(value@), ..old(self)@ }),
            *final(self) == *final(builder),
    {
        self.icon_url = Some(String::from_str(value));
        self
    }

    /// Sets `icon`; an earlier value is overwritten.
    pub fn icon(&mut self, value: &str) -> (builder: &mut Self)
        ensures
            builder@ == (ImageButtonView { icon: Some(value@), ..old(self)@ }),
            *final(self) == *final(builder),
    {
        self.icon = Some(String::from_str(value));
        self
    }

    /// Sets `on_click`; an earlier value is overwritten.
    pub fn on_click(&mut self, value: OnClick) -> (builder: &mut Self)
        ensures
            builder@ == (ImageButtonView { on_click: Some(value@), ..old(self)@ }),
            *final(self) == *final(builder),
    {
        self.on_click = Some(value);
        self
    }

    /// The finished image button: every field as it was set, the others unset. This
    /// never fails, as no field is required.
    pub fn build(&self) -> (built: Result<ImageButton, ChatTypeBuildError>)
        ensures
            built is Ok,
            built.unwrap()@ == self@,
    {
        Ok(
            ImageButton {
                icon_url: self.icon_url.clone(),
                icon: self.icon.clone(),
                on_click: self.on_click.clone(),
            },
        )
    }
}

/// A builder with nothing set builds an image button whose JSON text is `{}`.
pub proof fn lemma_image_button_nothing_set(
    builder: ImageButtonBuilder,
    built: Result<ImageButton, ChatTypeBuildError>,
)
    requires
        builder@ == ImageButtonView::empty(),
        call_ensures(ImageButtonBuilder::build, (&builder,), built),
    ensures
        built is Ok,
        render(built.unwrap()@.document()) == "{}"@,
{
    lemma_nothing_set_renders_empty_object(ImageButtonView::empty().fields());
}

/// Building twice from one builder gives the same outcome: both times the
/// same error, or two image buttons with the same JSON text.
pub proof fn lemma_image_button_build_repeatable(
    builder: ImageButtonBuilder,
    first: Result<ImageButton, ChatTypeBuildError>,
    second: Result<ImageButton, ChatTypeBuildError>,
)
    requires
        call_ensures(ImageButtonBuilder::build, (&builder,), first),
        call_ensures(ImageButtonBuilder::build, (&builder,), second),
    ensures
        first is Ok <==> second is Ok,
        first is Ok ==> render(first.unwrap()@.document()) == render(
            second.unwrap()@.document(),
        ),
        first is Err ==> first.unwrap_err()@ == second.unwrap_err()@,
{
}

/// The object of an image button has a key exactly when the field of that key is set.
pub proof fn lemma_image_button_keys(image_button: ImageButtonView)
    ensures
        has_key(image_button.document(), "iconUrl"@) <==> image_button.icon_url is Some,
        has_key(image_button.document(), "icon"@) <==> image_button.icon is Some,
        has_key(image_button.document(), "onClick"@) <==> image_button.on_click is Some,
{
    reveal_strlit("iconUrl");
    reveal_strlit("icon");
    reveal_strlit("onClick");
    assert("iconUrl"@[0] != "onClick"@[0]);
    let fields = image_button.fields();
    lemma_key_present_iff_set(fields, "iconUrl"@);
    assert(fields[0].key == "iconUrl"@);
    lemma_key_present_iff_set(fields, "icon"@);
    assert(fields[1].key == "icon"@);
    lemma_key_present_iff_set(fields, "onClick"@);
    assert(fields[2].key == "onClick"@);
}

/// What a `Button` holds.
pub struct ButtonView {
    pub text_button: Option<TextButtonView>,
    pub image_button: Option<ImageButtonView>,
}

impl ButtonView {
    /// The button with no field set.
    pub open spec fn empty() -> Self {
        ButtonView { text_button: None, image_button: None }
    }

    /// The declared fields, in their order.
    pub open spec fn fields(self) -> Seq<Field> {
        seq![
            Field {
                key: "textButton"@,
                value: TextButtonView::optional_document(self.text_button),
            },
            Field {
                key: "imageButton"@,
                value: ImageButtonView::optional_document(self.image_button),
            },
        ]
    }

    /// The JSON object that the button stands for.
    pub open spec fn document(self) -> JsonValue {
        object_of(self.fields())
    }

    /// The value of a field that may hold a button.
    pub open spec fn optional_document(value: Option<Self>) -> Option<JsonValue> {
        match value {
            Some(inner) => Some(inner.document()),
            None => None,
        }
    }

    /// The array that a list of buttons stands for: the object of each, in order.
    pub open spec fn array_document(items: Seq<Self>) -> JsonValue {
        array_of(items, |item: Self| item.document())
    }

    /// The value of a field that may hold a list of buttons. A list that is set
    /// and empty gives the empty array, not an unset field.
    pub open spec fn optional_array_document(items: Option<Seq<Self>>) -> Option<
        JsonValue,
    > {
        match items {
            Some(list) => Some(Self::array_document(list)),
            None => None,
        }
    }
}

/// A button: a text button or an image button. Every field is optional, and nothing
/// keeps both from being set.
#[derive(Debug)]
pub struct Button {
    text_button: Option<TextButton>,
    image_button: Option<ImageButton>,
}

impl DeepView for Button {
    type V = ButtonView;

    closed spec fn deep_view(&self) -> ButtonView {
        ButtonView {
            text_button: self.text_button.deep_view(),
            image_button: self.image_button.deep_view(),
        }
    }
}

impl View for Button {
    type V = ButtonView;

    open spec fn view(&self) -> ButtonView {
        self.deep_view()
    }
}

impl Clone for Button {
    fn clone(&self) -> (copy: Self)
        ensures
            copy@ == self@,
    {
        Button { text_button: self.text_button.clone(), image_button: self.image_button.clone() }
    }
}

impl Default for Button {
    /// The button with no field set.
    fn default() -> (empty: Self)
        ensures
            empty@ == ButtonView::empty(),
    {
        Button { text_button: None, image_button: None }
    }
}

impl Button {
    /// The `text_button`, if it is set.
    pub fn text_button(&self) -> (text_button: &Option<TextButton>)
        ensures
            text_button.deep_view() == self@.text_button,
    {
        &self.text_button
    }

    /// The `image_button`, if it is set.
    pub fn image_button(&self) -> (image_button: &Option<ImageButton>)
        ensures
            image_button.deep_view() == self@.image_button,
    {
        &self.image_button
    }

    /// The compact JSON text of the button.
    pub fn to_json(&self) -> (text: String)
        ensures
            text@ == render(self@.document()),
    {
        let mut writer = ObjectWriter::new();
        let text_button = match &self.text_button {
            Some(value) => Some(value.to_json()),
            None => None,
        };
        writer.field(
            "textButton",
            &text_button,
            Ghost(TextButtonView::optional_document(self@.text_button)),
        );
        let image_button = match &self.image_button {
            Some(value) => Some(value.to_json()),
            None => None,
        };
        writer.field(
            "imageButton",
            &image_button,
            Ghost(ImageButtonView::optional_document(self@.image_button)),
        );
        assert(writer.fields() =~= self@.fields());
        writer.finish()
    }

    /// The compact JSON text of a list of buttons: an array, in the order of the list.
    pub fn list_to_json(items: &Vec<Button>) -> (text: String)
        ensures
            text@ == render(ButtonView::array_document(items.deep_view())),
    {
        let mut writer = ArrayWriter::new();
        let mut done: usize = 0;
        while done < items.len()
            invariant
                writer.wf(),
                done <= items.len(),
                writer.items().len() == done,
                forall|i: int|
                    0 <= i < done ==> writer.items()[i] == items[i]@.document(),
            decreases items.len() - done,
        {
            let rendered = items[done].to_json();
            writer.item(rendered.as_str(), Ghost(items[done as int]@.document()));
            done += 1;
        }
        assert(writer.items() =~= items.deep_view().map_values(
            |item: ButtonView| item.document(),
        ));
        writer.finish()
    }
}

/// Stages the fields of a `Button`. The view is the button that the fields set so
/// far describe.
#[derive(Debug)]
pub struct ButtonBuilder {
    text_button: Option<TextButton>,
    image_button: Option<ImageButton>,
}

impl View for ButtonBuilder {
    type V = ButtonView;

    closed spec fn view(&self) -> ButtonView {
        ButtonView {
            text_button: self.text_button.deep_view(),
            image_button: self.image_button.deep_view(),
        }
    }
}

impl Default for ButtonBuilder {
    /// A builder with nothing set.
    fn default() -> (builder: Self)
        ensures
            builder@ == ButtonView::empty(),
    {
        ButtonBuilder { text_button: None, image_button: None }
    }
}

impl Clone for ButtonBuilder {
    fn clone(&self) -> (copy: Self)
        ensures
            copy@ == self@,
    {
        ButtonBuilder {
            text_button: self.text_button.clone(),
            image_button: self.image_button.clone(),
        }
    }
}

impl ButtonBuilder {
    /// Sets `text_button`; an earlier value is overwritten.
    pub fn text_button(&mut self, value: TextButton) -> (builder: &mut Self)
        ensures
            builder@ == (ButtonView { text_button: Some(value@), ..old(self)@ }),
            *final(self) == *final(builder),
    {
        self.text_button = Some(value);
        self
    }

    /// Sets `image_button`; an earlier value is overwritten.
    pub fn image_button(&mut self, value: ImageButton) -> (builder: &mut Self)
        ensures
            builder@ == (ButtonView { image_button: Some(value@), ..old(self)@ }),
            *final(self) == *final(builder),
    {
        self.image_button = Some(value);
        self
    }

    /// The finished button: every field as it was set, the others unset. This
    /// never fails, as no field is required.
    pub fn build(&self) -> (built: Result<Button, ChatTypeBuildError>)
        ensures
            built is Ok,
            built.unwrap()@ == self@,
    {
        Ok(
            Button {
                text_button: self.text_button.clone(),
                image_button: self.image_button.clone(),
            },
        )
    }
}

/// A builder with nothing set builds a button whose JSON text is `{}`.
pub proof fn lemma_button_nothing_set(
    builder: ButtonBuilder,
    built: Result<Button, ChatTypeBuildError>,
)
    requires
        builder@ == ButtonView::empty(),
        call_ensures(ButtonBuilder::build, (&builder,), built),
    ensures
        built is Ok,
        render(built.unwrap()@.document()) == "{}"@,
{
    lemma_nothing_set_renders_empty_object(ButtonView::empty().fields());
}

/// Building twice from one builder gives the same outcome: both times the
/// same error, or two buttons with the same JSON text.
pub proof fn lemma_button_build_repeatable(
    builder: ButtonBuilder,
    first: Result<Button, ChatTypeBuildError>,
    second: Result<Button, ChatTypeBuildError>,
)
    requires
        call_ensures(ButtonBuilder::build, (&builder,), first),
        call_ensures(ButtonBuilder::build, (&builder,), second),
    ensures
        first is Ok <==> second is Ok,
        first is Ok ==> render(first.unwrap()@.document()) == render(
            second.unwrap()@.document(),
        ),
        first is Err ==> first.unwrap_err()@ == second.unwrap_err()@,
{
}

/// The object of a button has a key exactly when the field of that key is set.
pub proof fn lemma_button_keys(button: ButtonView)
    ensures
        has_key(button.document(), "textButton"@) <==> button.text_button is Some,
        has_key(button.document(), "imageButton"@) <==> button.image_button is Some,
{
    reveal_strlit("textButton");
    reveal_strlit("imageButton");
    let fields = button.fields();
    lemma_key_present_iff_set(fields, "textButton"@);
    assert(fields[0].key == "textButton"@);
    lemma_key_present_iff_set(fields, "imageButton"@);
    assert(fields[1].key == "imageButton"@);
}

} // verus!
