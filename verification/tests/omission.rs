use chat_types::{
    Button, ButtonBuilder, CardBuilder, Header, HeaderBuilder, Image, ImageBuilder, ImageButton,
    ImageButtonBuilder, KeyValueBuilder, OnClick, OnClickBuilder, OpenLinkBuilder, SectionBuilder,
    TextButton, TextButtonBuilder, TextParagraphBuilder, WidgetBuilder,
};
use serde_json::Value;

fn click() -> OnClick {
    let link = OpenLinkBuilder::default().url("https://example.com").build().unwrap();
    OnClickBuilder::default().open_link(link).build().unwrap()
}

fn keys(json: &str) -> Vec<String> {
    let parsed: Value = serde_json::from_str(json).unwrap();
    parsed.as_object().unwrap().keys().cloned().collect()
}

#[test]
fn header_has_a_key_for_each_field_that_is_set() {
    assert_eq!(keys(&HeaderBuilder::default().title("t").build().unwrap().to_json()), ["title"]);
    assert_eq!(
        keys(&HeaderBuilder::default().subtitle("s").build().unwrap().to_json()),
        ["subtitle"]
    );
    assert_eq!(
        keys(&HeaderBuilder::default().image_url("u").build().unwrap().to_json()),
        ["imageUrl"]
    );
    assert_eq!(
        keys(&HeaderBuilder::default().image_style("i").build().unwrap().to_json()),
        ["imageStyle"]
    );
}

#[test]
fn section_and_card_have_a_key_for_each_field_that_is_set() {
    assert_eq!(keys(&SectionBuilder::default().header("h").build().unwrap().to_json()), ["header"]);
    assert_eq!(
        keys(&SectionBuilder::default().widgets(vec![]).build().unwrap().to_json()),
        ["widgets"]
    );
    assert_eq!(
        keys(&CardBuilder::default().header(Header::default()).build().unwrap().to_json()),
        ["header"]
    );
    assert_eq!(
        keys(&CardBuilder::default().sections(vec![]).build().unwrap().to_json()),
        ["sections"]
    );
}

#[test]
fn widget_has_a_key_for_each_field_that_is_set() {
    let paragraph = TextParagraphBuilder::default().text("p").build().unwrap();
    assert_eq!(
        keys(&WidgetBuilder::default().text_paragraph(paragraph).build().unwrap().to_json()),
        ["textParagraph"]
    );
    let key_value = KeyValueBuilder::default().build().unwrap();
    assert_eq!(
        keys(&WidgetBuilder::default().key_value(key_value).build().unwrap().to_json()),
        ["keyValue"]
    );
    assert_eq!(
        keys(&WidgetBuilder::default().image(Image::default()).build().unwrap().to_json()),
        ["image"]
    );
    assert_eq!(
        keys(&WidgetBuilder::default().buttons(vec![]).build().unwrap().to_json()),
        ["buttons"]
    );
}

#[test]
fn key_value_has_a_key_for_each_field_that_is_set() {
    assert_eq!(
        keys(&KeyValueBuilder::default().top_label("x").build().unwrap().to_json()),
        ["topLabel"]
    );
    assert_eq!(
        keys(&KeyValueBuilder::default().content("x").build().unwrap().to_json()),
        ["content"]
    );
    assert_eq!(keys(&KeyValueBuilder::default().icon("x").build().unwrap().to_json()), ["icon"]);
    assert_eq!(
        keys(&KeyValueBuilder::default().content_multiline("x").build().unwrap().to_json()),
        ["contentMultiline"]
    );
    assert_eq!(
        keys(&KeyValueBuilder::default().bottom_label("x").build().unwrap().to_json()),
        ["bottomLabel"]
    );
    assert_eq!(
        keys(&KeyValueBuilder::default().on_click(click()).build().unwrap().to_json()),
        ["onClick"]
    );
    assert_eq!(
        keys(&KeyValueBuilder::default().button(Button::default()).build().unwrap().to_json()),
        ["button"]
    );
}

#[test]
fn image_and_buttons_have_a_key_for_each_field_that_is_set() {
    assert_eq!(
        keys(&ImageBuilder::default().image_url("u").build().unwrap().to_json()),
        ["imageUrl"]
    );
    assert_eq!(
        keys(&ImageBuilder::default().on_click(click()).build().unwrap().to_json()),
        ["onClick"]
    );
    assert_eq!(
        keys(&TextButtonBuilder::default().text(String::from("t")).build().unwrap().to_json()),
        ["text"]
    );
    assert_eq!(
        keys(&TextButtonBuilder::default().on_click(click()).build().unwrap().to_json()),
        ["onClick"]
    );
    assert_eq!(
        keys(&ImageButtonBuilder::default().icon_url("u").build().unwrap().to_json()),
        ["iconUrl"]
    );
    assert_eq!(keys(&ImageButtonBuilder::default().icon("i").build().unwrap().to_json()), ["icon"]);
    assert_eq!(
        keys(&ImageButtonBuilder::default().on_click(click()).build().unwrap().to_json()),
        ["onClick"]
    );
    assert_eq!(
        keys(
            &ButtonBuilder::default()
                .text_button(TextButton::default())
                .build()
                .unwrap()
                .to_json()
        ),
        ["textButton"]
    );
    assert_eq!(
        keys(
            &ButtonBuilder::default()
                .image_button(ImageButton::default())
                .build()
                .unwrap()
                .to_json()
        ),
        ["imageButton"]
    );
}

#[test]
fn an_unset_field_is_never_null() {
    let mut builder = KeyValueBuilder::default();
    builder.content("c");
    let json = builder.build().unwrap().to_json();
    assert!(!json.contains("null"));
    assert!(!json.contains("topLabel"));
    assert!(!json.contains("onClick"));
    assert_eq!(json, "{\"content\":\"c\"}");
}

#[test]
fn required_fields_always_have_their_key() {
    assert_eq!(keys(&click().to_json()), ["openLink"]);
    assert_eq!(keys(&click().open_link().to_json()), ["url"]);
    assert_eq!(
        keys(&TextParagraphBuilder::default().text("").build().unwrap().to_json()),
        ["text"]
    );
}
