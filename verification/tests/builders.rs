use chat_types::{
    Button, ButtonBuilder, Card, CardBuilder, CardsBuilder, Header, HeaderBuilder, Image,
    ImageBuilder, ImageButton, ImageButtonBuilder, KeyValue, KeyValueBuilder, OnClick,
    OnClickBuilder, OpenLinkBuilder, Section, SectionBuilder, TextBuilder, TextButton,
    TextButtonBuilder, TextParagraphBuilder, Widget, WidgetBuilder,
};

fn click(url: &str) -> OnClick {
    let link = OpenLinkBuilder::default().url(url).build().unwrap();
    OnClickBuilder::default().open_link(link).build().unwrap()
}

#[test]
fn nothing_set_builds_the_empty_object() {
    assert_eq!(HeaderBuilder::default().build().unwrap().to_json(), "{}");
    assert_eq!(SectionBuilder::default().build().unwrap().to_json(), "{}");
    assert_eq!(CardBuilder::default().build().unwrap().to_json(), "{}");
    assert_eq!(WidgetBuilder::default().build().unwrap().to_json(), "{}");
    assert_eq!(KeyValueBuilder::default().build().unwrap().to_json(), "{}");
    assert_eq!(ImageBuilder::default().build().unwrap().to_json(), "{}");
    assert_eq!(ButtonBuilder::default().build().unwrap().to_json(), "{}");
    assert_eq!(TextButtonBuilder::default().build().unwrap().to_json(), "{}");
    assert_eq!(ImageButtonBuilder::default().build().unwrap().to_json(), "{}");
}

#[test]
fn default_entities_are_empty_objects() {
    assert_eq!(Header::default().to_json(), "{}");
    assert_eq!(Section::default().to_json(), "{}");
    assert_eq!(Card::default().to_json(), "{}");
    assert_eq!(Widget::default().to_json(), "{}");
    assert_eq!(KeyValue::default().to_json(), "{}");
    assert_eq!(Image::default().to_json(), "{}");
    assert_eq!(Button::default().to_json(), "{}");
    assert_eq!(TextButton::default().to_json(), "{}");
    assert_eq!(ImageButton::default().to_json(), "{}");
}

#[test]
fn last_write_wins() {
    let mut builder = HeaderBuilder::default();
    builder.title("first");
    builder.subtitle("kept");
    builder.title("second");
    let header = builder.build().unwrap();
    assert_eq!(header.title().as_deref(), Some("second"));
    assert_eq!(header.subtitle().as_deref(), Some("kept"));
    assert_eq!(header.to_json(), "{\"title\":\"second\",\"subtitle\":\"kept\"}");

    let text = TextBuilder::default().text("a").text("b").build().unwrap();
    assert_eq!(text.text(), "b");

    let on_click = OnClickBuilder::default()
        .open_link(OpenLinkBuilder::default().url("one").build().unwrap())
        .open_link(OpenLinkBuilder::default().url("two").build().unwrap())
        .build()
        .unwrap();
    assert_eq!(on_click.open_link().url(), "two");
}

#[test]
fn building_twice_gives_the_same_text() {
    let mut builder = KeyValueBuilder::default();
    builder.top_label("top").content("c").on_click(click("https://example.com"));
    let first = builder.build().unwrap();
    let second = builder.build().unwrap();
    assert_eq!(first.to_json(), second.to_json());
    assert_eq!(
        first.to_json(),
        "{\"topLabel\":\"top\",\"content\":\"c\",\"onClick\":{\"openLink\":{\"url\":\"https://example.com\"}}}"
    );

    let mut cards = CardsBuilder::default();
    cards.cards(vec![Card::default(), Card::default()]);
    assert_eq!(cards.build().unwrap().to_json(), cards.build().unwrap().to_json());

    let unset = OpenLinkBuilder::default();
    assert_eq!(
        unset.build().unwrap_err().message(),
        unset.build().unwrap_err().message()
    );
}

#[test]
fn build_leaves_the_builder_as_it_was() {
    let mut builder = ImageBuilder::default();
    builder.image_url("https://example.com/a.png");
    let first = builder.build().unwrap();
    builder.on_click(click("https://example.com"));
    let second = builder.build().unwrap();
    assert_eq!(first.to_json(), "{\"imageUrl\":\"https://example.com/a.png\"}");
    assert_eq!(
        second.to_json(),
        "{\"imageUrl\":\"https://example.com/a.png\",\"onClick\":{\"openLink\":{\"url\":\"https://example.com\"}}}"
    );
}

#[test]
fn a_cloned_builder_goes_its_own_way() {
    let mut builder = SectionBuilder::default();
    builder.header("one");
    let mut copy = builder.clone();
    copy.header("two");
    assert_eq!(builder.build().unwrap().to_json(), "{\"header\":\"one\"}");
    assert_eq!(copy.build().unwrap().to_json(), "{\"header\":\"two\"}");
}

#[test]
fn a_cloned_entity_has_the_same_text() {
    let paragraph = TextParagraphBuilder::default().text("p").build().unwrap();
    let widget = WidgetBuilder::default()
        .text_paragraph(paragraph)
        .buttons(vec![Button::default()])
        .build()
        .unwrap();
    let section = SectionBuilder::default()
        .header("h")
        .widgets(vec![widget])
        .build()
        .unwrap();
    let card = CardBuilder::default().sections(vec![section]).build().unwrap();
    let cards = CardsBuilder::default().cards(vec![card]).build().unwrap();
    let copy = cards.clone();
    assert_eq!(copy.to_json(), cards.to_json());
    assert_eq!(
        copy.to_json(),
        "{\"cards\":[{\"sections\":[{\"header\":\"h\",\"widgets\":[{\"textParagraph\":{\"text\":\"p\"},\"buttons\":[{}]}]}]}]}"
    );
}

#[test]
fn getters_give_back_what_was_set() {
    let text_button = TextButtonBuilder::default()
        .text(String::from("press"))
        .on_click(click("https://example.com"))
        .build()
        .unwrap();
    assert_eq!(text_button.text().as_deref(), Some("press"));
    assert_eq!(
        text_button.on_click().as_ref().unwrap().open_link().url(),
        "https://example.com"
    );

    let image_button = ImageButtonBuilder::default().icon("STAR").build().unwrap();
    assert_eq!(image_button.icon().as_deref(), Some("STAR"));
    assert!(image_button.icon_url().is_none());
    assert!(image_button.on_click().is_none());

    let button = ButtonBuilder::default()
        .text_button(text_button)
        .build()
        .unwrap();
    assert!(button.text_button().is_some());
    assert!(button.image_button().is_none());

    let section = SectionBuilder::default().widgets(vec![]).build().unwrap();
    assert!(section.header().is_none());
    assert_eq!(section.widgets().as_ref().unwrap().len(), 0);

    let card = CardBuilder::default()
        .header(HeaderBuilder::default().image_style("AVATAR").build().unwrap())
        .build()
        .unwrap();
    assert_eq!(
        card.header().as_ref().unwrap().image_style().as_deref(),
        Some("AVATAR")
    );
    assert!(card.sections().is_none());

    let cards = CardsBuilder::default().cards(vec![card]).build().unwrap();
    assert_eq!(cards.cards().len(), 1);
}

#[test]
fn key_value_wraps_into_a_widget() {
    let key_value = KeyValueBuilder::default()
        .content("c")
        .bottom_label("b")
        .build()
        .unwrap();
    let widget = key_value.to_widget();
    assert!(widget.text_paragraph().is_none());
    assert!(widget.image().is_none());
    assert!(widget.buttons().is_none());
    assert_eq!(
        widget.key_value().as_ref().unwrap().to_json(),
        key_value.to_json()
    );
    assert_eq!(
        widget.to_json(),
        "{\"keyValue\":{\"content\":\"c\",\"bottomLabel\":\"b\"}}"
    );
}

#[test]
fn image_wraps_into_a_widget() {
    let image = ImageBuilder::default()
        .image_url("https://example.com/a.png")
        .build()
        .unwrap();
    let widget = image.to_widget();
    assert!(widget.text_paragraph().is_none());
    assert!(widget.key_value().is_none());
    assert!(widget.buttons().is_none());
    assert_eq!(
        widget.to_json(),
        "{\"image\":{\"imageUrl\":\"https://example.com/a.png\"}}"
    );
    assert_eq!(Image::default().to_widget().to_json(), "{\"image\":{}}");
}

#[test]
fn a_widget_may_hold_more_than_one_kind() {
    let widget = WidgetBuilder::default()
        .image(Image::default())
        .key_value(KeyValue::default())
        .build()
        .unwrap();
    assert_eq!(widget.to_json(), "{\"keyValue\":{},\"image\":{}}");
}
