use chat_types::writer::push_quoted;
use chat_types::{
    Button, ButtonBuilder, Card, CardBuilder, CardsBuilder, HeaderBuilder, ImageBuilder,
    ImageButtonBuilder, KeyValueBuilder, OnClick, OnClickBuilder, OpenLinkBuilder, Section,
    SectionBuilder, TextBuilder, TextButtonBuilder, TextParagraphBuilder, Widget, WidgetBuilder,
};
use serde_json::Value;

fn click(url: &str) -> OnClick {
    let link = OpenLinkBuilder::default().url(url).build().unwrap();
    OnClickBuilder::default().open_link(link).build().unwrap()
}

fn text_json(text: &str) -> String {
    TextBuilder::default().text(text).build().unwrap().to_json()
}

fn parse(json: &str) -> Value {
    serde_json::from_str(json).unwrap()
}

#[test]
fn empty_cards_is_an_empty_array() {
    let cards = CardsBuilder::default().cards(vec![]).build().unwrap();
    assert_eq!(cards.to_json(), "{\"cards\":[]}");
}

#[test]
fn on_click_chain_without_image_url() {
    let image = ImageBuilder::default()
        .on_click(click("https://example.com"))
        .build()
        .unwrap();
    let json = image.to_json();
    assert_eq!(
        json,
        "{\"onClick\":{\"openLink\":{\"url\":\"https://example.com\"}}}"
    );
    assert!(parse(&json).get("imageUrl").is_none());
}

#[test]
fn an_empty_list_is_not_an_unset_field() {
    let unset = SectionBuilder::default().build().unwrap();
    let empty = SectionBuilder::default().widgets(vec![]).build().unwrap();
    assert_eq!(unset.to_json(), "{}");
    assert_eq!(empty.to_json(), "{\"widgets\":[]}");

    assert_eq!(
        WidgetBuilder::default().buttons(vec![]).build().unwrap().to_json(),
        "{\"buttons\":[]}"
    );
    assert_eq!(
        CardBuilder::default().sections(vec![]).build().unwrap().to_json(),
        "{\"sections\":[]}"
    );
}

#[test]
fn an_empty_string_is_not_an_unset_field() {
    let header = HeaderBuilder::default().title("").build().unwrap();
    assert_eq!(header.to_json(), "{\"title\":\"\"}");
    assert_eq!(text_json(""), "{\"text\":\"\"}");
}

#[test]
fn fields_come_in_their_declared_order() {
    let button = ButtonBuilder::default()
        .image_button(
            ImageButtonBuilder::default()
                .on_click(click("u"))
                .icon("STAR")
                .icon_url("https://example.com/i.png")
                .build()
                .unwrap(),
        )
        .text_button(
            TextButtonBuilder::default()
                .on_click(click("v"))
                .text(String::from("go"))
                .build()
                .unwrap(),
        )
        .build()
        .unwrap();
    assert_eq!(
        button.to_json(),
        "{\"textButton\":{\"text\":\"go\",\"onClick\":{\"openLink\":{\"url\":\"v\"}}},\"imageButton\":{\"iconUrl\":\"https://example.com/i.png\",\"icon\":\"STAR\",\"onClick\":{\"openLink\":{\"url\":\"u\"}}}}"
    );

    let key_value = KeyValueBuilder::default()
        .button(Button::default())
        .on_click(click("u"))
        .bottom_label("5")
        .content_multiline("4")
        .icon("3")
        .content("2")
        .top_label("1")
        .build()
        .unwrap();
    assert_eq!(
        key_value.to_json(),
        "{\"topLabel\":\"1\",\"content\":\"2\",\"icon\":\"3\",\"contentMultiline\":\"4\",\"bottomLabel\":\"5\",\"onClick\":{\"openLink\":{\"url\":\"u\"}},\"button\":{}}"
    );

    let header = HeaderBuilder::default()
        .image_style("IMAGE")
        .image_url("https://example.com/h.png")
        .subtitle("s")
        .title("t")
        .build()
        .unwrap();
    assert_eq!(
        header.to_json(),
        "{\"title\":\"t\",\"subtitle\":\"s\",\"imageUrl\":\"https://example.com/h.png\",\"imageStyle\":\"IMAGE\"}"
    );

    let widget = WidgetBuilder::default()
        .buttons(vec![Button::default()])
        .image(ImageBuilder::default().build().unwrap())
        .key_value(KeyValueBuilder::default().build().unwrap())
        .text_paragraph(TextParagraphBuilder::default().text("p").build().unwrap())
        .build()
        .unwrap();
    assert_eq!(
        widget.to_json(),
        "{\"textParagraph\":{\"text\":\"p\"},\"keyValue\":{},\"image\":{},\"buttons\":[{}]}"
    );
}

#[test]
fn a_list_keeps_its_order() {
    let names = ["c", "a", "b", "a"];
    let mut sections: Vec<Section> = Vec::new();
    for name in names {
        sections.push(SectionBuilder::default().header(name).build().unwrap());
    }
    let card = CardBuilder::default().sections(sections).build().unwrap();
    let json = card.to_json();
    assert_eq!(
        json,
        "{\"sections\":[{\"header\":\"c\"},{\"header\":\"a\"},{\"header\":\"b\"},{\"header\":\"a\"}]}"
    );
    let parsed = parse(&json);
    let list = parsed.get("sections").unwrap().as_array().unwrap();
    assert_eq!(list.len(), names.len());
    for (at, name) in names.iter().enumerate() {
        assert_eq!(list[at].get("header").unwrap().as_str(), Some(*name));
    }
}

#[test]
fn lists_render_as_arrays() {
    assert_eq!(Card::list_to_json(&vec![]), "[]");
    assert_eq!(Card::list_to_json(&vec![Card::default()]), "[{}]");
    assert_eq!(
        Section::list_to_json(&vec![Section::default(), Section::default()]),
        "[{},{}]"
    );
    assert_eq!(
        Widget::list_to_json(&vec![
            Widget::default(),
            ImageBuilder::default().build().unwrap().to_widget(),
            Widget::default(),
        ]),
        "[{},{\"image\":{}},{}]"
    );
    assert_eq!(
        Button::list_to_json(&vec![
            ButtonBuilder::default()
                .text_button(TextButtonBuilder::default().build().unwrap())
                .build()
                .unwrap(),
            Button::default(),
        ]),
        "[{\"textButton\":{}},{}]"
    );
}

#[test]
fn quotes_and_backslashes_are_escaped() {
    assert_eq!(text_json("say \"hi\""), "{\"text\":\"say \\\"hi\\\"\"}");
    assert_eq!(text_json("a\\b"), "{\"text\":\"a\\\\b\"}");
    assert_eq!(text_json("\\\""), "{\"text\":\"\\\\\\\"\"}");
}

#[test]
fn control_characters_are_escaped() {
    assert_eq!(text_json("a\nb"), "{\"text\":\"a\\nb\"}");
    assert_eq!(text_json("\r\t"), "{\"text\":\"\\r\\t\"}");
    assert_eq!(text_json("\u{8}\u{c}"), "{\"text\":\"\\b\\f\"}");
    assert_eq!(text_json("\u{0}"), "{\"text\":\"\\u0000\"}");
    assert_eq!(text_json("\u{1}\u{b}"), "{\"text\":\"\\u0001\\u000b\"}");
    assert_eq!(text_json("\u{e}\u{f}"), "{\"text\":\"\\u000e\\u000f\"}");
    assert_eq!(text_json("\u{10}\u{1a}\u{1f}"), "{\"text\":\"\\u0010\\u001a\\u001f\"}");
}

#[test]
fn other_characters_stand_for_themselves() {
    assert_eq!(text_json(" /'\u{7f}"), "{\"text\":\" /'\u{7f}\"}");
    assert_eq!(text_json("caf\u{e9}"), "{\"text\":\"caf\u{e9}\"}");
    assert_eq!(
        text_json("\u{65e5}\u{672c}\u{1f600}"),
        "{\"text\":\"\u{65e5}\u{672c}\u{1f600}\"}"
    );
    assert_eq!(text_json("\u{80}\u{2028}"), "{\"text\":\"\u{80}\u{2028}\"}");
}

#[test]
fn push_quoted_appends_a_string_literal() {
    let mut out = String::from("x:");
    push_quoted(&mut out, "a\"b");
    assert_eq!(out, "x:\"a\\\"b\"");
    push_quoted(&mut out, "");
    assert_eq!(out, "x:\"a\\\"b\"\"\"");
}

#[test]
fn strings_are_quoted_as_serde_json_quotes_them() {
    let mut code: u32 = 0;
    while code < 0x3000 {
        if let Some(c) = char::from_u32(code) {
            let text = format!("a{}b{}", c, c);
            let expected = format!("{{\"text\":{}}}", serde_json::to_string(&text).unwrap());
            assert_eq!(text_json(&text), expected);
        }
        code += 1;
    }
    for text in ["", "\u{d7ff}\u{e000}", "\u{ffff}\u{10000}\u{10ffff}", "\"\\\n\u{1f}\u{20}"] {
        let expected = format!("{{\"text\":{}}}", serde_json::to_string(text).unwrap());
        assert_eq!(text_json(text), expected);
    }
}

#[test]
fn the_text_parses_back_to_the_same_strings() {
    let tricky = "{\"title\":\"x\"}, \\ \n \u{0} \u{1f600}";
    let header = HeaderBuilder::default()
        .title(tricky)
        .image_url("\"imageUrl\":")
        .build()
        .unwrap();
    let parsed = parse(&header.to_json());
    let object = parsed.as_object().unwrap();
    assert_eq!(object.len(), 2);
    assert_eq!(object.get("title").unwrap().as_str(), Some(tricky));
    assert_eq!(object.get("imageUrl").unwrap().as_str(), Some("\"imageUrl\":"));
    assert!(object.get("subtitle").is_none());
    assert!(object.get("imageStyle").is_none());
}

#[test]
fn a_card_message_parses_as_the_tree_that_was_built() {
    let paragraph = TextParagraphBuilder::default().text("some text").build().unwrap();
    let first = WidgetBuilder::default().text_paragraph(paragraph).build().unwrap();
    let second = ImageBuilder::default()
        .image_url("https://example.com/a.png")
        .on_click(click("https://example.com"))
        .build()
        .unwrap()
        .to_widget();
    let section = SectionBuilder::default()
        .header("news")
        .widgets(vec![first, second])
        .build()
        .unwrap();
    let card = CardBuilder::default()
        .header(HeaderBuilder::default().title("some tile").build().unwrap())
        .sections(vec![section])
        .build()
        .unwrap();
    let cards = CardsBuilder::default()
        .cards(vec![card, Card::default()])
        .build()
        .unwrap();
    let parsed = parse(&cards.to_json());

    let list = parsed.get("cards").unwrap().as_array().unwrap();
    assert_eq!(list.len(), 2);
    assert_eq!(list[1].as_object().unwrap().len(), 0);
    assert_eq!(
        list[0].pointer("/header/title").unwrap().as_str(),
        Some("some tile")
    );
    assert_eq!(
        list[0].pointer("/sections/0/header").unwrap().as_str(),
        Some("news")
    );
    assert_eq!(
        list[0]
            .pointer("/sections/0/widgets/0/textParagraph/text")
            .unwrap()
            .as_str(),
        Some("some text")
    );
    assert_eq!(
        list[0]
            .pointer("/sections/0/widgets/1/image/onClick/openLink/url")
            .unwrap()
            .as_str(),
        Some("https://example.com")
    );
    assert!(list[0].pointer("/sections/0/widgets/1/textParagraph").is_none());
    assert!(list[0].pointer("/sections/0/widgets/0/image").is_none());
}
