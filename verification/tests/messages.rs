use chat_types::{
    CardBuilder, CardsBuilder, HeaderBuilder, SectionBuilder, TextBuilder, TextParagraphBuilder,
    WidgetBuilder,
};

#[test]
fn build_cards() {
    let text_paragraph = TextParagraphBuilder::default()
        .text("some text")
        .build()
        .unwrap();
    let widget = WidgetBuilder::default()
        .text_paragraph(text_paragraph)
        .build()
        .unwrap();
    let section = SectionBuilder::default()
        .widgets(vec![widget])
        .build()
        .unwrap();
    let header = HeaderBuilder::default().title("some tile").build().unwrap();
    let card = CardBuilder::default()
        .sections(vec![section])
        .header(header)
        .build()
        .unwrap();
    let cards = CardsBuilder::default().cards(vec![card]).build().unwrap();
    let json = cards.to_json();
    assert_eq!(json,"{\"cards\":[{\"header\":{\"title\":\"some tile\"},\"sections\":[{\"widgets\":[{\"textParagraph\":{\"text\":\"some text\"}}]}]}]}")
}

#[test]
fn build_text() {
    let text = TextBuilder::default().text("some text").build().unwrap();
    let json = text.to_json();
    assert_eq!(json, "{\"text\":\"some text\"}")
}
