use chat_types::{
    CardsBuilder, ChatTypeBuildError, OnClickBuilder, OpenLinkBuilder, TextBuilder,
    TextParagraphBuilder,
};
use derive_builder::UninitializedFieldError;

#[test]
fn open_link_without_url_names_the_field() {
    let error = OpenLinkBuilder::default().build().unwrap_err();
    assert_eq!(error.message(), "Field not initialized: url");
    assert_eq!(
        error.to_string(),
        "Error in build process Field not initialized: url"
    );
}

#[test]
fn on_click_without_open_link_names_the_field() {
    let error = OnClickBuilder::default().build().unwrap_err();
    assert_eq!(error.message(), "Field not initialized: open_link");
}

#[test]
fn text_without_text_names_the_field() {
    let error = TextBuilder::default().build().unwrap_err();
    assert_eq!(error.message(), "Field not initialized: text");
    assert_eq!(
        error.to_string(),
        "Error in build process Field not initialized: text"
    );
}

#[test]
fn text_paragraph_without_text_names_the_field() {
    let error = TextParagraphBuilder::default().build().unwrap_err();
    assert_eq!(error.message(), "Field not initialized: text");
}

#[test]
fn cards_without_cards_names_the_field() {
    let error = CardsBuilder::default().build().unwrap_err();
    assert_eq!(error.message(), "Field not initialized: cards");
}

#[test]
fn required_fields_once_set_build() {
    assert!(OpenLinkBuilder::default().url("u").build().is_ok());
    assert!(TextBuilder::default().text("").build().is_ok());
    assert!(TextParagraphBuilder::default().text("t").build().is_ok());
    assert!(CardsBuilder::default().cards(vec![]).build().is_ok());
    let link = OpenLinkBuilder::default().url("u").build().unwrap();
    assert!(OnClickBuilder::default().open_link(link).build().is_ok());
}

#[test]
fn error_takes_over_the_text_of_the_uninitialized_field_error() {
    let outside = UninitializedFieldError::new("image_url");
    let shown = outside.to_string();
    let error = ChatTypeBuildError::from(outside);
    assert_eq!(error.message(), shown);
    assert_eq!(error.message(), "Field not initialized: image_url");
    assert_ne!(error.message(), "image_url");
}

#[test]
fn error_keeps_its_description() {
    let error = ChatTypeBuildError::new("no cards");
    assert_eq!(error.message(), "no cards");
    assert_eq!(error.to_string(), "Error in build process no cards");
    let empty = ChatTypeBuildError::new("");
    assert_eq!(empty.to_string(), "Error in build process ");
}

#[test]
fn error_has_a_debug_form() {
    let error = ChatTypeBuildError::new("x");
    assert_eq!(format!("{:?}", error), "ChatTypeBuildError(\"x\")");
}
