//! Typed construction of chat-notification messages and their JSON text.
//!
//! A message is either a plain [`Text`] or a [`Cards`] message. A card message
//! is a tree: `Cards`, `Card`, `Section`, `Widget`, then a `TextParagraph`, a
//! `KeyValue`, an `Image` or `Button`s, down to `OnClick` and `OpenLink`. Each of
//! these entities has a builder that stages its fields one by one and hands out
//! the finished, immutable value; the tree is built from the leaves upward.
//!
//! Every entity has a view, a plain record of what it holds, and a document, the
//! JSON object that it stands for: one member for each field that is set, under
//! the field's lowerCamelCase key, in the declared order. `to_json` returns the
//! compact text of that document.
//!
//! ```text
//! {"text":"some text"}
//! {"cards":[{"header":{"title":"..."},"sections":[{"widgets":[...]}]}]}
//! ```
//!
//! A builder fails only where a required field was never set, and the error
//! names that field:
//!
//! ```ignore
//! let link = OpenLinkBuilder::default().url("https://example.com").build()?;
//! let click = OnClickBuilder::default().open_link(link).build()?;
//! let image = ImageBuilder::default().on_click(click).build()?;
//! assert_eq!(image.to_json(), r#"{"onClick":{"openLink":{"url":"https://example.com"}}}"#);
//! assert!(OpenLinkBuilder::default().build().is_err());
//! ```
//!
//! The modules: [`json`] holds the document model, its text and the general
//! laws about both; [`writer`] writes that text; [`error`] holds the build error;
//! [`link`], [`button`], [`widget`], [`card`] and [`message`] hold the entities
//! with their builders, from the leaves of the tree to its roots.

pub mod button;
pub mod card;
pub mod error;
pub mod json;
pub mod link;
pub mod message;
pub mod widget;
pub mod writer;

pub use crate::button::{
    Button, ButtonBuilder, ButtonView, ImageButton, ImageButtonBuilder, ImageButtonView,
    TextButton, TextButtonBuilder, TextButtonView,
};
pub use crate::card::{
    Card, CardBuilder, CardView, Header, HeaderBuilder, HeaderView, Section, SectionBuilder,
    SectionView,
};
pub use crate::error::ChatTypeBuildError;
pub use crate::link::{
    OnClick, OnClickBuilder, OnClickView, OpenLink, OpenLinkBuilder, OpenLinkView,
};
pub use crate::message::{Cards, CardsBuilder, CardsView, Text, TextBuilder, TextView};
pub use crate::widget::{
    Image, ImageBuilder, ImageView, KeyValue, KeyValueBuilder, KeyValueView, TextParagraph,
    TextParagraphBuilder, TextParagraphView, Widget, WidgetBuilder, WidgetView,
};
