//! What a click does: `OnClick` and the link that it opens.

use crate::error::{missing_field_message, uninitialized, ChatTypeBuildError};
use crate::json::{has_key, lemma_key_present_iff_set, object_of, render, Field, JsonValue};
use crate::writer::ObjectWriter;
use vstd::prelude::*;
use vstd::string::*;

verus! {

/// What a `OpenLink` holds.
pub struct OpenLinkView {
    pub url: Seq<char>,
}

impl OpenLinkView {
    /// The declared fields, in their order.
    pub open spec fn fields(self) -> Seq<Field> {
        seq![
            Field { key: "url"@, value: Some(JsonValue::Text(self.url)) },
        ]
    }

    /// The JSON object that the link stands for.
    pub open spec fn document(self) -> JsonValue {
        object_of(self.fields())
    }
}

/// A link to open. Its `url` is required.
#[derive(Debug)]
pub struct OpenLink {
    url: String,
}

impl DeepView for OpenLink {
    type V = OpenLinkView;

    closed spec fn deep_view(&self) -> OpenLinkView {
        OpenLinkView {
            url: self.url.deep_view(),
        }
    }
}

impl View for OpenLink {
    type V = OpenLinkView;

    open spec fn view(&self) -> OpenLinkView {
        self.deep_view()
    }
}

impl Clone for OpenLink {
    fn clone(&self) -> (copy: Self)
        ensures
            copy@ == self@,
    {
        OpenLink { url: self.url.clone() }
    }
}

impl OpenLink {
    /// The `url`.
    pub fn url(&self) -> (url: &str)
        ensures
            url@ == self@.url,
    {
        self.url.as_str()
    }

    /// The compact JSON text of the link.
    pub fn to_json(&self) -> (text: String)
        ensures
            text@ == render(self@.document()),
    {
        let mut writer = ObjectWriter::new();
        writer.text_member("url", self.url.as_str());
        assert(writer.fields() =~= self@.fields());
        writer.finish()
    }
}

/// Stages the fields of a `OpenLink`. The view is the `url`, once it is set.
#[derive(Debug)]
pub struct OpenLinkBuilder {
    url: Option<String>,
}

impl View for OpenLinkBuilder {
    type V = Option<Seq<char>>;

    closed spec fn view(&self) -> Option<Seq<char>> {
        self.url.deep_view()
    }
}

impl Default for OpenLinkBuilder {
    /// A builder with nothing set.
    fn default() -> (builder: Self)
        ensures
            builder@ is None,
    {
        OpenLinkBuilder { url: None }
    }
}

impl Clone for OpenLinkBuilder {
    fn clone(&self) -> (copy: Self)
        ensures
            copy@ == self@,
    {
        OpenLinkBuilder { url: self.url.clone() }
    }
}

impl OpenLinkBuilder {
    /// Sets `url`; an earlier value is overwritten.
    pub fn url(&mut self, value: &str) -> (builder: &mut Self)
        ensures
            builder@ == Some(value@),
            *final(self) == *final(builder),
    {
        self.url = Some(String::from_str(value));
        self
    }

    /// The finished link, or the error that names `url` if it was never set.
    pub fn build(&self) -> (built: Result<OpenLink, ChatTypeBuildError>)
        ensures
            match self@ {
                Some(url) => built is Ok && built.unwrap()@ == (OpenLinkView { url }),
                None => built is Err && built.unwrap_err()@ == missing_field_message("url"@),
            },
    {
        match &self.url {
            Some(value) => Ok(OpenLink { url: value.clone() }),
            None => Err(uninitialized("url")),
        }
    }
}

/// Building twice from one builder gives the same outcome: both times the
/// same error, or two links with the same JSON text.
pub proof fn lemma_open_link_build_repeatable(
    builder: OpenLinkBuilder,
    first: Result<OpenLink, ChatTypeBuildError>,
    second: Result<OpenLink, ChatTypeBuildError>,
)
    requires
        call_ensures(OpenLinkBuilder::build, (&builder,), first),
        call_ensures(OpenLinkBuilder::build, (&builder,), second),
    ensures
        first is Ok <==> second is Ok,
        first is Ok ==> render(first.unwrap()@.document()) == render(
            second.unwrap()@.document(),
        ),
        first is Err ==> first.unwrap_err()@ == second.unwrap_err()@,
{
}

/// The object of a link always has the key `url`.
pub proof fn lemma_open_link_keys(open_link: OpenLinkView)
    ensures
        has_key(open_link.document(), "url"@),
{
    reveal_strlit("url");
    let fields = open_link.fields();
    lemma_key_present_iff_set(fields, "url"@);
    assert(fields[0].key == "url"@);
}

/// What a `OnClick` holds.
pub struct OnClickView {
    pub open_link: OpenLinkView,
}

impl OnClickView {
    /// The declared fields, in their order.
    pub open spec fn fields(self) -> Seq<Field> {
        seq![
            Field { key: "openLink"@, value: Some(self.open_link.document()) },
        ]
    }

    /// The JSON object that the click action stands for.
    pub open spec fn document(self) -> JsonValue {
        object_of(self.fields())
    }

    /// The value of a field that may hold a click action.
    pub open spec fn optional_document(value: Option<Self>) -> Option<JsonValue> {
        match value {
            Some(inner) => Some(inner.document()),
            None => None,
        }
    }
}

/// What a click does. Its `open_link` is required.
#[derive(Debug)]
pub struct OnClick {
    open_link: OpenLink,
}

impl DeepView for OnClick {
    type V = OnClickView;

    closed spec fn deep_view(&self) -> OnClickView {
        OnClickView {
            open_link: self.open_link.deep_view(),
        }
    }
}

impl View for OnClick {
    type V = OnClickView;

    open spec fn view(&self) -> OnClickView {
        self.deep_view()
    }
}

impl Clone for OnClick {
    fn clone(&self) -> (copy: Self)
        ensures
            copy@ == self@,
    {
        OnClick { open_link: self.open_link.clone() }
    }
}

impl OnClick {
    /// The `open_link`.
    pub fn open_link(&self) -> (open_link: &OpenLink)
        ensures
            open_link@ == self@.open_link,
    {
        &self.open_link
    }

    /// The compact JSON text of the click action.
    pub fn to_json(&self) -> (text: String)
        ensures
            text@ == render(self@.document()),
    {
        let mut writer = ObjectWriter::new();
        let open_link = self.open_link.to_json();
        writer.member("openLink", open_link.as_str(), Ghost(self@.open_link.document()));
        assert(writer.fields() =~= self@.fields());
        writer.finish()
    }
}

/// Stages the fields of a `OnClick`. The view is the `open_link`, once it is set.
#[derive(Debug)]
pub struct OnClickBuilder {
    open_link: Option<OpenLink>,
}

impl View for OnClickBuilder {
    type V = Option<OpenLinkView>;

    closed spec fn view(&self) -> Option<OpenLinkView> {
        self.open_link.deep_view()
    }
}

impl Default for OnClickBuilder {
    /// A builder with nothing set.
    fn default() -> (builder: Self)
        ensures
            builder@ is None,
    {
        OnClickBuilder { open_link: None }
    }
}

impl Clone for OnClickBuilder {
    fn clone(&self) -> (copy: Self)
        ensures
            copy@ == self@,
    {
        OnClickBuilder { open_link: self.open_link.clone() }
    }
}

impl OnClickBuilder {
    /// Sets `open_link`; an earlier value is overwritten.
    pub fn open_link(&mut self, value: OpenLink) -> (builder: &mut Self)
        ensures
            builder@ == Some(value@),
            *final(self) == *final(builder),
    {
        self.open_link = Some(value);
        self
    }

    /// The finished click action, or the error that names `open_link` if it was never set.
    pub fn build(&self) -> (built: Result<OnClick, ChatTypeBuildError>)
        ensures
            match self@ {
                Some(open_link) => built is Ok && built.unwrap()@ == (OnClickView { open_link }),
                None => built is Err && built.unwrap_err()@ == missing_field_message("open_link"@),
            },
    {
        match &self.open_link {
            Some(value) => Ok(OnClick { open_link: value.clone() }),
            None => Err(uninitialized("open_link")),
        }
    }
}

/// Building twice from one builder gives the same outcome: both times the
/// same error, or two click actions with the same JSON text.
pub proof fn lemma_on_click_build_repeatable(
    builder: OnClickBuilder,
    first: Result<OnClick, ChatTypeBuildError>,
    second: Result<OnClick, ChatTypeBuildError>,
)
    requires
        call_ensures(OnClickBuilder::build, (&builder,), first),
        call_ensures(OnClickBuilder::build, (&builder,), second),
    ensures
        first is Ok <==> second is Ok,
        first is Ok ==> render(first.unwrap()@.document()) == render(
            second.unwrap()@.document(),
        ),
        first is Err ==> first.unwrap_err()@ == second.unwrap_err()@,
{
}

/// The object of a click action always has the key `openLink`.
pub proof fn lemma_on_click_keys(on_click: OnClickView)
    ensures
        has_key(on_click.document(), "openLink"@),
{
    reveal_strlit("openLink");
    let fields = on_click.fields();
    lemma_key_present_iff_set(fields, "openLink"@);
    assert(fields[0].key == "openLink"@);
}

} // verus!
