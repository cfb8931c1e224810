//! The parts that cards are made of: texts, images, confirmation dialogs and
//! the widgets of an action row.

use vstd::prelude::*;
use crate::json::{
    bool_value, group_key_count, member, number_value, one, optional_member, optional_value,
    string_value, Json, JsonValue, MemberValue, ObjectBuilder,
};

verus! {

/// A text in one of two rendering modes. `lines` caps the lines that are shown.
#[derive(Debug)]
pub enum Text {
    PlainText { content: String, lines: Option<u32> },
    LarkMd { content: String, lines: Option<u32> },
}

/// A text as a mathematical value.
pub enum TextView {
    PlainText {
        content: Seq<char>,
        lines: Option<u32>,
    },
    LarkMd {
        content: Seq<char>,
        lines: Option<u32>,
    },
}

impl DeepView for Text {
    type V = TextView;

    open spec fn deep_view(&self) -> TextView {
        match self {
            Text::PlainText { content, lines } => TextView::PlainText {
                content: content.deep_view(),
                lines: *lines,
            },
            Text::LarkMd { content, lines } => TextView::LarkMd {
                content: content.deep_view(),
                lines: *lines,
            },
        }
    }
}

impl TextView {
    /// The discriminant of the variant.
    pub open spec fn tag(self) -> Seq<char> {
        match self {
            TextView::PlainText { .. } => "plain_text"@,
            TextView::LarkMd { .. } => "lark_md"@,
        }
    }

    /// The characters of the text.
    pub open spec fn content(self) -> Seq<char> {
        match self {
            TextView::PlainText { content, .. } => content,
            TextView::LarkMd { content, .. } => content,
        }
    }

    /// The cap on the lines shown, where one is set.
    pub open spec fn lines(self) -> Option<u32> {
        match self {
            TextView::PlainText { lines, .. } => lines,
            TextView::LarkMd { lines, .. } => lines,
        }
    }

    /// The JSON form: the discriminant under `tag`, the content, and `lines`
    /// where it is set.
    pub open spec fn json(self) -> JsonValue {
        JsonValue::Object(
            Seq::empty()
                .push(member("tag"@, JsonValue::Str(self.tag())))
                .push(member("content"@, JsonValue::Str(self.content())))
                + optional_member("lines"@, number_value(self.lines())),
        )
    }
}

impl Text {
    /// Builds the JSON form.
    pub fn to_json(&self) -> (j: Json)
        ensures
            j@ == self.deep_view().json(),
    {
        let mut b = ObjectBuilder::new();
        match self {
            Text::PlainText { content, lines } => {
                b.member("tag", Json::string("plain_text"));
                b.member("content", Json::string(content.as_str()));
                b.optional("lines", Json::optional_number(lines));
            },
            Text::LarkMd { content, lines } => {
                b.member("tag", Json::string("lark_md"));
                b.member("content", Json::string(content.as_str()));
                b.optional("lines", Json::optional_number(lines));
            },
        }
        proof {
            assert(b@ =~= self.deep_view().json()->Object_0);
        }
        b.build()
    }
}

/// The JSON form of an optional text.
pub open spec fn text_value(t: Option<TextView>) -> Option<JsonValue> {
    match t {
        Some(t) => Some(t.json()),
        None => None,
    }
}

/// Builds the JSON form of an optional text.
pub fn optional_text(t: &Option<Text>) -> (j: Option<Json>)
    ensures
        optional_value(j) == text_value(t.deep_view()),
{
    match t {
        Some(t) => Some(t.to_json()),
        None => None,
    }
}

/// A dialog that asks for confirmation before an action runs.
#[derive(Debug)]
pub struct Confirm {
    pub title: Text,
    pub text: Text,
}

/// A dialog as a mathematical value.
pub struct ConfirmView {
    pub title: TextView,
    pub text: TextView,
}

impl DeepView for Confirm {
    type V = ConfirmView;

    open spec fn deep_view(&self) -> ConfirmView {
        ConfirmView {
            title: self.title.deep_view(),
            text: self.text.deep_view(),
        }
    }
}

impl ConfirmView {
    /// The JSON form: the title and the text.
    pub open spec fn json(self) -> JsonValue {
        JsonValue::Object(
            Seq::empty()
                .push(member("title"@, self.title.json()))
                .push(member("text"@, self.text.json())))
    }
}

impl Confirm {
    /// Builds the JSON form.
    pub fn to_json(&self) -> (j: Json)
        ensures
            j@ == self.deep_view().json(),
    {
        let mut b = ObjectBuilder::new();
        b.member("title", self.title.to_json());
        b.member("text", self.text.to_json());
        proof {
            assert(b@ =~= self.deep_view().json()->Object_0);
        }
        b.build()
    }
}

/// The JSON form of an optional dialog.
pub open spec fn confirm_value(c: Option<ConfirmView>) -> Option<JsonValue> {
    match c {
        Some(c) => Some(c.json()),
        None => None,
    }
}

/// Builds the JSON form of an optional dialog.
pub fn optional_confirm(c: &Option<Confirm>) -> (j: Option<Json>)
    ensures
        optional_value(j) == confirm_value(c.deep_view()),
{
    match c {
        Some(c) => Some(c.to_json()),
        None => None,
    }
}

/// The links of a button, one for each platform.
#[derive(Debug)]
pub struct MultiUrl {
    pub url: String,
    pub android_url: String,
    pub ios_url: String,
    pub pc_url: String,
}

/// The links of a button as a mathematical value.
pub struct MultiUrlView {
    pub url: Seq<char>,
    pub android_url: Seq<char>,
    pub ios_url: Seq<char>,
    pub pc_url: Seq<char>,
}

impl DeepView for MultiUrl {
    type V = MultiUrlView;

    open spec fn deep_view(&self) -> MultiUrlView {
        MultiUrlView {
            url: self.url.deep_view(),
            android_url: self.android_url.deep_view(),
            ios_url: self.ios_url.deep_view(),
            pc_url: self.pc_url.deep_view(),
        }
    }
}

impl MultiUrlView {
    /// The JSON form: the four links.
    pub open spec fn json(self) -> JsonValue {
        JsonValue::Object(
            Seq::empty()
                .push(member("url"@, JsonValue::Str(self.url)))
                .push(member("android_url"@, JsonValue::Str(self.android_url)))
                .push(member("ios_url"@, JsonValue::Str(self.ios_url)))
                .push(member("pc_url"@, JsonValue::Str(self.pc_url))),
        )
    }
}

impl MultiUrl {
    /// Builds the JSON form.
    pub fn to_json(&self) -> (j: Json)
        ensures
            j@ == self.deep_view().json(),
    {
        let mut b = ObjectBuilder::new();
        b.member("url", Json::string(self.url.as_str()));
        b.member("android_url", Json::string(self.android_url.as_str()));
        b.member("ios_url", Json::string(self.ios_url.as_str()));
        b.member("pc_url", Json::string(self.pc_url.as_str()));
        proof {
            assert(b@ =~= self.deep_view().json()->Object_0);
        }
        b.build()
    }
}

/// The JSON form of optional links.
pub open spec fn multi_url_value(u: Option<MultiUrlView>) -> Option<JsonValue> {
    match u {
        Some(u) => Some(u.json()),
        None => None,
    }
}

/// Builds the JSON form of optional links.
pub fn optional_multi_url(u: &Option<MultiUrl>) -> (j: Option<Json>)
    ensures
        optional_value(j) == multi_url_value(u.deep_view()),
{
    match u {
        Some(u) => Some(u.to_json()),
        None => None,
    }
}

/// An image inside a note or an action row.
#[derive(Debug)]
pub struct Img {
    pub img_key: String,
    pub alt: Text,
    pub preview: Option<bool>,
}

/// An image as a mathematical value.
pub struct ImgView {
    pub img_key: Seq<char>,
    pub alt: TextView,
    pub preview: Option<bool>,
}

impl DeepView for Img {
    type V = ImgView;

    open spec fn deep_view(&self) -> ImgView {
        ImgView {
            img_key: self.img_key.deep_view(),
            alt: self.alt.deep_view(),
            preview: self.preview,
        }
    }
}

impl ImgView {
    /// The members of the image: its key, the text shown on hover, and
    /// `preview` where it is set.
    pub open spec fn members(self) -> Seq<MemberValue> {
        Seq::empty()
            .push(member("img_key"@, JsonValue::Str(self.img_key)))
            .push(member("alt"@, self.alt.json()))
            + optional_member("preview"@, bool_value(self.preview))
    }

    /// The JSON form of the image as a tagged element: the discriminant `img`,
    /// then the members.
    pub open spec fn json(self) -> JsonValue {
        JsonValue::Object(
            Seq::empty().push(member("tag"@, JsonValue::Str("img"@))) + self.members())
    }
}

impl Img {
    /// Builds the JSON form.
    pub fn to_json(&self) -> (j: Json)
        ensures
            j@ == self.deep_view().json(),
    {
        let mut b = ObjectBuilder::new();
        b.member("tag", Json::string("img"));
        b.member("img_key", Json::string(self.img_key.as_str()));
        b.member("alt", self.alt.to_json());
        b.optional("preview", Json::optional_bool(&self.preview));
        proof {
            assert(b@ =~= self.deep_view().json()->Object_0);
        }
        b.build()
    }
}

/// One text of a block of fields.
#[derive(Debug)]
pub struct Field {
    pub is_short: bool,
    pub text: Text,
}

/// One text of a block of fields as a mathematical value.
pub struct FieldView {
    pub is_short: bool,
    pub text: TextView,
}

impl DeepView for Field {
    type V = FieldView;

    open spec fn deep_view(&self) -> FieldView {
        FieldView {
            is_short: self.is_short,
            text: self.text.deep_view(),
        }
    }
}

impl FieldView {
    /// The JSON form: the layout flag and the text.
    pub open spec fn json(self) -> JsonValue {
        JsonValue::Object(
            Seq::empty()
                .push(member("is_short"@, JsonValue::Bool(self.is_short)))
                .push(member("text"@, self.text.json())),
        )
    }
}

impl Field {
    /// Builds the JSON form.
    pub fn to_json(&self) -> (j: Json)
        ensures
            j@ == self.deep_view().json(),
    {
        let mut b = ObjectBuilder::new();
        b.member("is_short", Json::Bool(self.is_short));
        b.member("text", self.text.to_json());
        proof {
            assert(b@ =~= self.deep_view().json()->Object_0);
        }
        b.build()
    }
}

/// One fragment of a footnote line. A text fragment is written as the text
/// itself, with the text's own discriminant.
#[derive(Debug)]
pub enum Note {
    Text(Text),
    Img(Img),
}

/// A fragment of a footnote line as a mathematical value.
pub enum NoteView {
    Text(TextView),
    Img(ImgView),
}

impl DeepView for Note {
    type V = NoteView;

    open spec fn deep_view(&self) -> NoteView {
        match self {
            Note::Text(inner) => NoteView::Text(inner.deep_view()),
            Note::Img(inner) => NoteView::Img(inner.deep_view()),
        }
    }
}

impl NoteView {
    /// The JSON form of the fragment.
    pub open spec fn json(self) -> JsonValue {
        match self {
            NoteView::Text(t) => t.json(),
            NoteView::Img(i) => i.json(),
        }
    }
}

impl Note {
    /// Builds the JSON form.
    pub fn to_json(&self) -> (j: Json)
        ensures
            j@ == self.deep_view().json(),
    {
        match self {
            Note::Text(t) => t.to_json(),
            Note::Img(i) => i.to_json(),
        }
    }
}

/// A widget of an action row.
#[derive(Debug)]
pub enum Extra {
    Button {
        text: Text,
        url: Option<String>,
        multi_url: Option<MultiUrl>,
        kind: Option<String>,
        value: Option<Json>,
        confirm: Option<Confirm>,
    },
    Img(Img),
    SelectStatic {},
    SelectPerson {},
    Overflow { options: (), value: Option<Json>, confirm: Option<Confirm> },
    DatePicker {
        initial_date: Option<String>,
        placeholder: Option<Text>,
        value: Option<Json>,
        confirm: Option<Confirm>,
    },
    PickerTime {
        initial_time: Option<String>,
        placeholder: Option<Text>,
        value: Option<Json>,
        confirm: Option<Confirm>,
    },
    PickerDateTime {
        initial_datetime: Option<String>,
        placeholder: Option<Text>,
        value: Option<Json>,
        confirm: Option<Confirm>,
    },
}

/// A widget of an action row as a mathematical value.
pub enum ExtraView {
    Button {
        text: TextView,
        url: Option<Seq<char>>,
        multi_url: Option<MultiUrlView>,
        kind: Option<Seq<char>>,
        value: Option<JsonValue>,
        confirm: Option<ConfirmView>,
    },
    Img(ImgView),
    SelectStatic {},
    SelectPerson {},
    Overflow {
        options: (),
        value: Option<JsonValue>,
        confirm: Option<ConfirmView>,
    },
    DatePicker {
        initial_date: Option<Seq<char>>,
        placeholder: Option<TextView>,
        value: Option<JsonValue>,
        confirm: Option<ConfirmView>,
    },
    PickerTime {
        initial_time: Option<Seq<char>>,
        placeholder: Option<TextView>,
        value: Option<JsonValue>,
        confirm: Option<ConfirmView>,
    },
    PickerDateTime {
        initial_datetime: Option<Seq<char>>,
        placeholder: Option<TextView>,
        value: Option<JsonValue>,
        confirm: Option<ConfirmView>,
    },
}

impl DeepView for Extra {
    type V = ExtraView;

    open spec fn deep_view(&self) -> ExtraView {
        match self {
            Extra::Button { text, url, multi_url, kind, value, confirm } => ExtraView::Button {
                text: text.deep_view(),
                url: url.deep_view(),
                multi_url: multi_url.deep_view(),
                kind: kind.deep_view(),
                value: value.deep_view(),
                confirm: confirm.deep_view(),
            },
            Extra::Img(inner) => ExtraView::Img(inner.deep_view()),
            Extra::SelectStatic {} => ExtraView::SelectStatic {},
            Extra::SelectPerson {} => ExtraView::SelectPerson {},
            Extra::Overflow { options, value, confirm } => ExtraView::Overflow {
                options: *options,
                value: value.deep_view(),
                confirm: confirm.deep_view(),
            },
            Extra::DatePicker {
                initial_date,
                placeholder,
                value,
                confirm,
            } => ExtraView::DatePicker {
                initial_date: initial_date.deep_view(),
                placeholder: placeholder.deep_view(),
                value: value.deep_view(),
                confirm: confirm.deep_view(),
            },
            Extra::PickerTime {
                initial_time,
                placeholder,
                value,
                confirm,
            } => ExtraView::PickerTime {
                initial_time: initial_time.deep_view(),
                placeholder: placeholder.deep_view(),
                value: value.deep_view(),
                confirm: confirm.deep_view(),
            },
            Extra::PickerDateTime {
                initial_datetime,
                placeholder,
                value,
                confirm,
            } => ExtraView::PickerDateTime {
                initial_datetime: initial_datetime.deep_view(),
                placeholder: placeholder.deep_view(),
                value: value.deep_view(),
                confirm: confirm.deep_view(),
            },
        }
    }
}

impl ExtraView {
    /// The discriminant of the variant.
    pub open spec fn tag(self) -> Seq<char> {
        match self {
            ExtraView::Button { .. } => "button"@,
            ExtraView::Img(_) => "img"@,
            ExtraView::SelectStatic {} => "select_static"@,
            ExtraView::SelectPerson {} => "select_person"@,
            ExtraView::Overflow { .. } => "overflow"@,
            ExtraView::DatePicker { .. } => "date_picker"@,
            ExtraView::PickerTime { .. } => "picker_time"@,
            ExtraView::PickerDateTime { .. } => "picker_date_time"@,
        }
    }

    /// The JSON form: the discriminant under `tag`, then the fields of the
    /// variant, an optional one only where it is set. A button's `kind` stands
    /// under the key `type`.
    pub open spec fn json(self) -> JsonValue {
        match self {
            ExtraView::Button { text, url, multi_url, kind, value, confirm } => JsonValue::Object(
                Seq::empty()
                    .push(member("tag"@, JsonValue::Str("button"@)))
                    .push(member("text"@, text.json()))
                    + optional_member("url"@, string_value(url))
                    + optional_member("multi_url"@, multi_url_value(multi_url))
                    + optional_member("type"@, string_value(kind))
                    + optional_member("value"@, value)
                    + optional_member("confirm"@, confirm_value(confirm)),
            ),
            ExtraView::Img(i) => i.json(),
            ExtraView::SelectStatic {} => JsonValue::Object(
                Seq::empty().push(member("tag"@, JsonValue::Str("select_static"@))),
            ),
            ExtraView::SelectPerson {} => JsonValue::Object(
                Seq::empty().push(member("tag"@, JsonValue::Str("select_person"@))),
            ),
            ExtraView::Overflow { options, value, confirm } => JsonValue::Object(
                Seq::empty()
                    .push(member("tag"@, JsonValue::Str("overflow"@)))
                    .push(member("options"@, JsonValue::Null))
                    + optional_member("value"@, value)
                    + optional_member("confirm"@, confirm_value(confirm)),
            ),
            ExtraView::DatePicker {
                initial_date,
                placeholder,
                value,
                confirm,
            } => JsonValue::Object(
                picker_members(
                    "date_picker"@,
                    "initial_date"@,
                    initial_date,
                    placeholder,
                    value,
                    confirm,
                ),
            ),
            ExtraView::PickerTime {
                initial_time,
                placeholder,
                value,
                confirm,
            } => JsonValue::Object(
                picker_members(
                    "picker_time"@,
                    "initial_time"@,
                    initial_time,
                    placeholder,
                    value,
                    confirm,
                ),
            ),
            ExtraView::PickerDateTime {
                initial_datetime,
                placeholder,
                value,
                confirm,
            } => JsonValue::Object(
                picker_members(
                    "picker_date_time"@,
                    "initial_datetime"@,
                    initial_datetime,
                    placeholder,
                    value,
                    confirm,
                ),
            ),
        }
    }
}

/// The members of a picker: the discriminant, then the initial value under its
/// key, the placeholder, the payload and the dialog, each where it is set.
pub open spec fn picker_members(
    tag: Seq<char>,
    initial_key: Seq<char>,
    initial: Option<Seq<char>>,
    placeholder: Option<TextView>,
    value: Option<JsonValue>,
    confirm: Option<ConfirmView>,
) -> Seq<MemberValue> {
    Seq::empty()
        .push(member("tag"@, JsonValue::Str(tag)))
        + optional_member(initial_key, string_value(initial))
        + optional_member("placeholder"@, text_value(placeholder))
        + optional_member("value"@, value)
        + optional_member("confirm"@, confirm_value(confirm))
}

/// Builds the JSON form of a picker.
fn picker_to_json(
    tag: &str,
    initial_key: &str,
    initial: &Option<String>,
    placeholder: &Option<Text>,
    value: &Option<Json>,
    confirm: &Option<Confirm>,
) -> (j: Json)
    ensures
        j@ == JsonValue::Object(
            picker_members(
                tag@,
                initial_key@,
                initial.deep_view(),
                placeholder.deep_view(),
                value.deep_view(),
                confirm.deep_view(),
            ),
        ),
{
    let mut b = ObjectBuilder::new();
    b.member("tag", Json::string(tag));
    b.optional(initial_key, Json::optional_string(initial));
    b.optional("placeholder", optional_text(placeholder));
    b.optional("value", Json::optional_copy(value));
    b.optional("confirm", optional_confirm(confirm));
    proof {
        assert(b@ =~= picker_members(
            tag@,
            initial_key@,
            initial.deep_view(),
            placeholder.deep_view(),
            value.deep_view(),
            confirm.deep_view(),
        ));
    }
    b.build()
}

impl Extra {
    /// Builds the JSON form.
    pub fn to_json(&self) -> (j: Json)
        ensures
            j@ == self.deep_view().json(),
    {
        match self {
            Extra::Button { text, url, multi_url, kind, value, confirm } => {
                let mut b = ObjectBuilder::new();
                b.member("tag", Json::string("button"));
                b.member("text", text.to_json());
                b.optional("url", Json::optional_string(url));
                b.optional("multi_url", optional_multi_url(multi_url));
                b.optional("type", Json::optional_string(kind));
                b.optional("value", Json::optional_copy(value));
                b.optional("confirm", optional_confirm(confirm));
                proof {
                    assert(b@ =~= self.deep_view().json()->Object_0);
                }
                b.build()
            },
            Extra::Img(i) => i.to_json(),
            Extra::SelectStatic {} => {
                let mut b = ObjectBuilder::new();
                b.member("tag", Json::string("select_static"));
                proof {
                    assert(b@ =~= self.deep_view().json()->Object_0);
                }
                b.build()
            },
            Extra::SelectPerson {} => {
                let mut b = ObjectBuilder::new();
                b.member("tag", Json::string("select_person"));
                proof {
                    assert(b@ =~= self.deep_view().json()->Object_0);
                }
                b.build()
            },
            Extra::Overflow { options, value, confirm } => {
                let mut b = ObjectBuilder::new();
                b.member("tag", Json::string("overflow"));
                b.member("options", Json::Null);
                b.optional("value", Json::optional_copy(value));
                b.optional("confirm", optional_confirm(confirm));
                proof {
                    assert(b@ =~= self.deep_view().json()->Object_0);
                }
                b.build()
            },
            Extra::DatePicker { initial_date, placeholder, value, confirm } => picker_to_json(
                "date_picker",
                "initial_date",
                initial_date,
                placeholder,
                value,
                confirm,
            ),
            Extra::PickerTime { initial_time, placeholder, value, confirm } => picker_to_json(
                "picker_time",
                "initial_time",
                initial_time,
                placeholder,
                value,
                confirm,
            ),
            Extra::PickerDateTime {
                initial_datetime,
                placeholder,
                value,
                confirm,
            } => picker_to_json(
                "picker_date_time",
                "initial_datetime",
                initial_datetime,
                placeholder,
                value,
                confirm,
            ),
        }
    }
}

/// The keys of the JSON form of a text: `tag`, `content` and, each where it is
/// set, `lines`; each once, and no other key.
pub proof fn lemma_text_keys(t: TextView, key: Seq<char>)
    ensures
        t.json().count_key(key) == one(key == "tag"@)
            + one(key == "content"@)
            + one(t.lines() is Some && key == "lines"@),
{
    broadcast use group_key_count;
}

/// The JSON form of a text starts with the discriminant of the variant, the one
/// member under `tag`, and has each optional key exactly where the field is
/// set.
pub proof fn lemma_text_form(t: TextView)
    ensures
        t.json().starts_with("tag"@, t.tag()),
        t.json().count_key("tag"@) == 1,
        t.json().has_key("lines"@) <==> t.lines() is Some,
{
    reveal_strlit("tag");
    reveal_strlit("content");
    reveal_strlit("lines");
    assert("tag"@.len() != "content"@.len());
    assert("tag"@.len() != "lines"@.len());
    assert("content"@.len() != "lines"@.len());
    lemma_text_keys(t, "tag"@);
    lemma_text_keys(t, "lines"@);
}

/// The keys of the JSON form of an image: `tag`, `img_key`, `alt` and, each
/// where it is set, `preview`; each once, and no other key.
pub proof fn lemma_img_keys(i: ImgView, key: Seq<char>)
    ensures
        i.json().count_key(key) == one(key == "tag"@)
            + one(key == "img_key"@)
            + one(key == "alt"@)
            + one(i.preview is Some && key == "preview"@),
{
    broadcast use group_key_count;
}

/// The JSON form of an image starts with the discriminant of the variant, the
/// one member under `tag`, and has each optional key exactly where the field is
/// set.
pub proof fn lemma_img_form(i: ImgView)
    ensures
        i.json().starts_with("tag"@, "img"@),
        i.json().count_key("tag"@) == 1,
        i.json().has_key("preview"@) <==> i.preview is Some,
{
    reveal_strlit("tag");
    reveal_strlit("img_key");
    reveal_strlit("alt");
    reveal_strlit("preview");
    assert("tag"@.len() != "img_key"@.len());
    assert("tag"@[0] != "alt"@[0]);
    assert("tag"@.len() != "preview"@.len());
    assert("img_key"@.len() != "alt"@.len());
    assert("img_key"@[0] != "preview"@[0]);
    assert("alt"@.len() != "preview"@.len());
    lemma_img_keys(i, "tag"@);
    lemma_img_keys(i, "preview"@);
}

/// The keys of the JSON form of a button: `tag`, `text` and, each where it is
/// set, `url`, `multi_url`, `type`, `value`, `confirm`; each once, and no other
/// key.
pub proof fn lemma_button_keys(e: ExtraView, key: Seq<char>)
    requires
        e is Button,
    ensures
        e.json().count_key(key) == one(key == "tag"@)
            + one(key == "text"@)
            + one(e->Button_url is Some && key == "url"@)
            + one(e->Button_multi_url is Some && key == "multi_url"@)
            + one(e->Button_kind is Some && key == "type"@)
            + one(e->Button_value is Some && key == "value"@)
            + one(e->Button_confirm is Some && key == "confirm"@),
{
    broadcast use group_key_count;
}

/// The JSON form of a button starts with the discriminant of the variant, the
/// one member under `tag`, and has each optional key exactly where the field is
/// set.
pub proof fn lemma_button_form(e: ExtraView)
    requires
        e is Button,
    ensures
        e.json().starts_with("tag"@, e.tag()),
        e.json().count_key("tag"@) == 1,
        e.json().has_key("url"@) <==> e->Button_url is Some,
        e.json().has_key("multi_url"@) <==> e->Button_multi_url is Some,
        e.json().has_key("type"@) <==> e->Button_kind is Some,
        e.json().has_key("value"@) <==> e->Button_value is Some,
        e.json().has_key("confirm"@) <==> e->Button_confirm is Some,
{
    reveal_strlit("tag");
    reveal_strlit("text");
    reveal_strlit("url");
    reveal_strlit("multi_url");
    reveal_strlit("type");
    reveal_strlit("value");
    reveal_strlit("confirm");
    assert("tag"@.len() != "text"@.len());
    assert("tag"@[0] != "url"@[0]);
    assert("tag"@.len() != "multi_url"@.len());
    assert("tag"@.len() != "type"@.len());
    assert("tag"@.len() != "value"@.len());
    assert("tag"@.len() != "confirm"@.len());
    assert("text"@.len() != "url"@.len());
    assert("text"@.len() != "multi_url"@.len());
    assert("text"@[1] != "type"@[1]);
    assert("text"@.len() != "value"@.len());
    assert("text"@.len() != "confirm"@.len());
    assert("url"@.len() != "multi_url"@.len());
    assert("url"@.len() != "type"@.len());
    assert("url"@.len() != "value"@.len());
    assert("url"@.len() != "confirm"@.len());
    assert("multi_url"@.len() != "type"@.len());
    assert("multi_url"@.len() != "value"@.len());
    assert("multi_url"@.len() != "confirm"@.len());
    assert("type"@.len() != "value"@.len());
    assert("type"@.len() != "confirm"@.len());
    assert("value"@.len() != "confirm"@.len());
    lemma_button_keys(e, "tag"@);
    lemma_button_keys(e, "url"@);
    lemma_button_keys(e, "multi_url"@);
    lemma_button_keys(e, "type"@);
    lemma_button_keys(e, "value"@);
    lemma_button_keys(e, "confirm"@);
}

/// The keys of the JSON form of a static selection: `tag`; each once, and no
/// other key.
pub proof fn lemma_select_static_keys(e: ExtraView, key: Seq<char>)
    requires
        e is SelectStatic,
    ensures
        e.json().count_key(key) == one(key == "tag"@),
{
    broadcast use group_key_count;
}

/// The JSON form of a static selection starts with the discriminant of the
/// variant, the one member under `tag`.
pub proof fn lemma_select_static_form(e: ExtraView)
    requires
        e is SelectStatic,
    ensures
        e.json().starts_with("tag"@, e.tag()),
        e.json().count_key("tag"@) == 1,
{
    reveal_strlit("tag");
    lemma_select_static_keys(e, "tag"@);
}

/// The keys of the JSON form of a selection of persons: `tag`; each once, and
/// no other key.
pub proof fn lemma_select_person_keys(e: ExtraView, key: Seq<char>)
    requires
        e is SelectPerson,
    ensures
        e.json().count_key(key) == one(key == "tag"@),
{
    broadcast use group_key_count;
}

/// The JSON form of a selection of persons starts with the discriminant of the
/// variant, the one member under `tag`.
pub proof fn lemma_select_person_form(e: ExtraView)
    requires
        e is SelectPerson,
    ensures
        e.json().starts_with("tag"@, e.tag()),
        e.json().count_key("tag"@) == 1,
{
    reveal_strlit("tag");
    lemma_select_person_keys(e, "tag"@);
}

/// The keys of the JSON form of an overflow menu: `tag`, `options` and, each
/// where it is set, `value`, `confirm`; each once, and no other key.
pub proof fn lemma_overflow_keys(e: ExtraView, key: Seq<char>)
    requires
        e is Overflow,
    ensures
        e.json().count_key(key) == one(key == "tag"@)
            + one(key == "options"@)
            + one(e->Overflow_value is Some && key == "value"@)
            + one(e->Overflow_confirm is Some && key == "confirm"@),
{
    broadcast use group_key_count;
}

/// The JSON form of an overflow menu starts with the discriminant of the
/// variant, the one member under `tag`, and has each optional key exactly where
/// the field is set.
pub proof fn lemma_overflow_form(e: ExtraView)
    requires
        e is Overflow,
    ensures
        e.json().starts_with("tag"@, e.tag()),
        e.json().count_key("tag"@) == 1,
        e.json().has_key("value"@) <==> e->Overflow_value is Some,
        e.json().has_key("confirm"@) <==> e->Overflow_confirm is Some,
{
    reveal_strlit("tag");
    reveal_strlit("options");
    reveal_strlit("value");
    reveal_strlit("confirm");
    assert("tag"@.len() != "options"@.len());
    assert("tag"@.len() != "value"@.len());
    assert("tag"@.len() != "confirm"@.len());
    assert("options"@.len() != "value"@.len());
    assert("options"@[0] != "confirm"@[0]);
    assert("value"@.len() != "confirm"@.len());
    lemma_overflow_keys(e, "tag"@);
    lemma_overflow_keys(e, "value"@);
    lemma_overflow_keys(e, "confirm"@);
}

/// The keys of the JSON form of a date picker: `tag` and, each where it is set,
/// `initial_date`, `placeholder`, `value`, `confirm`; each once, and no other
/// key.
pub proof fn lemma_date_picker_keys(e: ExtraView, key: Seq<char>)
    requires
        e is DatePicker,
    ensures
        e.json().count_key(key) == one(key == "tag"@)
            + one(e->DatePicker_initial_date is Some && key == "initial_date"@)
            + one(e->DatePicker_placeholder is Some && key == "placeholder"@)
            + one(e->DatePicker_value is Some && key == "value"@)
            + one(e->DatePicker_confirm is Some && key == "confirm"@),
{
    broadcast use group_key_count;
}

/// The JSON form of a date picker starts with the discriminant of the variant,
/// the one member under `tag`, and has each optional key exactly where the
/// field is set.
pub proof fn lemma_date_picker_form(e: ExtraView)
    requires
        e is DatePicker,
    ensures
        e.json().starts_with("tag"@, e.tag()),
        e.json().count_key("tag"@) == 1,
        e.json().has_key("initial_date"@) <==> e->DatePicker_initial_date is Some,
        e.json().has_key("placeholder"@) <==> e->DatePicker_placeholder is Some,
        e.json().has_key("value"@) <==> e->DatePicker_value is Some,
        e.json().has_key("confirm"@) <==> e->DatePicker_confirm is Some,
{
    reveal_strlit("tag");
    reveal_strlit("initial_date");
    reveal_strlit("placeholder");
    reveal_strlit("value");
    reveal_strlit("confirm");
    assert("tag"@.len() != "initial_date"@.len());
    assert("tag"@.len() != "placeholder"@.len());
    assert("tag"@.len() != "value"@.len());
    assert("tag"@.len() != "confirm"@.len());
    assert("initial_date"@.len() != "placeholder"@.len());
    assert("initial_date"@.len() != "value"@.len());
    assert("initial_date"@.len() != "confirm"@.len());
    assert("placeholder"@.len() != "value"@.len());
    assert("placeholder"@.len() != "confirm"@.len());
    assert("value"@.len() != "confirm"@.len());
    lemma_date_picker_keys(e, "tag"@);
    lemma_date_picker_keys(e, "initial_date"@);
    lemma_date_picker_keys(e, "placeholder"@);
    lemma_date_picker_keys(e, "value"@);
    lemma_date_picker_keys(e, "confirm"@);
}

/// The keys of the JSON form of a time picker: `tag` and, each where it is set,
/// `initial_time`, `placeholder`, `value`, `confirm`; each once, and no other
/// key.
pub proof fn lemma_picker_time_keys(e: ExtraView, key: Seq<char>)
    requires
        e is PickerTime,
    ensures
        e.json().count_key(key) == one(key == "tag"@)
            + one(e->PickerTime_initial_time is Some && key == "initial_time"@)
            + one(e->PickerTime_placeholder is Some && key == "placeholder"@)
            + one(e->PickerTime_value is Some && key == "value"@)
            + one(e->PickerTime_confirm is Some && key == "confirm"@),
{
    broadcast use group_key_count;
}

/// The JSON form of a time picker starts with the discriminant of the variant,
/// the one member under `tag`, and has each optional key exactly where the
/// field is set.
pub proof fn lemma_picker_time_form(e: ExtraView)
    requires
        e is PickerTime,
    ensures
        e.json().starts_with("tag"@, e.tag()),
        e.json().count_key("tag"@) == 1,
        e.json().has_key("initial_time"@) <==> e->PickerTime_initial_time is Some,
        e.json().has_key("placeholder"@) <==> e->PickerTime_placeholder is Some,
        e.json().has_key("value"@) <==> e->PickerTime_value is Some,
        e.json().has_key("confirm"@) <==> e->PickerTime_confirm is Some,
{
    reveal_strlit("tag");
    reveal_strlit("initial_time");
    reveal_strlit("placeholder");
    reveal_strlit("value");
    reveal_strlit("confirm");
    assert("tag"@.len() != "initial_time"@.len());
    assert("tag"@.len() != "placeholder"@.len());
    assert("tag"@.len() != "value"@.len());
    assert("tag"@.len() != "confirm"@.len());
    assert("initial_time"@.len() != "placeholder"@.len());
    assert("initial_time"@.len() != "value"@.len());
    assert("initial_time"@.len() != "confirm"@.len());
    assert("placeholder"@.len() != "value"@.len());
    assert("placeholder"@.len() != "confirm"@.len());
    assert("value"@.len() != "confirm"@.len());
    lemma_picker_time_keys(e, "tag"@);
    lemma_picker_time_keys(e, "initial_time"@);
    lemma_picker_time_keys(e, "placeholder"@);
    lemma_picker_time_keys(e, "value"@);
    lemma_picker_time_keys(e, "confirm"@);
}

/// The keys of the JSON form of a picker of date and time: `tag` and, each
/// where it is set, `initial_datetime`, `placeholder`, `value`, `confirm`; each
/// once, and no other key.
pub proof fn lemma_picker_date_time_keys(e: ExtraView, key: Seq<char>)
    requires
        e is PickerDateTime,
    ensures
        e.json().count_key(key) == one(key == "tag"@)
            + one(e->PickerDateTime_initial_datetime is Some && key == "initial_datetime"@)
            + one(e->PickerDateTime_placeholder is Some && key == "placeholder"@)
            + one(e->PickerDateTime_value is Some && key == "value"@)
            + one(e->PickerDateTime_confirm is Some && key == "confirm"@),
{
    broadcast use group_key_count;
}

/// The JSON form of a picker of date and time starts with the discriminant of
/// the variant, the one member under `tag`, and has each optional key exactly
/// where the field is set.
pub proof fn lemma_picker_date_time_form(e: ExtraView)
    requires
        e is PickerDateTime,
    ensures
        e.json().starts_with("tag"@, e.tag()),
        e.json().count_key("tag"@) == 1,
        e.json().has_key("initial_datetime"@) <==> e->PickerDateTime_initial_datetime is Some,
        e.json().has_key("placeholder"@) <==> e->PickerDateTime_placeholder is Some,
        e.json().has_key("value"@) <==> e->PickerDateTime_value is Some,
        e.json().has_key("confirm"@) <==> e->PickerDateTime_confirm is Some,
{
    reveal_strlit("tag");
    reveal_strlit("initial_datetime");
    reveal_strlit("placeholder");
    reveal_strlit("value");
    reveal_strlit("confirm");
    assert("tag"@.len() != "initial_datetime"@.len());
    assert("tag"@.len() != "placeholder"@.len());
    assert("tag"@.len() != "value"@.len());
    assert("tag"@.len() != "confirm"@.len());
    assert("initial_datetime"@.len() != "placeholder"@.len());
    assert("initial_datetime"@.len() != "value"@.len());
    assert("initial_datetime"@.len() != "confirm"@.len());
    assert("placeholder"@.len() != "value"@.len());
    assert("placeholder"@.len() != "confirm"@.len());
    assert("value"@.len() != "confirm"@.len());
    lemma_picker_date_time_keys(e, "tag"@);
    lemma_picker_date_time_keys(e, "initial_datetime"@);
    lemma_picker_date_time_keys(e, "placeholder"@);
    lemma_picker_date_time_keys(e, "value"@);
    lemma_picker_date_time_keys(e, "confirm"@);
}

/// The JSON form of an image widget starts with the discriminant `img`, the
/// one member under `tag`, and has the key `preview` exactly where the field is
/// set.
pub proof fn lemma_image_widget_form(e: ExtraView)
    requires
        e is Img,
    ensures
        e.json().starts_with("tag"@, e.tag()),
        e.json().count_key("tag"@) == 1,
        e.json().has_key("preview"@) <==> e->Img_0.preview is Some,
{
    lemma_img_form(e->Img_0);
}

/// The discriminant of a footnote fragment: that of the text for a text, `img`
/// for an image.
pub open spec fn note_tag(n: NoteView) -> Seq<char> {
    match n {
        NoteView::Text(t) => t.tag(),
        NoteView::Img(_) => "img"@,
    }
}

/// The JSON form of a footnote fragment starts with its discriminant, the one
/// member under `tag`.
pub proof fn lemma_note_fragment_form(n: NoteView)
    ensures
        n.json().starts_with("tag"@, note_tag(n)),
        n.json().count_key("tag"@) == 1,
{
    match n {
        NoteView::Text(t) => lemma_text_form(t),
        NoteView::Img(i) => lemma_img_form(i),
    }
}

} // verus!
