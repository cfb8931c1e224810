//! Cards: a header, a configuration and a column of elements.

use vstd::prelude::*;
use crate::element::{
    optional_text, text_value, Extra, ExtraView, Field, FieldView, Note, NoteView, Text, TextView,
};
use crate::json::{
    bool_value, group_key_count, member, number_value, one, optional_member, string_value, Json,
    JsonValue, ObjectBuilder,
};

verus! {

/// How a card may be passed on and updated.
#[derive(Debug)]
pub struct InteractiveConfig {
    pub enable_forward: Option<bool>,
    pub update_multi: Option<bool>,
}

/// The configuration of a card as a mathematical value.
pub struct InteractiveConfigView {
    pub enable_forward: Option<bool>,
    pub update_multi: Option<bool>,
}

impl DeepView for InteractiveConfig {
    type V = InteractiveConfigView;

    open spec fn deep_view(&self) -> InteractiveConfigView {
        InteractiveConfigView {
            enable_forward: self.enable_forward,
            update_multi: self.update_multi,
        }
    }
}

impl InteractiveConfigView {
    /// The JSON form: each flag where it is set.
    pub open spec fn json(self) -> JsonValue {
        JsonValue::Object(
            optional_member("enable_forward"@, bool_value(self.enable_forward))
                + optional_member("update_multi"@, bool_value(self.update_multi)),
        )
    }
}

impl InteractiveConfig {
    /// Builds the JSON form.
    pub fn to_json(&self) -> (j: Json)
        ensures
            j@ == self.deep_view().json(),
    {
        let mut b = ObjectBuilder::new();
        b.optional("enable_forward", Json::optional_bool(&self.enable_forward));
        b.optional("update_multi", Json::optional_bool(&self.update_multi));
        proof {
            assert(b@ =~= self.deep_view().json()->Object_0);
        }
        b.build()
    }
}

/// The title of a card and the colour behind it.
#[derive(Debug)]
pub struct InteractiveHeader {
    pub title: String,
    pub template: Option<String>,
}

/// The header of a card as a mathematical value.
pub struct InteractiveHeaderView {
    pub title: Seq<char>,
    pub template: Option<Seq<char>>,
}

impl DeepView for InteractiveHeader {
    type V = InteractiveHeaderView;

    open spec fn deep_view(&self) -> InteractiveHeaderView {
        InteractiveHeaderView {
            title: self.title.deep_view(),
            template: self.template.deep_view(),
        }
    }
}

impl InteractiveHeaderView {
    /// The JSON form: the title, and the colour where it is set.
    pub open spec fn json(self) -> JsonValue {
        JsonValue::Object(
            Seq::empty()
                .push(member("title"@, JsonValue::Str(self.title)))
                + optional_member("template"@, string_value(self.template)),
        )
    }
}

impl InteractiveHeader {
    /// Builds the JSON form.
    pub fn to_json(&self) -> (j: Json)
        ensures
            j@ == self.deep_view().json(),
    {
        let mut b = ObjectBuilder::new();
        b.member("title", Json::string(self.title.as_str()));
        b.optional("template", Json::optional_string(&self.template));
        proof {
            assert(b@ =~= self.deep_view().json()->Object_0);
        }
        b.build()
    }
}

/// The JSON form of a block of fields: the array of the fields.
pub open spec fn fields_json(fields: Seq<FieldView>) -> JsonValue {
    JsonValue::Array(Seq::new(fields.len(), |i: int| fields[i].json()))
}

/// The JSON form of an optional block of fields.
pub open spec fn fields_value(fields: Option<Seq<FieldView>>) -> Option<JsonValue> {
    match fields {
        Some(f) => Some(fields_json(f)),
        None => None,
    }
}

/// The JSON form of an action row's widgets: the array of the widgets.
pub open spec fn actions_json(actions: Seq<ExtraView>) -> JsonValue {
    JsonValue::Array(Seq::new(actions.len(), |i: int| actions[i].json()))
}

/// The JSON form of a footnote line: the array of its fragments.
pub open spec fn notes_json(notes: Seq<NoteView>) -> JsonValue {
    JsonValue::Array(Seq::new(notes.len(), |i: int| notes[i].json()))
}

/// The JSON form of a card's column: the array of its elements.
pub open spec fn elements_json(elements: Seq<InteractiveElementView>) -> JsonValue {
    JsonValue::Array(Seq::new(elements.len(), |i: int| elements[i].json()))
}

/// The JSON `null` where the unit is set.
pub open spec fn unit_value(unit: Option<()>) -> Option<JsonValue> {
    match unit {
        Some(_) => Some(JsonValue::Null),
        None => None,
    }
}

/// Builds the JSON form of a block of fields.
pub fn fields_to_json(fields: &Vec<Field>) -> (j: Json)
    ensures
        j@ == fields_json(fields.deep_view()),
{
    let mut items: Vec<Json> = Vec::new();
    let mut i: usize = 0;
    while i < fields.len()
        invariant
            i <= fields.len(),
            items.len() == i,
            forall|k: int| 0 <= k < i ==> items[k]@ == fields[k].deep_view().json(),
        decreases fields.len() - i,
    {
        items.push(fields[i].to_json());
        i += 1;
    }
    let j = Json::array(items);
    proof {
        assert(j@->Array_0 =~= fields_json(fields.deep_view())->Array_0);
    }
    j
}

/// Builds the JSON form of an action row's widgets.
pub fn actions_to_json(actions: &Vec<Extra>) -> (j: Json)
    ensures
        j@ == actions_json(actions.deep_view()),
{
    let mut items: Vec<Json> = Vec::new();
    let mut i: usize = 0;
    while i < actions.len()
        invariant
            i <= actions.len(),
            items.len() == i,
            forall|k: int| 0 <= k < i ==> items[k]@ == actions[k].deep_view().json(),
        decreases actions.len() - i,
    {
        items.push(actions[i].to_json());
        i += 1;
    }
    let j = Json::array(items);
    proof {
        assert(j@->Array_0 =~= actions_json(actions.deep_view())->Array_0);
    }
    j
}

/// Builds the JSON form of a footnote line.
pub fn notes_to_json(notes: &Vec<Note>) -> (j: Json)
    ensures
        j@ == notes_json(notes.deep_view()),
{
    let mut items: Vec<Json> = Vec::new();
    let mut i: usize = 0;
    while i < notes.len()
        invariant
            i <= notes.len(),
            items.len() == i,
            forall|k: int| 0 <= k < i ==> items[k]@ == notes[k].deep_view().json(),
        decreases notes.len() - i,
    {
        items.push(notes[i].to_json());
        i += 1;
    }
    let j = Json::array(items);
    proof {
        assert(j@->Array_0 =~= notes_json(notes.deep_view())->Array_0);
    }
    j
}

/// One element of a card's column.
#[derive(Debug)]
pub enum InteractiveElement {
    Div { text: Option<Text>, fields: Option<Vec<Field>>, extra: Option<()> },
    Hr,
    Img {
        img_key: String,
        alt: Text,
        title: Option<Text>,
        custom_width: Option<u32>,
        compact_width: Option<bool>,
        mode: Option<String>,
        preview: Option<bool>,
    },
    Action { actions: Vec<Extra>, layout: Option<String> },
    Note { elements: Vec<Note> },
}

/// An element of a card as a mathematical value.
pub enum InteractiveElementView {
    Div {
        text: Option<TextView>,
        fields: Option<Seq<FieldView>>,
        extra: Option<()>,
    },
    Hr,
    Img {
        img_key: Seq<char>,
        alt: TextView,
        title: Option<TextView>,
        custom_width: Option<u32>,
        compact_width: Option<bool>,
        mode: Option<Seq<char>>,
        preview: Option<bool>,
    },
    Action {
        actions: Seq<ExtraView>,
        layout: Option<Seq<char>>,
    },
    Note {
        elements: Seq<NoteView>,
    },
}

impl DeepView for InteractiveElement {
    type V = InteractiveElementView;

    open spec fn deep_view(&self) -> InteractiveElementView {
        match self {
            InteractiveElement::Div { text, fields, extra } => InteractiveElementView::Div {
                text: text.deep_view(),
                fields: fields.deep_view(),
                extra: *extra,
            },
            InteractiveElement::Hr => InteractiveElementView::Hr,
            InteractiveElement::Img {
                img_key,
                alt,
                title,
                custom_width,
                compact_width,
                mode,
                preview,
            } => InteractiveElementView::Img {
                img_key: img_key.deep_view(),
                alt: alt.deep_view(),
                title: title.deep_view(),
                custom_width: *custom_width,
                compact_width: *compact_width,
                mode: mode.deep_view(),
                preview: *preview,
            },
            InteractiveElement::Action { actions, layout } => InteractiveElementView::Action {
                actions: actions.deep_view(),
                layout: layout.deep_view(),
            },
            InteractiveElement::Note { elements } => InteractiveElementView::Note {
                elements: elements.deep_view(),
            },
        }
    }
}

impl InteractiveElementView {
    /// The discriminant of the variant.
    pub open spec fn tag(self) -> Seq<char> {
        match self {
            InteractiveElementView::Div { .. } => "div"@,
            InteractiveElementView::Hr => "hr"@,
            InteractiveElementView::Img { .. } => "img"@,
            InteractiveElementView::Action { .. } => "action"@,
            InteractiveElementView::Note { .. } => "note"@,
        }
    }

    /// The JSON form: the discriminant under `tag`, then the fields of the
    /// variant, an optional one only where it is set.
    pub open spec fn json(self) -> JsonValue {
        match self {
            InteractiveElementView::Div { text, fields, extra } => JsonValue::Object(
                Seq::empty()
                    .push(member("tag"@, JsonValue::Str("div"@)))
                    + optional_member("text"@, text_value(text))
                    + optional_member("fields"@, fields_value(fields))
                    + optional_member("extra"@, unit_value(extra)),
            ),
            InteractiveElementView::Hr => JsonValue::Object(
                Seq::empty().push(member("tag"@, JsonValue::Str("hr"@))),
            ),
            InteractiveElementView::Img {
                img_key,
                alt,
                title,
                custom_width,
                compact_width,
                mode,
                preview,
            } => JsonValue::Object(
                Seq::empty()
                    .push(member("tag"@, JsonValue::Str("img"@)))
                    .push(member("img_key"@, JsonValue::Str(img_key)))
                    .push(member("alt"@, alt.json()))
                    + optional_member("title"@, text_value(title))
                    + optional_member("custom_width"@, number_value(custom_width))
                    + optional_member("compact_width"@, bool_value(compact_width))
                    + optional_member("mode"@, string_value(mode))
                    + optional_member("preview"@, bool_value(preview)),
            ),
            InteractiveElementView::Action { actions, layout } => JsonValue::Object(
                Seq::empty()
                    .push(member("tag"@, JsonValue::Str("action"@)))
                    .push(member("actions"@, actions_json(actions)))
                    + optional_member("layout"@, string_value(layout)),
            ),
            InteractiveElementView::Note { elements } => JsonValue::Object(
                Seq::empty()
                    .push(member("tag"@, JsonValue::Str("note"@)))
                    .push(member("elements"@, notes_json(elements))),
            ),
        }
    }
}

impl InteractiveElement {
    /// Builds the JSON form.
    pub fn to_json(&self) -> (j: Json)
        ensures
            j@ == self.deep_view().json(),
    {
        let mut b = ObjectBuilder::new();
        match self {
            InteractiveElement::Div { text, fields, extra } => {
                b.member("tag", Json::string("div"));
                b.optional("text", optional_text(text));
                let block = match fields {
                    Some(f) => Some(fields_to_json(f)),
                    None => None,
                };
                b.optional("fields", block);
                let unit = match extra {
                    Some(_) => Some(Json::Null),
                    None => None,
                };
                b.optional("extra", unit);
            },
            InteractiveElement::Hr => {
                b.member("tag", Json::string("hr"));
            },
            InteractiveElement::Img {
                img_key,
                alt,
                title,
                custom_width,
                compact_width,
                mode,
                preview,
            } => {
                b.member("tag", Json::string("img"));
                b.member("img_key", Json::string(img_key.as_str()));
                b.member("alt", alt.to_json());
                b.optional("title", optional_text(title));
                b.optional("custom_width", Json::optional_number(custom_width));
                b.optional("compact_width", Json::optional_bool(compact_width));
                b.optional("mode", Json::optional_string(mode));
                b.optional("preview", Json::optional_bool(preview));
            },
            InteractiveElement::Action { actions, layout } => {
                b.member("tag", Json::string("action"));
                b.member("actions", actions_to_json(actions));
                b.optional("layout", Json::optional_string(layout));
            },
            InteractiveElement::Note { elements } => {
                b.member("tag", Json::string("note"));
                b.member("elements", notes_to_json(elements));
            },
        }
        proof {
            assert(b@ =~= self.deep_view().json()->Object_0);
        }
        b.build()
    }
}

/// Builds the JSON form of a card's column.
pub fn elements_to_json(elements: &Vec<InteractiveElement>) -> (j: Json)
    ensures
        j@ == elements_json(elements.deep_view()),
{
    let mut items: Vec<Json> = Vec::new();
    let mut i: usize = 0;
    while i < elements.len()
        invariant
            i <= elements.len(),
            items.len() == i,
            forall|k: int| 0 <= k < i ==> items[k]@ == elements[k].deep_view().json(),
        decreases elements.len() - i,
    {
        items.push(elements[i].to_json());
        i += 1;
    }
    let j = Json::array(items);
    proof {
        assert(j@->Array_0 =~= elements_json(elements.deep_view())->Array_0);
    }
    j
}

/// The JSON form of an optional configuration.
pub open spec fn config_value(c: Option<InteractiveConfigView>) -> Option<JsonValue> {
    match c {
        Some(c) => Some(c.json()),
        None => None,
    }
}

/// The JSON form of an optional header.
pub open spec fn header_value(h: Option<InteractiveHeaderView>) -> Option<JsonValue> {
    match h {
        Some(h) => Some(h.json()),
        None => None,
    }
}

/// A card.
#[derive(Debug)]
pub struct InteractiveBody {
    pub config: Option<InteractiveConfig>,
    pub header: Option<InteractiveHeader>,
    pub elements: Vec<InteractiveElement>,
}

/// A card as a mathematical value.
pub struct InteractiveBodyView {
    pub config: Option<InteractiveConfigView>,
    pub header: Option<InteractiveHeaderView>,
    pub elements: Seq<InteractiveElementView>,
}

impl DeepView for InteractiveBody {
    type V = InteractiveBodyView;

    open spec fn deep_view(&self) -> InteractiveBodyView {
        InteractiveBodyView {
            config: self.config.deep_view(),
            header: self.header.deep_view(),
            elements: self.elements.deep_view(),
        }
    }
}

impl InteractiveBodyView {
    /// The JSON form: the configuration and the header, each where it is set,
    /// then the elements.
    pub open spec fn json(self) -> JsonValue {
        JsonValue::Object(
            optional_member("config"@, config_value(self.config))
                + optional_member("header"@, header_value(self.header))
                + Seq::empty().push(member("elements"@, elements_json(self.elements))),
        )
    }
}

impl InteractiveBody {
    /// Builds the JSON form.
    pub fn to_json(&self) -> (j: Json)
        ensures
            j@ == self.deep_view().json(),
    {
        let mut b = ObjectBuilder::new();
        let config = match &self.config {
            Some(c) => Some(c.to_json()),
            None => None,
        };
        b.optional("config", config);
        let header = match &self.header {
            Some(h) => Some(h.to_json()),
            None => None,
        };
        b.optional("header", header);
        b.member("elements", elements_to_json(&self.elements));
        proof {
            assert(b@ =~= self.deep_view().json()->Object_0);
        }
        b.build()
    }
}

/// The keys of the JSON form of a configuration: each where it is set,
/// `enable_forward`, `update_multi`; each once, and no other key.
pub proof fn lemma_config_keys(c: InteractiveConfigView, key: Seq<char>)
    ensures
        c.json().count_key(key) == one(c.enable_forward is Some && key == "enable_forward"@)
            + one(c.update_multi is Some && key == "update_multi"@),
{
    broadcast use group_key_count;
}

/// The JSON form of a configuration has each optional key exactly where the
/// field is set.
pub proof fn lemma_config_form(c: InteractiveConfigView)
    ensures
        c.json().has_key("enable_forward"@) <==> c.enable_forward is Some,
        c.json().has_key("update_multi"@) <==> c.update_multi is Some,
{
    reveal_strlit("enable_forward");
    reveal_strlit("update_multi");
    assert("enable_forward"@.len() != "update_multi"@.len());
    lemma_config_keys(c, "enable_forward"@);
    lemma_config_keys(c, "update_multi"@);
}

/// The keys of the JSON form of a header: `title` and, each where it is set,
/// `template`; each once, and no other key.
pub proof fn lemma_header_keys(h: InteractiveHeaderView, key: Seq<char>)
    ensures
        h.json().count_key(key) == one(key == "title"@)
            + one(h.template is Some && key == "template"@),
{
    broadcast use group_key_count;
}

/// The JSON form of a header has each optional key exactly where the field is
/// set.
pub proof fn lemma_header_form(h: InteractiveHeaderView)
    ensures
        h.json().has_key("template"@) <==> h.template is Some,
{
    reveal_strlit("title");
    reveal_strlit("template");
    assert("title"@.len() != "template"@.len());
    lemma_header_keys(h, "template"@);
}

/// The keys of the JSON form of a card: `elements` and, each where it is set,
/// `config`, `header`; each once, and no other key.
pub proof fn lemma_body_keys(b: InteractiveBodyView, key: Seq<char>)
    ensures
        b.json().count_key(key) == one(b.config is Some && key == "config"@)
            + one(b.header is Some && key == "header"@)
            + one(key == "elements"@),
{
    broadcast use group_key_count;
}

/// The JSON form of a card has each optional key exactly where the field is
/// set.
pub proof fn lemma_body_form(b: InteractiveBodyView)
    ensures
        b.json().has_key("config"@) <==> b.config is Some,
        b.json().has_key("header"@) <==> b.header is Some,
{
    reveal_strlit("config");
    reveal_strlit("header");
    reveal_strlit("elements");
    assert("config"@[0] != "header"@[0]);
    assert("config"@.len() != "elements"@.len());
    assert("header"@.len() != "elements"@.len());
    lemma_body_keys(b, "config"@);
    lemma_body_keys(b, "header"@);
}

/// The keys of the JSON form of a text block: `tag` and, each where it is set,
/// `text`, `fields`, `extra`; each once, and no other key.
pub proof fn lemma_div_keys(e: InteractiveElementView, key: Seq<char>)
    requires
        e is Div,
    ensures
        e.json().count_key(key) == one(key == "tag"@)
            + one(e->Div_text is Some && key == "text"@)
            + one(e->Div_fields is Some && key == "fields"@)
            + one(e->Div_extra is Some && key == "extra"@),
{
    broadcast use group_key_count;
}

/// The JSON form of a text block starts with the discriminant of the variant,
/// the one member under `tag`, and has each optional key exactly where the
/// field is set.
pub proof fn lemma_div_form(e: InteractiveElementView)
    requires
        e is Div,
    ensures
        e.json().starts_with("tag"@, e.tag()),
        e.json().count_key("tag"@) == 1,
        e.json().has_key("text"@) <==> e->Div_text is Some,
        e.json().has_key("fields"@) <==> e->Div_fields is Some,
        e.json().has_key("extra"@) <==> e->Div_extra is Some,
{
    reveal_strlit("tag");
    reveal_strlit("text");
    reveal_strlit("fields");
    reveal_strlit("extra");
    assert("tag"@.len() != "text"@.len());
    assert("tag"@.len() != "fields"@.len());
    assert("tag"@.len() != "extra"@.len());
    assert("text"@.len() != "fields"@.len());
    assert("text"@.len() != "extra"@.len());
    assert("fields"@.len() != "extra"@.len());
    lemma_div_keys(e, "tag"@);
    lemma_div_keys(e, "text"@);
    lemma_div_keys(e, "fields"@);
    lemma_div_keys(e, "extra"@);
}

/// The keys of the JSON form of a divider: `tag`; each once, and no other key.
pub proof fn lemma_hr_keys(e: InteractiveElementView, key: Seq<char>)
    requires
        e is Hr,
    ensures
        e.json().count_key(key) == one(key == "tag"@),
{
    broadcast use group_key_count;
}

/// The JSON form of a divider starts with the discriminant of the variant, the
/// one member under `tag`.
pub proof fn lemma_hr_form(e: InteractiveElementView)
    requires
        e is Hr,
    ensures
        e.json().starts_with("tag"@, e.tag()),
        e.json().count_key("tag"@) == 1,
{
    reveal_strlit("tag");
    lemma_hr_keys(e, "tag"@);
}

/// The keys of the JSON form of a block image: `tag`, `img_key`, `alt` and,
/// each where it is set, `title`, `custom_width`, `compact_width`, `mode`,
/// `preview`; each once, and no other key.
pub proof fn lemma_image_keys(e: InteractiveElementView, key: Seq<char>)
    requires
        e is Img,
    ensures
        e.json().count_key(key) == one(key == "tag"@)
            + one(key == "img_key"@)
            + one(key == "alt"@)
            + one(e->Img_title is Some && key == "title"@)
            + one(e->Img_custom_width is Some && key == "custom_width"@)
            + one(e->Img_compact_width is Some && key == "compact_width"@)
            + one(e->Img_mode is Some && key == "mode"@)
            + one(e->Img_preview is Some && key == "preview"@),
{
    broadcast use group_key_count;
}

/// The JSON form of a block image starts with the discriminant of the variant,
/// the one member under `tag`, and has each optional key exactly where the
/// field is set.
pub proof fn lemma_image_form(e: InteractiveElementView)
    requires
        e is Img,
    ensures
        e.json().starts_with("tag"@, e.tag()),
        e.json().count_key("tag"@) == 1,
        e.json().has_key("title"@) <==> e->Img_title is Some,
        e.json().has_key("custom_width"@) <==> e->Img_custom_width is Some,
        e.json().has_key("compact_width"@) <==> e->Img_compact_width is Some,
        e.json().has_key("mode"@) <==> e->Img_mode is Some,
        e.json().has_key("preview"@) <==> e->Img_preview is Some,
{
    reveal_strlit("tag");
    reveal_strlit("img_key");
    reveal_strlit("alt");
    reveal_strlit("title");
    reveal_strlit("custom_width");
    reveal_strlit("compact_width");
    reveal_strlit("mode");
    reveal_strlit("preview");
    assert("tag"@.len() != "img_key"@.len());
    assert("tag"@[0] != "alt"@[0]);
    assert("tag"@.len() != "title"@.len());
    assert("tag"@.len() != "custom_width"@.len());
    assert("tag"@.len() != "compact_width"@.len());
    assert("tag"@.len() != "mode"@.len());
    assert("tag"@.len() != "preview"@.len());
    assert("img_key"@.len() != "alt"@.len());
    assert("img_key"@.len() != "title"@.len());
    assert("img_key"@.len() != "custom_width"@.len());
    assert("img_key"@.len() != "compact_width"@.len());
    assert("img_key"@.len() != "mode"@.len());
    assert("img_key"@[0] != "preview"@[0]);
    assert("alt"@.len() != "title"@.len());
    assert("alt"@.len() != "custom_width"@.len());
    assert("alt"@.len() != "compact_width"@.len());
    assert("alt"@.len() != "mode"@.len());
    assert("alt"@.len() != "preview"@.len());
    assert("title"@.len() != "custom_width"@.len());
    assert("title"@.len() != "compact_width"@.len());
    assert("title"@.len() != "mode"@.len());
    assert("title"@.len() != "preview"@.len());
    assert("custom_width"@.len() != "compact_width"@.len());
    assert("custom_width"@.len() != "mode"@.len());
    assert("custom_width"@.len() != "preview"@.len());
    assert("compact_width"@.len() != "mode"@.len());
    assert("compact_width"@.len() != "preview"@.len());
    assert("mode"@.len() != "preview"@.len());
    lemma_image_keys(e, "tag"@);
    lemma_image_keys(e, "title"@);
    lemma_image_keys(e, "custom_width"@);
    lemma_image_keys(e, "compact_width"@);
    lemma_image_keys(e, "mode"@);
    lemma_image_keys(e, "preview"@);
}

/// The keys of the JSON form of an action row: `tag`, `actions` and, each where
/// it is set, `layout`; each once, and no other key.
pub proof fn lemma_action_keys(e: InteractiveElementView, key: Seq<char>)
    requires
        e is Action,
    ensures
        e.json().count_key(key) == one(key == "tag"@)
            + one(key == "actions"@)
            + one(e->Action_layout is Some && key == "layout"@),
{
    broadcast use group_key_count;
}

/// The JSON form of an action row starts with the discriminant of the variant,
/// the one member under `tag`, and has each optional key exactly where the
/// field is set.
pub proof fn lemma_action_form(e: InteractiveElementView)
    requires
        e is Action,
    ensures
        e.json().starts_with("tag"@, e.tag()),
        e.json().count_key("tag"@) == 1,
        e.json().has_key("layout"@) <==> e->Action_layout is Some,
{
    reveal_strlit("tag");
    reveal_strlit("actions");
    reveal_strlit("layout");
    assert("tag"@.len() != "actions"@.len());
    assert("tag"@.len() != "layout"@.len());
    assert("actions"@.len() != "layout"@.len());
    lemma_action_keys(e, "tag"@);
    lemma_action_keys(e, "layout"@);
}

/// The keys of the JSON form of a footnote line: `tag`, `elements`; each once,
/// and no other key.
pub proof fn lemma_note_keys(e: InteractiveElementView, key: Seq<char>)
    requires
        e is Note,
    ensures
        e.json().count_key(key) == one(key == "tag"@) + one(key == "elements"@),
{
    broadcast use group_key_count;
}

/// The JSON form of a footnote line starts with the discriminant of the
/// variant, the one member under `tag`.
pub proof fn lemma_note_form(e: InteractiveElementView)
    requires
        e is Note,
    ensures
        e.json().starts_with("tag"@, e.tag()),
        e.json().count_key("tag"@) == 1,
{
    reveal_strlit("tag");
    reveal_strlit("elements");
    assert("tag"@.len() != "elements"@.len());
    lemma_note_keys(e, "tag"@);
}

} // verus!
