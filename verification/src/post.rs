//! Rich text: paragraphs of inline runs under a title.

use vstd::prelude::*;
use crate::json::{
    bool_value, group_key_count, member, one, optional_member, Json, JsonValue, ObjectBuilder,
};

verus! {

/// One inline run of a paragraph.
#[derive(Debug)]
pub enum PostTag {
    Text { text: String, un_escape: Option<bool> },
    A { text: String, un_escape: Option<bool>, href: String },
    At { user_id: String },
    Img { image_key: String, height: u32, width: u32 },
}

/// An inline run as a mathematical value.
pub enum PostTagView {
    Text {
        text: Seq<char>,
        un_escape: Option<bool>,
    },
    A {
        text: Seq<char>,
        un_escape: Option<bool>,
        href: Seq<char>,
    },
    At {
        user_id: Seq<char>,
    },
    Img {
        image_key: Seq<char>,
        height: u32,
        width: u32,
    },
}

impl DeepView for PostTag {
    type V = PostTagView;

    open spec fn deep_view(&self) -> PostTagView {
        match self {
            PostTag::Text { text, un_escape } => PostTagView::Text {
                text: text.deep_view(),
                un_escape: *un_escape,
            },
            PostTag::A { text, un_escape, href } => PostTagView::A {
                text: text.deep_view(),
                un_escape: *un_escape,
                href: href.deep_view(),
            },
            PostTag::At { user_id } => PostTagView::At {
                user_id: user_id.deep_view(),
            },
            PostTag::Img { image_key, height, width } => PostTagView::Img {
                image_key: image_key.deep_view(),
                height: *height,
                width: *width,
            },
        }
    }
}

impl PostTagView {
    /// The discriminant of the variant.
    pub open spec fn tag(self) -> Seq<char> {
        match self {
            PostTagView::Text { .. } => "text"@,
            PostTagView::A { .. } => "a"@,
            PostTagView::At { .. } => "at"@,
            PostTagView::Img { .. } => "img"@,
        }
    }

    /// The JSON form: the discriminant under `tag`, then the fields of the
    /// variant, `un_escape` only where it is set.
    pub open spec fn json(self) -> JsonValue {
        match self {
            PostTagView::Text { text, un_escape } => JsonValue::Object(
                Seq::empty()
                    .push(member("tag"@, JsonValue::Str("text"@)))
                    .push(member("text"@, JsonValue::Str(text)))
                    + optional_member("un_escape"@, bool_value(un_escape)),
            ),
            PostTagView::A { text, un_escape, href } => JsonValue::Object(
                Seq::empty()
                    .push(member("tag"@, JsonValue::Str("a"@)))
                    .push(member("text"@, JsonValue::Str(text)))
                    + optional_member("un_escape"@, bool_value(un_escape))
                    + Seq::empty().push(member("href"@, JsonValue::Str(href))),
            ),
            PostTagView::At { user_id } => JsonValue::Object(
                Seq::empty()
                    .push(member("tag"@, JsonValue::Str("at"@)))
                    .push(member("user_id"@, JsonValue::Str(user_id))),
            ),
            PostTagView::Img { image_key, height, width } => JsonValue::Object(
                Seq::empty()
                    .push(member("tag"@, JsonValue::Str("img"@)))
                    .push(member("image_key"@, JsonValue::Str(image_key)))
                    .push(member("height"@, JsonValue::Number(height as int)))
                    .push(member("width"@, JsonValue::Number(width as int))),
            ),
        }
    }
}

impl PostTag {
    /// Builds the JSON form.
    pub fn to_json(&self) -> (j: Json)
        ensures
            j@ == self.deep_view().json(),
    {
        let mut b = ObjectBuilder::new();
        match self {
            PostTag::Text { text, un_escape } => {
                b.member("tag", Json::string("text"));
                b.member("text", Json::string(text.as_str()));
                b.optional("un_escape", Json::optional_bool(un_escape));
            },
            PostTag::A { text, un_escape, href } => {
                b.member("tag", Json::string("a"));
                b.member("text", Json::string(text.as_str()));
                b.optional("un_escape", Json::optional_bool(un_escape));
                b.member("href", Json::string(href.as_str()));
            },
            PostTag::At { user_id } => {
                b.member("tag", Json::string("at"));
                b.member("user_id", Json::string(user_id.as_str()));
            },
            PostTag::Img { image_key, height, width } => {
                b.member("tag", Json::string("img"));
                b.member("image_key", Json::string(image_key.as_str()));
                b.member("height", Json::number(*height));
                b.member("width", Json::number(*width));
            },
        }
        proof {
            assert(b@ =~= self.deep_view().json()->Object_0);
        }
        b.build()
    }
}

/// The JSON form of a paragraph: the array of its runs.
pub open spec fn paragraph_json(runs: Seq<PostTagView>) -> JsonValue {
    JsonValue::Array(Seq::new(runs.len(), |i: int| runs[i].json()))
}

/// The JSON form of a text: the array of its paragraphs.
pub open spec fn paragraphs_json(paragraphs: Seq<Seq<PostTagView>>) -> JsonValue {
    JsonValue::Array(Seq::new(paragraphs.len(), |i: int| paragraph_json(paragraphs[i])))
}

/// Builds the JSON form of a paragraph.
pub fn paragraph_to_json(runs: &Vec<PostTag>) -> (j: Json)
    ensures
        j@ == paragraph_json(runs.deep_view()),
{
    let mut items: Vec<Json> = Vec::new();
    let mut i: usize = 0;
    while i < runs.len()
        invariant
            i <= runs.len(),
            items.len() == i,
            forall|k: int| 0 <= k < i ==> items[k]@ == runs[k].deep_view().json(),
        decreases runs.len() - i,
    {
        items.push(runs[i].to_json());
        i += 1;
    }
    let j = Json::array(items);
    proof {
        assert(j@->Array_0 =~= paragraph_json(runs.deep_view())->Array_0);
    }
    j
}

/// Builds the JSON form of a text.
pub fn paragraphs_to_json(paragraphs: &Vec<Vec<PostTag>>) -> (j: Json)
    ensures
        j@ == paragraphs_json(paragraphs.deep_view()),
{
    let mut items: Vec<Json> = Vec::new();
    let mut i: usize = 0;
    while i < paragraphs.len()
        invariant
            i <= paragraphs.len(),
            items.len() == i,
            forall|k: int| 0 <= k < i ==> items[k]@ == paragraph_json(paragraphs[k].deep_view()),
        decreases paragraphs.len() - i,
    {
        items.push(paragraph_to_json(&paragraphs[i]));
        i += 1;
    }
    let j = Json::array(items);
    proof {
        assert(j@->Array_0 =~= paragraphs_json(paragraphs.deep_view())->Array_0);
    }
    j
}

/// A title and the paragraphs under it.
#[derive(Debug)]
pub struct PostBodyContent {
    pub title: String,
    pub content: Vec<Vec<PostTag>>,
}

/// A title and its paragraphs as a mathematical value.
pub struct PostBodyContentView {
    pub title: Seq<char>,
    pub content: Seq<Seq<PostTagView>>,
}

impl DeepView for PostBodyContent {
    type V = PostBodyContentView;

    open spec fn deep_view(&self) -> PostBodyContentView {
        PostBodyContentView {
            title: self.title.deep_view(),
            content: self.content.deep_view(),
        }
    }
}

impl PostBodyContentView {
    /// The JSON form: the title and the paragraphs.
    pub open spec fn json(self) -> JsonValue {
        JsonValue::Object(
            Seq::empty()
                .push(member("title"@, JsonValue::Str(self.title)))
                .push(member("content"@, paragraphs_json(self.content))),
        )
    }
}

impl PostBodyContent {
    /// Builds the JSON form.
    pub fn to_json(&self) -> (j: Json)
        ensures
            j@ == self.deep_view().json(),
    {
        let mut b = ObjectBuilder::new();
        b.member("title", Json::string(self.title.as_str()));
        b.member("content", paragraphs_to_json(&self.content));
        proof {
            assert(b@ =~= self.deep_view().json()->Object_0);
        }
        b.build()
    }
}

/// A rich text in one language.
#[derive(Debug)]
pub enum PostBody {
    ZhCn(PostBodyContent),
    JaJp(PostBodyContent),
    EnUs(PostBodyContent),
}

/// A rich text in one language as a mathematical value.
pub enum PostBodyView {
    ZhCn(PostBodyContentView),
    JaJp(PostBodyContentView),
    EnUs(PostBodyContentView),
}

impl DeepView for PostBody {
    type V = PostBodyView;

    open spec fn deep_view(&self) -> PostBodyView {
        match self {
            PostBody::ZhCn(inner) => PostBodyView::ZhCn(inner.deep_view()),
            PostBody::JaJp(inner) => PostBodyView::JaJp(inner.deep_view()),
            PostBody::EnUs(inner) => PostBodyView::EnUs(inner.deep_view()),
        }
    }
}

impl PostBodyView {
    /// The key of the language.
    pub open spec fn locale(self) -> Seq<char> {
        match self {
            PostBodyView::ZhCn(_) => "zh_cn"@,
            PostBodyView::JaJp(_) => "ja_jp"@,
            PostBodyView::EnUs(_) => "en_us"@,
        }
    }

    /// The title and the paragraphs.
    pub open spec fn body(self) -> PostBodyContentView {
        match self {
            PostBodyView::ZhCn(c) => c,
            PostBodyView::JaJp(c) => c,
            PostBodyView::EnUs(c) => c,
        }
    }

    /// The JSON form: one member, the content under the key of the language.
    pub open spec fn json(self) -> JsonValue {
        JsonValue::Object(Seq::empty().push(member(self.locale(), self.body().json())))
    }
}

impl PostBody {
    /// Builds the JSON form.
    pub fn to_json(&self) -> (j: Json)
        ensures
            j@ == self.deep_view().json(),
    {
        let mut b = ObjectBuilder::new();
        match self {
            PostBody::ZhCn(c) => {
                b.member("zh_cn", c.to_json());
            },
            PostBody::JaJp(c) => {
                b.member("ja_jp", c.to_json());
            },
            PostBody::EnUs(c) => {
                b.member("en_us", c.to_json());
            },
        }
        proof {
            assert(b@ =~= self.deep_view().json()->Object_0);
        }
        b.build()
    }
}

/// The keys of the JSON form of a text run: `tag`, `text` and, each where it is
/// set, `un_escape`; each once, and no other key.
pub proof fn lemma_text_run_keys(r: PostTagView, key: Seq<char>)
    requires
        r is Text,
    ensures
        r.json().count_key(key) == one(key == "tag"@)
            + one(key == "text"@)
            + one(r->Text_un_escape is Some && key == "un_escape"@),
{
    broadcast use group_key_count;
}

/// The JSON form of a text run starts with the discriminant of the variant, the
/// one member under `tag`, and has each optional key exactly where the field is
/// set.
pub proof fn lemma_text_run_form(r: PostTagView)
    requires
        r is Text,
    ensures
        r.json().starts_with("tag"@, r.tag()),
        r.json().count_key("tag"@) == 1,
        r.json().has_key("un_escape"@) <==> r->Text_un_escape is Some,
{
    reveal_strlit("tag");
    reveal_strlit("text");
    reveal_strlit("un_escape");
    assert("tag"@.len() != "text"@.len());
    assert("tag"@.len() != "un_escape"@.len());
    assert("text"@.len() != "un_escape"@.len());
    lemma_text_run_keys(r, "tag"@);
    lemma_text_run_keys(r, "un_escape"@);
}

/// The keys of the JSON form of a link: `tag`, `text`, `href` and, each where
/// it is set, `un_escape`; each once, and no other key.
pub proof fn lemma_link_run_keys(r: PostTagView, key: Seq<char>)
    requires
        r is A,
    ensures
        r.json().count_key(key) == one(key == "tag"@)
            + one(key == "text"@)
            + one(r->A_un_escape is Some && key == "un_escape"@)
            + one(key == "href"@),
{
    broadcast use group_key_count;
}

/// The JSON form of a link starts with the discriminant of the variant, the one
/// member under `tag`, and has each optional key exactly where the field is
/// set.
pub proof fn lemma_link_run_form(r: PostTagView)
    requires
        r is A,
    ensures
        r.json().starts_with("tag"@, r.tag()),
        r.json().count_key("tag"@) == 1,
        r.json().has_key("un_escape"@) <==> r->A_un_escape is Some,
{
    reveal_strlit("tag");
    reveal_strlit("text");
    reveal_strlit("un_escape");
    reveal_strlit("href");
    assert("tag"@.len() != "text"@.len());
    assert("tag"@.len() != "un_escape"@.len());
    assert("tag"@.len() != "href"@.len());
    assert("text"@.len() != "un_escape"@.len());
    assert("text"@[0] != "href"@[0]);
    assert("un_escape"@.len() != "href"@.len());
    lemma_link_run_keys(r, "tag"@);
    lemma_link_run_keys(r, "un_escape"@);
}

/// The keys of the JSON form of a mention: `tag`, `user_id`; each once, and no
/// other key.
pub proof fn lemma_mention_run_keys(r: PostTagView, key: Seq<char>)
    requires
        r is At,
    ensures
        r.json().count_key(key) == one(key == "tag"@) + one(key == "user_id"@),
{
    broadcast use group_key_count;
}

/// The JSON form of a mention starts with the discriminant of the variant, the
/// one member under `tag`.
pub proof fn lemma_mention_run_form(r: PostTagView)
    requires
        r is At,
    ensures
        r.json().starts_with("tag"@, r.tag()),
        r.json().count_key("tag"@) == 1,
{
    reveal_strlit("tag");
    reveal_strlit("user_id");
    assert("tag"@.len() != "user_id"@.len());
    lemma_mention_run_keys(r, "tag"@);
}

/// The keys of the JSON form of an image run: `tag`, `image_key`, `height`,
/// `width`; each once, and no other key.
pub proof fn lemma_image_run_keys(r: PostTagView, key: Seq<char>)
    requires
        r is Img,
    ensures
        r.json().count_key(key) == one(key == "tag"@)
            + one(key == "image_key"@)
            + one(key == "height"@)
            + one(key == "width"@),
{
    broadcast use group_key_count;
}

/// The JSON form of an image run starts with the discriminant of the variant,
/// the one member under `tag`.
pub proof fn lemma_image_run_form(r: PostTagView)
    requires
        r is Img,
    ensures
        r.json().starts_with("tag"@, r.tag()),
        r.json().count_key("tag"@) == 1,
{
    reveal_strlit("tag");
    reveal_strlit("image_key");
    reveal_strlit("height");
    reveal_strlit("width");
    assert("tag"@.len() != "image_key"@.len());
    assert("tag"@.len() != "height"@.len());
    assert("tag"@.len() != "width"@.len());
    assert("image_key"@.len() != "height"@.len());
    assert("image_key"@.len() != "width"@.len());
    assert("height"@.len() != "width"@.len());
    lemma_image_run_keys(r, "tag"@);
}

/// The JSON form of a rich text has one member: its key is that of the
/// language.
pub proof fn lemma_post_body_keys(p: PostBodyView, key: Seq<char>)
    ensures
        p.json().count_key(key) == one(key == p.locale()),
{
    broadcast use group_key_count;
}

} // verus!
