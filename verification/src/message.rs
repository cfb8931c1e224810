//! Messages, and the two ends of their delivery to the webhook: the request
//! that carries a message, and the reading of the reply.

use vstd::prelude::*;
use crate::card::{InteractiveBody, InteractiveBodyView};
use crate::json::{group_key_count, member, one, Json, JsonValue, ObjectBuilder};
use crate::post::{PostBody, PostBodyContent, PostBodyContentView, PostBodyView, PostTag};

verus! {

/// A message to the chat: plain text, rich text or a card.
#[derive(Debug)]
pub enum Message {
    Text { text: String },
    Post { post: PostBody },
    Interactive { card: InteractiveBody },
}

/// A message as a mathematical value.
pub enum MessageView {
    Text {
        text: Seq<char>,
    },
    Post {
        post: PostBodyView,
    },
    Interactive {
        card: InteractiveBodyView,
    },
}

impl DeepView for Message {
    type V = MessageView;

    open spec fn deep_view(&self) -> MessageView {
        match self {
            Message::Text { text } => MessageView::Text {
                text: text.deep_view(),
            },
            Message::Post { post } => MessageView::Post {
                post: post.deep_view(),
            },
            Message::Interactive { card } => MessageView::Interactive {
                card: card.deep_view(),
            },
        }
    }
}

impl MessageView {
    /// The discriminant of the variant.
    pub open spec fn msg_type(self) -> Seq<char> {
        match self {
            MessageView::Text { .. } => "text"@,
            MessageView::Post { .. } => "post"@,
            MessageView::Interactive { .. } => "interactive"@,
        }
    }

    /// The key of the variant's one field.
    pub open spec fn content_key(self) -> Seq<char> {
        match self {
            MessageView::Text { .. } => "text"@,
            MessageView::Post { .. } => "post"@,
            MessageView::Interactive { .. } => "card"@,
        }
    }

    /// The content of the message: an object with the one field of the variant.
    pub open spec fn content(self) -> JsonValue {
        match self {
            MessageView::Text { text } => JsonValue::Object(
                Seq::empty().push(member("text"@, JsonValue::Str(text))),
            ),
            MessageView::Post { post } => JsonValue::Object(
                Seq::empty()
                    .push(member("post"@, post.json())),
            ),
            MessageView::Interactive { card } => JsonValue::Object(
                Seq::empty().push(member("card"@, card.json())),
            ),
        }
    }

    /// The JSON form: the discriminant under `msg_type`, and the content under
    /// `content`.
    pub open spec fn json(self) -> JsonValue {
        JsonValue::Object(
            Seq::empty()
                .push(member("msg_type"@, JsonValue::Str(self.msg_type())))
                .push(member("content"@, self.content())),
        )
    }

    /// The JSON text that is sent for the message.
    pub open spec fn payload_text(self) -> Seq<char> {
        self.json().text()
    }
}

/// The token that is used where none is configured.
pub open spec fn fallback_token() -> Seq<char> {
    "7c161133-e77c-4df8-bd5c-8ae1c1700bf6"@
}

/// The token of the webhook: the configured one, or the fallback.
pub open spec fn token_text(configured: Option<String>) -> Seq<char> {
    match configured {
        Some(t) => t@,
        None => fallback_token(),
    }
}

/// The address of the webhook for a token.
pub open spec fn hook_url_text(token: Seq<char>) -> Seq<char> {
    "https://open.feishu.cn/open-apis/bot/v2/hook/"@ + token
}

/// What is sent to the webhook: the address and the JSON text.
#[derive(Debug)]
pub struct Request {
    pub url: String,
    pub body: String,
}

/// Why a delivery failed.
#[derive(Debug)]
pub enum SendError {
    /// The request did not reach the webhook, or no reply came back.
    Transport(String),
    /// The reply is not JSON.
    Response(String),
}

impl SendError {
    /// The description of the failure.
    pub open spec fn description(&self) -> Seq<char> {
        match self {
            SendError::Transport(d) => d@,
            SendError::Response(d) => d@,
        }
    }

    /// The description of the failure.
    pub fn message(&self) -> (out: String)
        ensures
            out@ == self.description(),
    {
        match self {
            SendError::Transport(d) => d.clone(),
            SendError::Response(d) => d.clone(),
        }
    }
}

/// Whether `serde_json::from_str` reads this text as a JSON document.
pub uninterp spec fn is_json_text(body: Seq<char>) -> bool;

/// `serde_json::Value`: a document that the parser returned. Nothing inside it
/// is read here.
#[verifier::external_type_specification]
#[verifier::external_body]
pub struct ExJsonDocument(serde_json::Value);

/// `serde_json::Error`: why the parser refused a text. Nothing inside it is
/// read here.
#[verifier::external_type_specification]
#[verifier::external_body]
pub struct ExJsonError(serde_json::Error);

/// Calls `serde_json::from_str` for a `serde_json::Value`. The call succeeds
/// exactly on the texts that `is_json_text` names.
#[verifier::external_body]
fn parse_json(body: &str) -> (r: Result<serde_json::Value, serde_json::Error>)
    ensures
        r is Ok <==> is_json_text(body@),
{
    serde_json::from_str::<serde_json::Value>(body)
}

/// Prints a `serde_json::Value` through its `Display`, which writes it as
/// compact JSON. Nothing is stated of the text.
#[verifier::external_body]
fn show_json(value: &serde_json::Value) -> String {
    value.to_string()
}

/// Prints a `serde_json::Error` through its `Display`. Nothing is stated of
/// the text.
#[verifier::external_body]
fn show_error(error: &serde_json::Error) -> String {
    error.to_string()
}

/// The address of the webhook for a token.
pub fn hook_url(token: &str) -> (url: String)
    ensures
        url@ == hook_url_text(token@),
{
    let mut url = "https://open.feishu.cn/open-apis/bot/v2/hook/".to_owned();
    url.push_str(token);
    url
}

/// The token of the webhook: the configured one, or the fallback where none
/// is configured.
pub fn resolve_token(configured: Option<String>) -> (token: String)
    ensures
        token@ == token_text(configured),
{
    match configured {
        Some(t) => t,
        None => "7c161133-e77c-4df8-bd5c-8ae1c1700bf6".to_owned(),
    }
}

/// Reads the body of a reply: the reply as compact JSON for the log where the
/// body is JSON, and a response error where it is not.
pub fn read_response(body: &str) -> (r: Result<String, SendError>)
    ensures
        r is Ok <==> is_json_text(body@),
        r is Err ==> r->Err_0 is Response,
{
    match parse_json(body) {
        Ok(value) => Ok(show_json(&value)),
        Err(error) => Err(SendError::Response(show_error(&error))),
    }
}

/// Whether `outcome` is how a delivery with this reply ends: a failure on the
/// way is a transport error with the same description, a body that is not JSON
/// is a response error, a body that is JSON is a success.
pub open spec fn concludes(
    reply: Result<String, String>,
    outcome: Result<String, SendError>,
) -> bool {
    match reply {
        Err(description) => outcome is Err && outcome->Err_0 is Transport
            && outcome->Err_0.description() == description@,
        Ok(body) => if is_json_text(body@) {
            outcome is Ok
        } else {
            outcome is Err && outcome->Err_0 is Response
        },
    }
}

/// Decides how a delivery ended. `reply` is the body that came back, or the
/// description of what went wrong on the way. A failure on the way is a
/// transport error with that description; a body that is not JSON is a
/// response error; a body that is JSON is a success.
pub fn conclude(reply: Result<String, String>) -> (r: Result<String, SendError>)
    ensures
        concludes(reply, r),
{
    match reply {
        Ok(body) => read_response(body.as_str()),
        Err(description) => Err(SendError::Transport(description)),
    }
}

impl Message {
    /// A plain text message.
    pub fn new_text(text: &str) -> (m: Message)
        ensures
            m.deep_view() == (MessageView::Text { text: text@ }),
    {
        Message::Text { text: text.to_owned() }
    }

    /// A rich text message in the language `zh_cn`, with the given title and
    /// paragraphs.
    pub fn new_post(title: &str, content: Vec<Vec<PostTag>>) -> (m: Message)
        ensures
            m.deep_view() == (MessageView::Post {
                post: PostBodyView::ZhCn(
                    PostBodyContentView { title: title@, content: content.deep_view() },
                ),
            }),
    {
        Message::Post {
            post: PostBody::ZhCn(PostBodyContent { title: title.to_owned(), content }),
        }
    }

    /// A card message.
    pub fn new_card(card: InteractiveBody) -> (m: Message)
        ensures
            m == (Message::Interactive { card }),
            m.deep_view() == (MessageView::Interactive { card: card.deep_view() }),
    {
        Message::Interactive { card }
    }

    /// Builds the JSON form.
    pub fn to_json(&self) -> (j: Json)
        ensures
            j@ == self.deep_view().json(),
    {
        let mut inner = ObjectBuilder::new();
        let mut outer = ObjectBuilder::new();
        match self {
            Message::Text { text } => {
                outer.member("msg_type", Json::string("text"));
                inner.member("text", Json::string(text.as_str()));
            },
            Message::Post { post } => {
                outer.member("msg_type", Json::string("post"));
                inner.member("post", post.to_json());
            },
            Message::Interactive { card } => {
                outer.member("msg_type", Json::string("interactive"));
                inner.member("card", card.to_json());
            },
        }
        proof {
            assert(inner@ =~= self.deep_view().content()->Object_0);
        }
        outer.member("content", inner.build());
        proof {
            assert(outer@ =~= self.deep_view().json()->Object_0);
        }
        outer.build()
    }

    /// The JSON text that is sent for the message.
    pub fn payload(&self) -> (out: String)
        ensures
            out@ == self.deep_view().payload_text(),
    {
        self.to_json().to_text()
    }

    /// The request that delivers the message: the address of the webhook for
    /// the configured token, or for the fallback where none is configured, and
    /// the JSON text of the message.
    pub fn request(&self, token: Option<String>) -> (r: Request)
        ensures
            r.url@ == hook_url_text(token_text(token)),
            r.body@ == self.deep_view().payload_text(),
    {
        let token = resolve_token(token);
        Request { url: hook_url(token.as_str()), body: self.payload() }
    }

    /// Whether `request` is the request that delivers the message with this
    /// token.
    pub open spec fn delivered_by(&self, token: Option<String>, request: Request) -> bool {
        request.url@ == hook_url_text(token_text(token))
            && request.body@ == self.deep_view().payload_text()
    }

    /// Delivers the message: hands its request to `post` once, and decides
    /// from what `post` returns, the body of the reply or the description of a
    /// failure on the way. The result is the reply as compact JSON, or the
    /// error.
    pub fn send<F: FnOnce(Request) -> Result<String, String>>(
        &self,
        token: Option<String>,
        post: F,
    ) -> (r: Result<String, SendError>)
        requires
            forall|request: Request|
                self.delivered_by(token, request) ==> #[trigger] post.requires((request,)),
        ensures
            exists|request: Request, reply: Result<String, String>|
                self.delivered_by(token, request) && #[trigger] post.ensures((request,), reply)
                    && concludes(reply, r),
    {
        let request = self.request(token);
        let ghost sent = request;
        let reply = post(request);
        let r = conclude(reply);
        proof {
            assert(post.ensures((sent,), reply) && concludes(reply, r));
        }
        r
    }
}

/// The keys of the JSON form of a message: `msg_type`, `content`; each once,
/// and no other key.
pub proof fn lemma_message_keys(m: MessageView, key: Seq<char>)
    ensures
        m.json().count_key(key) == one(key == "msg_type"@) + one(key == "content"@),
{
    broadcast use group_key_count;
}

/// The JSON form of a message starts with the discriminant of the variant, the
/// one member under `msg_type`.
pub proof fn lemma_message_form(m: MessageView)
    ensures
        m.json().starts_with("msg_type"@, m.msg_type()),
        m.json().count_key("msg_type"@) == 1,
{
    reveal_strlit("msg_type");
    reveal_strlit("content");
    assert("msg_type"@.len() != "content"@.len());
    lemma_message_keys(m, "msg_type"@);
}

/// The content of a message has one member: its key is that of the variant's
/// field.
pub proof fn lemma_content_keys(m: MessageView, key: Seq<char>)
    ensures
        m.content().count_key(key) == one(key == m.content_key()),
{
    broadcast use group_key_count;
}

/// The text that is sent is decided by the JSON form alone: messages with the
/// same form are sent as the same text, however often they are written.
pub proof fn lemma_payload_determined(first: MessageView, second: MessageView)
    requires
        first.json() == second.json(),
    ensures
        first.payload_text() == second.payload_text(),
{
}

} // verus!
