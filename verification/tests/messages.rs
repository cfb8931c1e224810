use feishu_bot::card::{InteractiveBody, InteractiveConfig, InteractiveElement, InteractiveHeader};
use feishu_bot::element::{Confirm, Extra, Field, Img, MultiUrl, Note, Text};
use feishu_bot::json::{Json, Member, ObjectBuilder};
use feishu_bot::message::{
    conclude, hook_url, read_response, resolve_token, Message, Request, SendError,
};
use feishu_bot::post::{PostBody, PostBodyContent, PostTag};

fn parse(text: &str) -> serde_json::Value {
    serde_json::from_str::<serde_json::Value>(text).unwrap()
}

fn plain(content: &str) -> Text {
    Text::PlainText { content: content.to_string(), lines: None }
}

#[test]
fn text_message_payload() {
    let message = Message::new_text("hello");
    assert_eq!(message.payload(), r#"{"msg_type":"text","content":{"text":"hello"}}"#);
    let value = parse(&message.payload());
    assert_eq!(value["msg_type"], "text");
    assert_eq!(value["content"]["text"], "hello");
    assert_eq!(value["content"].as_object().unwrap().len(), 1);
}

#[test]
fn post_message_payload() {
    let message = Message::new_post(
        "Title",
        vec![vec![
            PostTag::Text { text: "a".to_string(), un_escape: None },
            PostTag::A { text: "b".to_string(), un_escape: None, href: "https://x".to_string() },
        ]],
    );
    assert_eq!(
        message.payload(),
        r#"{"msg_type":"post","content":{"post":{"zh_cn":{"title":"Title","content":[[{"tag":"text","text":"a"},{"tag":"a","text":"b","href":"https://x"}]]}}}}"#
    );
    let value = parse(&message.payload());
    let body = &value["content"]["post"]["zh_cn"];
    assert_eq!(body["title"], "Title");
    let outer = body["content"].as_array().unwrap();
    assert_eq!(outer.len(), 1);
    let inner = outer[0].as_array().unwrap();
    assert_eq!(inner.len(), 2);
    assert_eq!(inner[0]["tag"], "text");
    assert_eq!(inner[1]["tag"], "a");
    assert_eq!(inner[1]["href"], "https://x");
    assert!(inner[0].get("un_escape").is_none());
    assert!(inner[1].get("un_escape").is_none());
}

#[test]
fn confirm_with_plain_texts() {
    let confirm = Confirm { title: plain("Sure?"), text: plain("This cannot be undone") };
    assert_eq!(
        confirm.to_json().to_text(),
        r#"{"title":{"tag":"plain_text","content":"Sure?"},"text":{"tag":"plain_text","content":"This cannot be undone"}}"#
    );
    let value = parse(&confirm.to_json().to_text());
    assert!(value["title"].get("lines").is_none());
    assert!(value["text"].get("lines").is_none());
}

#[test]
fn unreachable_host_is_a_transport_error() {
    let message = Message::new_text("hello");
    let outcome = message.send(None, |_request: Request| {
        Err("error sending request: connection refused".to_string())
    });
    match outcome {
        Err(SendError::Transport(description)) => {
            assert_eq!(description, "error sending request: connection refused")
        }
        other => panic!("unexpected outcome: {:?}", other),
    }
    assert!(matches!(conclude(Err("dns".to_string())), Err(SendError::Transport(_))));
}

#[test]
fn send_hands_the_request_to_the_transport() {
    let message = Message::new_text("hello");
    let mut seen: Vec<(String, String)> = Vec::new();
    let outcome = message.send(Some("tok".to_string()), |request: Request| {
        seen.push((request.url, request.body));
        Ok(r#"{"code":0}"#.to_string())
    });
    assert_eq!(outcome.unwrap(), r#"{"code":0}"#);
    assert_eq!(
        seen,
        vec![(
            "https://open.feishu.cn/open-apis/bot/v2/hook/tok".to_string(),
            r#"{"msg_type":"text","content":{"text":"hello"}}"#.to_string()
        )]
    );
    let refused = message.send(None, |_request: Request| Ok("not json".to_string()));
    assert!(matches!(refused, Err(SendError::Response(_))));
}

#[test]
fn reply_that_is_json_is_a_success() {
    let outcome = conclude(Ok(r#"{ "code": 0, "msg": "ok" }"#.to_string()));
    assert_eq!(parse(&outcome.unwrap()), parse(r#"{"code":0,"msg":"ok"}"#));
    assert!(read_response("[1, 2]").is_ok());
}

#[test]
fn reply_that_is_not_json_is_a_response_error() {
    assert!(matches!(read_response("<html>"), Err(SendError::Response(_))));
    assert!(matches!(conclude(Ok(String::new())), Err(SendError::Response(_))));
    let error = read_response("{").unwrap_err();
    assert!(!error.message().is_empty());
}

#[test]
fn error_message_is_the_description() {
    assert_eq!(SendError::Transport("dns".to_string()).message(), "dns");
    assert_eq!(SendError::Response("eof".to_string()).message(), "eof");
}

#[test]
fn payload_is_the_same_each_time() {
    let message = Message::new_post(
        "t",
        vec![vec![PostTag::At { user_id: "ou_1".to_string() }], vec![]],
    );
    assert_eq!(message.payload(), message.payload());
    assert_eq!(message.to_json(), message.to_json());
}

#[test]
fn unset_optional_fields_have_no_key() {
    let text = Text::LarkMd { content: "**x**".to_string(), lines: None };
    assert_eq!(text.to_json().to_text(), r#"{"tag":"lark_md","content":"**x**"}"#);
    let header = InteractiveHeader { title: "h".to_string(), template: None };
    assert_eq!(header.to_json().to_text(), r#"{"title":"h"}"#);
    let config = InteractiveConfig { enable_forward: None, update_multi: None };
    assert_eq!(config.to_json().to_text(), "{}");
    let div = InteractiveElement::Div { text: None, fields: None, extra: None };
    assert_eq!(div.to_json().to_text(), r#"{"tag":"div"}"#);
    let button = Extra::Button {
        text: plain("go"),
        url: None,
        multi_url: None,
        kind: None,
        value: None,
        confirm: None,
    };
    let value = parse(&button.to_json().to_text());
    assert_eq!(value.as_object().unwrap().len(), 2);
    assert!(!button.to_json().to_text().contains("null"));
}

#[test]
fn set_optional_fields_have_their_key() {
    let text = Text::PlainText { content: "x".to_string(), lines: Some(3) };
    assert_eq!(text.to_json().to_text(), r#"{"tag":"plain_text","content":"x","lines":3}"#);
    let run = PostTag::Text { text: "a".to_string(), un_escape: Some(true) };
    assert_eq!(run.to_json().to_text(), r#"{"tag":"text","text":"a","un_escape":true}"#);
    let link = PostTag::A { text: "a".to_string(), un_escape: Some(false), href: "h".to_string() };
    assert_eq!(link.to_json().to_text(), r#"{"tag":"a","text":"a","un_escape":false,"href":"h"}"#);
    let config = InteractiveConfig { enable_forward: Some(false), update_multi: Some(true) };
    assert_eq!(config.to_json().to_text(), r#"{"enable_forward":false,"update_multi":true}"#);
}

#[test]
fn each_form_has_one_discriminant() {
    let forms = vec![
        PostTag::Text { text: "a".to_string(), un_escape: None }.to_json(),
        PostTag::At { user_id: "u".to_string() }.to_json(),
        PostTag::Img { image_key: "k".to_string(), height: 300, width: 0 }.to_json(),
        InteractiveElement::Hr.to_json(),
        Extra::SelectStatic {}.to_json(),
        Extra::SelectPerson {}.to_json(),
        Note::Text(plain("n")).to_json(),
        Note::Img(Img { img_key: "k".to_string(), alt: plain(""), preview: None }).to_json(),
    ];
    let tags = ["text", "at", "img", "hr", "select_static", "select_person", "plain_text", "img"];
    for (form, tag) in forms.iter().zip(tags.iter()) {
        match form {
            Json::Object(members) => {
                let found: Vec<&Member> = members.iter().filter(|m| m.key == "tag").collect();
                assert_eq!(found.len(), 1);
                assert_eq!(found[0].value, Json::Str(tag.to_string()));
            }
            other => panic!("not an object: {:?}", other),
        }
    }
}

#[test]
fn image_run_has_its_numbers() {
    let run = PostTag::Img { image_key: "k".to_string(), height: 300, width: 4294967295 };
    assert_eq!(
        run.to_json().to_text(),
        r#"{"tag":"img","image_key":"k","height":300,"width":4294967295}"#
    );
}

#[test]
fn payload_reads_back_as_the_same_document() {
    let message = Message::new_card(sample_card());
    let text = message.payload();
    let first = parse(&text);
    let again = serde_json::to_string(&first).unwrap();
    assert_eq!(parse(&again), first);
    assert_eq!(again.len(), text.len());
    let button = &first["content"]["card"]["elements"][3]["actions"][0];
    assert!(button.get("multi_url").is_none());
    assert!(button.get("url").is_some());

    let simple = Message::new_text("hello").payload();
    assert_eq!(serde_json::to_string(&parse(&simple)).unwrap().len(), simple.len());
}

fn sample_card() -> InteractiveBody {
    InteractiveBody {
        config: Some(InteractiveConfig { enable_forward: Some(true), update_multi: None }),
        header: Some(InteractiveHeader { title: "Card".to_string(), template: Some("blue".to_string()) }),
        elements: vec![
            InteractiveElement::Div {
                text: Some(plain("body")),
                fields: Some(vec![Field { is_short: true, text: plain("f") }]),
                extra: None,
            },
            InteractiveElement::Hr,
            InteractiveElement::Img {
                img_key: "img_1".to_string(),
                alt: plain("alt"),
                title: None,
                custom_width: Some(300),
                compact_width: None,
                mode: Some("crop_center".to_string()),
                preview: None,
            },
            InteractiveElement::Action {
                actions: vec![
                    Extra::Button {
                        text: Text::LarkMd { content: "go".to_string(), lines: None },
                        url: Some("https://x".to_string()),
                        multi_url: None,
                        kind: Some("primary".to_string()),
                        value: Some(Json::Object(vec![Member {
                            key: "k".to_string(),
                            value: Json::Array(vec![Json::Number(-1), Json::Null, Json::Bool(true)]),
                        }])),
                        confirm: Some(Confirm { title: plain("t"), text: plain("x") }),
                    },
                    Extra::DatePicker {
                        initial_date: Some("2024-01-02".to_string()),
                        placeholder: None,
                        value: None,
                        confirm: None,
                    },
                ],
                layout: Some("flow".to_string()),
            },
            InteractiveElement::Note {
                elements: vec![
                    Note::Text(plain("note")),
                    Note::Img(Img { img_key: "i".to_string(), alt: plain("a"), preview: Some(false) }),
                ],
            },
        ],
    }
}

#[test]
fn card_message_payload() {
    let message = Message::new_card(sample_card());
    assert_eq!(
        message.payload(),
        concat_all(&[
            r#"{"msg_type":"interactive","content":{"card":{"#,
            r#""config":{"enable_forward":true},"#,
            r#""header":{"title":"Card","template":"blue"},"#,
            r#""elements":["#,
            r#"{"tag":"div","text":{"tag":"plain_text","content":"body"},"fields":[{"is_short":true,"text":{"tag":"plain_text","content":"f"}}]},"#,
            r#"{"tag":"hr"},"#,
            r#"{"tag":"img","img_key":"img_1","alt":{"tag":"plain_text","content":"alt"},"custom_width":300,"mode":"crop_center"},"#,
            r#"{"tag":"action","actions":["#,
            r#"{"tag":"button","text":{"tag":"lark_md","content":"go"},"url":"https://x","type":"primary","value":{"k":[-1,null,true]},"confirm":{"title":{"tag":"plain_text","content":"t"},"text":{"tag":"plain_text","content":"x"}}},"#,
            r#"{"tag":"date_picker","initial_date":"2024-01-02"}"#,
            r#"],"layout":"flow"},"#,
            r#"{"tag":"note","elements":[{"tag":"plain_text","content":"note"},{"tag":"img","img_key":"i","alt":{"tag":"plain_text","content":"a"},"preview":false}]}"#,
            r#"]}}}"#,
        ])
    );
}

fn concat_all(parts: &[&str]) -> String {
    let mut out = String::new();
    for part in parts {
        out.push_str(part);
    }
    out
}

#[test]
fn card_without_config_and_header() {
    let message = Message::new_card(InteractiveBody { config: None, header: None, elements: vec![] });
    assert_eq!(
        message.payload(),
        r#"{"msg_type":"interactive","content":{"card":{"elements":[]}}}"#
    );
}

#[test]
fn widgets() {
    let overflow = Extra::Overflow { options: (), value: None, confirm: None };
    assert_eq!(overflow.to_json().to_text(), r#"{"tag":"overflow","options":null}"#);
    let time = Extra::PickerTime {
        initial_time: Some("10:30".to_string()),
        placeholder: Some(plain("when")),
        value: Some(Json::Str("v".to_string())),
        confirm: None,
    };
    assert_eq!(
        time.to_json().to_text(),
        r#"{"tag":"picker_time","initial_time":"10:30","placeholder":{"tag":"plain_text","content":"when"},"value":"v"}"#
    );
    let both = Extra::PickerDateTime {
        initial_datetime: Some("2024-01-02 10:30".to_string()),
        placeholder: None,
        value: None,
        confirm: None,
    };
    assert_eq!(
        both.to_json().to_text(),
        r#"{"tag":"picker_date_time","initial_datetime":"2024-01-02 10:30"}"#
    );
    let image = Extra::Img(Img { img_key: "k".to_string(), alt: plain("a"), preview: None });
    assert_eq!(
        image.to_json().to_text(),
        r#"{"tag":"img","img_key":"k","alt":{"tag":"plain_text","content":"a"}}"#
    );
    let links = MultiUrl {
        url: "u".to_string(),
        android_url: "a".to_string(),
        ios_url: "i".to_string(),
        pc_url: "p".to_string(),
    };
    let button = Extra::Button {
        text: plain("b"),
        url: None,
        multi_url: Some(links),
        kind: None,
        value: None,
        confirm: None,
    };
    assert_eq!(
        button.to_json().to_text(),
        r#"{"tag":"button","text":{"tag":"plain_text","content":"b"},"multi_url":{"url":"u","android_url":"a","ios_url":"i","pc_url":"p"}}"#
    );
    let div = InteractiveElement::Div { text: None, fields: None, extra: Some(()) };
    assert_eq!(div.to_json().to_text(), r#"{"tag":"div","extra":null}"#);
}

#[test]
fn other_languages() {
    let body = PostBody::EnUs(PostBodyContent { title: "T".to_string(), content: vec![] });
    assert_eq!(body.to_json().to_text(), r#"{"en_us":{"title":"T","content":[]}}"#);
    let body = PostBody::JaJp(PostBodyContent { title: "T".to_string(), content: vec![vec![]] });
    assert_eq!(body.to_json().to_text(), r#"{"ja_jp":{"title":"T","content":[[]]}}"#);
    let message = Message::Post { post: body };
    assert!(message.payload().starts_with(r#"{"msg_type":"post","content":{"post":{"ja_jp":"#));
}

#[test]
fn strings_are_escaped() {
    let message = Message::new_text("a\"b\\c\nd\u{1}");
    assert_eq!(
        message.payload(),
        r#"{"msg_type":"text","content":{"text":"a\"b\\c\nd\u0001"}}"#
    );
    assert_eq!(parse(&message.payload())["content"]["text"], "a\"b\\c\nd\u{1}");
    let odd = Json::Object(vec![Member { key: "k\"".to_string(), value: Json::Str("é".to_string()) }]);
    assert_eq!(odd.to_text(), "{\"k\\\"\":\"é\"}");
}

#[test]
fn numbers_are_decimal() {
    assert_eq!(Json::Number(0).to_text(), "0");
    assert_eq!(Json::Number(7).to_text(), "7");
    assert_eq!(Json::Number(120).to_text(), "120");
    assert_eq!(Json::Number(-5).to_text(), "-5");
    assert_eq!(Json::Number(i64::MAX).to_text(), "9223372036854775807");
    assert_eq!(Json::Number(i64::MIN).to_text(), "-9223372036854775808");
    assert_eq!(Json::number(4294967295).to_text(), "4294967295");
}

#[test]
fn documents_as_text() {
    assert_eq!(Json::Null.to_text(), "null");
    assert_eq!(Json::Bool(true).to_text(), "true");
    assert_eq!(Json::Bool(false).to_text(), "false");
    assert_eq!(Json::Array(vec![]).to_text(), "[]");
    assert_eq!(Json::Object(vec![]).to_text(), "{}");
    assert_eq!(Json::string("s").to_text(), r#""s""#);
    let nested = Json::array(vec![
        Json::Number(1),
        Json::Array(vec![Json::Null]),
        Json::Object(vec![
            Member { key: "a".to_string(), value: Json::Bool(false) },
            Member { key: "b".to_string(), value: Json::Array(vec![]) },
        ]),
    ]);
    assert_eq!(nested.to_text(), r#"[1,[null],{"a":false,"b":[]}]"#);
    assert_eq!(nested.copy(), nested);
}

#[test]
fn webhook_address() {
    assert_eq!(hook_url("abc"), "https://open.feishu.cn/open-apis/bot/v2/hook/abc");
    assert_eq!(resolve_token(Some("t".to_string())), "t");
    assert_eq!(resolve_token(None), "7c161133-e77c-4df8-bd5c-8ae1c1700bf6");
    let request = Message::new_text("hi").request(None);
    assert_eq!(
        request.url,
        "https://open.feishu.cn/open-apis/bot/v2/hook/7c161133-e77c-4df8-bd5c-8ae1c1700bf6"
    );
    assert_eq!(request.body, r#"{"msg_type":"text","content":{"text":"hi"}}"#);
    let request = Message::new_text("hi").request(Some("tok".to_string()));
    assert_eq!(request.url, "https://open.feishu.cn/open-apis/bot/v2/hook/tok");
}

#[test]
fn objects_are_built_member_by_member() {
    let mut builder = ObjectBuilder::new();
    builder.member("a", Json::number(1));
    builder.optional("b", None);
    builder.optional("c", Json::optional_bool(&Some(true)));
    builder.optional("d", Json::optional_string(&None));
    builder.optional("e", Json::optional_string(&Some("s".to_string())));
    builder.optional("f", Json::optional_number(&Some(2)));
    builder.optional("g", Json::optional_copy(&Some(Json::Null)));
    let object = builder.build();
    assert_eq!(object.to_text(), r#"{"a":1,"c":true,"e":"s","f":2,"g":null}"#);
    assert_eq!(ObjectBuilder::new().build(), Json::Object(vec![]));
}
