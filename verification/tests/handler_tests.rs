use chat_router::dispatch::{complete, Awaiting, Fetched};
use chat_router::fetch::{fetch_json, Delivery, FetchError};
use chat_router::handlers::{
    getblogs, getghorginfo, getghorgmembers, gethealth, getip, ping, Blogs, Envelope, Welcome,
};
use chat_router::model::{
    Blog, Content, EmbedField, EmbedSpec, Entry, HandlerResult, Member, Organization, OutboundSend,
};
use chat_router::mention::Mention;
use chat_router::outbox::Outbox;
use chat_router::render::{conclude, render};

fn entry(key: &str, value: &str) -> Entry {
    Entry { key: key.to_string(), value: value.to_string() }
}

fn blog(title: &str, content: &str) -> Blog {
    Blog {
        id: "1".to_string(),
        slug: "s".to_string(),
        title: title.to_string(),
        content: content.to_string(),
    }
}

fn organization() -> Organization {
    Organization {
        name: "Rust".to_string(),
        description: "The language".to_string(),
        avatar_url: "https://img/rust.png".to_string(),
        html_url: "https://github.com/rust-lang".to_string(),
        company: Some("rustlang".to_string()),
        blog: Some("https://blog.rust-lang.org".to_string()),
        location: Some("Everywhere".to_string()),
        email: Some("core@rust-lang.org".to_string()),
        public_repos: 217,
    }
}

fn field(name: &str, value: &str) -> EmbedField {
    EmbedField { name: name.to_string(), value: value.to_string(), inline: true }
}

#[test]
fn ping_is_pong() {
    assert_eq!(ping(), HandlerResult::PlainText("Pong!".to_string()));
}

#[test]
fn fetch_json_tells_failures_apart() {
    assert_eq!(fetch_json::<u8>(Delivery::Unreachable), Err(FetchError::Transport));
    assert_eq!(
        fetch_json(Delivery::Answered { status: 404, body: Some(1u8) }),
        Err(FetchError::HttpStatus(404))
    );
    assert_eq!(
        fetch_json::<u8>(Delivery::Answered { status: 500, body: None }),
        Err(FetchError::HttpStatus(500))
    );
    assert_eq!(
        fetch_json::<u8>(Delivery::Answered { status: 200, body: None }),
        Err(FetchError::Decode)
    );
    assert_eq!(fetch_json(Delivery::Answered { status: 200, body: Some(5u8) }), Ok(5u8));
}

#[test]
fn fetch_json_success_range_is_2xx() {
    assert_eq!(
        fetch_json(Delivery::Answered { status: 199, body: Some(1u8) }),
        Err(FetchError::HttpStatus(199))
    );
    assert_eq!(fetch_json(Delivery::Answered { status: 200, body: Some(1u8) }), Ok(1));
    assert_eq!(fetch_json(Delivery::Answered { status: 299, body: Some(1u8) }), Ok(1));
    assert_eq!(
        fetch_json(Delivery::Answered { status: 300, body: Some(1u8) }),
        Err(FetchError::HttpStatus(300))
    );
}

#[test]
fn getip_extracts_origin() {
    let got = getip(Ok(vec![entry("other", "x"), entry("origin", "1.2.3.4")]));
    assert_eq!(got, Ok(HandlerResult::PlainText("1.2.3.4".to_string())));
}

#[test]
fn getip_missing_origin_is_decode_error() {
    assert_eq!(getip(Ok(vec![entry("Origin", "1.2.3.4")])), Err(FetchError::Decode));
    assert_eq!(getip(Ok(vec![])), Err(FetchError::Decode));
}

#[test]
fn getip_hands_failure_on() {
    assert_eq!(getip(Err(FetchError::Transport)), Err(FetchError::Transport));
    assert_eq!(getip(Err(FetchError::HttpStatus(503))), Err(FetchError::HttpStatus(503)));
}

#[test]
fn gethealth_round_trip() {
    let envelope = Envelope { data: Welcome { welcome: "ok".to_string() } };
    assert_eq!(gethealth(Ok(envelope)), Ok(HandlerResult::PlainText("ok".to_string())));
    assert_eq!(gethealth(Err(FetchError::Decode)), Err(FetchError::Decode));
}

#[test]
fn getblogs_two_records_give_two_embeds_in_order() {
    let envelope = Envelope { data: Blogs { blogs: vec![blog("First", "<p>a</p>"), blog("Second", "b")] } };
    let result = getblogs(Ok(envelope)).unwrap();
    let expected = vec![
        EmbedSpec {
            title: "First".to_string(),
            description: "```html\n                    <p>a</p>\n                    ```".to_string(),
            image_url: None,
            fields: vec![],
        },
        EmbedSpec {
            title: "Second".to_string(),
            description: "```html\n                    b\n                    ```".to_string(),
            image_url: None,
            fields: vec![],
        },
    ];
    assert_eq!(result, HandlerResult::EmbedBatch(expected.clone()));
    let sent = render(result, 7, None);
    assert_eq!(
        sent,
        vec![
            OutboundSend { channel_ref: 7, content: Content::Embed(expected[0].clone()) },
            OutboundSend { channel_ref: 7, content: Content::Embed(expected[1].clone()) },
        ]
    );
}

#[test]
fn getblogs_empty_list_and_failure() {
    let envelope = Envelope { data: Blogs { blogs: vec![] } };
    assert_eq!(getblogs(Ok(envelope)), Ok(HandlerResult::EmbedBatch(vec![])));
    assert_eq!(getblogs(Err(FetchError::Transport)), Err(FetchError::Transport));
}

#[test]
fn getghorginfo_renders_seven_fields() {
    let result = getghorginfo(Ok(organization()));
    let expected = EmbedSpec {
        title: "Rust".to_string(),
        description: "The language".to_string(),
        image_url: Some("https://img/rust.png".to_string()),
        fields: vec![
            field("Location", "Everywhere"),
            field("Email", "core@rust-lang.org"),
            field("Company", "rustlang"),
            field("Link", "https://github.com/rust-lang"),
            field("Blog", "https://blog.rust-lang.org"),
            field("Twitter", "https://twitter.com/rustlang"),
            field("Public Repos", "217"),
        ],
    };
    assert_eq!(result, Ok(HandlerResult::EmbedBatch(vec![expected])));
}

#[test]
fn getghorginfo_missing_optionals_show_placeholder() {
    let mut org = organization();
    org.email = None;
    org.blog = None;
    org.location = None;
    let result = getghorginfo(Ok(org)).unwrap();
    match result {
        HandlerResult::EmbedBatch(embeds) => {
            assert_eq!(embeds.len(), 1);
            assert_eq!(
                embeds[0].fields,
                vec![
                    field("Location", "-"),
                    field("Email", "-"),
                    field("Company", "rustlang"),
                    field("Link", "https://github.com/rust-lang"),
                    field("Blog", "-"),
                    field("Twitter", "https://twitter.com/rustlang"),
                    field("Public Repos", "217"),
                ]
            );
        }
        other => panic!("unexpected result {:?}", other),
    }
}

#[test]
fn getghorginfo_twitter_follows_company() {
    let mut org = organization();
    org.company = None;
    org.public_repos = 0;
    match getghorginfo(Ok(org)).unwrap() {
        HandlerResult::EmbedBatch(embeds) => {
            let names: Vec<&str> = embeds[0].fields.iter().map(|f| f.name.as_str()).collect();
            assert_eq!(
                names,
                vec!["Location", "Email", "Company", "Link", "Blog", "Twitter", "Public Repos"]
            );
            assert_eq!(embeds[0].fields[2].value, "-");
            assert_eq!(embeds[0].fields[5].value, "-");
            assert_eq!(embeds[0].fields[6].value, "0");
            assert!(embeds[0].fields.iter().all(|f| f.inline));
        }
        other => panic!("unexpected result {:?}", other),
    }
    assert_eq!(getghorginfo(Err(FetchError::HttpStatus(404))), Err(FetchError::HttpStatus(404)));
}

#[test]
fn getghorgmembers_one_embed_per_member() {
    let members = vec![
        Member {
            login: "a".to_string(),
            html_url: "https://github.com/a".to_string(),
            avatar_url: "https://img/a".to_string(),
        },
        Member {
            login: "b".to_string(),
            html_url: "https://github.com/b".to_string(),
            avatar_url: "https://img/b".to_string(),
        },
    ];
    let expected = vec![
        EmbedSpec {
            title: "a".to_string(),
            description: "https://github.com/a".to_string(),
            image_url: Some("https://img/a".to_string()),
            fields: vec![],
        },
        EmbedSpec {
            title: "b".to_string(),
            description: "https://github.com/b".to_string(),
            image_url: Some("https://img/b".to_string()),
            fields: vec![],
        },
    ];
    assert_eq!(getghorgmembers(Ok(members)), Ok(HandlerResult::EmbedBatch(expected)));
    assert_eq!(getghorgmembers(Ok(vec![])), Ok(HandlerResult::EmbedBatch(vec![])));
    assert_eq!(getghorgmembers(Err(FetchError::Decode)), Err(FetchError::Decode));
}

#[test]
fn render_plain_text_is_one_message() {
    assert_eq!(
        render(HandlerResult::PlainText("hi".to_string()), 3, None),
        vec![OutboundSend { channel_ref: 3, content: Content::PlainText("hi".to_string()) }]
    );
    assert_eq!(render(HandlerResult::EmbedBatch(vec![]), 3, None), vec![]);
}

#[test]
fn conclude_acknowledges_failure_generically() {
    let expected = vec![OutboundSend {
        channel_ref: 5,
        content: Content::PlainText(
            "Sorry, something went wrong while handling that command.".to_string(),
        ),
    }];
    assert_eq!(conclude(Err(FetchError::Transport), 5), expected);
    assert_eq!(conclude(Err(FetchError::HttpStatus(500)), 5), expected);
    assert_eq!(conclude(Err(FetchError::Decode), 5), expected);
    assert_eq!(
        conclude(Ok(HandlerResult::PlainText("ok".to_string())), 5),
        vec![OutboundSend { channel_ref: 5, content: Content::PlainText("ok".to_string()) }]
    );
}

#[test]
fn complete_hands_record_to_its_handler() {
    assert_eq!(
        complete(Awaiting::Ip, Ok(Fetched::Ip(vec![entry("origin", "9.9.9.9")]))),
        Ok(HandlerResult::PlainText("9.9.9.9".to_string()))
    );
    assert_eq!(
        complete(
            Awaiting::Health,
            Ok(Fetched::Health(Envelope { data: Welcome { welcome: "ok".to_string() } }))
        ),
        Ok(HandlerResult::PlainText("ok".to_string()))
    );
    assert_eq!(
        complete(Awaiting::Blogs, Ok(Fetched::Blogs(Envelope { data: Blogs { blogs: vec![] } }))),
        Ok(HandlerResult::EmbedBatch(vec![]))
    );
    assert_eq!(
        complete(Awaiting::Members, Ok(Fetched::Members(vec![]))),
        Ok(HandlerResult::EmbedBatch(vec![]))
    );
    assert_eq!(
        complete(Awaiting::Organization, Ok(Fetched::Organization(organization()))),
        getghorginfo(Ok(organization()))
    );
}

#[test]
fn complete_rejects_a_record_of_another_shape() {
    assert_eq!(complete(Awaiting::Ip, Ok(Fetched::Members(vec![]))), Err(FetchError::Decode));
    assert_eq!(
        complete(Awaiting::StoryIndex, Ok(Fetched::Ip(vec![entry("origin", "1")]))),
        Err(FetchError::Decode)
    );
    assert_eq!(
        complete(Awaiting::Health, Err(FetchError::HttpStatus(418))),
        Err(FetchError::HttpStatus(418))
    );
    assert_eq!(complete(Awaiting::Blogs, Err(FetchError::Transport)), Err(FetchError::Transport));
}

fn text(target: u64, body: &str) -> OutboundSend {
    OutboundSend { channel_ref: target, content: Content::PlainText(body.to_string()) }
}

#[test]
fn outbox_attempts_every_message_in_order() {
    let mut outbox = Outbox::new(vec![text(1, "a"), text(1, "b"), text(1, "c")]);
    let mut seen = Vec::new();
    let outcomes = [true, false, true];
    let mut k = 0;
    loop {
        match outbox.current() {
            None => break,
            Some(m) => seen.push(m.clone()),
        }
        outbox = outbox.record(outcomes[k]);
        k += 1;
    }
    assert_eq!(seen, vec![text(1, "a"), text(1, "b"), text(1, "c")]);
    assert_eq!(*outbox.failures(), vec![1]);
}

#[test]
fn outbox_goes_on_after_failures() {
    let outbox = Outbox::new(vec![text(1, "a"), text(1, "b")]);
    let outbox = outbox.record(false);
    assert_eq!(outbox.current(), Some(&text(1, "b")));
    let outbox = outbox.record(false);
    assert_eq!(outbox.current(), None);
    assert_eq!(*outbox.failures(), vec![0, 1]);
    let outbox = outbox.record(false);
    assert_eq!(outbox.current(), None);
    assert_eq!(*outbox.failures(), vec![0, 1]);
}

#[test]
fn empty_outbox_has_nothing_to_send() {
    let outbox = Outbox::new(vec![]);
    assert_eq!(outbox.current(), None);
    assert!(outbox.failures().is_empty());
}

#[test]
fn render_decorates_plain_text_on_opt_in() {
    let who = Mention { author_name: "ann".to_string(), command: "ping".to_string() };
    assert_eq!(
        render(HandlerResult::PlainText("hi".to_string()), 3, Some(who.clone())),
        vec![text(3, "hi\nUser **ann** used the 'ping' command in the <#3> channel")]
    );
    let embed = EmbedSpec {
        title: "t".to_string(),
        description: "d".to_string(),
        image_url: None,
        fields: vec![],
    };
    assert_eq!(
        render(HandlerResult::EmbedBatch(vec![embed.clone()]), 3, Some(who)),
        vec![OutboundSend { channel_ref: 3, content: Content::Embed(embed) }]
    );
}

#[test]
fn getip_does_not_depend_on_entry_order() {
    let a = vec![entry("origin", "1.2.3.4"), entry("via", "x"), entry("host", "h")];
    let b = vec![entry("host", "h"), entry("via", "x"), entry("origin", "1.2.3.4")];
    assert_eq!(getip(Ok(a)), getip(Ok(b)));
    assert_eq!(
        getip(Ok(vec![entry("via", "x"), entry("origin", "5.6.7.8")])),
        Ok(HandlerResult::PlainText("5.6.7.8".to_string()))
    );
}
