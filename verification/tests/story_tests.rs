use chat_router::mention::{compose_decorated, compose_notice, decorate, mention_notice, Mention};
use chat_router::fetch::{FetchError, Method, Request};
use chat_router::model::{HandlerResult, Story};
use chat_router::stories::{gethnpost, gethnpost_request, story_message, StoryRun, STORY_LIMIT};

fn story(title: &str, url: Option<&str>) -> Story {
    Story { title: title.to_string(), by: "pg".to_string(), url: url.map(|u| u.to_string()) }
}

fn detail(id: u32) -> Request {
    Request {
        method: Method::Get,
        url: format!("https://hacker-news.firebaseio.com/v0/item/{}.json", id),
        headers: vec![],
        body: None,
    }
}

fn drive(ids: Vec<u32>) -> (Vec<Request>, Vec<HandlerResult>) {
    let mut run = StoryRun::start(ids);
    let mut requests = Vec::new();
    let mut messages = Vec::new();
    loop {
        let request = match run.next_request() {
            Some(r) => r,
            None => break,
        };
        let title = request.url.clone();
        requests.push(request);
        let (next, emitted) = run.deliver(Ok(story(&title, None)));
        run = next;
        messages.push(emitted.unwrap().unwrap());
    }
    assert_eq!(run.delivered(), messages.len());
    assert!(!run.failed());
    (requests, messages)
}

#[test]
fn story_index_request() {
    assert_eq!(
        gethnpost_request(),
        Request {
            method: Method::Get,
            url: "https://hacker-news.firebaseio.com/v0/topstories.json".to_string(),
            headers: vec![],
            body: None,
        }
    );
}

#[test]
fn story_limit_is_thirty() {
    assert_eq!(STORY_LIMIT, 30);
}

#[test]
fn story_text_with_and_without_url() {
    assert_eq!(
        story_message(&story("T", Some("https://x"))),
        HandlerResult::PlainText("{\ntitle: T\nby: pg\nurl: https://x\n}".to_string())
    );
    assert_eq!(
        story_message(&story("T", None)),
        HandlerResult::PlainText("{\ntitle: T\nby: pg\nurl: none\n}".to_string())
    );
}

#[test]
fn short_list_fetches_each_story_in_order() {
    let (requests, messages) = drive(vec![9, 4, 4000000000]);
    assert_eq!(requests, vec![detail(9), detail(4), detail(4000000000)]);
    assert_eq!(messages.len(), 3);
    assert_eq!(
        messages[1],
        HandlerResult::PlainText(
            "{\ntitle: https://hacker-news.firebaseio.com/v0/item/4.json\nby: pg\nurl: none\n}"
                .to_string()
        )
    );
}

#[test]
fn long_list_stops_after_thirty() {
    let ids: Vec<u32> = (100..600).collect();
    let (requests, messages) = drive(ids);
    assert_eq!(requests.len(), 30);
    assert_eq!(messages.len(), 30);
    for (i, r) in requests.iter().enumerate() {
        assert_eq!(*r, detail(100 + i as u32));
    }
}

#[test]
fn exactly_thirty_and_thirty_one() {
    assert_eq!(drive((0..30).collect()).0.len(), 30);
    assert_eq!(drive((0..31).collect()).0.len(), 30);
    assert_eq!(drive((0..29).collect()).0.len(), 29);
}

#[test]
fn empty_list_fetches_nothing() {
    let (requests, messages) = drive(vec![]);
    assert!(requests.is_empty());
    assert!(messages.is_empty());
}

#[test]
fn failed_story_fetch_aborts_the_rest() {
    let run = StoryRun::start(vec![1, 2, 3]);
    let (run, first) = run.deliver(Ok(story("a", None)));
    assert!(matches!(first, Some(Ok(_))));
    let (run, second) = run.deliver(Err(FetchError::HttpStatus(500)));
    assert_eq!(second, Some(Err(FetchError::HttpStatus(500))));
    assert!(run.failed());
    assert_eq!(run.delivered(), 1);
    assert_eq!(run.next_request(), None);
    let (run, third) = run.deliver(Ok(story("c", None)));
    assert_eq!(third, None);
    assert_eq!(run.delivered(), 1);
}

#[test]
fn answer_without_pending_request_is_dropped() {
    let run = StoryRun::start(vec![]);
    let (run, emitted) = run.deliver(Ok(story("a", None)));
    assert_eq!(emitted, None);
    assert_eq!(run.delivered(), 0);
    assert!(!run.failed());
}

#[test]
fn index_failure_starts_no_run() {
    assert!(matches!(gethnpost(Err(FetchError::Transport)), Err(FetchError::Transport)));
    let run = gethnpost(Ok(vec![5])).ok().unwrap();
    assert_eq!(run.next_request(), Some(detail(5)));
    assert_eq!(run.delivered(), 0);
}

fn mention(author: &str, command: &str) -> Mention {
    Mention { author_name: author.to_string(), command: command.to_string() }
}

#[test]
fn notice_names_author_in_bold_and_mentions_channel() {
    assert_eq!(
        mention_notice(&mention("ann", "ping"), 81384788765712384),
        "User **ann** used the 'ping' command in the <#81384788765712384> channel"
    );
    assert_eq!(
        mention_notice(&mention("a**b", "ping"), 0),
        "User **a b** used the 'ping' command in the <#0> channel"
    );
    assert_eq!(
        mention_notice(&mention("@everyone", "getip"), 7),
        "User **@\u{200B}everyone** used the 'getip' command in the <#7> channel"
    );
}

#[test]
fn notice_is_composed_around_the_given_name() {
    assert_eq!(
        compose_notice("X", "ping", 12),
        "User X used the 'ping' command in the <#12> channel"
    );
    assert_eq!(
        compose_notice("", "", u64::MAX),
        "User  used the '' command in the <#18446744073709551615> channel"
    );
}

#[test]
fn decoration_puts_the_notice_under_the_reply() {
    assert_eq!(compose_decorated("Pong!", "N"), "Pong!\nN");
    assert_eq!(compose_decorated("", ""), "\n");
    assert_eq!(
        decorate("Pong!", &mention("ann", "ping"), 42),
        "Pong!\nUser **ann** used the 'ping' command in the <#42> channel"
    );
}
