//! The news command: one fetch for the list of story identifiers, then one
//! detail fetch per identifier, each answered by one message, in list
//! order and never beyond the first thirty.

use vstd::prelude::*;
use crate::fetch::{FetchError, Request, RequestView};
use crate::handlers::{get_request, plain_get};
use crate::model::{HandlerResult, HandlerResultView, Story};
use crate::text::{concat3, decimal, decimal_string, option_view};

verus! {

/// How many stories one invocation shows at most. This is a policy of the
/// command, not a limit of the server.
pub const STORY_LIMIT: usize = 30;

/// The number of detail fetches for a list of identifiers.
pub open spec fn story_count(ids: Seq<u32>) -> nat {
    if ids.len() < STORY_LIMIT {
        ids.len()
    } else {
        STORY_LIMIT as nat
    }
}

/// The request for the details of one story.
pub open spec fn detail_request(id: u32) -> RequestView {
    plain_get(
        "https://hacker-news.firebaseio.com/v0/item/"@ + decimal(id as nat) + ".json"@,
    )
}

/// Every detail request that a list of identifiers gives rise to, in the
/// order in which they are issued.
pub open spec fn detail_requests(ids: Seq<u32>) -> Seq<RequestView> {
    Seq::new(story_count(ids), |i: int| detail_request(ids[i]))
}

/// The address shown for a story; a story without one shows `none`.
pub open spec fn story_link(url: Option<Seq<char>>) -> Seq<char> {
    match url {
        Some(u) => u,
        None => "none"@,
    }
}

/// The text of the message that shows one story.
pub open spec fn story_text(story: Story) -> Seq<char> {
    "{\ntitle: "@ + story.title@ + "\nby: "@ + story.by@ + "\nurl: "@ + story_link(
        option_view(story.url),
    ) + "\n}"@
}

/// The request for the list of top story identifiers.
pub fn gethnpost_request() -> (r: Request)
    ensures
        r@ == plain_get("https://hacker-news.firebaseio.com/v0/topstories.json"@),
{
    get_request(String::from_str("https://hacker-news.firebaseio.com/v0/topstories.json"))
}

/// Renders one story as a plain-text message.
pub fn story_message(story: &Story) -> (r: HandlerResult)
    ensures
        r@ == HandlerResultView::PlainText(story_text(*story)),
{
    let mut text: String = String::from_str("{\ntitle: ");
    text.append(story.title.as_str());
    text.append("\nby: ");
    text.append(story.by.as_str());
    text.append("\nurl: ");
    match &story.url {
        Some(u) => text.append(u.as_str()),
        None => text.append("none"),
    }
    text.append("\n}");
    HandlerResult::PlainText(text)
}

/// The progress of one invocation of the news command: the identifiers
/// it was given, how many stories it has shown, and whether a fetch
/// failed.
pub struct StoryRun {
    ids: Vec<u32>,
    delivered: usize,
    failed: bool,
}

/// What a [`StoryRun`] holds, as plain values.
pub struct StoryRunView {
    pub ids: Seq<u32>,
    pub delivered: nat,
    pub failed: bool,
}

impl StoryRunView {
    /// A run never shows more stories than it fetches.
    pub open spec fn wf(self) -> bool {
        self.delivered <= story_count(self.ids)
    }

    /// The request that the run waits for: the detail request of the next
    /// identifier while fewer than the bound have been shown and nothing
    /// failed, and none afterwards.
    pub open spec fn pending(self) -> Option<RequestView> {
        if !self.failed && self.delivered < story_count(self.ids) {
            Some(detail_request(self.ids[self.delivered as int]))
        } else {
            None
        }
    }

    /// The run after one more story was shown.
    pub open spec fn advanced(self) -> StoryRunView {
        StoryRunView { ids: self.ids, delivered: self.delivered + 1, failed: self.failed }
    }

    /// The run after a fetch failed: nothing more is asked for.
    pub open spec fn aborted(self) -> StoryRunView {
        StoryRunView { ids: self.ids, delivered: self.delivered, failed: true }
    }
}

/// A fresh run over `ids`.
pub open spec fn fresh_run(ids: Seq<u32>) -> StoryRunView {
    StoryRunView { ids, delivered: 0, failed: false }
}

/// The view of an optional request.
pub open spec fn request_option_view(r: Option<Request>) -> Option<RequestView> {
    match r {
        Some(req) => Some(req@),
        None => None,
    }
}

/// What delivering a fetched story does to a run and what it emits: with
/// no request pending the answer is dropped; a story advances the run and
/// becomes one message; a failure aborts the run and is handed on.
pub open spec fn deliver_outcome(run: StoryRunView, fetched: Result<Story, FetchError>) -> (
    StoryRunView,
    Option<Result<HandlerResultView, FetchError>>,
) {
    if run.pending() is None {
        (run, None)
    } else {
        match fetched {
            Ok(story) => (
                run.advanced(),
                Some(Ok(HandlerResultView::PlainText(story_text(story)))),
            ),
            Err(e) => (run.aborted(), Some(Err(e))),
        }
    }
}

/// The view of what a delivery emits.
pub open spec fn emitted_view(r: Option<Result<HandlerResult, FetchError>>) -> Option<
    Result<HandlerResultView, FetchError>,
> {
    match r {
        Some(Ok(v)) => Some(Ok(v@)),
        Some(Err(e)) => Some(Err(e)),
        None => None,
    }
}

impl View for StoryRun {
    type V = StoryRunView;

    closed spec fn view(&self) -> StoryRunView {
        StoryRunView {
            ids: self.ids@,
            delivered: self.delivered as nat,
            failed: self.failed,
        }
    }
}

impl StoryRun {
    #[verifier::type_invariant]
    spec fn inv(self) -> bool {
        self.delivered <= story_count(self.ids@)
    }

    /// Starts a run over the identifiers that the index returned.
    pub fn start(ids: Vec<u32>) -> (run: StoryRun)
        ensures
            run@ == fresh_run(ids@),
            run@.wf(),
    {
        StoryRun { ids, delivered: 0, failed: false }
    }

    /// The number of stories shown so far.
    pub fn delivered(&self) -> (n: usize)
        ensures
            n == self@.delivered,
    {
        self.delivered
    }

    /// Tells whether a fetch failed and ended the run.
    pub fn failed(&self) -> (b: bool)
        ensures
            b == self@.failed,
    {
        self.failed
    }

    /// The detail request to issue next, if any.
    pub fn next_request(&self) -> (r: Option<Request>)
        ensures
            self@.wf(),
            request_option_view(r) == self@.pending(),
    {
        proof {
            use_type_invariant(self);
        }
        if !self.failed && self.delivered < self.ids.len() && self.delivered < STORY_LIMIT {
            let id: u32 = self.ids[self.delivered];
            let url: String = concat3(
                "https://hacker-news.firebaseio.com/v0/item/",
                decimal_string(id as u64).as_str(),
                ".json",
            );
            Some(get_request(url))
        } else {
            None
        }
    }

    /// Hands the answer to the pending request to the run.
    pub fn deliver(self, fetched: Result<Story, FetchError>) -> (r: (
        StoryRun,
        Option<Result<HandlerResult, FetchError>>,
    ))
        ensures
            (r.0@, emitted_view(r.1)) == deliver_outcome(self@, fetched),
            r.0@.wf(),
    {
        proof {
            use_type_invariant(&self);
        }
        if self.failed || self.delivered >= self.ids.len() || self.delivered >= STORY_LIMIT {
            (self, None)
        } else {
            match fetched {
                Ok(story) => {
                    let message = story_message(&story);
                    let next = StoryRun {
                        ids: self.ids,
                        delivered: self.delivered + 1,
                        failed: false,
                    };
                    (next, Some(Ok(message)))
                },
                Err(e) => {
                    let next = StoryRun { ids: self.ids, delivered: self.delivered, failed: true };
                    (next, Some(Err(e)))
                },
            }
        }
    }
}

/// The first stage of the news command: a fetched list of identifiers
/// starts a run; a failed fetch is handed on.
pub fn gethnpost(fetched: Result<Vec<u32>, FetchError>) -> (r: Result<StoryRun, FetchError>)
    ensures
        match fetched {
            Ok(ids) => r is Ok && r->Ok_0@ == fresh_run(ids@),
            Err(e) => r == Err::<StoryRun, FetchError>(e),
        },
{
    match fetched {
        Ok(ids) => Ok(StoryRun::start(ids)),
        Err(e) => Err(e),
    }
}

/// A list of identifiers gives rise to as many detail requests as it has
/// identifiers, but never more than thirty, and the request at each
/// position is the one for the identifier at that position.
pub proof fn lemma_detail_requests_follow_ids(ids: Seq<u32>)
    ensures
        detail_requests(ids).len() == if ids.len() < 30 { ids.len() } else { 30 },
        forall|i: int|
            0 <= i < detail_requests(ids).len() ==> #[trigger] detail_requests(ids)[i]
                == detail_request(ids[i]),
{
}

/// The run over `ids` after the stories in `stories` were fetched and
/// delivered, one after the other.
pub open spec fn run_after(ids: Seq<u32>, stories: Seq<Story>) -> StoryRunView
    decreases stories.len(),
{
    if stories.len() == 0 {
        fresh_run(ids)
    } else {
        deliver_outcome(run_after(ids, stories.drop_last()), Ok(stories.last())).0
    }
}

/// What the delivery of the story at position `i` emits, after those
/// before it were delivered.
pub open spec fn emitted_at(ids: Seq<u32>, stories: Seq<Story>, i: int) -> Option<
    Result<HandlerResultView, FetchError>,
> {
    deliver_outcome(run_after(ids, stories.take(i)), Ok(stories[i])).1
}

/// A run in which every fetch succeeds issues exactly the detail requests
/// of its list and answers each with one message, in list order: after
/// `k` stories the pending request is the one at position `k`, the story
/// at each position became the message at that position, and once as
/// many stories were shown as there are detail requests, nothing is
/// pending.
pub proof fn lemma_run_follows_the_list(ids: Seq<u32>, stories: Seq<Story>)
    requires
        stories.len() <= story_count(ids),
    ensures
        run_after(ids, stories) == (StoryRunView {
            ids,
            delivered: stories.len(),
            failed: false,
        }),
        run_after(ids, stories).wf(),
        stories.len() < story_count(ids) ==> run_after(ids, stories).pending() == Some(
            detail_requests(ids)[stories.len() as int],
        ),
        stories.len() == story_count(ids) ==> run_after(ids, stories).pending() is None,
        forall|i: int|
            0 <= i < stories.len() ==> #[trigger] emitted_at(ids, stories, i) == Some(
                Ok::<HandlerResultView, FetchError>(
                    HandlerResultView::PlainText(story_text(stories[i])),
                ),
            ),
    decreases stories.len(),
{
    if stories.len() > 0 {
        lemma_run_follows_the_list(ids, stories.drop_last());
    }
    assert forall|i: int| 0 <= i < stories.len() implies #[trigger] emitted_at(ids, stories, i)
        == Some(
        Ok::<HandlerResultView, FetchError>(HandlerResultView::PlainText(story_text(stories[i]))),
    ) by {
        lemma_run_follows_the_list(ids, stories.take(i));
    }
}

} // verus!
