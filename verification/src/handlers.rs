//! The business logic of each command: which request it asks for and how
//! the record that comes back becomes a handler result.

use vstd::prelude::*;
use crate::fetch::{FetchError, Header, Method, Request, RequestView};
use crate::model::{
    embed_views, Blog, EmbedField, EmbedFieldView, EmbedSpec, EmbedSpecView, Entry,
    HandlerResult, HandlerResultView, Member, Organization, OrganizationView,
};
use crate::text::{concat2, concat3, decimal, decimal_string, or_placeholder, shown};

verus! {

/// A GET request without headers or body.
pub open spec fn plain_get(url: Seq<char>) -> RequestView {
    RequestView { method: Method::Get, url, headers: Seq::empty(), body: None }
}

/// A GET request that carries the identifying client header.
pub open spec fn identified_get(url: Seq<char>) -> RequestView {
    RequestView {
        method: Method::Get,
        url,
        headers: seq![("User-Agent"@, "My Rust Program 1.0"@)],
        body: None,
    }
}

/// A POST of a JSON document to the GraphQL-style endpoint.
pub open spec fn graphql_post(body: Seq<char>) -> RequestView {
    RequestView {
        method: Method::Post,
        url: "https://alfianguide-be.herokuapp.com/graphql"@,
        headers: seq![("Content-Type"@, "application/json"@)],
        body: Some(body),
    }
}

/// Builds a GET request without headers or body.
pub(crate) fn get_request(url: String) -> (r: Request)
    ensures
        r@ == plain_get(url@),
{
    let r = Request { method: Method::Get, url, headers: Vec::new(), body: None };
    assert(r@.headers =~= Seq::empty());
    r
}

fn identified_request(url: String) -> (r: Request)
    ensures
        r@ == identified_get(url@),
{
    let mut headers: Vec<Header> = Vec::new();
    headers.push(
        Header {
            name: String::from_str("User-Agent"),
            value: String::from_str("My Rust Program 1.0"),
        },
    );
    let r = Request { method: Method::Get, url, headers, body: None };
    assert(r@.headers =~= identified_get(url@).headers);
    r
}

fn graphql_request(body: &str) -> (r: Request)
    ensures
        r@ == graphql_post(body@),
{
    let mut headers: Vec<Header> = Vec::new();
    headers.push(
        Header {
            name: String::from_str("Content-Type"),
            value: String::from_str("application/json"),
        },
    );
    let r = Request {
        method: Method::Post,
        url: String::from_str("https://alfianguide-be.herokuapp.com/graphql"),
        headers,
        body: Some(String::from_str(body)),
    };
    assert(r@.headers =~= graphql_post(body@).headers);
    r
}

/// The view of what a handler returns.
pub open spec fn outcome_view(r: Result<HandlerResult, FetchError>) -> Result<
    HandlerResultView,
    FetchError,
> {
    match r {
        Ok(v) => Ok(v@),
        Err(e) => Err(e),
    }
}

/// An embed without image or fields.
pub open spec fn bare_embed(title: Seq<char>, description: Seq<char>) -> EmbedSpecView {
    EmbedSpecView { title, description, image_url: None, fields: Seq::empty() }
}

// ---------------------------------------------------------------- ping

/// Answers without any fetch.
pub fn ping() -> (r: HandlerResult)
    ensures
        r@ == HandlerResultView::PlainText("Pong!"@),
{
    HandlerResult::PlainText(String::from_str("Pong!"))
}

// --------------------------------------------------------------- getip

/// The request to the IP-echo endpoint.
pub fn getip_request() -> (r: Request)
    ensures
        r@ == plain_get("https://httpbin.org/ip"@),
{
    get_request(String::from_str("https://httpbin.org/ip"))
}

/// The value of the first entry at or after `i` whose key is `key`.
pub open spec fn value_of(entries: Seq<Entry>, key: Seq<char>, i: int) -> Option<Seq<char>>
    decreases entries.len() - i,
{
    if i < 0 || i >= entries.len() {
        None
    } else if entries[i].key@ == key {
        Some(entries[i].value@)
    } else {
        value_of(entries, key, i + 1)
    }
}

/// The entries as pairs of key and value.
pub open spec fn entry_pairs(entries: Seq<Entry>) -> Seq<(Seq<char>, Seq<char>)> {
    Seq::new(entries.len(), |i: int| (entries[i].key@, entries[i].value@))
}

/// The entries stand for a mapping: no key occurs twice.
pub open spec fn distinct_keys(entries: Seq<Entry>) -> bool {
    forall|i: int, j: int|
        0 <= i < j < entries.len() ==> (#[trigger] entries[i]).key@ != (#[trigger] entries[j]).key@
}

/// Two lists hold the same entries, in whatever order.
pub open spec fn same_entries(a: Seq<Entry>, b: Seq<Entry>) -> bool {
    forall|p: (Seq<char>, Seq<char>)|
        #[trigger] entry_pairs(a).contains(p) <==> entry_pairs(b).contains(p)
}

/// What a lookup finds is the value of some entry under the key, and it
/// finds nothing only where no entry has the key.
pub proof fn lemma_value_of_is_an_entry(entries: Seq<Entry>, key: Seq<char>, i: int)
    requires
        0 <= i,
    ensures
        match value_of(entries, key, i) {
            Some(v) => exists|j: int|
                i <= j < entries.len() && (#[trigger] entries[j]).key@ == key && entries[j].value@
                    == v,
            None => forall|j: int| i <= j < entries.len() ==> (#[trigger] entries[j]).key@ != key,
        },
    decreases entries.len() - i,
{
    if i < entries.len() {
        if entries[i].key@ == key {
            assert(entries[i].value@ == value_of(entries, key, i)->Some_0);
        } else {
            lemma_value_of_is_an_entry(entries, key, i + 1);
            match value_of(entries, key, i + 1) {
                Some(v) => {
                    let j = choose|j: int|
                        i + 1 <= j < entries.len() && (#[trigger] entries[j]).key@ == key
                            && entries[j].value@ == v;
                    assert(i <= j < entries.len() && entries[j].key@ == key && entries[j].value@
                        == v);
                },
                None => {
                    assert forall|j: int| i <= j < entries.len() implies (#[trigger] entries[j]).key@
                        != key by {
                        if j > i {
                            assert(i + 1 <= j);
                        }
                    }
                },
            }
        }
    }
}

/// In a mapping, the lookup of a key yields the value of the entry that
/// has the key, wherever it stands.
pub proof fn lemma_value_under_key(entries: Seq<Entry>, key: Seq<char>, j: int)
    requires
        distinct_keys(entries),
        0 <= j < entries.len(),
        entries[j].key@ == key,
    ensures
        value_of(entries, key, 0) == Some(entries[j].value@),
{
    lemma_value_of_is_an_entry(entries, key, 0);
    match value_of(entries, key, 0) {
        Some(v) => {
            let k = choose|k: int|
                0 <= k < entries.len() && (#[trigger] entries[k]).key@ == key && entries[k].value@
                    == v;
            if k < j {
                assert(entries[k].key@ != entries[j].key@);
            } else if j < k {
                assert(entries[j].key@ != entries[k].key@);
            }
        },
        None => {
            assert(entries[j].key@ != key);
        },
    }
}

/// The lookup does not depend on the order of a mapping's entries: two
/// lists without a repeated key that hold the same entries give the same
/// value for every key.
pub proof fn lemma_value_of_ignores_order(a: Seq<Entry>, b: Seq<Entry>, key: Seq<char>)
    requires
        distinct_keys(a),
        distinct_keys(b),
        same_entries(a, b),
    ensures
        value_of(a, key, 0) == value_of(b, key, 0),
{
    lemma_value_of_is_an_entry(a, key, 0);
    lemma_value_of_is_an_entry(b, key, 0);
    match value_of(a, key, 0) {
        Some(v) => {
            let j = choose|j: int|
                0 <= j < a.len() && (#[trigger] a[j]).key@ == key && a[j].value@ == v;
            assert(entry_pairs(a)[j] == (key, v));
            assert(entry_pairs(a).contains((key, v)));
            assert(entry_pairs(b).contains((key, v)));
            let m = choose|m: int| 0 <= m < entry_pairs(b).len() && entry_pairs(b)[m] == (key, v);
            lemma_value_under_key(b, key, m);
        },
        None => {
            match value_of(b, key, 0) {
                Some(w) => {
                    let m = choose|m: int|
                        0 <= m < b.len() && (#[trigger] b[m]).key@ == key && b[m].value@ == w;
                    assert(entry_pairs(b)[m] == (key, w));
                    assert(entry_pairs(b).contains((key, w)));
                    assert(entry_pairs(a).contains((key, w)));
                    let j = choose|j: int|
                        0 <= j < entry_pairs(a).len() && entry_pairs(a)[j] == (key, w);
                    assert(a[j].key@ == key);
                },
                None => {},
            }
        },
    }
}

/// What `getip` returns for a fetched mapping: the value under `origin`
/// as plain text, a decode failure where the key is missing, and the
/// fetch's own failure otherwise.
pub open spec fn getip_outcome(fetched: Result<Vec<Entry>, FetchError>) -> Result<
    HandlerResultView,
    FetchError,
> {
    match fetched {
        Err(e) => Err(e),
        Ok(entries) => match value_of(entries@, "origin"@, 0) {
            Some(v) => Ok(HandlerResultView::PlainText(v)),
            None => Err(FetchError::Decode),
        },
    }
}

/// Extracts the caller's address from the IP-echo mapping. The entries
/// stand for a mapping, so no key occurs twice among them; should one do
/// so all the same, the first entry under `origin` is taken.
pub fn getip(fetched: Result<Vec<Entry>, FetchError>) -> (r: Result<HandlerResult, FetchError>)
    ensures
        outcome_view(r) == getip_outcome(fetched),
{
    match fetched {
        Err(e) => Err(e),
        Ok(entries) => {
            let key: String = String::from_str("origin");
            let mut i: usize = 0;
            while i < entries.len()
                invariant
                    i <= entries.len(),
                    fetched == Ok::<Vec<Entry>, FetchError>(entries),
                    key@ == "origin"@,
                    value_of(entries@, key@, 0) == value_of(entries@, key@, i as int),
                decreases entries.len() - i,
            {
                if entries[i].key == key {
                    let value: String = entries[i].value.clone();
                    assert(value_of(entries@, key@, i as int) == Some(value@));
                    return Ok(HandlerResult::PlainText(value));
                }
                i = i + 1;
            }
            Err(FetchError::Decode)
        },
    }
}

// ----------------------------------------------------------- gethealth

/// The `data` envelope of a GraphQL-style response.
#[derive(Debug, Clone, PartialEq, Eq)]
pub struct Envelope<T> {
    pub data: T,
}

/// The payload of the health query.
#[derive(Debug, Clone, PartialEq, Eq)]
pub struct Welcome {
    pub welcome: String,
}

/// The payload of the blog-list query.
#[derive(Debug, Clone, PartialEq, Eq)]
pub struct Blogs {
    pub blogs: Vec<Blog>,
}

/// The request that asks the GraphQL-style endpoint for its greeting.
pub fn gethealth_request() -> (r: Request)
    ensures
        r@ == graphql_post("{\"query\":\"{welcome}\"}"@),
{
    graphql_request("{\"query\":\"{welcome}\"}")
}

/// What `gethealth` returns: the greeting inside the envelope, as it is.
pub open spec fn gethealth_outcome(fetched: Result<Envelope<Welcome>, FetchError>) -> Result<
    HandlerResultView,
    FetchError,
> {
    match fetched {
        Err(e) => Err(e),
        Ok(envelope) => Ok(HandlerResultView::PlainText(envelope.data.welcome@)),
    }
}

/// Unwraps the greeting from its envelope.
pub fn gethealth(fetched: Result<Envelope<Welcome>, FetchError>) -> (r: Result<
    HandlerResult,
    FetchError,
>)
    ensures
        outcome_view(r) == gethealth_outcome(fetched),
{
    match fetched {
        Err(e) => Err(e),
        Ok(envelope) => Ok(HandlerResult::PlainText(envelope.data.welcome)),
    }
}

// ------------------------------------------------------------ getblogs

/// The request that asks the GraphQL-style endpoint for the blog list.
pub fn getblogs_request() -> (r: Request)
    ensures
        r@ == graphql_post("{\"query\":\"{  blogs {   id    slug    title    content  } }\"}"@),
{
    graphql_request("{\"query\":\"{  blogs {   id    slug    title    content  } }\"}")
}

/// The preformatted block that shows a blog's content.
pub open spec fn content_block(content: Seq<char>) -> Seq<char> {
    "```html\n                    "@ + content + "\n                    ```"@
}

/// The embed that shows one blog post.
pub open spec fn blog_embed(blog: Blog) -> EmbedSpecView {
    bare_embed(blog.title@, content_block(blog.content@))
}

/// What `getblogs` returns: one embed per post, in the order returned.
pub open spec fn getblogs_outcome(fetched: Result<Envelope<Blogs>, FetchError>) -> Result<
    HandlerResultView,
    FetchError,
> {
    match fetched {
        Err(e) => Err(e),
        Ok(envelope) => Ok(
            HandlerResultView::EmbedBatch(
                Seq::new(envelope.data.blogs@.len(), |i: int| blog_embed(envelope.data.blogs@[i])),
            ),
        ),
    }
}

/// Renders the blog list, one embed per post.
pub fn getblogs(fetched: Result<Envelope<Blogs>, FetchError>) -> (r: Result<
    HandlerResult,
    FetchError,
>)
    ensures
        outcome_view(r) == getblogs_outcome(fetched),
{
    match fetched {
        Err(e) => Err(e),
        Ok(envelope) => {
            let blogs = &envelope.data.blogs;
            let mut out: Vec<EmbedSpec> = Vec::new();
            let mut i: usize = 0;
            while i < blogs.len()
                invariant
                    i <= blogs.len(),
                    out@.len() == i,
                    forall|k: int| 0 <= k < i ==> (#[trigger] out@[k])@ == blog_embed(blogs@[k]),
                decreases blogs.len() - i,
            {
                let blog = &blogs[i];
                let e = EmbedSpec {
                    title: blog.title.clone(),
                    description: concat3(
                        "```html\n                    ",
                        blog.content.as_str(),
                        "\n                    ```",
                    ),
                    image_url: None,
                    fields: Vec::new(),
                };
                assert(e@.fields =~= Seq::empty());
                out.push(e);
                i = i + 1;
            }
            assert(embed_views(out@) =~= Seq::new(
                blogs@.len(),
                |i: int| blog_embed(blogs@[i]),
            ));
            Ok(HandlerResult::EmbedBatch(out))
        },
    }
}

// -------------------------------------------------------- getghorginfo

/// The request for an organization's profile.
pub fn getghorginfo_request(org_name: &str) -> (r: Request)
    ensures
        r@ == identified_get("https://api.github.com/orgs/"@ + org_name@),
{
    identified_request(concat2("https://api.github.com/orgs/", org_name))
}

/// An inline field.
pub open spec fn inline_field(name: Seq<char>, value: Seq<char>) -> EmbedFieldView {
    EmbedFieldView { name, value, inline: true }
}

/// The value of the Twitter field. It is derived from the profile's
/// company attribute, which is appended to a fixed address; without a
/// company it is the placeholder.
pub open spec fn twitter_value(org: OrganizationView) -> Seq<char> {
    match org.company {
        Some(company) => "https://twitter.com/"@ + company,
        None => shown(None),
    }
}

/// The seven fields of an organization embed, in their fixed order.
pub open spec fn org_fields(org: OrganizationView) -> Seq<EmbedFieldView> {
    seq![
        inline_field("Location"@, shown(org.location)),
        inline_field("Email"@, shown(org.email)),
        inline_field("Company"@, shown(org.company)),
        inline_field("Link"@, org.html_url),
        inline_field("Blog"@, shown(org.blog)),
        inline_field("Twitter"@, twitter_value(org)),
        inline_field("Public Repos"@, decimal(org.public_repos as nat)),
    ]
}

/// The embed that shows an organization profile.
pub open spec fn org_embed(org: OrganizationView) -> EmbedSpecView {
    EmbedSpecView {
        title: org.name,
        description: org.description,
        image_url: Some(org.avatar_url),
        fields: org_fields(org),
    }
}

/// What `getghorginfo` returns: a batch of exactly one embed.
pub open spec fn getghorginfo_outcome(fetched: Result<Organization, FetchError>) -> Result<
    HandlerResultView,
    FetchError,
> {
    match fetched {
        Err(e) => Err(e),
        Ok(org) => Ok(HandlerResultView::EmbedBatch(seq![org_embed(org@)])),
    }
}

fn make_field(name: &str, value: String) -> (r: EmbedField)
    ensures
        r@ == inline_field(name@, value@),
{
    EmbedField { name: String::from_str(name), value, inline: true }
}

/// Renders an organization profile as one embed with seven fields.
pub fn getghorginfo(fetched: Result<Organization, FetchError>) -> (r: Result<
    HandlerResult,
    FetchError,
>)
    ensures
        outcome_view(r) == getghorginfo_outcome(fetched),
{
    match fetched {
        Err(e) => Err(e),
        Ok(org) => {
            let twitter: String = match &org.company {
                Some(company) => concat2("https://twitter.com/", company.as_str()),
                None => or_placeholder(&None),
            };
            let mut fields: Vec<EmbedField> = Vec::new();
            fields.push(make_field("Location", or_placeholder(&org.location)));
            fields.push(make_field("Email", or_placeholder(&org.email)));
            fields.push(make_field("Company", or_placeholder(&org.company)));
            fields.push(make_field("Link", org.html_url.clone()));
            fields.push(make_field("Blog", or_placeholder(&org.blog)));
            fields.push(make_field("Twitter", twitter));
            fields.push(make_field("Public Repos", decimal_string(org.public_repos as u64)));
            let e = EmbedSpec {
                title: org.name.clone(),
                description: org.description.clone(),
                image_url: Some(org.avatar_url.clone()),
                fields,
            };
            assert(e@.fields =~= org_fields(org@));
            let mut out: Vec<EmbedSpec> = Vec::new();
            out.push(e);
            assert(embed_views(out@) =~= seq![org_embed(org@)]);
            Ok(HandlerResult::EmbedBatch(out))
        },
    }
}

/// Every organization embed has the same seven fields in the same order,
/// whatever the profile lacks, and an absent location, email or blog shows
/// as the placeholder `-`.
pub proof fn lemma_org_fields_stable(org: OrganizationView)
    ensures
        org_embed(org).fields.len() == 7,
        org_embed(org).fields[0].name == "Location"@,
        org_embed(org).fields[1].name == "Email"@,
        org_embed(org).fields[2].name == "Company"@,
        org_embed(org).fields[3].name == "Link"@,
        org_embed(org).fields[4].name == "Blog"@,
        org_embed(org).fields[5].name == "Twitter"@,
        org_embed(org).fields[6].name == "Public Repos"@,
        org.location is None ==> org_embed(org).fields[0].value == seq!['-'],
        org.email is None ==> org_embed(org).fields[1].value == seq!['-'],
        org.blog is None ==> org_embed(org).fields[4].value == seq!['-'],
{
}

// ----------------------------------------------------- getghorgmembers

/// The request for an organization's member list.
pub fn getghorgmembers_request(org_name: &str) -> (r: Request)
    ensures
        r@ == identified_get("https://api.github.com/orgs/"@ + org_name@ + "/members"@),
{
    identified_request(concat3("https://api.github.com/orgs/", org_name, "/members"))
}

/// The embed that shows one member: login, profile link and avatar.
pub open spec fn member_embed(member: Member) -> EmbedSpecView {
    EmbedSpecView {
        title: member.login@,
        description: member.html_url@,
        image_url: Some(member.avatar_url@),
        fields: Seq::empty(),
    }
}

/// What `getghorgmembers` returns: one embed per member, in list order.
pub open spec fn getghorgmembers_outcome(fetched: Result<Vec<Member>, FetchError>) -> Result<
    HandlerResultView,
    FetchError,
> {
    match fetched {
        Err(e) => Err(e),
        Ok(members) => Ok(
            HandlerResultView::EmbedBatch(
                Seq::new(members@.len(), |i: int| member_embed(members@[i])),
            ),
        ),
    }
}

/// Renders the member list, one embed per member.
pub fn getghorgmembers(fetched: Result<Vec<Member>, FetchError>) -> (r: Result<
    HandlerResult,
    FetchError,
>)
    ensures
        outcome_view(r) == getghorgmembers_outcome(fetched),
{
    match fetched {
        Err(e) => Err(e),
        Ok(members) => {
            let mut out: Vec<EmbedSpec> = Vec::new();
            let mut i: usize = 0;
            while i < members.len()
                invariant
                    i <= members.len(),
                    out@.len() == i,
                    forall|k: int| 0 <= k < i ==> (#[trigger] out@[k])@ == member_embed(members@[k]),
                decreases members.len() - i,
            {
                let member = &members[i];
                let e = EmbedSpec {
                    title: member.login.clone(),
                    description: member.html_url.clone(),
                    image_url: Some(member.avatar_url.clone()),
                    fields: Vec::new(),
                };
                assert(e@.fields =~= Seq::empty());
                out.push(e);
                i = i + 1;
            }
            assert(embed_views(out@) =~= Seq::new(
                members@.len(),
                |i: int| member_embed(members@[i]),
            ));
            Ok(HandlerResult::EmbedBatch(out))
        },
    }
}

} // verus!
