//! OAuth clients from the platforms that the MySo indexer lists.

use vstd::prelude::*;
use vstd::string::*;

use crate::config::{filled, is_filled, AllowedClient, Config};
use crate::handlers::client_with;
use crate::json::{JsonValue, JsonView};
use crate::text::{
    comes_before, is_before, is_blank, law_occurrence, law_trimmed, lemma_before_total,
    lemma_before_transitive, occurs_in, same_text, text_in, texts, trim, trimmed,
};

verus! {

impl AllowedClient {
    /// Another value with the same fields.
    fn duplicate(&self) -> (r: AllowedClient)
        ensures
            r == *self,
    {
        AllowedClient {
            client_id: self.client_id.clone(),
            redirect_uri: self.redirect_uri.clone(),
        }
    }
}

/// The last client with the ID `id`.
pub open spec fn last_for(clients: Seq<AllowedClient>, id: Seq<char>) -> Option<AllowedClient>
    decreases clients.len(),
{
    if clients.len() == 0 {
        None
    } else if clients.last().client_id@ == id {
        Some(clients.last())
    } else {
        last_for(clients.drop_last(), id)
    }
}

/// The IDs ascend, so that none occurs twice.
pub open spec fn is_sorted(clients: Seq<AllowedClient>) -> bool {
    forall|i: int, j: int|
        0 <= i < j < clients.len() ==> is_before(
            #[trigger] clients[i].client_id@,
            #[trigger] clients[j].client_id@,
        )
}

/// Where IDs ascend, an entry is the last one with its ID.
proof fn lemma_last_for_hit(clients: Seq<AllowedClient>, i: int)
    requires
        is_sorted(clients),
        0 <= i < clients.len(),
    ensures
        last_for(clients, clients[i].client_id@) == Some(clients[i]),
    decreases clients.len(),
{
    if i < clients.len() - 1 {
        lemma_before_total(clients[i].client_id@, clients.last().client_id@);
        lemma_last_for_hit(clients.drop_last(), i);
    }
}

/// An ID that no entry has is not found.
proof fn lemma_last_for_miss(clients: Seq<AllowedClient>, id: Seq<char>)
    requires
        forall|i: int| 0 <= i < clients.len() ==> (#[trigger] clients[i]).client_id@ != id,
    ensures
        last_for(clients, id) is None,
    decreases clients.len(),
{
    if clients.len() > 0 {
        lemma_last_for_miss(clients.drop_last(), id);
    }
}

/// Where IDs ascend, two lists find the same for an ID that both or neither have.
proof fn lemma_last_for_same(a: Seq<AllowedClient>, b: Seq<AllowedClient>, id: Seq<char>)
    requires
        is_sorted(a),
        is_sorted(b),
        forall|i: int|
            0 <= i < a.len() && (#[trigger] a[i]).client_id@ == id ==> b.contains(a[i]),
        forall|i: int|
            0 <= i < b.len() && (#[trigger] b[i]).client_id@ == id ==> a.contains(b[i]),
    ensures
        last_for(a, id) == last_for(b, id),
{
    if exists|i: int| 0 <= i < a.len() && (#[trigger] a[i]).client_id@ == id {
        let i = choose|i: int| 0 <= i < a.len() && (#[trigger] a[i]).client_id@ == id;
        let j = choose|j: int| 0 <= j < b.len() && b[j] == a[i];
        lemma_last_for_hit(a, i);
        lemma_last_for_hit(b, j);
    } else {
        assert forall|i: int| 0 <= i < b.len() implies (#[trigger] b[i]).client_id@ != id by {
            if b[i].client_id@ == id {
                let k = choose|k: int| 0 <= k < a.len() && a[k] == b[i];
                assert(a[k].client_id@ == id);
            }
        }
        lemma_last_for_miss(a, id);
        lemma_last_for_miss(b, id);
    }
}

/// Puts a client into a list with ascending IDs, in place of the one with the same ID.
fn put(clients: &mut Vec<AllowedClient>, client: AllowedClient)
    requires
        is_sorted(old(clients)@),
    ensures
        is_sorted(final(clients)@),
        forall|id: Seq<char>|
            #[trigger] last_for(final(clients)@, id) == (if id == client.client_id@ {
                Some(client)
            } else {
                last_for(old(clients)@, id)
            }),
{
    let ghost before = clients@;
    let ghost id = client.client_id@;
    let mut at: usize = 0;
    while at < clients.len() && comes_before(
        clients[at].client_id.as_str(),
        client.client_id.as_str(),
    )
        invariant
            clients@ == before,
            at <= before.len(),
            id == client.client_id@,
            forall|k: int| 0 <= k < at ==> is_before((#[trigger] before[k]).client_id@, id),
        decreases before.len() - at,
    {
        at = at + 1;
    }
    if at < clients.len() && same_text(clients[at].client_id.as_str(), client.client_id.as_str()) {
        clients[at] = client;
        let ghost after = clients@;
        proof {
            assert(after =~= before.update(at as int, client));
            assert forall|i: int, j: int| 0 <= i < j < after.len() implies is_before(
                #[trigger] after[i].client_id@,
                #[trigger] after[j].client_id@,
            ) by {
                assert(after[i].client_id@ == before[i].client_id@);
                assert(after[j].client_id@ == before[j].client_id@);
            }
            assert forall|other: Seq<char>| #[trigger]
                last_for(after, other) == (if other == id {
                    Some(client)
                } else {
                    last_for(before, other)
                }) by {
                if other == id {
                    lemma_last_for_hit(after, at as int);
                } else {
                    assert forall|i: int|
                        0 <= i < before.len() && (#[trigger] before[i]).client_id@
                            == other implies after.contains(before[i]) by {
                        assert(after[i] == before[i]);
                    }
                    assert forall|i: int|
                        0 <= i < after.len() && (#[trigger] after[i]).client_id@
                            == other implies before.contains(after[i]) by {
                        assert(after[i] == before[i]);
                    }
                    lemma_last_for_same(after, before, other);
                }
            }
        }
    } else {
        proof {
            assert forall|k: int| at <= k < before.len() implies is_before(
                id,
                (#[trigger] before[k]).client_id@,
            ) by {
                lemma_before_total(before[at as int].client_id@, id);
                if k > at {
                    lemma_before_transitive(
                        id,
                        before[at as int].client_id@,
                        before[k].client_id@,
                    );
                }
            }
        }
        clients.insert(at, client);
        let ghost after = clients@;
        proof {
            assert(after =~= before.insert(at as int, client));
            assert forall|i: int, j: int| 0 <= i < j < after.len() implies is_before(
                #[trigger] after[i].client_id@,
                #[trigger] after[j].client_id@,
            ) by {
                if i < at {
                    assert(after[i] == before[i]);
                } else if i > at {
                    assert(after[i] == before[i - 1]);
                }
                if j < at {
                    assert(after[j] == before[j]);
                } else if j > at {
                    assert(after[j] == before[j - 1]);
                }
            }
            assert forall|other: Seq<char>| #[trigger]
                last_for(after, other) == (if other == id {
                    Some(client)
                } else {
                    last_for(before, other)
                }) by {
                if other == id {
                    lemma_last_for_hit(after, at as int);
                } else {
                    assert forall|i: int|
                        0 <= i < before.len() && (#[trigger] before[i]).client_id@
                            == other implies after.contains(before[i]) by {
                        if i < at {
                            assert(after[i] == before[i]);
                        } else {
                            assert(after[i + 1] == before[i]);
                        }
                    }
                    assert forall|i: int|
                        0 <= i < after.len() && (#[trigger] after[i]).client_id@
                            == other implies before.contains(after[i]) by {
                        if i < at {
                            assert(after[i] == before[i]);
                        } else if i > at {
                            assert(after[i] == before[i - 1]);
                        }
                    }
                    lemma_last_for_same(after, before, other);
                }
            }
        }
    }
}

/// Puts every client of a list into one with ascending IDs, the later ones in place of the
/// earlier ones.
fn put_all(clients: &mut Vec<AllowedClient>, added: &Vec<AllowedClient>)
    requires
        is_sorted(old(clients)@),
    ensures
        is_sorted(final(clients)@),
        forall|id: Seq<char>|
            #[trigger] last_for(final(clients)@, id) == (match last_for(added@, id) {
                Some(c) => Some(c),
                None => last_for(old(clients)@, id),
            }),
{
    let mut i: usize = 0;
    while i < added.len()
        invariant
            i <= added.len(),
            is_sorted(clients@),
            forall|id: Seq<char>|
                #[trigger] last_for(clients@, id) == (match last_for(added@.take(i as int), id) {
                    Some(c) => Some(c),
                    None => last_for(old(clients)@, id),
                }),
        decreases added.len() - i,
    {
        let ghost before = clients@;
        put(clients, added[i].duplicate());
        assert(added@.take(i + 1).drop_last() =~= added@.take(i as int));
        assert forall|id: Seq<char>| #[trigger]
            last_for(clients@, id) == (match last_for(added@.take(i + 1), id) {
                Some(c) => Some(c),
                None => last_for(old(clients)@, id),
            }) by {
            assert(last_for(before, id) == last_for(before, id));
        }
        i = i + 1;
    }
    assert(added@.take(i as int) =~= added@);
}

/// `merged` holds, in the order of the IDs, for every ID the last client of `env` that has it,
/// else the last one of `indexer`.
pub open spec fn is_merge(
    merged: Seq<AllowedClient>,
    indexer: Seq<AllowedClient>,
    env: Seq<AllowedClient>,
) -> bool {
    &&& is_sorted(merged)
    &&& forall|id: Seq<char>|
        #[trigger] last_for(merged, id) == (match last_for(env, id) {
            Some(c) => Some(c),
            None => last_for(indexer, id),
        })
}

/// Merges the clients of the indexer with those of `ALLOWED_CLIENTS`, which win on a duplicate
/// `client_id`. The result is in the order of the IDs.
pub fn merge_allowed_clients(indexer: Vec<AllowedClient>, env: Vec<AllowedClient>) -> (r: Vec<
    AllowedClient,
>)
    ensures
        is_merge(r@, indexer@, env@),
{
    let mut merged: Vec<AllowedClient> = Vec::new();
    put_all(&mut merged, &indexer);
    put_all(&mut merged, &env);
    merged
}

/// Some entry of a list is the word `word`, but for white space around it.
pub open spec fn is_listed(list: Seq<Seq<char>>, word: Seq<char>) -> bool {
    exists|i: int| 0 <= i < list.len() && trimmed(#[trigger] list[i]) == word
}

/// Whether some entry of a list is the word `word`, but for white space around it.
fn listed(list: &[String], word: &str) -> (r: bool)
    ensures
        r == is_listed(texts(list@), word@),
{
    let mut i: usize = 0;
    while i < list.len()
        invariant
            i <= list.len(),
            forall|k: int| 0 <= k < i ==> trimmed(#[trigger] texts(list@)[k]) != word@,
        decreases list.len() - i,
    {
        assert(texts(list@)[i as int] == list@[i as int]@);
        if same_text(trim(list[i].as_str()), word) {
            return true;
        }
        i = i + 1;
    }
    false
}

/// A platform's status lets it in: it is not blank, and it is on the allowlist where that has
/// entries, else not on the denylist.
pub open spec fn status_passes(
    status: Option<Seq<char>>,
    allowlist: Option<Seq<Seq<char>>>,
    denylist: Seq<Seq<char>>,
) -> bool {
    &&& is_filled(status)
    &&& if allowlist is Some && allowlist->0.len() > 0 {
        is_listed(allowlist->0, trimmed(status->0))
    } else {
        !is_listed(denylist, trimmed(status->0))
    }
}

/// What an optional list holds.
pub open spec fn list_texts(list: Option<Vec<String>>) -> Option<Seq<Seq<char>>> {
    match list {
        Some(items) => Some(texts(items@)),
        None => None,
    }
}

/// Whether a platform's status lets it in.
pub fn platform_passes_status_filter(
    status_text: Option<&str>,
    allowlist: &Option<Vec<String>>,
    denylist: &[String],
) -> (r: bool)
    ensures
        r == status_passes(status_text.deep_view(), list_texts(*allowlist), texts(denylist@)),
{
    let status = match status_text {
        Some(s) => trim(s),
        None => return false,
    };
    if status.is_empty() {
        return false;
    }
    match allowlist {
        Some(allowed) => {
            assert(texts(allowed@).len() == allowed.len());
            if allowed.len() > 0 {
                return listed(allowed.as_slice(), status);
            }
        },
        None => {},
    }
    !listed(denylist, status)
}

/// The URL under one key of `links`: a string that is not blank.
pub open spec fn link_at(links: JsonView, key: Seq<char>) -> Option<Seq<char>> {
    if is_blank(key) {
        None
    } else {
        match links.text_member(trimmed(key)) {
            Some(url) if !is_blank(url) => Some(trimmed(url)),
            _ => None,
        }
    }
}

/// The URL under the first key of `links` that has one.
pub open spec fn first_link(links: JsonView, keys: Seq<Seq<char>>) -> Option<Seq<char>>
    decreases keys.len(),
{
    if keys.len() == 0 {
        None
    } else if link_at(links, keys[0]) is Some {
        link_at(links, keys[0])
    } else {
        first_link(links, keys.drop_first())
    }
}

/// The URL under the first key of `links` that has one, where there are links.
pub open spec fn links_uri(links: Option<JsonView>, keys: Seq<Seq<char>>) -> Option<Seq<char>> {
    match links {
        Some(value) => first_link(value, keys),
        None => None,
    }
}

/// The redirect URI in a platform's `links`: under the first of the keys that has one.
pub fn redirect_uri_from_links(links: Option<&JsonValue>, keys: &[String]) -> (r: Option<String>)
    ensures
        r.deep_view() == links_uri(links.deep_view(), texts(keys@)),
{
    let value = match links {
        Some(value) => value,
        None => return None,
    };
    let ghost all = texts(keys@);
    let mut i: usize = 0;
    assert(all.skip(0) =~= all);
    while i < keys.len()
        invariant
            i <= keys.len(),
            links.deep_view() == Some(value@),
            all == texts(keys@),
            first_link(value@, all) == first_link(value@, all.skip(i as int)),
        decreases keys.len() - i,
    {
        assert(all.skip(i as int)[0] == keys@[i as int]@);
        assert(all.skip(i as int).drop_first() =~= all.skip(i + 1));
        let key = trim(keys[i].as_str());
        if !key.is_empty() {
            match value.get_str(key) {
                Some(url) => {
                    let url = trim(url);
                    if !url.is_empty() {
                        return Some(url.to_owned());
                    }
                },
                None => {},
            }
        }
        i = i + 1;
    }
    None
}

/// The redirect URI of a platform: the on-chain one where it is set, else the one in `links`.
pub open spec fn platform_uri(
    on_chain: Option<Seq<char>>,
    links: Option<JsonView>,
    keys: Seq<Seq<char>>,
) -> Option<Seq<char>> {
    match on_chain {
        Some(uri) if !is_blank(uri) => Some(trimmed(uri)),
        _ => links_uri(links, keys),
    }
}

/// The redirect URI of a platform: the on-chain one where it is set, else the one in `links`.
pub fn resolve_platform_redirect_uri(
    redirect_uri: Option<&str>,
    links: Option<&JsonValue>,
    keys: &[String],
) -> (r: Option<String>)
    ensures
        r.deep_view() == platform_uri(redirect_uri.deep_view(), links.deep_view(), texts(keys@)),
{
    match redirect_uri {
        Some(uri) => {
            let uri = trim(uri);
            if !uri.is_empty() {
                return Some(uri.to_owned());
            }
        },
        None => {},
    }
    redirect_uri_from_links(links, keys)
}

/// A platform as the indexer lists it.
#[derive(Debug)]
pub struct PlatformRow {
    pub platform_id: Option<String>,
    pub name: Option<String>,
    pub developer_address: Option<String>,
    pub status_text: Option<String>,
    pub redirect_uri: Option<String>,
    pub shutdown_date: Option<JsonValue>,
    pub links: Option<JsonValue>,
}

/// An ID and a redirect URI, the latter empty where there is none.
pub type ClientView = (Seq<char>, Seq<char>);

/// What a list of clients holds.
pub open spec fn client_views(clients: Seq<AllowedClient>) -> Seq<ClientView> {
    clients.map_values(|c: AllowedClient| (c.client_id@, c.redirect_uri@))
}

/// The client that a platform makes, if it may be one: its status passes, it has the links that
/// are asked for, it has a redirect URI or there is a global callback, and it has an ID.
pub open spec fn row_client(row: PlatformRow, config: Config) -> Option<ClientView> {
    let keys = texts(config.platform_links_redirect_keys@);
    let links = row.links.deep_view();
    let uri = platform_uri(row.redirect_uri.deep_view(), links, keys);
    if !status_passes(
        row.status_text.deep_view(),
        list_texts(config.platform_status_allowlist),
        texts(config.platform_status_denylist@),
    ) {
        None
    } else if config.require_redirect_uri_from_links && links_uri(links, keys) is None {
        None
    } else if uri is None && !is_filled(config.auth_callback_url.deep_view()) {
        None
    } else if !is_filled(row.platform_id.deep_view()) {
        None
    } else {
        let uri_text = match uri {
            Some(u) => u,
            None => Seq::<char>::empty(),
        };
        Some((trimmed(row.platform_id->0@), uri_text))
    }
}

/// The client that a platform makes, if it may be one.
pub fn allowed_client_of_row(row: &PlatformRow, config: &Config) -> (r: Option<AllowedClient>)
    ensures
        match r {
            Some(c) => row_client(*row, *config) == Some((c.client_id@, c.redirect_uri@)),
            None => row_client(*row, *config) is None,
        },
{
    if !platform_passes_status_filter(
        text_in(&row.status_text),
        &config.platform_status_allowlist,
        config.platform_status_denylist.as_slice(),
    ) {
        return None;
    }
    let links = row.links.as_ref();
    let keys = config.platform_links_redirect_keys.as_slice();
    if config.require_redirect_uri_from_links && redirect_uri_from_links(links, keys).is_none() {
        return None;
    }
    let uri = resolve_platform_redirect_uri(text_in(&row.redirect_uri), links, keys);
    if uri.is_none() && !filled(&config.auth_callback_url) {
        return None;
    }
    let client_id = match &row.platform_id {
        Some(id) => trim(id.as_str()).to_owned(),
        None => return None,
    };
    if client_id.as_str().is_empty() {
        return None;
    }
    let redirect_uri = match uri {
        Some(u) => u,
        None => String::new(),
    };
    Some(AllowedClient { client_id, redirect_uri })
}

/// The clients that the platforms of a page make, in order.
pub open spec fn page_clients(rows: Seq<PlatformRow>, config: Config) -> Seq<ClientView>
    decreases rows.len(),
{
    if rows.len() == 0 {
        Seq::empty()
    } else {
        let before = page_clients(rows.drop_last(), config);
        match row_client(rows.last(), config) {
            Some(c) => before.push(c),
            None => before,
        }
    }
}

/// An error that the indexer reports.
#[derive(Debug, Clone)]
pub struct GraphqlError {
    pub message: Option<String>,
}

/// The data of a page.
#[derive(Debug)]
pub struct PlatformsData {
    pub platforms: Option<Vec<PlatformRow>>,
}

/// The indexer's reply to the request for a page.
#[derive(Debug)]
pub struct GraphqlEnvelope {
    pub data: Option<PlatformsData>,
    pub errors: Option<Vec<GraphqlError>>,
}

/// How the request for a page ended.
#[derive(Debug)]
pub enum PageOutcome {
    /// The request could not be sent or was not answered.
    RequestFailed,
    /// The indexer answered with a failure status.
    HttpError { status: String, body: String },
    /// The answer is no reply of the expected form.
    InvalidBody,
    Page(GraphqlEnvelope),
}

/// The messages of errors, those that have one, with `; ` between them.
pub open spec fn joined_messages(errors: Seq<GraphqlError>) -> Option<Seq<char>>
    decreases errors.len(),
{
    if errors.len() == 0 {
        None
    } else {
        let before = joined_messages(errors.drop_last());
        match (before, errors.last().message) {
            (Some(text), Some(message)) => Some(text + "; "@ + message@),
            (None, Some(message)) => Some(message@),
            (text, None) => text,
        }
    }
}

/// What the errors of a reply say, where there are any: nothing where none has a message.
pub open spec fn error_text(errors: Option<Vec<GraphqlError>>) -> Option<Seq<char>> {
    match errors {
        Some(list) if list@.len() > 0 => match joined_messages(list@) {
            Some(text) => Some(text),
            None => Some(Seq::empty()),
        },
        _ => None,
    }
}

/// Joins the messages of errors with `; `.
fn join_messages(errors: &Vec<GraphqlError>) -> (r: Option<String>)
    ensures
        r.deep_view() == joined_messages(errors@),
{
    let mut joined: Option<String> = None;
    let mut i: usize = 0;
    while i < errors.len()
        invariant
            i <= errors.len(),
            joined.deep_view() == joined_messages(errors@.take(i as int)),
        decreases errors.len() - i,
    {
        assert(errors@.take(i + 1).drop_last() =~= errors@.take(i as int));
        match &errors[i].message {
            Some(message) => {
                joined = match joined {
                    Some(text) => Some(text.concat("; ").concat(message.as_str())),
                    None => Some(message.clone()),
                };
            },
            None => {},
        }
        i = i + 1;
    }
    assert(errors@.take(i as int) =~= errors@);
    joined
}

/// The platforms of a page; none where the reply has none.
pub open spec fn rows_of(reply: GraphqlEnvelope) -> Seq<PlatformRow> {
    match reply.data {
        Some(PlatformsData { platforms: Some(rows) }) => rows@,
        _ => Seq::empty(),
    }
}

/// A fetch of all platforms, page by page.
#[derive(Debug)]
pub struct IndexerFetch {
    pub url: String,
    pub limit: u32,
    pub offset: i64,
    pub found: Vec<AllowedClient>,
}

/// What a fetch is about to ask, and what it found so far.
pub struct FetchView {
    pub url: Seq<char>,
    pub limit: int,
    pub offset: int,
    pub found: Seq<ClientView>,
}

impl View for IndexerFetch {
    type V = FetchView;

    open spec fn view(&self) -> FetchView {
        FetchView {
            url: self.url@,
            limit: self.limit as int,
            offset: self.offset as int,
            found: client_views(self.found@),
        }
    }
}

/// What follows the answer to a request for a page.
#[derive(Debug)]
pub enum FetchStep {
    /// Ask for the next page.
    More(IndexerFetch),
    /// All platforms are there.
    Done(Vec<AllowedClient>),
    /// The fetch failed, for this reason.
    Failed(String),
}

/// What follows the answer to a request for a page.
pub enum FetchStepView {
    More(FetchView),
    Done(Seq<ClientView>),
    Failed(Seq<char>),
}

impl View for FetchStep {
    type V = FetchStepView;

    open spec fn view(&self) -> FetchStepView {
        match self {
            FetchStep::More(fetch) => FetchStepView::More(fetch@),
            FetchStep::Done(clients) => FetchStepView::Done(client_views(clients@)),
            FetchStep::Failed(reason) => FetchStepView::Failed(reason@),
        }
    }
}

impl FetchView {
    /// The step after a page of platforms: an empty page or one with fewer rows than asked for,
    /// both counted modulo 2^32, is the last one.
    pub open spec fn after_rows(self, rows: Seq<PlatformRow>, config: Config) -> FetchStepView {
        let found = self.found + page_clients(rows, config);
        if rows.len() == 0 || rows.len() % 0x1_0000_0000 < self.limit {
            FetchStepView::Done(found)
        } else {
            FetchStepView::More(FetchView { offset: self.offset + self.limit, found, ..self })
        }
    }

    /// Another page follows an answer: a page without errors that has as many rows as asked for.
    pub open spec fn goes_on(self, outcome: PageOutcome) -> bool {
        match outcome {
            PageOutcome::Page(reply) => {
                &&& error_text(reply.errors) is None
                &&& rows_of(reply).len() > 0
                &&& rows_of(reply).len() % 0x1_0000_0000 >= self.limit
            },
            _ => false,
        }
    }

    /// The step after the answer to a request.
    pub open spec fn after(self, outcome: PageOutcome, config: Config) -> FetchStepView {
        match outcome {
            PageOutcome::RequestFailed => FetchStepView::Failed("indexer GraphQL request failed"@),
            PageOutcome::HttpError { status, body } => FetchStepView::Failed(
                "indexer GraphQL HTTP "@ + status@ + ": "@ + body@,
            ),
            PageOutcome::InvalidBody => FetchStepView::Failed(
                "indexer GraphQL response is not valid JSON"@,
            ),
            PageOutcome::Page(reply) => match error_text(reply.errors) {
                Some(text) => FetchStepView::Failed("indexer GraphQL errors: "@ + text),
                None => self.after_rows(rows_of(reply), config),
            },
        }
    }
}

/// The query for a page of platforms.
pub fn active_platforms_query() -> (r: &'static str)
    ensures
        r@
            == "query ActivePlatforms($limit: Int, $offset: Int) {\n  platforms(approvedOnly: true, limit: $limit, offset: $offset) {\n    platformId\n    statusText\n    redirectUri\n    links\n  }\n}"@,
{
    "query ActivePlatforms($limit: Int, $offset: Int) {\n  platforms(approvedOnly: true, limit: $limit, offset: $offset) {\n    platformId\n    statusText\n    redirectUri\n    links\n  }\n}"
}

/// Adds the clients that the platforms of a page make.
fn add_rows(found: &mut Vec<AllowedClient>, rows: &Vec<PlatformRow>, config: &Config)
    ensures
        client_views(final(found)@) == client_views(old(found)@) + page_clients(rows@, *config),
{
    let mut i: usize = 0;
    assert(client_views(found@) =~= client_views(old(found)@) + page_clients(
        rows@.take(0),
        *config,
    ));
    while i < rows.len()
        invariant
            i <= rows.len(),
            client_views(found@) == client_views(old(found)@) + page_clients(
                rows@.take(i as int),
                *config,
            ),
        decreases rows.len() - i,
    {
        let ghost before = found@;
        assert(rows@.take(i + 1).drop_last() =~= rows@.take(i as int));
        match allowed_client_of_row(&rows[i], config) {
            Some(client) => {
                let ghost added = (client.client_id@, client.redirect_uri@);
                found.push(client);
                assert(client_views(found@) =~= client_views(before).push(added));
            },
            None => {},
        }
        assert(client_views(found@) =~= client_views(old(found)@) + page_clients(
            rows@.take(i + 1),
            *config,
        ));
        i = i + 1;
    }
    assert(rows@.take(i as int) =~= rows@);
}

/// The fetch that a configuration asks for: from the first platform on, at least one row a page.
pub open spec fn fetch_start(config: Config) -> Option<FetchView> {
    if is_filled(config.myso_indexer_graphql_url.deep_view()) {
        let asked = config.indexer_platforms_page_limit as int;
        Some(
            FetchView {
                url: trimmed(config.myso_indexer_graphql_url->0@),
                limit: if asked < 1 {
                    1
                } else {
                    asked
                },
                offset: 0,
                found: Seq::empty(),
            },
        )
    } else {
        None
    }
}

impl IndexerFetch {
    /// Starts a fetch, which takes a configured indexer URL.
    pub fn start(config: &Config) -> (r: Result<IndexerFetch, String>)
        ensures
            match fetch_start(*config) {
                Some(start) => r matches Ok(fetch) && fetch@ == start,
                None => r matches Err(e) && e@ == "indexer GraphQL URL missing"@,
            },
    {
        let url = match &config.myso_indexer_graphql_url {
            Some(url) => trim(url.as_str()).to_owned(),
            None => return Err("indexer GraphQL URL missing".to_owned()),
        };
        if url.as_str().is_empty() {
            return Err("indexer GraphQL URL missing".to_owned());
        }
        let limit: u32 = if config.indexer_platforms_page_limit < 1 {
            1
        } else {
            config.indexer_platforms_page_limit
        };
        let fetch = IndexerFetch { url, limit, offset: 0, found: Vec::new() };
        assert(fetch@.found =~= Seq::<ClientView>::empty());
        Ok(fetch)
    }

    /// Whether another page follows an answer.
    pub fn goes_on(&self, outcome: &PageOutcome) -> (r: bool)
        ensures
            r == self@.goes_on(*outcome),
    {
        match outcome {
            PageOutcome::Page(reply) => {
                let failed = match &reply.errors {
                    Some(errors) => errors.len() > 0,
                    None => false,
                };
                let page_len: u64 = match &reply.data {
                    Some(PlatformsData { platforms: Some(rows) }) => rows.len() as u64,
                    _ => 0,
                };
                assert(page_len == rows_of(*reply).len());
                !failed && page_len > 0 && page_len % 0x1_0000_0000 >= self.limit as u64
            },
            _ => false,
        }
    }

    /// Takes the answer to the request for the page at `offset`. Where another page follows, its
    /// offset has to be a number that can be asked for.
    pub fn on_page(self, outcome: PageOutcome, config: &Config) -> (r: FetchStep)
        requires
            self@.goes_on(outcome) ==> self.offset + self.limit <= i64::MAX,
        ensures
            r@ == self@.after(outcome, *config),
    {
        let reply = match outcome {
            PageOutcome::RequestFailed => {
                return FetchStep::Failed("indexer GraphQL request failed".to_owned());
            },
            PageOutcome::HttpError { status, body } => {
                return FetchStep::Failed(
                    "indexer GraphQL HTTP ".to_owned().concat(status.as_str()).concat(": ").concat(
                        body.as_str(),
                    ),
                );
            },
            PageOutcome::InvalidBody => {
                return FetchStep::Failed("indexer GraphQL response is not valid JSON".to_owned());
            },
            PageOutcome::Page(reply) => reply,
        };
        match &reply.errors {
            Some(errors) => if errors.len() > 0 {
                let text = match join_messages(errors) {
                    Some(text) => text,
                    None => String::new(),
                };
                return FetchStep::Failed(
                    "indexer GraphQL errors: ".to_owned().concat(text.as_str()),
                );
            },
            None => {},
        }
        let rows = match reply.data {
            Some(PlatformsData { platforms: Some(rows) }) => rows,
            _ => Vec::new(),
        };
        assert(rows@ =~= rows_of(reply));
        let mut found = self.found;
        add_rows(&mut found, &rows, config);
        let page_len: u64 = rows.len() as u64;
        if page_len == 0 || page_len % 0x1_0000_0000 < self.limit as u64 {
            return FetchStep::Done(found);
        }
        FetchStep::More(
            IndexerFetch {
                url: self.url,
                limit: self.limit,
                offset: self.offset + self.limit as i64,
                found,
            },
        )
    }
}

/// Where IDs ascend, the first entry with an ID is the last one.
proof fn lemma_first_is_last(clients: Seq<AllowedClient>, id: Seq<char>)
    requires
        is_sorted(clients),
    ensures
        client_with(clients, id) == last_for(clients, id),
    decreases clients.len(),
{
    if clients.len() > 0 {
        let rest = clients.drop_first();
        assert forall|i: int, j: int| 0 <= i < j < rest.len() implies is_before(
            #[trigger] rest[i].client_id@,
            #[trigger] rest[j].client_id@,
        ) by {
            assert(rest[i] == clients[i + 1] && rest[j] == clients[j + 1]);
        }
        lemma_first_is_last(rest, id);
        if clients[0].client_id@ == id {
            lemma_last_for_hit(clients, 0);
        } else {
            assert forall|i: int|
                0 <= i < clients.len() && (#[trigger] clients[i]).client_id@ == id implies rest.contains(
                clients[i],
            ) by {
                assert(rest[i - 1] == clients[i]);
            }
            assert forall|i: int|
                0 <= i < rest.len() && (#[trigger] rest[i]).client_id@ == id implies clients.contains(
                rest[i],
            ) by {
                assert(clients[i + 1] == rest[i]);
            }
            lemma_last_for_same(clients, rest, id);
        }
    }
}

/// In the merged allowlist a client is found by its ID as `ALLOWED_CLIENTS` describes it, and as
/// the indexer does only where `ALLOWED_CLIENTS` has no such client.
pub proof fn law_env_wins(
    merged: Seq<AllowedClient>,
    indexer: Seq<AllowedClient>,
    env: Seq<AllowedClient>,
    id: Seq<char>,
)
    requires
        is_merge(merged, indexer, env),
    ensures
        client_with(merged, id) == (match last_for(env, id) {
            Some(c) => Some(c),
            None => last_for(indexer, id),
        }),
{
    lemma_first_is_last(merged, id);
}

/// No ID occurs twice in the merged allowlist.
pub proof fn law_merged_ids_differ(
    merged: Seq<AllowedClient>,
    indexer: Seq<AllowedClient>,
    env: Seq<AllowedClient>,
    i: int,
    j: int,
)
    requires
        is_merge(merged, indexer, env),
        0 <= i < j < merged.len(),
    ensures
        merged[i].client_id@ != merged[j].client_id@,
{
    assert(is_before(merged[i].client_id@, merged[j].client_id@));
    lemma_before_total(merged[i].client_id@, merged[j].client_id@);
}

/// The denylist only counts where the allowlist has no entry, and an allowlist without entries
/// counts like none.
pub proof fn law_allowlist_decides(
    status: Option<Seq<char>>,
    allowlist: Seq<Seq<char>>,
    denylist: Seq<Seq<char>>,
    other: Seq<Seq<char>>,
)
    ensures
        allowlist.len() > 0 ==> status_passes(status, Some(allowlist), denylist) == status_passes(
            status,
            Some(allowlist),
            other,
        ),
        allowlist.len() == 0 ==> status_passes(status, Some(allowlist), denylist) == status_passes(
            status,
            None,
            denylist,
        ),
{
}

/// A platform without a status never passes.
pub proof fn law_status_is_required(
    status: Option<Seq<char>>,
    allowlist: Option<Seq<Seq<char>>>,
    denylist: Seq<Seq<char>>,
)
    requires
        !is_filled(status),
    ensures
        !status_passes(status, allowlist, denylist),
{
}

/// A client that a platform makes has an ID, and it has a redirect URI where there is no global
/// callback; where URLs in `links` are required, the platform has one.
pub proof fn law_platform_client_is_usable(row: PlatformRow, config: Config)
    ensures
        row_client(row, config) matches Some(client) ==> {
            &&& client.0.len() > 0
            &&& client.1.len() > 0 || is_filled(config.auth_callback_url.deep_view())
            &&& config.require_redirect_uri_from_links ==> links_uri(
                row.links.deep_view(),
                texts(config.platform_links_redirect_keys@),
            ) is Some
        },
{
    if row.links is Some {
        lemma_first_link(row.links->0@, texts(config.platform_links_redirect_keys@));
    }
}

/// A URL that is found in `links` is not empty.
proof fn lemma_first_link(links: JsonView, keys: Seq<Seq<char>>)
    ensures
        first_link(links, keys) matches Some(url) ==> url.len() > 0,
    decreases keys.len(),
{
    if keys.len() > 0 && link_at(links, keys[0]) is None {
        lemma_first_link(links, keys.drop_first());
    }
}

/// A page with errors fails the fetch, whatever else it holds and whether the errors have a
/// message or not.
pub proof fn law_errors_fail_the_fetch(fetch: FetchView, reply: GraphqlEnvelope, config: Config)
    requires
        reply.errors matches Some(list) && list@.len() > 0,
    ensures
        fetch.after(PageOutcome::Page(reply), config) is Failed,
{
}

/// What a fetch gives for the answers to its requests, as far as there are any.
pub open spec fn fetch_run(start: FetchView, answers: Seq<PageOutcome>, config: Config) -> FetchStepView
    decreases answers.len(),
{
    if answers.len() == 0 {
        FetchStepView::More(start)
    } else {
        match fetch_run(start, answers.drop_last(), config) {
            FetchStepView::More(fetch) => fetch.after(answers.last(), config),
            ended => ended,
        }
    }
}

/// The platforms of an answer; none where it is no page.
pub open spec fn rows_in(answer: PageOutcome) -> Seq<PlatformRow> {
    match answer {
        PageOutcome::Page(reply) => rows_of(reply),
        _ => Seq::empty(),
    }
}

/// The clients that the platforms of all pages make, in order.
pub open spec fn all_clients(answers: Seq<PageOutcome>, config: Config) -> Seq<ClientView>
    decreases answers.len(),
{
    if answers.len() == 0 {
        Seq::empty()
    } else {
        all_clients(answers.drop_last(), config) + page_clients(rows_in(answers.last()), config)
    }
}

/// A fetch that goes on asks for the page behind those that it got, and a fetch that ends in
/// success got the clients of every page, in order.
pub proof fn law_fetch_collects_all_pages(
    start: FetchView,
    answers: Seq<PageOutcome>,
    config: Config,
)
    requires
        start.offset == 0,
        start.found.len() == 0,
    ensures
        match fetch_run(start, answers, config) {
            FetchStepView::More(fetch) => {
                &&& fetch.url == start.url
                &&& fetch.limit == start.limit
                &&& fetch.offset == answers.len() * start.limit
                &&& fetch.found == all_clients(answers, config)
            },
            FetchStepView::Done(found) => exists|n: int|
                0 < n <= answers.len() && found == all_clients(#[trigger] answers.take(n), config),
            FetchStepView::Failed(_) => true,
        },
    decreases answers.len(),
{
    if answers.len() == 0 {
        assert(start.found =~= Seq::empty());
    } else {
        let before = answers.drop_last();
        law_fetch_collects_all_pages(start, before, config);
        match fetch_run(start, before, config) {
            FetchStepView::More(fetch) => {
                assert(answers.take(answers.len() as int) =~= answers);
                assert((answers.len() - 1) * start.limit + start.limit == answers.len()
                    * start.limit) by (nonlinear_arith);
                match answers.last() {
                    PageOutcome::Page(reply) => {
                        if fetch.after(answers.last(), config) is Done {
                            assert(all_clients(answers, config) == fetch.found + page_clients(
                                rows_of(reply),
                                config,
                            ));
                        }
                    },
                    _ => {},
                }
            },
            FetchStepView::Done(found) => {
                let n = choose|n: int|
                    0 < n <= before.len() && found == all_clients(#[trigger] before.take(n), config);
                assert(answers.take(n) =~= before.take(n));
            },
            FetchStepView::Failed(_) => {},
        }
    }
}

/// The entry that is found for an ID has that ID and no later one has it; where none is found, no
/// entry has it.
proof fn lemma_last_for(clients: Seq<AllowedClient>, id: Seq<char>)
    ensures
        match last_for(clients, id) {
            Some(c) => exists|i: int|
                0 <= i < clients.len() && #[trigger] clients[i] == c && c.client_id@ == id
                    && forall|j: int|
                    i < j < clients.len() ==> (#[trigger] clients[j]).client_id@ != id,
            None => forall|i: int|
                0 <= i < clients.len() ==> (#[trigger] clients[i]).client_id@ != id,
        },
    decreases clients.len(),
{
    if clients.len() > 0 && clients.last().client_id@ == id {
        assert(clients[clients.len() - 1] == clients.last());
    } else if clients.len() > 0 {
        let rest = clients.drop_last();
        lemma_last_for(rest, id);
        match last_for(rest, id) {
            Some(c) => {
                let i = choose|i: int|
                    0 <= i < rest.len() && #[trigger] rest[i] == c && c.client_id@ == id
                        && forall|j: int|
                        i < j < rest.len() ==> (#[trigger] rest[j]).client_id@ != id;
                assert(clients[i] == c);
                assert forall|j: int| i < j < clients.len() implies (
                #[trigger] clients[j]).client_id@ != id by {
                    if j < rest.len() {
                        assert(rest[j] == clients[j]);
                    }
                }
            },
            None => {
                assert forall|i: int| 0 <= i < clients.len() implies (
                #[trigger] clients[i]).client_id@ != id by {
                    if i < rest.len() {
                        assert(rest[i] == clients[i]);
                    }
                }
            },
        }
    }
}

/// The merged allowlist ascends by ID and holds nothing but entries of the two lists, one of the
/// indexer only where `ALLOWED_CLIENTS` has no entry with its ID.
pub proof fn law_merged_entries_come_from_the_lists(
    merged: Seq<AllowedClient>,
    indexer: Seq<AllowedClient>,
    env: Seq<AllowedClient>,
    i: int,
    j: int,
)
    requires
        is_merge(merged, indexer, env),
        0 <= i < merged.len(),
    ensures
        env.contains(merged[i]) || (indexer.contains(merged[i]) && forall|k: int|
            0 <= k < env.len() ==> (#[trigger] env[k]).client_id@ != merged[i].client_id@),
        i < j < merged.len() ==> is_before(merged[i].client_id@, merged[j].client_id@),
{
    let id = merged[i].client_id@;
    lemma_last_for_hit(merged, i);
    assert(last_for(merged, id) == Some(merged[i]));
    lemma_last_for(env, id);
    lemma_last_for(indexer, id);
}

/// Of the entries of `ALLOWED_CLIENTS` with one ID the last one is in the merged allowlist; of the
/// indexer's the last one is, where `ALLOWED_CLIENTS` has no entry with its ID.
pub proof fn law_last_entries_are_merged(
    merged: Seq<AllowedClient>,
    indexer: Seq<AllowedClient>,
    env: Seq<AllowedClient>,
    k: int,
)
    requires
        is_merge(merged, indexer, env),
    ensures
        0 <= k < env.len() && (forall|j: int|
            k < j < env.len() ==> (#[trigger] env[j]).client_id@ != env[k].client_id@)
            ==> merged.contains(env[k]),
        0 <= k < indexer.len() && (forall|j: int|
            k < j < indexer.len() ==> (#[trigger] indexer[j]).client_id@ != indexer[k].client_id@)
            && (forall|j: int|
            0 <= j < env.len() ==> (#[trigger] env[j]).client_id@ != indexer[k].client_id@)
            ==> merged.contains(indexer[k]),
{
    if 0 <= k < env.len() {
        let id = env[k].client_id@;
        lemma_last_for(env, id);
        assert(last_for(merged, id) is Some);
        lemma_last_for(merged, id);
    }
    if 0 <= k < indexer.len() {
        let id = indexer[k].client_id@;
        lemma_last_for(env, id);
        lemma_last_for(indexer, id);
        assert(last_for(indexer, id) is Some);
        assert(last_for(merged, id) is Some);
        lemma_last_for(merged, id);
    }
}

/// Where the allowlist has entries, a status that is not blank passes exactly if some entry, at
/// whatever place, equals it, both without surrounding white space.
pub proof fn law_allowlist_lets_in_its_entries(
    status: Seq<char>,
    allowlist: Seq<Seq<char>>,
    denylist: Seq<Seq<char>>,
)
    requires
        trimmed(status).len() > 0,
        allowlist.len() > 0,
    ensures
        status_passes(Some(status), Some(allowlist), denylist) <==> exists|i: int|
            0 <= i < allowlist.len() && trimmed(#[trigger] allowlist[i]) == trimmed(status),
        forall|i: int|
            0 <= i < allowlist.len() && trimmed(#[trigger] allowlist[i]) == trimmed(status)
                ==> status_passes(Some(status), Some(allowlist), denylist),
{
}

/// Without an allowlist, a status that is not blank is shut out exactly if some entry of the
/// denylist, at whatever place, equals it, both without surrounding white space.
pub proof fn law_denylist_shuts_out_its_entries(status: Seq<char>, denylist: Seq<Seq<char>>)
    requires
        trimmed(status).len() > 0,
    ensures
        !status_passes(Some(status), None, denylist) <==> exists|i: int|
            0 <= i < denylist.len() && trimmed(#[trigger] denylist[i]) == trimmed(status),
{
}

/// The order of a list, and how often an entry stands in it, change nothing.
pub proof fn law_list_order_does_not_count(
    status: Option<Seq<char>>,
    a: Seq<Seq<char>>,
    b: Seq<Seq<char>>,
    denylist: Seq<Seq<char>>,
)
    requires
        forall|entry: Seq<char>| #[trigger] a.contains(entry) <==> b.contains(entry),
    ensures
        status_passes(status, Some(a), denylist) == status_passes(status, Some(b), denylist),
        status_passes(status, None, a) == status_passes(status, None, b),
{
    assert(a.len() > 0 <==> b.len() > 0) by {
        if a.len() > 0 {
            assert(a.contains(a[0]));
        }
        if b.len() > 0 {
            assert(b.contains(b[0]));
            assert(a.contains(b[0]));
        }
    }
    if status is Some {
        let word = trimmed(status->0);
        if is_listed(a, word) {
            let i = choose|i: int| 0 <= i < a.len() && trimmed(#[trigger] a[i]) == word;
            assert(a.contains(a[i]));
            let j = choose|j: int| 0 <= j < b.len() && b[j] == a[i];
            assert(trimmed(b[j]) == word);
        }
        if is_listed(b, word) {
            let i = choose|i: int| 0 <= i < b.len() && trimmed(#[trigger] b[i]) == word;
            assert(b.contains(b[i]));
            assert(a.contains(b[i]));
            let j = choose|j: int| 0 <= j < a.len() && a[j] == b[i];
            assert(trimmed(a[j]) == word);
        }
    }
}

/// More entries on an allowlist never shut out a status that passed, and more entries on a denylist
/// never let one in.
pub proof fn law_longer_lists(
    status: Option<Seq<char>>,
    list: Seq<Seq<char>>,
    before: Seq<Seq<char>>,
    behind: Seq<Seq<char>>,
    denylist: Seq<Seq<char>>,
)
    ensures
        list.len() > 0 && status_passes(status, Some(list), denylist) ==> status_passes(
            status,
            Some(before + list + behind),
            denylist,
        ),
        status_passes(status, None, before + list + behind) ==> status_passes(status, None, list),
{
    let longer = before + list + behind;
    if status is Some {
        let word = trimmed(status->0);
        if is_listed(list, word) {
            let i = choose|i: int| 0 <= i < list.len() && trimmed(#[trigger] list[i]) == word;
            assert(longer[before.len() + i] == list[i]);
            assert(is_listed(longer, word));
        }
    }
}

/// White space around a status makes no difference.
pub proof fn law_white_space_around_status(
    status: Seq<char>,
    allowlist: Option<Seq<Seq<char>>>,
    denylist: Seq<Seq<char>>,
)
    ensures
        status_passes(Some(status), allowlist, denylist) == status_passes(
            Some(trimmed(status)),
            allowlist,
            denylist,
        ),
{
    law_trimmed(status);
}

/// A URL in `links` stands, without surrounding white space, under the first key that has a text
/// that is not blank; none is found exactly where no key has one.
pub proof fn law_first_key_with_url_wins(links: JsonView, keys: Seq<Seq<char>>)
    ensures
        match links_uri(Some(links), keys) {
            Some(url) => exists|i: int|
                0 <= i < keys.len() && trimmed(#[trigger] keys[i]).len() > 0 && (
                links.text_member(trimmed(keys[i])) matches Some(text) && trimmed(text).len() > 0
                    && url == trimmed(text)) && forall|j: int|
                    0 <= j < i ==> trimmed(#[trigger] keys[j]).len() == 0 || (links.text_member(
                        trimmed(keys[j]),
                    ) matches Some(text) ==> trimmed(text).len() == 0),
            None => forall|j: int|
                0 <= j < keys.len() ==> trimmed(#[trigger] keys[j]).len() == 0 || (
                links.text_member(trimmed(keys[j])) matches Some(text) ==> trimmed(text).len() == 0),
        },
        links_uri(None, keys) is None,
    decreases keys.len(),
{
    if keys.len() > 0 && link_at(links, keys[0]) is None {
        let rest = keys.drop_first();
        law_first_key_with_url_wins(links, rest);
        match links_uri(Some(links), rest) {
            Some(url) => {
                let i = choose|i: int|
                    0 <= i < rest.len() && trimmed(#[trigger] rest[i]).len() > 0 && (
                    links.text_member(trimmed(rest[i])) matches Some(text) && trimmed(text).len()
                        > 0 && url == trimmed(text)) && forall|j: int|
                        0 <= j < i ==> trimmed(#[trigger] rest[j]).len() == 0 || (
                        links.text_member(trimmed(rest[j])) matches Some(text) ==> trimmed(
                            text,
                        ).len() == 0);
                assert(keys[i + 1] == rest[i]);
                assert forall|j: int| 0 <= j < i + 1 implies trimmed(#[trigger] keys[j]).len() == 0
                    || (links.text_member(trimmed(keys[j])) matches Some(text) ==> trimmed(
                    text,
                ).len() == 0) by {
                    if j > 0 {
                        assert(keys[j] == rest[j - 1]);
                    }
                }
            },
            None => {
                assert forall|j: int| 0 <= j < keys.len() implies trimmed(#[trigger] keys[j]).len()
                    == 0 || (links.text_member(trimmed(keys[j])) matches Some(text) ==> trimmed(
                    text,
                ).len() == 0) by {
                    if j > 0 {
                        assert(keys[j] == rest[j - 1]);
                    }
                }
            },
        }
    } else if keys.len() > 0 {
        assert(trimmed(keys[0]).len() > 0);
    }
}

/// An on-chain redirect URI that is not blank is the platform's, whatever its links say; only else
/// do the links decide.
pub proof fn law_on_chain_uri_wins(
    uri: Option<Seq<char>>,
    links: Option<JsonView>,
    keys: Seq<Seq<char>>,
)
    ensures
        uri matches Some(u) ==> trimmed(u).len() > 0 ==> platform_uri(uri, links, keys) == Some(
            trimmed(u),
        ),
        (uri matches Some(u) ==> trimmed(u).len() == 0) ==> platform_uri(uri, links, keys)
            == links_uri(links, keys),
{
}

/// A platform makes a client exactly where its status passes, it has an ID that is not blank, it
/// has a URL in its links where those are asked for, and it has a redirect URI or there is a global
/// callback. The client has the platform's ID without surrounding white space, and the platform's
/// redirect URI, or an empty one where it has none.
pub proof fn law_what_platforms_make(row: PlatformRow, config: Config)
    ensures
        ({
            let keys = texts(config.platform_links_redirect_keys@);
            let links = row.links.deep_view();
            let uri = platform_uri(row.redirect_uri.deep_view(), links, keys);
            &&& row_client(row, config) is Some <==> {
                &&& status_passes(
                    row.status_text.deep_view(),
                    list_texts(config.platform_status_allowlist),
                    texts(config.platform_status_denylist@),
                )
                &&& (row.platform_id matches Some(id) && trimmed(id@).len() > 0)
                &&& config.require_redirect_uri_from_links ==> links_uri(links, keys) is Some
                &&& uri is Some || (config.auth_callback_url matches Some(url) && trimmed(
                    url@,
                ).len() > 0)
            }
            &&& row_client(row, config) matches Some(client) ==> client.0 == trimmed(
                row.platform_id->0@,
            )
            &&& row_client(row, config) matches Some(client) ==> match uri {
                Some(u) => client.1 == u,
                None => client.1.len() == 0,
            }
        }),
{
}

/// The clients of a page are those of its first platforms and then those of the others, each
/// platform making its own client or none.
pub proof fn law_platforms_make_clients_in_order(
    a: Seq<PlatformRow>,
    b: Seq<PlatformRow>,
    config: Config,
)
    ensures
        page_clients(a + b, config) == page_clients(a, config) + page_clients(b, config),
        a.len() == 1 ==> page_clients(a, config) == (match row_client(a[0], config) {
            Some(client) => seq![client],
            None => Seq::empty(),
        }),
    decreases b.len(),
{
    if b.len() == 0 {
        assert(a + b =~= a);
        assert(page_clients(a, config) + page_clients(b, config) =~= page_clients(a, config));
    } else {
        law_platforms_make_clients_in_order(a, b.drop_last(), config);
        assert((a + b).drop_last() =~= a + b.drop_last());
        assert((a + b).last() == b.last());
        assert(page_clients(a + b, config) =~= page_clients(a, config) + page_clients(b, config));
    }
    if a.len() == 1 {
        assert(page_clients(a.drop_last(), config) =~= Seq::empty());
        assert(page_clients(a, config) =~= (match row_client(a[0], config) {
            Some(client) => seq![client],
            None => Seq::empty(),
        }));
    }
}

/// A fetch ends in success exactly at a page without errors that has fewer platforms than asked
/// for; with as many as asked for it goes on, at the place behind them. Anything that is no such
/// page fails it. The platforms of a page are counted in 32 bits.
pub proof fn law_short_page_ends_the_fetch(fetch: FetchView, outcome: PageOutcome, config: Config)
    requires
        fetch.limit > 0,
    ensures
        ({
            let errors = match outcome {
                PageOutcome::Page(reply) => match reply.errors {
                    Some(list) => list@.len(),
                    None => 0,
                },
                _ => 0,
            };
            let rows = rows_in(outcome);
            let shown = rows.len() % 0x1_0000_0000;
            let step = fetch.after(outcome, config);
            &&& step is Failed <==> (!(outcome is Page) || errors > 0)
            &&& step is Done <==> outcome is Page && errors == 0 && shown < fetch.limit
            &&& step is More <==> outcome is Page && errors == 0 && shown >= fetch.limit
            &&& step is More <==> fetch.goes_on(outcome)
            &&& step matches FetchStepView::Done(found) ==> found == fetch.found + page_clients(
                rows,
                config,
            )
            &&& step matches FetchStepView::More(next) ==> {
                &&& next.found == fetch.found + page_clients(rows, config)
                &&& next.offset == fetch.offset + fetch.limit
                &&& next.limit == fetch.limit
                &&& next.url == fetch.url
            }
        }),
{
}

/// A fetch takes an indexer URL that is not blank. It asks there, without white space around the
/// URL, from the first platform on, and for at least one platform a page.
pub proof fn law_fetch_starts_at_the_indexer(config: Config)
    ensures
        fetch_start(config) is Some <==> (config.myso_indexer_graphql_url matches Some(url)
            && trimmed(url@).len() > 0),
        fetch_start(config) matches Some(start) ==> {
            &&& start.url == trimmed(config.myso_indexer_graphql_url->0@)
            &&& start.offset == 0
            &&& start.found.len() == 0
            &&& start.limit >= 1
            &&& config.indexer_platforms_page_limit >= 1 ==> start.limit
                == config.indexer_platforms_page_limit
            &&& config.indexer_platforms_page_limit == 0 ==> start.limit == 1
        },
{
}

/// Every message of an error is told, and nothing is told where no error has one.
pub proof fn law_every_message_is_told(errors: Seq<GraphqlError>, i: int)
    requires
        0 <= i < errors.len(),
    ensures
        errors[i].message matches Some(message) ==> (joined_messages(errors) matches Some(text)
            && occurs_in(text, message@)),
        joined_messages(errors) is None <==> forall|j: int|
            0 <= j < errors.len() ==> (#[trigger] errors[j]).message is None,
    decreases errors.len(),
{
    let rest = errors.drop_last();
    let last = errors[errors.len() - 1];
    if rest.len() > 0 {
        law_every_message_is_told(
            rest,
            if i < rest.len() {
                i
            } else {
                0
            },
        );
        assert forall|j: int| 0 <= j < rest.len() implies rest[j] == #[trigger] errors[j] by {}
        if forall|j: int| 0 <= j < errors.len() ==> (#[trigger] errors[j]).message is None {
            assert(last.message is None);
            assert forall|j: int| 0 <= j < rest.len() implies (#[trigger] rest[j]).message
                is None by {
                assert(errors[j].message is None);
            }
        }
        if joined_messages(errors) is None {
            assert forall|j: int| 0 <= j < errors.len() implies (#[trigger] errors[j]).message
                is None by {
                if j < rest.len() {
                    assert(rest[j].message is None);
                }
            }
        }
    } else {
        assert(joined_messages(rest) is None);
        assert(last.message is None <==> joined_messages(errors) is None);
        if joined_messages(errors) is Some {
            assert(errors[0].message is Some);
        }
    }
    if errors[i].message is Some {
        let message = errors[i].message->0@;
        let text = joined_messages(errors)->0;
        if i == errors.len() - 1 {
            match joined_messages(rest) {
                Some(before) => {
                    assert(text =~= (before + "; "@) + message + Seq::<char>::empty());
                    law_occurrence(text, message);
                },
                None => {
                    assert(text =~= Seq::<char>::empty() + message + Seq::<char>::empty());
                    law_occurrence(text, message);
                },
            }
        } else {
            let before = joined_messages(rest)->0;
            law_occurrence(before, message);
            let (left, right) = choose|left: Seq<char>, right: Seq<char>|
                before == #[trigger] (left + message + right);
            match last.message {
                Some(m) => {
                    assert(text =~= left + message + (right + "; "@ + m@));
                    law_occurrence(text, message);
                },
                None => {},
            }
        }
    }
}

/// A fetch that fails because of reported errors tells every message of theirs.
pub proof fn law_failure_tells_messages(
    fetch: FetchView,
    reply: GraphqlEnvelope,
    config: Config,
    i: int,
)
    requires
        reply.errors matches Some(list) && 0 <= i < list@.len() && list@[i].message is Some,
    ensures
        fetch.after(PageOutcome::Page(reply), config) matches FetchStepView::Failed(reason)
            && occurs_in(reason, reply.errors->0@[i].message->0@),
{
    let errors = reply.errors->0@;
    law_every_message_is_told(errors, i);
    let message = errors[i].message->0@;
    let text = joined_messages(errors)->0;
    law_occurrence(text, message);
    let (left, right) = choose|left: Seq<char>, right: Seq<char>|
        text == #[trigger] (left + message + right);
    let prefix = "indexer GraphQL errors: "@;
    let reason = prefix + text;
    assert(reason =~= (prefix + left) + message + right);
    law_occurrence(reason, message);
}

/// An optional list is there exactly where it is set, and holds all of its entries, in order; and
/// so does a list of clients.
pub proof fn law_lists_are_whole(list: Option<Vec<String>>, clients: Seq<AllowedClient>, i: int)
    ensures
        list_texts(list) is Some <==> list is Some,
        list matches Some(items) ==> list_texts(list)->0.len() == items@.len(),
        list matches Some(items) ==> 0 <= i < items@.len() ==> list_texts(list)->0[i] == items@[i]@,
        client_views(clients).len() == clients.len(),
        0 <= i < clients.len() ==> client_views(clients)[i] == (
            clients[i].client_id@,
            clients[i].redirect_uri@,
        ),
{
}

/// A fetch says where it asks, from where on, for how many platforms, and what it found.
pub proof fn law_fetch_says_what_it_asks(fetch: IndexerFetch)
    ensures
        fetch@.url == fetch.url@,
        fetch@.limit == fetch.limit,
        fetch@.offset == fetch.offset,
        fetch@.found == client_views(fetch.found@),
        FetchStep::More(fetch)@ == FetchStepView::More(fetch@),
        FetchStep::Done(fetch.found)@ == FetchStepView::Done(client_views(fetch.found@)),
        FetchStep::Failed(fetch.url)@ == FetchStepView::Failed(fetch.url@),
{
}

/// A fetch that fails because of a failure status tells the status and the body.
pub proof fn law_failure_tells_status_and_body(
    fetch: FetchView,
    status: String,
    body: String,
    config: Config,
)
    ensures
        fetch.after((PageOutcome::HttpError { status, body }), config) matches FetchStepView::Failed(
            reason,
        ) && occurs_in(reason, status@) && occurs_in(reason, body@),
{
    let reason = "indexer GraphQL HTTP "@ + status@ + ": "@ + body@;
    assert(reason =~= "indexer GraphQL HTTP "@ + status@ + (": "@ + body@));
    law_occurrence(reason, status@);
    assert(reason =~= ("indexer GraphQL HTTP "@ + status@ + ": "@) + body@ + Seq::<char>::empty());
    law_occurrence(reason, body@);
}

} // verus!
