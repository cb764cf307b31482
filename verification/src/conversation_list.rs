//! The list of conversations, tasks and agent sessions, and the search in it.
//!
//! The fuzzy matcher runs outside: a search hands out the titles to match and takes the matches
//! back. Until it has them the list stays as it is.
use vstd::prelude::*;

use crate::ranking::{rank_items, Ranked};
#[allow(unused_imports)]
use crate::ranking::{
    kept_positions, rank_of, rankings_order_the_items, stable_ranking_is_unique, stably_ranked, views,
};
use crate::session_cache::copy_sessions;
use crate::session_scanner::{CLIAgent, DiscoveredCLIAgentSession};
#[allow(unused_imports)]
use crate::session_scanner::{text_view, SessionView};
use crate::text::{same_text, to_lowercase, trim};
#[allow(unused_imports)]
use crate::text::{
    is_blank, is_white_space, lowercased, trimmed, white_space_around_is_trimmed,
};

verus! {

broadcast use vstd::seq_lib::group_seq_properties;

/// The identifier of a conversation.
#[derive(Clone, Copy, Debug, PartialEq, Eq, Structural, Hash)]
pub struct AIConversationId(pub u128);

/// The identifier of a task that runs in the background.
#[derive(Clone, Copy, Debug, PartialEq, Eq, Structural, Hash)]
pub struct AmbientAgentTaskId(pub u128);

/// The identifier of an item of the list.
#[derive(Debug, PartialEq, Eq, Hash)]
pub enum ConversationOrTaskId {
    ConversationId(AIConversationId),
    TaskId(AmbientAgentTaskId),
    /// A session of a command-line agent.
    CLIAgentSession { session_id: String, agent_type: CLIAgent },
}

/// The model of [`ConversationOrTaskId`].
pub ghost enum IdView {
    ConversationId(AIConversationId),
    TaskId(AmbientAgentTaskId),
    CLIAgentSession { session_id: Seq<char>, agent_type: CLIAgent },
}

/// What a [`ConversationOrTask`] is.
#[derive(Clone, Copy, Debug, PartialEq, Eq, Structural, Hash)]
pub enum ItemKey {
    Task(AmbientAgentTaskId),
    Conversation(AIConversationId),
}

/// A conversation or a task, as the list sees it.
#[derive(Debug)]
pub struct ConversationOrTask {
    pub key: ItemKey,
    pub title: String,
    /// Whether its session is available, where it has one.
    pub session_available: Option<bool>,
    /// Whether its source is one that the user sets off, where the source is known.
    pub user_initiated: Option<bool>,
    /// Whether the user has opened it by hand.
    pub manually_opened: bool,
}

/// The model of [`ConversationOrTask`].
pub ghost struct ItemView {
    pub key: ItemKey,
    pub title: Seq<char>,
    pub session_available: Option<bool>,
    pub user_initiated: Option<bool>,
    pub manually_opened: bool,
}

/// All conversations and tasks that are known.
#[derive(Debug)]
pub struct ConversationDirectory {
    pub items: Vec<ConversationOrTask>,
}

/// A change of the known conversations and tasks.
#[derive(Clone, Copy, Debug, PartialEq, Eq, Structural)]
pub enum AgentConversationsModelEvent {
    ConversationsLoaded,
    TasksUpdated,
    TaskManuallyOpened,
    ConversationUpdated,
    ConversationArtifactsUpdated,
}

/// What the list does about a change.
#[derive(Clone, Copy, Debug, PartialEq, Eq, Structural)]
pub enum ModelReaction {
    /// The list is put together anew.
    Refresh,
    /// The list stays as it is; its viewers are told to draw it again.
    Emit,
    Ignore,
}

/// Told to the viewers of the list when it may look different.
#[derive(Clone, Copy, Debug, PartialEq, Eq, Structural)]
pub struct ConversationListViewModelEvent;

/// An item of the list as it is shown, with the characters of its title that a search matched.
#[derive(Debug)]
pub struct ConversationEntry {
    pub id: ConversationOrTaskId,
    pub highlight_indices: Vec<usize>,
}

/// The model of [`ConversationEntry`].
pub ghost struct ShownView {
    pub id: IdView,
    pub highlight_indices: Seq<usize>,
}

/// How well a title matches a search term, and at which of its characters.
#[derive(Debug)]
pub struct TitleMatch {
    pub score: i64,
    pub matched_indices: Vec<usize>,
}

/// The model of [`TitleMatch`].
pub ghost struct MatchView {
    pub score: i64,
    pub matched_indices: Seq<usize>,
}

/// The items of a list, the agent sessions among them, and what is searched for.
#[derive(Debug)]
pub struct ItemList {
    ids: Vec<ConversationOrTaskId>,
    sessions: Vec<DiscoveredCLIAgentSession>,
    query: String,
}

/// The model of [`ItemList`].
pub ghost struct ItemsView {
    pub ids: Seq<IdView>,
    pub sessions: Seq<SessionView>,
    pub query: Seq<char>,
}

/// A search term and the titles to match with it, one for each item of the list to come; an item
/// whose title is not known has none.
#[derive(Debug)]
pub struct MatchRequest {
    pub term: String,
    pub titles: Vec<Option<String>>,
    /// The list to come.
    pub list: ItemList,
}

/// How far a search has come.
#[derive(Debug)]
pub enum SearchStep {
    /// The search is the one that is shown already.
    Unchanged,
    /// The list is complete.
    Listed(ConversationListViewModelEvent),
    /// The titles have to be matched; [`ConversationListViewModel::apply_search_filter`] takes
    /// the matches. Until then the list is the one from before.
    Match(MatchRequest),
}

/// An item that a search matched, with its score.
struct ScoredEntry {
    score: i64,
    entry: ConversationEntry,
}

/// The model of an item that a search matched.
pub ghost struct ScoredView {
    pub score: i64,
    pub entry: ShownView,
}

/// The list of conversations, tasks and agent sessions.
#[derive(Debug)]
pub struct ConversationListViewModel {
    list: ItemList,
    filtered_items: Vec<ConversationEntry>,
}

/// The model of [`ConversationListViewModel`].
pub ghost struct ListView {
    /// All items.
    pub ids: Seq<IdView>,
    /// The items that are shown.
    pub shown: Seq<ShownView>,
    pub query: Seq<char>,
    pub sessions: Seq<SessionView>,
}

impl View for ConversationOrTaskId {
    type V = IdView;

    open spec fn view(&self) -> IdView {
        match self {
            ConversationOrTaskId::ConversationId(id) => IdView::ConversationId(*id),
            ConversationOrTaskId::TaskId(id) => IdView::TaskId(*id),
            ConversationOrTaskId::CLIAgentSession { session_id, agent_type } => {
                IdView::CLIAgentSession { session_id: session_id@, agent_type: *agent_type }
            },
        }
    }
}

impl View for ConversationOrTask {
    type V = ItemView;

    open spec fn view(&self) -> ItemView {
        ItemView {
            key: self.key,
            title: self.title@,
            session_available: self.session_available,
            user_initiated: self.user_initiated,
            manually_opened: self.manually_opened,
        }
    }
}

impl View for ConversationDirectory {
    type V = Seq<ItemView>;

    open spec fn view(&self) -> Seq<ItemView> {
        views(self.items@)
    }
}

impl View for ConversationEntry {
    type V = ShownView;

    open spec fn view(&self) -> ShownView {
        ShownView { id: self.id@, highlight_indices: self.highlight_indices@ }
    }
}

impl View for TitleMatch {
    type V = MatchView;

    open spec fn view(&self) -> MatchView {
        MatchView { score: self.score, matched_indices: self.matched_indices@ }
    }
}

impl View for ScoredEntry {
    type V = ScoredView;

    closed spec fn view(&self) -> ScoredView {
        ScoredView { score: self.score, entry: self.entry@ }
    }
}

impl View for ConversationListViewModel {
    type V = ListView;

    closed spec fn view(&self) -> ListView {
        ListView {
            ids: self.list@.ids,
            shown: views(self.filtered_items@),
            query: self.list@.query,
            sessions: self.list@.sessions,
        }
    }
}

impl View for ItemList {
    type V = ItemsView;

    closed spec fn view(&self) -> ItemsView {
        ItemsView { ids: views(self.ids@), sessions: views(self.sessions@), query: self.query@ }
    }
}

impl Ranked for ScoredEntry {
    closed spec fn rank(item: ScoredView) -> int {
        item.score as int
    }

    fn ranks_below(&self, other: &Self) -> (below: bool) {
        self.score < other.score
    }
}

/// The item is listed: its session is available, if it has one, and the user has set it off or
/// opened it by hand. A conversation cannot be opened by hand.
pub open spec fn is_listed(item: ItemView) -> bool {
    &&& item.session_available != Some(false)
    &&& item.user_initiated == Some(true) || (item.key is Task && item.manually_opened)
}

/// The identifier of a conversation or a task in the list.
pub open spec fn key_id(key: ItemKey) -> IdView {
    match key {
        ItemKey::Task(id) => IdView::TaskId(id),
        ItemKey::Conversation(id) => IdView::ConversationId(id),
    }
}

/// The identifier of an item where the item is listed.
pub open spec fn listed_id(item: ItemView) -> Option<IdView> {
    if is_listed(item) {
        Some(key_id(item.key))
    } else {
        None
    }
}

/// The identifier of a session in the list.
pub open spec fn session_list_id(session: SessionView) -> IdView {
    IdView::CLIAgentSession { session_id: session.id, agent_type: session.agent_type }
}

/// The items of the list: the listed conversations and tasks in their order, and behind them the
/// agent sessions in theirs.
pub open spec fn list_ids(items: Seq<ItemView>, sessions: Seq<SessionView>) -> Seq<IdView> {
    items.filter_map(|item: ItemView| listed_id(item)) + sessions.map_values(
        |session: SessionView| session_list_id(session),
    )
}

/// Freshly scanned sessions take the place of the present ones: there are some, and they differ
/// from the present ones in their number or in the first of them.
pub open spec fn sessions_replaced(present: Seq<SessionView>, fresh: Seq<SessionView>) -> bool {
    fresh.len() > 0 && (present.len() != fresh.len() || present[0].id != fresh[0].id)
}

/// The term that a query searches for.
pub open spec fn search_term(query: Seq<char>) -> Seq<char> {
    lowercased(trimmed(query))
}

/// Every item as it is shown where nothing is searched for.
pub open spec fn all_shown(ids: Seq<IdView>) -> Seq<ShownView> {
    ids.map_values(|id: IdView| ShownView { id, highlight_indices: seq![] })
}

/// The first item with a key.
pub open spec fn first_with_key(items: Seq<ItemView>, key: ItemKey) -> Option<ItemView>
    decreases items.len(),
{
    if items.len() == 0 {
        None
    } else if items.first().key == key {
        Some(items.first())
    } else {
        first_with_key(items.drop_first(), key)
    }
}

/// The first session with an identifier.
pub open spec fn first_with_id(sessions: Seq<SessionView>, id: Seq<char>) -> Option<SessionView>
    decreases sessions.len(),
{
    if sessions.len() == 0 {
        None
    } else if sessions.first().id == id {
        Some(sessions.first())
    } else {
        first_with_id(sessions.drop_first(), id)
    }
}

/// The title of an item, where the item is known.
pub open spec fn title_of(
    id: IdView,
    directory: Seq<ItemView>,
    sessions: Seq<SessionView>,
) -> Option<Seq<char>> {
    match id {
        IdView::TaskId(id) => match first_with_key(directory, ItemKey::Task(id)) {
            Some(item) => Some(item.title),
            None => None,
        },
        IdView::ConversationId(id) => match first_with_key(directory, ItemKey::Conversation(id)) {
            Some(item) => Some(item.title),
            None => None,
        },
        IdView::CLIAgentSession { session_id, .. } => match first_with_id(sessions, session_id) {
            Some(session) => Some(session.title),
            None => None,
        },
    }
}

/// The titles of the items of the list.
pub open spec fn list_titles(list: ItemsView, directory: Seq<ItemView>) -> Seq<Option<Seq<char>>> {
    list.ids.map_values(|id: IdView| title_of(id, directory, list.sessions))
}

/// The models of optional texts.
pub open spec fn text_views(texts: Seq<Option<String>>) -> Seq<Option<Seq<char>>> {
    Seq::new(texts.len(), |i: int| text_view(texts[i]))
}

/// The models of optional matches.
pub open spec fn match_views(matches: Seq<Option<TitleMatch>>) -> Seq<Option<MatchView>> {
    Seq::new(
        matches.len(),
        |i: int|
            match matches[i] {
                Some(found) => Some(found@),
                None => None,
            },
    )
}

/// The item at `i` as a search found it: its title is known and matched.
pub open spec fn scored_item(
    ids: Seq<IdView>,
    titles: Seq<Option<Seq<char>>>,
    matches: Seq<Option<MatchView>>,
    i: int,
) -> Option<ScoredView> {
    if i < titles.len() && titles[i] is Some && i < matches.len() && matches[i] is Some {
        Some(
            ScoredView {
                score: matches[i]->0.score,
                entry: ShownView { id: ids[i], highlight_indices: matches[i]->0.matched_indices },
            },
        )
    } else {
        None
    }
}

/// The first `n` items as far as a search found them.
pub open spec fn scored_items(
    ids: Seq<IdView>,
    titles: Seq<Option<Seq<char>>>,
    matches: Seq<Option<MatchView>>,
    n: int,
) -> Seq<ScoredView>
    decreases n,
{
    if n <= 0 {
        seq![]
    } else {
        match scored_item(ids, titles, matches, n - 1) {
            Some(item) => scored_items(ids, titles, matches, n - 1).push(item),
            None => scored_items(ids, titles, matches, n - 1),
        }
    }
}

/// The order of search results: by descending score.
pub open spec fn score_of() -> spec_fn(ScoredView) -> int {
    |item: ScoredView| item.score as int
}

/// `shown` are the items that a search found, the best match first; items that match equally
/// well stand in the order of the list.
pub open spec fn search_results(
    ids: Seq<IdView>,
    titles: Seq<Option<Seq<char>>>,
    matches: Seq<Option<MatchView>>,
    shown: Seq<ShownView>,
) -> bool {
    exists|ranked: Seq<ScoredView>|
        {
            &&& #[trigger] stably_ranked(
                scored_items(ids, titles, matches, ids.len() as int),
                ranked,
                score_of(),
            )
            &&& shown == ranked.map_values(|item: ScoredView| item.entry)
        }
}

impl ItemsView {
    /// The list that shows `shown` of these items.
    pub open spec fn showing(self, shown: Seq<ShownView>) -> ListView {
        ListView { ids: self.ids, shown, query: self.query, sessions: self.sessions }
    }
}

/// `step` is what a search for `term` in `list` comes to: where the term is empty every item of
/// `list` is shown at once, else the titles have to be matched and what there was before stays for
/// the time being.
pub open spec fn searched(
    before: ListView,
    after: ListView,
    list: ItemsView,
    directory: Seq<ItemView>,
    term: Seq<char>,
    step: SearchStep,
) -> bool {
    if term.len() == 0 {
        step is Listed && after == list.showing(all_shown(list.ids))
    } else {
        &&& after == before
        &&& step matches SearchStep::Match(request)
        &&& request.term@ == term
        &&& request.list@ == list
        &&& text_views(request.titles@) == list_titles(list, directory)
    }
}

/// The items of a list once it has been put together anew from the conversations and tasks in
/// `items` and from the agent sessions, of which freshly scanned ones count where they differ.
pub open spec fn refreshed(
    before: ListView,
    fresh: Seq<SessionView>,
    items: Seq<ItemView>,
) -> ItemsView {
    let sessions = if sessions_replaced(before.sessions, fresh) {
        fresh
    } else {
        before.sessions
    };
    ItemsView { ids: list_ids(items, sessions), sessions, query: before.query }
}

/// What is found under an identifier among agent sessions.
pub open spec fn session_lookup(sessions: Seq<SessionView>, id: IdView) -> Option<SessionView> {
    match id {
        IdView::CLIAgentSession { session_id, .. } => first_with_id(sessions, session_id),
        _ => None,
    }
}

/// What a directory answers about an identifier among its conversations and tasks.
pub open spec fn item_lookup(directory: Seq<ItemView>, id: IdView) -> Option<ItemView> {
    match id {
        IdView::TaskId(id) => first_with_key(directory, ItemKey::Task(id)),
        IdView::ConversationId(id) => first_with_key(directory, ItemKey::Conversation(id)),
        IdView::CLIAgentSession { .. } => None,
    }
}

/// Every agent session among the items is one of the sessions.
pub open spec fn sessions_known(ids: Seq<IdView>, sessions: Seq<SessionView>) -> bool {
    forall|i: int|
        0 <= i < ids.len() && (#[trigger] ids[i]) is CLIAgentSession ==> session_lookup(
            sessions,
            ids[i],
        ) is Some
}

impl ListView {
    /// The list knows its agent sessions, and whatever is shown is an item of it.
    pub open spec fn up_to_date(self) -> bool {
        &&& sessions_known(self.ids, self.sessions)
        &&& forall|i: int|
            0 <= i < self.shown.len() ==> self.ids.contains(#[trigger] self.shown[i].id)
    }
}

impl Clone for ConversationEntry {
    fn clone(&self) -> (copy: Self)
        ensures
            copy@ == self@,
    {
        ConversationEntry {
            id: self.id.clone(),
            highlight_indices: copy_indices(&self.highlight_indices),
        }
    }
}

impl Clone for ConversationOrTaskId {
    fn clone(&self) -> (copy: Self)
        ensures
            copy@ == self@,
    {
        match self {
            ConversationOrTaskId::ConversationId(id) => ConversationOrTaskId::ConversationId(*id),
            ConversationOrTaskId::TaskId(id) => ConversationOrTaskId::TaskId(*id),
            ConversationOrTaskId::CLIAgentSession { session_id, agent_type } => {
                ConversationOrTaskId::CLIAgentSession {
                    session_id: session_id.clone(),
                    agent_type: *agent_type,
                }
            },
        }
    }
}

impl ConversationOrTaskId {
    /// The conversation that the identifier names.
    pub fn conversation_id(&self) -> (id: Option<AIConversationId>)
        ensures
            id == match *self {
                ConversationOrTaskId::ConversationId(id) => Some(id),
                _ => None,
            },
    {
        match self {
            ConversationOrTaskId::ConversationId(id) => Some(*id),
            ConversationOrTaskId::TaskId(_) | ConversationOrTaskId::CLIAgentSession { .. } => None,
        }
    }

    /// The task that the identifier names.
    pub fn task_id(&self) -> (id: Option<AmbientAgentTaskId>)
        ensures
            id == match *self {
                ConversationOrTaskId::TaskId(id) => Some(id),
                _ => None,
            },
    {
        match self {
            ConversationOrTaskId::TaskId(id) => Some(*id),
            ConversationOrTaskId::ConversationId(_) | ConversationOrTaskId::CLIAgentSession {
                ..
            } => None,
        }
    }
}

impl ConversationOrTask {
    /// Whether the item is listed.
    pub fn is_listed(&self) -> (listed: bool)
        ensures
            listed == is_listed(self@),
    {
        let available = match self.session_available {
            Some(available) => available,
            None => true,
        };
        let user_initiated = match self.user_initiated {
            Some(user_initiated) => user_initiated,
            None => false,
        };
        let manually_opened = match self.key {
            ItemKey::Task(_) => self.manually_opened,
            ItemKey::Conversation(_) => false,
        };
        available && (user_initiated || manually_opened)
    }

    /// The identifier of the item in the list.
    pub fn list_id(&self) -> (id: ConversationOrTaskId)
        ensures
            id@ == key_id(self.key),
    {
        match self.key {
            ItemKey::Task(id) => ConversationOrTaskId::TaskId(id),
            ItemKey::Conversation(id) => ConversationOrTaskId::ConversationId(id),
        }
    }
}

/// Whether two keys are the same.
fn same_key(left: ItemKey, right: ItemKey) -> (same: bool)
    ensures
        same == (left == right),
{
    match (left, right) {
        (ItemKey::Task(left), ItemKey::Task(right)) => left.0 == right.0,
        (ItemKey::Conversation(left), ItemKey::Conversation(right)) => left.0 == right.0,
        _ => false,
    }
}

/// The model of an optional item.
pub open spec fn item_view(item: Option<&ConversationOrTask>) -> Option<ItemView> {
    match item {
        Some(item) => Some(item@),
        None => None,
    }
}

impl ConversationDirectory {
    /// The first item with a key.
    fn find(&self, key: ItemKey) -> (item: Option<&ConversationOrTask>)
        ensures
            item_view(item) == first_with_key(self@, key),
    {
        let mut i: usize = 0;
        let ghost all = self@;
        assert(all.skip(0) =~= all);
        while i < self.items.len()
            invariant
                i <= self.items.len(),
                all == self@,
                first_with_key(all, key) == first_with_key(all.skip(i as int), key),
            decreases self.items.len() - i,
        {
            assert(all.skip(i as int).first() == self.items@[i as int]@);
            if same_key(self.items[i].key, key) {
                return Some(&self.items[i]);
            }
            assert(all.skip(i as int).drop_first() =~= all.skip(i + 1));
            i += 1;
        }
        None
    }

    /// The task with an identifier.
    pub fn get_task(&self, id: AmbientAgentTaskId) -> (item: Option<&ConversationOrTask>)
        ensures
            item_view(item) == first_with_key(self@, ItemKey::Task(id)),
    {
        self.find(ItemKey::Task(id))
    }

    /// The conversation with an identifier.
    pub fn get_conversation(&self, id: AIConversationId) -> (item: Option<&ConversationOrTask>)
        ensures
            item_view(item) == first_with_key(self@, ItemKey::Conversation(id)),
    {
        self.find(ItemKey::Conversation(id))
    }
}

/// The model of an optional session.
pub open spec fn session_ref_view(session: Option<&DiscoveredCLIAgentSession>) -> Option<
    SessionView,
> {
    match session {
        Some(session) => Some(session@),
        None => None,
    }
}

/// The first session with an identifier.
fn find_session<'a>(sessions: &'a Vec<DiscoveredCLIAgentSession>, id: &str) -> (session: Option<
    &'a DiscoveredCLIAgentSession,
>)
    ensures
        session_ref_view(session) == first_with_id(views(sessions@), id@),
{
    let mut i: usize = 0;
    let ghost all = views(sessions@);
    assert(all.skip(0) =~= all);
    while i < sessions.len()
        invariant
            i <= sessions.len(),
            all == views(sessions@),
            first_with_id(all, id@) == first_with_id(all.skip(i as int), id@),
        decreases sessions.len() - i,
    {
        assert(all.skip(i as int).first() == sessions@[i as int]@);
        if same_text(&sessions[i].id, id) {
            return Some(&sessions[i]);
        }
        assert(all.skip(i as int).drop_first() =~= all.skip(i + 1));
        i += 1;
    }
    None
}

/// What the list does about a change of the known conversations and tasks.
pub fn reaction_to(event: AgentConversationsModelEvent) -> (reaction: ModelReaction)
    ensures
        reaction == match event {
            AgentConversationsModelEvent::ConversationsLoaded => ModelReaction::Refresh,
            AgentConversationsModelEvent::TasksUpdated => ModelReaction::Refresh,
            AgentConversationsModelEvent::TaskManuallyOpened => ModelReaction::Refresh,
            AgentConversationsModelEvent::ConversationUpdated => ModelReaction::Emit,
            AgentConversationsModelEvent::ConversationArtifactsUpdated => ModelReaction::Ignore,
        },
{
    match event {
        AgentConversationsModelEvent::ConversationsLoaded
        | AgentConversationsModelEvent::TasksUpdated
        | AgentConversationsModelEvent::TaskManuallyOpened => ModelReaction::Refresh,
        AgentConversationsModelEvent::ConversationUpdated => ModelReaction::Emit,
        AgentConversationsModelEvent::ConversationArtifactsUpdated => ModelReaction::Ignore,
    }
}

/// A copy of a row of identifiers.
fn copy_ids(ids: &Vec<ConversationOrTaskId>) -> (copy: Vec<ConversationOrTaskId>)
    ensures
        views(copy@) == views(ids@),
{
    let mut copy: Vec<ConversationOrTaskId> = Vec::new();
    let mut i: usize = 0;
    while i < ids.len()
        invariant
            i <= ids.len(),
            copy@.len() == i,
            forall|k: int| 0 <= k < i ==> (#[trigger] copy@[k])@ == ids@[k]@,
        decreases ids.len() - i,
    {
        copy.push(ids[i].clone());
        i += 1;
    }
    assert(views(copy@) =~= views(ids@));
    copy
}

impl ItemList {
    /// Every agent session among the items is one of the sessions.
    #[verifier::type_invariant]
    spec fn inv(self) -> bool {
        sessions_known(views(self.ids@), views(self.sessions@))
    }

    /// The list of the listed items and of the agent sessions, with `query` searched for.
    fn assembled(
        items: &Vec<ConversationOrTask>,
        sessions: Vec<DiscoveredCLIAgentSession>,
        query: String,
    ) -> (list: ItemList)
        ensures
            list@ == (ItemsView {
                ids: list_ids(views(items@), views(sessions@)),
                sessions: views(sessions@),
                query: query@,
            }),
    {
        let ids = collect_ids(items, &sessions);
        proof {
            assembled_lists_know_their_sessions(views(items@), views(sessions@));
        }
        ItemList { ids, sessions, query }
    }

    /// The same items, with `query` searched for.
    fn searching(&self, query: String) -> (list: ItemList)
        ensures
            list@ == (ItemsView { query: query@, ..self@ }),
    {
        proof {
            use_type_invariant(self);
        }
        ItemList { ids: copy_ids(&self.ids), sessions: copy_sessions(&self.sessions), query }
    }

    /// The title of an item, where the item is known.
    fn title(&self, id: &ConversationOrTaskId, directory: &ConversationDirectory) -> (title: Option<
        String,
    >)
        ensures
            text_view(title) == title_of(id@, directory@, self@.sessions),
    {
        match id {
            ConversationOrTaskId::TaskId(id) => match directory.get_task(*id) {
                Some(item) => Some(item.title.clone()),
                None => None,
            },
            ConversationOrTaskId::ConversationId(id) => match directory.get_conversation(*id) {
                Some(item) => Some(item.title.clone()),
                None => None,
            },
            ConversationOrTaskId::CLIAgentSession { session_id, .. } => match find_session(
                &self.sessions,
                session_id,
            ) {
                Some(session) => Some(session.title.clone()),
                None => None,
            },
        }
    }

    /// The titles of the items.
    fn titles(&self, directory: &ConversationDirectory) -> (titles: Vec<Option<String>>)
        ensures
            text_views(titles@) == list_titles(self@, directory@),
    {
        let mut titles: Vec<Option<String>> = Vec::new();
        let mut i: usize = 0;
        while i < self.ids.len()
            invariant
                i <= self.ids.len(),
                titles@.len() == i,
                forall|k: int|
                    0 <= k < i ==> text_view(#[trigger] titles@[k]) == title_of(
                        self@.ids[k],
                        directory@,
                        self@.sessions,
                    ),
            decreases self.ids.len() - i,
        {
            let title = self.title(&self.ids[i], directory);
            titles.push(title);
            i += 1;
        }
        assert(text_views(titles@) =~= list_titles(self@, directory@));
        titles
    }
}

impl ConversationListViewModel {
    /// Whatever is shown is an item of the list.
    #[verifier::type_invariant]
    spec fn inv(self) -> bool {
        forall|i: int|
            0 <= i < views(self.filtered_items@).len() ==> self.list@.ids.contains(
                #[trigger] views(self.filtered_items@)[i].id,
            )
    }

    /// The list of the listed items and of the agent sessions, with nothing searched for. `known`
    /// are the sessions known so far and `fresh` those of the scan that the list asks for.
    pub fn new(
        known: Vec<DiscoveredCLIAgentSession>,
        fresh: Vec<DiscoveredCLIAgentSession>,
        items: &Vec<ConversationOrTask>,
        directory: &ConversationDirectory,
    ) -> (made: (ConversationListViewModel, SearchStep))
        ensures
            made.0@.query == Seq::<char>::empty(),
            made.0@.sessions == if sessions_replaced(views(known@), views(fresh@)) {
                views(fresh@)
            } else {
                views(known@)
            },
            made.0@.ids == list_ids(views(items@), made.0@.sessions),
            made.0@.shown == all_shown(made.0@.ids),
            made.0@.up_to_date(),
            made.1 is Listed,
    {
        let none: Vec<ConversationOrTask> = Vec::new();
        let mut model = ConversationListViewModel {
            list: ItemList::assembled(&none, known, String::new()),
            filtered_items: Vec::new(),
        };
        let step = model.refresh_cached_items(fresh, items, directory);
        proof {
            use_type_invariant(&model);
            use_type_invariant(&model.list);
        }
        (model, step)
    }

    /// Puts the list together anew from the conversations and tasks in `items` and from the
    /// agent sessions, takes in the freshly scanned sessions where they differ from the present
    /// ones, and repeats the search.
    pub fn refresh_cached_items(
        &mut self,
        fresh: Vec<DiscoveredCLIAgentSession>,
        items: &Vec<ConversationOrTask>,
        directory: &ConversationDirectory,
    ) -> (step: SearchStep)
        ensures
            searched(
                old(self)@,
                final(self)@,
                refreshed(old(self)@, views(fresh@), views(items@)),
                directory@,
                search_term(old(self)@.query),
                step,
            ),
            trimmed(old(self)@.query).len() == 0 ==> step is Listed,
    {
        let sessions = if fresh.len() > 0 && (self.list.sessions.len() != fresh.len() || !same_text(
            &self.list.sessions[0].id,
            &fresh[0].id,
        )) {
            fresh
        } else {
            copy_sessions(&self.list.sessions)
        };
        let list = ItemList::assembled(items, sessions, self.list.query.clone());
        self.begin_search(list, directory)
    }

    /// Searches for `query`.
    pub fn set_search_query(&mut self, query: String, directory: &ConversationDirectory) -> (step:
        SearchStep)
        ensures
            if query@ == old(self)@.query {
                step is Unchanged && final(self)@ == old(self)@
            } else {
                &&& searched(
                    old(self)@,
                    final(self)@,
                    ItemsView {
                        ids: old(self)@.ids,
                        sessions: old(self)@.sessions,
                        query: query@,
                    },
                    directory@,
                    search_term(query@),
                    step,
                )
                &&& trimmed(query@).len() == 0 ==> step is Listed
            },
    {
        if query == self.list.query {
            return SearchStep::Unchanged;
        }
        let list = self.list.searching(query);
        self.begin_search(list, directory)
    }

    /// Begins the search that `list` asks for.
    fn begin_search(&mut self, list: ItemList, directory: &ConversationDirectory) -> (step:
        SearchStep)
        ensures
            searched(
                old(self)@,
                final(self)@,
                list@,
                directory@,
                search_term(list@.query),
                step,
            ),
            trimmed(list@.query).len() == 0 ==> step is Listed,
    {
        let term = to_lowercase(trim(&list.query));
        self.search_for(list, term, directory)
    }

    /// The items of the list as they are searched for `query`.
    pub fn items_for(&self, query: String) -> (list: ItemList)
        ensures
            list@ == (ItemsView { ids: self@.ids, sessions: self@.sessions, query: query@ }),
    {
        self.list.searching(query)
    }

    /// Shows every item of `list` where `term` is empty, and asks for matches otherwise.
    pub fn search_for(
        &mut self,
        list: ItemList,
        term: String,
        directory: &ConversationDirectory,
    ) -> (step: SearchStep)
        ensures
            searched(old(self)@, final(self)@, list@, directory@, term@, step),
    {
        if term.as_str().is_empty() {
            let filtered_items = show_all(&list.ids);
            proof {
                everything_shown_is_listed(list@.ids);
            }
            *self = ConversationListViewModel { list, filtered_items };
            SearchStep::Listed(ConversationListViewModelEvent)
        } else {
            let titles = list.titles(directory);
            SearchStep::Match(MatchRequest { term, titles, list })
        }
    }

    /// The title of an item, where the item is known.
    pub fn title(&self, id: &ConversationOrTaskId, directory: &ConversationDirectory) -> (title:
        Option<String>)
        ensures
            text_view(title) == title_of(id@, directory@, self@.sessions),
    {
        self.list.title(id, directory)
    }

    /// Takes in the list of `request` and shows what its search found. `matches` is what became of
    /// its titles, in their order.
    pub fn apply_search_filter(
        &mut self,
        request: MatchRequest,
        matches: &Vec<Option<TitleMatch>>,
    ) -> (event: ConversationListViewModelEvent)
        ensures
            final(self)@.query == request.list@.query,
            final(self)@.sessions == request.list@.sessions,
            final(self)@.ids == request.list@.ids,
            search_results(
                request.list@.ids,
                text_views(request.titles@),
                match_views(matches@),
                final(self)@.shown,
            ),
            final(self)@.up_to_date(),
    {
        let MatchRequest { term: _, titles, list } = request;
        let mut found: Vec<ScoredEntry> = Vec::new();
        let mut i: usize = 0;
        let ghost ids = list@.ids;
        let ghost title_views = text_views(titles@);
        let ghost found_views = match_views(matches@);
        assert(views(found@) =~= scored_items(ids, title_views, found_views, 0));
        while i < list.ids.len()
            invariant
                i <= list.ids.len(),
                ids == list@.ids,
                title_views == text_views(titles@),
                found_views == match_views(matches@),
                views(found@) == scored_items(ids, title_views, found_views, i as int),
            decreases list.ids.len() - i,
        {
            let ghost before = found@;
            if i < titles.len() && titles[i].is_some() && i < matches.len() {
                if let Some(title_match) = &matches[i] {
                    let entry = ConversationEntry {
                        id: list.ids[i].clone(),
                        highlight_indices: copy_indices(&title_match.matched_indices),
                    };
                    found.push(ScoredEntry { score: title_match.score, entry });
                    assert(views(found@) =~= views(before).push(
                        scored_item(ids, title_views, found_views, i as int)->0,
                    ));
                }
            }
            i += 1;
        }
        let ranked = rank_items(found);
        let ghost order = views(ranked@);
        assert(rank_of::<ScoredEntry>() =~= score_of());
        assert(i == ids.len());
        assert(stably_ranked(
            scored_items(ids, title_views, found_views, ids.len() as int),
            order,
            score_of(),
        ));
        let filtered_items = strip_scores(ranked);
        let ghost shown = views(filtered_items@);
        assert(shown =~= order.map_values(|item: ScoredView| item.entry));
        assert(search_results(ids, title_views, found_views, shown));
        proof {
            found_items_are_listed(ids, title_views, found_views, shown);
        }
        *self = ConversationListViewModel { list, filtered_items };
        proof {
            use_type_invariant(&*self);
            use_type_invariant(&self.list);
        }
        ConversationListViewModelEvent
    }

    /// The number of items, shown or not.
    pub fn unfiltered_item_count(&self) -> (count: usize)
        ensures
            count == self@.ids.len(),
    {
        self.list.ids.len()
    }

    /// The items that are shown.
    pub fn filtered_items(&self) -> (items: &Vec<ConversationEntry>)
        ensures
            views(items@) == self@.shown,
    {
        &self.filtered_items
    }

    /// The conversation or task that an identifier names; for an agent session there is none.
    pub fn get_item_by_id<'a>(
        &self,
        id: &ConversationOrTaskId,
        directory: &'a ConversationDirectory,
    ) -> (item: Option<&'a ConversationOrTask>)
        ensures
            item_view(item) == item_lookup(directory@, id@),
    {
        match id {
            ConversationOrTaskId::TaskId(id) => directory.get_task(*id),
            ConversationOrTaskId::ConversationId(id) => directory.get_conversation(*id),
            ConversationOrTaskId::CLIAgentSession { .. } => None,
        }
    }

    /// The agent session that an identifier names.
    pub fn get_cli_agent_session(&self, id: &ConversationOrTaskId) -> (session: Option<
        &DiscoveredCLIAgentSession,
    >)
        ensures
            session_ref_view(session) == session_lookup(self@.sessions, id@),
            self@.up_to_date(),
    {
        proof {
            use_type_invariant(self);
            use_type_invariant(&self.list);
        }
        match id {
            ConversationOrTaskId::CLIAgentSession { session_id, .. } => {
                find_session(&self.list.sessions, session_id)
            },
            _ => None,
        }
    }

    /// Whether an identifier names an agent session.
    pub fn is_cli_agent_session(id: &ConversationOrTaskId) -> (r: bool)
        ensures
            r == (id@ is CLIAgentSession),
    {
        match id {
            ConversationOrTaskId::CLIAgentSession { .. } => true,
            _ => false,
        }
    }

    /// The identifiers of the items that are shown. Those of agent sessions are found by
    /// [`Self::get_cli_agent_session`].
    pub fn current_ids(&self) -> (ids: Vec<&ConversationOrTaskId>)
        ensures
            ids@.len() == self@.shown.len(),
            forall|i: int| 0 <= i < ids@.len() ==> (#[trigger] ids@[i])@ == self@.shown[i].id,
            self@.up_to_date(),
            forall|i: int|
                0 <= i < ids@.len() && (#[trigger] ids@[i])@ is CLIAgentSession ==> session_lookup(
                    self@.sessions,
                    ids@[i]@,
                ) is Some,
    {
        let mut ids: Vec<&ConversationOrTaskId> = Vec::new();
        let mut i: usize = 0;
        while i < self.filtered_items.len()
            invariant
                i <= self.filtered_items.len(),
                ids@.len() == i,
                forall|k: int| 0 <= k < i ==> (#[trigger] ids@[k])@ == self@.shown[k].id,
            decreases self.filtered_items.len() - i,
        {
            ids.push(&self.filtered_items[i].id);
            i += 1;
        }
        proof {
            use_type_invariant(self);
            use_type_invariant(&self.list);
            assert forall|k: int|
                0 <= k < ids@.len() && (#[trigger] ids@[k])@ is CLIAgentSession implies session_lookup(
                self@.sessions,
                ids@[k]@,
            ) is Some by {
                shown_sessions_are_found(self@, seq![], k);
            }
        }
        ids
    }
}

/// The items of the list.
fn collect_ids(
    items: &Vec<ConversationOrTask>,
    sessions: &Vec<DiscoveredCLIAgentSession>,
) -> (ids: Vec<ConversationOrTaskId>)
    ensures
        views(ids@) == list_ids(views(items@), views(sessions@)),
{
    let mut ids: Vec<ConversationOrTaskId> = Vec::new();
    let mut i: usize = 0;
    let ghost all = views(items@);
    let ghost pick = |item: ItemView| listed_id(item);
    assert(all.take(0) =~= seq![]);
    assert(views(ids@) =~= all.take(0).filter_map(pick));
    while i < items.len()
        invariant
            i <= items.len(),
            all == views(items@),
            pick == (|item: ItemView| listed_id(item)),
            views(ids@) == all.take(i as int).filter_map(pick),
        decreases items.len() - i,
    {
        proof {
            all.lemma_filter_map_take_succ(pick, i as int);
        }
        let ghost before = ids@;
        assert(all[i as int] == items@[i as int]@);
        if items[i].is_listed() {
            ids.push(items[i].list_id());
            assert(views(ids@) =~= views(before) + seq![key_id(all[i as int].key)]);
        }
        assert(views(ids@) =~= all.take(i + 1).filter_map(pick));
        i += 1;
    }
    assert(all.take(all.len() as int) =~= all);
    let ghost listed = views(ids@);
    let ghost found = views(sessions@);
    let ghost name = |session: SessionView| session_list_id(session);
    let mut j: usize = 0;
    assert(views(ids@) =~= listed + found.take(0).map_values(name));
    while j < sessions.len()
        invariant
            j <= sessions.len(),
            found == views(sessions@),
            name == (|session: SessionView| session_list_id(session)),
            views(ids@) == listed + found.take(j as int).map_values(name),
        decreases sessions.len() - j,
    {
        let ghost before = ids@;
        ids.push(
            ConversationOrTaskId::CLIAgentSession {
                session_id: sessions[j].id.clone(),
                agent_type: sessions[j].agent_type,
            },
        );
        assert(views(ids@) =~= views(before).push(session_list_id(found[j as int])));
        assert(views(ids@) =~= listed + found.take(j + 1).map_values(name));
        j += 1;
    }
    assert(found.take(found.len() as int) =~= found);
    ids
}

/// Every item as it is shown where nothing is searched for.
fn show_all(ids: &Vec<ConversationOrTaskId>) -> (shown: Vec<ConversationEntry>)
    ensures
        views(shown@) == all_shown(views(ids@)),
{
    let mut shown: Vec<ConversationEntry> = Vec::new();
    let mut i: usize = 0;
    while i < ids.len()
        invariant
            i <= ids.len(),
            shown@.len() == i,
            forall|k: int|
                0 <= k < i ==> (#[trigger] shown@[k])@ == (ShownView {
                    id: ids@[k]@,
                    highlight_indices: seq![],
                }),
        decreases ids.len() - i,
    {
        let highlight_indices: Vec<usize> = Vec::new();
        assert(highlight_indices@ =~= seq![]);
        shown.push(ConversationEntry { id: ids[i].clone(), highlight_indices });
        i += 1;
    }
    assert(views(shown@) =~= all_shown(views(ids@)));
    shown
}

/// A copy of a list of positions.
fn copy_indices(indices: &Vec<usize>) -> (copy: Vec<usize>)
    ensures
        copy@ == indices@,
{
    let mut copy: Vec<usize> = Vec::new();
    let mut i: usize = 0;
    while i < indices.len()
        invariant
            i <= indices.len(),
            copy@ == indices@.take(i as int),
        decreases indices.len() - i,
    {
        copy.push(indices[i]);
        assert(indices@.take(i + 1) =~= indices@.take(i as int).push(indices@[i as int]));
        i += 1;
    }
    assert(indices@.take(indices@.len() as int) =~= indices@);
    copy
}

/// The items without their scores.
fn strip_scores(ranked: Vec<ScoredEntry>) -> (shown: Vec<ConversationEntry>)
    ensures
        views(shown@) == views(ranked@).map_values(|item: ScoredView| item.entry),
{
    let ghost all = ranked@;
    let mut shown: Vec<ConversationEntry> = Vec::new();
    for item in iter: ranked
        invariant
            iter.seq() == all,
            shown@.len() == iter.index(),
            forall|k: int| 0 <= k < iter.index() ==> (#[trigger] shown@[k])@ == all[k]@.entry,
    {
        shown.push(item.entry);
    }
    assert(views(shown@) =~= views(all).map_values(|item: ScoredView| item.entry));
    shown
}

/// What a search scored is one of the items, with its title known and matched.
proof fn scored_items_match(
    ids: Seq<IdView>,
    titles: Seq<Option<Seq<char>>>,
    matches: Seq<Option<MatchView>>,
    n: int,
    i: int,
)
    requires
        0 <= i < scored_items(ids, titles, matches, n).len(),
        n <= ids.len(),
    ensures
        exists|k: int|
            0 <= k < n && #[trigger] scored_item(ids, titles, matches, k) == Some(
                scored_items(ids, titles, matches, n)[i],
            ),
    decreases n,
{
    if i < scored_items(ids, titles, matches, n - 1).len() {
        scored_items_match(ids, titles, matches, n - 1, i);
    } else {
        assert(scored_item(ids, titles, matches, n - 1) == Some(
            scored_items(ids, titles, matches, n)[i],
        ));
    }
}

/// An item whose title is known and matched is scored.
proof fn matched_items_are_scored(
    ids: Seq<IdView>,
    titles: Seq<Option<Seq<char>>>,
    matches: Seq<Option<MatchView>>,
    n: int,
    k: int,
)
    requires
        0 <= k < n <= ids.len(),
        scored_item(ids, titles, matches, k) is Some,
    ensures
        scored_items(ids, titles, matches, n).contains(scored_item(ids, titles, matches, k)->0),
    decreases n,
{
    let whole = scored_items(ids, titles, matches, n);
    let item = scored_item(ids, titles, matches, k)->0;
    if k < n - 1 {
        matched_items_are_scored(ids, titles, matches, n - 1, k);
        let rest = scored_items(ids, titles, matches, n - 1);
        let at = choose|at: int| 0 <= at < rest.len() && rest[at] == item;
        assert(whole[at] == item);
    } else {
        assert(whole.last() == item);
    }
}

/// Whatever a search shows is an item of the list whose title is known and matched, highlighted
/// where it matched.
pub proof fn shown_items_match(
    ids: Seq<IdView>,
    titles: Seq<Option<Seq<char>>>,
    matches: Seq<Option<MatchView>>,
    shown: Seq<ShownView>,
    i: int,
)
    requires
        search_results(ids, titles, matches, shown),
        0 <= i < shown.len(),
    ensures
        exists|k: int|
            {
                &&& 0 <= k < ids.len()
                &&& k < titles.len() && titles[k] is Some
                &&& k < matches.len() && matches[k] is Some
                &&& shown[i].id == #[trigger] ids[k]
                &&& shown[i].highlight_indices == matches[k]->0.matched_indices
            },
{
    let scored = scored_items(ids, titles, matches, ids.len() as int);
    let ranked = choose|ranked: Seq<ScoredView>|
        {
            &&& #[trigger] stably_ranked(scored, ranked, score_of())
            &&& shown == ranked.map_values(|item: ScoredView| item.entry)
        };
    scored.to_multiset_ensures();
    ranked.to_multiset_ensures();
    assert(ranked.contains(ranked[i]));
    assert(ranked.to_multiset().count(ranked[i]) > 0);
    assert(scored.contains(ranked[i]));
    let at = choose|at: int| 0 <= at < scored.len() && scored[at] == ranked[i];
    scored_items_match(ids, titles, matches, ids.len() as int, at);
    let k = choose|k: int|
        0 <= k < ids.len() && #[trigger] scored_item(ids, titles, matches, k) == Some(scored[at]);
    assert(shown[i].id == ids[k]);
}

/// A search shows every item whose title is known and matched.
pub proof fn matching_items_are_shown(
    ids: Seq<IdView>,
    titles: Seq<Option<Seq<char>>>,
    matches: Seq<Option<MatchView>>,
    shown: Seq<ShownView>,
    k: int,
)
    requires
        search_results(ids, titles, matches, shown),
        0 <= k < ids.len(),
        k < titles.len() && titles[k] is Some,
        k < matches.len() && matches[k] is Some,
    ensures
        shown.contains(
            ShownView { id: ids[k], highlight_indices: matches[k]->0.matched_indices },
        ),
{
    let scored = scored_items(ids, titles, matches, ids.len() as int);
    let ranked = choose|ranked: Seq<ScoredView>|
        {
            &&& #[trigger] stably_ranked(scored, ranked, score_of())
            &&& shown == ranked.map_values(|item: ScoredView| item.entry)
        };
    let item = scored_item(ids, titles, matches, k)->0;
    matched_items_are_scored(ids, titles, matches, ids.len() as int, k);
    scored.to_multiset_ensures();
    ranked.to_multiset_ensures();
    assert(scored.to_multiset().count(item) > 0);
    assert(ranked.contains(item));
    let at = choose|at: int| 0 <= at < ranked.len() && ranked[at] == item;
    assert(shown[at] == item.entry);
}

/// What a search shows is settled by the items, their titles and the matches.
pub proof fn search_results_are_determined(
    ids: Seq<IdView>,
    titles: Seq<Option<Seq<char>>>,
    matches: Seq<Option<MatchView>>,
    left: Seq<ShownView>,
    right: Seq<ShownView>,
)
    requires
        search_results(ids, titles, matches, left),
        search_results(ids, titles, matches, right),
    ensures
        left == right,
{
    let scored = scored_items(ids, titles, matches, ids.len() as int);
    let ranked_left = choose|ranked: Seq<ScoredView>|
        {
            &&& #[trigger] stably_ranked(scored, ranked, score_of())
            &&& left == ranked.map_values(|item: ScoredView| item.entry)
        };
    let ranked_right = choose|ranked: Seq<ScoredView>|
        {
            &&& #[trigger] stably_ranked(scored, ranked, score_of())
            &&& right == ranked.map_values(|item: ScoredView| item.entry)
        };
    stable_ranking_is_unique(scored, ranked_left, ranked_right, score_of());
}

/// An agent session of the list is found again by its identifier.
pub proof fn listed_sessions_are_found_again(sessions: Seq<SessionView>, i: int)
    requires
        0 <= i < sessions.len(),
    ensures
        first_with_id(sessions, sessions[i].id) is Some,
        first_with_id(sessions, sessions[i].id)->0.id == sessions[i].id,
        sessions.contains(first_with_id(sessions, sessions[i].id)->0),
    decreases sessions.len(),
{
    let id = sessions[i].id;
    if sessions.first().id != id {
        let rest = sessions.drop_first();
        assert(rest[i - 1] == sessions[i]);
        listed_sessions_are_found_again(rest, i - 1);
        let found = first_with_id(rest, id)->0;
        let at = choose|at: int| 0 <= at < rest.len() && rest[at] == found;
        assert(sessions[at + 1] == found);
    } else {
        assert(sessions[0] == sessions.first());
    }
}

/// What the list holds and is told is seen as it is.
pub proof fn list_items_are_seen_whole(
    id: ConversationOrTaskId,
    item: ConversationOrTask,
    directory: ConversationDirectory,
    entry: ConversationEntry,
    found: TitleMatch,
)
    ensures
        match id {
            ConversationOrTaskId::ConversationId(id_in) => id@ == IdView::ConversationId(id_in),
            ConversationOrTaskId::TaskId(id_in) => id@ == IdView::TaskId(id_in),
            ConversationOrTaskId::CLIAgentSession { session_id, agent_type } => {
                id@ matches IdView::CLIAgentSession { session_id: seen_id, agent_type: seen_type }
                    && seen_id == session_id@ && seen_type == agent_type
            },
        },
        item@.key == item.key,
        item@.title == item.title@,
        item@.session_available == item.session_available,
        item@.user_initiated == item.user_initiated,
        item@.manually_opened == item.manually_opened,
        directory@.len() == directory.items@.len(),
        forall|i: int|
            0 <= i < directory.items@.len() ==> #[trigger] directory@[i] == directory.items@[i]@,
        entry@.id == entry.id@,
        entry@.highlight_indices == entry.highlight_indices@,
        found@.score == found.score,
        found@.matched_indices == found.matched_indices@,
        item_view(Some(&item)) == Some(item@),
        item_view(None) is None,
{
}

/// The titles and matches of a search are seen one for one.
pub proof fn titles_and_matches_are_seen_whole(
    texts: Seq<Option<String>>,
    matches: Seq<Option<TitleMatch>>,
    session: DiscoveredCLIAgentSession,
)
    ensures
        text_views(texts).len() == texts.len(),
        match_views(matches).len() == matches.len(),
        forall|i: int|
            0 <= i < texts.len() ==> match texts[i] {
                Some(text) => #[trigger] text_views(texts)[i] == Some(text@),
                None => text_views(texts)[i] is None,
            },
        forall|i: int|
            0 <= i < matches.len() ==> match matches[i] {
                Some(found) => #[trigger] match_views(matches)[i] == Some(found@),
                None => match_views(matches)[i] is None,
            },
        session_ref_view(Some(&session)) == Some(session@),
        session_ref_view(None) is None,
{
}

/// The list as the program sees it: its items, what it shows, what is searched for and its
/// sessions.
pub proof fn lists_are_seen_whole(list: ItemsView, shown: Seq<ShownView>)
    ensures
        list.showing(shown).ids == list.ids,
        list.showing(shown).shown == shown,
        list.showing(shown).query == list.query,
        list.showing(shown).sessions == list.sessions,
{
}

/// The list holds the conversations and tasks that belong there, in their order and each of them
/// once, and then the agent sessions, one for one. A conversation or a task belongs there where
/// its session is not known to be unavailable and it was set off by the user, and a task also
/// where the user has opened it by hand.
pub proof fn lists_hold_what_belongs_there(items: Seq<ItemView>, sessions: Seq<SessionView>) -> (at:
    Seq<int>)
    ensures
        list_ids(items, sessions).len() == at.len() + sessions.len(),
        forall|i: int|
            0 <= i < at.len() ==> {
                let item = items[#[trigger] at[i]];
                &&& 0 <= at[i] < items.len()
                &&& item.session_available is None || item.session_available->0
                &&& (item.user_initiated is Some && item.user_initiated->0) || (item.key is Task
                    && item.manually_opened)
                &&& match item.key {
                    ItemKey::Task(id) => list_ids(items, sessions)[i] == IdView::TaskId(id),
                    ItemKey::Conversation(id) => list_ids(items, sessions)[i]
                        == IdView::ConversationId(id),
                }
            },
        forall|i: int, j: int| 0 <= i < j < at.len() ==> #[trigger] at[i] < #[trigger] at[j],
        forall|k: int|
            0 <= k < items.len() && items[k].session_available != Some(false) && (
            items[k].user_initiated == Some(true) || items[k].key is Task
                && items[k].manually_opened) ==> #[trigger] at.contains(k),
        forall|i: int|
            0 <= i < sessions.len() ==> {
                &&& #[trigger] list_ids(items, sessions)[at.len() + i] is CLIAgentSession
                &&& list_ids(items, sessions)[at.len() + i]->session_id == sessions[i].id
                &&& list_ids(items, sessions)[at.len() + i]->agent_type == sessions[i].agent_type
            },
{
    let pick = |item: ItemView| listed_id(item);
    let at = kept_positions(items, pick);
    assert forall|k: int|
        0 <= k < items.len() && items[k].session_available != Some(false) && (
        items[k].user_initiated == Some(true) || items[k].key is Task
            && items[k].manually_opened) implies #[trigger] at.contains(k) by {
        assert(pick(items[k]) is Some);
    }
    at
}

/// A task that was opened by hand is in the list whatever its source, and so is every conversation
/// or task that the user set off, unless its session is known to be unavailable; nothing else is,
/// but for the agent sessions.
pub proof fn wanted_items_are_in_the_list(
    items: Seq<ItemView>,
    sessions: Seq<SessionView>,
    task: AmbientAgentTaskId,
    conversation: AIConversationId,
)
    ensures
        list_ids(items, sessions).contains(IdView::TaskId(task)) <==> exists|k: int|
            {
                &&& 0 <= k < items.len()
                &&& #[trigger] items[k].key == ItemKey::Task(task)
                &&& items[k].session_available != Some(false)
                &&& items[k].user_initiated == Some(true) || items[k].manually_opened
            },
        list_ids(items, sessions).contains(IdView::ConversationId(conversation)) <==> exists|k: int|
            {
                &&& 0 <= k < items.len()
                &&& #[trigger] items[k].key == ItemKey::Conversation(conversation)
                &&& items[k].session_available != Some(false)
                &&& items[k].user_initiated == Some(true)
            },
{
    let ids = list_ids(items, sessions);
    let at = lists_hold_what_belongs_there(items, sessions);
    if ids.contains(IdView::TaskId(task)) {
        let i = choose|i: int| 0 <= i < ids.len() && ids[i] == IdView::TaskId(task);
        assert(i < at.len()) by {
            if i >= at.len() {
                assert(ids[at.len() + (i - at.len())] is CLIAgentSession);
            }
        }
        assert(items[at[i]].key == ItemKey::Task(task));
    }
    if ids.contains(IdView::ConversationId(conversation)) {
        let i = choose|i: int| 0 <= i < ids.len() && ids[i] == IdView::ConversationId(conversation);
        assert(i < at.len()) by {
            if i >= at.len() {
                assert(ids[at.len() + (i - at.len())] is CLIAgentSession);
            }
        }
        assert(items[at[i]].key == ItemKey::Conversation(conversation));
    }
    if exists|k: int|
        {
            &&& 0 <= k < items.len()
            &&& #[trigger] items[k].key == ItemKey::Task(task)
            &&& items[k].session_available != Some(false)
            &&& items[k].user_initiated == Some(true) || items[k].manually_opened
        } {
        let k = choose|k: int|
            {
                &&& 0 <= k < items.len()
                &&& #[trigger] items[k].key == ItemKey::Task(task)
                &&& items[k].session_available != Some(false)
                &&& items[k].user_initiated == Some(true) || items[k].manually_opened
            };
        assert(at.contains(k));
        let i = choose|i: int| 0 <= i < at.len() && at[i] == k;
        assert(ids[i] == IdView::TaskId(task));
    }
    if exists|k: int|
        {
            &&& 0 <= k < items.len()
            &&& #[trigger] items[k].key == ItemKey::Conversation(conversation)
            &&& items[k].session_available != Some(false)
            &&& items[k].user_initiated == Some(true)
        } {
        let k = choose|k: int|
            {
                &&& 0 <= k < items.len()
                &&& #[trigger] items[k].key == ItemKey::Conversation(conversation)
                &&& items[k].session_available != Some(false)
                &&& items[k].user_initiated == Some(true)
            };
        assert(at.contains(k));
        let i = choose|i: int| 0 <= i < at.len() && at[i] == k;
        assert(ids[i] == IdView::ConversationId(conversation));
    }
}

/// Whether an item is listed, and under which identifier, is settled by the item alone.
pub proof fn items_are_listed_under_their_key(item: ItemView)
    ensures
        is_listed(item) <==> item.session_available != Some(false) && (item.user_initiated == Some(
            true,
        ) || item.key is Task && item.manually_opened),
        match item.key {
            ItemKey::Task(id) => key_id(item.key) == IdView::TaskId(id),
            ItemKey::Conversation(id) => key_id(item.key) == IdView::ConversationId(id),
        },
{
}

/// A refresh keeps the query, and the sessions too where the fresh ones are none, or are as many
/// and begin with the same one; otherwise it takes the fresh ones. The items follow from the
/// conversations, the tasks and those sessions.
pub proof fn refreshing_takes_fresh_sessions(
    before: ListView,
    fresh: Seq<SessionView>,
    items: Seq<ItemView>,
)
    ensures
        refreshed(before, fresh, items).query == before.query,
        fresh.len() == 0 ==> refreshed(before, fresh, items).sessions == before.sessions,
        fresh.len() > 0 && fresh.len() == before.sessions.len() && fresh[0].id
            == before.sessions[0].id ==> refreshed(before, fresh, items).sessions
            == before.sessions,
        fresh.len() > 0 && fresh.len() != before.sessions.len() ==> refreshed(
            before,
            fresh,
            items,
        ).sessions == fresh,
        fresh.len() > 0 && fresh.len() == before.sessions.len() && fresh[0].id
            != before.sessions[0].id ==> refreshed(before, fresh, items).sessions == fresh,
        refreshed(before, fresh, items).ids == list_ids(
            items,
            refreshed(before, fresh, items).sessions,
        ),
        fresh.len() > 0 && before.sessions.len() != fresh.len() ==> sessions_replaced(
            before.sessions,
            fresh,
        ),
        fresh.len() == 0 ==> !sessions_replaced(before.sessions, fresh),
        fresh.len() > 0 && before.sessions.len() == fresh.len() ==> (sessions_replaced(
            before.sessions,
            fresh,
        ) <==> before.sessions[0].id != fresh[0].id),
{
}

/// White space around a query does not matter, and its case is folded as a whole.
pub proof fn queries_are_trimmed_and_folded(
    ahead: Seq<char>,
    words: Seq<char>,
    behind: Seq<char>,
)
    requires
        is_blank(ahead),
        is_blank(behind),
        words.len() > 0 ==> !is_white_space(words.first()) && !is_white_space(words.last()),
    ensures
        search_term(ahead + words + behind) == lowercased(words),
{
    white_space_around_is_trimmed(ahead, words, behind);
}

/// A search for a term leaves the list as it is until its matches are known, and asks for the
/// matches of the term with the title of every item of the list to come, in order. Where nothing
/// is searched for, every item is shown at once, in order and with nothing highlighted.
pub proof fn searches_wait_for_their_matches(
    before: ListView,
    after: ListView,
    list: ItemsView,
    directory: Seq<ItemView>,
    term: Seq<char>,
    step: SearchStep,
)
    requires
        searched(before, after, list, directory, term, step),
    ensures
        term.len() > 0 ==> {
            &&& after == before
            &&& step matches SearchStep::Match(request)
            &&& request.term@ == term
            &&& request.list@ == list
            &&& request.titles@.len() == list.ids.len()
            &&& forall|i: int|
                0 <= i < list.ids.len() ==> match (#[trigger] request.titles@[i]) {
                    Some(title) => title_of(list.ids[i], directory, list.sessions) == Some(title@),
                    None => title_of(list.ids[i], directory, list.sessions) is None,
                }
        },
        term.len() == 0 ==> {
            &&& step is Listed
            &&& after.ids == list.ids
            &&& after.sessions == list.sessions
            &&& after.query == list.query
            &&& after.shown.len() == list.ids.len()
            &&& forall|i: int|
                0 <= i < list.ids.len() ==> (#[trigger] after.shown[i]).id == list.ids[i]
                    && after.shown[i].highlight_indices.len() == 0
        },
{
    if term.len() > 0 {
        let titles = step->Match_0.titles@;
        assert(text_views(titles).len() == list.ids.len());
        assert forall|i: int| 0 <= i < list.ids.len() implies match (#[trigger] titles[i]) {
            Some(title) => title_of(list.ids[i], directory, list.sessions) == Some(title@),
            None => title_of(list.ids[i], directory, list.sessions) is None,
        } by {
            assert(text_views(titles)[i] == title_of(list.ids[i], directory, list.sessions));
        }
    }
}

/// The item that is found under a key is the first with that key; where none is found there is
/// none.
pub proof fn the_first_item_with_a_key_is_found(items: Seq<ItemView>, key: ItemKey, k: int)
    ensures
        0 <= k < items.len() && items[k].key == key && (forall|j: int|
            0 <= j < k ==> (#[trigger] items[j]).key != key) ==> first_with_key(items, key) == Some(
            items[k],
        ),
        (forall|j: int| 0 <= j < items.len() ==> (#[trigger] items[j]).key != key)
            ==> first_with_key(items, key) is None,
    decreases items.len(),
{
    if items.len() > 0 {
        let rest = items.drop_first();
        assert(items.first() == items[0]);
        the_first_item_with_a_key_is_found(rest, key, k - 1);
        if 0 < k < items.len() && items[k].key == key && (forall|j: int|
            0 <= j < k ==> (#[trigger] items[j]).key != key) {
            assert(items[0].key != key);
            assert forall|j: int| 0 <= j < k - 1 implies (#[trigger] rest[j]).key != key by {
                assert(rest[j] == items[j + 1]);
            }
            assert(rest[k - 1] == items[k]);
        }
        if forall|j: int| 0 <= j < items.len() ==> (#[trigger] items[j]).key != key {
            assert(items[0].key != key);
            assert forall|j: int| 0 <= j < rest.len() implies (#[trigger] rest[j]).key != key by {
                assert(rest[j] == items[j + 1]);
            }
        }
    }
}

/// The session that is found under an identifier is the first with that identifier; where none is
/// found there is none.
pub proof fn the_first_session_with_an_identifier_is_found(
    sessions: Seq<SessionView>,
    id: Seq<char>,
    k: int,
)
    ensures
        0 <= k < sessions.len() && sessions[k].id == id && (forall|j: int|
            0 <= j < k ==> (#[trigger] sessions[j]).id != id) ==> first_with_id(sessions, id)
            == Some(sessions[k]),
        (forall|j: int| 0 <= j < sessions.len() ==> (#[trigger] sessions[j]).id != id)
            ==> first_with_id(sessions, id) is None,
    decreases sessions.len(),
{
    if sessions.len() > 0 {
        let rest = sessions.drop_first();
        assert(sessions.first() == sessions[0]);
        the_first_session_with_an_identifier_is_found(rest, id, k - 1);
        if 0 < k < sessions.len() && sessions[k].id == id && (forall|j: int|
            0 <= j < k ==> (#[trigger] sessions[j]).id != id) {
            assert(sessions[0].id != id);
            assert forall|j: int| 0 <= j < k - 1 implies (#[trigger] rest[j]).id != id by {
                assert(rest[j] == sessions[j + 1]);
            }
            assert(rest[k - 1] == sessions[k]);
        }
        if forall|j: int| 0 <= j < sessions.len() ==> (#[trigger] sessions[j]).id != id {
            assert(sessions[0].id != id);
            assert forall|j: int| 0 <= j < rest.len() implies (#[trigger] rest[j]).id != id by {
                assert(rest[j] == sessions[j + 1]);
            }
        }
    }
}

/// An identifier is looked up among the tasks, the conversations or the sessions, whichever it
/// names, and the title of an item is the title of what is found there.
pub proof fn titles_are_those_of_what_is_found(
    directory: Seq<ItemView>,
    sessions: Seq<SessionView>,
    task: AmbientAgentTaskId,
    conversation: AIConversationId,
    session: SessionView,
)
    ensures
        item_lookup(directory, IdView::TaskId(task)) == first_with_key(
            directory,
            ItemKey::Task(task),
        ),
        item_lookup(directory, IdView::ConversationId(conversation)) == first_with_key(
            directory,
            ItemKey::Conversation(conversation),
        ),
        session_lookup(sessions, session_list_id(session)) == first_with_id(sessions, session.id),
        item_lookup(directory, session_list_id(session)) is None,
        session_lookup(sessions, IdView::TaskId(task)) is None,
        session_lookup(sessions, IdView::ConversationId(conversation)) is None,
        session_list_id(session)->session_id == session.id,
        session_list_id(session)->agent_type == session.agent_type,
        match first_with_key(directory, ItemKey::Task(task)) {
            Some(item) => title_of(IdView::TaskId(task), directory, sessions) == Some(item.title),
            None => title_of(IdView::TaskId(task), directory, sessions) is None,
        },
        match first_with_key(directory, ItemKey::Conversation(conversation)) {
            Some(item) => title_of(IdView::ConversationId(conversation), directory, sessions)
                == Some(item.title),
            None => title_of(IdView::ConversationId(conversation), directory, sessions) is None,
        },
        match first_with_id(sessions, session.id) {
            Some(found) => title_of(
                IdView::CLIAgentSession { session_id: session.id, agent_type: session.agent_type },
                directory,
                sessions,
            ) == Some(found.title),
            None => title_of(
                IdView::CLIAgentSession { session_id: session.id, agent_type: session.agent_type },
                directory,
                sessions,
            ) is None,
        },
{
}

/// Where the items that a search scored stand in the list.
proof fn scored_positions(
    ids: Seq<IdView>,
    titles: Seq<Option<Seq<char>>>,
    matches: Seq<Option<MatchView>>,
    n: int,
) -> (at: Seq<int>)
    requires
        0 <= n <= ids.len(),
    ensures
        at.len() == scored_items(ids, titles, matches, n).len(),
        forall|i: int|
            0 <= i < at.len() ==> {
                let k = #[trigger] at[i];
                let item = scored_items(ids, titles, matches, n)[i];
                &&& 0 <= k < n
                &&& k < titles.len() && titles[k] is Some
                &&& k < matches.len() && matches[k] is Some
                &&& item.score == matches[k]->0.score
                &&& item.entry.id == ids[k]
                &&& item.entry.highlight_indices == matches[k]->0.matched_indices
            },
        forall|i: int, j: int| 0 <= i < j < at.len() ==> #[trigger] at[i] < #[trigger] at[j],
        forall|k: int|
            0 <= k < n && k < titles.len() && titles[k] is Some && k < matches.len()
                && matches[k] is Some ==> #[trigger] at.contains(k),
    decreases n,
{
    if n <= 0 {
        seq![]
    } else {
        let at = scored_positions(ids, titles, matches, n - 1);
        let before = scored_items(ids, titles, matches, n - 1);
        let scored = scored_items(ids, titles, matches, n);
        if scored_item(ids, titles, matches, n - 1) is Some {
            let all = at.push(n - 1);
            assert forall|i: int| 0 <= i < all.len() implies {
                let k = #[trigger] all[i];
                let item = scored[i];
                &&& 0 <= k < n
                &&& k < titles.len() && titles[k] is Some
                &&& k < matches.len() && matches[k] is Some
                &&& item.score == matches[k]->0.score
                &&& item.entry.id == ids[k]
                &&& item.entry.highlight_indices == matches[k]->0.matched_indices
            } by {
                if i < at.len() {
                    assert(all[i] == at[i]);
                    assert(scored[i] == before[i]);
                }
            }
            assert forall|i: int, j: int| 0 <= i < j < all.len() implies #[trigger] all[i]
                < #[trigger] all[j] by {
                assert(all[i] == at[i]);
                if j < at.len() {
                    assert(all[j] == at[j]);
                }
            }
            assert forall|k: int|
                0 <= k < n && k < titles.len() && titles[k] is Some && k < matches.len()
                    && matches[k] is Some implies #[trigger] all.contains(k) by {
                if k == n - 1 {
                    assert(all[at.len() as int] == k);
                } else {
                    assert(at.contains(k));
                    let i = choose|i: int| 0 <= i < at.len() && at[i] == k;
                    assert(all[i] == k);
                }
            }
            all
        } else {
            at
        }
    }
}

/// A search shows the items whose titles are known and matched, each of them once and highlighted
/// where it matched: a higher score stands ahead of a lower one, and equal scores keep the order
/// of the list.
pub proof fn search_results_follow_the_scores(
    ids: Seq<IdView>,
    titles: Seq<Option<Seq<char>>>,
    matches: Seq<Option<MatchView>>,
    shown: Seq<ShownView>,
) -> (order: Seq<int>)
    requires
        search_results(ids, titles, matches, shown),
    ensures
        order.len() == shown.len(),
        forall|p: int|
            0 <= p < order.len() ==> {
                let k = #[trigger] order[p];
                &&& 0 <= k < ids.len()
                &&& k < titles.len() && titles[k] is Some
                &&& k < matches.len() && matches[k] is Some
                &&& shown[p].id == ids[k]
                &&& shown[p].highlight_indices == matches[k]->0.matched_indices
            },
        forall|p: int, q: int|
            0 <= p < q < order.len() ==> {
                ||| matches[#[trigger] order[p]]->0.score > matches[#[trigger] order[q]]->0.score
                ||| matches[order[p]]->0.score == matches[order[q]]->0.score && order[p] < order[q]
            },
        forall|k: int|
            0 <= k < ids.len() && k < titles.len() && titles[k] is Some && k < matches.len()
                && matches[k] is Some ==> #[trigger] order.contains(k),
{
    let n = ids.len() as int;
    let scored = scored_items(ids, titles, matches, n);
    let ranked = choose|ranked: Seq<ScoredView>|
        {
            &&& #[trigger] stably_ranked(scored, ranked, score_of())
            &&& shown == ranked.map_values(|item: ScoredView| item.entry)
        };
    let at = scored_positions(ids, titles, matches, n);
    let ranks = rankings_order_the_items(scored, ranked, score_of());
    let order = Seq::new(ranks.len(), |p: int| at[ranks[p]]);
    assert forall|p: int| 0 <= p < order.len() implies {
        let k = #[trigger] order[p];
        &&& 0 <= k < ids.len()
        &&& k < titles.len() && titles[k] is Some
        &&& k < matches.len() && matches[k] is Some
        &&& shown[p].id == ids[k]
        &&& shown[p].highlight_indices == matches[k]->0.matched_indices
    } by {
        assert(0 <= ranks[p] < scored.len());
        assert(0 <= at[ranks[p]] < n);
        assert(shown[p] == scored[ranks[p]].entry);
    }
    assert forall|p: int, q: int| 0 <= p < q < order.len() implies {
        ||| matches[#[trigger] order[p]]->0.score > matches[#[trigger] order[q]]->0.score
        ||| matches[order[p]]->0.score == matches[order[q]]->0.score && order[p] < order[q]
    } by {
        assert(0 <= ranks[p] < scored.len());
        assert(0 <= ranks[q] < scored.len());
        assert(scored[ranks[p]].score == matches[at[ranks[p]]]->0.score);
        assert(scored[ranks[q]].score == matches[at[ranks[q]]]->0.score);
        if ranks[p] < ranks[q] {
            assert(at[ranks[p]] < at[ranks[q]]);
        }
    }
    assert forall|k: int|
        0 <= k < ids.len() && k < titles.len() && titles[k] is Some && k < matches.len()
            && matches[k] is Some implies #[trigger] order.contains(k) by {
        assert(at.contains(k));
        let i = choose|i: int| 0 <= i < at.len() && at[i] == k;
        assert(ranks.contains(i));
        let p = choose|p: int| 0 <= p < ranks.len() && ranks[p] == i;
        assert(order[p] == k);
    }
    order
}

/// Of two items that a search found, the one with the higher score stands ahead of the other, and
/// of two with equal scores the one that stands ahead in the list.
pub proof fn better_matches_stand_ahead(
    ids: Seq<IdView>,
    titles: Seq<Option<Seq<char>>>,
    matches: Seq<Option<MatchView>>,
    shown: Seq<ShownView>,
    k: int,
    m: int,
)
    requires
        search_results(ids, titles, matches, shown),
        0 <= k < ids.len() && k < titles.len() && titles[k] is Some,
        0 <= m < ids.len() && m < titles.len() && titles[m] is Some,
        k < matches.len() && matches[k] is Some,
        m < matches.len() && matches[m] is Some,
        matches[k]->0.score > matches[m]->0.score || matches[k]->0.score == matches[m]->0.score && k
            < m,
    ensures
        exists|p: int, q: int|
            {
                &&& 0 <= p < q < shown.len()
                &&& #[trigger] shown[p] == (ShownView {
                    id: ids[k],
                    highlight_indices: matches[k]->0.matched_indices,
                })
                &&& #[trigger] shown[q] == (ShownView {
                    id: ids[m],
                    highlight_indices: matches[m]->0.matched_indices,
                })
            },
{
    let order = search_results_follow_the_scores(ids, titles, matches, shown);
    assert(order.contains(k));
    assert(order.contains(m));
    let p = choose|p: int| 0 <= p < order.len() && order[p] == k;
    let q = choose|q: int| 0 <= q < order.len() && order[q] == m;
    if q < p {
        assert(matches[order[q]]->0.score > matches[order[p]]->0.score || matches[order[q]]->0.score
            == matches[order[p]]->0.score && order[q] < order[p]);
    }
    assert(p < q);
    assert(shown[p].id == ids[order[p]]);
    assert(shown[q].id == ids[order[q]]);
}

/// A list is seen as its items, what it shows of them, its query and its sessions, each in the
/// order in which it holds them, and a scored entry as its score and what is shown of it.
proof fn models_are_seen_whole(
    model: ConversationListViewModel,
    list: ItemList,
    scored: ScoredEntry,
    i: int,
)
    ensures
        model@.ids == model.list@.ids,
        model@.sessions == model.list@.sessions,
        model@.query == model.list@.query,
        model@.shown.len() == model.filtered_items@.len(),
        0 <= i < model.filtered_items@.len() ==> model@.shown[i] == model.filtered_items@[i]@,
        list@.query == list.query@,
        list@.ids.len() == list.ids@.len(),
        0 <= i < list.ids@.len() ==> list@.ids[i] == list.ids@[i]@,
        list@.sessions.len() == list.sessions@.len(),
        0 <= i < list.sessions@.len() ==> list@.sessions[i] == list.sessions@[i]@,
        scored@.score == scored.score,
        scored@.entry == scored.entry@,
{
}

/// A session that is looked up by an identifier carries it, and is one of the sessions.
proof fn found_sessions_carry_their_identifier(sessions: Seq<SessionView>, id: Seq<char>)
    requires
        first_with_id(sessions, id) is Some,
    ensures
        first_with_id(sessions, id)->0.id == id,
        sessions.contains(first_with_id(sessions, id)->0),
    decreases sessions.len(),
{
    if sessions.first().id != id {
        let rest = sessions.drop_first();
        found_sessions_carry_their_identifier(rest, id);
        let found = first_with_id(rest, id)->0;
        let at = choose|at: int| 0 <= at < rest.len() && rest[at] == found;
        assert(sessions[at + 1] == found);
    } else {
        assert(sessions[0] == sessions.first());
    }
}

/// A list that is put together from conversations, tasks and sessions knows its sessions.
proof fn assembled_lists_know_their_sessions(items: Seq<ItemView>, sessions: Seq<SessionView>)
    ensures
        sessions_known(list_ids(items, sessions), sessions),
{
    let pick = |item: ItemView| listed_id(item);
    let listed = items.filter_map(pick);
    let ids = list_ids(items, sessions);
    assert forall|i: int|
        0 <= i < ids.len() && (#[trigger] ids[i]) is CLIAgentSession implies session_lookup(
        sessions,
        ids[i],
    ) is Some by {
        if i < listed.len() {
            assert(listed.contains(listed[i]));
            items.lemma_filter_map_contains(pick, listed[i]);
        } else {
            listed_sessions_are_found_again(sessions, i - listed.len());
        }
    }
}

/// Where everything is shown, whatever is shown is listed.
proof fn everything_shown_is_listed(ids: Seq<IdView>)
    ensures
        forall|i: int| 0 <= i < all_shown(ids).len() ==> ids.contains(#[trigger] all_shown(ids)[i].id),
{
    assert forall|i: int| 0 <= i < all_shown(ids).len() implies ids.contains(
        #[trigger] all_shown(ids)[i].id,
    ) by {
        assert(all_shown(ids)[i].id == ids[i]);
    }
}

/// What a search found is in the list.
proof fn found_items_are_listed(
    ids: Seq<IdView>,
    titles: Seq<Option<Seq<char>>>,
    matches: Seq<Option<MatchView>>,
    shown: Seq<ShownView>,
)
    requires
        search_results(ids, titles, matches, shown),
    ensures
        forall|i: int| 0 <= i < shown.len() ==> ids.contains(#[trigger] shown[i].id),
{
    assert forall|i: int| 0 <= i < shown.len() implies ids.contains(#[trigger] shown[i].id) by {
        shown_items_match(ids, titles, matches, shown, i);
    }
}

/// Every agent session that a list shows is found by its identifier, as a session and
/// not as a conversation or a task.
pub proof fn shown_sessions_are_found(list: ListView, directory: Seq<ItemView>, i: int)
    requires
        list.up_to_date(),
        0 <= i < list.shown.len(),
        list.shown[i].id is CLIAgentSession,
    ensures
        session_lookup(list.sessions, list.shown[i].id) is Some,
        session_lookup(list.sessions, list.shown[i].id)->0.id == list.shown[i].id->session_id,
        list.sessions.contains(session_lookup(list.sessions, list.shown[i].id)->0),
        item_lookup(directory, list.shown[i].id) is None,
{
    let id = list.shown[i].id;
    assert(list.ids.contains(id));
    let k = choose|k: int| 0 <= k < list.ids.len() && list.ids[k] == id;
    assert(session_lookup(list.sessions, list.ids[k]) is Some);
    found_sessions_carry_their_identifier(list.sessions, id->session_id);
}

/// An identifier names an agent session or a conversation or task, and never both; what it names
/// among the sessions carries it.
pub proof fn lookups_exclude_each_other(
    sessions: Seq<SessionView>,
    directory: Seq<ItemView>,
    id: IdView,
)
    ensures
        session_lookup(sessions, id) is Some ==> id is CLIAgentSession && session_lookup(sessions, id)->0.id
            == id->session_id,
        session_lookup(sessions, id) is None || item_lookup(directory, id) is None,
{
    if session_lookup(sessions, id) is Some {
        found_sessions_carry_their_identifier(sessions, id->session_id);
    }
}

/// The agent sessions stand behind the conversations and tasks, one for one.
pub proof fn sessions_end_the_list(items: Seq<ItemView>, sessions: Seq<SessionView>)
    ensures
        list_ids(items, sessions).len() >= sessions.len(),
        forall|i: int|
            0 <= i < sessions.len() ==> #[trigger] list_ids(items, sessions)[list_ids(
                items,
                sessions,
            ).len() - sessions.len() + i] == session_list_id(sessions[i]),
{
}

} // verus!
