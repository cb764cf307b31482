//! Discovery of the sessions that third-party command-line agents keep on disk.
//!
//! The files are read elsewhere; this module decides which of them are sessions, what each
//! session is called, when it was last touched, and in which order the sessions are listed. An
//! agent is known by the name of its command, which the caller gives.
use vstd::prelude::*;

use crate::ranking::{rank_items, Ranked};
#[allow(unused_imports)]
use crate::ranking::{
    kept_positions, rank_of, rankings_order_the_items, stable_ranking_is_unique, stably_ranked, views,
};
use crate::text::{joined, same_text};

verus! {

broadcast use vstd::seq_lib::group_seq_properties;

/// The most sessions that one scan lists.
pub const MAX_CLI_AGENT_SESSIONS: usize = 50;

/// The most characters of a message that a title shows.
pub const MAX_TITLE_CHARS: usize = 80;

/// The environment variable that names the agent's configuration directory.
pub const CLAUDE_CONFIG_DIR: &'static str = "CLAUDE_CONFIG_DIR";

/// The name of the sessions directory in the configuration directory.
pub const SESSIONS_DIR_NAME: &'static str = "sessions";

/// A command-line agent whose sessions can be listed.
#[derive(Clone, Copy, Debug, PartialEq, Eq, Structural, Hash)]
pub enum CLIAgent {
    Claude,
}

/// A moment: whole seconds since the Unix epoch, and the nanoseconds on top of them. In a leap
/// second the nanoseconds go past one second.
#[derive(Clone, Copy, Debug, PartialEq, Eq, Structural)]
pub struct Timestamp {
    pub seconds: i64,
    pub nanos: u32,
}

impl Timestamp {
    /// A number that orders moments as they follow each other.
    pub open spec fn order(self) -> int {
        self.seconds * 0x1_0000_0000 + self.nanos
    }
}

/// A member of a JSON object, looked up by its key and read as text.
#[derive(Debug)]
pub enum MemberText {
    /// The object has no such member, or the value is no object.
    Missing,
    /// The member is there and is no text.
    NotText,
    Text(String),
}

/// A message of a session, as far as a title can be made of it.
#[derive(Debug)]
pub struct SessionMessage {
    pub role: MemberText,
    pub content: MemberText,
    pub text: MemberText,
}

/// What a session file says.
#[derive(Debug)]
pub struct ClaudeSessionFile {
    pub session_id: Option<String>,
    pub name: Option<String>,
    pub title: Option<String>,
    pub updated_at: Option<String>,
    pub project: Option<String>,
    pub messages: Vec<SessionMessage>,
    pub history: Vec<SessionMessage>,
}

/// A session file that was found: the stem of its name, what it says, and when it was read.
#[derive(Debug)]
pub struct SessionEntry {
    pub stem: Option<String>,
    pub file: ClaudeSessionFile,
    pub read_at: Timestamp,
}

/// A session of a command-line agent.
#[derive(Debug)]
pub struct DiscoveredCLIAgentSession {
    pub id: String,
    pub agent_type: CLIAgent,
    pub title: String,
    pub session_id: String,
    pub working_directory: Option<String>,
    pub last_updated: Timestamp,
}

/// The model of [`MemberText`].
pub ghost enum MemberView {
    Missing,
    NotText,
    Text(Seq<char>),
}

/// The model of [`SessionMessage`].
pub ghost struct MessageView {
    pub role: MemberView,
    pub content: MemberView,
    pub text: MemberView,
}

/// The model of [`ClaudeSessionFile`].
pub ghost struct FileView {
    pub session_id: Option<Seq<char>>,
    pub name: Option<Seq<char>>,
    pub title: Option<Seq<char>>,
    pub updated_at: Option<Seq<char>>,
    pub project: Option<Seq<char>>,
    pub messages: Seq<MessageView>,
    pub history: Seq<MessageView>,
}

/// The model of [`SessionEntry`].
pub ghost struct EntryView {
    pub stem: Option<Seq<char>>,
    pub file: FileView,
    pub read_at: Timestamp,
}

/// The model of [`DiscoveredCLIAgentSession`].
pub ghost struct SessionView {
    pub id: Seq<char>,
    pub agent_type: CLIAgent,
    pub title: Seq<char>,
    pub session_id: Seq<char>,
    pub working_directory: Option<Seq<char>>,
    pub last_updated: Timestamp,
}

/// The model of an optional text.
pub open spec fn text_view(text: Option<String>) -> Option<Seq<char>> {
    match text {
        Some(text) => Some(text@),
        None => None,
    }
}

impl View for MemberText {
    type V = MemberView;

    open spec fn view(&self) -> MemberView {
        match self {
            MemberText::Missing => MemberView::Missing,
            MemberText::NotText => MemberView::NotText,
            MemberText::Text(text) => MemberView::Text(text@),
        }
    }
}

impl View for SessionMessage {
    type V = MessageView;

    open spec fn view(&self) -> MessageView {
        MessageView { role: self.role@, content: self.content@, text: self.text@ }
    }
}

impl View for ClaudeSessionFile {
    type V = FileView;

    open spec fn view(&self) -> FileView {
        FileView {
            session_id: text_view(self.session_id),
            name: text_view(self.name),
            title: text_view(self.title),
            updated_at: text_view(self.updated_at),
            project: text_view(self.project),
            messages: views(self.messages@),
            history: views(self.history@),
        }
    }
}

impl View for SessionEntry {
    type V = EntryView;

    open spec fn view(&self) -> EntryView {
        EntryView { stem: text_view(self.stem), file: self.file@, read_at: self.read_at }
    }
}

impl View for DiscoveredCLIAgentSession {
    type V = SessionView;

    open spec fn view(&self) -> SessionView {
        SessionView {
            id: self.id@,
            agent_type: self.agent_type,
            title: self.title@,
            session_id: self.session_id@,
            working_directory: text_view(self.working_directory),
            last_updated: self.last_updated,
        }
    }
}

/// A JSON value of `serde_json`.
#[verifier::external_type_specification]
#[verifier::external_body]
pub struct ExJsonValue(serde_json::Value);

/// The members of a JSON object by their keys, each with its text where it is a text. A value
/// that is no object has none.
pub uninterp spec fn json_members(value: serde_json::Value) -> Map<Seq<char>, Option<Seq<char>>>;

/// The moment that `text` names in RFC 3339 notation, as [`chrono::DateTime::parse_from_rfc3339`]
/// reads it: seconds and nanoseconds since the Unix epoch.
pub uninterp spec fn rfc3339_moment(text: Seq<char>) -> Option<(i64, u32)>;

/// Calls [`serde_json::Value::get`] with a text key, and [`serde_json::Value::as_str`] on what
/// it finds. The outer option says whether the member is there, the inner one whether it is a
/// text.
#[verifier::external_body]
fn json_member<'a>(value: &'a serde_json::Value, key: &str) -> (member: Option<Option<&'a str>>)
    ensures
        match member {
            None => !json_members(*value).contains_key(key@),
            Some(None) => json_members(*value).contains_key(key@) && json_members(*value)[key@]
                is None,
            Some(Some(text)) => json_members(*value).contains_key(key@) && json_members(
                *value,
            )[key@] == Some(text@),
        },
{
    value.get(key).map(|member| member.as_str())
}

/// Calls [`chrono::DateTime::parse_from_rfc3339`] and takes the moment apart into its timestamp
/// and the nanoseconds below a second, both of which are counted in UTC.
#[verifier::external_body]
fn parse_rfc3339(text: &str) -> (moment: Option<(i64, u32)>)
    ensures
        moment == rfc3339_moment(text@),
{
    let parsed = chrono::DateTime::parse_from_rfc3339(text).ok();
    parsed.map(|moment| (moment.timestamp(), moment.timestamp_subsec_nanos()))
}

/// The system clock once said that it was so many seconds and nanoseconds since the Unix epoch.
pub uninterp spec fn utc_read(seconds: i64, nanos: u32) -> bool;

/// Calls [`chrono::Utc::now`]. Of the moment it is said only that the system clock gave it.
#[verifier::external_body]
fn utc_now() -> (now: Timestamp)
    ensures
        utc_read(now.seconds, now.nanos),
{
    let now = chrono::Utc::now();
    Timestamp { seconds: now.timestamp(), nanos: now.timestamp_subsec_nanos() }
}

/// A member as it is looked up in the members of a JSON object.
pub open spec fn member_of(members: Map<Seq<char>, Option<Seq<char>>>, key: Seq<char>) -> MemberView {
    if !members.contains_key(key) {
        MemberView::Missing
    } else {
        match members[key] {
            None => MemberView::NotText,
            Some(text) => MemberView::Text(text),
        }
    }
}

/// A member of `value` as it is looked up by `key`.
fn member_text(value: &serde_json::Value, key: &str) -> (member: MemberText)
    ensures
        member@ == member_of(json_members(*value), key@),
{
    match json_member(value, key) {
        None => MemberText::Missing,
        Some(None) => MemberText::NotText,
        Some(Some(text)) => MemberText::Text(text.to_owned()),
    }
}

impl SessionMessage {
    /// A message of a session file.
    pub fn from_json(value: &serde_json::Value) -> (message: SessionMessage)
        ensures
            message@ == (MessageView {
                role: member_of(json_members(*value), "role"@),
                content: member_of(json_members(*value), "content"@),
                text: member_of(json_members(*value), "text"@),
            }),
    {
        SessionMessage {
            role: member_text(value, "role"),
            content: member_text(value, "content"),
            text: member_text(value, "text"),
        }
    }
}

/// A text as a title shows it: its first 80 characters, with an ellipsis where there are more.
pub open spec fn shortened(text: Seq<char>) -> Seq<char> {
    if text.len() > MAX_TITLE_CHARS {
        text.take(MAX_TITLE_CHARS as int) + "…"@
    } else {
        text
    }
}

/// The message comes from the user.
pub open spec fn from_user(message: MessageView) -> bool {
    message.role == MemberView::Text("user"@) || message.role == MemberView::Text("human"@)
}

/// What a message says: its `content`, or its `text` where it has no `content`.
pub open spec fn said(message: MessageView) -> Option<Seq<char>> {
    let body = if message.content is Missing {
        message.text
    } else {
        message.content
    };
    match body {
        MemberView::Text(text) => Some(text),
        _ => None,
    }
}

/// The title that a message makes.
pub open spec fn message_title(message: MessageView) -> Option<Seq<char>> {
    match said(message) {
        Some(text) if from_user(message) => Some(shortened(text)),
        _ => None,
    }
}

/// The title that the first message of the user makes which says anything.
pub open spec fn first_title(messages: Seq<MessageView>) -> Option<Seq<char>>
    decreases messages.len(),
{
    if messages.len() == 0 {
        None
    } else if message_title(messages.first()) is Some {
        message_title(messages.first())
    } else {
        first_title(messages.drop_first())
    }
}

/// The title of a session: its name, else its title, else what the user said first, else
/// `untitled`.
pub open spec fn session_title(file: FileView, untitled: Seq<char>) -> Seq<char> {
    let messages = if file.messages.len() > 0 {
        file.messages
    } else {
        file.history
    };
    match (file.name, file.title, first_title(messages)) {
        (Some(name), _, _) => name,
        (None, Some(title), _) => title,
        (None, None, Some(title)) => title,
        (None, None, None) => untitled,
    }
}

/// The identifier of a session: the one that the file gives, else the stem of the file's name.
pub open spec fn entry_session_id(entry: EntryView) -> Seq<char> {
    match (entry.file.session_id, entry.stem) {
        (Some(id), _) => id,
        (None, Some(stem)) => stem,
        (None, None) => seq![],
    }
}

/// The moment in a file's `updated_at`, where it can be read.
pub open spec fn entry_moment(entry: EntryView) -> Option<Timestamp> {
    match entry.file.updated_at {
        Some(text) => match rfc3339_moment(text) {
            Some((seconds, nanos)) => Some(Timestamp { seconds, nanos }),
            None => None,
        },
        None => None,
    }
}

/// The session that a file describes which was last touched at `moment`, or when it was read
/// where no moment is known. A file that gives no identifier describes none.
pub open spec fn session_touched(
    entry: EntryView,
    agent_name: Seq<char>,
    untitled: Seq<char>,
    moment: Option<Timestamp>,
) -> Option<SessionView> {
    if entry_session_id(entry).len() == 0 {
        None
    } else {
        Some(
            SessionView {
                id: agent_name + ":"@ + entry_session_id(entry),
                agent_type: CLIAgent::Claude,
                title: session_title(entry.file, untitled),
                session_id: entry_session_id(entry),
                working_directory: entry.file.project,
                last_updated: match moment {
                    Some(moment) => moment,
                    None => entry.read_at,
                },
            },
        )
    }
}

/// The session that a file describes.
pub open spec fn entry_session(
    entry: EntryView,
    agent_name: Seq<char>,
    untitled: Seq<char>,
) -> Option<SessionView> {
    session_touched(entry, agent_name, untitled, entry_moment(entry))
}

/// The model of an optional session.
pub open spec fn session_view(session: Option<DiscoveredCLIAgentSession>) -> Option<SessionView> {
    match session {
        Some(session) => Some(session@),
        None => None,
    }
}

/// The sessions that a row of files describes, in the order of the files.
pub open spec fn found_sessions(
    entries: Seq<EntryView>,
    agent_name: Seq<char>,
    untitled: Seq<char>,
) -> Seq<SessionView> {
    entries.filter_map(|entry: EntryView| entry_session(entry, agent_name, untitled))
}

/// `sessions` are those that the files describe, the last touched first; sessions that were
/// touched in the same moment stand in the order of their files.
pub open spec fn scanned(
    entries: Seq<EntryView>,
    agent_name: Seq<char>,
    untitled: Seq<char>,
    sessions: Seq<SessionView>,
) -> bool {
    stably_ranked(
        found_sessions(entries, agent_name, untitled),
        sessions,
        rank_of::<DiscoveredCLIAgentSession>(),
    )
}

impl Ranked for DiscoveredCLIAgentSession {
    open spec fn rank(item: SessionView) -> int {
        item.last_updated.order()
    }

    fn ranks_below(&self, other: &Self) -> (below: bool) {
        let left = self.last_updated;
        let right = other.last_updated;
        left.seconds < right.seconds || (left.seconds == right.seconds && left.nanos < right.nanos)
    }
}

/// A copy of an optional text.
fn copy_text(text: &Option<String>) -> (copy: Option<String>)
    ensures
        text_view(copy) == text_view(*text),
{
    match text {
        Some(text) => Some(text.clone()),
        None => None,
    }
}

impl Clone for DiscoveredCLIAgentSession {
    fn clone(&self) -> (copy: Self)
        ensures
            copy@ == self@,
    {
        DiscoveredCLIAgentSession {
            id: self.id.clone(),
            agent_type: self.agent_type,
            title: self.title.clone(),
            session_id: self.session_id.clone(),
            working_directory: copy_text(&self.working_directory),
            last_updated: self.last_updated,
        }
    }
}

impl DiscoveredCLIAgentSession {
    /// The command that resumes the session: the name of the agent's command, `resume`, and the
    /// identifier that the agent gave the session.
    pub fn resume_command(&self, agent_name: &str) -> (command: String)
        ensures
            command@ == agent_name@ + " resume "@ + self.session_id@,
    {
        joined(agent_name, " resume ").concat(&self.session_id)
    }
}

/// A text as a title shows it.
fn shorten(text: &str) -> (title: String)
    ensures
        title@ == shortened(text@),
{
    if text.unicode_len() > MAX_TITLE_CHARS {
        joined(text.substring_char(0, MAX_TITLE_CHARS), "…")
    } else {
        text.to_owned()
    }
}

/// Whether a member is the text `word`.
fn is_word(member: &MemberText, word: &str) -> (r: bool)
    ensures
        r == (member@ == MemberView::Text(word@)),
{
    match member {
        MemberText::Text(text) => same_text(text, word),
        _ => false,
    }
}

/// The title that a message makes.
fn title_of(message: &SessionMessage) -> (title: Option<String>)
    ensures
        text_view(title) == message_title(message@),
{
    if !is_word(&message.role, "user") && !is_word(&message.role, "human") {
        return None;
    }
    let body = match &message.content {
        MemberText::Missing => &message.text,
        _ => &message.content,
    };
    match body {
        MemberText::Text(text) => Some(shorten(text)),
        _ => None,
    }
}

/// The title that the first message of the user makes which says anything.
fn first_title_of(messages: &Vec<SessionMessage>) -> (title: Option<String>)
    ensures
        text_view(title) == first_title(views(messages@)),
{
    let mut i: usize = 0;
    let ghost all = views(messages@);
    assert(all.skip(0) =~= all);
    while i < messages.len()
        invariant
            i <= messages.len(),
            all == views(messages@),
            first_title(all) == first_title(all.skip(i as int)),
        decreases messages.len() - i,
    {
        assert(all.skip(i as int).first() == messages@[i as int]@);
        let title = title_of(&messages[i]);
        if title.is_some() {
            return title;
        }
        assert(all.skip(i as int).drop_first() =~= all.skip(i + 1));
        i += 1;
    }
    None
}

impl ClaudeSessionFile {
    /// The title of the session.
    pub fn session_title(&self, untitled: &str) -> (title: String)
        ensures
            title@ == session_title(self@, untitled@),
    {
        if let Some(name) = &self.name {
            return name.clone();
        }
        if let Some(title) = &self.title {
            return title.clone();
        }
        let said = if self.messages.len() > 0 {
            first_title_of(&self.messages)
        } else {
            first_title_of(&self.history)
        };
        match said {
            Some(title) => title,
            None => untitled.to_owned(),
        }
    }
}

impl SessionEntry {
    /// The entry for a session file that has just been read.
    pub fn new(stem: Option<String>, file: ClaudeSessionFile) -> (entry: SessionEntry)
        ensures
            entry.stem == stem,
            entry.file == file,
            utc_read(entry.read_at.seconds, entry.read_at.nanos),
    {
        SessionEntry { stem, file, read_at: utc_now() }
    }

    /// The session that the file describes.
    pub fn session(&self, agent_name: &str, untitled: &str) -> (session: Option<
        DiscoveredCLIAgentSession,
    >)
        ensures
            session_view(session) == entry_session(self@, agent_name@, untitled@),
    {
        let moment = match &self.file.updated_at {
            Some(text) => match parse_rfc3339(text) {
                Some((seconds, nanos)) => Some(Timestamp { seconds, nanos }),
                None => None,
            },
            None => None,
        };
        self.session_touched(agent_name, untitled, moment)
    }

    /// The session that the file describes, last touched at `moment`, or when the file was read
    /// where no moment is known.
    pub fn session_touched(
        &self,
        agent_name: &str,
        untitled: &str,
        moment: Option<Timestamp>,
    ) -> (session: Option<DiscoveredCLIAgentSession>)
        ensures
            session_view(session) == session_touched(self@, agent_name@, untitled@, moment),
    {
        let session_id = match (&self.file.session_id, &self.stem) {
            (Some(id), _) => id.clone(),
            (None, Some(stem)) => stem.clone(),
            (None, None) => String::new(),
        };
        if session_id.as_str().is_empty() {
            return None;
        }
        let last_updated = match moment {
            Some(moment) => moment,
            None => self.read_at,
        };
        Some(
            DiscoveredCLIAgentSession {
                id: joined(agent_name, ":").concat(&session_id),
                agent_type: CLIAgent::Claude,
                title: self.file.session_title(untitled),
                session_id,
                working_directory: copy_text(&self.file.project),
                last_updated,
            },
        )
    }
}

/// Where the agent keeps its configuration.
#[derive(Debug)]
pub enum ClaudeDir<C, H> {
    /// The directory that the environment names.
    Configured(C),
    /// The directory in the home directory that [`config_dir_name`] names.
    InHome(H),
}

/// The name of the agent's configuration directory in the home directory: that of its command,
/// hidden by a dot.
pub fn config_dir_name(agent_name: &str) -> (name: String)
    ensures
        name@ == "."@ + agent_name@,
{
    joined(".", agent_name)
}

/// The configuration directory of the agent: the one that the environment names, else the one in
/// the home directory, if there is a home directory.
pub fn claude_dir<C, H>(configured: Option<C>, home: Option<H>) -> (dir: Option<ClaudeDir<C, H>>)
    ensures
        dir == match (configured, home) {
            (Some(configured), _) => Some(ClaudeDir::<C, H>::Configured(configured)),
            (None, Some(home)) => Some(ClaudeDir::<C, H>::InHome(home)),
            (None, None) => None,
        },
{
    match configured {
        Some(configured) => Some(ClaudeDir::Configured(configured)),
        None => match home {
            Some(home) => Some(ClaudeDir::InHome(home)),
            None => None,
        },
    }
}

/// Whether a file with this extension can be a session file.
pub fn is_session_file(extension: Option<&str>) -> (r: bool)
    ensures
        r == match extension {
            Some(extension) => extension@ == "json"@,
            None => false,
        },
{
    match extension {
        Some(extension) => same_text(extension, "json"),
        None => false,
    }
}

/// The sessions that the files of a sessions directory describe, the last touched first.
pub fn scan_claude_sessions(
    entries: &Vec<SessionEntry>,
    agent_name: &str,
    untitled: &str,
) -> (sessions: Vec<DiscoveredCLIAgentSession>)
    ensures
        scanned(views(entries@), agent_name@, untitled@, views(sessions@)),
{
    let mut found: Vec<DiscoveredCLIAgentSession> = Vec::new();
    let mut i: usize = 0;
    let ghost all = views(entries@);
    let ghost pick = |entry: EntryView| entry_session(entry, agent_name@, untitled@);
    assert(all.take(0) =~= seq![]);
    assert(views(found@) =~= all.take(0).filter_map(pick));
    while i < entries.len()
        invariant
            i <= entries.len(),
            all == views(entries@),
            pick == (|entry: EntryView| entry_session(entry, agent_name@, untitled@)),
            views(found@) == all.take(i as int).filter_map(pick),
        decreases entries.len() - i,
    {
        proof {
            all.lemma_filter_map_take_succ(pick, i as int);
        }
        let ghost before = found@;
        assert(all[i as int] == entries@[i as int]@);
        if let Some(session) = entries[i].session(agent_name, untitled) {
            found.push(session);
            assert(views(found@) =~= views(before) + seq![session@]);
        }
        assert(views(found@) =~= all.take(i + 1).filter_map(pick));
        i += 1;
    }
    assert(all.take(all.len() as int) =~= all);
    rank_items(found)
}

/// The sessions of all known agents, at most 50 of them. `files` are those of the agent's sessions
/// directory, if its configuration directory is known.
pub fn scan_all_sync(
    files: Option<&Vec<SessionEntry>>,
    agent_name: &str,
    untitled: &str,
) -> (sessions: Vec<DiscoveredCLIAgentSession>)
    ensures
        sessions@.len() <= MAX_CLI_AGENT_SESSIONS,
        files matches Some(entries) ==> {
            let found = found_sessions(views(entries@), agent_name@, untitled@);
            sessions@.len() == if found.len() > 50 {
                50
            } else {
                found.len()
            }
        },
        match files {
            None => sessions@.len() == 0,
            Some(entries) => exists|all: Seq<SessionView>| #[trigger]
                scanned(views(entries@), agent_name@, untitled@, all) && views(sessions@) == if all.len()
                    > MAX_CLI_AGENT_SESSIONS {
                    all.take(MAX_CLI_AGENT_SESSIONS as int)
                } else {
                    all
                },
        },
{
    match files {
        None => Vec::new(),
        Some(entries) => {
            let mut all = scan_claude_sessions(entries, agent_name, untitled);
            let ghost whole = views(all@);
            assert(whole.to_multiset().len() == whole.len());
            all.truncate(MAX_CLI_AGENT_SESSIONS);
            assert(scanned(views(entries@), agent_name@, untitled@, whole));
            assert(whole.len() > MAX_CLI_AGENT_SESSIONS ==> views(all@) =~= whole.take(
                MAX_CLI_AGENT_SESSIONS as int,
            ));
            assert(whole.len() <= MAX_CLI_AGENT_SESSIONS ==> views(all@) =~= whole);
            all
        },
    }
}

/// What a scan lists describes one of the files, and carries an identifier.
pub proof fn listed_sessions_are_found(
    entries: Seq<EntryView>,
    agent_name: Seq<char>,
    untitled: Seq<char>,
    sessions: Seq<SessionView>,
    i: int,
)
    requires
        scanned(entries, agent_name, untitled, sessions),
        0 <= i < sessions.len(),
    ensures
        exists|k: int|
            0 <= k < entries.len() && entry_session(#[trigger] entries[k], agent_name, untitled)
                == Some(sessions[i]),
        sessions[i].session_id.len() > 0,
        sessions[i].id == agent_name + ":"@ + sessions[i].session_id,
{
    let found = found_sessions(entries, agent_name, untitled);
    let pick = |entry: EntryView| entry_session(entry, agent_name, untitled);
    found.to_multiset_ensures();
    sessions.to_multiset_ensures();
    assert(sessions.contains(sessions[i]));
    assert(sessions.to_multiset().count(sessions[i]) > 0);
    assert(found.contains(sessions[i]));
    entries.lemma_filter_map_contains(pick, sessions[i]);
    let entry = choose|entry: EntryView| #[trigger]
        entries.contains(entry) && pick(entry) == Some(sessions[i]);
    let k = choose|k: int| 0 <= k < entries.len() && entries[k] == entry;
    assert(entry_session(entries[k], agent_name, untitled) == Some(sessions[i]));
}

/// A session that a file describes is found.
proof fn described_sessions_are_found(
    entries: Seq<EntryView>,
    agent_name: Seq<char>,
    untitled: Seq<char>,
    k: int,
)
    requires
        0 <= k < entries.len(),
        entry_session(entries[k], agent_name, untitled) is Some,
    ensures
        found_sessions(entries, agent_name, untitled).contains(entry_session(entries[k], agent_name, untitled)->0),
    decreases entries.len(),
{
    let pick = |entry: EntryView| entry_session(entry, agent_name, untitled);
    let whole = found_sessions(entries, agent_name, untitled);
    let rest = found_sessions(entries.drop_last(), agent_name, untitled);
    reveal_with_fuel(Seq::filter_map, 2);
    assert(rest == entries.drop_last().filter_map(pick));
    if k < entries.len() - 1 {
        described_sessions_are_found(entries.drop_last(), agent_name, untitled, k);
        let session = entry_session(entries[k], agent_name, untitled)->0;
        let at = choose|at: int| 0 <= at < rest.len() && rest[at] == session;
        assert(whole[at] == session);
    } else {
        assert(whole.last() == entry_session(entries[k], agent_name, untitled)->0);
    }
}

/// A scan lists every session that a file describes.
pub proof fn found_sessions_are_listed(
    entries: Seq<EntryView>,
    agent_name: Seq<char>,
    untitled: Seq<char>,
    sessions: Seq<SessionView>,
    k: int,
)
    requires
        scanned(entries, agent_name, untitled, sessions),
        0 <= k < entries.len(),
        entry_session(entries[k], agent_name, untitled) is Some,
    ensures
        sessions.contains(entry_session(entries[k], agent_name, untitled)->0),
{
    let found = found_sessions(entries, agent_name, untitled);
    let session = entry_session(entries[k], agent_name, untitled)->0;
    described_sessions_are_found(entries, agent_name, untitled, k);
    found.to_multiset_ensures();
    sessions.to_multiset_ensures();
    assert(found.to_multiset().count(session) > 0);
}

/// A scan lists the last touched session first.
pub proof fn scans_are_newest_first(
    entries: Seq<EntryView>,
    agent_name: Seq<char>,
    untitled: Seq<char>,
    sessions: Seq<SessionView>,
    i: int,
    j: int,
)
    requires
        scanned(entries, agent_name, untitled, sessions),
        0 <= i <= j < sessions.len(),
    ensures
        sessions[i].last_updated.order() >= sessions[j].last_updated.order(),
{
    let key = rank_of::<DiscoveredCLIAgentSession>();
    assert(key(sessions[i]) >= key(sessions[j]));
}

/// What a scan lists, and in which order, is settled by the files.
pub proof fn scans_are_determined(
    entries: Seq<EntryView>,
    agent_name: Seq<char>,
    untitled: Seq<char>,
    left: Seq<SessionView>,
    right: Seq<SessionView>,
)
    requires
        scanned(entries, agent_name, untitled, left),
        scanned(entries, agent_name, untitled, right),
    ensures
        left == right,
{
    stable_ranking_is_unique(
        found_sessions(entries, agent_name, untitled),
        left,
        right,
        rank_of::<DiscoveredCLIAgentSession>(),
    );
}

/// What a session, an entry and a message are seen as is what they hold.
pub proof fn sessions_are_seen_whole(
    session: DiscoveredCLIAgentSession,
    entry: SessionEntry,
    message: SessionMessage,
    member: MemberText,
)
    ensures
        session@.id == session.id@,
        session@.agent_type == session.agent_type,
        session@.title == session.title@,
        session@.session_id == session.session_id@,
        session@.last_updated == session.last_updated,
        match session.working_directory {
            Some(directory) => session@.working_directory == Some(directory@),
            None => session@.working_directory is None,
        },
        match entry.stem {
            Some(stem) => entry@.stem == Some(stem@),
            None => entry@.stem is None,
        },
        entry@.file == entry.file@,
        entry@.read_at == entry.read_at,
        message@.role == message.role@,
        message@.content == message.content@,
        message@.text == message.text@,
        match member {
            MemberText::Missing => member@ == MemberView::Missing,
            MemberText::NotText => member@ == MemberView::NotText,
            MemberText::Text(text) => member@ == MemberView::Text(text@),
        },
{
}

/// What a session file is seen as is what it holds.
pub proof fn files_are_seen_whole(file: ClaudeSessionFile, text: String)
    ensures
        text_view(Some(text)) == Some(text@),
        text_view(None) is None,
        file.session_id == Some(text) ==> file@.session_id == Some(text@),
        file.session_id is None ==> file@.session_id is None,
        file.name == Some(text) ==> file@.name == Some(text@),
        file.name is None ==> file@.name is None,
        file.title == Some(text) ==> file@.title == Some(text@),
        file.title is None ==> file@.title is None,
        file.updated_at == Some(text) ==> file@.updated_at == Some(text@),
        file.updated_at is None ==> file@.updated_at is None,
        file.project == Some(text) ==> file@.project == Some(text@),
        file.project is None ==> file@.project is None,
        file@.messages.len() == file.messages@.len(),
        file@.history.len() == file.history@.len(),
        forall|i: int|
            0 <= i < file.messages@.len() ==> #[trigger] file@.messages[i] == file.messages@[i]@,
        forall|i: int|
            0 <= i < file.history@.len() ==> #[trigger] file@.history[i] == file.history@[i]@,
{
}

/// An optional session is seen as the session where there is one.
pub proof fn optional_sessions_are_seen_whole(session: DiscoveredCLIAgentSession)
    ensures
        session_view(Some(session)) == Some(session@),
        session_view(None) is None,
{
}

/// A member is missing exactly where the object has no such key; a member that is there is a text
/// exactly where its value is one, and then it is that text.
pub proof fn members_are_looked_up(
    members: Map<Seq<char>, Option<Seq<char>>>,
    key: Seq<char>,
    text: Seq<char>,
)
    ensures
        member_of(members, key) is Missing <==> !members.contains_key(key),
        member_of(members, key) is NotText <==> members.contains_key(key) && members[key] is None,
        member_of(members, key) == MemberView::Text(text) <==> members.contains_key(key)
            && members[key] == Some(text),
{
}

/// A message of the user, or of a human, says its content, and its text where it has no content at
/// all; a content that is no text makes it say nothing. Nobody else's message makes a title.
pub proof fn messages_of_the_user_make_titles(message: MessageView, words: Seq<char>)
    requires
        words.len() <= 80,
    ensures
        (message.role == MemberView::Text("user"@) || message.role == MemberView::Text("human"@))
            && message.content == MemberView::Text(words) ==> message_title(message) == Some(words),
        (message.role == MemberView::Text("user"@) || message.role == MemberView::Text("human"@))
            && message.content is Missing && message.text == MemberView::Text(words)
            ==> message_title(message) == Some(words),
        message.role != MemberView::Text("user"@) && message.role != MemberView::Text("human"@)
            ==> message_title(message) is None,
        message.content is NotText ==> message_title(message) is None,
        message.content is Missing && !(message.text is Text) ==> message_title(message) is None,
{
}

/// A message of more than 80 characters makes a title of its first 80 and an ellipsis.
pub proof fn long_messages_make_shortened_titles(message: MessageView, words: Seq<char>)
    requires
        words.len() > 80,
        message.role == MemberView::Text("user"@) || message.role == MemberView::Text("human"@),
        message.content == MemberView::Text(words) || message.content is Missing && message.text
            == MemberView::Text(words),
    ensures
        message_title(message) == Some(words.take(80).push('\u{2026}')),
{
    reveal_strlit("…");
    assert(shortened(words) =~= words.take(80).push('\u{2026}'));
}

/// The title that a row of messages makes is that of the first of them that makes one.
pub proof fn the_first_title_counts(messages: Seq<MessageView>, k: int)
    requires
        0 <= k < messages.len(),
        message_title(messages[k]) is Some,
        forall|j: int| 0 <= j < k ==> message_title(#[trigger] messages[j]) is None,
    ensures
        first_title(messages) == message_title(messages[k]),
    decreases messages.len(),
{
    if k > 0 {
        assert(message_title(messages[0]) is None);
        let rest = messages.drop_first();
        assert forall|j: int| 0 <= j < k - 1 implies message_title(#[trigger] rest[j]) is None by {
            assert(rest[j] == messages[j + 1]);
        }
        the_first_title_counts(rest, k - 1);
    }
}

/// Messages none of which makes a title make none together.
pub proof fn silent_messages_make_no_title(messages: Seq<MessageView>)
    requires
        forall|j: int| 0 <= j < messages.len() ==> message_title(#[trigger] messages[j]) is None,
    ensures
        first_title(messages) is None,
    decreases messages.len(),
{
    if messages.len() > 0 {
        assert(message_title(messages[0]) is None);
        let rest = messages.drop_first();
        assert forall|j: int| 0 <= j < rest.len() implies message_title(
            #[trigger] rest[j],
        ) is None by {
            assert(rest[j] == messages[j + 1]);
        }
        silent_messages_make_no_title(rest);
    }
}

/// A session goes by its name, and by its title where it has no name.
pub proof fn names_and_titles_come_first(file: FileView, untitled: Seq<char>, words: Seq<char>)
    ensures
        file.name == Some(words) ==> session_title(file, untitled) == words,
        file.name is None && file.title == Some(words) ==> session_title(file, untitled) == words,
{
}

/// A session without name and title goes by the first message of the user that makes a title: one
/// of its messages, or one of its history where it has no messages.
pub proof fn the_first_message_of_the_user_is_the_title(
    file: FileView,
    untitled: Seq<char>,
    k: int,
)
    requires
        file.name is None,
        file.title is None,
    ensures
        0 <= k < file.messages.len() && message_title(file.messages[k]) is Some && (forall|j: int|
            0 <= j < k ==> message_title(#[trigger] file.messages[j]) is None) ==> session_title(
            file,
            untitled,
        ) == message_title(file.messages[k])->0,
        file.messages.len() == 0 && 0 <= k < file.history.len() && message_title(
            file.history[k],
        ) is Some && (forall|j: int|
            0 <= j < k ==> message_title(#[trigger] file.history[j]) is None) ==> session_title(
            file,
            untitled,
        ) == message_title(file.history[k])->0,
{
    if 0 <= k < file.messages.len() && message_title(file.messages[k]) is Some && (forall|j: int|
        0 <= j < k ==> message_title(#[trigger] file.messages[j]) is None) {
        the_first_title_counts(file.messages, k);
    }
    if 0 <= k < file.history.len() && message_title(file.history[k]) is Some && (forall|j: int|
        0 <= j < k ==> message_title(#[trigger] file.history[j]) is None) {
        the_first_title_counts(file.history, k);
    }
}

/// A session without name and title, none of whose messages makes a title, goes untitled. Its
/// history does not count where it has messages.
pub proof fn silent_sessions_go_untitled(file: FileView, untitled: Seq<char>)
    requires
        file.name is None,
        file.title is None,
        forall|j: int|
            0 <= j < file.messages.len() ==> message_title(#[trigger] file.messages[j]) is None,
        file.messages.len() == 0 ==> forall|j: int|
            0 <= j < file.history.len() ==> message_title(#[trigger] file.history[j]) is None,
    ensures
        session_title(file, untitled) == untitled,
{
    silent_messages_make_no_title(file.messages);
    if file.messages.len() == 0 {
        silent_messages_make_no_title(file.history);
    }
}

/// A file describes a session exactly where it gives an identifier that is not empty, or gives none
/// and has a name whose stem is not empty. The session carries what the file says, and the moment
/// in the file, or else the moment in which the file was read.
pub proof fn files_describe_their_sessions(
    entry: EntryView,
    agent_name: Seq<char>,
    untitled: Seq<char>,
    id: Seq<char>,
)
    requires
        entry.file.session_id == Some(id) || entry.file.session_id is None && entry.stem == Some(id),
    ensures
        id.len() == 0 ==> entry_session(entry, agent_name, untitled) is None,
        id.len() > 0 ==> {
            &&& entry_session(entry, agent_name, untitled) matches Some(session)
            &&& session.session_id == id
            &&& session.id == agent_name + seq![':'] + id
            &&& session.agent_type == CLIAgent::Claude
            &&& session.title == session_title(entry.file, untitled)
            &&& session.working_directory == entry.file.project
            &&& match entry.file.updated_at {
                Some(text) => match rfc3339_moment(text) {
                    Some((seconds, nanos)) => session.last_updated.seconds == seconds
                        && session.last_updated.nanos == nanos,
                    None => session.last_updated == entry.read_at,
                },
                None => session.last_updated == entry.read_at,
            }
        },
{
    reveal_strlit(":");
    assert(":"@ =~= seq![':']);
}

/// A file without identifier and without a name that can be read describes no session.
pub proof fn nameless_files_describe_no_session(
    entry: EntryView,
    agent_name: Seq<char>,
    untitled: Seq<char>,
)
    requires
        entry.file.session_id is None,
        entry.stem is None,
    ensures
        entry_session(entry, agent_name, untitled) is None,
{
}

/// A session that was touched at a moment that is known carries it, and is otherwise the session
/// that the file describes.
pub proof fn touched_sessions_differ_in_their_moment(
    entry: EntryView,
    agent_name: Seq<char>,
    untitled: Seq<char>,
    moment: Option<Timestamp>,
)
    ensures
        match (
            session_touched(entry, agent_name, untitled, moment),
            entry_session(entry, agent_name, untitled),
        ) {
            (Some(touched), Some(session)) => {
                &&& touched.last_updated == match moment {
                    Some(moment) => moment,
                    None => entry.read_at,
                }
                &&& touched.id == session.id
                &&& touched.agent_type == session.agent_type
                &&& touched.title == session.title
                &&& touched.session_id == session.session_id
                &&& touched.working_directory == session.working_directory
            },
            (None, None) => true,
            _ => false,
        },
{
}

/// A scan lists the session of every file that describes one, each of them once: one that was
/// touched later stands ahead of one that was touched earlier, counted in seconds and then in
/// nanoseconds, and of two that were touched in the same moment the one whose file came first.
pub proof fn scans_order_the_files(
    entries: Seq<EntryView>,
    agent_name: Seq<char>,
    untitled: Seq<char>,
    sessions: Seq<SessionView>,
) -> (order: Seq<int>)
    requires
        scanned(entries, agent_name, untitled, sessions),
    ensures
        order.len() == sessions.len(),
        forall|p: int|
            0 <= p < order.len() ==> 0 <= #[trigger] order[p] < entries.len() && entry_session(
                entries[order[p]],
                agent_name,
                untitled,
            ) == Some(sessions[p]),
        forall|p: int, q: int|
            0 <= p < q < order.len() ==> {
                let left = #[trigger] sessions[p].last_updated;
                let right = #[trigger] sessions[q].last_updated;
                ||| left.seconds > right.seconds
                ||| left.seconds == right.seconds && left.nanos > right.nanos
                ||| left.seconds == right.seconds && left.nanos == right.nanos && order[p]
                    < order[q]
            },
        forall|k: int|
            0 <= k < entries.len() && entry_session(entries[k], agent_name, untitled) is Some
                ==> #[trigger] order.contains(k),
{
    let pick = |entry: EntryView| entry_session(entry, agent_name, untitled);
    let found = found_sessions(entries, agent_name, untitled);
    let key = rank_of::<DiscoveredCLIAgentSession>();
    let at = kept_positions(entries, pick);
    let ranks = rankings_order_the_items(found, sessions, key);
    let order = Seq::new(ranks.len(), |p: int| at[ranks[p]]);
    assert forall|p: int| 0 <= p < order.len() implies 0 <= #[trigger] order[p] < entries.len()
        && entry_session(entries[order[p]], agent_name, untitled) == Some(sessions[p]) by {
        assert(0 <= ranks[p] < found.len());
        assert(0 <= at[ranks[p]] < entries.len());
        assert(pick(entries[at[ranks[p]]]) == Some(found[ranks[p]]));
    }
    assert forall|p: int, q: int| 0 <= p < q < order.len() implies {
        let left = #[trigger] sessions[p].last_updated;
        let right = #[trigger] sessions[q].last_updated;
        ||| left.seconds > right.seconds
        ||| left.seconds == right.seconds && left.nanos > right.nanos
        ||| left.seconds == right.seconds && left.nanos == right.nanos && order[p] < order[q]
    } by {
        assert(sessions[p] == found[ranks[p]]);
        assert(sessions[q] == found[ranks[q]]);
        assert(key(sessions[p]) == sessions[p].last_updated.order());
        assert(key(sessions[q]) == sessions[q].last_updated.order());
        if ranks[p] < ranks[q] {
            assert(at[ranks[p]] < at[ranks[q]]);
        }
    }
    assert forall|k: int|
        0 <= k < entries.len() && entry_session(
            entries[k],
            agent_name,
            untitled,
        ) is Some implies #[trigger] order.contains(k) by {
        assert(pick(entries[k]) is Some);
        assert(at.contains(k));
        let i = choose|i: int| 0 <= i < at.len() && at[i] == k;
        assert(ranks.contains(i));
        let p = choose|p: int| 0 <= p < ranks.len() && ranks[p] == i;
        assert(order[p] == k);
    }
    order
}

/// A title that is made of a message begins as the message does and has at most 81 characters.
pub proof fn message_titles_are_short(message: MessageView)
    requires
        message_title(message) is Some,
    ensures
        message_title(message)->0.len() <= MAX_TITLE_CHARS + 1,
        said(message)->0.len() <= MAX_TITLE_CHARS ==> message_title(message) == said(message),
        forall|i: int|
            0 <= i < MAX_TITLE_CHARS && i < said(message)->0.len() ==> #[trigger] message_title(
                message,
            )->0[i] == said(message)->0[i],
{
    reveal_strlit("…");
}

} // verus!
