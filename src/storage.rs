//! The project-local conversation history: the messages and sessions it
//! holds, the documents it writes, and the idempotent set-up of its folder.

use vstd::prelude::*;
use vstd::string::StrSliceExecFns;
use vstd::string::StringExecFns;
use crate::errors::concat;
use crate::json::{object_of_len, pair, text_entry, JsonValue};
use crate::text::{contains_text, lemma_occurs_in_middle, occurs_in, trim_end, trimmed_end};

verus! {

/// Relies on uuid::Uuid::new_v4 and its `Display`: a random version-4 UUID
/// written in the hyphenated form, 36 characters.
#[verifier::external_body]
pub(crate) fn fresh_uuid() -> (r: String)
    ensures
        r@.len() == 36,
{
    uuid::Uuid::new_v4().to_string()
}

/// Relies on chrono::Utc::now and DateTime::to_rfc3339: the current time as
/// RFC 3339 text.
#[verifier::external_body]
pub(crate) fn now_rfc3339() -> (r: String) {
    chrono::Utc::now().to_rfc3339()
}

/// One utterance of a conversation.
pub struct ConversationMessage {
    pub role: String,
    pub content: String,
    pub timestamp: String,
}

/// Whether `j` is the document form of message `m`.
pub open spec fn message_json(j: JsonValue, m: ConversationMessage) -> bool {
    &&& object_of_len(j, 3)
    &&& text_entry(j, 0, "role"@, m.role@)
    &&& text_entry(j, 1, "content"@, m.content@)
    &&& text_entry(j, 2, "timestamp"@, m.timestamp@)
}

impl ConversationMessage {
    pub fn new(role: &str, content: &str, timestamp: &str) -> (r: ConversationMessage)
        ensures
            r.role@ == role@,
            r.content@ == content@,
            r.timestamp@ == timestamp@,
    {
        ConversationMessage {
            role: String::from_str(role),
            content: String::from_str(content),
            timestamp: String::from_str(timestamp),
        }
    }

    pub fn duplicate(&self) -> (r: ConversationMessage)
        ensures
            r == *self,
    {
        ConversationMessage {
            role: self.role.clone(),
            content: self.content.clone(),
            timestamp: self.timestamp.clone(),
        }
    }

    /// `{"role":..,"content":..,"timestamp":..}`.
    pub fn to_json(&self) -> (r: JsonValue)
        ensures
            message_json(r, *self),
    {
        JsonValue::Object(
            vec![
                pair("role", JsonValue::Str(self.role.clone())),
                pair("content", JsonValue::Str(self.content.clone())),
                pair("timestamp", JsonValue::Str(self.timestamp.clone())),
            ],
        )
    }
}

/// An ordered group of messages for one project.
pub struct ConversationSession {
    pub session_id: String,
    pub project_directory: String,
    pub messages: Vec<ConversationMessage>,
    pub created_at: String,
    pub last_updated: String,
}

/// Whether `j` is the document form of session `s`.
pub open spec fn session_json(j: JsonValue, s: ConversationSession) -> bool {
    &&& object_of_len(j, 5)
    &&& text_entry(j, 0, "session_id"@, s.session_id@)
    &&& text_entry(j, 1, "project_directory"@, s.project_directory@)
    &&& j->Object_0@[2].0@ == "messages"@
    &&& j->Object_0@[2].1 matches JsonValue::Array(items) && items@.len() == s.messages@.len()
        && forall|i: int| 0 <= i < items@.len() ==> message_json(#[trigger] items@[i], s.messages@[i])
    &&& text_entry(j, 3, "created_at"@, s.created_at@)
    &&& text_entry(j, 4, "last_updated"@, s.last_updated@)
}

impl ConversationSession {
    /// The JSON document under which the session is stored.
    pub fn to_json(&self) -> (r: JsonValue)
        ensures
            session_json(r, *self),
    {
        let mut items: Vec<JsonValue> = Vec::new();
        let mut i: usize = 0;
        while i < self.messages.len()
            invariant
                i <= self.messages@.len(),
                items@.len() == i,
                forall|k: int| 0 <= k < i ==> message_json(#[trigger] items@[k], self.messages@[k]),
            decreases self.messages@.len() - i,
        {
            items.push(self.messages[i].to_json());
            i += 1;
        }
        JsonValue::Object(
            vec![
                pair("session_id", JsonValue::Str(self.session_id.clone())),
                pair("project_directory", JsonValue::Str(self.project_directory.clone())),
                pair("messages", JsonValue::Array(items)),
                pair("created_at", JsonValue::Str(self.created_at.clone())),
                pair("last_updated", JsonValue::Str(self.last_updated.clone())),
            ],
        )
    }
}

/// The prefix of every session id.
pub open spec fn session_prefix() -> Seq<char> {
    "cursor-chat-"@
}

/// A session id: the prefix and the first eight characters of `uuid_text`.
pub open spec fn session_id_from(uuid_text: Seq<char>) -> Seq<char> {
    session_prefix() + uuid_text.subrange(0, 8)
}

/// The session id made from the text of a UUID.
pub fn session_id_for(uuid_text: &str) -> (r: String)
    requires
        uuid_text@.len() >= 8,
    ensures
        r@ == session_id_from(uuid_text@),
{
    concat("cursor-chat-", uuid_text.substring_char(0, 8))
}

/// A fresh session id, from a random UUID.
pub fn new_session_id() -> (r: String)
    ensures
        exists|u: Seq<char>| u.len() == 36 && r@ == session_id_from(u),
{
    let u = fresh_uuid();
    session_id_for(u.as_str())
}

/// The messages of a feedback turn: the previous request as a `user` message
/// when it is not empty, then the prompt as an `assistant` message.
pub open spec fn turn_messages_match(
    ms: Seq<ConversationMessage>,
    previous_user_request: Seq<char>,
    prompt: Seq<char>,
    now: Seq<char>,
) -> bool {
    let k: int = if previous_user_request.len() == 0 { 0 } else { 1 };
    &&& ms.len() == k + 1
    &&& k == 1 ==> ms[0].role@ == "user"@ && ms[0].content@ == previous_user_request
        && ms[0].timestamp@ == now
    &&& ms[k].role@ == "assistant"@ && ms[k].content@ == prompt && ms[k].timestamp@ == now
}

/// Whether `s` is the session recorded for one feedback turn.
pub open spec fn turn_session(
    s: ConversationSession,
    session_id: Seq<char>,
    project_directory: Seq<char>,
    previous_user_request: Seq<char>,
    prompt: Seq<char>,
    now: Seq<char>,
) -> bool {
    &&& s.session_id@ == session_id
    &&& s.project_directory@ == project_directory
    &&& turn_messages_match(s.messages@, previous_user_request, prompt, now)
    &&& s.created_at@ == now
    &&& s.last_updated@ == now
}

/// The session recorded for one feedback turn, with the given id and time.
pub fn turn_session_with(
    session_id: &str,
    project_directory: &str,
    previous_user_request: &str,
    prompt: &str,
    now: &str,
) -> (r: ConversationSession)
    ensures
        turn_session(r, session_id@, project_directory@, previous_user_request@, prompt@, now@),
{
    let mut messages: Vec<ConversationMessage> = Vec::new();
    if previous_user_request.unicode_len() > 0 {
        messages.push(ConversationMessage::new("user", previous_user_request, now));
    }
    messages.push(ConversationMessage::new("assistant", prompt, now));
    ConversationSession {
        session_id: String::from_str(session_id),
        project_directory: String::from_str(project_directory),
        messages,
        created_at: String::from_str(now),
        last_updated: String::from_str(now),
    }
}

/// The name of the project-local history folder.
pub open spec fn history_dir_name() -> Seq<char> {
    ".ifm-ruta"@
}

/// The line that keeps the history folder out of version control.
pub open spec fn ignore_entry() -> Seq<char> {
    ".ifm-ruta/"@
}

/// The new `.gitignore` text, or `None` where the file stays as it is: a
/// missing file gets the entry alone; a file that lacks the entry gets it
/// appended on a line of its own after its trailing white space is dropped.
pub open spec fn gitignore_update_spec(existing: Option<Seq<char>>) -> Option<Seq<char>> {
    match existing {
        None => Some(ignore_entry() + "\n"@),
        Some(c) => if occurs_in(c, ignore_entry()) {
            None
        } else {
            Some(trimmed_end(c) + "\n"@ + ignore_entry() + "\n"@)
        },
    }
}

pub open spec fn text_option(o: Option<&str>) -> Option<Seq<char>> {
    match o {
        Some(t) => Some(t@),
        None => None,
    }
}

/// What to write to `.gitignore` so that it names the history folder.
pub fn gitignore_update(existing: Option<&str>) -> (r: Option<String>)
    ensures
        r matches Some(t) ==> gitignore_update_spec(text_option(existing)) == Some(t@),
        r is None ==> gitignore_update_spec(text_option(existing)) is None,
{
    proof {
        assert(".ifm-ruta/\n"@ =~= ignore_entry() + "\n"@) by {
            reveal_strlit(".ifm-ruta/\n");
            reveal_strlit(".ifm-ruta/");
            reveal_strlit("\n");
        }
    }
    match existing {
        None => Some(String::from_str(".ifm-ruta/\n")),
        Some(c) => if contains_text(c, ".ifm-ruta/") {
            None
        } else {
            let mut t = trim_end(c);
            t.append("\n");
            t.append(".ifm-ruta/\n");
            Some(t)
        },
    }
}

/// What exists of the history storage of a project before set-up.
pub struct StorageState {
    pub has_history_dir: bool,
    pub has_readme: bool,
    /// The text of `.gitignore`, where the file exists.
    pub gitignore: Option<String>,
}

/// What set-up is to write.
pub struct StoragePlan {
    pub create_history_dir: bool,
    pub write_readme: bool,
    /// The new text of `.gitignore`; `None` leaves it as it is.
    pub gitignore: Option<String>,
}

/// A plan that writes nothing.
pub open spec fn plan_is_empty(p: (bool, bool, Option<Seq<char>>)) -> bool {
    !p.0 && !p.1 && p.2 is None
}

/// The plan for a project whose history folder, README and `.gitignore`
/// stand as given: create what is missing and add the ignore entry.
pub open spec fn setup_plan(has_dir: bool, has_readme: bool, gitignore: Option<Seq<char>>) -> (
    bool,
    bool,
    Option<Seq<char>>,
) {
    (!has_dir, !has_readme, gitignore_update_spec(gitignore))
}

/// The state of the storage once `setup_plan` was carried out.
pub open spec fn after_setup(has_dir: bool, has_readme: bool, gitignore: Option<Seq<char>>) -> (
    bool,
    bool,
    Option<Seq<char>>,
) {
    let p = setup_plan(has_dir, has_readme, gitignore);
    (true, true, if p.2 is Some { p.2 } else { gitignore })
}

/// The README written into the history folder.
pub fn readme_text() -> &'static str {
    "# IFM-Ruta Conversation History

This directory contains conversation history between users and the IFM-Ruta MCP (Model Context Protocol) assistant.

## Directory Structure

- `conversations/` - Contains JSON files with conversation sessions
- `README.md` - This file explaining the directory purpose

## Files

- Each conversation session is stored as a separate JSON file
- Files are named with the session ID (e.g., `cursor-chat-abc123.json`)
- Each file contains the complete conversation history for that session

## Privacy

This directory contains conversation data that may include sensitive information.
It is automatically added to `.gitignore` to prevent accidental commits.

## Generated by IFM-Ruta MCP

This directory and its contents are automatically managed by the IFM-Ruta MCP tool.
Do not manually modify the files in this directory.
"
}

impl StorageState {
    pub open spec fn gitignore_view(&self) -> Option<Seq<char>> {
        match self.gitignore {
            Some(t) => Some(t@),
            None => None,
        }
    }
}

/// What set-up of the history storage is to do for `state`.
pub fn plan_storage_setup(state: &StorageState) -> (r: StoragePlan)
    ensures
        r.create_history_dir == setup_plan(state.has_history_dir, state.has_readme, state.gitignore_view()).0,
        r.write_readme == setup_plan(state.has_history_dir, state.has_readme, state.gitignore_view()).1,
        match r.gitignore {
            Some(t) => setup_plan(state.has_history_dir, state.has_readme, state.gitignore_view()).2 == Some(t@),
            None => setup_plan(state.has_history_dir, state.has_readme, state.gitignore_view()).2 is None,
        },
{
    let existing: Option<&str> = match &state.gitignore {
        Some(t) => Some(t.as_str()),
        None => None,
    };
    StoragePlan {
        create_history_dir: !state.has_history_dir,
        write_readme: !state.has_readme,
        gitignore: gitignore_update(existing),
    }
}

/// Setting up the history storage a second time writes nothing: the folder
/// and README are not made again and `.gitignore` gets no second entry.
pub proof fn lemma_storage_setup_idempotent(
    has_dir: bool,
    has_readme: bool,
    gitignore: Option<Seq<char>>,
)
    ensures
        ({
            let s = after_setup(has_dir, has_readme, gitignore);
            plan_is_empty(setup_plan(s.0, s.1, s.2))
        }),
{
    match gitignore {
        None => {
            lemma_occurs_in_middle(Seq::empty(), ignore_entry(), "\n"@);
            assert(Seq::<char>::empty() + ignore_entry() + "\n"@ =~= ignore_entry() + "\n"@);
        },
        Some(c) => {
            if !occurs_in(c, ignore_entry()) {
                lemma_occurs_in_middle(trimmed_end(c) + "\n"@, ignore_entry(), "\n"@);
            }
        },
    }
}

/// Records the messages of one session of a project, in order; messages are
/// only ever appended.
pub struct ConversationLogger {
    pub project_directory: String,
    pub current_session_id: String,
    pub messages: Vec<ConversationMessage>,
}

/// How many messages `get_conversation_history` returns at most.
pub const HISTORY_WINDOW: usize = 5;

impl ConversationLogger {
    /// A logger for `project_directory` with a fresh session id and no
    /// message.
    pub fn new(project_directory: &str) -> (r: ConversationLogger)
        ensures
            r.project_directory@ == project_directory@,
            r.current_session_id@.len() == 36,
            r.messages@.len() == 0,
    {
        ConversationLogger {
            project_directory: String::from_str(project_directory),
            current_session_id: fresh_uuid(),
            messages: Vec::new(),
        }
    }

    /// What set-up of the project's history storage is to do.
    pub fn initialize(&self, state: &StorageState) -> (r: StoragePlan)
        ensures
            r.create_history_dir == !state.has_history_dir,
            r.write_readme == !state.has_readme,
            match r.gitignore {
                Some(t) => gitignore_update_spec(state.gitignore_view()) == Some(t@),
                None => gitignore_update_spec(state.gitignore_view()) is None,
            },
    {
        plan_storage_setup(state)
    }

    fn log(&mut self, role: &str, content: &str)
        ensures
            final(self).project_directory == old(self).project_directory,
            final(self).current_session_id == old(self).current_session_id,
            final(self).messages@.len() == old(self).messages@.len() + 1,
            final(self).messages@.drop_last() == old(self).messages@,
            final(self).messages@.last().role@ == role@,
            final(self).messages@.last().content@ == content@,
    {
        let now = now_rfc3339();
        self.messages.push(ConversationMessage::new(role, content, now.as_str()));
        proof {
            assert(self.messages@.drop_last() =~= old(self).messages@);
        }
    }

    /// Appends a `user` message, stamped now.
    pub fn log_user_message(&mut self, content: &str)
        ensures
            final(self).project_directory == old(self).project_directory,
            final(self).current_session_id == old(self).current_session_id,
            final(self).messages@.len() == old(self).messages@.len() + 1,
            final(self).messages@.drop_last() == old(self).messages@,
            final(self).messages@.last().role@ == "user"@,
            final(self).messages@.last().content@ == content@,
    {
        self.log("user", content);
    }

    /// Appends an `assistant` message, stamped now.
    pub fn log_assistant_message(&mut self, content: &str)
        ensures
            final(self).project_directory == old(self).project_directory,
            final(self).current_session_id == old(self).current_session_id,
            final(self).messages@.len() == old(self).messages@.len() + 1,
            final(self).messages@.drop_last() == old(self).messages@,
            final(self).messages@.last().role@ == "assistant"@,
            final(self).messages@.last().content@ == content@,
    {
        self.log("assistant", content);
    }

    pub fn get_session_id(&self) -> (r: &str)
        ensures
            r@ == self.current_session_id@,
    {
        self.current_session_id.as_str()
    }

    /// Starts a new session: a fresh id and no message.
    pub fn new_session(&mut self)
        ensures
            final(self).project_directory == old(self).project_directory,
            final(self).current_session_id@.len() == 36,
            final(self).messages@.len() == 0,
    {
        self.current_session_id = fresh_uuid();
        self.messages = Vec::new();
    }

    /// The latest messages, at most five, oldest first.
    pub fn get_conversation_history(&self) -> (r: Vec<ConversationMessage>)
        ensures
            r@ == self.messages@.subrange(
                if self.messages@.len() > HISTORY_WINDOW {
                    self.messages@.len() - HISTORY_WINDOW
                } else {
                    0
                },
                self.messages@.len() as int,
            ),
    {
        let n = self.messages.len();
        let start = if n > HISTORY_WINDOW {
            n - HISTORY_WINDOW
        } else {
            0
        };
        let mut r: Vec<ConversationMessage> = Vec::new();
        let mut i = start;
        while i < n
            invariant
                start <= i <= n,
                n == self.messages@.len(),
                r@ == self.messages@.subrange(start as int, i as int),
            decreases n - i,
        {
            r.push(self.messages[i].duplicate());
            proof {
                assert(r@ =~= self.messages@.subrange(start as int, i + 1));
            }
            i += 1;
        }
        r
    }

    /// The session recorded so far.
    pub fn session(&self) -> (r: ConversationSession)
        ensures
            r.session_id == self.current_session_id,
            r.project_directory == self.project_directory,
            r.messages@ == self.messages@,
    {
        let mut messages: Vec<ConversationMessage> = Vec::new();
        let mut i: usize = 0;
        while i < self.messages.len()
            invariant
                i <= self.messages@.len(),
                messages@ == self.messages@.subrange(0, i as int),
            decreases self.messages@.len() - i,
        {
            messages.push(self.messages[i].duplicate());
            proof {
                assert(messages@ =~= self.messages@.subrange(0, i + 1));
            }
            i += 1;
        }
        proof {
            assert(messages@ =~= self.messages@);
        }
        let now = now_rfc3339();
        let first = if self.messages.len() > 0 {
            self.messages[0].timestamp.clone()
        } else {
            now.clone()
        };
        ConversationSession {
            session_id: self.current_session_id.clone(),
            project_directory: self.project_directory.clone(),
            messages,
            created_at: first,
            last_updated: now,
        }
    }
}

/// The role and text of each message, in order.
pub open spec fn turns(s: Seq<ConversationMessage>) -> Seq<(Seq<char>, Seq<char>)> {
    s.map_values(|m: ConversationMessage| (m.role@, m.content@))
}

/// The last `n` elements of `s`, or all of them where there are fewer.
pub open spec fn last_n<A>(s: Seq<A>, n: int) -> Seq<A> {
    if s.len() > n {
        s.subrange(s.len() - n, s.len() as int)
    } else {
        s
    }
}

/// The messages of `sessions`, session after session.
pub open spec fn all_messages(sessions: Seq<ConversationSession>) -> Seq<ConversationMessage>
    decreases sessions.len(),
{
    if sessions.len() == 0 {
        Seq::empty()
    } else {
        all_messages(sessions.drop_last()) + sessions.last().messages@
    }
}

proof fn lemma_last_n_push<A>(s: Seq<A>, x: A, n: int)
    requires
        n >= 0,
    ensures
        last_n(last_n(s, n).push(x), n) == last_n(s.push(x), n),
{
    if s.len() > n {
        assert(last_n(last_n(s, n).push(x), n) =~= last_n(s.push(x), n));
    }
}

/// The recent conversation shown beside the feedback form: at most
/// `max_size` entries, the oldest dropped first.
pub struct ConversationManager {
    pub conversations: Vec<ConversationMessage>,
    pub max_size: usize,
}

impl ConversationManager {
    /// The bound holds.
    pub open spec fn wf(&self) -> bool {
        self.conversations@.len() <= self.max_size
    }

    /// A list of the last `max_size` messages of `sessions`, taken in order,
    /// each stamped when it is added.
    pub fn new_with_sessions(max_size: usize, sessions: &Vec<ConversationSession>) -> (r: ConversationManager)
        ensures
            r.wf(),
            r.max_size == max_size,
            turns(r.conversations@) == last_n(turns(all_messages(sessions@)), max_size as int),
    {
        let mut manager = ConversationManager { conversations: Vec::new(), max_size };
        let mut i: usize = 0;
        proof {
            assert(turns(manager.conversations@) =~= last_n(
                turns(all_messages(sessions@.subrange(0, 0))),
                max_size as int,
            ));
        }
        while i < sessions.len()
            invariant
                i <= sessions@.len(),
                manager.wf(),
                manager.max_size == max_size,
                turns(manager.conversations@) == last_n(
                    turns(all_messages(sessions@.subrange(0, i as int))),
                    max_size as int,
                ),
            decreases sessions@.len() - i,
        {
            let session = &sessions[i];
            let ghost before = all_messages(sessions@.subrange(0, i as int));
            let mut k: usize = 0;
            proof {
                assert(before + session.messages@.subrange(0, 0) =~= before);
            }
            while k < session.messages.len()
                invariant
                    k <= session.messages@.len(),
                    manager.wf(),
                    manager.max_size == max_size,
                    turns(manager.conversations@) == last_n(
                        turns(before + session.messages@.subrange(0, k as int)),
                        max_size as int,
                    ),
                decreases session.messages@.len() - k,
            {
                let m = &session.messages[k];
                let ghost prefix = before + session.messages@.subrange(0, k as int);
                manager.add_conversation(m.role.as_str(), m.content.as_str());
                proof {
                    lemma_last_n_push(turns(prefix), (m.role@, m.content@), max_size as int);
                    let next = before + session.messages@.subrange(0, k + 1);
                    assert(next =~= prefix.push(*m));
                    assert(turns(next) =~= turns(prefix).push((m.role@, m.content@)));
                }
                k += 1;
            }
            proof {
                let upto = sessions@.subrange(0, i + 1);
                assert(upto.drop_last() =~= sessions@.subrange(0, i as int));
                assert(session.messages@.subrange(0, k as int) =~= session.messages@);
            }
            i += 1;
        }
        proof {
            assert(sessions@.subrange(0, i as int) =~= sessions@);
        }
        manager
    }

    /// Appends an entry stamped now, then drops the oldest entries beyond
    /// `max_size`.
    pub fn add_conversation(&mut self, role: &str, content: &str)
        requires
            old(self).wf(),
        ensures
            final(self).wf(),
            final(self).max_size == old(self).max_size,
            turns(final(self).conversations@) == last_n(
                turns(old(self).conversations@).push((role@, content@)),
                old(self).max_size as int,
            ),
    {
        let now = now_rfc3339();
        let entry = ConversationMessage::new(role, content, now.as_str());
        let ghost e = entry;
        self.conversations.push(entry);
        let ghost all = self.conversations@;
        while self.conversations.len() > self.max_size
            invariant
                self.max_size == old(self).max_size,
                all == old(self).conversations@.push(e),
                self.conversations@.len() >= self.max_size || self.conversations@.len() == all.len(),
                self.conversations@.len() <= all.len(),
                self.conversations@ == all.subrange(all.len() - self.conversations@.len(), all.len() as int),
            decreases self.conversations@.len(),
        {
            self.conversations.remove(0);
            proof {
                assert(self.conversations@ =~= all.subrange(all.len() - self.conversations@.len(), all.len() as int));
            }
        }
        proof {
            assert(turns(all) =~= turns(old(self).conversations@).push((role@, content@)));
            assert(turns(self.conversations@) =~= last_n(turns(all), self.max_size as int));
        }
    }

    /// The entries, oldest first.
    pub fn get_conversations(&self) -> (r: Vec<ConversationMessage>)
        ensures
            r@ == self.conversations@,
    {
        let mut r: Vec<ConversationMessage> = Vec::new();
        let mut i: usize = 0;
        while i < self.conversations.len()
            invariant
                i <= self.conversations@.len(),
                r@ == self.conversations@.subrange(0, i as int),
            decreases self.conversations@.len() - i,
        {
            r.push(self.conversations[i].duplicate());
            proof {
                assert(r@ =~= self.conversations@.subrange(0, i + 1));
            }
            i += 1;
        }
        proof {
            assert(r@ =~= self.conversations@);
        }
        r
    }

    pub fn clear(&mut self)
        ensures
            final(self).max_size == old(self).max_size,
            final(self).conversations@.len() == 0,
    {
        self.conversations = Vec::new();
    }
}

} // verus!
