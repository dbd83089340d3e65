//! Under which name the Codex program knows a session: a file maps names of sessions to names of
//! Codex threads.
use crate::agent_settings::{lemma_push_contains, text_values};
use crate::json::JsonError;
use crate::text::{optional_str, same_text};
use crate::text_map::TextMap;
use std::collections::HashMap;
use vstd::prelude::*;
use vstd::utf8::{decode_utf8, valid_utf8};

verus! {

/// The names of the Codex threads of sessions.
pub struct CodexSessionAliases {
    pub threads: TextMap<String>,
}

impl View for CodexSessionAliases {
    type V = Map<Seq<char>, Seq<char>>;

    open spec fn view(&self) -> Map<Seq<char>, Seq<char>> {
        text_values(self.threads@)
    }
}

/// The map from texts to texts that `serde_json::from_str` reads from a text, or nothing where
/// it fails.
pub uninterp spec fn parsed_texts(text: Seq<char>) -> Option<Map<Seq<char>, Seq<char>>>;

/// The map that a list of entries gives. Of two entries for one key the later one counts.
pub open spec fn entries_map(entries: Seq<(String, String)>) -> Map<Seq<char>, Seq<char>>
    decreases entries.len(),
{
    if entries.len() == 0 {
        Map::empty()
    } else {
        entries_map(entries.drop_last()).insert(entries.last().0@, entries.last().1@)
    }
}

/// `serde_json::from_str` to a `HashMap` of texts: whether it succeeds, and which map it then
/// gives, depends on the text alone. In which order the entries come is left open.
#[verifier::external_body]
fn parse_texts(text: &str) -> (parsed: Result<Vec<(String, String)>, serde_json::Error>)
    ensures
        match parsed {
            Ok(entries) => parsed_texts(text@) == Some(entries_map(entries@)),
            Err(_) => parsed_texts(text@) is None,
        },
{
    let map = serde_json::from_str::<HashMap<String, String>>(text)?;
    Ok(map.into_iter().collect())
}

/// `serde_json::to_vec` of a `HashMap` of texts: it succeeds, as the keys are texts and writing to
/// memory does not fail, and it writes UTF-8 text from which `serde_json::from_str` reads the same
/// map. In which order the entries are written is left open.
#[verifier::external_body]
fn write_texts(entries: Vec<(String, String)>) -> (written: Result<Vec<u8>, serde_json::Error>)
    ensures
        match written {
            Ok(bytes) => valid_utf8(bytes@) && parsed_texts(decode_utf8(bytes@)) == Some(
                entries_map(entries@),
            ),
            Err(_) => false,
        },
{
    serde_json::to_vec(&entries.into_iter().collect::<HashMap<String, String>>())
}

/// The name under which the Codex program knows a session: the one that was recorded, or the
/// session's own.
pub open spec fn resolved(aliases: Map<Seq<char>, Seq<char>>, session_id: Seq<char>) -> Seq<char> {
    if aliases.contains_key(session_id) {
        aliases[session_id]
    } else {
        session_id
    }
}

/// The names in a file. A file that is missing or cannot be read holds none.
pub open spec fn file_aliases(content: Option<Seq<char>>) -> Map<Seq<char>, Seq<char>> {
    match content {
        Some(text) => match parsed_texts(text) {
            Some(aliases) => aliases,
            None => Map::empty(),
        },
        None => Map::empty(),
    }
}

impl CodexSessionAliases {
    /// No names.
    pub fn new() -> (aliases: Self)
        ensures
            aliases@ == Map::<Seq<char>, Seq<char>>::empty(),
    {
        let aliases = CodexSessionAliases { threads: TextMap::new() };
        assert(aliases@ =~= Map::empty());
        aliases
    }

    /// The name under which the Codex program knows a session.
    pub fn resolve_codex_session_id(&self, session_id: &str) -> (codex_session_id: String)
        ensures
            codex_session_id@ == resolved(self@, session_id@),
    {
        match self.threads.get(session_id) {
            Some(thread_id) => thread_id.clone(),
            None => session_id.to_owned(),
        }
    }

    /// Records the Codex thread of a session, and says whether that is new.
    pub fn record(&mut self, session_id: &str, codex_thread_id: &str) -> (changed: bool)
        ensures
            final(self)@ == old(self)@.insert(session_id@, codex_thread_id@),
            !changed <==> old(self)@.contains_key(session_id@) && old(self)@[session_id@]
                == codex_thread_id@,
    {
        let ghost before = self.threads@;
        match self.threads.get(session_id) {
            Some(thread_id) => {
                if same_text(thread_id.as_str(), codex_thread_id) {
                    assert(self@.insert(session_id@, codex_thread_id@) =~= self@);
                    return false;
                }
            },
            None => {},
        }
        let thread_id = codex_thread_id.to_owned();
        self.threads.insert(session_id.to_owned(), thread_id);
        assert(text_values(before.insert(session_id@, thread_id)) =~= text_values(before).insert(
            session_id@,
            codex_thread_id@,
        ));
        true
    }

    fn listed(&self) -> (entries: Vec<(String, String)>)
        ensures
            entries_map(entries@) == self@,
    {
        let len: usize = self.threads.len();
        let ghost order = self.threads.order();
        let mut entries: Vec<(String, String)> = Vec::new();
        let mut i: usize = 0;
        while i < len
            invariant
                i <= len,
                len == order.len(),
                order == self.threads.order(),
                forall|key: Seq<char>| #[trigger]
                    entries_map(entries@).contains_key(key) <==> order.take(i as int).contains(key),
                forall|key: Seq<char>| #[trigger]
                    entries_map(entries@).contains_key(key) ==> self@.contains_key(key)
                        && entries_map(entries@)[key] == self@[key],
            decreases len - i,
        {
            let ghost before = entries@;
            entries.push((self.threads.key_at(i).clone(), self.threads.value_at(i).clone()));
            proof {
                assert(entries@.drop_last() =~= before);
                let taken = order.take(i as int);
                assert(order.take(i + 1) =~= taken.push(order[i as int]));
                assert forall|key: Seq<char>| #[trigger]
                    entries_map(entries@).contains_key(key) <==> order.take(i + 1).contains(
                        key,
                    ) by {
                    lemma_push_contains(taken, order[i as int], key);
                    assert(entries_map(before).contains_key(key) <==> taken.contains(key));
                }
                assert forall|key: Seq<char>| #[trigger]
                    entries_map(entries@).contains_key(key) implies self@.contains_key(key)
                    && entries_map(entries@)[key] == self@[key] by {
                    if key != order[i as int] {
                        assert(entries_map(before).contains_key(key));
                    }
                }
            }
            i = i + 1;
        }
        proof {
            assert(order.take(i as int) =~= order);
            assert forall|key: Seq<char>| #[trigger]
                self@.contains_key(key) implies entries_map(entries@).contains_key(key) by {
                assert(order.contains(key));
            }
            assert(entries_map(entries@) =~= self@);
        }
        entries
    }

    /// What is written to the file.
    pub fn to_bytes(&self) -> (written: Result<Vec<u8>, JsonError>)
        ensures
            match written {
                Ok(bytes) => valid_utf8(bytes@) && parsed_texts(decode_utf8(bytes@)) == Some(
                    self@,
                ),
                Err(_) => false,
            },
    {
        match write_texts(self.listed()) {
            Ok(bytes) => Ok(bytes),
            Err(source) => Err(JsonError { source }),
        }
    }

    /// The names that a list of entries gives. Of two entries for one session the later one
    /// counts.
    pub fn from_entries(entries: &Vec<(String, String)>) -> (aliases: Self)
        ensures
            aliases@ == entries_map(entries@),
    {
        let mut aliases = CodexSessionAliases::new();
        let mut i: usize = 0;
        while i < entries.len()
            invariant
                i <= entries@.len(),
                aliases@ == entries_map(entries@.take(i as int)),
            decreases entries@.len() - i,
        {
            assert(entries@.take(i + 1).drop_last() =~= entries@.take(i as int));
            aliases.record(entries[i].0.as_str(), entries[i].1.as_str());
            i = i + 1;
        }
        assert(entries@.take(i as int) =~= entries@);
        aliases
    }
}

/// The names in a file, of which the content is given where it could be read.
pub fn load_codex_session_aliases(content: Option<&str>) -> (aliases: CodexSessionAliases)
    ensures
        aliases@ == file_aliases(optional_str(content)),
{
    match content {
        Some(text) => match parse_texts(text) {
            Ok(entries) => CodexSessionAliases::from_entries(&entries),
            Err(_) => CodexSessionAliases::new(),
        },
        None => CodexSessionAliases::new(),
    }
}

/// The name under which the Codex program knows a session, going by the content of the file.
pub fn resolve_codex_session_id(content: Option<&str>, session_id: &str) -> (codex_session_id:
    String)
    ensures
        codex_session_id@ == resolved(file_aliases(optional_str(content)), session_id@),
{
    load_codex_session_aliases(content).resolve_codex_session_id(session_id)
}

/// What is to be written to the file, whose content is given where it could be read, so that it
/// holds the Codex thread of a session. There is nothing to write where it already does.
pub fn persist_codex_session_alias(
    content: Option<&str>,
    session_id: &str,
    codex_thread_id: &str,
) -> (written: Result<Option<Vec<u8>>, JsonError>)
    ensures
        ({
            let known = file_aliases(optional_str(content));
            let recorded = known.contains_key(session_id@) && known[session_id@]
                == codex_thread_id@;
            match written {
                Ok(None) => recorded,
                Ok(Some(bytes)) => !recorded && valid_utf8(bytes@) && file_aliases(
                    Some(decode_utf8(bytes@)),
                ) == known.insert(session_id@, codex_thread_id@),
                Err(_) => false,
            }
        }),
{
    let mut aliases = load_codex_session_aliases(content);
    if !aliases.record(session_id, codex_thread_id) {
        return Ok(None);
    }
    match aliases.to_bytes() {
        Ok(bytes) => Ok(Some(bytes)),
        Err(error) => Err(error),
    }
}

/// Once the Codex thread of a session is recorded, the session is known by it, and every other
/// session is known by the name by which it was known before.
pub proof fn law_recorded_alias_is_resolved(
    aliases: Map<Seq<char>, Seq<char>>,
    session_id: Seq<char>,
    codex_thread_id: Seq<char>,
)
    ensures
        resolved(aliases.insert(session_id, codex_thread_id), session_id) == codex_thread_id,
        forall|other: Seq<char>|
            other != session_id ==> #[trigger] resolved(
                aliases.insert(session_id, codex_thread_id),
                other,
            ) == resolved(aliases, other),
{
}

} // verus!
