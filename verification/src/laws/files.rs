//! Laws of the names of sessions and of where transcripts are found.
use crate::agent_settings::text_values;
use crate::aliases::{
    entries_map, file_aliases, parsed_texts, resolved, CodexSessionAliases,
};
use crate::rollout_files::{
    directories_of, rollout_script, rollout_suffix, DirectoryEntry, EntryKind,
};
use vstd::prelude::*;

verus! {

/// A session is known by the name that was recorded, in full, and else by its own.
pub proof fn law_sessions_are_known_by_name(
    aliases: Map<Seq<char>, Seq<char>>,
    session_id: Seq<char>,
    recorded: CodexSessionAliases,
)
    ensures
        recorded@ == text_values(recorded.threads@),
        aliases.contains_key(session_id) ==> resolved(aliases, session_id) == aliases[session_id],
        !aliases.contains_key(session_id) ==> resolved(aliases, session_id) == session_id,
{
}

/// A file holds the names that it is read as, all of them, and none where it cannot be read.
pub proof fn law_files_hold_their_names(text: Seq<char>)
    ensures
        parsed_texts(text) matches Some(aliases) ==> file_aliases(Some(text)) == aliases,
        parsed_texts(text) is None ==> file_aliases(Some(text)) == Map::<
            Seq<char>,
            Seq<char>,
        >::empty(),
        file_aliases(None) == Map::<Seq<char>, Seq<char>>::empty(),
{
}

/// Every entry of a list counts, in full, and of two for one key the later one.
pub proof fn law_later_entries_count(entries: Seq<(String, String)>, key: String, value: String)
    ensures
        entries_map(entries.push((key, value))) == entries_map(entries).insert(key@, value@),
        entries_map(seq![]) == Map::<Seq<char>, Seq<char>>::empty(),
{
    assert(entries.push((key, value)).drop_last() =~= entries);
}

/// An entry of a directory is the transcript of a session if and only if it is a file whose name
/// begins with `rollout-` and ends with a hyphen, the whole name of the session and `.jsonl`.
pub proof fn law_transcripts_are_known_by_name<P>(
    entry: DirectoryEntry<P>,
    codex_session_id: Seq<char>,
)
    ensures
        entry.is_rollout(rollout_suffix(codex_session_id)) <==> {
            &&& entry.kind == EntryKind::File
            &&& "rollout-"@.is_prefix_of(entry.name@)
            &&& ("-"@ + codex_session_id + ".jsonl"@).is_suffix_of(entry.name@)
        },
{
}

/// On a remote machine the transcript is looked for under the whole name of the session.
pub proof fn law_remote_transcripts_are_found_by_name(codex_session_id: Seq<char>)
    ensures
        ("path=$(find \"$HOME/.codex/sessions\" -type f -name 'rollout-*-"@ + codex_session_id
            + ".jsonl' | head -n 1)\nif [ -z \"$path\" ]; then exit 2; fi\ncat \"$path\""@)
            == rollout_script(codex_session_id),
{
}

/// Every directory among some entries is read later, in the order in which they came, and nothing
/// else is.
pub proof fn law_directories_are_read_later<P>(
    entry: DirectoryEntry<P>,
    earlier: Seq<DirectoryEntry<P>>,
    later: Seq<DirectoryEntry<P>>,
)
    ensures
        entry.kind == EntryKind::Directory ==> directories_of(seq![entry]) == seq![entry.path],
        entry.kind != EntryKind::Directory ==> directories_of(seq![entry]).len() == 0,
        directories_of(earlier + later) == directories_of(earlier) + directories_of(later),
    decreases later.len(),
{
    let single = seq![entry];
    assert(single.drop_last() =~= seq![]);
    assert(directories_of(single.drop_last()) =~= seq![]);
    assert(entry.kind == EntryKind::Directory ==> directories_of(single) =~= seq![entry.path]);
    if later.len() == 0 {
        assert(earlier + later =~= earlier);
        assert(directories_of(earlier) + directories_of(later) =~= directories_of(earlier));
    } else {
        law_directories_are_read_later(entry, earlier, later.drop_last());
        assert((earlier + later).drop_last() =~= earlier + later.drop_last());
        assert((earlier + later).last() == later.last());
        assert(directories_of(earlier + later) =~= directories_of(earlier) + directories_of(later));
    }
}

} // verus!
