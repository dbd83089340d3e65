//! Where the transcript of a session is found.
use crate::text::{ends_with, starts_with, texts};
use vstd::prelude::*;

verus! {

/// The program that runs commands on a remote machine.
pub const REMOTE_SHELL: &'static str = "sh";

/// What a name in a directory stands for.
#[derive(Clone, Copy, Debug, PartialEq, Eq, Structural)]
pub enum EntryKind {
    Directory,
    File,
    Other,
}

/// An entry of a directory. Paths are only carried along.
pub struct DirectoryEntry<P> {
    pub kind: EntryKind,
    pub name: String,
    pub path: P,
}

/// A search for the transcript of a session, which goes through directories.
pub struct RolloutSearch<P> {
    /// The directories that are still to be read. The last one comes next.
    pub waiting: Vec<P>,
    /// How the name of the transcript ends.
    pub expected_suffix: String,
}

/// How the name of the transcript of a session ends.
pub open spec fn rollout_suffix(codex_session_id: Seq<char>) -> Seq<char> {
    "-"@ + codex_session_id + ".jsonl"@
}

/// Whether a name begins as those of transcripts do and has an ending.
pub open spec fn is_rollout_name(name: Seq<char>, expected_suffix: Seq<char>) -> bool {
    "rollout-"@.is_prefix_of(name) && expected_suffix.is_suffix_of(name)
}

impl<P> DirectoryEntry<P> {
    /// Whether the entry is a transcript whose name has an ending.
    pub open spec fn is_rollout(self, expected_suffix: Seq<char>) -> bool {
        self.kind == EntryKind::File && is_rollout_name(self.name@, expected_suffix)
    }
}

/// The paths of the directories among some entries, in their order.
pub open spec fn directories_of<P>(entries: Seq<DirectoryEntry<P>>) -> Seq<P>
    decreases entries.len(),
{
    if entries.len() == 0 {
        seq![]
    } else if entries.last().kind == EntryKind::Directory {
        directories_of(entries.drop_last()).push(entries.last().path)
    } else {
        directories_of(entries.drop_last())
    }
}

impl<P> RolloutSearch<P> {
    /// A search for the transcript of a session that begins at a directory.
    pub fn new(root: P, codex_session_id: &str) -> (search: Self)
        ensures
            search.waiting@ == seq![root],
            search.expected_suffix@ == rollout_suffix(codex_session_id@),
    {
        let mut expected_suffix = "-".to_owned();
        expected_suffix.append(codex_session_id);
        expected_suffix.append(".jsonl");
        let mut waiting: Vec<P> = Vec::new();
        waiting.push(root);
        assert(waiting@ =~= seq![root]);
        RolloutSearch { waiting, expected_suffix }
    }

    /// The directory to read next. The search has failed where there is none left.
    pub fn next_directory(&mut self) -> (directory: Option<P>)
        ensures
            final(self).expected_suffix == old(self).expected_suffix,
            match directory {
                Some(path) => old(self).waiting@ == final(self).waiting@.push(path),
                None => old(self).waiting@.len() == 0 && final(self).waiting@.len() == 0,
            },
    {
        let directory = self.waiting.pop();
        assert(directory is Some ==> old(self).waiting@ =~= self.waiting@.push(directory->0));
        directory
    }

    /// Takes an entry of a directory in, and returns its path where it is the transcript.
    /// Directories are read later.
    pub fn visit(&mut self, entry: DirectoryEntry<P>) -> (found: Option<P>)
        ensures
            final(self).expected_suffix == old(self).expected_suffix,
            final(self).waiting@ == if entry.kind == EntryKind::Directory {
                old(self).waiting@.push(entry.path)
            } else {
                old(self).waiting@
            },
            found == if entry.is_rollout(old(self).expected_suffix@) {
                Some(entry.path)
            } else {
                None
            },
    {
        match entry.kind {
            EntryKind::Directory => {
                self.waiting.push(entry.path);
                None
            },
            EntryKind::File => {
                if starts_with(entry.name.as_str(), "rollout-") && ends_with(
                    entry.name.as_str(),
                    self.expected_suffix.as_str(),
                ) {
                    Some(entry.path)
                } else {
                    None
                }
            },
            EntryKind::Other => None,
        }
    }

    /// Takes the entries of a directory in, up to the transcript, and returns its path where it
    /// is among them.
    pub fn visit_all(&mut self, entries: Vec<DirectoryEntry<P>>) -> (found: Option<P>)
        ensures
            final(self).expected_suffix == old(self).expected_suffix,
            match found {
                Some(path) => exists|i: int|
                    #![trigger entries@[i]]
                    0 <= i < entries@.len() && entries@[i].is_rollout(old(self).expected_suffix@)
                        && path == entries@[i].path && (forall|j: int|
                        #![trigger entries@[j]]
                        0 <= j < i ==> !entries@[j].is_rollout(old(self).expected_suffix@))
                        && final(self).waiting@ == old(self).waiting@ + directories_of(
                        entries@.take(i),
                    ),
                None => {
                    &&& forall|j: int|
                        #![trigger entries@[j]]
                        0 <= j < entries@.len() ==> !entries@[j].is_rollout(
                            old(self).expected_suffix@,
                        )
                    &&& final(self).waiting@ == old(self).waiting@ + directories_of(entries@)
                },
            },
    {
        let ghost all = entries@;
        let ghost before = self.waiting@;
        let ghost suffix = self.expected_suffix;
        assert(before + directories_of(all.take(0)) =~= before);
        for entry in it: entries
            invariant
                it.seq() == all,
                all == entries@,
                before == old(self).waiting@,
                suffix == old(self).expected_suffix,
                self.expected_suffix == suffix,
                self.waiting@ == before + directories_of(all.take(it.index() as int)),
                forall|j: int|
                    #![trigger all[j]]
                    0 <= j < it.index() ==> !all[j].is_rollout(suffix@),
        {
            let ghost i = it.index() as int;
            assert(all.take(i + 1).drop_last() =~= all.take(i));
            assert(all.take(i + 1).last() == all[i]);
            match self.visit(entry) {
                Some(path) => {
                    assert(all[i].is_rollout(suffix@));
                    return Some(path);
                },
                None => {},
            }
            assert(before + directories_of(all.take(i)).push(all[i].path) =~= (before
                + directories_of(all.take(i))).push(all[i].path));
        }
        assert(all.take(all.len() as int) =~= all);
        None
    }
}

/// What is run on a remote machine to read the transcript of a session there.
pub open spec fn rollout_script(codex_session_id: Seq<char>) -> Seq<char> {
    "path=$(find \"$HOME/.codex/sessions\" -type f -name 'rollout-*-"@ + codex_session_id
        + ".jsonl' | head -n 1)\nif [ -z \"$path\" ]; then exit 2; fi\ncat \"$path\""@
}

/// The arguments with which the shell of a remote machine reads the transcript of a session.
pub fn remote_rollout_args(codex_session_id: &str) -> (args: Vec<String>)
    ensures
        texts(args@) == seq!["-lc"@, rollout_script(codex_session_id@)],
{
    let mut script =
        "path=$(find \"$HOME/.codex/sessions\" -type f -name 'rollout-*-".to_owned();
    script.append(codex_session_id);
    script.append(
        ".jsonl' | head -n 1)\nif [ -z \"$path\" ]; then exit 2; fi\ncat \"$path\"",
    );
    let mut args: Vec<String> = Vec::new();
    args.push("-lc".to_owned());
    args.push(script);
    assert(texts(args@) =~= seq!["-lc"@, rollout_script(codex_session_id@)]);
    args
}

/// The transcript of a session that was searched for, or what is said where there is none.
pub fn require_rollout<P>(found: Option<P>, codex_session_id: &str) -> (path: Result<P, String>)
    ensures
        match found {
            Some(path_found) => path == Ok::<P, String>(path_found),
            None => path matches Err(message) && message@
                == "Codex transcript not found for session "@ + codex_session_id@,
        },
{
    match found {
        Some(path) => Ok(path),
        None => Err(
            "Codex transcript not found for session ".to_owned().concat(codex_session_id),
        ),
    }
}

/// An entry lies so many levels below a directory, where `listing` lists each directory.
pub open spec fn lies_under<P>(
    listing: spec_fn(P) -> Seq<DirectoryEntry<P>>,
    directory: P,
    entry: DirectoryEntry<P>,
    depth: nat,
) -> bool
    decreases depth,
{
    if depth == 0 {
        listing(directory).contains(entry)
    } else {
        exists|i: int|
            #![trigger listing(directory)[i]]
            0 <= i < listing(directory).len() && listing(directory)[i].kind == EntryKind::Directory
                && lies_under(listing, listing(directory)[i].path, entry, (depth - 1) as nat)
    }
}

/// An entry lies below one of the directories that are still to be read.
pub open spec fn still_ahead<P>(
    listing: spec_fn(P) -> Seq<DirectoryEntry<P>>,
    waiting: Seq<P>,
    entry: DirectoryEntry<P>,
) -> bool {
    exists|i: int, depth: nat|
        0 <= i < waiting.len() && #[trigger] lies_under(listing, waiting[i], entry, depth)
}

proof fn lemma_directory_is_listed<P>(entries: Seq<DirectoryEntry<P>>, i: int)
    requires
        0 <= i < entries.len(),
        entries[i].kind == EntryKind::Directory,
    ensures
        directories_of(entries).contains(entries[i].path),
    decreases entries.len(),
{
    let before = directories_of(entries.drop_last());
    if i == entries.len() - 1 {
        assert(directories_of(entries)[before.len() as int] == entries[i].path);
    } else {
        lemma_directory_is_listed(entries.drop_last(), i);
        let k = choose|k: int| 0 <= k < before.len() && before[k] == entries[i].path;
        assert(directories_of(entries)[k] == entries[i].path);
    }
}

/// A search misses nothing: a transcript that lies below the directories still to be read lies
/// below those that are left after one of them was read and the transcript was not in it.
pub proof fn law_search_misses_nothing<P>(
    listing: spec_fn(P) -> Seq<DirectoryEntry<P>>,
    waiting: Seq<P>,
    directory: P,
    entry: DirectoryEntry<P>,
    expected_suffix: Seq<char>,
)
    requires
        entry.is_rollout(expected_suffix),
        still_ahead(listing, waiting.push(directory), entry),
        forall|i: int|
            #![trigger listing(directory)[i]]
            0 <= i < listing(directory).len() ==> !listing(directory)[i].is_rollout(
                expected_suffix,
            ),
    ensures
        still_ahead(listing, waiting + directories_of(listing(directory)), entry),
{
    let before = waiting.push(directory);
    let after = waiting + directories_of(listing(directory));
    let (i, depth) = choose|i: int, depth: nat|
        0 <= i < before.len() && #[trigger] lies_under(listing, before[i], entry, depth);
    if i < waiting.len() {
        assert(after[i] == before[i]);
        assert(lies_under(listing, after[i], entry, depth));
    } else {
        assert(before[i] == directory);
        if depth == 0 {
            let listed = listing(directory);
            let k = choose|k: int| 0 <= k < listed.len() && listed[k] == entry;
            assert(!listing(directory)[k].is_rollout(expected_suffix));
        } else {
            let k = choose|k: int|
                #![trigger listing(directory)[k]]
                0 <= k < listing(directory).len() && listing(directory)[k].kind
                    == EntryKind::Directory && lies_under(
                    listing,
                    listing(directory)[k].path,
                    entry,
                    (depth - 1) as nat,
                );
            let found = listing(directory)[k].path;
            lemma_directory_is_listed(listing(directory), k);
            let further = directories_of(listing(directory));
            let m = choose|m: int| 0 <= m < further.len() && further[m] == found;
            assert(after[waiting.len() + m] == found);
            assert(lies_under(listing, after[waiting.len() + m], entry, (depth - 1) as nat));
        }
    }
}

} // verus!
