//! The list of the transcripts in a directory, one entry for each video.
//!
//! The files of one video, its text, its report and its JSON document, are
//! told by the part of their names before the first hyphen. A title that
//! holds a hyphen in the id's place is grouped by that part all the same.

use vstd::prelude::*;
use crate::catalog::{is_resource_file, is_resource_name};
use crate::text::{
    after_last, before_first, decimal, decimal_text, ends_with, join, joined, replace_all, replaced,
    same_text, text_after_last, text_before_first, texts,
};
use crate::timefmt::{date_text, format_timestamp, MAX_TIMESTAMP};

verus! {

/// The files of one video, in the order in which they were met.
#[derive(Debug, Clone, PartialEq, Eq)]
pub struct TranscriptGroup {
    pub video_id: String,
    pub files: Vec<String>,
}

pub struct GroupView {
    pub video_id: Seq<char>,
    pub files: Seq<Seq<char>>,
}

impl View for TranscriptGroup {
    type V = GroupView;

    open spec fn view(&self) -> GroupView {
        GroupView { video_id: self.video_id@, files: texts(self.files@) }
    }
}

/// The views of the groups.
pub open spec fn group_views(groups: Seq<TranscriptGroup>) -> Seq<GroupView> {
    groups.map_values(|g: TranscriptGroup| g@)
}

/// What the caller found out of the main file of a group: its size in
/// kilobytes, when it was last changed, and its full path.
#[derive(Debug, Clone, PartialEq, Eq)]
pub struct FileFacts {
    pub kilobytes: String,
    pub modified: u64,
    pub path: String,
}

/// The key by which a file is grouped: its name up to the first hyphen.
pub open spec fn key_of(name: Seq<char>) -> Seq<char> {
    before_first(name, '-')
}

/// The first group from `from` on with the given key, the number of groups
/// where there is none.
pub open spec fn position_of(groups: Seq<GroupView>, key: Seq<char>, from: int) -> int
    decreases groups.len() - from,
{
    if 0 <= from < groups.len() && groups[from].video_id != key {
        position_of(groups, key, from + 1)
    } else {
        from
    }
}

/// The groups with one more file: in the group of its key where there is
/// one, else in a new group after the others.
pub open spec fn with_file(groups: Seq<GroupView>, name: Seq<char>) -> Seq<GroupView> {
    let key = key_of(name);
    let at = position_of(groups, key, 0);
    if 0 <= at < groups.len() {
        groups.update(at, GroupView { video_id: key, files: groups[at].files.push(name) })
    } else {
        groups.push(GroupView { video_id: key, files: seq![name] })
    }
}

/// The groups that the names make, taken in their order; a name that is
/// neither a text nor a report nor a JSON document is passed over.
pub open spec fn grouped(names: Seq<Seq<char>>) -> Seq<GroupView>
    decreases names.len(),
{
    if names.len() == 0 {
        Seq::<GroupView>::empty()
    } else if is_resource_name(names.last()) {
        with_file(grouped(names.drop_last()), names.last())
    } else {
        grouped(names.drop_last())
    }
}

/// The first file from `from` on that is a text, the number of files where
/// there is none.
pub open spec fn first_text(files: Seq<Seq<char>>, from: int) -> int
    decreases files.len() - from,
{
    if 0 <= from < files.len() && !".txt"@.is_suffix_of(files[from]) {
        first_text(files, from + 1)
    } else {
        from
    }
}

/// The file that stands for a group: its first text, else its first file;
/// the empty name for a group without files.
pub open spec fn main_file_of(files: Seq<Seq<char>>) -> Seq<char> {
    let at = first_text(files, 0);
    if 0 <= at < files.len() {
        files[at]
    } else if files.len() > 0 {
        files[0]
    } else {
        Seq::<char>::empty()
    }
}

/// The title that a file name shows: the name without the id and its
/// hyphen and without the endings, with its hyphens turned into spaces.
pub open spec fn title_of(name: Seq<char>, video_id: Seq<char>) -> Seq<char> {
    replaced(
        replaced(
            replaced(replaced(replaced(name, video_id + "-"@, ""@), ".txt"@, ""@), ".md"@, ""@),
            ".json"@,
            ""@,
        ),
        "-"@,
        " "@,
    )
}

/// The ending of each file: what follows its last dot.
pub open spec fn endings_of(files: Seq<Seq<char>>) -> Seq<Seq<char>> {
    files.map_values(|f: Seq<char>| after_last(f, '.'))
}

/// The entry of one video in the list; `number` counts from 1.
pub open spec fn item_of(
    number: nat,
    group: GroupView,
    kilobytes: Seq<char>,
    modified: u64,
    path: Seq<char>,
) -> Seq<char> {
    decimal_text(number) + ". **"@ + title_of(main_file_of(group.files), group.video_id)
        + "**\n   Video ID: "@ + group.video_id + "\n   Files: "@ + decimal_text(group.files.len())
        + " ("@ + joined(endings_of(group.files), ", "@) + ")\n   Size: "@ + kilobytes
        + " KB\n   Modified: "@ + date_text(modified) + "\n   Path: "@ + path
}

/// The list: how many videos there are, and their entries.
pub open spec fn listing_of(videos: nat, items: Seq<Seq<char>>) -> Seq<char> {
    "📚 Available transcripts ("@ + decimal_text(videos) + " videos):\n\n"@ + joined(
        items,
        "\n\n"@,
    )
        + "\n\n💡 Tip: You can read any transcript by asking me to read the file path shown above."@
}

/// What is said where the directory is not there.
pub open spec fn no_directory_of(dir: Seq<char>) -> Seq<char> {
    "📂 No transcripts directory found at: "@ + dir
        + "\n\nTranscribe your first video to create it!"@
}

/// What is said where the directory holds no transcript.
pub open spec fn no_transcripts_of(dir: Seq<char>) -> Seq<char> {
    "📂 No transcripts found in "@ + dir + "\n\nTranscribe a video to get started!"@
}

/// The key by which a file is grouped.
pub fn group_key(name: &str) -> (out: String)
    ensures
        out@ == key_of(name@),
{
    text_before_first(name, '-')
}

fn find_group(groups: &Vec<TranscriptGroup>, key: &str) -> (at: usize)
    ensures
        at == position_of(group_views(groups@), key@, 0),
        at <= groups.len(),
        at < groups.len() ==> groups@[at as int].video_id@ == key@,
{
    let mut at: usize = 0;
    while at < groups.len() && !same_text(groups[at].video_id.as_str(), key)
        invariant
            at <= groups.len(),
            position_of(group_views(groups@), key@, at as int) == position_of(
                group_views(groups@),
                key@,
                0,
            ),
        decreases groups.len() - at,
    {
        at = at + 1;
    }
    at
}

fn add_file(groups: &mut Vec<TranscriptGroup>, name: &str)
    ensures
        group_views(final(groups)@) == with_file(group_views(old(groups)@), name@),
{
    let key = group_key(name);
    let at = find_group(groups, key.as_str());
    if at < groups.len() {
        let mut group = groups.remove(at);
        let ghost before = group@;
        group.files.push(String::from_str(name));
        assert(texts(group.files@) =~= before.files.push(name@));
        let ghost after = group;
        groups.insert(at, group);
        assert(groups@ =~= old(groups)@.update(at as int, after));
        assert(group_views(groups@) =~= group_views(old(groups)@).update(at as int, after@));
        assert(group_views(old(groups)@)[at as int] == before);
    } else {
        let mut files: Vec<String> = Vec::new();
        files.push(String::from_str(name));
        assert(texts(files@) =~= seq![name@]);
        groups.push(TranscriptGroup { video_id: key, files });
        assert(group_views(groups@) =~= with_file(group_views(old(groups)@), name@));
    }
}

/// The groups that the file names of a directory make.
pub fn group_transcripts(names: &Vec<String>) -> (out: Vec<TranscriptGroup>)
    ensures
        group_views(out@) == grouped(texts(names@)),
{
    let mut groups: Vec<TranscriptGroup> = Vec::new();
    let mut i: usize = 0;
    assert(group_views(groups@) =~= Seq::<GroupView>::empty());
    while i < names.len()
        invariant
            i <= names.len(),
            group_views(groups@) == grouped(texts(names@).take(i as int)),
        decreases names.len() - i,
    {
        proof {
            let next = texts(names@).take(i + 1);
            assert(next.drop_last() =~= texts(names@).take(i as int));
            assert(next.last() == names@[i as int]@);
        }
        if is_resource_file(names[i].as_str()) {
            add_file(&mut groups, names[i].as_str());
        }
        i = i + 1;
    }
    assert(texts(names@).take(names.len() as int) =~= texts(names@));
    groups
}

/// The file that stands for a group.
pub fn main_file(files: &Vec<String>) -> (out: String)
    ensures
        out@ == main_file_of(texts(files@)),
{
    let mut at: usize = 0;
    while at < files.len() && !ends_with(files[at].as_str(), ".txt")
        invariant
            at <= files.len(),
            first_text(texts(files@), at as int) == first_text(texts(files@), 0),
        decreases files.len() - at,
    {
        at = at + 1;
    }
    if at < files.len() {
        files[at].clone()
    } else if files.len() > 0 {
        files[0].clone()
    } else {
        String::new()
    }
}

/// The title that a file name shows.
pub fn transcript_title(name: &str, video_id: &str) -> (out: String)
    ensures
        out@ == title_of(name@, video_id@),
{
    let mut prefix = String::from_str(video_id);
    prefix.append("-");
    let t = replace_all(name, prefix.as_str(), "");
    let t = replace_all(t.as_str(), ".txt", "");
    let t = replace_all(t.as_str(), ".md", "");
    let t = replace_all(t.as_str(), ".json", "");
    replace_all(t.as_str(), "-", " ")
}

/// The endings of the files, with a comma and a space between each two.
pub fn endings(files: &Vec<String>) -> (out: String)
    ensures
        out@ == joined(endings_of(texts(files@)), ", "@),
{
    let mut all: Vec<String> = Vec::new();
    let mut i: usize = 0;
    while i < files.len()
        invariant
            i <= files.len(),
            texts(all@) == endings_of(texts(files@).take(i as int)),
        decreases files.len() - i,
    {
        let ghost done = texts(all@);
        let ending = text_after_last(files[i].as_str(), '.');
        let ghost ending_view = ending@;
        all.push(ending);
        assert(texts(all@) =~= done.push(ending_view));
        assert(endings_of(texts(files@).take(i + 1)) =~= endings_of(texts(files@).take(i as int)).push(
            ending_view,
        ));
        i = i + 1;
    }
    assert(texts(files@).take(files.len() as int) =~= texts(files@));
    join(&all, ", ")
}

/// The entry of one video in the list.
pub fn transcript_item(number: usize, group: &TranscriptGroup, facts: &FileFacts) -> (out: String)
    requires
        facts.modified <= MAX_TIMESTAMP,
    ensures
        out@ == item_of(number as nat, group@, facts.kilobytes@, facts.modified, facts.path@),
{
    let main = main_file(&group.files);
    let mut out = decimal(number as u64);
    out.append(". **");
    out.append(transcript_title(main.as_str(), group.video_id.as_str()).as_str());
    out.append("**\n   Video ID: ");
    out.append(group.video_id.as_str());
    out.append("\n   Files: ");
    out.append(decimal(group.files.len() as u64).as_str());
    out.append(" (");
    out.append(endings(&group.files).as_str());
    out.append(")\n   Size: ");
    out.append(facts.kilobytes.as_str());
    out.append(" KB\n   Modified: ");
    out.append(format_timestamp(facts.modified).as_str());
    out.append("\n   Path: ");
    out.append(facts.path.as_str());
    out
}

/// The list of `videos` videos with the given entries.
pub fn transcripts_listing(videos: usize, items: &Vec<String>) -> (out: String)
    ensures
        out@ == listing_of(videos as nat, texts(items@)),
{
    let mut out = String::from_str("📚 Available transcripts (");
    out.append(decimal(videos as u64).as_str());
    out.append(" videos):\n\n");
    out.append(join(items, "\n\n").as_str());
    out.append(
        "\n\n💡 Tip: You can read any transcript by asking me to read the file path shown above.",
    );
    out
}

/// What is said where the directory is not there.
pub fn no_directory_message(dir: &str) -> (out: String)
    ensures
        out@ == no_directory_of(dir@),
{
    let mut out = String::from_str("📂 No transcripts directory found at: ");
    out.append(dir);
    out.append("\n\nTranscribe your first video to create it!");
    out
}

/// What is said where the directory holds no transcript.
pub fn no_transcripts_message(dir: &str) -> (out: String)
    ensures
        out@ == no_transcripts_of(dir@),
{
    let mut out = String::from_str("📂 No transcripts found in ");
    out.append(dir);
    out.append("\n\nTranscribe a video to get started!");
    out
}

pub struct FileFactsView {
    pub kilobytes: Seq<char>,
    pub modified: u64,
    pub path: Seq<char>,
}

impl View for FileFacts {
    type V = FileFactsView;

    open spec fn view(&self) -> FileFactsView {
        FileFactsView { kilobytes: self.kilobytes@, modified: self.modified, path: self.path@ }
    }
}

/// The views of facts that may be absent.
pub open spec fn fact_views(facts: Seq<Option<FileFacts>>) -> Seq<Option<FileFactsView>> {
    facts.map_values(
        |f: Option<FileFacts>|
            match f {
                Some(f) => Some(f@),
                None => None,
            },
    )
}

/// The entries of the first `upto` groups: one for each group of whose main
/// file the facts are known, numbered by the place of the group.
pub open spec fn items_of(groups: Seq<GroupView>, facts: Seq<Option<FileFactsView>>, upto: int) -> Seq<
    Seq<char>,
>
    decreases upto,
{
    if upto <= 0 {
        Seq::<Seq<char>>::empty()
    } else {
        let before = items_of(groups, facts, upto - 1);
        if upto <= groups.len() && upto <= facts.len() && facts[upto - 1] is Some {
            let f = facts[upto - 1]->Some_0;
            before.push(item_of(upto as nat, groups[upto - 1], f.kilobytes, f.modified, f.path))
        } else {
            before
        }
    }
}

/// What is said of the transcripts in `dir`: that there are none, or the
/// list of them.
pub open spec fn overview_of(dir: Seq<char>, groups: Seq<GroupView>, facts: Seq<Option<FileFactsView>>) -> Seq<
    char,
> {
    if groups.len() == 0 {
        no_transcripts_of(dir)
    } else {
        listing_of(groups.len(), items_of(groups, facts, groups.len() as int))
    }
}

/// The entries of the groups, given what the caller found out of the main
/// file of each, in the order of the groups.
pub fn list_items(groups: &Vec<TranscriptGroup>, facts: &Vec<Option<FileFacts>>) -> (out: Vec<String>)
    requires
        forall|i: int|
            0 <= i < facts@.len() ==> (#[trigger] facts@[i] matches Some(f) ==> f.modified
                <= MAX_TIMESTAMP),
    ensures
        texts(out@) == items_of(group_views(groups@), fact_views(facts@), groups@.len() as int),
{
    let mut items: Vec<String> = Vec::new();
    let mut i: usize = 0;
    assert(texts(items@) =~= Seq::<Seq<char>>::empty());
    while i < groups.len()
        invariant
            i <= groups.len(),
            texts(items@) == items_of(group_views(groups@), fact_views(facts@), i as int),
            forall|k: int|
                0 <= k < facts@.len() ==> (#[trigger] facts@[k] matches Some(f) ==> f.modified
                    <= MAX_TIMESTAMP),
        decreases groups.len() - i,
    {
        if i < facts.len() {
            match &facts[i] {
                Some(f) => {
                    let ghost done = texts(items@);
                    let item = transcript_item(i + 1, &groups[i], f);
                    let ghost item_view = item@;
                    items.push(item);
                    assert(texts(items@) =~= done.push(item_view));
                },
                None => {},
            }
        }
        i = i + 1;
    }
    items
}

/// What is said of the transcripts in `dir`.
pub fn transcripts_overview(dir: &str, groups: &Vec<TranscriptGroup>, facts: &Vec<Option<FileFacts>>) -> (out:
    String)
    requires
        forall|i: int|
            0 <= i < facts@.len() ==> (#[trigger] facts@[i] matches Some(f) ==> f.modified
                <= MAX_TIMESTAMP),
    ensures
        out@ == overview_of(dir@, group_views(groups@), fact_views(facts@)),
{
    if groups.len() == 0 {
        no_transcripts_message(dir)
    } else {
        let items = list_items(groups, facts);
        transcripts_listing(groups.len(), &items)
    }
}

/// Adding a file keeps the groups that were there in their places, with
/// their keys.
proof fn lemma_with_file_keys(groups: Seq<GroupView>, name: Seq<char>)
    ensures
        groups.len() <= with_file(groups, name).len() <= groups.len() + 1,
        forall|i: int|
            0 <= i < groups.len() ==> (#[trigger] with_file(groups, name)[i]).video_id
                == groups[i].video_id,
        with_file(groups, name).len() == groups.len() + 1 ==> with_file(groups, name).last().video_id
            == key_of(name) && position_of(groups, key_of(name), 0) == groups.len(),
{
    lemma_position_of(groups, key_of(name), 0);
}

/// The position of a key is within the groups or just after them; where it
/// is within, the group there has the key, and no group before it has.
proof fn lemma_position_of(groups: Seq<GroupView>, key: Seq<char>, from: int)
    requires
        0 <= from <= groups.len(),
    ensures
        from <= position_of(groups, key, from) <= groups.len(),
        position_of(groups, key, from) < groups.len() ==> groups[position_of(
            groups,
            key,
            from,
        )].video_id == key,
        forall|i: int|
            from <= i < position_of(groups, key, from) ==> (#[trigger] groups[i]).video_id != key,
    decreases groups.len() - from,
{
    if from < groups.len() && groups[from].video_id != key {
        lemma_position_of(groups, key, from + 1);
    }
}

/// No two groups have the same key.
pub proof fn lemma_grouped_keys_distinct(names: Seq<Seq<char>>)
    ensures
        forall|i: int, j: int|
            0 <= i < j < grouped(names).len() ==> (#[trigger] grouped(names)[i]).video_id != (
            #[trigger] grouped(names)[j]).video_id,
    decreases names.len(),
{
    if names.len() > 0 {
        lemma_grouped_keys_distinct(names.drop_last());
        if is_resource_name(names.last()) {
            let before = grouped(names.drop_last());
            lemma_with_file_keys(before, names.last());
            lemma_position_of(before, key_of(names.last()), 0);
        }
    }
}

/// No group is empty, and every file of a group is a text, a report or a
/// JSON document whose name begins with the key of the group.
pub proof fn lemma_grouped_files(names: Seq<Seq<char>>)
    ensures
        forall|i: int|
            0 <= i < grouped(names).len() ==> (#[trigger] grouped(names)[i]).files.len() > 0,
        forall|i: int, k: int|
            0 <= i < grouped(names).len() && 0 <= k < grouped(names)[i].files.len() ==> key_of(
                #[trigger] grouped(names)[i].files[k],
            ) == grouped(names)[i].video_id && is_resource_name(grouped(names)[i].files[k]),
    decreases names.len(),
{
    if names.len() > 0 {
        lemma_grouped_files(names.drop_last());
        if is_resource_name(names.last()) {
            let before = grouped(names.drop_last());
            lemma_position_of(before, key_of(names.last()), 0);
        }
    }
}

} // verus!
