//! What `ls -l` prints.

use vstd::prelude::*;

use crate::entry::nodes;
use crate::entry::Directory;
use crate::entry::Entry;
use crate::entry::Facts;
use crate::entry::File;
use crate::entry::Metadata;
use crate::entry::Node;
use crate::error::opt_text;
use crate::path::extension;
use crate::path::extension_of;
use crate::path::file_name;
use crate::path::file_name_of;
use crate::path::join;
use crate::path::joined;
use crate::pex::read_pex;
use crate::pex::shown_pex;
use crate::text::chars_of;
use crate::text::find;
use crate::text::find_from;
use crate::text::lines;
use crate::text::lines_of;
use crate::text::parse_unsigned;
use crate::text::part;
use crate::text::texts;
use crate::text::unsigned_value;
use crate::time::epoch;
use crate::time::lstime;
use crate::time::parse_lstime;
use crate::time::Instant;
use crate::time::Timestamp;

verus! {

/// A line of `ls -l`. The groups are: the kind of entry, the permissions, the number of
/// links, the owner, the group, the size, the time and the name.
pub const LS_PATTERN: &'static str = "^([\\-ld])([\\-rwxs]{9})\\s+(\\d+)\\s+(.+)\\s+(.+)\\s+(\\d+)\\s+(\\w{3}\\s+\\d{1,2}\\s+(?:\\d{1,2}:\\d{1,2}|\\d{4}))\\s+(.+)$";

/// How `ls -l` prints the time of an entry that was not changed lately.
pub const LS_TIME_WITH_YEAR: &'static str = "%b %d %Y";

/// How `ls -l` prints the time of an entry that was changed lately.
pub const LS_TIME_WITH_HOURS: &'static str = "%b %d %H:%M";

/// What stands between the name of a symbolic link and its target.
pub const LINK_ARROW: &'static str = " -> ";

/// What `regex::Regex::captures` finds in a text: the whole match and then each group, with
/// nothing for a group that took no part. There is nothing at all where the pattern is
/// not valid or does not match.
pub uninterp spec fn regex_captures(pattern: Seq<char>, text: Seq<char>) -> Option<
    Seq<Option<Seq<char>>>,
>;

/// The texts of the groups of a match.
pub open spec fn group_texts(groups: Seq<Option<String>>) -> Seq<Option<Seq<char>>> {
    groups.map_values(|g: Option<String>| opt_text(g))
}

/// Whether a line starts with a kind and permissions, as every line that is kept does.
pub open spec fn starts_as_entry(line: Seq<char>) -> bool {
    &&& line.len() >= 10
    &&& line[0] == '-' || line[0] == 'l' || line[0] == 'd'
    &&& forall|i: int|
        1 <= i < 10 ==> line[i] == '-' || line[i] == 'r' || line[i] == 'w' || line[i] == 'x'
            || line[i] == 's'
}

/// Whether the groups of a match are all there, with the kind and the permissions that the
/// line starts with.
pub open spec fn groups_fit(line: Seq<char>, groups: Seq<Option<Seq<char>>>) -> bool {
    &&& complete(groups)
    &&& starts_as_entry(line)
    &&& field(groups, 1) == line.take(1)
    &&& field(groups, 2) == line.subrange(1, 10)
}

/// Calls `regex::Regex::new` and `regex::Regex::captures`. The contract claims that what
/// is found depends on the pattern and the text alone. Of the pattern for a line of
/// `ls -l` it claims, beyond that, what the syntax of the pattern says of every match: all
/// eight groups take part, and as the pattern is anchored at the start of the text, the
/// text starts with one character of the first class and nine of the second, which are the
/// first two groups.
#[verifier::external_body]
fn captures(pattern: &str, text: &str) -> (r: Option<Vec<Option<String>>>)
    ensures
        match regex_captures(pattern@, text@) {
            Some(groups) => r is Some && group_texts(r->0@) == groups,
            None => r is None,
        },
        pattern@ == LS_PATTERN@ && r is Some ==> groups_fit(text@, group_texts(r->0@)),
{
    let regex = regex::Regex::new(pattern).ok()?;
    let found = regex.captures(text)?;
    Some(found.iter().map(|group| group.map(|m| m.as_str().to_owned())).collect())
}

/// Whether all the groups of a line are there.
pub open spec fn complete(groups: Seq<Option<Seq<char>>>) -> bool {
    groups.len() >= 9 && forall|i: int| 1 <= i < 9 ==> (#[trigger] groups[i]) is Some
}

/// The text of a group that is there.
pub open spec fn field(groups: Seq<Option<Seq<char>>>, i: int) -> Seq<char> {
    groups[i]->0
}

/// The name in a name field, and the target of the link where one is shown: what stands
/// before the first arrow, and what stands between that and the next one.
pub open spec fn name_and_link(token: Seq<char>) -> (Seq<char>, Option<Seq<char>>) {
    match find_from(token, LINK_ARROW@, 0) {
        None => (token, None),
        Some(i) => {
            let after = i + LINK_ARROW@.len();
            match find_from(token, LINK_ARROW@, after) {
                None => (token.take(i), Some(token.skip(after))),
                Some(j) => (token.take(i), Some(token.subrange(after, j))),
            }
        },
    }
}

/// The name in a name field, and the target where the entry is a link that shows one.
pub open spec fn name_shown(link: bool, token: Seq<char>) -> (Seq<char>, Option<Seq<char>>) {
    if link {
        name_and_link(token)
    } else {
        (token, None)
    }
}

/// A number of at most 32 bits, where the text spells one.
pub open spec fn id_of(s: Seq<char>) -> Option<u32> {
    match unsigned_value(s, u32::MAX as nat) {
        Some(n) => Some(n as u32),
        None => None,
    }
}

/// A number of at most 64 bits, or zero where the text spells none.
pub open spec fn size_of_text(s: Seq<char>) -> u64 {
    match unsigned_value(s, u64::MAX as nat) {
        Some(n) => n as u64,
        None => 0,
    }
}

/// The name field of a line without the directories before it.
pub open spec fn bare_name(shown: Seq<char>) -> Seq<char> {
    match file_name_of(shown) {
        Some(name) => name,
        None => shown,
    }
}

/// Whether a name is that of the directory itself or of the one above.
pub open spec fn is_dots(name: Seq<char>) -> bool {
    name =~= seq!['.'] || name =~= seq!['.', '.']
}

/// The entry that a line of `ls -l` in `dir` shows, from the groups of the line and the time
/// that one of them stands for. There is none where a group is missing, where the kind is
/// neither a file, a link nor a directory, where the permissions are short, or where the
/// name is `.` or `..`.
pub open spec fn listed_node(
    dir: Seq<char>,
    groups: Seq<Option<Seq<char>>>,
    mtime: Instant,
) -> Option<Node> {
    let kind = field(groups, 1);
    let letters = field(groups, 2);
    let shown = name_shown(kind =~= seq!['l'], field(groups, 8));
    let name = bare_name(shown.0);
    let abs_path = joined(dir, name);
    let facts = Facts {
        atime: epoch(),
        ctime: epoch(),
        mtime,
        gid: id_of(field(groups, 5)),
        mode: Some(shown_pex(letters)),
        size: size_of_text(field(groups, 6)),
        symlink: shown.1,
        uid: id_of(field(groups, 4)),
    };
    if !complete(groups) || letters.len() < 9 || is_dots(name) {
        None
    } else if kind =~= seq!['d'] {
        Some(Node::Directory { name, abs_path, facts })
    } else if kind =~= seq!['-'] || kind =~= seq!['l'] {
        Some(Node::File { name, abs_path, extension: extension_of(abs_path), facts })
    } else {
        None
    }
}

/// The time that the groups of a line show, or the epoch where it cannot be read.
pub open spec fn shown_time(groups: Seq<Option<Seq<char>>>, this_year: nat) -> Instant {
    match lstime(field(groups, 7), LS_TIME_WITH_YEAR@, LS_TIME_WITH_HOURS@, this_year) {
        Some(t) => t,
        None => epoch(),
    }
}

/// The entry that a line of `ls -l` in `dir` shows.
pub open spec fn line_node(dir: Seq<char>, line: Seq<char>, this_year: nat) -> Option<Node> {
    match regex_captures(LS_PATTERN@, line) {
        Some(groups) => listed_node(dir, groups, shown_time(groups, this_year)),
        None => None,
    }
}

/// The entries that the lines of a listing show, in the order of the lines. A line that
/// shows no entry is passed over.
pub open spec fn listing_nodes(
    dir: Seq<char>,
    lines: Seq<Seq<char>>,
    this_year: nat,
) -> Seq<Node>
    decreases lines.len(),
{
    if lines.len() == 0 {
        Seq::empty()
    } else {
        let before = listing_nodes(dir, lines.drop_last(), this_year);
        match line_node(dir, lines.last(), this_year) {
            Some(node) => before.push(node),
            None => before,
        }
    }
}

/// The name in a name field, and the target of the link where one is shown.
pub fn split_link(token: &str) -> (r: (String, Option<String>))
    ensures
        (r.0@, opt_text(r.1)) == name_and_link(token@),
{
    let cs = chars_of(token);
    let arrow = chars_of(LINK_ARROW);
    let n: usize = cs.len();
    match find(&cs, &arrow, 0) {
        None => (token.to_owned(), None),
        Some(i) => {
            let after: usize = i + arrow.len();
            let end: usize = match find(&cs, &arrow, after) {
                None => n,
                Some(j) => j,
            };
            let name = part(token, 0, i);
            let link = part(token, after, end);
            assert(name@ == token@.take(i as int));
            assert(end == n ==> link@ == token@.skip(after as int));
            (name, Some(link))
        },
    }
}

/// A number of at most 32 bits, where the text spells one.
fn read_id(s: &str) -> (r: Option<u32>)
    ensures
        r == id_of(s@),
{
    match parse_unsigned(s, u32::MAX as u64) {
        Some(n) => Some(n as u32),
        None => None,
    }
}

/// A number of at most 64 bits, or zero where the text spells none.
fn read_size(s: &str) -> (r: u64)
    ensures
        r == size_of_text(s@),
{
    match parse_unsigned(s, u64::MAX) {
        Some(n) => n,
        None => 0,
    }
}

/// Whether a text is the one character `c`.
fn is_letter(s: &str, c: char) -> (r: bool)
    ensures
        r == (s@ =~= seq![c]),
{
    s.unicode_len() == 1 && s.get_char(0) == c
}

/// Whether a name is that of the directory itself or of the one above.
fn is_dot_name(name: &str) -> (r: bool)
    ensures
        r == is_dots(name@),
{
    let n: usize = name.unicode_len();
    (n == 1 && name.get_char(0) == '.') || (n == 2 && name.get_char(0) == '.' && name.get_char(1)
        == '.')
}

/// The text of a group that is there.
fn group_text(groups: &Vec<Option<String>>, i: usize) -> (r: Option<&str>)
    ensures
        i >= groups.len() ==> r is None,
        i < groups.len() ==> match group_texts(groups@)[i as int] {
            Some(t) => r is Some && r->0@ == t,
            None => r is None,
        },
{
    if i < groups.len() {
        match &groups[i] {
            Some(s) => Some(s.as_str()),
            None => None,
        }
    } else {
        None
    }
}

/// Whether all the groups of a line are there.
fn is_complete(groups: &Vec<Option<String>>) -> (r: bool)
    ensures
        r == complete(group_texts(groups@)),
{
    let mut i: usize = 1;
    while i < 9
        invariant
            1 <= i <= 9,
            forall|k: int|
                1 <= k < i ==> k < groups.len() && (#[trigger] group_texts(groups@)[k]) is Some,
        decreases 9 - i,
    {
        if group_text(groups, i).is_none() {
            return false;
        }
        i = i + 1;
    }
    assert(group_texts(groups@)[8] is Some);
    true
}

/// The entry that a line of `ls -l` in `dir` shows, from the groups of the line and the time
/// that one of them stands for.
pub fn build_entry(dir: &str, groups: &Vec<Option<String>>, mtime: Timestamp) -> (r: Option<Entry>)
    ensures
        match listed_node(dir@, group_texts(groups@), mtime@) {
            Some(node) => r is Some && r->0@ == node,
            None => r is None,
        },
{
    if !is_complete(groups) {
        return None;
    }
    let (kind, letters, owner, owner_group, size, shown) = match (
        group_text(groups, 1),
        group_text(groups, 2),
        group_text(groups, 4),
        group_text(groups, 5),
        group_text(groups, 6),
        group_text(groups, 8),
    ) {
        (Some(a), Some(b), Some(c), Some(d), Some(e), Some(f)) => (a, b, c, d, e, f),
        _ => {
            return None;
        },
    };
    let is_dir = is_letter(kind, 'd');
    let is_symlink = is_letter(kind, 'l');
    if !is_dir && !is_symlink && !is_letter(kind, '-') {
        return None;
    }
    let letters = chars_of(letters);
    if letters.len() < 9 {
        return None;
    }
    let mode = read_pex(&letters);
    let (shown_name, symlink) = if is_symlink {
        split_link(shown)
    } else {
        (shown.to_owned(), None)
    };
    let name = match file_name(shown_name.as_str()) {
        Some(name) => name,
        None => shown_name,
    };
    if is_dot_name(name.as_str()) {
        return None;
    }
    let abs_path = join(dir, name.as_str());
    let metadata = Metadata {
        atime: Timestamp::unix_epoch(),
        ctime: Timestamp::unix_epoch(),
        mtime,
        gid: read_id(owner_group),
        mode: Some(mode),
        size: read_size(size),
        symlink,
        uid: read_id(owner),
    };
    if is_dir {
        Some(Entry::Directory(Directory { name, abs_path, metadata }))
    } else {
        let extension = extension(abs_path.as_str());
        Some(Entry::File(File { name, abs_path, extension, metadata }))
    }
}

/// Where the groups of a match are those that the line starts with, the first one tells the
/// kind by the first letter of the line.
pub proof fn lemma_first_letter_is_the_kind(line: Seq<char>, groups: Seq<Option<Seq<char>>>)
    requires
        groups_fit(line, groups),
    ensures
        field(groups, 1) =~= seq!['d'] <==> line[0] == 'd',
        field(groups, 1) =~= seq!['l'] <==> line[0] == 'l',
        field(groups, 1) =~= seq!['-'] <==> line[0] == '-',
        field(groups, 2).len() == 9,
{
    assert(field(groups, 1).len() == 1 && field(groups, 1)[0] == line[0]);
}

/// The entry that a line of `ls -l` in `dir` shows, read in the current year.
///
/// A line that shows an entry starts with the kind and the permissions of that entry. A
/// line that matches shows one unless its name is `.` or `..`, and a link target only where
/// it starts with `l`.
pub fn parse_line(dir: &str, line: &str, this_year: u32) -> (r: Option<Entry>)
    ensures
        match line_node(dir@, line@, this_year as nat) {
            Some(node) => r is Some && r->0@ == node,
            None => r is None,
        },
        r is Some ==> {
            &&& starts_as_entry(line@)
            &&& r->0@.facts().mode == Some(shown_pex(line@.subrange(1, 10)))
            &&& r->0@ is Directory <==> line@[0] == 'd'
        },
        regex_captures(LS_PATTERN@, line@) matches Some(groups) ==> {
            let shown = name_shown(line@[0] == 'l', field(groups, 8));
            &&& groups_fit(line@, groups)
            &&& r is None <==> is_dots(bare_name(shown.0))
            &&& r is Some ==> r->0@.facts().symlink == shown.1
        },
{
    let groups = match captures(LS_PATTERN, line) {
        Some(groups) => groups,
        None => {
            return None;
        },
    };
    let mtime = match group_text(&groups, 7) {
        Some(t) => match parse_lstime(t, LS_TIME_WITH_YEAR, LS_TIME_WITH_HOURS, this_year) {
            Some(t) => t,
            None => Timestamp::unix_epoch(),
        },
        None => Timestamp::unix_epoch(),
    };
    proof {
        lemma_first_letter_is_the_kind(line@, group_texts(groups@));
    }
    build_entry(dir, &groups, mtime)
}

/// The entries that a listing of `dir` shows.
pub fn parse_listing(dir: &str, output: &str, this_year: u32) -> (r: Vec<Entry>)
    ensures
        nodes(r@) == listing_nodes(dir@, lines_of(output@), this_year as nat),
{
    let all = lines(output);
    let ghost shown = texts(all@);
    let mut entries: Vec<Entry> = Vec::new();
    let mut i: usize = 0;
    assert(nodes(entries@) == listing_nodes(dir@, shown.take(0), this_year as nat));
    while i < all.len()
        invariant
            i <= all.len(),
            shown == texts(all@),
            nodes(entries@) == listing_nodes(dir@, shown.take(i as int), this_year as nat),
        decreases all.len() - i,
    {
        let ghost before = entries@;
        proof {
            assert(shown.take(i + 1).drop_last() == shown.take(i as int));
            assert(shown.take(i + 1).last() == all@[i as int]@);
        }
        if let Some(entry) = parse_line(dir, all[i].as_str(), this_year) {
            entries.push(entry);
            assert(nodes(entries@) == nodes(before).push(entry@));
        }
        i = i + 1;
    }
    assert(shown.take(i as int) == shown);
    entries
}

} // verus!
