//! What holds of the entries that are read from a listing.

use vstd::prelude::*;

use crate::entry::Node;
use crate::listing::groups_fit;
use crate::listing::line_node;
use crate::listing::listed_node;
use crate::listing::listing_nodes;
use crate::listing::name_and_link;
use crate::listing::regex_captures;
use crate::listing::LS_PATTERN;
use crate::path::extension_of;
use crate::path::file_name_of;
use crate::path::joined;
use crate::pex::bit;
use crate::text::find_from;
use crate::text::lines_of;
use crate::text::numeral;
use crate::text::unsigned_value;
use crate::time::date_seconds;
use crate::time::date_time_seconds;
use crate::time::Instant;

verus! {

/// The instant for a number of seconds, or the epoch where there is none or it lies before
/// the epoch.
pub open spec fn instant_or_epoch(secs: Option<i64>) -> Instant {
    match secs {
        Some(secs) => Instant {
            secs: if secs < 0 {
                0
            } else {
                secs as int
            },
            nanos: 0,
        },
        None => Instant { secs: 0, nanos: 0 },
    }
}

/// Whether a line shows what its groups hold, and nothing else: the groups are the kind, the
/// permissions, the links, the owner, the group, the size, the time and the name.
pub open spec fn shows(node: Node, dir: Seq<char>, groups: Seq<Option<Seq<char>>>) -> bool {
    let facts = node.facts();
    let letters = groups[2]->0;
    &&& node is Directory <==> groups[1]->0 =~= seq!['d']
    &&& node is File <==> groups[1]->0 =~= seq!['-'] || groups[1]->0 =~= seq!['l']
    &&& facts.atime == (Instant { secs: 0, nanos: 0 })
    &&& facts.ctime == (Instant { secs: 0, nanos: 0 })
    &&& match unsigned_value(groups[4]->0, 0xffff_ffff) {
        Some(n) => facts.uid is Some && facts.uid->0 == n,
        None => facts.uid is None,
    }
    &&& match unsigned_value(groups[5]->0, 0xffff_ffff) {
        Some(n) => facts.gid is Some && facts.gid->0 == n,
        None => facts.gid is None,
    }
    &&& match unsigned_value(groups[6]->0, 0xffff_ffff_ffff_ffff) {
        Some(n) => facts.size == n,
        None => facts.size == 0,
    }
    &&& facts.mode is Some
    &&& facts.mode->0.mode() == 256 * bit(letters[0] != '-') + 128 * bit(letters[1] != '-') + 64
        * bit(letters[2] != '-') + 32 * bit(letters[3] != '-') + 16 * bit(letters[4] != '-') + 8
        * bit(letters[5] != '-') + 4 * bit(letters[6] != '-') + 2 * bit(letters[7] != '-') + bit(
        letters[8] != '-',
    )
    &&& node.abs_path() == joined(dir, node.name())
    &&& node matches Node::File { abs_path, extension, .. } ==> extension == extension_of(abs_path)
}

/// An entry has the kind, owner, group, size, permissions and path that the groups of its
/// line show, and the given time, whether it is a directory, a file or a link.
pub proof fn law_entry_has_the_fields_of_its_line(
    dir: Seq<char>,
    groups: Seq<Option<Seq<char>>>,
    mtime: Instant,
)
    requires
        listed_node(dir, groups, mtime) is Some,
    ensures
        shows(listed_node(dir, groups, mtime)->0, dir, groups),
        listed_node(dir, groups, mtime)->0.facts().mtime == mtime,
{
    crate::pex::law_each_letter_shows_one_permission(groups[2]->0);
    assert(seq!['d'][0] != seq!['l'][0]);
    assert(seq!['d'][0] != seq!['-'][0]);
}

/// The name of an entry is the last part of the name field, which for a link ends before the
/// arrow; a link has the target that stands behind the arrow, and nothing else has a target.
pub proof fn law_entry_has_the_name_of_its_line(
    dir: Seq<char>,
    groups: Seq<Option<Seq<char>>>,
    mtime: Instant,
)
    requires
        listed_node(dir, groups, mtime) is Some,
    ensures
        ({
            let node = listed_node(dir, groups, mtime)->0;
            let token = groups[8]->0;
            let link = groups[1]->0 =~= seq!['l'];
            let shown = if link {
                name_and_link(token).0
            } else {
                token
            };
            &&& match file_name_of(shown) {
                Some(name) => node.name() == name,
                None => node.name() == shown,
            }
            &&& node.facts().symlink == if link {
                name_and_link(token).1
            } else {
                None
            }
        }),
{
}

/// A line is kept exactly where all its groups are there, its kind is a file, a link or a
/// directory, nine permissions are shown, and the name is neither `.` nor `..`.
pub proof fn law_line_is_kept_where_it_shows_an_entry(
    dir: Seq<char>,
    groups: Seq<Option<Seq<char>>>,
    mtime: Instant,
)
    requires
        groups.len() >= 9,
    ensures
        ({
            let kind = groups[1]->0;
            let token = groups[8]->0;
            let shown = if kind =~= seq!['l'] {
                name_and_link(token).0
            } else {
                token
            };
            let name = match file_name_of(shown) {
                Some(name) => name,
                None => shown,
            };
            listed_node(dir, groups, mtime) is Some <==> {
                &&& groups[1] is Some && groups[2] is Some && groups[3] is Some && groups[4] is Some
                &&& groups[5] is Some && groups[6] is Some && groups[7] is Some && groups[8] is Some
                &&& kind =~= seq!['-'] || kind =~= seq!['l'] || kind =~= seq!['d']
                &&& groups[2]->0.len() >= 9
                &&& !(name =~= seq!['.']) && !(name =~= seq!['.', '.'])
            }
        }),
{
}

/// A line that does not match shows nothing. One that matches shows what its groups hold,
/// with the time of last change that its time field stands for: the start of a day where a
/// year is shown, otherwise a time of the current year, or the epoch where it cannot be read.
/// This holds of directories, files and links alike.
pub proof fn law_line_shows_its_fields_and_its_time(
    dir: Seq<char>,
    line: Seq<char>,
    this_year: nat,
)
    ensures
        regex_captures(LS_PATTERN@, line) is None ==> line_node(dir, line, this_year) is None,
        line_node(dir, line, this_year) matches Some(node) ==> {
            &&& regex_captures(LS_PATTERN@, line) matches Some(groups)
            &&& shows(node, dir, groups)
            &&& node.facts().mtime == match date_seconds(groups[7]->0, "%b %d %Y"@) {
                Some(secs) => instant_or_epoch(Some(secs)),
                None => instant_or_epoch(
                    date_time_seconds(
                        groups[7]->0 + " "@ + numeral(this_year, 10),
                        "%b %d %H:%M"@ + " %Y"@,
                    ),
                ),
            }
        },
{
    if let Some(groups) = regex_captures(LS_PATTERN@, line) {
        let mtime = crate::listing::shown_time(groups, this_year);
        if listed_node(dir, groups, mtime) is Some {
            law_entry_has_the_fields_of_its_line(dir, groups, mtime);
        }
    }
}

/// Whether a line shows an entry, and which name and target it has, is decided by the groups
/// of its match and not by its time.
pub proof fn law_groups_decide_whether_a_line_is_kept(
    dir: Seq<char>,
    line: Seq<char>,
    this_year: nat,
    any: Instant,
)
    requires
        regex_captures(LS_PATTERN@, line) is Some,
    ensures
        ({
            let groups = regex_captures(LS_PATTERN@, line)->0;
            let read = line_node(dir, line, this_year);
            let shown = listed_node(dir, groups, any);
            &&& read is Some <==> shown is Some
            &&& read is Some ==> {
                &&& read->0.name() == shown->0.name()
                &&& read->0.abs_path() == shown->0.abs_path()
                &&& read->0.facts().symlink == shown->0.facts().symlink
            }
        }),
{
}

/// A match fits its line where all eight groups are there, the first one is the first
/// character and the second one the nine characters behind it, each of the kind that the
/// pattern takes there.
pub proof fn law_match_fits_its_line(line: Seq<char>, groups: Seq<Option<Seq<char>>>)
    ensures
        groups_fit(line, groups) <==> {
            &&& groups.len() >= 9 && line.len() >= 10
            &&& groups[1] is Some && groups[2] is Some && groups[3] is Some && groups[4] is Some
            &&& groups[5] is Some && groups[6] is Some && groups[7] is Some && groups[8] is Some
            &&& groups[1]->0 =~= seq![line[0]]
            &&& groups[2]->0 =~= line.skip(1).take(9)
            &&& line[0] == 'd' || line[0] == 'l' || line[0] == '-'
            &&& forall|i: int|
                0 < i <= 9 ==> #[trigger] line[i] == 'r' || line[i] == 'w' || line[i] == 'x'
                    || line[i] == 's' || line[i] == '-'
        },
{
    if line.len() >= 10 {
        assert(line.take(1) =~= seq![line[0]]);
        assert(line.subrange(1, 10) =~= line.skip(1).take(9));
    }
}

/// The pattern is the one of a line of `ls -l`.
pub proof fn law_pattern_of_a_line()
    ensures
        LS_PATTERN@
            == "^([\\-ld])([\\-rwxs]{9})\\s+(\\d+)\\s+(.+)\\s+(.+)\\s+(\\d+)\\s+(\\w{3}\\s+\\d{1,2}\\s+(?:\\d{1,2}:\\d{1,2}|\\d{4}))\\s+(.+)$"@,
{
}

/// The name of a link is what stands before the first ` -> `, and its target what stands
/// between that and the next one; a name field without an arrow is all name.
pub proof fn law_arrow_parts_name_and_target(token: Seq<char>)
    ensures
        match find_from(token, " -> "@, 0) {
            None => name_and_link(token) == (token, None::<Seq<char>>),
            Some(i) => {
                &&& token.len() >= i + 4
                &&& name_and_link(token).0 == token.take(i)
                &&& match find_from(token, " -> "@, i + 4) {
                    None => name_and_link(token).1 == Some(token.skip(i + 4)),
                    Some(j) => name_and_link(token).1 == Some(token.subrange(i + 4, j)),
                }
            },
        },
{
    reveal_strlit(" -> ");
    crate::text::law_found_is_the_first_occurrence(token, " -> "@, 0);
}

/// A listing of one line has the entry of that line, or no entry; one of no line has none.
pub proof fn law_listing_of_one_line(dir: Seq<char>, line: Seq<char>, this_year: nat)
    ensures
        listing_nodes(dir, Seq::empty(), this_year).len() == 0,
        match line_node(dir, line, this_year) {
            Some(node) => listing_nodes(dir, seq![line], this_year) == seq![node],
            None => listing_nodes(dir, seq![line], this_year).len() == 0,
        },
{
    assert(seq![line].drop_last() == Seq::<Seq<char>>::empty());
    assert(seq![line].last() == line);
    assert(listing_nodes(dir, Seq::empty(), this_year) == Seq::<Node>::empty());
}

/// The entries of a listing whose first line is `line` are the entry of that line, where it
/// shows one, followed by the entries of what comes after it.
pub proof fn law_listing_starts_with_its_first_line(
    dir: Seq<char>,
    line: Seq<char>,
    rest: Seq<char>,
    this_year: nat,
)
    requires
        forall|i: int| 0 <= i < line.len() ==> line[i] != '\n' && line[i] != '\r',
    ensures
        listing_nodes(dir, lines_of(line + seq!['\n'] + rest), this_year) == (match line_node(
            dir,
            line,
            this_year,
        ) {
            Some(node) => seq![node],
            None => Seq::empty(),
        }) + listing_nodes(dir, lines_of(rest), this_year),
{
    crate::text::law_line_ends_are_not_part_of_lines(line, rest);
    crate::laws::law_listing_keeps_the_order_of_lines(
        dir,
        seq![line],
        lines_of(rest),
        this_year,
    );
    law_listing_of_one_line(dir, line, this_year);
    if line_node(dir, line, this_year) is None {
        assert(listing_nodes(dir, seq![line], this_year) =~= Seq::<Node>::empty());
    }
}

} // verus!
