//! Paths of the remote host, held as text.
//!
//! The remote host is a Unix machine whatever the client runs on, so a path is a text with
//! `/` between its segments. An empty segment and the segment `.` name nothing.

use vstd::prelude::*;

use crate::text::chars_of;
use crate::text::join3;
use crate::text::part;

verus! {

/// Whether a path starts at the root.
pub open spec fn absolute(s: Seq<char>) -> bool {
    s.len() > 0 && s[0] == '/'
}

/// `base` extended by `rest`: a `/` is put between them where `base` lacks one, and an
/// absolute `rest` takes the place of `base`.
pub open spec fn joined(base: Seq<char>, rest: Seq<char>) -> Seq<char> {
    if absolute(rest) {
        rest
    } else if base.len() == 0 || base.last() == '/' {
        base + rest
    } else {
        base + seq!['/'] + rest
    }
}

/// Where the last segment of `s` starts.
pub open spec fn tail_start(s: Seq<char>) -> int
    decreases s.len(),
{
    if s.len() == 0 || s.last() == '/' {
        s.len() as int
    } else {
        tail_start(s.drop_last())
    }
}

/// Whether a segment names nothing.
pub open spec fn idle(segment: Seq<char>) -> bool {
    segment.len() == 0 || segment =~= seq!['.']
}

/// Whether a segment leads to the directory above.
pub open spec fn upward(segment: Seq<char>) -> bool {
    segment =~= seq!['.', '.']
}

/// The last segment that names something, unless that leads upward.
pub open spec fn file_name_of(s: Seq<char>) -> Option<Seq<char>>
    decreases s.len(),
    via file_name_of_terminates
{
    let k = tail_start(s);
    let segment = s.skip(k);
    if idle(segment) {
        if k == 0 {
            None
        } else {
            file_name_of(s.take(k - 1))
        }
    } else if upward(segment) {
        None
    } else {
        Some(segment)
    }
}

#[via_fn]
proof fn file_name_of_terminates(s: Seq<char>) {
    lemma_tail_start(s);
}

/// The part of a file name behind its last dot, unless that dot comes first or there is
/// none.
pub open spec fn suffix_of(name: Seq<char>) -> Option<Seq<char>> {
    suffix_from(name, name.len() as int)
}

/// The part of `name` behind the last dot before `end`, unless that dot comes first.
pub open spec fn suffix_from(name: Seq<char>, end: int) -> Option<Seq<char>>
    decreases end,
{
    if end <= 1 {
        None
    } else if name[end - 1] == '.' {
        Some(name.skip(end))
    } else {
        suffix_from(name, end - 1)
    }
}

/// The extension of the file name of `s`.
pub open spec fn extension_of(s: Seq<char>) -> Option<Seq<char>> {
    match file_name_of(s) {
        Some(name) => suffix_of(name),
        None => None,
    }
}

/// How many characters come before the segments: the root, or the `.` of a path that
/// starts with that segment.
pub open spec fn lead(s: Seq<char>) -> int {
    if absolute(s) {
        1
    } else if s.len() > 0 && s[0] == '.' && (s.len() == 1 || s[1] == '/') {
        1
    } else {
        0
    }
}

/// Where the last segment of `s` starts, when the first `from` characters are set aside.
pub open spec fn tail_start_from(s: Seq<char>, from: int) -> int {
    from + tail_start(s.skip(from))
}

/// `s` without its last segment and the `/` before it.
pub open spec fn without_tail(s: Seq<char>, from: int) -> Seq<char> {
    let k = tail_start_from(s, from);
    if k > from {
        s.take(k - 1)
    } else {
        s.take(from)
    }
}

/// `s` without the segments at its end that name nothing.
pub open spec fn settled(s: Seq<char>, from: int) -> Seq<char>
    decreases s.len(),
    via settled_terminates
{
    if from < 0 || s.len() <= from || !idle(s.skip(tail_start_from(s, from))) {
        s
    } else {
        settled(without_tail(s, from), from)
    }
}

#[via_fn]
proof fn settled_terminates(s: Seq<char>, from: int) {
    if 0 <= from < s.len() {
        lemma_tail_start(s.skip(from));
    }
}

/// The path without its last segment that names something: nothing for the root and for
/// the empty path.
pub open spec fn parent_of(s: Seq<char>) -> Option<Seq<char>> {
    let from = lead(s);
    let whole = settled(s, from);
    if whole.len() > from {
        Some(settled(without_tail(whole, from), from))
    } else if from == 1 && !absolute(s) {
        Some(Seq::empty())
    } else {
        None
    }
}

/// The last segment starts within the text, holds no `/`, and has one before it unless it
/// is the whole text.
pub proof fn lemma_tail_start(s: Seq<char>)
    ensures
        0 <= tail_start(s) <= s.len(),
        forall|i: int| tail_start(s) <= i < s.len() ==> s[i] != '/',
        tail_start(s) > 0 ==> s[tail_start(s) - 1] == '/',
    decreases s.len(),
{
    if s.len() != 0 && s.last() != '/' {
        let front = s.drop_last();
        lemma_tail_start(front);
        assert forall|i: int| tail_start(s) <= i < s.len() implies s[i] != '/' by {
            if i < s.len() - 1 {
                assert(s[i] == front[i]);
            }
        }
    }
}

/// An index with no `/` from it on and one before it is where the last segment starts.
proof fn lemma_tail_start_is(s: Seq<char>, k: int)
    requires
        0 <= k <= s.len(),
        forall|i: int| k <= i < s.len() ==> s[i] != '/',
        k > 0 ==> s[k - 1] == '/',
    ensures
        tail_start(s) == k,
{
    lemma_tail_start(s);
}

/// Whether `s` starts at the root.
pub fn is_absolute(s: &str) -> (r: bool)
    ensures
        r == absolute(s@),
{
    s.unicode_len() > 0 && s.get_char(0) == '/'
}

/// `base` extended by `rest`.
pub fn join(base: &str, rest: &str) -> (r: String)
    ensures
        r@ == joined(base@, rest@),
{
    if is_absolute(rest) {
        return rest.to_owned();
    }
    let n: usize = base.unicode_len();
    if n == 0 || base.get_char(n - 1) == '/' {
        let r = join3(base, "", rest);
        proof {
            reveal_strlit("");
            assert(r@ == base@ + rest@);
        }
        r
    } else {
        let r = join3(base, "/", rest);
        proof {
            reveal_strlit("/");
            assert("/"@ =~= seq!['/']);
        }
        r
    }
}

/// `target` as it is where it is absolute, and below `wrkdir` otherwise.
pub fn absolutize(wrkdir: &str, target: &str) -> (r: String)
    ensures
        r@ == joined(wrkdir@, target@),
{
    join(wrkdir, target)
}

/// Where the last segment of the first `end` characters starts, when the first `from` are
/// set aside.
fn segment_start(cs: &Vec<char>, from: usize, end: usize) -> (k: usize)
    requires
        from <= end <= cs.len(),
    ensures
        from <= k <= end,
        k == tail_start_from(cs@.take(end as int), from as int),
{
    let mut k: usize = end;
    while k > from && cs[k - 1] != '/'
        invariant
            from <= k <= end <= cs.len(),
            forall|i: int| k <= i < end ==> cs@[i] != '/',
        decreases k,
    {
        k = k - 1;
    }
    let ghost body = cs@.take(end as int).skip(from as int);
    proof {
        assert forall|i: int| k - from <= i < body.len() implies body[i] != '/' by {
            assert(body[i] == cs@[from + i]);
        }
        if k > from {
            assert(body[k - from - 1] == cs@[k - 1]);
        }
        lemma_tail_start_is(body, k - from);
    }
    k
}

/// Whether the characters from `k` to `end` are a segment that names nothing.
fn is_idle(cs: &Vec<char>, k: usize, end: usize) -> (r: bool)
    requires
        k <= end <= cs.len(),
    ensures
        r == idle(cs@.take(end as int).skip(k as int)),
{
    let ghost segment = cs@.take(end as int).skip(k as int);
    let r: bool = k == end || (end - k == 1 && cs[k] == '.');
    proof {
        if end - k == 1 {
            assert(segment[0] == cs@[k as int]);
        }
    }
    r
}

/// The file name at the end of a path.
pub fn file_name(s: &str) -> (r: Option<String>)
    ensures
        match file_name_of(s@) {
            Some(name) => r is Some && r->0@ == name,
            None => r is None,
        },
{
    let cs = chars_of(s);
    let mut end: usize = cs.len();
    assert(s@.take(end as int) == s@);
    loop
        invariant
            cs@ == s@,
            end <= cs.len(),
            file_name_of(s@) == file_name_of(s@.take(end as int)),
        decreases end,
    {
        let ghost t = s@.take(end as int);
        let k = segment_start(&cs, 0, end);
        assert(t.skip(0) == t);
        if is_idle(&cs, k, end) {
            if k == 0 {
                return None;
            }
            assert(t.take(k - 1) == s@.take(k - 1));
            end = k - 1;
        } else {
            let ghost segment = t.skip(k as int);
            assert(segment == s@.subrange(k as int, end as int));
            if end - k == 2 && cs[k] == '.' && cs[k + 1] == '.' {
                assert(upward(segment));
                return None;
            }
            proof {
                if segment.len() == 2 {
                    assert(segment[0] == cs@[k as int] && segment[1] == cs@[k + 1]);
                }
            }
            return Some(part(s, k, end));
        }
    }
}

/// The extension of the file name at the end of a path.
pub fn extension(s: &str) -> (r: Option<String>)
    ensures
        match extension_of(s@) {
            Some(ext) => r is Some && r->0@ == ext,
            None => r is None,
        },
{
    let name = match file_name(s) {
        Some(name) => name,
        None => {
            return None;
        },
    };
    let cs = chars_of(name.as_str());
    let n: usize = cs.len();
    let mut end: usize = n;
    while end > 1
        invariant
            cs@ == name@,
            end <= n,
            n == cs.len(),
            file_name_of(s@) == Some(name@),
            suffix_of(name@) == suffix_from(name@, end as int),
        decreases end,
    {
        if cs[end - 1] == '.' {
            let ext = part(name.as_str(), end, n);
            assert(ext@ == name@.skip(end as int));
            return Some(ext);
        }
        end = end - 1;
    }
    None
}

/// The end of the path that is left of the first `end` characters without the segments at
/// the end that name nothing.
fn settled_end(cs: &Vec<char>, from: usize, end: usize) -> (r: usize)
    requires
        from <= end <= cs.len(),
    ensures
        from <= r <= end,
        cs@.take(r as int) == settled(cs@.take(end as int), from as int),
{
    let mut e: usize = end;
    while e > from
        invariant
            from <= e <= end <= cs.len(),
            settled(cs@.take(end as int), from as int) == settled(
                cs@.take(e as int),
                from as int,
            ),
        decreases e,
    {
        let ghost t = cs@.take(e as int);
        let k = segment_start(cs, from, e);
        if !is_idle(cs, k, e) {
            return e;
        }
        let next: usize = if k > from {
            k - 1
        } else {
            from
        };
        assert(without_tail(t, from as int) == cs@.take(next as int));
        e = next;
    }
    e
}

/// The path above a path.
pub fn parent(s: &str) -> (r: Option<String>)
    ensures
        match parent_of(s@) {
            Some(above) => r is Some && r->0@ == above,
            None => r is None,
        },
{
    let cs = chars_of(s);
    let n: usize = cs.len();
    let rooted: bool = n > 0 && cs[0] == '/';
    let from: usize = if rooted || (n > 0 && cs[0] == '.' && (n == 1 || cs[1] == '/')) {
        1
    } else {
        0
    };
    assert(s@.take(n as int) == s@);
    let whole = settled_end(&cs, from, n);
    if whole > from {
        let k = segment_start(&cs, from, whole);
        let cut: usize = if k > from {
            k - 1
        } else {
            from
        };
        assert(without_tail(s@.take(whole as int), from as int) == s@.take(cut as int));
        let end = settled_end(&cs, from, cut);
        let above = part(s, 0, end);
        assert(above@ == s@.take(end as int));
        Some(above)
    } else if from == 1 && !rooted {
        let above = String::new();
        assert(above@ == Seq::<char>::empty());
        Some(above)
    } else {
        None
    }
}

/// Whether a text is a name that can stand in a directory: one segment that names
/// something and does not lead upward.
pub open spec fn plain_name(name: Seq<char>) -> bool {
    &&& forall|i: int| 0 <= i < name.len() ==> name[i] != '/'
    &&& !idle(name)
    &&& !upward(name)
}

/// An absolute path stays as it is wherever the working directory is.
pub proof fn law_absolute_path_is_kept(wrkdir: Seq<char>, path: Seq<char>)
    requires
        absolute(path),
    ensures
        joined(wrkdir, path) == path,
{
}

/// Below an absolute working directory every path becomes absolute, and taking it below
/// that directory once more changes nothing.
pub proof fn law_absolutize_twice_is_absolutize_once(wrkdir: Seq<char>, path: Seq<char>)
    requires
        absolute(wrkdir),
    ensures
        absolute(joined(wrkdir, path)),
        joined(wrkdir, joined(wrkdir, path)) == joined(wrkdir, path),
{
}

/// The characters of a name that is joined to a directory come last, right behind a `/` or
/// at the very start.
proof fn lemma_joined_tail(dir: Seq<char>, name: Seq<char>)
    requires
        plain_name(name),
    ensures
        tail_start(joined(dir, name)) == joined(dir, name).len() - name.len(),
        joined(dir, name).skip(joined(dir, name).len() - name.len()) == name,
{
    let s = joined(dir, name);
    let k = s.len() - name.len();
    assert(s.skip(k) == name);
    assert forall|i: int| k <= i < s.len() implies s[i] != '/' by {
        assert(s[i] == name[i - k]);
    }
    lemma_tail_start_is(s, k);
}

/// A name that is joined to a directory is the file name of the path.
pub proof fn law_joined_name_is_the_file_name(dir: Seq<char>, name: Seq<char>)
    requires
        plain_name(name),
    ensures
        file_name_of(joined(dir, name)) == Some(name),
{
    lemma_joined_tail(dir, name);
}

/// A file name is always a plain name.
pub proof fn law_file_name_is_plain(s: Seq<char>)
    ensures
        file_name_of(s) is Some ==> plain_name(file_name_of(s)->0),
    decreases s.len(),
{
    lemma_tail_start(s);
    let k = tail_start(s);
    if idle(s.skip(k)) && k > 0 {
        law_file_name_is_plain(s.take(k - 1));
    }
}

/// Above a name that was joined to an absolute directory is that directory, but for the
/// segments at its end that name nothing.
pub proof fn law_parent_of_joined_name_is_the_directory(dir: Seq<char>, name: Seq<char>)
    requires
        absolute(dir),
        plain_name(name),
    ensures
        parent_of(joined(dir, name)) == Some(settled(dir, 1)),
{
    let s = joined(dir, name);
    let k = s.len() - name.len();
    let body = s.skip(1);
    lemma_joined_tail(dir, name);
    assert(lead(s) == 1);
    assert forall|i: int| k - 1 <= i < body.len() implies body[i] != '/' by {
        assert(body[i] == name[i - (k - 1)]);
    }
    lemma_tail_start_is(body, k - 1);
    assert(s.skip(tail_start_from(s, 1)) == name);
    assert(settled(s, 1) == s);
    let cut = without_tail(s, 1);
    if dir.last() == '/' {
        if dir.len() == 1 {
            assert(cut == dir);
        } else {
            assert(cut == dir.drop_last());
            let rest = dir.skip(1);
            lemma_tail_start_is(rest, rest.len() as int);
            assert(dir.skip(dir.len() as int) == Seq::<char>::empty());
            assert(without_tail(dir, 1) == dir.drop_last());
        }
    } else {
        assert(cut == dir);
    }
}

/// A relative path is put behind the directory, with exactly one `/` between them unless
/// there is no directory: whether the directory is written with a `/` at its end makes no
/// difference.
pub proof fn law_relative_path_goes_below(dir: Seq<char>, rest: Seq<char>)
    requires
        rest.len() == 0 || rest[0] != '/',
    ensures
        joined(Seq::empty(), rest) == rest,
        joined(dir + seq!['/'], rest) == dir + seq!['/'] + rest,
        dir.len() > 0 && dir.last() != '/' ==> joined(dir, rest) == dir + seq!['/'] + rest,
{
    assert(Seq::<char>::empty() + rest == rest);
    assert((dir + seq!['/']).last() == '/');
}

/// A path that starts with `/` does not go below anything.
pub proof fn law_rooted_path_stays(dir: Seq<char>, path: Seq<char>)
    requires
        path.len() > 0,
        path[0] == '/',
    ensures
        joined(dir, path) == path,
{
}

/// Going below twice is going below once: the directory may be taken together with the path
/// below it.
pub proof fn law_going_below_is_associative(a: Seq<char>, b: Seq<char>, c: Seq<char>)
    requires
        b.len() > 0,
    ensures
        joined(joined(a, b), c) == joined(a, joined(b, c)),
{
    if !absolute(c) {
        let bc = joined(b, c);
        assert(bc[0] == b[0]);
        if !absolute(b) {
            let ab = joined(a, b);
            assert(ab.last() == b.last());
            assert(joined(ab, c) =~= joined(a, bc));
        }
    }
}

/// The last segment decides the file name: an empty one and `.` are passed over, `..` has
/// none, and any other is the file name.
pub proof fn law_last_segment_decides_the_file_name(front: Seq<char>, segment: Seq<char>)
    requires
        forall|i: int| 0 <= i < segment.len() ==> segment[i] != '/',
    ensures
        segment.len() == 0 || segment == seq!['.'] ==> file_name_of(
            front + seq!['/'] + segment,
        ) == file_name_of(front) && file_name_of(segment) is None,
        segment == seq!['.', '.'] ==> file_name_of(front + seq!['/'] + segment) is None
            && file_name_of(segment) is None,
        segment.len() > 0 && segment != seq!['.'] && segment != seq!['.', '.'] ==> file_name_of(
            front + seq!['/'] + segment,
        ) == Some(segment) && file_name_of(segment) == Some(segment),
{
    let s = front + seq!['/'] + segment;
    let k = front.len() as int + 1;
    assert(s[k - 1] == '/');
    assert forall|i: int| k <= i < s.len() implies s[i] != '/' by {
        assert(s[i] == segment[i - k]);
    }
    lemma_tail_start_is(s, k);
    lemma_tail_start_is(segment, 0);
    assert(s.skip(k) == segment);
    assert(s.take(k - 1) == front);
    assert(segment.skip(0) == segment);
    if segment.len() == 2 {
        assert(!(segment =~= seq!['.']));
    }
    assert(seq!['.'].len() == 1 && seq!['.', '.'].len() == 2);
}

/// A file name without a dot, or with its only dot in front, has no extension; otherwise the
/// extension is what follows the last dot.
pub proof fn law_extension_follows_the_last_dot(stem: Seq<char>, ext: Seq<char>)
    requires
        forall|i: int| 0 <= i < ext.len() ==> ext[i] != '.',
    ensures
        suffix_of(ext) is None,
        stem.len() == 0 ==> suffix_of(stem + seq!['.'] + ext) is None,
        stem.len() > 0 ==> suffix_of(stem + seq!['.'] + ext) == Some(ext),
{
    let name = stem + seq!['.'] + ext;
    assert forall|i: int| stem.len() + 1 <= i < name.len() implies name[i] != '.' by {
        assert(name[i] == ext[i - stem.len() - 1]);
    }
    lemma_no_dot(ext, ext.len() as int, 0);
    lemma_no_dot(name, name.len() as int, stem.len() as int + 1);
    assert(name[stem.len() as int] == '.');
    assert(name.skip(stem.len() as int + 1) == ext);
}

proof fn lemma_no_dot(name: Seq<char>, end: int, from: int)
    requires
        0 <= from <= end <= name.len(),
        forall|i: int| from <= i < end ==> name[i] != '.',
    ensures
        suffix_from(name, end) == suffix_from(name, from),
    decreases end,
{
    if from < end && end > 1 {
        lemma_no_dot(name, end - 1, from);
    }
}

/// The extension of a path is that of its file name.
pub proof fn law_extension_is_that_of_the_file_name(s: Seq<char>)
    ensures
        file_name_of(s) is None ==> extension_of(s) is None,
        file_name_of(s) matches Some(name) ==> extension_of(s) == suffix_of(name),
{
}

/// Above a name in a directory is the directory, above a name in the root is the root, and
/// above the root is nothing.
pub proof fn law_parent_is_the_directory_above(dir: Seq<char>, name: Seq<char>)
    requires
        name.len() > 0,
        name != seq!['.'],
        forall|i: int| 0 <= i < name.len() ==> name[i] != '/',
        dir.len() > 1,
        dir[0] == '/',
        dir.last() != '/',
        !(dir.last() == '.' && dir[dir.len() - 2] == '/'),
    ensures
        parent_of(dir + seq!['/'] + name) == Some(dir),
        parent_of(seq!['/'] + name) == Some(seq!['/']),
        parent_of(seq!['/']) is None,
{
    let s = dir + seq!['/'] + name;
    let k = dir.len() as int + 1;
    assert(s.skip(k) == name);
    lemma_rooted_tail(s, k, name);
    let rest = dir.skip(1);
    lemma_tail_start(rest);
    let segment = dir.skip(tail_start_from(dir, 1));
    assert(rest.last() == dir.last());
    assert(tail_start(rest) < rest.len());
    assert(segment.last() == dir.last());
    let start = tail_start_from(dir, 1);
    assert(dir[start - 1] == '/') by {
        if tail_start(rest) > 0 {
            assert(rest[tail_start(rest) - 1] == dir[start - 1]);
        }
    }
    assert(!idle(segment));
    assert(without_tail(s, 1) == dir);
    let t = seq!['/'] + name;
    assert(t.skip(1) == name);
    lemma_rooted_tail(t, 1, name);
    assert(without_tail(t, 1) == seq!['/']);
    assert(settled(seq!['/'], 1) == seq!['/']);
}

/// In a path from the root, a last segment that names something is where the path is cut.
proof fn lemma_rooted_tail(s: Seq<char>, k: int, name: Seq<char>)
    requires
        1 <= k < s.len(),
        s[0] == '/',
        s[k - 1] == '/',
        s.skip(k) == name,
        !idle(name),
        forall|i: int| 0 <= i < name.len() ==> name[i] != '/',
    ensures
        lead(s) == 1,
        tail_start_from(s, 1) == k,
        settled(s, 1) == s,
{
    let body = s.skip(1);
    assert forall|i: int| k - 1 <= i < body.len() implies body[i] != '/' by {
        assert(body[i] == name[i - (k - 1)]);
    }
    if k > 1 {
        assert(body[k - 2] == s[k - 1]);
    }
    lemma_tail_start_is(body, k - 1);
}

/// Segments at the end that name nothing do not change what is above a path.
pub proof fn law_parent_passes_over_idle_ends(s: Seq<char>)
    requires
        s.len() > 0,
        s[0] == '/',
    ensures
        parent_of(s + seq!['/']) == parent_of(s),
        parent_of(s + seq!['/', '.']) == parent_of(s),
{
    lemma_settled_idle(s, Seq::empty());
    lemma_settled_idle(s, seq!['.']);
    assert(s + seq!['/'] + Seq::<char>::empty() == s + seq!['/']);
    assert(s + seq!['/'] + seq!['.'] == s + seq!['/', '.']);
}

proof fn lemma_settled_idle(s: Seq<char>, segment: Seq<char>)
    requires
        s.len() > 0,
        s[0] == '/',
        idle(segment),
    ensures
        settled(s + seq!['/'] + segment, 1) == settled(s, 1),
{
    let t = s + seq!['/'] + segment;
    let k = s.len() as int + 1;
    let body = t.skip(1);
    assert forall|i: int| k - 1 <= i < body.len() implies body[i] != '/' by {
        assert(body[i] == segment[i - (k - 1)]);
    }
    assert(body[k - 2] == '/');
    lemma_tail_start_is(body, k - 1);
    assert(t.skip(k) == segment);
    assert(without_tail(t, 1) == s);
}

/// In a path that starts with a name, above that name is the empty path, and above a name
/// further below is what comes before it.
pub proof fn law_parent_in_a_relative_path(dir: Seq<char>, name: Seq<char>)
    requires
        name.len() > 0,
        name != seq!['.'],
        forall|i: int| 0 <= i < name.len() ==> name[i] != '/',
        plain_name(dir),
    ensures
        parent_of(name) == Some(Seq::<char>::empty()),
        parent_of(dir + seq!['/'] + name) == Some(dir),
        parent_of(seq!['.']) == Some(Seq::<char>::empty()),
        parent_of(Seq::empty()) is None,
{
    lemma_lone_segment(name);
    lemma_lone_segment(dir);
    assert(without_tail(name, 0) == Seq::<char>::empty());
    let s = dir + seq!['/'] + name;
    let k = dir.len() as int + 1;
    assert(s.skip(0) == s);
    assert forall|i: int| k <= i < s.len() implies s[i] != '/' by {
        assert(s[i] == name[i - k]);
    }
    lemma_tail_start_is(s, k);
    assert(s[0] == dir[0]);
    if dir.len() > 1 {
        assert(s[1] == dir[1]);
    } else {
        assert(!(dir =~= seq!['.']));
    }
    assert(lead(s) == 0);
    assert(s.skip(k) == name);
    assert(without_tail(s, 0) == dir);
    let dot = seq!['.'];
    assert(lead(dot) == 1);
    assert(settled(dot, 1) == dot);
}

proof fn lemma_lone_segment(name: Seq<char>)
    requires
        !idle(name),
        forall|i: int| 0 <= i < name.len() ==> name[i] != '/',
    ensures
        lead(name) == 0,
        tail_start_from(name, 0) == 0,
        settled(name, 0) == name,
{
    assert(name.skip(0) == name);
    lemma_tail_start_is(name, 0);
    if name.len() == 1 {
        assert(!(name =~= seq!['.']));
    }
}

} // verus!
