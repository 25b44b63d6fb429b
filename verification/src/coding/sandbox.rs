//! The workspace that the tools are confined to: where a path leads, and what is shown of what is
//! there.

use vstd::prelude::*;

use crate::text::lines::{lines, lines_of};
use crate::text::search::{pieces_lack_separator, split, split_text};
use crate::text::width::{
    byte_len, longer_than, prefix_within, safe_truncate, prefix_within_is_longest,
};
use crate::text::{
    bytes_text, count_text, decimal, decimal_text, join, join_texts, lossy_text, opt_view, outcome,
    prefixed, same, text, views,
};

verus! {

/// The most bytes of a text that are shown to the model.
pub const MAX_OUTPUT_BYTES: usize = 65536;

/// How long a command may run where nothing is said, in seconds.
pub const DEFAULT_TIMEOUT_S: u64 = 120;

/// Result of running a command inside a sandbox.
#[derive(Debug, Clone)]
pub struct ExecResult {
    pub stdout: String,
    pub stderr: String,
    pub exit_code: i32,
}

/// What the result of a command holds.
#[verifier::ext_equal]
pub struct ExecView {
    pub stdout: Seq<char>,
    pub stderr: Seq<char>,
    pub exit_code: i32,
}

impl View for ExecResult {
    type V = ExecView;

    open spec fn view(&self) -> ExecView {
        ExecView { stdout: self.stdout@, stderr: self.stderr@, exit_code: self.exit_code }
    }
}

/// `s`, cut where it is longer than what is shown.
pub open spec fn truncated(s: Seq<char>) -> Seq<char> {
    if byte_len(s) > MAX_OUTPUT_BYTES {
        prefix_within(s, MAX_OUTPUT_BYTES as nat) + "\n…[output truncated]"@
    } else {
        s
    }
}

/// `s`, cut after its last whole character within the limit, and marked, where it is too long.
pub fn truncate(s: String) -> (r: String)
    ensures
        r@ == truncated(s@),
{
    if longer_than(s.as_str(), MAX_OUTPUT_BYTES) {
        let mut out = safe_truncate(s.as_str(), MAX_OUTPUT_BYTES);
        out.append("\n…[output truncated]");
        out
    } else {
        s
    }
}

/// Up to the limit, output is shown whole; beyond it, a beginning of it within the limit is shown,
/// to which no character could be added, and the mark.
pub proof fn truncation_keeps_a_beginning(s: Seq<char>)
    ensures
        byte_len(s) <= MAX_OUTPUT_BYTES ==> truncated(s) == s,
        byte_len(s) > MAX_OUTPUT_BYTES ==> exists|n: int|
            {
                &&& 0 <= n < s.len()
                &&& truncated(s) == #[trigger] s.take(n) + "\n…[output truncated]"@
                &&& byte_len(s.take(n)) <= MAX_OUTPUT_BYTES
                &&& byte_len(s.take(n + 1)) > MAX_OUTPUT_BYTES
            },
{
    if byte_len(s) > MAX_OUTPUT_BYTES {
        let kept = prefix_within(s, MAX_OUTPUT_BYTES as nat);
        let n = kept.len() as int;
        prefix_within_is_longest(s, MAX_OUTPUT_BYTES as nat);
        assert(s.take(s.len() as int) =~= s);
        assert(byte_len(s.take(n + 1)) > MAX_OUTPUT_BYTES);
        assert(truncated(s) == s.take(n) + "\n…[output truncated]"@);
    }
}

// ─── Paths ──────────────────────────────────────────────────────────────────

/// The names that lead below the root after one more component of a path; none where it leads
/// above the root.
pub open spec fn walked(names: Seq<Seq<char>>, component: Seq<char>) -> Option<Seq<Seq<char>>> {
    if component == ".."@ {
        if names.len() == 0 {
            None
        } else {
            Some(names.drop_last())
        }
    } else if component.len() == 0 || component == "."@ {
        Some(names)
    } else {
        Some(names.push(component))
    }
}

/// The names that lead below the root along the components of a path; none where any of them
/// leads above the root.
pub open spec fn walk(components: Seq<Seq<char>>) -> Option<Seq<Seq<char>>>
    decreases components.len(),
{
    if components.len() == 0 {
        Some(Seq::empty())
    } else {
        match walk(components.drop_last()) {
            Some(names) => walked(names, components.last()),
            None => None,
        }
    }
}

/// Whether a path begins at the root of the file system.
pub open spec fn is_absolute(path: Seq<char>) -> bool {
    path.len() > 0 && path[0] == '/'
}

/// `base` with one more name below it.
pub open spec fn beneath(base: Seq<char>, name: Seq<char>) -> Seq<char> {
    if base.len() > 0 && base.last() == '/' {
        base + name
    } else {
        base + "/"@ + name
    }
}

/// The path that `names` lead to from `root`.
pub open spec fn place(root: Seq<char>, names: Seq<Seq<char>>) -> Seq<char>
    decreases names.len(),
{
    if names.len() == 0 {
        root
    } else {
        beneath(place(root, names.drop_last()), names.last())
    }
}

/// The names that a relative path leads along from the root, or why it is refused.
pub open spec fn names_in(rel: Seq<char>) -> Result<Seq<Seq<char>>, Seq<char>> {
    if is_absolute(rel) {
        Err("absolute path '"@ + rel + "' is not allowed; use a relative path"@)
    } else {
        match walk(split(rel, "/"@)) {
            Some(names) => Ok(names),
            None => Err("path '"@ + rel + "' escapes the workspace"@),
        }
    }
}

/// Where a relative path leads from `root`, or why it is refused.
pub open spec fn resolved(root: Seq<char>, rel: Seq<char>) -> Result<Seq<char>, Seq<char>> {
    match names_in(rel) {
        Ok(names) => Ok(place(root, names)),
        Err(e) => Err(e),
    }
}

/// A workspace directory on this machine.
#[derive(Debug, Clone)]
pub struct LocalSandbox {
    /// The directory, as an absolute path without links.
    pub root: String,
}

/// What was found at the place of a workspace: its absolute path without links and whether it is
/// a directory, or why it could not be looked at.
pub struct Found {
    pub canonical: String,
    pub is_dir: bool,
}

/// The sandbox at `root`, given what was found there, or why there is none.
pub open spec fn rooted(root: Seq<char>, found: Result<Found, String>) -> Result<
    Seq<char>,
    Seq<char>,
> {
    match found {
        Err(e) => Err("workspace root '"@ + root + "' is not accessible: "@ + e@),
        Ok(f) => if f.is_dir {
            Ok(f.canonical@)
        } else {
            Err("workspace root '"@ + root + "' is not a directory"@)
        },
    }
}

/// The names that lead below the root along a relative path.
fn walk_path(components: &Vec<String>) -> (r: Option<Vec<String>>)
    ensures
        match r {
            Some(names) => walk(views(components@)) == Some(views(names@)),
            None => walk(views(components@)) is None,
        },
{
    let ghost all = views(components@);
    let mut names: Vec<String> = Vec::new();
    let mut i: usize = 0;
    assert(views(names@) =~= Seq::empty());
    while i < components.len()
        invariant
            i <= components@.len(),
            all == views(components@),
            walk(all.take(i as int)) == Some(views(names@)),
        decreases components@.len() - i,
    {
        let ghost before = views(names@);
        assert(before.len() == names@.len());
        assert(all.take(i + 1).drop_last() =~= all.take(i as int));
        assert(all.take(i + 1).last() == components@[i as int]@);
        let component = components[i].as_str();
        if same(component, "..") {
            if names.len() == 0 {
                proof {
                    walk_stays_none(all, i + 1);
                }
                return None;
            }
            names.pop();
            assert(views(names@) =~= before.drop_last());
        } else if !component.is_empty() && !same(component, ".") {
            names.push(text(component));
            assert(views(names@) =~= before.push(component@));
        }
        i += 1;
    }
    assert(all.take(i as int) =~= all);
    Some(names)
}

/// The names that a relative path leads along from the root, or why it is refused.
pub fn names_below(rel: &str) -> (r: Result<Vec<String>, String>)
    ensures
        match r {
            Ok(names) => names_in(rel@) == Ok::<Seq<Seq<char>>, Seq<char>>(views(names@)),
            Err(e) => names_in(rel@) == Err::<Seq<Seq<char>>, Seq<char>>(e@),
        },
{
    let c = crate::text::chars(rel);
    if c.len() > 0 && c[0] == '/' {
        let mut out = text("absolute path '");
        out.append(rel);
        out.append("' is not allowed; use a relative path");
        return Err(out);
    }
    proof {
        reveal_strlit("/");
    }
    let components = split_text(rel, "/");
    match walk_path(&components) {
        Some(names) => Ok(names),
        None => {
            let mut out = text("path '");
            out.append(rel);
            out.append("' escapes the workspace");
            Err(out)
        },
    }
}

/// The path that `names` lead to from `root`.
fn place_at(root: &str, names: &Vec<String>) -> (r: String)
    ensures
        r@ == place(root@, views(names@)),
{
    let ghost all = views(names@);
    let mut out = text(root);
    let mut i: usize = 0;
    while i < names.len()
        invariant
            i <= names@.len(),
            all == views(names@),
            out@ == place(root@, all.take(i as int)),
        decreases names@.len() - i,
    {
        assert(all.take(i + 1).drop_last() =~= all.take(i as int));
        let c = crate::text::chars(out.as_str());
        if c.len() == 0 || c[c.len() - 1] != '/' {
            out.append("/");
        }
        out.append(names[i].as_str());
        i += 1;
    }
    assert(all.take(i as int) =~= all);
    out
}

impl LocalSandbox {
    /// A sandbox rooted at `root`, which must exist and be a directory; `found` is what was found
    /// there.
    pub fn new(root: &str, found: Result<Found, String>) -> (r: Result<Self, String>)
        ensures
            match r {
                Ok(sandbox) => rooted(root@, found) == Ok::<Seq<char>, Seq<char>>(sandbox.root@),
                Err(e) => rooted(root@, found) == Err::<Seq<char>, Seq<char>>(e@),
            },
    {
        match found {
            Err(e) => {
                let mut out = text("workspace root '");
                out.append(root);
                out.append("' is not accessible: ");
                out.append(e.as_str());
                Err(out)
            },
            Ok(f) => if f.is_dir {
                Ok(LocalSandbox { root: f.canonical })
            } else {
                let mut out = text("workspace root '");
                out.append(root);
                out.append("' is not a directory");
                Err(out)
            },
        }
    }

    /// Resolves a relative path against the root, rejecting anything that escapes it. This looks
    /// at the text of the path only, so that it also holds of paths at which nothing is yet.
    pub fn resolve(&self, rel: &str) -> (r: Result<String, String>)
        ensures
            outcome(r) == resolved(self.root@, rel@),
    {
        match names_below(rel) {
            Ok(names) => Ok(place_at(self.root.as_str(), &names)),
            Err(e) => Err(e),
        }
    }
}

/// Once a path has led above the root, nothing leads it back.
proof fn walk_stays_none(components: Seq<Seq<char>>, i: int)
    requires
        0 <= i <= components.len(),
        walk(components.take(i)) is None,
    ensures
        walk(components) is None,
    decreases components.len() - i,
{
    if i < components.len() {
        assert(components.take(i + 1).drop_last() =~= components.take(i));
        walk_stays_none(components, i + 1);
    } else {
        assert(components.take(i) =~= components);
    }
}

/// How far below the root the components lead, counted as if nothing kept them there.
pub open spec fn depth(components: Seq<Seq<char>>) -> int
    decreases components.len(),
{
    if components.len() == 0 {
        0
    } else {
        depth(components.drop_last()) + if components.last() == ".."@ {
            -1int
        } else if components.last().len() == 0 || components.last() == "."@ {
            0int
        } else {
            1int
        }
    }
}

/// Whether some first part of the components leads above the root.
pub open spec fn climbs_out(components: Seq<Seq<char>>) -> bool {
    exists|i: int| 0 <= i <= components.len() && depth(#[trigger] components.take(i)) < 0
}

/// A path is refused exactly where one of its first parts leads above the root: a `..` that stays
/// within is fine.
pub proof fn escape_is_refused(components: Seq<Seq<char>>)
    ensures
        walk(components) is None <==> climbs_out(components),
        walk(components) matches Some(names) ==> names.len() == depth(components),
    decreases components.len(),
{
    assert(components.take(components.len() as int) =~= components);
    if components.len() == 0 {
        assert forall|i: int| 0 <= i <= components.len() implies depth(
            #[trigger] components.take(i),
        ) >= 0 by {
            assert(components.take(i) =~= components);
        }
    } else {
        let head = components.drop_last();
        escape_is_refused(head);
        if climbs_out(head) {
            let i = choose|i: int| 0 <= i <= head.len() && depth(#[trigger] head.take(i)) < 0;
            assert(components.take(i) =~= head.take(i));
        } else if walk(components) is None {
            assert(depth(components.take(components.len() as int)) < 0);
        } else {
            assert forall|i: int| 0 <= i <= components.len() implies depth(
                #[trigger] components.take(i),
            ) >= 0 by {
                if i < components.len() {
                    assert(components.take(i) =~= head.take(i));
                }
            }
        }
    }
}

/// A name that leads one level down, and nowhere else.
pub open spec fn plain_name(name: Seq<char>) -> bool {
    &&& name.len() > 0
    &&& name != "."@
    &&& name != ".."@
    &&& forall|k: int| 0 <= k < name.len() ==> #[trigger] name[k] != '/'
}

/// Where a path is let through, it leads from the root to a place at or below it: the root,
/// followed by plain names only.
pub proof fn paths_stay_inside(root: Seq<char>, rel: Seq<char>)
    ensures
        resolved(root, rel) matches Ok(path) ==> exists|names: Seq<Seq<char>>|
            {
                &&& path == #[trigger] place(root, names)
                &&& forall|i: int| 0 <= i < names.len() ==> plain_name(#[trigger] names[i])
            },
        resolved(root, rel) matches Ok(path) ==> root.is_prefix_of(path),
{
    match walk(split(rel, "/"@)) {
        Some(names) => {
            reveal_strlit("/");
            assert("/"@ =~= seq!['/']);
            pieces_lack_separator(rel, '/', 0);
            names_are_plain(split(rel, "/"@));
            place_extends(root, names);
        },
        None => {},
    }
}

proof fn names_are_plain(components: Seq<Seq<char>>)
    requires
        forall|i: int, k: int|
            0 <= i < components.len() && 0 <= k < components[i].len()
                ==> #[trigger] components[i][k] != '/',
    ensures
        walk(components) matches Some(names) ==> forall|i: int|
            0 <= i < names.len() ==> plain_name(#[trigger] names[i]),
    decreases components.len(),
{
    if components.len() > 0 {
        let head = components.drop_last();
        assert forall|i: int, k: int|
            0 <= i < head.len() && 0 <= k < head[i].len() implies #[trigger] head[i][k] != '/' by {
            assert(components[i][k] != '/');
        }
        names_are_plain(head);
        let last = components.last();
        assert forall|k: int| 0 <= k < last.len() implies #[trigger] last[k] != '/' by {
            assert(components[components.len() - 1][k] != '/');
        }
    }
}

proof fn place_extends(root: Seq<char>, names: Seq<Seq<char>>)
    ensures
        root.is_prefix_of(place(root, names)),
    decreases names.len(),
{
    if names.len() > 0 {
        place_extends(root, names.drop_last());
        let base = place(root, names.drop_last());
        let path = place(root, names);
        assert(root =~= path.take(root.len() as int)) by {
            assert(root =~= base.take(root.len() as int));
        }
    } else {
        assert(root =~= root.take(root.len() as int));
    }
}

// ─── Files ──────────────────────────────────────────────────────────────────

/// A line with its number in front.
pub open spec fn numbered(line: Seq<char>, number: nat) -> Seq<char> {
    decimal(number) + "\t"@ + line
}

/// The lines from number `first` to number `last`, each with its number; lines count from one.
pub open spec fn numbered_range(all: Seq<Seq<char>>, first: nat, last: nat) -> Seq<Seq<char>> {
    let low = if first < 1 {
        1
    } else {
        first
    };
    let high = if last < all.len() {
        last
    } else {
        all.len()
    };
    Seq::new(
        if low <= high {
            (high - low + 1) as nat
        } else {
            0
        },
        |i: int| numbered(all[low + i - 1], (low + i) as nat),
    )
}

/// Whether `shown` is a line of the range, under its number.
pub open spec fn is_line_of(
    shown: Seq<char>,
    all: Seq<Seq<char>>,
    first: nat,
    last: nat,
) -> bool {
    exists|n: nat|
        1 <= n && first <= n <= last && n <= all.len() && shown == #[trigger] numbered(
            all[n - 1],
            n,
        )
}

/// A range shows each of its lines that there is, under its number, and nothing else.
pub proof fn range_shows_its_lines(all: Seq<Seq<char>>, first: nat, last: nat)
    ensures
        forall|n: nat|
            1 <= n && first <= n <= last && n <= all.len() ==> numbered_range(
                all,
                first,
                last,
            ).contains(#[trigger] numbered(all[n - 1], n)),
        forall|k: int|
            0 <= k < numbered_range(all, first, last).len() ==> is_line_of(
                #[trigger] numbered_range(all, first, last)[k],
                all,
                first,
                last,
            ),
{
    let low: nat = if first < 1 {
        1
    } else {
        first
    };
    let shown = numbered_range(all, first, last);
    assert forall|n: nat| 1 <= n && first <= n <= last && n <= all.len() implies shown.contains(
        #[trigger] numbered(all[n - 1], n),
    ) by {
        assert(shown[n - low] == numbered(all[n - 1], n));
    }
    assert forall|k: int| 0 <= k < shown.len() implies is_line_of(
        #[trigger] shown[k],
        all,
        first,
        last,
    ) by {
        let n = (low + k) as nat;
        assert(numbered(all[n - 1], n) == shown[k]);
    }
}

/// What is shown of a file: the lines in the range, or all of them, with their numbers.
pub open spec fn file_shown(content: Seq<char>, range: Option<(usize, usize)>) -> Seq<char> {
    let all = lines(content);
    truncated(
        join(
            match range {
                Some((first, last)) => numbered_range(all, first as nat, last as nat),
                None => numbered_range(all, 1, all.len()),
            },
            "\n"@,
        ),
    )
}

/// What is shown of a file. `range` is an inclusive range of lines, counted from one.
pub fn show_file(content: &str, range: Option<(usize, usize)>) -> (r: String)
    ensures
        r@ == file_shown(content@, range),
{
    let all = lines_of(content);
    let ghost every = lines(content@);
    assert(every.len() == all@.len());
    let (first, last): (usize, usize) = match range {
        Some((first, last)) => (first, last),
        None => (1, all.len()),
    };
    let low: usize = if first < 1 {
        1
    } else {
        first
    };
    let high: usize = if last < all.len() {
        last
    } else {
        all.len()
    };
    let mut shown: Vec<String> = Vec::new();
    let ghost wanted = numbered_range(every, first as nat, last as nat);
    assert(views(shown@) =~= wanted.take(0));
    if low <= high {
        let mut n: usize = low - 1;
        while n < high
            invariant
                1 <= low <= high <= all@.len(),
                low - 1 <= n <= high,
                every == views(all@),
                wanted.len() == high - low + 1,
                forall|i: int|
                    0 <= i < wanted.len() ==> #[trigger] wanted[i] == numbered(
                        every[low + i - 1],
                        (low + i) as nat,
                    ),
                views(shown@) == wanted.take(n - (low - 1)),
            decreases high - n,
        {
            let ghost before = views(shown@);
            let mut line = count_text(n + 1);
            line.append("\t");
            line.append(all[n].as_str());
            let ghost added = line@;
            shown.push(line);
            assert(added == wanted[n - (low - 1)]);
            assert(views(shown@) =~= before.push(added));
            n += 1;
            assert(views(shown@) =~= wanted.take(n - (low - 1)));
        }
    }
    assert(wanted.take(wanted.len() as int) =~= wanted);
    assert(views(shown@) =~= wanted);
    truncate(join_texts(&shown, "\n"))
}

/// The message of a step on the file at `path` that went wrong.
pub open spec fn file_error(step: Seq<char>, path: Seq<char>, reason: Seq<char>) -> Seq<char> {
    step + " '"@ + path + "': "@ + reason
}

/// The message of a step on the file at `path` that went wrong.
pub fn explain(step: &str, path: &str, reason: &str) -> (r: String)
    ensures
        r@ == file_error(step@, path@, reason@),
{
    let mut out = text(step);
    out.append(" '");
    out.append(path);
    out.append("': ");
    out.append(reason);
    out
}

// ─── Directories ────────────────────────────────────────────────────────────

/// One entry that was met below a directory.
#[derive(Debug)]
pub struct Entry {
    /// Its path from the root of the workspace; empty for the root itself.
    pub path: String,
    /// The name of the directory that is listed and the names from there down to the entry.
    pub names: Vec<String>,
    pub is_dir: bool,
}

/// A directory whose contents are not listed: version control and build products.
pub open spec fn is_noise_name(name: Seq<char>) -> bool {
    name == ".git"@ || name == "target"@ || name == "node_modules"@
}

/// Whether an entry is listed: neither it nor a directory that it was met under is noise.
pub open spec fn is_listed(entry: Entry) -> bool {
    &&& entry.path@.len() > 0
    &&& forall|i: int| 0 <= i < entry.names@.len() ==> !is_noise_name(#[trigger] entry.names@[i]@)
}

/// How an entry is listed: directories are marked.
pub open spec fn entry_line(entry: Entry) -> Seq<char> {
    entry.path@ + if entry.is_dir {
        "/"@
    } else {
        ""@
    }
}

/// The lines of a listing.
pub open spec fn listing(entries: Seq<Entry>) -> Seq<Seq<char>>
    decreases entries.len(),
{
    if entries.len() == 0 {
        Seq::empty()
    } else {
        let head = listing(entries.drop_last());
        if is_listed(entries.last()) {
            head.push(entry_line(entries.last()))
        } else {
            head
        }
    }
}

/// Whether `line` is the line of an entry that is listed.
pub open spec fn lists_entry(line: Seq<char>, entries: Seq<Entry>) -> bool {
    exists|i: int|
        0 <= i < entries.len() && is_listed(#[trigger] entries[i]) && line == entry_line(entries[i])
}

/// A listing has the line of every entry that is listed, and no other lines: what lies in a
/// directory of version control or build products is left out.
pub proof fn noise_is_left_out(entries: Seq<Entry>)
    ensures
        forall|k: int|
            0 <= k < listing(entries).len() ==> lists_entry(
                #[trigger] listing(entries)[k],
                entries,
            ),
        forall|i: int|
            0 <= i < entries.len() && is_listed(#[trigger] entries[i]) ==> listing(
                entries,
            ).contains(entry_line(entries[i])),
    decreases entries.len(),
{
    if entries.len() > 0 {
        let head = entries.drop_last();
        noise_is_left_out(head);
        let before = listing(head);
        let all = listing(entries);
        assert forall|k: int| 0 <= k < all.len() implies lists_entry(#[trigger] all[k], entries) by {
            if k < before.len() {
                assert(all[k] == before[k]);
                let i = choose|i: int|
                    0 <= i < head.len() && is_listed(#[trigger] head[i]) && before[k] == entry_line(
                        head[i],
                    );
                assert(entries[i] == head[i]);
            } else {
                assert(entries[entries.len() - 1] == entries.last());
            }
        }
        assert forall|i: int| 0 <= i < entries.len() && is_listed(#[trigger] entries[i]) implies {
            all.contains(entry_line(entries[i]))
        } by {
            if i < head.len() {
                assert(head[i] == entries[i]);
                let k = choose|k: int|
                    0 <= k < before.len() && before[k] == entry_line(head[i]);
                assert(all[k] == before[k]);
            } else {
                assert(all[before.len() as int] == entry_line(entries.last()));
            }
        }
    }
}

/// What is shown of a directory.
pub open spec fn directory_shown(path: Seq<char>, entries: Seq<Entry>) -> Seq<char> {
    if listing(entries).len() == 0 {
        "(empty) "@ + path
    } else {
        truncated(join(listing(entries), "\n"@))
    }
}

/// Whether a directory is left out of listings, with all that is below it.
pub fn is_noise(name: &str) -> (r: bool)
    ensures
        r == is_noise_name(name@),
{
    same(name, ".git") || same(name, "target") || same(name, "node_modules")
}

/// Whether an entry is listed.
fn lists(entry: &Entry) -> (r: bool)
    ensures
        r == is_listed(*entry),
{
    if entry.path.as_str().is_empty() {
        return false;
    }
    let mut i: usize = 0;
    while i < entry.names.len()
        invariant
            i <= entry.names@.len(),
            forall|j: int| 0 <= j < i ==> !is_noise_name(#[trigger] entry.names@[j]@),
        decreases entry.names@.len() - i,
    {
        if is_noise(entry.names[i].as_str()) {
            return false;
        }
        i += 1;
    }
    true
}

/// What is shown of the directory at `path`, given what was met below it, in order.
pub fn show_directory(path: &str, entries: &Vec<Entry>) -> (r: String)
    ensures
        r@ == directory_shown(path@, entries@),
{
    let mut shown: Vec<String> = Vec::new();
    let mut i: usize = 0;
    assert(views(shown@) =~= listing(entries@.take(0)));
    while i < entries.len()
        invariant
            i <= entries@.len(),
            views(shown@) == listing(entries@.take(i as int)),
        decreases entries@.len() - i,
    {
        let ghost before = views(shown@);
        assert(entries@.take(i + 1).drop_last() =~= entries@.take(i as int));
        if lists(&entries[i]) {
            let mut line = text(entries[i].path.as_str());
            if entries[i].is_dir {
                line.append("/");
            } else {
                line.append("");
            }
            let ghost added = line@;
            shown.push(line);
            assert(views(shown@) =~= before.push(added));
        }
        i += 1;
    }
    assert(entries@.take(i as int) =~= entries@);
    assert(views(shown@).len() == shown@.len());
    if shown.len() == 0 {
        let mut out = text("(empty) ");
        out.append(path);
        out
    } else {
        truncate(join_texts(&shown, "\n"))
    }
}

// ─── Commands ───────────────────────────────────────────────────────────────

/// How a command ended.
#[derive(Debug)]
pub enum Ended {
    /// It could not be started; the reason.
    NotStarted(String),
    /// It could not be waited for; the reason.
    Lost(String),
    /// It took longer than it may.
    TimedOut,
    /// It ran to its end; the code is missing where a signal ended it.
    Ran { stdout: Vec<u8>, stderr: Vec<u8>, code: Option<i32> },
}

/// How long a command may run.
pub open spec fn limit_of(timeout_s: Option<u64>) -> u64 {
    match timeout_s {
        Some(s) => s,
        None => DEFAULT_TIMEOUT_S,
    }
}

/// How long a command may run, in seconds.
pub fn time_limit(timeout_s: Option<u64>) -> (r: u64)
    ensures
        r == limit_of(timeout_s),
{
    match timeout_s {
        Some(s) => s,
        None => DEFAULT_TIMEOUT_S,
    }
}

/// The result of a command, given how it ended.
pub open spec fn ran(command: Seq<char>, timeout_s: Option<u64>, ended: Ended) -> Result<
    ExecView,
    Seq<char>,
> {
    match ended {
        Ended::NotStarted(e) => Err("spawn command failed: "@ + e@),
        Ended::Lost(e) => Err("command failed: "@ + e@),
        Ended::TimedOut => Err(
            "command timed out after "@ + decimal(limit_of(timeout_s) as nat) + "s: "@ + command,
        ),
        Ended::Ran { stdout, stderr, code } => Ok(
            ExecView {
                stdout: truncated(bytes_text(stdout@)),
                stderr: truncated(bytes_text(stderr@)),
                exit_code: match code {
                    Some(c) => c,
                    None => -1i32,
                },
            },
        ),
    }
}

/// The result of a command, given how it ended. Output is cut to what is shown.
pub fn exec_result(command: &str, timeout_s: Option<u64>, ended: Ended) -> (r: Result<
    ExecResult,
    String,
>)
    ensures
        match r {
            Ok(x) => ran(command@, timeout_s, ended) == Ok::<ExecView, Seq<char>>(x@),
            Err(e) => ran(command@, timeout_s, ended) == Err::<ExecView, Seq<char>>(e@),
        },
{
    match ended {
        Ended::NotStarted(e) => Err(prefixed("spawn command failed: ", e.as_str())),
        Ended::Lost(e) => Err(prefixed("command failed: ", e.as_str())),
        Ended::TimedOut => {
            let mut out = text("command timed out after ");
            let seconds = decimal_text(time_limit(timeout_s));
            out.append(seconds.as_str());
            out.append("s: ");
            out.append(command);
            Err(out)
        },
        Ended::Ran { stdout, stderr, code } => Ok(
            ExecResult {
                stdout: truncate(lossy_text(&stdout)),
                stderr: truncate(lossy_text(&stderr)),
                exit_code: match code {
                    Some(c) => c,
                    None => -1,
                },
            },
        ),
    }
}

// ─── Backends ───────────────────────────────────────────────────────────────

/// The root of the workspace that the environment asks for, or why there is none.
pub open spec fn workspace_root(
    mode: Option<Seq<char>>,
    workspace_dir: Option<Seq<char>>,
) -> Result<Seq<char>, Seq<char>> {
    let local = Ok::<Seq<char>, Seq<char>>(
        match workspace_dir {
            Some(dir) => dir,
            None => "."@,
        },
    );
    match mode {
        None => local,
        Some(m) => if m == "local"@ {
            local
        } else if m == "remote"@ {
            Err("SANDBOX_MODE=remote is not implemented yet (Phase 2)"@)
        } else {
            Err("unknown SANDBOX_MODE '"@ + m + "' (expected 'local' or 'remote')"@)
        },
    }
}

/// The root of the workspace that the environment asks for: `mode` is the kind of sandbox,
/// `local` where nothing is said, and `workspace_dir` the directory of a local one, `.` where
/// nothing is said. A remote sandbox is an error, so that a wrong setting does not run locally.
pub fn from_env(mode: Option<String>, workspace_dir: Option<String>) -> (r: Result<
    String,
    String,
>)
    ensures
        outcome(r) == workspace_root(opt_view(mode), opt_view(workspace_dir)),
{
    match mode {
        Some(m) => if !same(m.as_str(), "local") {
            return if same(m.as_str(), "remote") {
                Err(text("SANDBOX_MODE=remote is not implemented yet (Phase 2)"))
            } else {
                let mut out = text("unknown SANDBOX_MODE '");
                out.append(m.as_str());
                out.append("' (expected 'local' or 'remote')");
                Err(out)
            };
        },
        None => {},
    }
    match workspace_dir {
        Some(dir) => Ok(dir),
        None => Ok(text(".")),
    }
}

} // verus!
