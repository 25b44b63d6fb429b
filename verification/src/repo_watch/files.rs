//! The files that commits have changed: in which order they are shown, and how much of their
//! patches.

use vstd::prelude::*;

use crate::json::{json_views, Json, JsonView};
use crate::text::width::{
    byte_count, byte_len, prefix_within, prefix_within_is_longest, safe_truncate,
};
use crate::text::{decimal, decimal_text, join, join_texts, text, views};

verus! {

/// The most bytes of patches that are shown: the model can only take so much.
pub const PATCH_BUDGET: usize = 12000;

/// How many lines of a file were changed.
pub open spec fn churn(file: JsonView) -> nat {
    file.at("additions"@).natural_or(0) as nat + file.at("deletions"@).natural_or(0) as nat
}

/// Whether the number of changed lines can be told.
pub open spec fn churn_fits(file: JsonView) -> bool {
    churn(file) <= u64::MAX
}

/// Whether the numbers of changed lines can be told.
pub open spec fn all_fit(files: Seq<JsonView>) -> bool {
    forall|i: int| 0 <= i < files.len() ==> churn_fits(#[trigger] files[i])
}

/// How many lines of a file were changed.
pub fn file_churn(file: &Json) -> (r: u64)
    requires
        churn_fits(file@),
    ensures
        r == churn(file@),
{
    file.at("additions").natural_or(0) + file.at("deletions").natural_or(0)
}

/// Whether the numbers of changed lines can be told.
pub fn churns_fit(files: &Vec<Json>) -> (r: bool)
    ensures
        r == all_fit(json_views(files@)),
{
    let ghost all = json_views(files@);
    let mut i: usize = 0;
    while i < files.len()
        invariant
            i <= files@.len(),
            all == json_views(files@),
            forall|j: int| 0 <= j < i ==> churn_fits(#[trigger] all[j]),
        decreases files@.len() - i,
    {
        assert(all[i as int] == files@[i as int]@);
        let additions = files[i].at("additions").natural_or(0);
        let deletions = files[i].at("deletions").natural_or(0);
        if additions > u64::MAX - deletions {
            assert(!churn_fits(all[i as int]));
            return false;
        }
        i += 1;
    }
    true
}

// ─── Order ──────────────────────────────────────────────────────────────────

/// Where a file goes among files that are in order: behind all that have at least as many changed
/// lines.
pub open spec fn place_in(sorted: Seq<JsonView>, file: JsonView) -> int
    decreases sorted.len(),
{
    if sorted.len() == 0 || churn(sorted.last()) >= churn(file) {
        sorted.len() as int
    } else {
        place_in(sorted.drop_last(), file)
    }
}

/// The files, most changed first; among equals the earlier one comes first.
pub open spec fn by_churn(files: Seq<JsonView>) -> Seq<JsonView>
    decreases files.len(),
{
    if files.len() == 0 {
        Seq::empty()
    } else {
        let sorted = by_churn(files.drop_last());
        sorted.insert(place_in(sorted, files.last()), files.last())
    }
}

/// Whether no file has more changed lines than one before it.
pub open spec fn descending(files: Seq<JsonView>) -> bool {
    forall|i: int, j: int|
        0 <= i < j < files.len() ==> churn(#[trigger] files[i]) >= churn(#[trigger] files[j])
}

/// The files with exactly `n` changed lines, in their order.
pub open spec fn with_churn(files: Seq<JsonView>, n: nat) -> Seq<JsonView>
    decreases files.len(),
{
    if files.len() == 0 {
        Seq::empty()
    } else if churn(files.last()) == n {
        with_churn(files.drop_last(), n).push(files.last())
    } else {
        with_churn(files.drop_last(), n)
    }
}

proof fn place_in_bounds(sorted: Seq<JsonView>, file: JsonView)
    ensures
        0 <= place_in(sorted, file) <= sorted.len(),
        forall|i: int|
            place_in(sorted, file) <= i < sorted.len() ==> churn(#[trigger] sorted[i]) < churn(
                file,
            ),
        place_in(sorted, file) > 0 ==> churn(sorted[place_in(sorted, file) - 1]) >= churn(file),
    decreases sorted.len(),
{
    if sorted.len() > 0 && churn(sorted.last()) < churn(file) {
        let head = sorted.drop_last();
        place_in_bounds(head, file);
        assert forall|i: int| place_in(sorted, file) <= i < sorted.len() implies churn(
            #[trigger] sorted[i],
        ) < churn(file) by {
            if i < head.len() {
                assert(head[i] == sorted[i]);
            }
        }
        if place_in(sorted, file) > 0 {
            assert(head[place_in(sorted, file) - 1] == sorted[place_in(sorted, file) - 1]);
        }
    }
}

/// The order is by changed lines, most first.
pub proof fn order_is_descending(files: Seq<JsonView>)
    ensures
        descending(by_churn(files)),
        by_churn(files).len() == files.len(),
    decreases files.len(),
{
    if files.len() > 0 {
        order_is_descending(files.drop_last());
        let sorted = by_churn(files.drop_last());
        let file = files.last();
        place_in_bounds(sorted, file);
        let at = place_in(sorted, file);
        let all = sorted.insert(at, file);
        assert forall|i: int, j: int| 0 <= i < j < all.len() implies churn(
            #[trigger] all[i],
        ) >= churn(#[trigger] all[j]) by {
            let a = if i < at {
                sorted[i]
            } else if i == at {
                file
            } else {
                sorted[i - 1]
            };
            let b = if j < at {
                sorted[j]
            } else if j == at {
                file
            } else {
                sorted[j - 1]
            };
            assert(all[i] == a);
            assert(all[j] == b);
            if j == at {
                if i < at - 1 {
                    assert(churn(sorted[i]) >= churn(sorted[at - 1]));
                }
            }
        }
    }
}

/// Ordering neither adds nor drops a file.
pub proof fn order_keeps_the_files(files: Seq<JsonView>)
    ensures
        by_churn(files).to_multiset() == files.to_multiset(),
    decreases files.len(),
{
    broadcast use vstd::seq_lib::group_to_multiset_ensures;

    if files.len() > 0 {
        order_keeps_the_files(files.drop_last());
        let sorted = by_churn(files.drop_last());
        let file = files.last();
        place_in_bounds(sorted, file);
        assert(files =~= files.drop_last().push(file));
        assert(sorted.insert(place_in(sorted, file), file).to_multiset()
            =~= sorted.to_multiset().insert(file));
    }
}

proof fn with_churn_insert(sorted: Seq<JsonView>, file: JsonView, n: nat)
    ensures
        with_churn(sorted.insert(place_in(sorted, file), file), n) == if churn(file) == n {
            with_churn(sorted, n).push(file)
        } else {
            with_churn(sorted, n)
        },
    decreases sorted.len(),
{
    place_in_bounds(sorted, file);
    let at = place_in(sorted, file);
    let all = sorted.insert(at, file);
    if at == sorted.len() {
        assert(all =~= sorted.push(file));
        assert(all.drop_last() =~= sorted);
    } else {
        let head = sorted.drop_last();
        place_in_bounds(head, file);
        with_churn_insert(head, file, n);
        assert(all.last() == sorted.last());
        assert(all.drop_last() =~= head.insert(at, file));
    }
}

/// Among files with as many changed lines, the order is the one they came in.
pub proof fn order_is_stable(files: Seq<JsonView>, n: nat)
    ensures
        with_churn(by_churn(files), n) == with_churn(files, n),
    decreases files.len(),
{
    if files.len() > 0 {
        order_is_stable(files.drop_last(), n);
        with_churn_insert(by_churn(files.drop_last()), files.last(), n);
    }
}

/// Where a file goes among files that are in order.
fn find_place(sorted: &Vec<Json>, file: &Json) -> (r: usize)
    requires
        all_fit(json_views(sorted@)),
        churn_fits(file@),
    ensures
        r == place_in(json_views(sorted@), file@),
{
    let ghost all = json_views(sorted@);
    let own = file_churn(file);
    let mut at: usize = sorted.len();
    assert(all.take(at as int) =~= all);
    while at > 0
        invariant
            at <= sorted@.len(),
            all == json_views(sorted@),
            all_fit(all),
            own == churn(file@),
            place_in(all, file@) == place_in(all.take(at as int), file@),
        decreases at,
    {
        assert(all[at - 1] == sorted@[at - 1]@);
        assert(all.take(at as int).last() == all[at - 1]);
        if file_churn(&sorted[at - 1]) >= own {
            return at;
        }
        assert(all.take(at as int).drop_last() =~= all.take(at - 1));
        at -= 1;
    }
    at
}

/// The files, most changed first.
pub fn sort_by_churn(files: &Vec<Json>) -> (r: Vec<Json>)
    requires
        all_fit(json_views(files@)),
    ensures
        json_views(r@) == by_churn(json_views(files@)),
{
    let ghost all = json_views(files@);
    let mut out: Vec<Json> = Vec::new();
    let mut i: usize = 0;
    assert(json_views(out@) =~= by_churn(all.take(0)));
    proof {
        order_is_descending(all.take(0));
    }
    while i < files.len()
        invariant
            i <= files@.len(),
            all == json_views(files@),
            all_fit(all),
            json_views(out@) == by_churn(all.take(i as int)),
            out@.len() == i,
            all_fit(json_views(out@)),
        decreases files@.len() - i,
    {
        let ghost before = json_views(out@);
        assert(all.take(i + 1).drop_last() =~= all.take(i as int));
        assert(all[i as int] == files@[i as int]@);
        let at = find_place(&out, &files[i]);
        proof {
            place_in_bounds(before, all[i as int]);
        }
        out.insert(at, files[i].copy());
        assert(json_views(out@) =~= before.insert(at as int, all[i as int]));
        i += 1;
        assert forall|j: int| 0 <= j < json_views(out@).len() implies churn_fits(
            #[trigger] json_views(out@)[j],
        ) by {
            if j < at {
                assert(json_views(out@)[j] == before[j]);
            } else if j > at {
                assert(json_views(out@)[j] == before[j - 1]);
            } else {
                assert(json_views(out@)[j] == all[i - 1]);
            }
        }
    }
    assert(all.take(i as int) =~= all);
    out
}

// ─── Lines ──────────────────────────────────────────────────────────────────

/// One line on a changed file.
pub open spec fn file_stat(file: JsonView) -> Seq<char> {
    "- "@ + file.at("filename"@).text_or(""@) + " ("@ + file.at("status"@).text_or(""@) + ", +"@
        + decimal(file.at("additions"@).natural_or(0) as nat) + "/-"@ + decimal(
        file.at("deletions"@).natural_or(0) as nat,
    ) + ")"@
}

/// The lines on changed files.
pub open spec fn file_stats(files: Seq<JsonView>) -> Seq<char> {
    join(files.map_values(|file: JsonView| file_stat(file)), "\n"@)
}

/// One line on a changed file.
pub fn format_file_stat(file: &Json) -> (r: String)
    ensures
        r@ == file_stat(file@),
{
    let mut out = text("- ");
    out.append(file.at("filename").text_or(""));
    out.append(" (");
    out.append(file.at("status").text_or(""));
    out.append(", +");
    let additions = decimal_text(file.at("additions").natural_or(0));
    out.append(additions.as_str());
    out.append("/-");
    let deletions = decimal_text(file.at("deletions").natural_or(0));
    out.append(deletions.as_str());
    out.append(")");
    out
}

/// The lines on changed files.
pub fn list_stats(files: &Vec<Json>) -> (r: String)
    ensures
        r@ == file_stats(json_views(files@)),
{
    let ghost all = json_views(files@).map_values(|file: JsonView| file_stat(file));
    let mut lines: Vec<String> = Vec::new();
    let mut i: usize = 0;
    assert(views(lines@) =~= all.take(0));
    while i < files.len()
        invariant
            i <= files@.len(),
            all == json_views(files@).map_values(|file: JsonView| file_stat(file)),
            views(lines@) == all.take(i as int),
        decreases files@.len() - i,
    {
        let ghost before = views(lines@);
        lines.push(format_file_stat(&files[i]));
        assert(all[i as int] == file_stat(files@[i as int]@));
        assert(views(lines@) =~= before.push(all[i as int]));
        i += 1;
        assert(views(lines@) =~= all.take(i as int));
    }
    assert(all.take(i as int) =~= all);
    join_texts(&lines, "\n")
}

// ─── Patches ────────────────────────────────────────────────────────────────

/// What is shown of patches: the pieces, how many bytes may still be shown, and how many patches
/// were left out.
#[verifier::ext_equal]
pub struct Rendered {
    pub pieces: Seq<Seq<char>>,
    pub remaining: nat,
    pub omitted: nat,
}

/// A patch under the name of its file.
pub open spec fn patch_block(name: Seq<char>, patch: Seq<char>) -> Seq<char> {
    "### "@ + name + "\n```diff\n"@ + patch + "\n```"@
}

/// What is shown of the patches of `files`: as much of each as the bytes that are left allow; once
/// none is left, patches are only counted.
pub open spec fn rendered(files: Seq<JsonView>) -> Rendered
    decreases files.len(),
{
    if files.len() == 0 {
        Rendered { pieces: Seq::empty(), remaining: PATCH_BUDGET as nat, omitted: 0 }
    } else {
        let head = rendered(files.drop_last());
        match files.last().at("patch"@).text() {
            None => head,
            Some(patch) => if head.remaining == 0 {
                Rendered { omitted: head.omitted + 1, ..head }
            } else {
                let shown = prefix_within(patch, head.remaining);
                Rendered {
                    pieces: head.pieces.push(
                        patch_block(files.last().at("filename"@).text_or(""@), shown),
                    ),
                    remaining: (head.remaining - byte_len(shown)) as nat,
                    omitted: head.omitted,
                }
            },
        }
    }
}

/// How many bytes of patches are shown.
pub open spec fn patch_bytes(files: Seq<JsonView>) -> nat
    decreases files.len(),
{
    if files.len() == 0 {
        0
    } else {
        let head = rendered(files.drop_last());
        patch_bytes(files.drop_last()) + match files.last().at("patch"@).text() {
            None => 0,
            Some(patch) => if head.remaining == 0 {
                0
            } else {
                byte_len(prefix_within(patch, head.remaining))
            },
        }
    }
}

/// The patches that are shown stay within the budget, whatever the files.
pub proof fn patches_stay_in_budget(files: Seq<JsonView>)
    ensures
        patch_bytes(files) + rendered(files).remaining == PATCH_BUDGET,
        patch_bytes(files) <= PATCH_BUDGET,
    decreases files.len(),
{
    if files.len() > 0 {
        patches_stay_in_budget(files.drop_last());
        let head = rendered(files.drop_last());
        match files.last().at("patch"@).text() {
            None => {},
            Some(patch) => {
                prefix_within_is_longest(patch, head.remaining);
            },
        }
    }
}

/// How many of the files have a patch.
pub open spec fn patched(files: Seq<JsonView>) -> nat
    decreases files.len(),
{
    if files.len() == 0 {
        0
    } else {
        patched(files.drop_last()) + if files.last().at("patch"@).text() is Some {
            1nat
        } else {
            0nat
        }
    }
}

/// No patch is passed over: each is shown, at least in part, or counted as left out.
pub proof fn patches_are_shown_or_counted(files: Seq<JsonView>)
    ensures
        rendered(files).pieces.len() + rendered(files).omitted == patched(files),
    decreases files.len(),
{
    if files.len() > 0 {
        patches_are_shown_or_counted(files.drop_last());
    }
}

/// Renders the patches of `files` within the budget: the text, and how many patches are left out.
pub fn render_patches(files: &Vec<Json>) -> (r: (String, usize))
    ensures
        r.0@ == join(rendered(json_views(files@)).pieces, "\n\n"@),
        r.1 == rendered(json_views(files@)).omitted,
{
    let ghost all = json_views(files@);
    let mut remaining: usize = PATCH_BUDGET;
    let mut pieces: Vec<String> = Vec::new();
    let mut omitted: usize = 0;
    let mut i: usize = 0;
    assert(all.take(0) =~= Seq::empty());
    assert(views(pieces@) =~= Seq::empty());
    while i < files.len()
        invariant
            i <= files.len(),
            all == json_views(files@),
            views(pieces@) == rendered(all.take(i as int)).pieces,
            remaining == rendered(all.take(i as int)).remaining,
            omitted == rendered(all.take(i as int)).omitted,
            omitted <= i,
        decreases files@.len() - i,
    {
        let ghost before = views(pieces@);
        assert(all.take(i + 1).drop_last() =~= all.take(i as int));
        assert(all[i as int] == files@[i as int]@);
        match files[i].at("patch").as_text() {
            None => {},
            Some(patch) => if remaining == 0 {
                omitted += 1;
            } else {
                let shown = safe_truncate(patch, remaining);
                proof {
                    prefix_within_is_longest(patch@, remaining as nat);
                }
                remaining -= byte_count(shown.as_str());
                let mut piece = text("### ");
                piece.append(files[i].at("filename").text_or(""));
                piece.append("\n```diff\n");
                piece.append(shown.as_str());
                piece.append("\n```");
                let ghost added = piece@;
                pieces.push(piece);
                assert(views(pieces@) =~= before.push(added));
            },
        }
        i += 1;
    }
    assert(all.take(i as int) =~= all);
    (join_texts(&pieces, "\n\n"), omitted)
}

} // verus!
