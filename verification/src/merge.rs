//! The per-record join by name that copies screenshot links from the static
//! reference set onto network-sourced records.

use vstd::prelude::*;

use crate::model::Repo;
use crate::model::RepoView;
use crate::model::clone_repo;

verus! {

/// The screenshot the reference set supplies for `name`: that of the last
/// record named `name` that carries one, or nothing. (Later records shadow
/// earlier ones of the same name, and records without a screenshot are
/// ignored, as when collecting the pairs into a map.)
pub open spec fn screenshot_for(refs: Seq<RepoView>, name: Seq<char>) -> Option<Seq<char>>
    decreases refs.len(),
{
    if refs.len() == 0 {
        None
    } else if refs.last().name == name && refs.last().screenshot is Some {
        refs.last().screenshot
    } else {
        screenshot_for(refs.drop_last(), name)
    }
}

/// One record after the join: the screenshot is replaced when the reference
/// set supplies one for the record's name, and kept as it was otherwise.
pub open spec fn merge_one_view(r: RepoView, refs: Seq<RepoView>) -> RepoView {
    match screenshot_for(refs, r.name) {
        Some(s) => RepoView {
            name: r.name,
            description: r.description,
            html_url: r.html_url,
            language: r.language,
            stargazers_count: r.stargazers_count,
            updated_at: r.updated_at,
            screenshot: Some(s),
        },
        None => r,
    }
}

/// A whole batch after the join, record by record.
pub open spec fn merge_views(batch: Seq<RepoView>, refs: Seq<RepoView>) -> Seq<RepoView> {
    batch.map_values(|r: RepoView| merge_one_view(r, refs))
}

/// Finds the screenshot the reference set supplies for `name`, scanning from
/// the end so that later records shadow earlier ones.
pub fn lookup_screenshot(refs: &Vec<Repo>, name: &String) -> (found: Option<String>)
    ensures
        found.deep_view() == screenshot_for(refs.deep_view(), name@),
{
    let ghost all = refs.deep_view();
    let mut i: usize = refs.len();
    proof {
        assert(all.take(i as int) =~= all);
    }
    while i > 0
        invariant
            i <= refs.len(),
            all == refs.deep_view(),
            screenshot_for(all, name@) == screenshot_for(all.take(i as int), name@),
        decreases i,
    {
        i = i - 1;
        proof {
            assert(all.take(i + 1 as int).last() == all[i as int]);
            assert(all.take(i + 1 as int).drop_last() =~= all.take(i as int));
        }
        let entry = &refs[i];
        assert(entry.deep_view() == all[i as int]);
        if entry.name == *name {
            if let Some(s) = &entry.screenshot {
                return Some(s.clone());
            }
        }
    }
    assert(all.take(0) =~= Seq::<RepoView>::empty());
    None
}

/// One record with the screenshot merged in from the reference set.
pub fn merge_repo(r: &Repo, refs: &Vec<Repo>) -> (out: Repo)
    ensures
        out.deep_view() == merge_one_view(r.deep_view(), refs.deep_view()),
{
    let found = lookup_screenshot(refs, &r.name);
    let mut out = clone_repo(r);
    match found {
        Some(s) => {
            out.screenshot = Some(s);
        },
        None => {},
    }
    proof {
        assert(out.deep_view() =~= merge_one_view(r.deep_view(), refs.deep_view()));
    }
    out
}

/// A whole network batch with screenshots merged in from the reference set.
pub fn merge_screenshots(batch: Vec<Repo>, refs: &Vec<Repo>) -> (out: Vec<Repo>)
    ensures
        out.deep_view() == merge_views(batch.deep_view(), refs.deep_view()),
{
    let mut out: Vec<Repo> = Vec::new();
    let mut i: usize = 0;
    while i < batch.len()
        invariant
            i <= batch.len(),
            out@.len() == i,
            forall|j: int|
                0 <= j < i ==> out.deep_view()[j] == merge_one_view(
                    batch.deep_view()[j],
                    refs.deep_view(),
                ),
        decreases batch.len() - i,
    {
        let merged = merge_repo(&batch[i], refs);
        let ghost prev = out.deep_view();
        out.push(merged);
        proof {
            assert(out.deep_view() =~= prev.push(merged.deep_view()));
            assert(batch.deep_view()[i as int] == batch@[i as int].deep_view());
        }
        i = i + 1;
    }
    proof {
        assert(out.deep_view() =~= merge_views(batch.deep_view(), refs.deep_view()));
    }
    out
}

/// The join is idempotent: merging a batch a second time against the same
/// reference set yields the same records as merging it once.
pub proof fn lemma_merge_idempotent(batch: Seq<RepoView>, refs: Seq<RepoView>)
    ensures
        merge_views(merge_views(batch, refs), refs) == merge_views(batch, refs),
{
    let once = merge_views(batch, refs);
    assert forall|j: int| 0 <= j < once.len() implies merge_one_view(once[j], refs)
        == once[j] by {
        let r = batch[j];
        assert(once[j] == merge_one_view(r, refs));
        assert(merge_one_view(r, refs).name == r.name);
        match screenshot_for(refs, r.name) {
            Some(s) => {
                assert(merge_one_view(once[j], refs) =~= once[j]);
            },
            None => {},
        }
    }
    assert(merge_views(once, refs) =~= once);
}

} // verus!
