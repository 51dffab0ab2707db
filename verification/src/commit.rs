//! The isolation commit: the recorded pages are sorted by address, grouped
//! by page type and imported group by group; then the isolation-control
//! register of each virtual processor is written; then the import is
//! completed. The pipeline says which action is next, and the caller performs
//! it and reports how it went.

use crate::page::{GpaPages, HV_PAGE_SIZE};
use vstd::prelude::*;

verus! {

/// The pages of `pages` at the address `gpa`, in their order.
pub open spec fn at_gpa(pages: Seq<GpaPages>, gpa: u64) -> Seq<GpaPages>
    decreases pages.len(),
{
    if pages.len() == 0 {
        Seq::empty()
    } else if pages.last().gpa == gpa {
        at_gpa(pages.drop_last(), gpa).push(pages.last())
    } else {
        at_gpa(pages.drop_last(), gpa)
    }
}

/// Whether the addresses of `pages` never fall from one page to the next.
pub open spec fn sorted_by_gpa(pages: Seq<GpaPages>) -> bool {
    forall|i: int, j: int| 0 <= i <= j < pages.len() ==> pages[i].gpa <= pages[j].gpa
}

/// Whether `sorted` is `pages` sorted by address, with the pages at one
/// address in the order that they have in `pages`.
pub open spec fn stable_sort_of(sorted: Seq<GpaPages>, pages: Seq<GpaPages>) -> bool {
    &&& sorted_by_gpa(sorted)
    &&& forall|gpa: u64| #[trigger] at_gpa(sorted, gpa) == at_gpa(pages, gpa)
}

/// The pages in groups: a page joins the group before it where that group is
/// of its page type, and begins a group of its own where it is not.
pub open spec fn grouped(pages: Seq<GpaPages>) -> Seq<Seq<GpaPages>>
    decreases pages.len(),
{
    if pages.len() == 0 {
        Seq::empty()
    } else {
        let groups = grouped(pages.drop_last());
        let page = pages.last();
        if groups.len() > 0 && groups.last()[0].page_type == page.page_type {
            groups.update(groups.len() - 1, groups.last().push(page))
        } else {
            groups.push(seq![page])
        }
    }
}

/// The views of a list of groups.
pub open spec fn group_views(groups: Seq<Vec<GpaPages>>) -> Seq<Seq<GpaPages>> {
    groups.map_values(|group: Vec<GpaPages>| group@)
}

/// The page-frame numbers of the pages of a group.
pub open spec fn frame_numbers(group: Seq<GpaPages>) -> Seq<u64> {
    group.map_values(|page: GpaPages| page.gpa / HV_PAGE_SIZE)
}

/// The guest addresses of the pages of a group.
pub open spec fn guest_addresses(group: Seq<GpaPages>) -> Seq<u64> {
    group.map_values(|page: GpaPages| page.gpa)
}

pub proof fn lemma_at_gpa_concat(first: Seq<GpaPages>, second: Seq<GpaPages>, gpa: u64)
    ensures
        at_gpa(first + second, gpa) == at_gpa(first, gpa) + at_gpa(second, gpa),
    decreases second.len(),
{
    if second.len() == 0 {
        assert(first + second =~= first);
        assert(at_gpa(first, gpa) + at_gpa(second, gpa) =~= at_gpa(first, gpa));
    } else {
        assert((first + second).drop_last() =~= first + second.drop_last());
        lemma_at_gpa_concat(first, second.drop_last(), gpa);
        assert(at_gpa(first + second, gpa) =~= at_gpa(first, gpa) + at_gpa(second, gpa));
    }
}

pub proof fn lemma_at_gpa_absent(pages: Seq<GpaPages>, gpa: u64)
    requires
        forall|i: int| 0 <= i < pages.len() ==> pages[i].gpa != gpa,
    ensures
        at_gpa(pages, gpa) == Seq::<GpaPages>::empty(),
    decreases pages.len(),
{
    if pages.len() > 0 {
        lemma_at_gpa_absent(pages.drop_last(), gpa);
    }
}

/// Two sorted lists that hold the same pages at every address, in the same
/// order, are the same list.
pub proof fn lemma_sorted_lists_equal(first: Seq<GpaPages>, second: Seq<GpaPages>)
    requires
        sorted_by_gpa(first),
        sorted_by_gpa(second),
        forall|gpa: u64| #[trigger] at_gpa(first, gpa) == at_gpa(second, gpa),
    ensures
        first == second,
    decreases first.len(),
{
    if first.len() == 0 {
        if second.len() > 0 {
            assert(at_gpa(first, second.last().gpa) == at_gpa(second, second.last().gpa));
        }
        assert(first =~= second);
    } else if second.len() == 0 {
        assert(at_gpa(first, first.last().gpa) == at_gpa(second, first.last().gpa));
    } else {
        let high = first.last().gpa;
        let other = second.last().gpa;
        assert(at_gpa(first, high) == at_gpa(second, high));
        assert(at_gpa(first, other) == at_gpa(second, other));
        if forall|k: int| 0 <= k < second.len() ==> second[k].gpa != high {
            lemma_at_gpa_absent(second, high);
        }
        if forall|k: int| 0 <= k < first.len() ==> first[k].gpa != other {
            lemma_at_gpa_absent(first, other);
        }
        assert(high == other);
        assert(first.last() == at_gpa(first, high).last());
        assert(second.last() == at_gpa(second, high).last());
        let first_rest = first.drop_last();
        let second_rest = second.drop_last();
        assert forall|gpa: u64| #[trigger] at_gpa(first_rest, gpa) == at_gpa(second_rest, gpa) by {
            assert(at_gpa(first, gpa) == at_gpa(second, gpa));
            if gpa == high {
                assert(at_gpa(first_rest, gpa) =~= at_gpa(first, gpa).drop_last());
                assert(at_gpa(second_rest, gpa) =~= at_gpa(second, gpa).drop_last());
            }
        }
        lemma_sorted_lists_equal(first_rest, second_rest);
        assert(first =~= first_rest.push(first.last()));
        assert(second =~= second_rest.push(second.last()));
    }
}

/// Sorting has one result: two stable sorts of the same pages are equal.
pub proof fn lemma_stable_sort_unique(
    first: Seq<GpaPages>,
    second: Seq<GpaPages>,
    pages: Seq<GpaPages>,
)
    requires
        stable_sort_of(first, pages),
        stable_sort_of(second, pages),
    ensures
        first == second,
{
    assert forall|gpa: u64| #[trigger] at_gpa(first, gpa) == at_gpa(second, gpa) by {
        assert(at_gpa(first, gpa) == at_gpa(pages, gpa));
        assert(at_gpa(second, gpa) == at_gpa(pages, gpa));
    }
    lemma_sorted_lists_equal(first, second);
}

/// Merges two sorted lists into one; among pages at one address, those of
/// `left` come first.
fn merge(left: &Vec<GpaPages>, right: &Vec<GpaPages>) -> (merged: Vec<GpaPages>)
    requires
        sorted_by_gpa(left@),
        sorted_by_gpa(right@),
    ensures
        sorted_by_gpa(merged@),
        forall|gpa: u64| #[trigger]
            at_gpa(merged@, gpa) == at_gpa(left@, gpa) + at_gpa(right@, gpa),
{
    let mut merged: Vec<GpaPages> = Vec::new();
    let mut i: usize = 0;
    let mut j: usize = 0;
    assert forall|gpa: u64| #[trigger]
        at_gpa(merged@, gpa) == at_gpa(left@.take(0), gpa) + at_gpa(right@.take(0), gpa) by {
        assert(at_gpa(merged@, gpa) =~= at_gpa(left@.take(0), gpa) + at_gpa(right@.take(0), gpa));
    }
    while i < left.len() || j < right.len()
        invariant
            i <= left.len(),
            j <= right.len(),
            merged@.len() == i + j,
            sorted_by_gpa(left@),
            sorted_by_gpa(right@),
            sorted_by_gpa(merged@),
            i < left.len() ==> forall|k: int| 0 <= k < merged@.len() ==> merged@[k].gpa <= left@[i as int].gpa,
            j < right.len() ==> forall|k: int|
                0 <= k < merged@.len() ==> merged@[k].gpa <= right@[j as int].gpa,
            i < left.len() ==> forall|k: int| 0 <= k < j ==> right@[k].gpa < left@[i as int].gpa,
            forall|gpa: u64| #[trigger]
                at_gpa(merged@, gpa) == at_gpa(left@.take(i as int), gpa) + at_gpa(
                    right@.take(j as int),
                    gpa,
                ),
        decreases left.len() - i + right.len() - j,
    {
        let ghost before = merged@;
        if j >= right.len() || (i < left.len() && left[i].gpa <= right[j].gpa) {
            let page = left[i];
            merged.push(page);
            assert forall|gpa: u64| #[trigger]
                at_gpa(merged@, gpa) == at_gpa(left@.take(i + 1), gpa) + at_gpa(
                    right@.take(j as int),
                    gpa,
                ) by {
                assert(at_gpa(before, gpa) == at_gpa(left@.take(i as int), gpa) + at_gpa(
                    right@.take(j as int),
                    gpa,
                ));
                assert(merged@.drop_last() =~= before);
                assert(left@.take(i + 1).drop_last() =~= left@.take(i as int));
                if page.gpa == gpa {
                    lemma_at_gpa_absent(right@.take(j as int), gpa);
                }
                assert(at_gpa(merged@, gpa) =~= at_gpa(left@.take(i + 1), gpa) + at_gpa(
                    right@.take(j as int),
                    gpa,
                ));
            }
            i = i + 1;
        } else {
            let page = right[j];
            merged.push(page);
            assert forall|gpa: u64| #[trigger]
                at_gpa(merged@, gpa) == at_gpa(left@.take(i as int), gpa) + at_gpa(
                    right@.take(j + 1),
                    gpa,
                ) by {
                assert(at_gpa(before, gpa) == at_gpa(left@.take(i as int), gpa) + at_gpa(
                    right@.take(j as int),
                    gpa,
                ));
                assert(merged@.drop_last() =~= before);
                assert(right@.take(j + 1).drop_last() =~= right@.take(j as int));
                assert(at_gpa(merged@, gpa) =~= at_gpa(left@.take(i as int), gpa) + at_gpa(
                    right@.take(j + 1),
                    gpa,
                ));
            }
            j = j + 1;
        }
    }
    assert(left@.take(i as int) =~= left@);
    assert(right@.take(j as int) =~= right@);
    merged
}

/// Sorts the pages from `from` up to `to`, by merging its sorted halves.
fn sort_range(pages: &Vec<GpaPages>, from: usize, to: usize) -> (sorted: Vec<GpaPages>)
    requires
        from <= to <= pages.len(),
    ensures
        stable_sort_of(sorted@, pages@.subrange(from as int, to as int)),
    decreases to - from,
{
    let ghost range = pages@.subrange(from as int, to as int);
    if to - from <= 1 {
        let mut sorted: Vec<GpaPages> = Vec::new();
        if from < to {
            sorted.push(pages[from]);
        }
        assert(sorted@ =~= range);
        sorted
    } else {
        let middle: usize = from + (to - from) / 2;
        let left = sort_range(pages, from, middle);
        let right = sort_range(pages, middle, to);
        let sorted = merge(&left, &right);
        proof {
            let first = pages@.subrange(from as int, middle as int);
            let second = pages@.subrange(middle as int, to as int);
            assert(range =~= first + second);
            assert forall|gpa: u64| #[trigger] at_gpa(sorted@, gpa) == at_gpa(range, gpa) by {
                assert(at_gpa(sorted@, gpa) == at_gpa(left@, gpa) + at_gpa(right@, gpa));
                assert(at_gpa(left@, gpa) == at_gpa(first, gpa));
                assert(at_gpa(right@, gpa) == at_gpa(second, gpa));
                lemma_at_gpa_concat(first, second, gpa);
            }
        }
        sorted
    }
}

/// The pages sorted by address. Pages at one address keep their order.
pub fn sort_by_gpa(pages: &Vec<GpaPages>) -> (sorted: Vec<GpaPages>)
    ensures
        stable_sort_of(sorted@, pages@),
{
    assert(pages@.subrange(0, pages@.len() as int) =~= pages@);
    sort_range(pages, 0, pages.len())
}

/// The pages in groups of one page type each: a group ends where the next
/// page is of another type than the group.
pub fn group_by_page_type(pages: &Vec<GpaPages>) -> (groups: Vec<Vec<GpaPages>>)
    ensures
        group_views(groups@) == grouped(pages@),
{
    let mut groups: Vec<Vec<GpaPages>> = Vec::new();
    let mut current: Vec<GpaPages> = Vec::new();
    let mut i: usize = 0;
    assert(pages@.take(0) =~= Seq::<GpaPages>::empty());
    assert(group_views(groups@) =~= Seq::<Seq<GpaPages>>::empty());
    while i < pages.len()
        invariant
            i <= pages.len(),
            current@.len() == 0 <==> i == 0,
            i == 0 ==> groups@.len() == 0,
            i > 0 ==> grouped(pages@.take(i as int)) == group_views(groups@).push(current@),
        decreases pages.len() - i,
    {
        let page = pages[i];
        let ghost before = group_views(groups@);
        proof {
            assert(pages@.take(i + 1).drop_last() =~= pages@.take(i as int));
            assert(pages@.take(i + 1).last() == page);
        }
        let ghost so_far = grouped(pages@.take(i as int));
        if current.len() > 0 && current[0].page_type == page.page_type {
            current.push(page);
            assert(grouped(pages@.take(i + 1)) =~= before.push(current@));
        } else if current.len() > 0 {
            assert(so_far.last()[0].page_type != page.page_type);
            groups.push(current);
            assert(group_views(groups@) =~= so_far);
            current = Vec::new();
            current.push(page);
            assert(current@ =~= seq![page]);
            assert(grouped(pages@.take(i + 1)) == so_far.push(seq![page]));
        } else {
            assert(so_far.len() == 0);
            current.push(page);
            assert(current@ =~= seq![page]);
            assert(grouped(pages@.take(i + 1)) == so_far.push(seq![page]));
            assert(group_views(groups@) =~= so_far);
        }
        i = i + 1;
    }
    assert(pages@.take(i as int) =~= pages@);
    if current.len() > 0 {
        let ghost before = group_views(groups@);
        groups.push(current);
        assert(group_views(groups@) =~= before.push(current@));
    }
    groups
}

/// Whether a group holds at least one page and pages of one type only.
pub open spec fn uniform(group: Seq<GpaPages>) -> bool {
    &&& group.len() > 0
    &&& forall|i: int| 0 <= i < group.len() ==> (#[trigger] group[i]).page_type == group[0].page_type
}

/// Whether every group is uniform and of another type than the group after it.
pub open spec fn maximal_runs(groups: Seq<Seq<GpaPages>>) -> bool {
    &&& forall|k: int| 0 <= k < groups.len() ==> uniform(#[trigger] groups[k])
    &&& forall|k: int, next: int|
        0 <= k && next == k + 1 && next < groups.len() ==> (#[trigger] groups[k])[0].page_type
            != (#[trigger] groups[next])[0].page_type
}

/// The groups of `grouped` are the maximal runs of pages of one type: each
/// holds pages of one type, the next group is of another type, and the groups
/// one after the other are the pages.
pub proof fn lemma_grouped(pages: Seq<GpaPages>)
    ensures
        maximal_runs(grouped(pages)),
        grouped(pages).flatten_alt() == pages,
        grouped(pages).len() <= pages.len(),
        pages.len() > 0 ==> grouped(pages).len() > 0,
    decreases pages.len(),
{
    if pages.len() > 0 {
        let rest = pages.drop_last();
        let groups = grouped(rest);
        let page = pages.last();
        let now = grouped(pages);
        lemma_grouped(rest);
        assert(pages =~= rest.push(page));
        if groups.len() > 0 && groups.last()[0].page_type == page.page_type {
            let last = groups.len() - 1;
            assert(now == groups.update(last, groups[last].push(page)));
            assert(now.drop_last() =~= groups.drop_last());
            assert(now.flatten_alt() =~= groups.flatten_alt().push(page));
            assert forall|k: int| 0 <= k < now.len() implies uniform(#[trigger] now[k]) by {
                assert(uniform(groups[k]));
                if k == last {
                    assert forall|i: int| 0 <= i < now[k].len() implies (#[trigger] now[k][i]).page_type
                        == now[k][0].page_type by {
                        if i < groups[k].len() {
                            assert(groups[k][i].page_type == groups[k][0].page_type);
                        }
                    }
                } else {
                    assert(now[k] == groups[k]);
                }
            }
            assert forall|k: int, next: int| 0 <= k && next == k + 1 && next < now.len() implies (
            #[trigger] now[k])[0].page_type != (#[trigger] now[next])[0].page_type by {
                assert(groups[k][0].page_type != groups[next][0].page_type);
                assert(uniform(groups[next]));
            }
        } else {
            assert(now == groups.push(seq![page]));
            assert(now.drop_last() =~= groups);
            assert(now.flatten_alt() =~= groups.flatten_alt().push(page));
            assert forall|k: int| 0 <= k < now.len() implies uniform(#[trigger] now[k]) by {
                if k < groups.len() {
                    assert(uniform(groups[k]));
                    assert(now[k] == groups[k]);
                }
            }
            assert forall|k: int, next: int| 0 <= k && next == k + 1 && next < now.len() implies (
            #[trigger] now[k])[0].page_type != (#[trigger] now[next])[0].page_type by {
                if next < groups.len() {
                    assert(groups[k][0].page_type != groups[next][0].page_type);
                } else {
                    assert(uniform(groups[k]));
                }
            }
        }
    }
}

} // verus!
