//! Paging decisions of the cell-listing dialog: which page to show next,
//! when to ask the node for another page, and when to tell the operator
//! there is nothing further.

use vstd::prelude::*;

verus! {

/// What a page-switch request turns into.
#[derive(Clone, Copy, PartialEq, Eq, Structural, Debug)]
pub enum PageSwitch {
    /// The first page is already showing; tell the operator.
    AtFirstPage,
    /// Show the page with this index.
    ShowPage(usize),
    /// The last fetched page was full; fetch the next one.
    FetchNext,
    /// The last fetched page came back empty; there is nothing further.
    NoMoreData,
}

/// The decision for a step back: from the first page there is nowhere to
/// go, from any other page the one before it shows.
pub fn prev_page_action(current_page: usize) -> (r: PageSwitch)
    ensures
        current_page == 0 ==> r == PageSwitch::AtFirstPage,
        current_page > 0 ==> (r == PageSwitch::ShowPage((current_page - 1) as usize)),
{
    if current_page == 0 {
        PageSwitch::AtFirstPage
    } else {
        PageSwitch::ShowPage(current_page - 1)
    }
}

/// The decision for a step forward: an already fetched page shows at
/// once; past the last fetched page, another fetch is due unless that
/// page came back empty, which means the listing is exhausted.
pub fn next_page_action(current_page: usize, page_count: usize, last_page_empty: bool) -> (r:
    PageSwitch)
    requires
        current_page < page_count,
    ensures
        current_page + 1 < page_count ==> (r == PageSwitch::ShowPage((current_page + 1) as usize)),
        current_page + 1 == page_count && last_page_empty ==> r == PageSwitch::NoMoreData,
        current_page + 1 == page_count && !last_page_empty ==> r == PageSwitch::FetchNext,
{
    if current_page + 1 == page_count {
        if last_page_empty {
            PageSwitch::NoMoreData
        } else {
            PageSwitch::FetchNext
        }
    } else {
        PageSwitch::ShowPage(current_page + 1)
    }
}

} // verus!
