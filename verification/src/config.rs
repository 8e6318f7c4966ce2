//! The configuration the view hands to the poller: which categories to fetch
//! and how long to wait between fetches.

use crate::category::{all_categories, category_at, Categories, CATEGORY_COUNT};
use vstd::prelude::*;

verus! {

/// Shortest polling interval a configuration can carry, in seconds.
pub const MIN_POLLING_INTERVAL: u64 = 60;

/// Longest polling interval a configuration can carry, in seconds.
pub const MAX_POLLING_INTERVAL: u64 = 3600;

/// Polling interval of a fresh settings surface, in seconds.
pub const DEFAULT_POLLING_INTERVAL: u64 = 600;

/// `requested` brought into the range of polling intervals.
pub open spec fn clamped_interval(requested: u64) -> u64 {
    if requested < MIN_POLLING_INTERVAL {
        MIN_POLLING_INTERVAL
    } else if requested > MAX_POLLING_INTERVAL {
        MAX_POLLING_INTERVAL
    } else {
        requested
    }
}

/// Brings `requested` into the range of polling intervals.
pub fn clamp_interval(requested: u64) -> (seconds: u64)
    ensures
        seconds == clamped_interval(requested),
        MIN_POLLING_INTERVAL <= seconds <= MAX_POLLING_INTERVAL,
{
    if requested < MIN_POLLING_INTERVAL {
        MIN_POLLING_INTERVAL
    } else if requested > MAX_POLLING_INTERVAL {
        MAX_POLLING_INTERVAL
    } else {
        requested
    }
}

/// Bringing an interval into range leaves it in range, keeps what was
/// in range, and does nothing the second time.
pub proof fn lemma_clamped_interval_in_range(requested: u64)
    ensures
        MIN_POLLING_INTERVAL <= clamped_interval(requested) <= MAX_POLLING_INTERVAL,
        MIN_POLLING_INTERVAL <= requested <= MAX_POLLING_INTERVAL ==> clamped_interval(requested)
            == requested,
        clamped_interval(clamped_interval(requested)) == clamped_interval(requested),
{
}

/// The categories whose toggle is set, in enumeration order.
pub open spec fn selection(flags: Seq<bool>) -> Seq<Categories> {
    all_categories().filter(|c: Categories| flags[c.index()])
}

/// The set of categories whose toggle is set.
pub open spec fn selected_set(flags: Seq<bool>) -> Set<Categories> {
    Set::new(|c: Categories| flags[c.index()])
}

/// Number of toggles that are set among the first `n`.
pub open spec fn count_set(flags: Seq<bool>, n: int) -> nat
    decreases n,
{
    if n <= 0 {
        0
    } else {
        count_set(flags, n - 1) + if flags[n - 1] {
            1nat
        } else {
            0nat
        }
    }
}

/// `list` names each category at most once, in enumeration order.
pub open spec fn in_enumeration_order(list: Seq<Categories>) -> bool {
    forall|i: int, j: int|
        0 <= i < j < list.len() ==> (#[trigger] list[i]).index() < (#[trigger] list[j]).index()
}

/// The selection over the first `n` toggles: what it holds, in which order,
/// and how many.
proof fn lemma_selection_prefix(flags: Seq<bool>, n: int)
    requires
        0 <= n <= CATEGORY_COUNT,
    ensures
        ({
            let part = all_categories().take(n).filter(|c: Categories| flags[c.index()]);
            &&& part.len() == count_set(flags, n)
            &&& in_enumeration_order(part)
            &&& forall|k: int| 0 <= k < part.len() ==> (#[trigger] part[k]).index() < n
            &&& forall|k: int| 0 <= k < part.len() ==> flags[(#[trigger] part[k]).index()]
            &&& forall|c: Categories| c.index() < n && flags[c.index()] ==> part.contains(c)
        }),
    decreases n,
{
    let pred = |c: Categories| flags[c.index()];
    let part = all_categories().take(n).filter(pred);
    if n == 0 {
        assert(all_categories().take(0) =~= Seq::<Categories>::empty());
        reveal(Seq::filter);
    } else {
        lemma_selection_prefix(flags, n - 1);
        let before = all_categories().take(n - 1);
        let last = category_at(n - 1);
        assert(all_categories().take(n) =~= before.push(last));
        before.lemma_filter_push(last, pred);
        let shorter = before.filter(pred);
        assert(last.index() == n - 1);
        if flags[n - 1] {
            assert(part == shorter.push(last));
            assert forall|c: Categories| c.index() < n && flags[c.index()] implies part.contains(
                c,
            ) by {
                if c.index() < n - 1 {
                    assert(shorter.contains(c));
                    let k = choose|k: int| 0 <= k < shorter.len() && shorter[k] == c;
                    assert(part[k] == c);
                } else {
                    assert(category_at(c.index()) == c);
                    assert(part[part.len() - 1] == c);
                }
            }
        } else {
            assert(part == shorter);
            assert forall|c: Categories| c.index() < n && flags[c.index()] implies part.contains(
                c,
            ) by {
                assert(c.index() < n - 1);
            }
        }
    }
}

/// The selection holds each category whose toggle is set exactly once, holds
/// no other category, and lists them in enumeration order.
pub proof fn lemma_selection_is_exact(flags: Seq<bool>)
    ensures
        selection(flags).no_duplicates(),
        in_enumeration_order(selection(flags)),
        selection(flags).to_set() == selected_set(flags),
        selection(flags).len() == count_set(flags, CATEGORY_COUNT as int),
        selection(flags).len() <= CATEGORY_COUNT,
        forall|c: Categories| #[trigger]
            selection(flags).contains(c) <==> flags[c.index()],
{
    let chosen = selection(flags);
    lemma_selection_prefix(flags, CATEGORY_COUNT as int);
    assert(all_categories().take(CATEGORY_COUNT as int) =~= all_categories());
    all_categories().lemma_filter_len(|c: Categories| flags[c.index()]);
    assert forall|c: Categories| #[trigger] chosen.contains(c) <==> flags[c.index()] by {
        if chosen.contains(c) {
            let k = choose|k: int| 0 <= k < chosen.len() && chosen[k] == c;
            assert(flags[chosen[k].index()]);
        }
    }
    assert(chosen.to_set() =~= selected_set(flags));
}

/// The categories whose toggle is set, in enumeration order.
pub fn select_categories(flags: &[bool; 7]) -> (chosen: Vec<Categories>)
    ensures
        chosen@ == selection(flags@),
{
    let all = Categories::all();
    let mut chosen: Vec<Categories> = Vec::new();
    let mut counter: usize = 0;
    proof {
        assert(all_categories().take(0) =~= Seq::<Categories>::empty());
        reveal(Seq::filter);
    }
    while counter < CATEGORY_COUNT
        invariant
            counter <= CATEGORY_COUNT,
            all@ == all_categories(),
            chosen@ == all_categories().take(counter as int).filter(
                |c: Categories| flags@[c.index()],
            ),
        decreases CATEGORY_COUNT - counter,
    {
        let category = all[counter];
        proof {
            let before = all_categories().take(counter as int);
            assert(all_categories().take(counter + 1) =~= before.push(category));
            before.lemma_filter_push(category, |c: Categories| flags@[c.index()]);
            assert(category.index() == counter);
        }
        if flags[counter] {
            chosen.push(category);
        }
        counter += 1;
    }
    proof {
        assert(all_categories().take(CATEGORY_COUNT as int) =~= all_categories());
    }
    chosen
}

/// What the poller is to fetch, and how often.
#[derive(Debug, PartialEq, Eq)]
pub struct NewsReportConfig {
    selected_categories: Vec<Categories>,
    polling_interval: u64,
}

/// A configuration as a value: the set of selected categories and the seconds
/// between two fetches.
pub struct ConfigView {
    pub categories: Set<Categories>,
    pub interval: nat,
}

impl View for NewsReportConfig {
    type V = ConfigView;

    open spec fn view(&self) -> ConfigView {
        ConfigView { categories: self.selected().to_set(), interval: self.interval() as nat }
    }
}

impl NewsReportConfig {
    /// The selected categories, in the order in which they are queried.
    pub closed spec fn selected(&self) -> Seq<Categories> {
        self.selected_categories@
    }

    /// Seconds between two fetches.
    pub closed spec fn interval(&self) -> u64 {
        self.polling_interval
    }

    /// Every configuration names each category at most once, in enumeration
    /// order, and carries an interval within the accepted range.
    #[verifier::type_invariant]
    pub open spec fn well_formed(&self) -> bool {
        &&& in_enumeration_order(self.selected())
        &&& MIN_POLLING_INTERVAL <= self.interval() <= MAX_POLLING_INTERVAL
    }

    /// The configuration for the given toggles and requested interval. The
    /// interval is brought into the accepted range.
    pub fn new(category_flag: &[bool; 7], polling_interval: u64) -> (config: NewsReportConfig)
        ensures
            config.selected() == selection(category_flag@),
            config.interval() == clamped_interval(polling_interval),
            config@.categories == selected_set(category_flag@),
            config.well_formed(),
    {
        let chosen = select_categories(category_flag);
        proof {
            lemma_selection_is_exact(category_flag@);
        }
        NewsReportConfig {
            selected_categories: chosen,
            polling_interval: clamp_interval(polling_interval),
        }
    }

    /// The selected categories, in the order in which they are queried.
    pub fn selected_categories(&self) -> (list: &Vec<Categories>)
        ensures
            list@ == self.selected(),
            in_enumeration_order(list@),
            list@.no_duplicates(),
            self.well_formed(),
    {
        proof {
            use_type_invariant(self);
            lemma_ordered_has_no_duplicates(self.selected_categories@);
        }
        &self.selected_categories
    }

    /// Seconds between two fetches.
    pub fn polling_interval(&self) -> (seconds: u64)
        ensures
            seconds == self.interval(),
            MIN_POLLING_INTERVAL <= seconds <= MAX_POLLING_INTERVAL,
    {
        proof {
            use_type_invariant(self);
        }
        self.polling_interval
    }

    /// Whether `category` is selected.
    pub fn is_selected(&self, category: Categories) -> (found: bool)
        ensures
            found == self@.categories.contains(category),
    {
        let mut i: usize = 0;
        while i < self.selected_categories.len()
            invariant
                i <= self.selected_categories.len(),
                forall|k: int| 0 <= k < i ==> self.selected_categories@[k] != category,
            decreases self.selected_categories.len() - i,
        {
            if self.selected_categories[i] == category {
                return true;
            }
            i += 1;
        }
        false
    }

    /// Takes the configuration apart: the selected categories and the
    /// interval.
    pub fn into_parts(self) -> (parts: (Vec<Categories>, u64))
        ensures
            parts.0@ == self.selected(),
            parts.1 == self.interval(),
            in_enumeration_order(parts.0@),
            MIN_POLLING_INTERVAL <= parts.1 <= MAX_POLLING_INTERVAL,
    {
        proof {
            use_type_invariant(&self);
        }
        (self.selected_categories, self.polling_interval)
    }
}

/// A list in enumeration order names no category twice.
pub proof fn lemma_ordered_has_no_duplicates(list: Seq<Categories>)
    requires
        in_enumeration_order(list),
    ensures
        list.no_duplicates(),
{
    assert forall|i: int, j: int| 0 <= i < list.len() && 0 <= j < list.len() && i != j implies list[i]
        != list[j] by {
        if i < j {
            assert(list[i].index() < list[j].index());
        } else {
            assert(list[j].index() < list[i].index());
        }
    }
}

} // verus!
