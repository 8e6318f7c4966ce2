//! The foreground view, as a state machine. It holds the settings (one toggle
//! per category and the polling interval) and the articles on display. The
//! caller draws the widgets and reports what the user left in them; the view
//! decides whether a configuration goes to the poller, and takes up the
//! batches that come back.

use crate::article::{Article, Articles};
use crate::category::{Categories, CATEGORY_COUNT};
use crate::config::{
    clamp_interval, clamped_interval, selected_set, selection, NewsReportConfig,
    DEFAULT_POLLING_INTERVAL, MAX_POLLING_INTERVAL, MIN_POLLING_INTERVAL,
};
use vstd::prelude::*;

verus! {

/// The toggles after the categories menu was drawn: what the user left in the
/// menu if it was open, the toggles as they were if it was not.
pub open spec fn edited_flags(current: Seq<bool>, categories_menu: Option<Seq<bool>>) -> Seq<bool> {
    match categories_menu {
        Some(edited) => edited,
        None => current,
    }
}

/// The interval after the refresh menu was drawn: the requested interval,
/// brought into range, if the menu was open, the interval as it was if not.
pub open spec fn edited_interval(current: u64, refresh_menu: Option<u64>) -> u64 {
    match refresh_menu {
        Some(requested) => clamped_interval(requested),
        None => current,
    }
}

/// Whether the settings differ from those last sent, so that a configuration
/// is owed to the poller.
pub open spec fn update_required(
    flags: Seq<bool>,
    interval: u64,
    categories_menu: Option<Seq<bool>>,
    refresh_menu: Option<u64>,
) -> bool {
    edited_flags(flags, categories_menu) != flags || edited_interval(interval, refresh_menu)
        != interval
}

/// `flags` with the toggle of `category` flipped.
pub open spec fn toggled(flags: Seq<bool>, category: Categories) -> Seq<bool> {
    flags.update(category.index(), !flags[category.index()])
}

/// Whether two rows of toggles agree in every toggle.
pub fn same_flags(a: &[bool; 7], b: &[bool; 7]) -> (same: bool)
    ensures
        same == (a@ == b@),
{
    let mut i: usize = 0;
    while i < CATEGORY_COUNT
        invariant
            i <= CATEGORY_COUNT,
            forall|k: int| 0 <= k < i ==> a@[k] == b@[k],
        decreases CATEGORY_COUNT - i,
    {
        if a[i] != b[i] {
            return false;
        }
        i += 1;
    }
    assert(a@ =~= b@);
    true
}

/// The view's state.
#[derive(Debug)]
pub struct NewsReports {
    category_flag: [bool; 7],
    polling_interval: u64,
    list_of_articles: Vec<Article>,
}

impl NewsReports {
    /// The toggles, one per category in enumeration order.
    pub closed spec fn flags(&self) -> Seq<bool> {
        self.category_flag@
    }

    /// The polling interval of the settings, in seconds.
    pub closed spec fn interval(&self) -> u64 {
        self.polling_interval
    }

    /// The articles on display, in display order.
    pub closed spec fn displayed(&self) -> Seq<Article> {
        self.list_of_articles@
    }

    /// The interval of the settings is one that a configuration can carry.
    #[verifier::type_invariant]
    pub open spec fn well_formed(&self) -> bool {
        &&& self.flags().len() == CATEGORY_COUNT
        &&& MIN_POLLING_INTERVAL <= self.interval() <= MAX_POLLING_INTERVAL
    }

    /// The view at startup: every category selected, the default interval,
    /// nothing on display.
    pub fn new() -> (view: NewsReports)
        ensures
            view.flags() == Seq::new(CATEGORY_COUNT as nat, |i: int| true),
            view.interval() == DEFAULT_POLLING_INTERVAL,
            view.displayed() == Seq::<Article>::empty(),
            view.well_formed(),
    {
        let view = NewsReports {
            category_flag: [true, true, true, true, true, true, true],
            polling_interval: DEFAULT_POLLING_INTERVAL,
            list_of_articles: Vec::new(),
        };
        assert(view.category_flag@ =~= Seq::new(CATEGORY_COUNT as nat, |i: int| true));
        view
    }

    /// Takes up what the user left in the settings menus. `categories_menu`
    /// holds the toggles as the categories menu left them, if it was open;
    /// `refresh_menu` holds the interval that the refresh menu asks for, if it
    /// was open. The settings become the edited ones, the interval brought
    /// into range. If they differ from the settings before, the full
    /// configuration for the new settings is returned, to be sent to the
    /// poller; if not, nothing is.
    pub fn apply_menu_edits(
        &mut self,
        categories_menu: Option<[bool; 7]>,
        refresh_menu: Option<u64>,
    ) -> (sent: Option<NewsReportConfig>)
        ensures
            final(self).flags() == edited_flags(
                old(self).flags(),
                match categories_menu {
                    Some(edited) => Some(edited@),
                    None => None,
                },
            ),
            final(self).interval() == edited_interval(old(self).interval(), refresh_menu),
            final(self).displayed() == old(self).displayed(),
            final(self).well_formed(),
            sent is Some <==> update_required(
                old(self).flags(),
                old(self).interval(),
                match categories_menu {
                    Some(edited) => Some(edited@),
                    None => None,
                },
                refresh_menu,
            ),
            sent matches Some(config) ==> {
                &&& config.selected() == selection(final(self).flags())
                &&& config@.categories == selected_set(final(self).flags())
                &&& config.interval() == final(self).interval()
                &&& MIN_POLLING_INTERVAL <= config.interval() <= MAX_POLLING_INTERVAL
            },
    {
        proof {
            use_type_invariant(&*self);
        }
        let mut is_update_required = false;
        if let Some(selected_categories) = categories_menu {
            if !same_flags(&selected_categories, &self.category_flag) {
                self.category_flag = selected_categories;
                is_update_required = true;
            }
        }
        if let Some(requested) = refresh_menu {
            let requested_polling_rate = clamp_interval(requested);
            if requested_polling_rate != self.polling_interval {
                self.polling_interval = requested_polling_rate;
                is_update_required = true;
            }
        }
        if is_update_required {
            Some(NewsReportConfig::new(&self.category_flag, self.polling_interval))
        } else {
            None
        }
    }

    /// Flips the toggle of `category` and returns the configuration that this
    /// calls for: the interval as it was, and the selected set as it was but
    /// for `category`, which joins it if it was out and leaves it if it was
    /// in.
    pub fn toggle_category(&mut self, category: Categories) -> (sent: NewsReportConfig)
        ensures
            final(self).flags() == toggled(old(self).flags(), category),
            final(self).interval() == old(self).interval(),
            final(self).displayed() == old(self).displayed(),
            final(self).well_formed(),
            sent.selected() == selection(final(self).flags()),
            sent.interval() == old(self).interval(),
            sent@.categories == if old(self).flags()[category.index()] {
                selected_set(old(self).flags()).remove(category)
            } else {
                selected_set(old(self).flags()).insert(category)
            },
    {
        proof {
            use_type_invariant(&*self);
            lemma_toggle_changes_exactly_one(self.flags(), self.interval(), category);
        }
        let position = category.position();
        let mut selected_categories = self.category_flag;
        selected_categories[position] = !selected_categories[position];
        self.category_flag = selected_categories;
        NewsReportConfig::new(&self.category_flag, self.polling_interval)
    }

    /// Whether the toggle of `category` is set.
    pub fn is_selected(&self, category: Categories) -> (set: bool)
        ensures
            set == self.flags()[category.index()],
            set == selected_set(self.flags()).contains(category),
    {
        self.category_flag[category.position()]
    }

    /// Takes up what came from the poller since the last frame. A batch
    /// replaces the articles on display as a whole; without one they stay as
    /// they are. The display never holds part of one batch and part of
    /// another.
    pub fn receive_batch(&mut self, incoming: Option<Articles>)
        ensures
            match incoming {
                Some(batch) => final(self).displayed() == batch.articles@,
                None => final(self).displayed() == old(self).displayed(),
            },
            final(self).flags() == old(self).flags(),
            final(self).interval() == old(self).interval(),
    {
        proof {
            use_type_invariant(&*self);
        }
        if let Some(batch) = incoming {
            self.list_of_articles = batch.articles;
        }
    }

    /// The configuration for the settings as they are.
    pub fn current_config(&self) -> (config: NewsReportConfig)
        ensures
            config.selected() == selection(self.flags()),
            config@.categories == selected_set(self.flags()),
            config.interval() == self.interval(),
    {
        proof {
            use_type_invariant(self);
        }
        NewsReportConfig::new(&self.category_flag, self.polling_interval)
    }

    /// The toggles, one per category in enumeration order.
    pub fn category_flag(&self) -> (flags: [bool; 7])
        ensures
            flags@ == self.flags(),
    {
        self.category_flag
    }

    /// The polling interval of the settings, in seconds.
    pub fn polling_interval(&self) -> (seconds: u64)
        ensures
            seconds == self.interval(),
            MIN_POLLING_INTERVAL <= seconds <= MAX_POLLING_INTERVAL,
    {
        proof {
            use_type_invariant(self);
        }
        self.polling_interval
    }

    /// The articles on display, in display order.
    pub fn list_of_articles(&self) -> (list: &Vec<Article>)
        ensures
            list@ == self.displayed(),
    {
        &self.list_of_articles
    }
}

/// Flipping one toggle calls for a configuration, with the interval as it
/// was, whose selected set differs from the one before by exactly that
/// category: it joins the set if it was out and leaves it if it was in, and
/// every other category stays where it was.
pub proof fn lemma_toggle_changes_exactly_one(
    flags: Seq<bool>,
    interval: u64,
    category: Categories,
)
    requires
        flags.len() == CATEGORY_COUNT,
    ensures
        update_required(flags, interval, Some(toggled(flags, category)), None),
        edited_flags(flags, Some(toggled(flags, category))) == toggled(flags, category),
        edited_interval(interval, None) == interval,
        selected_set(toggled(flags, category)) == if flags[category.index()] {
            selected_set(flags).remove(category)
        } else {
            selected_set(flags).insert(category)
        },
        forall|other: Categories|
            other != category ==> (selected_set(toggled(flags, category)).contains(other)
                <==> selected_set(flags).contains(other)),
{
    let after = toggled(flags, category);
    assert(after[category.index()] != flags[category.index()]);
    assert forall|other: Categories| other != category implies (selected_set(after).contains(other)
        <==> selected_set(flags).contains(other)) by {
        assert(other.index() != category.index());
    }
    if flags[category.index()] {
        assert(selected_set(after) =~= selected_set(flags).remove(category));
    } else {
        assert(selected_set(after) =~= selected_set(flags).insert(category));
    }
}

/// An edit of the interval alone leaves the toggles as they were and yields
/// the requested interval, brought into range. A configuration is owed for
/// it exactly if that interval differs from the one before; with neither
/// menu open, or with both left as they were, none is owed.
pub proof fn lemma_interval_edit_alone(flags: Seq<bool>, interval: u64, requested: u64)
    requires
        MIN_POLLING_INTERVAL <= interval <= MAX_POLLING_INTERVAL,
    ensures
        edited_flags(flags, None) == flags,
        edited_flags(flags, Some(flags)) == flags,
        MIN_POLLING_INTERVAL <= edited_interval(interval, Some(requested)) <= MAX_POLLING_INTERVAL,
        update_required(flags, interval, None, Some(requested)) <==> clamped_interval(requested)
            != interval,
        update_required(flags, interval, Some(flags), Some(requested)) <==> clamped_interval(
            requested,
        ) != interval,
        !update_required(flags, interval, None, None),
        !update_required(flags, interval, Some(flags), Some(interval)),
{
}

} // verus!
