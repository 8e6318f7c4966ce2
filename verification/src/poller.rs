//! The background poller, as a state machine. One cycle has two steps:
//! [`Poller::begin_cycle`] takes up a pending configuration and says which
//! address to fetch; [`Poller::end_cycle`] takes the outcome of that fetch and
//! says what to do with it. The caller does the fetching, the publishing and
//! the sleeping, and repeats.

use crate::article::Articles;
use crate::category::Categories;
use crate::config::{
    in_enumeration_order, lemma_ordered_has_no_duplicates, NewsReportConfig,
    MAX_POLLING_INTERVAL, MIN_POLLING_INTERVAL,
};
use crate::query::{build_query_address, query_address};
use vstd::prelude::*;

verus! {

/// Seconds between two fetches before the first configuration arrives.
pub const STARTING_POLLING_INTERVAL: u64 = 1;

/// Why headlines could not be had. None of these is recovered from.
#[derive(Clone, Copy, Debug, PartialEq, Eq, Structural)]
pub enum FetchError {
    /// No credential was supplied.
    MissingCredential,
    /// The source could not be reached or did not answer in full.
    Transport,
    /// The answer was not a list of articles.
    Decode,
}

/// What the caller does at the end of a cycle.
#[derive(Debug, PartialEq, Eq)]
pub enum CycleAction {
    /// Hand `batch` to the view, then sleep for `sleep_seconds` and begin the
    /// next cycle.
    Publish { batch: Articles, sleep_seconds: u64 },
    /// Stop for good.
    Abort { error: FetchError },
}

/// The poller's state: the configuration in force and the credential.
#[derive(Debug)]
pub struct Poller {
    selected_categories: Vec<Categories>,
    polling_interval: u64,
    api_key: String,
}

impl Poller {
    /// The categories in force, in the order in which they are queried.
    pub closed spec fn categories(&self) -> Seq<Categories> {
        self.selected_categories@
    }

    /// Seconds between two fetches.
    pub closed spec fn interval(&self) -> u64 {
        self.polling_interval
    }

    /// The credential sent with every request.
    pub closed spec fn credential(&self) -> Seq<char> {
        self.api_key@
    }

    /// The poller queries no category twice, and sleeps either for the
    /// starting interval or for one that a configuration can carry.
    #[verifier::type_invariant]
    pub open spec fn well_formed(&self) -> bool {
        &&& in_enumeration_order(self.categories())
        &&& (self.interval() == STARTING_POLLING_INTERVAL || MIN_POLLING_INTERVAL
            <= self.interval() <= MAX_POLLING_INTERVAL)
    }

    /// A poller with the given credential, or the refusal to start without
    /// one. It starts with no category selected and the starting interval.
    pub fn new(credential: Option<String>) -> (started: Result<Poller, FetchError>)
        ensures
            credential is None <==> started is Err,
            started matches Err(error) ==> error == FetchError::MissingCredential,
            started matches Ok(poller) ==> {
                &&& poller.categories() == Seq::<Categories>::empty()
                &&& poller.interval() == STARTING_POLLING_INTERVAL
                &&& poller.credential() == credential->0@
                &&& poller.well_formed()
            },
    {
        match credential {
            Some(api_key) => Ok(
                Poller {
                    selected_categories: Vec::new(),
                    polling_interval: STARTING_POLLING_INTERVAL,
                    api_key,
                },
            ),
            None => Err(FetchError::MissingCredential),
        }
    }

    /// Begins a cycle. A pending configuration replaces the one in force
    /// entirely; without one, the configuration in force stays. Returns the
    /// address to fetch for the configuration that is then in force.
    pub fn begin_cycle(&mut self, update: Option<NewsReportConfig>) -> (address: String)
        ensures
            match update {
                Some(config) => {
                    &&& final(self).categories() == config.selected()
                    &&& final(self).interval() == config.interval()
                },
                None => {
                    &&& final(self).categories() == old(self).categories()
                    &&& final(self).interval() == old(self).interval()
                },
            },
            final(self).credential() == old(self).credential(),
            final(self).categories().no_duplicates(),
            final(self).well_formed(),
            address@ == query_address(final(self).categories(), final(self).credential()),
    {
        proof {
            use_type_invariant(&*self);
        }
        if let Some(config) = update {
            let (selected_categories, polling_interval) = config.into_parts();
            self.selected_categories = selected_categories;
            self.polling_interval = polling_interval;
        }
        proof {
            lemma_ordered_has_no_duplicates(self.selected_categories@);
        }
        build_query_address(&self.selected_categories, self.api_key.as_str())
    }

    /// Ends a cycle. A batch is published and the poller sleeps for the
    /// interval in force; any failure stops it.
    pub fn end_cycle(&self, outcome: Result<Articles, FetchError>) -> (action: CycleAction)
        ensures
            match outcome {
                Ok(batch) => action == (CycleAction::Publish {
                    batch,
                    sleep_seconds: self.interval(),
                }),
                Err(error) => action == (CycleAction::Abort { error }),
            },
    {
        match outcome {
            Ok(batch) => CycleAction::Publish { batch, sleep_seconds: self.polling_interval },
            Err(error) => CycleAction::Abort { error },
        }
    }

    /// The categories in force, in the order in which they are queried.
    pub fn selected_categories(&self) -> (list: &Vec<Categories>)
        ensures
            list@ == self.categories(),
            list@.no_duplicates(),
    {
        proof {
            use_type_invariant(self);
            lemma_ordered_has_no_duplicates(self.selected_categories@);
        }
        &self.selected_categories
    }

    /// Seconds between two fetches.
    pub fn polling_interval(&self) -> (seconds: u64)
        ensures
            seconds == self.interval(),
            seconds == STARTING_POLLING_INTERVAL || MIN_POLLING_INTERVAL <= seconds
                <= MAX_POLLING_INTERVAL,
    {
        proof {
            use_type_invariant(self);
        }
        self.polling_interval
    }
}

} // verus!
