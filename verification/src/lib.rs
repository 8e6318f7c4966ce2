//! Coordination core of a news-headline reader.
//!
//! A background poller fetches headlines for the categories the user selected
//! and a foreground view shows them. The two sides exchange values only:
//! the view hands the poller a [`NewsReportConfig`], the poller hands the view
//! an [`Articles`] batch. Everything here is a function from state and event
//! to next state and action; the caller performs the actions (the HTTP
//! request, the channel traffic, the sleep, the drawing).

pub mod article;
pub mod category;
pub mod config;
pub mod poller;
pub mod query;
pub mod view;

pub use article::{Article, ArticleView, Articles};
pub use category::{Categories, CATEGORY_COUNT};
pub use config::{ConfigView, NewsReportConfig};
pub use poller::{CycleAction, FetchError, Poller};
pub use view::NewsReports;
