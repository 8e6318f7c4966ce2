//! Headlines as the headline source returns them.

use vstd::prelude::*;

verus! {

/// One headline: its title and the address of the full story.
#[derive(Clone, Debug, PartialEq, Eq)]
pub struct Article {
    pub title: String,
    pub url: String,
}

/// What an [`Article`] says, as plain text.
pub struct ArticleView {
    pub title: Seq<char>,
    pub url: Seq<char>,
}

impl View for Article {
    type V = ArticleView;

    open spec fn view(&self) -> ArticleView {
        ArticleView { title: self.title@, url: self.url@ }
    }
}

/// The articles of one fetch, in the order the source gave them.
#[derive(Clone, Debug, PartialEq, Eq)]
pub struct Articles {
    pub articles: Vec<Article>,
}

impl View for Articles {
    type V = Seq<ArticleView>;

    open spec fn view(&self) -> Seq<ArticleView> {
        self.articles@.map_values(|a: Article| a@)
    }
}

impl Article {
    /// An article with the given title and address.
    pub fn new(title: String, url: String) -> (article: Article)
        ensures
            article.title == title,
            article.url == url,
    {
        Article { title, url }
    }
}

impl Articles {
    /// The batch that holds `articles` in their order.
    pub fn new(articles: Vec<Article>) -> (batch: Articles)
        ensures
            batch.articles == articles,
    {
        Articles { articles }
    }

    /// Number of articles in the batch.
    pub fn len(&self) -> (n: usize)
        ensures
            n == self@.len(),
    {
        self.articles.len()
    }
}

} // verus!
