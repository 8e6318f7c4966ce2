//! The closed set of news categories and its stable enumeration order.

use vstd::prelude::*;

verus! {

/// Number of categories.
pub const CATEGORY_COUNT: usize = 7;

/// A news topic. The declaration order is the enumeration order: it is the
/// order of the settings toggles and of the parameters of a query.
#[derive(Clone, Copy, Debug, PartialEq, Eq, Structural, Hash)]
pub enum Categories {
    Business,
    Entertainment,
    General,
    Health,
    Science,
    Sports,
    Technology,
}

/// The category at position `i` of the enumeration order.
pub open spec fn category_at(i: int) -> Categories {
    if i == 0 {
        Categories::Business
    } else if i == 1 {
        Categories::Entertainment
    } else if i == 2 {
        Categories::General
    } else if i == 3 {
        Categories::Health
    } else if i == 4 {
        Categories::Science
    } else if i == 5 {
        Categories::Sports
    } else {
        Categories::Technology
    }
}

/// All categories, in enumeration order.
pub open spec fn all_categories() -> Seq<Categories> {
    Seq::new(CATEGORY_COUNT as nat, |i: int| category_at(i))
}

impl Categories {
    /// Position of the category in the enumeration order.
    pub open spec fn index(self) -> int {
        match self {
            Categories::Business => 0,
            Categories::Entertainment => 1,
            Categories::General => 2,
            Categories::Health => 3,
            Categories::Science => 4,
            Categories::Sports => 5,
            Categories::Technology => 6,
        }
    }

    /// The category's label, which is also its query parameter value.
    pub open spec fn name(self) -> Seq<char> {
        match self {
            Categories::Business => "Business"@,
            Categories::Entertainment => "Entertainment"@,
            Categories::General => "General"@,
            Categories::Health => "Health"@,
            Categories::Science => "Science"@,
            Categories::Sports => "Sports"@,
            Categories::Technology => "Technology"@,
        }
    }

    /// The label as static text.
    pub fn label(&self) -> (s: &'static str)
        ensures
            s@ == self.name(),
    {
        match self {
            Categories::Business => "Business",
            Categories::Entertainment => "Entertainment",
            Categories::General => "General",
            Categories::Health => "Health",
            Categories::Science => "Science",
            Categories::Sports => "Sports",
            Categories::Technology => "Technology",
        }
    }

    /// The label as an owned string.
    pub fn to_string(&self) -> (s: String)
        ensures
            s@ == self.name(),
    {
        self.label().to_owned()
    }

    /// Position of the category in the enumeration order.
    pub fn position(&self) -> (i: usize)
        ensures
            i == self.index(),
            i < CATEGORY_COUNT,
    {
        match self {
            Categories::Business => 0,
            Categories::Entertainment => 1,
            Categories::General => 2,
            Categories::Health => 3,
            Categories::Science => 4,
            Categories::Sports => 5,
            Categories::Technology => 6,
        }
    }

    /// The category at position `i`, if there is one.
    pub fn from_position(i: usize) -> (c: Option<Categories>)
        ensures
            i < CATEGORY_COUNT ==> c == Some(category_at(i as int)),
            i >= CATEGORY_COUNT ==> c is None,
    {
        if i == 0 {
            Some(Categories::Business)
        } else if i == 1 {
            Some(Categories::Entertainment)
        } else if i == 2 {
            Some(Categories::General)
        } else if i == 3 {
            Some(Categories::Health)
        } else if i == 4 {
            Some(Categories::Science)
        } else if i == 5 {
            Some(Categories::Sports)
        } else if i == 6 {
            Some(Categories::Technology)
        } else {
            None
        }
    }

    /// All categories, in enumeration order.
    pub fn all() -> (list: [Categories; 7])
        ensures
            list@ == all_categories(),
    {
        [
            Categories::Business,
            Categories::Entertainment,
            Categories::General,
            Categories::Health,
            Categories::Science,
            Categories::Sports,
            Categories::Technology,
        ]
    }
}

/// Position and category determine each other: the enumeration order lists
/// every category exactly once.
pub proof fn lemma_enumeration_is_bijective()
    ensures
        forall|c: Categories| 0 <= #[trigger] c.index() < CATEGORY_COUNT,
        forall|c: Categories| category_at(#[trigger] c.index()) == c,
        forall|i: int| 0 <= i < CATEGORY_COUNT ==> (#[trigger] category_at(i)).index() == i,
        all_categories().no_duplicates(),
        forall|c: Categories| all_categories().contains(c),
{
    assert forall|c: Categories| all_categories().contains(c) by {
        assert(all_categories()[c.index()] == c);
    }
}

/// Distinct categories have distinct labels.
pub proof fn lemma_names_are_distinct(a: Categories, b: Categories)
    requires
        a != b,
    ensures
        a.name() != b.name(),
{
    reveal_strlit("Business");
    reveal_strlit("Entertainment");
    reveal_strlit("General");
    reveal_strlit("Health");
    reveal_strlit("Science");
    reveal_strlit("Sports");
    reveal_strlit("Technology");
    assert(a.name().len() != b.name().len() || a.name()[0] != b.name()[0]);
}

} // verus!
