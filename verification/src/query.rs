//! The address of a headline request: a fixed endpoint and country, one
//! `category` parameter per selected category, and the credential.

use crate::category::{lemma_names_are_distinct, Categories, CATEGORY_COUNT};
use crate::config::{count_set, lemma_selection_is_exact, selection};
use vstd::prelude::*;

verus! {

/// The endpoint with its fixed country parameter.
pub open spec fn endpoint() -> Seq<char> {
    "https://newsapi.org/v2/top-headlines?country=gb"@
}

/// The values of the `category` parameters of a query for `list`, in order:
/// the names of the categories.
pub open spec fn parameter_values(list: Seq<Categories>) -> Seq<Seq<char>> {
    list.map_values(|c: Categories| c.name())
}

/// One `category` parameter for each of `values`, one after the other.
pub open spec fn parameters_text(values: Seq<Seq<char>>) -> Seq<char>
    decreases values.len(),
{
    if values.len() == 0 {
        Seq::empty()
    } else {
        parameters_text(values.drop_last()) + "&category="@ + values.last()
    }
}

/// The parameters that ask for the categories of `list`.
pub open spec fn category_parameters(list: Seq<Categories>) -> Seq<char> {
    parameters_text(parameter_values(list))
}

/// The address that asks for the headlines of the categories of `list`.
pub open spec fn query_address(list: Seq<Categories>, api_key: Seq<char>) -> Seq<char> {
    endpoint() + category_parameters(list) + "&apiKey="@ + api_key
}

/// Writes the `category` parameters for `list`.
pub fn format_category_parameters(list: &Vec<Categories>) -> (text: String)
    ensures
        text@ == category_parameters(list@),
{
    let mut text = String::new();
    let mut i: usize = 0;
    while i < list.len()
        invariant
            i <= list.len(),
            text@ == category_parameters(list@.take(i as int)),
        decreases list.len() - i,
    {
        proof {
            let longer = parameter_values(list@.take(i + 1));
            assert(longer.drop_last() =~= parameter_values(list@.take(i as int)));
            assert(longer.last() == list@[i as int].name());
        }
        text.append("&category=");
        text.append(list[i].label());
        i += 1;
    }
    proof {
        assert(list@.take(list.len() as int) =~= list@);
    }
    text
}

/// Writes the address that asks for the headlines of the categories of
/// `list`, with `api_key` as the credential.
pub fn build_query_address(list: &Vec<Categories>, api_key: &str) -> (address: String)
    ensures
        address@ == query_address(list@, api_key@),
{
    let mut address = String::from_str("https://newsapi.org/v2/top-headlines?country=gb");
    let parameters = format_category_parameters(list);
    address.append(parameters.as_str());
    address.append("&apiKey=");
    address.append(api_key);
    address
}

/// A query built from a set of toggles carries one `category` parameter for
/// each category whose toggle is set and none for any other: its parameter
/// values are as many as the toggles that are set, no value occurs twice, and
/// a category's name is among them exactly if its toggle is set.
pub proof fn lemma_query_names_selection_once(flags: Seq<bool>)
    ensures
        parameter_values(selection(flags)).len() == count_set(flags, CATEGORY_COUNT as int),
        parameter_values(selection(flags)).no_duplicates(),
        forall|c: Categories| #[trigger]
            parameter_values(selection(flags)).contains(c.name()) <==> flags[c.index()],
{
    let chosen = selection(flags);
    let values = parameter_values(chosen);
    lemma_selection_is_exact(flags);
    assert forall|i: int, j: int| 0 <= i < values.len() && 0 <= j < values.len() && i != j implies values[i]
        != values[j] by {
        lemma_names_are_distinct(chosen[i], chosen[j]);
    }
    assert forall|c: Categories| #[trigger] values.contains(c.name()) <==> flags[c.index()] by {
        if values.contains(c.name()) {
            let k = choose|k: int| 0 <= k < values.len() && values[k] == c.name();
            if chosen[k] != c {
                lemma_names_are_distinct(chosen[k], c);
            }
            assert(chosen.contains(c));
        }
        if flags[c.index()] {
            assert(chosen.contains(c));
            let k = choose|k: int| 0 <= k < chosen.len() && chosen[k] == c;
            assert(values[k] == c.name());
        }
    }
}

} // verus!
