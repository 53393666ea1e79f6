//! Named text values: the parameters of a query, or the variables of an
//! environment.

use vstd::prelude::*;
use vstd::string::*;
use crate::text;

verus! {

/// Text values by name. Of two values set under one name the later one counts.
#[derive(Debug)]
pub struct Params {
    pairs: Vec<(String, String)>,
}

/// The values by name that a list of settings makes.
pub open spec fn settings(pairs: Seq<(String, String)>) -> Map<Seq<char>, Seq<char>>
    decreases pairs.len(),
{
    if pairs.len() == 0 {
        Map::empty()
    } else {
        settings(pairs.drop_last()).insert(pairs.last().0@, pairs.last().1@)
    }
}

impl View for Params {
    type V = Map<Seq<char>, Seq<char>>;

    closed spec fn view(&self) -> Map<Seq<char>, Seq<char>> {
        settings(self.pairs@)
    }
}

/// The value under a name, if there is one.
pub open spec fn value_of(m: Map<Seq<char>, Seq<char>>, name: Seq<char>) -> Option<Seq<char>> {
    if m.contains_key(name) {
        Some(m[name])
    } else {
        None
    }
}

impl Params {
    /// No values.
    pub fn new() -> (r: Params)
        ensures
            r@ == Map::<Seq<char>, Seq<char>>::empty(),
    {
        Params { pairs: Vec::new() }
    }

    /// Set the value under a name.
    pub fn insert(&mut self, name: &str, value: &str)
        ensures
            final(self)@ == old(self)@.insert(name@, value@),
    {
        self.pairs.push((name.to_owned(), value.to_owned()));
        proof {
            assert(self.pairs@.drop_last() =~= old(self).pairs@);
        }
    }

    /// The value under a name.
    pub fn get(&self, name: &str) -> (r: Option<&str>)
        ensures
            r.deep_view() == value_of(self@, name@),
    {
        let mut i: usize = self.pairs.len();
        proof {
            assert(self.pairs@.take(i as int) =~= self.pairs@);
        }
        while i > 0
            invariant
                i <= self.pairs@.len(),
                value_of(self@, name@) == value_of(settings(self.pairs@.take(i as int)), name@),
            decreases i,
        {
            i = i - 1;
            proof {
                assert(self.pairs@.take(i + 1).drop_last() =~= self.pairs@.take(i as int));
            }
            if text::same_text(&self.pairs[i].0, name) {
                return Some(self.pairs[i].1.as_str());
            }
        }
        None
    }
}

} // verus!
