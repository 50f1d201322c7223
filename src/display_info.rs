//! What the output collaborator reports of each attached display.
use vstd::prelude::*;

use crate::search::{first_match, lemma_first_match_at, lemma_first_match_none};
use crate::text::{contains, is_substring};

verus! {

/// One output as the output collaborator lists it.
#[derive(Clone, Debug)]
pub struct DisplayInfo {
    pub model: String,
    pub name: String,
    pub description: String,
}

impl DisplayInfo {
    /// `display_name` occurs in the name, the model or the description.
    pub open spec fn matches(self, display_name: Seq<char>) -> bool {
        is_substring(display_name, self.name@) || is_substring(display_name, self.model@)
            || is_substring(display_name, self.description@)
    }

    /// Match the display name against the display's name, model or description.
    pub fn match_name(&self, display_name: &str) -> (r: bool)
        ensures
            r == self.matches(display_name@),
    {
        contains(self.name.as_str(), display_name) || contains(self.model.as_str(), display_name)
            || contains(self.description.as_str(), display_name)
    }
}

/// The position of the first display that `display_name` matches.
pub fn find_display(displays: &Vec<DisplayInfo>, display_name: &str) -> (r: Option<usize>)
    ensures
        match r {
            Some(k) => k < displays@.len() && first_match(
                displays@,
                |d: DisplayInfo| d.matches(display_name@),
            ) == Some(k as int),
            None => first_match(displays@, |d: DisplayInfo| d.matches(display_name@)) == None::<
                int,
            >,
        },
{
    let ghost p = |d: DisplayInfo| d.matches(display_name@);
    let mut i: usize = 0;
    while i < displays.len()
        invariant
            i <= displays@.len(),
            p == (|d: DisplayInfo| d.matches(display_name@)),
            forall|j: int| 0 <= j < i ==> !p(#[trigger] displays@[j]),
        decreases displays@.len() - i,
    {
        if displays[i].match_name(display_name) {
            proof {
                lemma_first_match_at(displays@, p, i as int);
            }
            return Some(i);
        }
        i = i + 1;
    }
    proof {
        lemma_first_match_none(displays@, p);
    }
    None
}

} // verus!
