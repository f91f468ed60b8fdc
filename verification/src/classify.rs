//! The classifier: a pure decision from the session's site lists and a site
//! identity to distraction-or-not, with the whitelist taking precedence.

use crate::state::{site_set, AppState};
use vstd::prelude::*;

verus! {

/// What classification means: a site is a distraction exactly when it is in
/// the distraction set and not in the whitelist.
pub open spec fn spec_is_distraction(
    distractions: Set<Seq<char>>,
    whitelist: Set<Seq<char>>,
    site: Seq<char>,
) -> bool {
    !whitelist.contains(site) && distractions.contains(site)
}

/// Whether `site` names the same string as some element of `sites`.
fn contains_site(sites: &Vec<String>, site: &String) -> (r: bool)
    ensures
        r == site_set(sites@).contains(site@),
{
    let mut i: usize = 0;
    while i < sites.len()
        invariant
            0 <= i <= sites@.len(),
            forall|j: int| 0 <= j < i ==> sites@[j]@ != site@,
        decreases sites@.len() - i,
    {
        if sites[i] == *site {
            assert(site_set(sites@).contains(site@));
            return true;
        }
        i += 1;
    }
    assert(!site_set(sites@).contains(site@));
    false
}

/// Decide whether `site` counts as a distraction under the current session
/// settings: false whenever the whitelist holds it, else membership in the
/// distraction set.
pub fn is_distraction_website(appstate: &AppState, site: &str) -> (r: bool)
    ensures
        r == spec_is_distraction(
            site_set(appstate.distraction_sites@),
            site_set(appstate.whitelist_sites@),
            site@,
        ),
{
    let owned = site.to_owned();
    if contains_site(&appstate.whitelist_sites, &owned) {
        return false;
    }
    contains_site(&appstate.distraction_sites, &owned)
}

/// Law: the whitelist wins unconditionally. A whitelisted site is never a
/// distraction, whatever the distraction set holds.
pub proof fn lemma_whitelist_precedence(
    distractions: Set<Seq<char>>,
    whitelist: Set<Seq<char>>,
    site: Seq<char>,
)
    requires
        whitelist.contains(site),
    ensures
        !spec_is_distraction(distractions, whitelist, site),
{
}

} // verus!
