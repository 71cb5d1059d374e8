//! Content filter: decides whether a playback item is eligible for
//! display, from the media-type blacklist and the per-library
//! exclusion scan.
//!
//! The per-library test ("is this item in that library?") is a network
//! call made by the caller; `LibraryScan` drives it one lookup at a
//! time and guarantees that no lookup is requested once the verdict is
//! already decided.

use vstd::prelude::*;

use crate::media::MediaType;
use crate::media::PlaybackItem;

verus! {

/// Configuration-supplied exclusion rules, read-only to the engine.
pub struct BlacklistRule {
    /// Media types that are never displayed.
    pub media_types: Vec<MediaType>,
    /// Library names whose members are never displayed.
    pub libraries: Vec<String>,
}

/// True when `mt` occurs in the excluded media-type list.
pub open spec fn media_type_excluded(mt: MediaType, excluded: Seq<MediaType>) -> bool {
    exists|i: int| 0 <= i < excluded.len() && excluded[i] == mt
}

/// Eligibility before any library lookup: something must be playing,
/// and its media type must not be blacklisted.
pub open spec fn spec_media_eligible(mt: MediaType, rule: BlacklistRule) -> bool {
    !(mt is Nothing) && !media_type_excluded(mt, rule.media_types@)
}

/// Runtime media-type eligibility test; issues no lookups.
pub fn media_eligible(mt: MediaType, rule: &BlacklistRule) -> (r: bool)
    ensures
        r == spec_media_eligible(mt, *rule),
{
    if mt.is_nothing() {
        return false;
    }
    let mut i: usize = 0;
    while i < rule.media_types.len()
        invariant
            i <= rule.media_types@.len(),
            forall|j: int| 0 <= j < i ==> rule.media_types@[j] != mt,
        decreases rule.media_types@.len() - i,
    {
        if rule.media_types[i] == mt {
            return false;
        }
        i += 1;
    }
    true
}

/// Progress of the per-library exclusion scan.  The caller performs
/// the lookup that `pending_lookup` names, then feeds the answer back
/// through `record`.
pub struct LibraryScan {
    /// Index of the next library still to be checked.
    pub next_index: usize,
    /// Whether some already-checked library contained the item.
    pub excluded: bool,
}

impl LibraryScan {
    /// The scan's bookkeeping stays within the rule's library list.
    pub open spec fn wf(self, rule: BlacklistRule) -> bool {
        self.next_index <= rule.libraries@.len()
    }

    /// The lookup the caller owes next, if the scan is still undecided:
    /// `Some(lib)` exactly when no exclusion was found yet and
    /// libraries remain.
    pub open spec fn spec_pending(self, rule: BlacklistRule) -> Option<int> {
        if !self.excluded && self.next_index < rule.libraries@.len() {
            Some(self.next_index as int)
        } else {
            None
        }
    }

    /// A fresh scan: nothing checked, nothing excluded.
    pub fn start() -> (s: Self)
        ensures
            s.next_index == 0,
            !s.excluded,
    {
        LibraryScan { next_index: 0, excluded: false }
    }

    /// Names the next library to look up, or `None` when the scan is
    /// finished — in particular, `None` as soon as an exclusion is
    /// confirmed, so no unnecessary lookup is ever issued.
    pub fn pending_lookup<'a>(&self, rule: &'a BlacklistRule) -> (r: Option<&'a String>)
        requires
            self.wf(*rule),
        ensures
            match r {
                Some(lib) => {
                    &&& self.spec_pending(*rule) == Some(self.next_index as int)
                    &&& lib@ == rule.libraries@[self.next_index as int]@
                },
                None => self.spec_pending(*rule) is None,
            },
    {
        if !self.excluded && self.next_index < rule.libraries.len() {
            Some(&rule.libraries[self.next_index])
        } else {
            None
        }
    }

    /// Records one lookup's answer: the scan moves past that library,
    /// and the exclusion verdict latches once any answer is positive.
    pub fn record(&mut self, in_library: bool)
        requires
            old(self).next_index < usize::MAX,
        ensures
            final(self).next_index == old(self).next_index + 1,
            final(self).excluded == (old(self).excluded || in_library),
    {
        self.next_index = self.next_index + 1;
        self.excluded = self.excluded || in_library;
    }
}

/// The full display verdict, once the library scan's aggregate answer
/// is known: media-eligible and in no excluded library.
pub open spec fn spec_displayable(mt: MediaType, rule: BlacklistRule, library_excluded: bool) -> bool {
    spec_media_eligible(mt, rule) && !library_excluded
}

/// Runtime display verdict; `library_excluded` is the latched outcome
/// of the caller-driven library scan.
pub fn is_displayable(item: &PlaybackItem, rule: &BlacklistRule, library_excluded: bool) -> (r: bool)
    ensures
        r == spec_displayable(item.media_type, *rule, library_excluded),
{
    media_eligible(item.media_type, rule) && !library_excluded
}

/// A blacklisted media type is never displayable, whatever the library
/// scan would have said.
pub proof fn lemma_media_type_blacklist_decides(
    mt: MediaType,
    rule: BlacklistRule,
    library_excluded: bool,
)
    requires
        media_type_excluded(mt, rule.media_types@),
    ensures
        !spec_displayable(mt, rule, library_excluded),
{
}

/// Once an exclusion is confirmed, the scan requests no further
/// lookups, whatever libraries remain.
pub proof fn lemma_scan_short_circuits(scan: LibraryScan, rule: BlacklistRule)
    requires
        scan.excluded,
    ensures
        scan.spec_pending(rule) is None,
{
}

/// The verdict a sequence of recorded lookup answers latches into the
/// scan: `false` before any answer, then the running disjunction, as
/// `LibraryScan::record` folds it one answer at a time.
pub open spec fn spec_scan_excluded(answers: Seq<bool>) -> bool
    decreases answers.len(),
{
    if answers.len() == 0 {
        false
    } else {
        spec_scan_excluded(answers.drop_last()) || answers.last()
    }
}

/// The latched verdict excludes the item exactly when some library
/// lookup answered positively.
pub proof fn lemma_scan_excluded_iff_any(answers: Seq<bool>)
    ensures
        spec_scan_excluded(answers) <==> exists|i: int| 0 <= i < answers.len() && answers[i],
    decreases answers.len(),
{
    if answers.len() > 0 {
        let prefix = answers.drop_last();
        lemma_scan_excluded_iff_any(prefix);
        if spec_scan_excluded(answers) {
            if spec_scan_excluded(prefix) {
                let i = choose|i: int| 0 <= i < prefix.len() && prefix[i];
                assert(answers[i]);
            } else {
                assert(answers[answers.len() - 1]);
            }
        }
        if exists|i: int| 0 <= i < answers.len() && answers[i] {
            let i = choose|i: int| 0 <= i < answers.len() && answers[i];
            if i < answers.len() - 1 {
                assert(prefix[i]);
            }
        }
    }
}

} // verus!
