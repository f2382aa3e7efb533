use vstd::prelude::*;

verus! {

/// What a record lookup gave: title, artist and the address of the image
/// bytes. An empty address marks an artwork without a usable image.
#[derive(Clone, Debug)]
pub struct ArtworkRecord {
    pub title: String,
    pub artist: String,
    pub url: String,
}

impl ArtworkRecord {
    /// Whether the record points at an image.
    pub open spec fn usable(&self) -> bool {
        self.url@.len() > 0
    }
}

/// Why one record lookup failed.
#[derive(Clone, Copy, Debug, PartialEq, Eq, Structural)]
pub enum LookupError {
    /// The request did not complete.
    Network,
    /// The answer could not be read as a record.
    Malformed,
}

/// Why no record could be chosen.
#[derive(Clone, Copy, Debug, PartialEq, Eq, Structural)]
pub enum SelectionError {
    /// Every attempt of the budget was spent without a usable record, or
    /// there was nothing to choose from.
    Exhausted,
}

/// The state of one resolution: how many attempts were spent, out of how
/// many.
#[derive(Clone, Copy, Debug, PartialEq, Eq, Structural)]
pub struct Selector {
    pub attempts: u32,
    pub max_tries: u32,
}

/// Whether another lookup is owed after `attempts` attempts, with a budget
/// of `max_tries` and `n` candidates to draw from.
pub open spec fn wants_lookup(attempts: nat, max_tries: nat, n: nat) -> bool {
    n > 0 && attempts < max_tries
}

/// Whether a lookup answer ends the resolution with a record.
pub open spec fn accepts(answer: Result<ArtworkRecord, LookupError>) -> bool {
    answer matches Ok(rec) && rec.usable()
}

impl Selector {
    /// A resolution that has made no attempt yet.
    pub fn new(max_tries: u32) -> (r: Selector)
        ensures
            r.attempts == 0,
            r.max_tries == max_tries,
    {
        Selector { attempts: 0, max_tries }
    }

    /// The identifier to look up next, drawn at `index`, or `None` when the
    /// budget is spent or there are no candidates: then the resolution has
    /// failed with `SelectionError::Exhausted`.
    pub fn next_candidate_at(&self, candidates: &Vec<u32>, index: usize) -> (r: Option<u32>)
        requires
            candidates@.len() > 0 ==> index < candidates@.len(),
        ensures
            r is Some <==> wants_lookup(
                self.attempts as nat,
                self.max_tries as nat,
                candidates@.len(),
            ),
            r matches Some(id) ==> id == candidates@[index as int],
    {
        if candidates.len() == 0 || self.attempts >= self.max_tries {
            None
        } else {
            Some(candidates[index])
        }
    }

    /// The identifier to look up next, drawn uniformly at random with
    /// replacement, or `None` when the resolution has failed.
    pub fn next_candidate(&self, candidates: &Vec<u32>) -> (r: Option<u32>)
        ensures
            r is Some <==> wants_lookup(
                self.attempts as nat,
                self.max_tries as nat,
                candidates@.len(),
            ),
            r matches Some(id) ==> candidates@.contains(id),
    {
        if candidates.len() == 0 {
            return None;
        }
        let index = random_index(candidates.len());
        let r = self.next_candidate_at(candidates, index);
        proof {
            if let Some(id) = r {
                assert(candidates@[index as int] == id);
            }
        }
        r
    }

    /// Spends one attempt on the answer of a lookup. Returns the record when
    /// it is usable, which ends the resolution; otherwise the resolution goes
    /// on, a failed lookup counting as an attempt like any other.
    pub fn record_answer(&mut self, answer: Result<ArtworkRecord, LookupError>) -> (r: Option<ArtworkRecord>)
        requires
            old(self).attempts < old(self).max_tries,
        ensures
            final(self).attempts == old(self).attempts + 1,
            final(self).max_tries == old(self).max_tries,
            r is Some <==> accepts(answer),
            r matches Some(rec) ==> answer == Ok::<ArtworkRecord, LookupError>(rec),
    {
        self.attempts = self.attempts + 1;
        match answer {
            Ok(rec) => {
                if !rec.url.as_str().is_empty() {
                    Some(rec)
                } else {
                    None
                }
            },
            Err(_) => None,
        }
    }
}

/// What a resolution came to: the record chosen, or why none was, the
/// number of lookups made, and the answers they gave, in order.
pub struct Resolution {
    pub outcome: Result<ArtworkRecord, SelectionError>,
    pub attempts: u32,
    pub answers: Ghost<Seq<Result<ArtworkRecord, LookupError>>>,
}

/// Whether `answer` is something `lookup` may give for one of `candidates`.
pub open spec fn answered_by<F: Fn(u32) -> Result<ArtworkRecord, LookupError>>(
    lookup: F,
    candidates: Seq<u32>,
    answer: Result<ArtworkRecord, LookupError>,
) -> bool {
    exists|id: u32| candidates.contains(id) && #[trigger] lookup.ensures((id,), answer)
}

/// Resolves `candidates` to a usable record: draws an identifier at random
/// with replacement, looks it up, and stops at the first record with an
/// image, for at most `max_tries` lookups; a failed lookup spends an attempt
/// too. With no candidates, or no budget, it fails at once.
pub fn resolve<F>(candidates: &Vec<u32>, lookup: F, max_tries: u32) -> (r: Resolution)
    where
        F: Fn(u32) -> Result<ArtworkRecord, LookupError>,
    requires
        forall|id: u32| candidates@.contains(id) ==> #[trigger] lookup.requires((id,)),
    ensures
        r.attempts <= max_tries,
        r.answers@.len() == r.attempts,
        forall|i: int| 0 <= i < r.answers@.len() ==> answered_by(lookup, candidates@, #[trigger] r.answers@[i]),
        forall|i: int| 0 <= i < r.answers@.len() - 1 ==> !accepts(#[trigger] r.answers@[i]),
        r.outcome matches Ok(rec) ==> rec.usable() && r.attempts >= 1 && r.answers@.last() == Ok::<
            ArtworkRecord,
            LookupError,
        >(rec),
        r.outcome is Err ==> r.outcome == Err::<ArtworkRecord, SelectionError>(SelectionError::Exhausted)
            && (candidates@.len() == 0 || r.attempts == max_tries) && forall|i: int|
            0 <= i < r.answers@.len() ==> !accepts(#[trigger] r.answers@[i]),
        candidates@.len() == 0 || max_tries == 0 ==> r.attempts == 0 && r.outcome == Err::<
            ArtworkRecord,
            SelectionError,
        >(SelectionError::Exhausted),
        candidates@.len() > 0 && max_tries > 0 && (forall|id: u32, a: Result<ArtworkRecord, LookupError>|
            #[trigger] lookup.ensures((id,), a) ==> accepts(a)) ==> r.outcome is Ok && r.attempts == 1,
        (forall|id: u32, a: Result<ArtworkRecord, LookupError>| #[trigger] lookup.ensures((id,), a)
            ==> !accepts(a)) ==> r.outcome is Err,
{
    let mut sel = Selector::new(max_tries);
    let ghost mut answers: Seq<Result<ArtworkRecord, LookupError>> = Seq::empty();
    loop
        invariant
            sel.max_tries == max_tries,
            sel.attempts <= max_tries,
            answers.len() == sel.attempts,
            forall|i: int| 0 <= i < answers.len() ==> answered_by(lookup, candidates@, #[trigger] answers[i]),
            forall|i: int| 0 <= i < answers.len() ==> !accepts(#[trigger] answers[i]),
            forall|id: u32| candidates@.contains(id) ==> #[trigger] lookup.requires((id,)),
            candidates@.len() == 0 ==> sel.attempts == 0,
            (forall|id: u32, a: Result<ArtworkRecord, LookupError>|
                #[trigger] lookup.ensures((id,), a) ==> accepts(a)) ==> sel.attempts == 0,
        decreases max_tries - sel.attempts,
    {
        match sel.next_candidate(candidates) {
            None => {
                return Resolution {
                    outcome: Err(SelectionError::Exhausted),
                    attempts: sel.attempts,
                    answers: Ghost(answers),
                };
            },
            Some(id) => {
                let answer = lookup(id);
                let ghost seen = answer;
                assert(answered_by(lookup, candidates@, seen));
                proof {
                    answers = answers.push(seen);
                }
                match sel.record_answer(answer) {
                    Some(rec) => {
                        assert(answers.last() == Ok::<ArtworkRecord, LookupError>(rec));
                        return Resolution { outcome: Ok(rec), attempts: sel.attempts, answers: Ghost(answers) };
                    },
                    None => {},
                }
            },
        }
    }
}

/// Relies on `rand::Rng::gen_range` over `rand::thread_rng`: a value drawn
/// from `0..bound`, which must not be empty.
#[verifier::external_body]
fn random_index(bound: usize) -> (r: usize)
    requires
        bound > 0,
    ensures
        r < bound,
{
    rand::Rng::gen_range(&mut rand::thread_rng(), 0, bound)
}

} // verus!
