use vstd::prelude::*;
use crate::naming::{safe_name, wallpaper_file_name, NAME_EXTENSION, NAME_SEPARATOR};
use crate::resize::PipelineError;
use crate::selector::{accepts, wants_lookup, ArtworkRecord, LookupError, Selector};

verus! {

/// Why a run stopped before the wallpaper was saved. A failed record lookup
/// is no such reason: it only spends an attempt.
#[derive(Clone, Copy, Debug, PartialEq, Eq, Structural)]
pub enum RunError {
    /// The search of the collection failed; nothing is retried.
    SearchFailed,
    /// No usable record was found within the attempt budget.
    Exhausted,
    /// The image bytes could not be fetched.
    DownloadFailed,
    /// The image could not be decoded or transformed.
    Pipeline(PipelineError),
    /// The wallpaper file could not be written.
    SaveFailed,
}

/// Where a run stands.
#[derive(Clone, Copy, Debug, PartialEq, Eq, Structural)]
pub enum Phase {
    Searching,
    Selecting,
    Downloading,
    Processing,
    Saving,
    Applying,
    Finished,
}

/// What the run asks of the outside world next.
#[derive(Clone, Debug)]
pub enum Action {
    /// Look up the record of this identifier.
    LookUp(u32),
    /// Fetch the image bytes at this address.
    Download(String),
    /// Decode and transform the fetched bytes.
    Process,
    /// Write the transformed image under this file name.
    Save(String),
    /// Make the saved file with this name the desktop picture.
    Apply(String),
    /// The run is over: `None` once the wallpaper was saved, else the fatal
    /// error. A failure to apply the wallpaper is reported, not fatal.
    Stop(Option<RunError>),
}

/// One run: a search, a random selection, and the steps that make the chosen
/// artwork a wallpaper.
#[derive(Clone, Debug)]
pub struct Run {
    pub phase: Phase,
    pub candidates: Vec<u32>,
    pub selector: Selector,
    pub record: Option<ArtworkRecord>,
}

impl Run {
    /// While selecting, another lookup is owed; from downloading on, a usable
    /// record has been chosen.
    pub open spec fn wf(&self) -> bool {
        &&& self.phase == Phase::Selecting ==> wants_lookup(
            self.selector.attempts as nat,
            self.selector.max_tries as nat,
            self.candidates@.len(),
        )
        &&& (self.phase == Phase::Downloading || self.phase == Phase::Processing || self.phase
            == Phase::Saving || self.phase == Phase::Applying) ==> (self.record matches Some(rec)
            && rec.usable())
    }

    /// The name the chosen artwork is saved under.
    pub open spec fn file_name(&self) -> Seq<char> {
        safe_name(
            self.record->Some_0.artist@ + NAME_SEPARATOR@ + self.record->Some_0.title@
                + NAME_EXTENSION@,
        )
    }

    /// A run that is about to search, with `max_tries` lookups to spend.
    pub fn new(max_tries: u32) -> (r: Run)
        ensures
            r.wf(),
            r.phase == Phase::Searching,
            r.selector.attempts == 0,
            r.selector.max_tries == max_tries,
            r.record is None,
    {
        Run {
            phase: Phase::Searching,
            candidates: Vec::new(),
            selector: Selector::new(max_tries),
            record: None,
        }
    }

    /// Draws the next candidate, or ends the run as exhausted.
    fn next_lookup(&mut self) -> (r: Action)
        requires
            old(self).phase == Phase::Selecting || old(self).phase == Phase::Searching,
            old(self).record is None,
        ensures
            final(self).wf(),
            final(self).selector == old(self).selector,
            final(self).candidates == old(self).candidates,
            final(self).record is None,
            wants_lookup(
                old(self).selector.attempts as nat,
                old(self).selector.max_tries as nat,
                old(self).candidates@.len(),
            ) ==> final(self).phase == Phase::Selecting && (r matches Action::LookUp(id)
                && old(self).candidates@.contains(id)),
            !wants_lookup(
                old(self).selector.attempts as nat,
                old(self).selector.max_tries as nat,
                old(self).candidates@.len(),
            ) ==> final(self).phase == Phase::Finished && r == Action::Stop(
                Some(RunError::Exhausted),
            ),
    {
        match self.selector.next_candidate(&self.candidates) {
            Some(id) => {
                self.phase = Phase::Selecting;
                Action::LookUp(id)
            },
            None => {
                self.phase = Phase::Finished;
                Action::Stop(Some(RunError::Exhausted))
            },
        }
    }

    /// The search answered with identifiers, or failed (`None`). A failed
    /// search ends the run at once, before any lookup.
    pub fn searched(&mut self, ids: Option<Vec<u32>>) -> (r: Action)
        requires
            old(self).wf(),
            old(self).phase == Phase::Searching,
            old(self).selector.attempts == 0,
            old(self).record is None,
        ensures
            final(self).wf(),
            final(self).selector == old(self).selector,
            final(self).record is None,
            ids is None ==> final(self).phase == Phase::Finished && r == Action::Stop(
                Some(RunError::SearchFailed),
            ),
            ids matches Some(c) ==> final(self).candidates@ == c@ && if wants_lookup(
                0,
                old(self).selector.max_tries as nat,
                c@.len(),
            ) {
                final(self).phase == Phase::Selecting && (r matches Action::LookUp(id)
                    && c@.contains(id))
            } else {
                final(self).phase == Phase::Finished && r == Action::Stop(
                    Some(RunError::Exhausted),
                )
            },
    {
        match ids {
            None => {
                self.phase = Phase::Finished;
                Action::Stop(Some(RunError::SearchFailed))
            },
            Some(c) => {
                self.candidates = c;
                self.next_lookup()
            },
        }
    }

    /// A record lookup answered. A usable record moves the run on to its
    /// download; anything else spends the attempt and draws again.
    pub fn looked_up(&mut self, answer: Result<ArtworkRecord, LookupError>) -> (r: Action)
        requires
            old(self).wf(),
            old(self).phase == Phase::Selecting,
            old(self).record is None,
        ensures
            final(self).wf(),
            final(self).selector.attempts == old(self).selector.attempts + 1,
            final(self).selector.max_tries == old(self).selector.max_tries,
            final(self).candidates == old(self).candidates,
            accepts(answer) ==> final(self).phase == Phase::Downloading && final(self).record
                == Some(answer->Ok_0) && r == Action::Download(answer->Ok_0.url),
            !accepts(answer) ==> final(self).record is None && if wants_lookup(
                final(self).selector.attempts as nat,
                final(self).selector.max_tries as nat,
                final(self).candidates@.len(),
            ) {
                final(self).phase == Phase::Selecting && (r matches Action::LookUp(id)
                    && final(self).candidates@.contains(id))
            } else {
                final(self).phase == Phase::Finished && r == Action::Stop(
                    Some(RunError::Exhausted),
                )
            },
    {
        match self.selector.record_answer(answer) {
            Some(rec) => {
                let url = rec.url.clone();
                self.record = Some(rec);
                self.phase = Phase::Downloading;
                Action::Download(url)
            },
            None => self.next_lookup(),
        }
    }

    /// The image bytes were fetched, or not.
    pub fn downloaded(&mut self, ok: bool) -> (r: Action)
        requires
            old(self).wf(),
            old(self).phase == Phase::Downloading,
        ensures
            final(self).wf(),
            final(self).record == old(self).record,
            final(self).selector == old(self).selector,
            ok ==> final(self).phase == Phase::Processing && r == Action::Process,
            !ok ==> final(self).phase == Phase::Finished && r == Action::Stop(
                Some(RunError::DownloadFailed),
            ),
    {
        if ok {
            self.phase = Phase::Processing;
            Action::Process
        } else {
            self.phase = Phase::Finished;
            Action::Stop(Some(RunError::DownloadFailed))
        }
    }

    /// The image was transformed, or the pipeline stopped with `Err(e)`.
    pub fn processed(&mut self, outcome: Result<(), PipelineError>) -> (r: Action)
        requires
            old(self).wf(),
            old(self).phase == Phase::Processing,
        ensures
            final(self).wf(),
            final(self).record == old(self).record,
            final(self).selector == old(self).selector,
            outcome is Ok ==> final(self).phase == Phase::Saving && (r matches Action::Save(name)
                && name@ == old(self).file_name()),
            outcome matches Err(e) ==> final(self).phase == Phase::Finished && r == Action::Stop(
                Some(RunError::Pipeline(e)),
            ),
    {
        match outcome {
            Ok(()) => {
                self.phase = Phase::Saving;
                Action::Save(self.chosen_file_name())
            },
            Err(e) => {
                self.phase = Phase::Finished;
                Action::Stop(Some(RunError::Pipeline(e)))
            },
        }
    }

    fn chosen_file_name(&self) -> (r: String)
        requires
            self.record is Some,
        ensures
            r@ == self.file_name(),
    {
        match &self.record {
            Some(rec) => wallpaper_file_name(rec.artist.as_str(), rec.title.as_str()),
            None => String::new(),
        }
    }

    /// The wallpaper file was written, or not. Only a written file is applied.
    pub fn saved(&mut self, ok: bool) -> (r: Action)
        requires
            old(self).wf(),
            old(self).phase == Phase::Saving,
        ensures
            final(self).wf(),
            final(self).record == old(self).record,
            final(self).selector == old(self).selector,
            ok ==> final(self).phase == Phase::Applying && (r matches Action::Apply(name)
                && name@ == old(self).file_name()),
            !ok ==> final(self).phase == Phase::Finished && r == Action::Stop(
                Some(RunError::SaveFailed),
            ),
    {
        if ok {
            self.phase = Phase::Applying;
            Action::Apply(self.chosen_file_name())
        } else {
            self.phase = Phase::Finished;
            Action::Stop(Some(RunError::SaveFailed))
        }
    }

    /// The desktop picture was set, or not: either way the run has succeeded,
    /// as the wallpaper is saved.
    pub fn applied(&mut self) -> (r: Action)
        requires
            old(self).wf(),
            old(self).phase == Phase::Applying,
        ensures
            final(self).wf(),
            final(self).phase == Phase::Finished,
            final(self).record == old(self).record,
            r == Action::Stop(None),
    {
        self.phase = Phase::Finished;
        Action::Stop(None)
    }
}

} // verus!
