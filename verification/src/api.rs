//! The session registry: a process-wide mapping from session id to feature
//! extractor, orchestrating start, push, preview, finalize, export and
//! import.

use crate::event::{EventModel, InputEvent};
use crate::feature::{
    fresh, replay, spec_editing_features, spec_source_features, spec_timing_features, step,
    ExtractorModel, FeatureExtractor,
};
use crate::profile::{CoreError, InputProfile, ProfileModel, SessionSnapshot};
use crate::rules::{spec_tags, RuleEngine};
use crate::structure::{spec_structure, StructureAnalyzer};
use crate::text::lower_of;
use std::collections::HashMap;
use vstd::prelude::*;

verus! {

broadcast use vstd::std_specs::hash::group_hash_axioms;

/// The profile computed for an extractor state `m` under session id `id`,
/// with final text `t` whose lowercase form is `l`.
pub open spec fn spec_profile(m: ExtractorModel, id: u128, t: Seq<char>, l: Seq<char>) -> ProfileModel {
    let source = spec_source_features(m);
    let timing = spec_timing_features(m);
    let st = spec_structure(t, l);
    let editing = spec_editing_features(m, st.char_count);
    ProfileModel {
        message_id: id,
        source,
        timing,
        editing,
        structure: st,
        tags: spec_tags(source, timing, editing, st),
        ghost_text: m.ghost_texts,
    }
}

/// Relies on uuid::Uuid::new_v4 for a random version-4 identifier, read out
/// as its 128-bit value with uuid::Uuid::as_u128. The result is random, so
/// nothing is promised of it.
#[verifier::external_body]
fn fresh_session_id() -> (r: u128) {
    uuid::Uuid::new_v4().as_u128()
}

/// Assembles the profile of one extractor state for the given text.
fn build_profile(fe: &FeatureExtractor, id: u128, text: &str) -> (p: InputProfile)
    ensures
        p@ == spec_profile(fe@, id, text@, lower_of(text@)),
{
    let source = fe.extract_source_features();
    let timing = fe.extract_timing_features();
    let structure = StructureAnalyzer::analyze(text);
    let editing = fe.extract_editing_features(structure.char_count);
    let tags = RuleEngine::apply(&source, &timing, &editing, &structure);
    let ghost_text = fe.get_ghost_texts();
    let p = InputProfile { message_id: id, source, timing, editing, structure, tags, ghost_text };
    proof {
        assert(p@ =~= spec_profile(fe@, id, text@, lower_of(text@)));
    }
    p
}

/// The registry of live sessions.
pub struct IflCore {
    sessions: HashMap<u128, FeatureExtractor>,
}

impl View for IflCore {
    type V = Map<u128, ExtractorModel>;

    closed spec fn view(&self) -> Map<u128, ExtractorModel> {
        self.sessions@.map_values(|fe: FeatureExtractor| fe@)
    }
}

impl IflCore {
    /// A registry with no live session.
    pub fn new() -> (r: IflCore)
        ensures
            r@ == Map::<u128, ExtractorModel>::empty(),
    {
        let r = IflCore { sessions: HashMap::new() };
        proof {
            assert(r@ =~= Map::<u128, ExtractorModel>::empty());
        }
        r
    }

    /// Opens a new session under a fresh id. The one failure is the freshly
    /// drawn id colliding with a live session; the registry is then left
    /// unchanged.
    pub fn start_message(&mut self) -> (r: Result<u128, CoreError>)
        ensures
            r matches Ok(id) ==> !old(self)@.contains_key(id) && final(self)@ == old(self)@.insert(
                id,
                fresh(),
            ),
            r matches Err(e) ==> e == CoreError::InternalInvariant && final(self)@ == old(self)@,
    {
        let id = fresh_session_id();
        if self.sessions.contains_key(&id) {
            Err(CoreError::InternalInvariant)
        } else {
            self.sessions.insert(id, FeatureExtractor::new());
            proof {
                assert(self@ =~= old(self)@.insert(id, fresh()));
            }
            Ok(id)
        }
    }

    /// Applies one event to the session's extractor, in arrival order.
    pub fn push_event(&mut self, id: u128, event: InputEvent) -> (r: Result<(), CoreError>)
        ensures
            old(self)@.contains_key(id) ==> r is Ok && final(self)@ == old(self)@.insert(
                id,
                step(old(self)@[id], event@),
            ),
            !old(self)@.contains_key(id) ==> r == Err::<(), CoreError>(CoreError::NotFound)
                && final(self)@ == old(self)@,
    {
        match self.sessions.remove(&id) {
            Some(mut fe) => {
                fe.process_event(&event);
                self.sessions.insert(id, fe);
                proof {
                    assert(self@ =~= old(self)@.insert(id, step(old(self)@[id], event@)));
                }
                Ok(())
            },
            None => {
                proof {
                    assert(self@ =~= old(self)@);
                }
                Err(CoreError::NotFound)
            },
        }
    }

    /// A non-destructive read: the profile of the session as it stands, for
    /// the current text.
    pub fn preview_message(&self, id: u128, current_text: &str) -> (r: Result<
        InputProfile,
        CoreError,
    >)
        ensures
            self@.contains_key(id) ==> (r matches Ok(p) && p@ == spec_profile(
                self@[id],
                id,
                current_text@,
                lower_of(current_text@),
            )),
            !self@.contains_key(id) ==> r == Err::<InputProfile, CoreError>(CoreError::NotFound),
    {
        match self.sessions.get(&id) {
            Some(fe) => Ok(build_profile(fe, id, current_text)),
            None => Err(CoreError::NotFound),
        }
    }

    /// Destructively closes the session: removes it and yields its profile
    /// for the final text. A second call with the same id finds no session
    /// and reports `NotFound`.
    pub fn finalize_message(&mut self, id: u128, final_text: &str) -> (r: Result<
        InputProfile,
        CoreError,
    >)
        ensures
            old(self)@.contains_key(id) ==> (r matches Ok(p) && p@ == spec_profile(
                old(self)@[id],
                id,
                final_text@,
                lower_of(final_text@),
            ) && final(self)@ == old(self)@.remove(id)),
            !old(self)@.contains_key(id) ==> r == Err::<InputProfile, CoreError>(
                CoreError::NotFound,
            ) && final(self)@ == old(self)@,
    {
        match self.sessions.remove(&id) {
            Some(fe) => {
                proof {
                    assert(self@ =~= old(self)@.remove(id));
                }
                Ok(build_profile(&fe, id, final_text))
            },
            None => {
                proof {
                    assert(self@ =~= old(self)@);
                }
                Err(CoreError::NotFound)
            },
        }
    }

    /// A copy of the session's ordered event log.
    pub fn export_events(&self, id: u128) -> (r: Result<Vec<InputEvent>, CoreError>)
        ensures
            self@.contains_key(id) ==> (r matches Ok(events) && events@.map_values(
                |e: InputEvent| e@,
            ) == self@[id].events),
            !self@.contains_key(id) ==> r == Err::<Vec<InputEvent>, CoreError>(CoreError::NotFound),
    {
        match self.sessions.get(&id) {
            Some(fe) => Ok(fe.get_events()),
            None => Err(CoreError::NotFound),
        }
    }

    /// Opens a fresh session and replays the given event log into it, in
    /// order. The new session's state is exactly the replay of the log, so
    /// it finalizes to the same profile as the log's source session.
    pub fn import_events(&mut self, events: &Vec<InputEvent>) -> (r: Result<u128, CoreError>)
        ensures
            r matches Ok(id) ==> !old(self)@.contains_key(id) && final(self)@ == old(self)@.insert(
                id,
                replay(events@.map_values(|e: InputEvent| e@)),
            ),
            r matches Err(e) ==> e == CoreError::InternalInvariant && final(self)@ == old(self)@,
    {
        let ghost evs = events@.map_values(|e: InputEvent| e@);
        let id = match self.start_message() {
            Ok(id) => id,
            Err(e) => {
                return Err(e);
            },
        };
        proof {
            assert(evs.take(0) =~= Seq::<EventModel>::empty());
        }
        let mut i: usize = 0;
        while i < events.len()
            invariant
                i <= events@.len(),
                evs == events@.map_values(|e: InputEvent| e@),
                !old(self)@.contains_key(id),
                self@ == old(self)@.insert(id, replay(evs.take(i as int))),
            decreases events@.len() - i,
        {
            let ghost pre = self@;
            let res = self.push_event(id, events[i].clone());
            proof {
                assert(pre.contains_key(id));
                assert(res is Ok);
                assert(evs.take(i + 1).drop_last() =~= evs.take(i as int));
                assert(evs.take(i + 1).last() == events@[i as int]@);
                assert(replay(evs.take(i + 1)) == step(replay(evs.take(i as int)), events@[i as int]@));
                assert(self@ =~= old(self)@.insert(id, replay(evs.take(i + 1))));
            }
            i = i + 1;
        }
        proof {
            assert(evs.take(events@.len() as int) =~= evs);
        }
        Ok(id)
    }

    /// A non-destructive snapshot: the profile the session would finalize to
    /// for the given text, together with a copy of its event log.
    pub fn export_snapshot(&self, id: u128, text: &str) -> (r: Result<SessionSnapshot, CoreError>)
        ensures
            self@.contains_key(id) ==> (r matches Ok(s) && s.profile@ == spec_profile(
                self@[id],
                id,
                text@,
                lower_of(text@),
            ) && s.events@.map_values(|e: InputEvent| e@) == self@[id].events),
            !self@.contains_key(id) ==> r == Err::<SessionSnapshot, CoreError>(CoreError::NotFound),
    {
        match self.sessions.get(&id) {
            Some(fe) => {
                let profile = build_profile(fe, id, text);
                let events = fe.get_events();
                Ok(SessionSnapshot { profile, events })
            },
            None => Err(CoreError::NotFound),
        }
    }
}

/// Finalizing removes the session from the registry, so a second finalize of
/// the same id finds no session and must report `NotFound`.
pub proof fn lemma_finalize_twice_not_found(m: Map<u128, ExtractorModel>, id: u128)
    ensures
        !m.remove(id).contains_key(id),
{
}

/// Replaying a stream into a fresh session and finalizing with a text yields
/// the same profile as finalizing a session imported from the first
/// session's exported event log, under the same id and text.
pub proof fn lemma_round_trip_same_profile(s: Seq<EventModel>, id: u128, t: Seq<char>, l: Seq<char>)
    ensures
        spec_profile(replay(replay(s).events), id, t, l) == spec_profile(replay(s), id, t, l),
{
    crate::feature::lemma_export_import_round_trip(s);
}

} // verus!
