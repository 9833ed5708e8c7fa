//! Which media sessions are offered to clients, and which one is monitored.
use crate::api::{SessionInfoView, SmtcSessionInfo};
use crate::text::same_text;
use crate::utils::get_display_name_from_smtc_id;
use vstd::prelude::*;

verus! {

/// Which session to monitor.
#[derive(Debug, Clone, Copy, PartialEq, Eq, Structural)]
pub enum Selection {
    /// The session at this place of the list that the manager gave.
    Listed(usize),
    /// The one that the manager calls current.
    Current,
    /// The selected session has vanished: the one that the manager calls current.
    Vanished,
}

/// A session that can be monitored: its identifier, and its place in the list that the manager
/// gave.
pub struct SessionCandidate {
    pub id: String,
    pub index: usize,
}

/// The contents of a `SessionCandidate`.
#[verifier::ext_equal]
pub struct CandidateView {
    pub id: Seq<char>,
    pub index: int,
}

impl View for SessionCandidate {
    type V = CandidateView;

    open spec fn view(&self) -> CandidateView {
        CandidateView { id: self.id@, index: self.index as int }
    }
}

impl DeepView for SessionCandidate {
    type V = CandidateView;

    open spec fn deep_view(&self) -> CandidateView {
        self@
    }
}

/// The identifiers of the sessions that the manager gave; one that could not be read is missing.
pub open spec fn identifiers(ids: Seq<Option<String>>) -> Seq<Option<Seq<char>>> {
    ids.map_values(|id: Option<String>| crate::api::text_of(id))
}

/// Whether a session can be named.
pub open spec fn is_named(id: Option<Seq<char>>) -> bool {
    id is Some && id->0.len() > 0
}

/// The sessions that can be named, in the order of the list.
pub open spec fn candidates_of(ids: Seq<Option<Seq<char>>>) -> Seq<CandidateView>
    decreases ids.len(),
{
    if ids.len() == 0 {
        seq![]
    } else {
        let before = candidates_of(ids.drop_last());
        if is_named(ids.last()) {
            before.push(CandidateView { id: ids.last()->0, index: ids.len() - 1 })
        } else {
            before
        }
    }
}

/// What clients are told of a session.
pub open spec fn session_info_of(id: Seq<char>) -> SessionInfoView {
    SessionInfoView {
        session_id: id,
        source_app_user_model_id: id,
        display_name: crate::utils::display_name(id),
    }
}

/// What clients are told of the sessions.
pub open spec fn session_infos_of(candidates: Seq<CandidateView>) -> Seq<SessionInfoView> {
    candidates.map_values(|c: CandidateView| session_info_of(c.id))
}

/// The place of the first candidate with the given identifier; the length where there is none.
pub open spec fn first_named(candidates: Seq<CandidateView>, id: Seq<char>) -> int
    decreases candidates.len(),
{
    if candidates.len() == 0 {
        0
    } else {
        let before = first_named(candidates.drop_last(), id);
        if before < candidates.len() - 1 || candidates.last().id == id {
            before
        } else {
            candidates.len() as int
        }
    }
}

/// The session to monitor: the selected one while it is listed, else the one that the manager
/// calls current.
pub open spec fn selection_of(
    target: Option<Seq<char>>,
    candidates: Seq<CandidateView>,
) -> Selection {
    match target {
        None => Selection::Current,
        Some(id) => {
            let place = first_named(candidates, id);
            if place < candidates.len() {
                Selection::Listed(candidates[place].index as usize)
            } else {
                Selection::Vanished
            }
        },
    }
}

/// The first candidate with an identifier is one with it, and none before it has it.
pub proof fn lemma_first_named(candidates: Seq<CandidateView>, id: Seq<char>)
    ensures
        0 <= first_named(candidates, id) <= candidates.len(),
        first_named(candidates, id) < candidates.len() ==> candidates[first_named(
            candidates,
            id,
        )].id == id,
        forall|i: int|
            0 <= i < first_named(candidates, id) ==> (#[trigger] candidates[i]).id != id,
    decreases candidates.len(),
{
    if candidates.len() > 0 {
        let rest = candidates.drop_last();
        lemma_first_named(rest, id);
        assert forall|i: int| 0 <= i < first_named(candidates, id) implies (
        #[trigger] candidates[i]).id != id by {
            if i < rest.len() {
                assert(candidates[i] == rest[i]);
            }
        }
        if first_named(rest, id) < rest.len() {
            assert(rest[first_named(rest, id)] == candidates[first_named(rest, id)]);
        }
    }
}

/// The first place is fixed by what is there and before it.
pub proof fn lemma_first_named_is(candidates: Seq<CandidateView>, id: Seq<char>, place: int)
    requires
        0 <= place <= candidates.len(),
        place < candidates.len() ==> candidates[place].id == id,
        forall|i: int| 0 <= i < place ==> (#[trigger] candidates[i]).id != id,
    ensures
        first_named(candidates, id) == place,
{
    lemma_first_named(candidates, id);
    let first = first_named(candidates, id);
    if first < place {
        assert(candidates[first].id != id);
    }
    if place < first {
        assert(candidates[place].id != id);
    }
}

/// Finds the sessions that can be named.
pub fn list_candidates(ids: &Vec<Option<String>>) -> (candidates: Vec<SessionCandidate>)
    ensures
        candidates.deep_view() == candidates_of(identifiers(ids@)),
{
    let mut candidates: Vec<SessionCandidate> = Vec::new();
    let ghost all = identifiers(ids@);
    assert(candidates.deep_view() =~= candidates_of(all.take(0)));
    for i in 0..ids.len()
        invariant
            all == identifiers(ids@),
            candidates.deep_view() == candidates_of(all.take(i as int)),
    {
        proof {
            assert(all.take(i + 1).drop_last() =~= all.take(i as int));
            assert(all.take(i + 1).last() == crate::api::text_of(ids@[i as int]));
        }
        let ghost before = candidates.deep_view();
        if let Some(id) = &ids[i] {
            if !id.as_str().is_empty() {
                let candidate = SessionCandidate { id: id.clone(), index: i };
                candidates.push(candidate);
                assert(candidates.deep_view() =~= before.push(candidate@));
            }
        }
    }
    assert(all.take(ids@.len() as int) =~= all);
    candidates
}

/// Describes the sessions to clients.
pub fn describe_sessions(candidates: &Vec<SessionCandidate>) -> (infos: Vec<SmtcSessionInfo>)
    ensures
        infos.deep_view() == session_infos_of(candidates.deep_view()),
{
    let mut infos: Vec<SmtcSessionInfo> = Vec::new();
    for i in 0..candidates.len()
        invariant
            infos.deep_view().len() == i,
            forall|j: int|
                0 <= j < i ==> (#[trigger] infos@[j])@ == session_info_of(candidates@[j]@.id),
    {
        let id: &String = &candidates[i].id;
        infos.push(
            SmtcSessionInfo {
                session_id: id.clone(),
                source_app_user_model_id: id.clone(),
                display_name: get_display_name_from_smtc_id(id.as_str()),
            },
        );
    }
    assert(infos.deep_view() =~= session_infos_of(candidates.deep_view())) by {
        let views = candidates.deep_view();
        assert forall|j: int| 0 <= j < infos@.len() implies infos.deep_view()[j]
            == session_infos_of(views)[j] by {
            assert(infos.deep_view()[j] == infos@[j]@);
            assert(views[j] == candidates@[j]@);
        }
    }
    infos
}

/// Chooses the session to monitor.
pub fn choose_session(target: &Option<String>, candidates: &Vec<SessionCandidate>) -> (selection:
    Selection)
    ensures
        selection == selection_of(crate::api::text_of(*target), candidates.deep_view()),
{
    let id: &String = match target {
        Some(id) => id,
        None => {
            return Selection::Current;
        },
    };
    let ghost views = candidates.deep_view();
    for i in 0..candidates.len()
        invariant
            views == candidates.deep_view(),
            target == Some(*id),
            forall|j: int| 0 <= j < i ==> (#[trigger] views[j]).id != id@,
    {
        assert(views[i as int] == candidates@[i as int]@);
        if same_text(candidates[i].id.as_str(), id.as_str()) {
            proof {
                lemma_first_named_is(views, id@, i as int);
            }
            return Selection::Listed(candidates[i].index);
        }
    }
    proof {
        lemma_first_named_is(views, id@, views.len() as int);
    }
    Selection::Vanished
}

/// Exactly the sessions that can be named are listed: each entry repeats the identifier at its
/// place, and no session that can be named is left out.
pub proof fn law_listing_is_complete(ids: Seq<Option<Seq<char>>>)
    ensures
        forall|j: int|
            0 <= j < candidates_of(ids).len() ==> {
                let c = #[trigger] candidates_of(ids)[j];
                0 <= c.index < ids.len() && is_named(ids[c.index]) && ids[c.index] == Some(c.id)
            },
        forall|i: int|
            0 <= i < ids.len() && is_named(#[trigger] ids[i]) ==> candidates_of(ids).contains(
                CandidateView { id: ids[i]->0, index: i },
            ),
    decreases ids.len(),
{
    if ids.len() > 0 {
        let rest = ids.drop_last();
        law_listing_is_complete(rest);
        let before = candidates_of(rest);
        let all = candidates_of(ids);
        assert forall|j: int| 0 <= j < all.len() implies {
            let c = #[trigger] all[j];
            0 <= c.index < ids.len() && is_named(ids[c.index]) && ids[c.index] == Some(c.id)
        } by {
            if j < before.len() {
                assert(all[j] == before[j]);
                assert(ids[before[j].index] == rest[before[j].index]);
            }
        }
        assert forall|i: int| 0 <= i < ids.len() && is_named(#[trigger] ids[i]) implies all.contains(
            CandidateView { id: ids[i]->0, index: i },
        ) by {
            let c = CandidateView { id: ids[i]->0, index: i };
            if i < rest.len() {
                assert(rest[i] == ids[i]);
                assert(before.contains(c));
                let k = choose|k: int| 0 <= k < before.len() && before[k] == c;
                assert(all[k] == c);
            } else {
                assert(all[all.len() - 1] == c);
            }
        }
    }
}

/// The selected session is monitored exactly while it is listed.
pub proof fn law_selected_session_is_monitored(target: Seq<char>, candidates: Seq<CandidateView>)
    ensures
        (selection_of(Some(target), candidates) is Listed) <==> (exists|i: int|
            0 <= i < candidates.len() && (#[trigger] candidates[i]).id == target),
        (selection_of(Some(target), candidates) is Vanished) <==> (forall|i: int|
            0 <= i < candidates.len() ==> (#[trigger] candidates[i]).id != target),
{
    lemma_first_named(candidates, target);
    let first = first_named(candidates, target);
    if first < candidates.len() {
        assert(candidates[first].id == target);
    }
}

/// The sessions are listed in the order in which the manager gave them.
pub proof fn law_listing_keeps_order(ids: Seq<Option<Seq<char>>>, i: int, j: int)
    requires
        0 <= i < j < candidates_of(ids).len(),
    ensures
        candidates_of(ids)[i].index < candidates_of(ids)[j].index,
        0 <= candidates_of(ids)[i].index,
        candidates_of(ids)[j].index < ids.len(),
    decreases ids.len(),
{
    if ids.len() > 0 {
        let rest = ids.drop_last();
        let before = candidates_of(rest);
        law_listing_is_complete(rest);
        law_listing_is_complete(ids);
        if j < before.len() {
            law_listing_keeps_order(rest, i, j);
            assert(candidates_of(ids)[i] == before[i] && candidates_of(ids)[j] == before[j]);
        } else {
            assert(candidates_of(ids)[i] == before[i]);
        }
    }
}

/// A session is listed exactly where the manager gave an identifier that is not empty.
pub proof fn law_named_sessions_are_listed(ids: Seq<Option<Seq<char>>>, i: int)
    requires
        0 <= i < ids.len(),
    ensures
        (exists|j: int|
            0 <= j < candidates_of(ids).len() && (#[trigger] candidates_of(ids)[j]).index == i)
            <==> (ids[i] matches Some(id) && id.len() > 0),
        forall|j: int|
            0 <= j < candidates_of(ids).len() && (#[trigger] candidates_of(ids)[j]).index == i
                ==> ids[i] == Some(candidates_of(ids)[j].id),
{
    law_listing_is_complete(ids);
    if is_named(ids[i]) {
        let c = CandidateView { id: ids[i]->0, index: i };
        let all = candidates_of(ids);
        assert(all.contains(c));
        let k = choose|k: int| 0 <= k < all.len() && all[k] == c;
        assert(all[k].index == i);
    }
}

/// Clients are told of every listed session, in order: its identifier twice, and its name.
pub proof fn law_sessions_are_described(candidates: Seq<CandidateView>, i: int)
    requires
        0 <= i < candidates.len(),
    ensures
        session_infos_of(candidates).len() == candidates.len(),
        session_infos_of(candidates)[i].session_id == candidates[i].id,
        session_infos_of(candidates)[i].source_app_user_model_id == candidates[i].id,
        session_infos_of(candidates)[i].display_name == crate::utils::display_name(
            candidates[i].id,
        ),
{
}

/// Without a selection the current session is monitored; with one, the first session of that
/// identifier, at its place in the manager's list, and a selection that is not listed has
/// vanished.
pub proof fn law_first_selected_session_is_monitored(
    target: Seq<char>,
    candidates: Seq<CandidateView>,
    place: int,
)
    ensures
        selection_of(None, candidates) == Selection::Current,
        (0 <= place < candidates.len() && candidates[place].id == target && forall|i: int|
            0 <= i < place ==> (#[trigger] candidates[i]).id != target) ==> selection_of(
            Some(target),
            candidates,
        ) == Selection::Listed(candidates[place].index as usize),
        (forall|i: int| 0 <= i < candidates.len() ==> (#[trigger] candidates[i]).id != target)
            ==> selection_of(Some(target), candidates) == Selection::Vanished,
{
    if 0 <= place < candidates.len() && candidates[place].id == target && forall|i: int|
        0 <= i < place ==> (#[trigger] candidates[i]).id != target {
        lemma_first_named_is(candidates, target, place);
    }
    if forall|i: int| 0 <= i < candidates.len() ==> (#[trigger] candidates[i]).id != target {
        lemma_first_named_is(candidates, target, candidates.len() as int);
    }
}

} // verus!
