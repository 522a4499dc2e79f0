//! Ordering and deduplication of playback commands and mixer revisions.

use std::collections::VecDeque;

use vstd::prelude::*;

use crate::protocol::PlaybackCommand;

verus! {

/// How many command ids of the current route epoch are remembered.
pub const REMEMBERED_COMMANDS: usize = 256;

/// What is to be done with a command or a revision.
#[derive(Debug, Clone, Copy, PartialEq, Eq, Structural)]
pub enum ApplyResult {
    Apply,
    Duplicate,
    StaleEpoch,
}

/// Remembers the current route epoch and its latest command ids.
#[derive(Debug)]
pub struct PlaybackCoordinator {
    route_epoch: u64,
    order: VecDeque<String>,
}

/// The current route epoch and the ids of its latest commands, oldest first.
#[verifier::ext_equal]
pub struct CoordinatorView {
    pub route_epoch: u64,
    pub recent: Seq<Seq<char>>,
}

impl CoordinatorView {
    /// No command has come yet.
    pub open spec fn initial() -> Self {
        CoordinatorView { route_epoch: 0, recent: Seq::empty() }
    }

    /// No id is remembered twice, and no more ids than the limit are.
    pub open spec fn wf(self) -> bool {
        &&& self.recent.no_duplicates()
        &&& self.recent.len() <= REMEMBERED_COMMANDS
    }

    /// The answer to the command `id` of `epoch`, and the memory after it.
    ///
    /// A later epoch empties the memory. An id joins it unless it is there; the
    /// oldest one leaves where the limit is passed.
    pub open spec fn step(self, id: Seq<char>, epoch: u64) -> (ApplyResult, Self) {
        let recent = if epoch > self.route_epoch {
            Seq::empty()
        } else {
            self.recent
        };
        if epoch < self.route_epoch {
            (ApplyResult::StaleEpoch, self)
        } else if recent.contains(id) {
            (ApplyResult::Duplicate, CoordinatorView { route_epoch: epoch, recent })
        } else if recent.len() < REMEMBERED_COMMANDS {
            (ApplyResult::Apply, CoordinatorView { route_epoch: epoch, recent: recent.push(id) })
        } else {
            (
                ApplyResult::Apply,
                CoordinatorView { route_epoch: epoch, recent: recent.push(id).drop_first() },
            )
        }
    }

    /// The memory after the commands `ids`, all of one `epoch`.
    pub open spec fn run(self, ids: Seq<Seq<char>>, epoch: u64) -> Self
        decreases ids.len(),
    {
        if ids.len() == 0 {
            self
        } else {
            self.run(ids.drop_last(), epoch).step(ids.last(), epoch).1
        }
    }
}

impl View for PlaybackCoordinator {
    type V = CoordinatorView;

    closed spec fn view(&self) -> CoordinatorView {
        CoordinatorView {
            route_epoch: self.route_epoch,
            recent: self.order@.map_values(|id: String| id@),
        }
    }
}

impl Default for PlaybackCoordinator {
    fn default() -> (coordinator: Self)
        ensures
            coordinator@ == CoordinatorView::initial(),
    {
        let coordinator = PlaybackCoordinator { route_epoch: 0, order: VecDeque::new() };
        assert(coordinator@.recent =~= Seq::empty());
        coordinator
    }
}

impl PlaybackCoordinator {
    /// Whether the command id is remembered.
    fn remembers(&self, id: &String) -> (found: bool)
        ensures
            found == self@.recent.contains(id@),
    {
        let mut i: usize = 0;
        while i < self.order.len()
            invariant
                i <= self.order@.len(),
                forall|j: int| 0 <= j < i ==> self@.recent[j] != id@,
            decreases self.order@.len() - i,
        {
            if self.order[i] == *id {
                assert(self@.recent[i as int] == id@);
                return true;
            }
            i = i + 1;
        }
        false
    }

    /// Decides on a command and remembers it.
    pub fn apply(&mut self, command: &PlaybackCommand) -> (result: ApplyResult)
        ensures
            (result, final(self)@) == old(self)@.step(command.command_id@, command.route_epoch),
    {
        if command.route_epoch < self.route_epoch {
            return ApplyResult::StaleEpoch;
        }
        if command.route_epoch > self.route_epoch {
            self.route_epoch = command.route_epoch;
            self.order.clear();
            assert(self@.recent =~= Seq::empty());
        }
        let ghost before = self@;
        if self.remembers(&command.command_id) {
            return ApplyResult::Duplicate;
        }
        self.order.push_back(command.command_id.clone());
        assert(self@.recent =~= before.recent.push(command.command_id@));
        if self.order.len() > REMEMBERED_COMMANDS {
            let oldest = self.order.pop_front();
            assert(self@.recent =~= before.recent.push(command.command_id@).drop_first());
        }
        ApplyResult::Apply
    }

    /// The current route epoch.
    pub fn route_epoch(&self) -> (epoch: u64)
        ensures
            epoch == self@.route_epoch,
    {
        self.route_epoch
    }
}

/// Remembers the mixer revision applied last.
#[derive(Debug)]
pub struct MixerRevision {
    applied: u64,
}

/// The answer to `revision` where `applied` was applied last, and what is
/// applied last after it.
pub open spec fn mixer_step(applied: u64, revision: u64) -> (ApplyResult, u64) {
    if revision < applied {
        (ApplyResult::StaleEpoch, applied)
    } else if revision == applied && revision != 0 {
        (ApplyResult::Duplicate, applied)
    } else {
        (ApplyResult::Apply, revision)
    }
}

impl View for MixerRevision {
    type V = u64;

    closed spec fn view(&self) -> u64 {
        self.applied
    }
}

impl Default for MixerRevision {
    fn default() -> (revision: Self)
        ensures
            revision@ == 0,
    {
        MixerRevision { applied: 0 }
    }
}

impl MixerRevision {
    /// Decides on a revision and remembers it.
    pub fn apply(&mut self, revision: u64) -> (result: ApplyResult)
        ensures
            (result, final(self)@) == mixer_step(old(self)@, revision),
    {
        if revision < self.applied {
            ApplyResult::StaleEpoch
        } else if revision == self.applied && revision != 0 {
            ApplyResult::Duplicate
        } else {
            self.applied = revision;
            ApplyResult::Apply
        }
    }
}

/// Every command keeps the memory free of repeated ids and within the limit,
/// and the route epoch never falls.
pub proof fn law_memory_stays_well_formed(state: CoordinatorView, id: Seq<char>, epoch: u64)
    requires
        state.wf(),
    ensures
        CoordinatorView::initial().wf(),
        state.step(id, epoch).1.wf(),
        state.step(id, epoch).1.route_epoch >= state.route_epoch,
{
    let next = state.step(id, epoch).1;
    let recent = if epoch > state.route_epoch {
        Seq::empty()
    } else {
        state.recent
    };
    let grown = recent.push(id);
    if !recent.contains(id) {
        assert forall|i: int, j: int| 0 <= i < grown.len() && 0 <= j < grown.len() && i != j implies grown[i]
            != grown[j] by {
            if i == recent.len() {
                assert(recent[j] != id);
            } else if j == recent.len() {
                assert(recent[i] != id);
            }
        }
        assert(grown.no_duplicates());
        assert(grown.drop_first().no_duplicates());
    }
}

/// A command of an earlier epoch is refused and changes nothing.
pub proof fn law_stale_command_changes_nothing(state: CoordinatorView, id: Seq<char>, epoch: u64)
    requires
        epoch < state.route_epoch,
    ensures
        state.step(id, epoch) == (ApplyResult::StaleEpoch, state),
{
}

/// A command of a later epoch is applied, whatever its id.
pub proof fn law_new_epoch_applies(state: CoordinatorView, id: Seq<char>, epoch: u64)
    requires
        epoch > state.route_epoch,
    ensures
        state.step(id, epoch).0 == ApplyResult::Apply,
        state.step(id, epoch).1 == (CoordinatorView { route_epoch: epoch, recent: seq![id] }),
{
    assert(Seq::<Seq<char>>::empty().push(id) =~= seq![id]);
}

/// A command that was applied is a duplicate when it comes again, as long as
/// fewer commands of its epoch than the limit came between.
pub proof fn law_applied_command_is_remembered(
    state: CoordinatorView,
    id: Seq<char>,
    epoch: u64,
    between: Seq<Seq<char>>,
)
    requires
        state.recent.len() <= REMEMBERED_COMMANDS,
        state.step(id, epoch).0 == ApplyResult::Apply,
        between.len() < REMEMBERED_COMMANDS,
    ensures
        ({
            let later = state.step(id, epoch).1.run(between, epoch);
            later.step(id, epoch) == (ApplyResult::Duplicate, later)
        }),
{
    let first = state.step(id, epoch).1;
    assert(first.recent.last() == id);
    lemma_run_keeps(first, id, epoch, between);
}

/// An id at the end of the memory stays in it for a run shorter than the limit.
proof fn lemma_run_keeps(
    state: CoordinatorView,
    id: Seq<char>,
    epoch: u64,
    ids: Seq<Seq<char>>,
)
    requires
        0 < state.recent.len() <= REMEMBERED_COMMANDS,
        state.recent.last() == id,
        state.route_epoch == epoch,
        ids.len() < REMEMBERED_COMMANDS,
    ensures
        ({
            let later = state.run(ids, epoch);
            &&& later.route_epoch == epoch
            &&& later.recent.len() <= REMEMBERED_COMMANDS
            &&& exists|i: int|
                0 <= i < later.recent.len() && later.recent[i] == id && later.recent.len() - 1 - i
                    <= ids.len()
            &&& later.recent.contains(id)
        }),
    decreases ids.len(),
{
    if ids.len() == 0 {
        assert(state.recent[state.recent.len() - 1] == id);
    } else {
        lemma_run_keeps(state, id, epoch, ids.drop_last());
        let before = state.run(ids.drop_last(), epoch);
        let i = choose|i: int|
            0 <= i < before.recent.len() && before.recent[i] == id && before.recent.len() - 1 - i
                <= ids.len() - 1;
        let later = state.run(ids, epoch);
        if later.recent.len() == before.recent.len() && later.recent != before.recent {
            assert(later.recent[i - 1] == id);
        } else {
            assert(later.recent[i] == id);
        }
    }
}

/// The revision applied last never falls, a revision below it is refused, and
/// one other than zero is not applied again.
pub proof fn law_mixer_revision_is_monotonic(applied: u64, revision: u64)
    ensures
        mixer_step(applied, revision).1 >= applied,
        revision < applied ==> mixer_step(applied, revision) == (ApplyResult::StaleEpoch, applied),
        revision != 0 ==> mixer_step(mixer_step(applied, revision).1, revision).0
            != ApplyResult::Apply,
{
}

/// A command of the current epoch is applied exactly where its id is not remembered. It
/// is remembered last; the others stay in their order, but that the oldest one goes
/// where 256 were there.
pub proof fn law_commands_of_an_epoch_are_applied_once(state: CoordinatorView, id: Seq<char>)
    ensures
        ({
            let (result, next) = state.step(id, state.route_epoch);
            &&& next.route_epoch == state.route_epoch
            &&& state.recent.contains(id) ==> result == ApplyResult::Duplicate && next.recent
                == state.recent
            &&& !state.recent.contains(id) ==> {
                &&& result == ApplyResult::Apply
                &&& state.recent.len() < 256 ==> next.recent == state.recent + seq![id]
                &&& state.recent.len() >= 256 ==> next.recent == state.recent.skip(1) + seq![id]
            }
        }),
{
    if state.recent.len() >= 256 {
        assert(state.recent.push(id).drop_first() =~= state.recent.skip(1) + seq![id]);
    }
}

/// Before any command came, no epoch has begun and nothing is remembered.
pub proof fn law_nothing_is_remembered_at_first(id: Seq<char>, epoch: u64)
    ensures
        CoordinatorView::initial().route_epoch == 0,
        !CoordinatorView::initial().recent.contains(id),
        CoordinatorView::initial().step(id, epoch) == (
            ApplyResult::Apply,
            CoordinatorView { route_epoch: epoch, recent: seq![id] },
        ),
{
    assert(Seq::<Seq<char>>::empty().push(id) =~= seq![id]);
}

/// A revision above the last one is applied, and so is zero where none came before;
/// it is then the last one. The last one is a duplicate, and a lower one is stale.
pub proof fn law_higher_mixer_revisions_apply(applied: u64, revision: u64)
    ensures
        revision > applied ==> mixer_step(applied, revision) == (ApplyResult::Apply, revision),
        revision == applied && applied > 0 ==> mixer_step(applied, revision) == (
            ApplyResult::Duplicate,
            applied,
        ),
        revision < applied ==> mixer_step(applied, revision) == (ApplyResult::StaleEpoch, applied),
        mixer_step(0, 0) == (ApplyResult::Apply, 0u64),
{
}

} // verus!
