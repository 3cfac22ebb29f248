//! Rotation of the log store: the database is closed, read, compressed into
//! an archive and removed, the store is reopened, and the archive is sent
//! back as base64 text. A flag marks a rotation in progress; while it is set,
//! a second rotation is refused and posted logs are held back.

use vstd::prelude::*;
use crate::encoding::{archivable, base64_encode, base64_len, compress_database, encode_archive, lz4_size_prepended};
use crate::reply::{is_json_error, is_text, json_error, message_with_detail, Reply, ReplyBody, STATUS_INTERNAL_ERROR, STATUS_OK};

verus! {

/// What a rotation is waiting for.
#[derive(PartialEq, Eq, Debug, Clone, Copy, Structural)]
pub enum RotatePhase {
    /// No rotation is under way.
    Idle,
    /// The database connections are being closed.
    ClosingPool,
    /// The database file is being read.
    ReadingDatabase,
    /// The database file is being removed.
    RemovingDatabase,
    /// The database connections are being reopened.
    ReopeningPool,
}

/// What happened, as reported to the rotation.
pub enum RotateEvent {
    /// A client asked for a rotation.
    Requested,
    /// Closing the connections finished, or failed with a message.
    PoolClosed(Result<(), String>),
    /// Reading the database file gave its bytes, or failed with a message.
    DatabaseRead(Result<Vec<u8>, String>),
    /// The database file was removed.
    DatabaseRemoved,
    /// Reopening the connections finished, or failed with a message.
    PoolReopened(Result<(), String>),
}

/// What the rotation asks to be done next.
pub enum RotateAction {
    /// Close the database connections.
    ClosePool,
    /// Read the database file.
    ReadDatabase,
    /// Remove the database file.
    RemoveDatabase,
    /// Reopen the database connections.
    ReopenPool,
    /// Answer the client with this reply; the rotation is over.
    Respond(Reply),
}

/// The state of rotation: the flag that marks one in progress, the phase of
/// the current one, and the archive it has made so far.
pub struct LogRotation {
    active: bool,
    phase: RotatePhase,
    archive: Vec<u8>,
}

/// The state of rotation as a mathematical value.
pub struct RotationView {
    pub active: bool,
    pub phase: RotatePhase,
    pub archive: Seq<u8>,
}

impl View for LogRotation {
    type V = RotationView;

    closed spec fn view(&self) -> RotationView {
        RotationView { active: self.active, phase: self.phase, archive: self.archive@ }
    }
}

pub const MSG_ONLY_ONE_ROTATE: &'static str = "Only one active rotate!";
pub const MSG_CANNOT_COMPRESS: &'static str = "Cannot compress database: ";
pub const MSG_CANNOT_REINITIALIZE: &'static str = "Cannot reinitialize pool: ";

/// Whether `event` is one the rotation can receive in phase `phase`.
pub open spec fn expected_event(phase: RotatePhase, event: RotateEvent) -> bool {
    match event {
        RotateEvent::Requested => true,
        RotateEvent::PoolClosed(_) => phase == RotatePhase::ClosingPool,
        RotateEvent::DatabaseRead(r) => phase == RotatePhase::ReadingDatabase && (r matches Ok(db) ==> archivable(db@.len() as int)),
        RotateEvent::DatabaseRemoved => phase == RotatePhase::RemovingDatabase,
        RotateEvent::PoolReopened(_) => phase == RotatePhase::ReopeningPool,
    }
}

/// Whether the archive held in phase `phase` can be sent as base64 text.
pub open spec fn archive_fits(v: RotationView) -> bool {
    (v.phase == RotatePhase::RemovingDatabase || v.phase == RotatePhase::ReopeningPool)
        ==> base64_len(v.archive.len() as int) <= usize::MAX
}

/// One step of rotation: in state `pre`, `event` leads to state `post` and
/// to `action`.
pub open spec fn rotation_step(pre: RotationView, event: RotateEvent, post: RotationView, action: RotateAction) -> bool {
    match event {
        RotateEvent::Requested => if pre.active {
            // A rotation is under way: refuse, and change nothing.
            &&& post == pre
            &&& action matches RotateAction::Respond(r) && is_json_error(r, STATUS_INTERNAL_ERROR, MSG_ONLY_ONE_ROTATE@)
        } else {
            &&& post == RotationView { active: true, phase: RotatePhase::ClosingPool, archive: Seq::empty() }
            &&& action is ClosePool
        },
        RotateEvent::PoolClosed(r) => {
            // A failure to close clears the flag, and the rotation goes on.
            &&& post == RotationView { active: pre.active && r is Ok, phase: RotatePhase::ReadingDatabase, archive: pre.archive }
            &&& action is ReadDatabase
        },
        RotateEvent::DatabaseRead(Err(e)) => {
            &&& post == RotationView { active: false, phase: RotatePhase::Idle, archive: pre.archive }
            &&& action matches RotateAction::Respond(r) && is_json_error(r, STATUS_INTERNAL_ERROR, MSG_CANNOT_COMPRESS@ + e@)
        },
        RotateEvent::DatabaseRead(Ok(db)) => {
            &&& post == RotationView { active: pre.active, phase: RotatePhase::RemovingDatabase, archive: lz4_size_prepended(db@) }
            &&& action is RemoveDatabase
        },
        RotateEvent::DatabaseRemoved => {
            &&& post == RotationView { phase: RotatePhase::ReopeningPool, ..pre }
            &&& action is ReopenPool
        },
        RotateEvent::PoolReopened(Err(e)) => {
            &&& post == RotationView { active: false, phase: RotatePhase::Idle, archive: pre.archive }
            &&& action matches RotateAction::Respond(r) && is_json_error(r, STATUS_INTERNAL_ERROR, MSG_CANNOT_REINITIALIZE@ + e@)
        },
        RotateEvent::PoolReopened(Ok(())) => {
            &&& post == RotationView { active: false, phase: RotatePhase::Idle, archive: pre.archive }
            &&& action matches RotateAction::Respond(r) && is_text(r, STATUS_OK, base64_encode(pre.archive))
        },
    }
}

impl LogRotation {
    /// No rotation under way.
    pub fn new() -> (res: LogRotation)
        ensures
            res@ == (RotationView { active: false, phase: RotatePhase::Idle, archive: Seq::empty() }),
            archive_fits(res@),
    {
        LogRotation { active: false, phase: RotatePhase::Idle, archive: Vec::new() }
    }

    /// Whether a rotation is in progress.
    pub fn is_active(&self) -> (res: bool)
        ensures
            res == self@.active,
    {
        self.active
    }

    /// The phase of the current rotation.
    pub fn phase(&self) -> (res: RotatePhase)
        ensures
            res == self@.phase,
    {
        self.phase
    }

    /// Takes one step of rotation on `event` and says what to do next.
    pub fn step(&mut self, event: RotateEvent) -> (action: RotateAction)
        requires
            expected_event(old(self)@.phase, event),
            archive_fits(old(self)@),
        ensures
            rotation_step(old(self)@, event, final(self)@, action),
            archive_fits(final(self)@),
    {
        match event {
            RotateEvent::Requested => {
                if self.active {
                    RotateAction::Respond(json_error(MSG_ONLY_ONE_ROTATE, STATUS_INTERNAL_ERROR))
                } else {
                    self.active = true;
                    self.phase = RotatePhase::ClosingPool;
                    self.archive = Vec::new();
                    RotateAction::ClosePool
                }
            },
            RotateEvent::PoolClosed(r) => {
                if r.is_err() {
                    self.active = false;
                }
                self.phase = RotatePhase::ReadingDatabase;
                RotateAction::ReadDatabase
            },
            RotateEvent::DatabaseRead(Err(e)) => {
                self.active = false;
                self.phase = RotatePhase::Idle;
                let msg = message_with_detail(MSG_CANNOT_COMPRESS, e.as_str());
                RotateAction::Respond(Reply { status: STATUS_INTERNAL_ERROR, body: ReplyBody::JsonError(msg) })
            },
            RotateEvent::DatabaseRead(Ok(db)) => {
                self.archive = compress_database(db.as_slice());
                self.phase = RotatePhase::RemovingDatabase;
                RotateAction::RemoveDatabase
            },
            RotateEvent::DatabaseRemoved => {
                self.phase = RotatePhase::ReopeningPool;
                RotateAction::ReopenPool
            },
            RotateEvent::PoolReopened(Err(e)) => {
                self.active = false;
                self.phase = RotatePhase::Idle;
                let msg = message_with_detail(MSG_CANNOT_REINITIALIZE, e.as_str());
                RotateAction::Respond(Reply { status: STATUS_INTERNAL_ERROR, body: ReplyBody::JsonError(msg) })
            },
            RotateEvent::PoolReopened(Ok(())) => {
                let text = encode_archive(self.archive.as_slice());
                self.active = false;
                self.phase = RotatePhase::Idle;
                RotateAction::Respond(Reply { status: STATUS_OK, body: ReplyBody::Text(text) })
            },
        }
    }
}

/// A rotation asked for while one is in progress is refused with
/// "Only one active rotate!" and leaves the state as it was.
pub proof fn lemma_second_rotation_refused(pre: RotationView, post: RotationView, action: RotateAction)
    requires
        pre.active,
        rotation_step(pre, RotateEvent::Requested, post, action),
    ensures
        post == pre,
        action matches RotateAction::Respond(r) && is_json_error(r, STATUS_INTERNAL_ERROR, MSG_ONLY_ONE_ROTATE@),
{
}

/// Every answer that ends a started rotation, success or failure, leaves no
/// rotation in progress.
pub proof fn lemma_answer_ends_rotation(pre: RotationView, event: RotateEvent, post: RotationView, action: RotateAction)
    requires
        rotation_step(pre, event, post, action),
        action is Respond,
        !(event is Requested),
    ensures
        !post.active,
        post.phase == RotatePhase::Idle,
{
}

/// A rotation that runs without failure answers with the base64 text of the
/// compressed database (its length, then its LZ4 block), and leaves no
/// rotation in progress. A failure to close the connections does not stop it.
pub proof fn lemma_rotation_success(
    s0: RotationView,
    s1: RotationView,
    a1: RotateAction,
    closed: Result<(), String>,
    s2: RotationView,
    a2: RotateAction,
    db: Vec<u8>,
    s3: RotationView,
    a3: RotateAction,
    s4: RotationView,
    a4: RotateAction,
    s5: RotationView,
    a5: RotateAction,
)
    requires
        !s0.active,
        rotation_step(s0, RotateEvent::Requested, s1, a1),
        rotation_step(s1, RotateEvent::PoolClosed(closed), s2, a2),
        rotation_step(s2, RotateEvent::DatabaseRead(Ok(db)), s3, a3),
        rotation_step(s3, RotateEvent::DatabaseRemoved, s4, a4),
        rotation_step(s4, RotateEvent::PoolReopened(Ok(())), s5, a5),
    ensures
        a1 is ClosePool,
        a2 is ReadDatabase,
        a3 is RemoveDatabase,
        a4 is ReopenPool,
        a5 matches RotateAction::Respond(r) && is_text(r, STATUS_OK, base64_encode(lz4_size_prepended(db@))),
        !s5.active,
        s5.phase == RotatePhase::Idle,
{
}

/// Whether `states`, `events` and `actions` are a run of rotation: each event
/// takes the state before it to the state after it, with the action at its
/// position.
pub open spec fn rotation_run(states: Seq<RotationView>, events: Seq<RotateEvent>, actions: Seq<RotateAction>) -> bool {
    &&& states.len() == events.len() + 1
    &&& actions.len() == events.len()
    &&& forall|i: int| 0 <= i < events.len() ==> rotation_step(states[i], #[trigger] events[i], states[i + 1], actions[i])
}

/// Handling one rotation request, from the request to its answer, leaves the
/// flag as it found it: a refused request changes nothing, and a started
/// rotation, whatever fails, ends with no rotation in progress.
pub proof fn lemma_rotation_run_restores_flag(
    states: Seq<RotationView>,
    events: Seq<RotateEvent>,
    actions: Seq<RotateAction>,
)
    requires
        rotation_run(states, events, actions),
        events.len() >= 1,
        events[0] is Requested,
        forall|i: int| 0 < i < events.len() ==> !(#[trigger] events[i] is Requested),
        actions.last() is Respond,
        forall|i: int| 0 <= i < actions.len() - 1 ==> !(#[trigger] actions[i] is Respond),
    ensures
        states.last().active == states[0].active,
        !states[0].active ==> states.last().phase == RotatePhase::Idle,
{
    let n = events.len() as int;
    assert(rotation_step(states[0], events[0], states[1], actions[0]));
    if states[0].active {
        if n > 1 {
            assert(!(actions[0] is Respond));
        }
        assert(states.last() == states[1]);
    } else {
        if n == 1 {
            assert(actions.last() == actions[0]);
        }
        assert(n > 1);
        assert(!(events[n - 1] is Requested));
        assert(rotation_step(states[n - 1], events[n - 1], states[n], actions[n - 1]));
        assert(actions.last() == actions[n - 1]);
        lemma_answer_ends_rotation(states[n - 1], events[n - 1], states[n], actions[n - 1]);
    }
}

} // verus!
