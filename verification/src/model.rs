//! What the store's operations do to the disk, as far as the store relies on
//! it, and what follows for whole captures.
//!
//! `StoreModel` covers one store location and the operations that succeeded
//! there. Failed operations are not part of a history: nothing is assumed of
//! what they leave behind. `Disk` is the wider picture, with every directory
//! and file by its path, and says what the host owes when it reports that
//! the directory is there: all of the path, not its last segment alone.

use crate::store::{
    phase_after, IoOutcome, Phase, StoreStep, APP_NAMESPACE, TOKEN_FILE_NAME,
};
use vstd::prelude::*;

verus! {

/// A successful operation on the store, as the disk sees it.
pub enum Operation {
    /// The application's directory was created, or was there already.
    EnsureDirectory,
    /// The token file's content was replaced by this value.
    WriteToken(Seq<char>),
}

/// The operation that a pending phase of a capture of `token` asks for.
pub open spec fn operation_of(step: StoreStep, token: Seq<char>) -> Operation {
    match step {
        StoreStep::EnsureDirectory => Operation::EnsureDirectory,
        StoreStep::WriteToken => Operation::WriteToken(token),
    }
}

/// The operations of a capture of `token` that ran to its end, in order.
pub open spec fn capture_operations(token: Seq<char>) -> Seq<Operation> {
    seq![Operation::EnsureDirectory, Operation::WriteToken(token)]
}

/// The part of the disk that the store owns: whether the application's
/// directory exists, and what the token file holds, if it exists.
pub struct StoreModel {
    pub directory_exists: bool,
    pub token: Option<Seq<char>>,
}

impl StoreModel {
    /// The token file lives in the directory: without the one there is none
    /// of the other.
    pub open spec fn wf(self) -> bool {
        self.token is Some ==> self.directory_exists
    }

    /// Whether `operation` can succeed in this state. A write needs the
    /// directory; creating a directory that exists is a success.
    pub open spec fn admits(self, operation: Operation) -> bool {
        match operation {
            Operation::EnsureDirectory => true,
            Operation::WriteToken(_) => self.directory_exists,
        }
    }

    /// The state after `operation` succeeded. A write replaces the content;
    /// nothing is appended and nothing of the old content is kept.
    pub open spec fn apply(self, operation: Operation) -> StoreModel {
        match operation {
            Operation::EnsureDirectory => StoreModel { directory_exists: true, token: self.token },
            Operation::WriteToken(value) => StoreModel {
                directory_exists: self.directory_exists,
                token: Some(value),
            },
        }
    }

    /// The state after every operation of `history` succeeded, in order.
    pub open spec fn replay(self, history: Seq<Operation>) -> StoreModel
        decreases history.len(),
    {
        if history.len() == 0 {
            self
        } else {
            self.replay(history.drop_last()).apply(history.last())
        }
    }

    /// Whether every operation of `history` can succeed, one after the other.
    pub open spec fn admits_all(self, history: Seq<Operation>) -> bool
        decreases history.len(),
    {
        if history.len() == 0 {
            true
        } else {
            &&& self.admits_all(history.drop_last())
            &&& self.replay(history.drop_last()).admits(history.last())
        }
    }

    /// The state after a capture of `token` ran to its end.
    pub open spec fn captured(self, token: Seq<char>) -> StoreModel {
        self.replay(capture_operations(token))
    }
}

/// Whether `merged` holds the operations of `first` and of `second`, each in
/// its own order, in some interleaving.
pub open spec fn interleaves(
    merged: Seq<Operation>,
    first: Seq<Operation>,
    second: Seq<Operation>,
) -> bool
    decreases merged.len(),
{
    if merged.len() == 0 {
        first.len() == 0 && second.len() == 0
    } else {
        ||| {
            &&& first.len() > 0
            &&& first.last() == merged.last()
            &&& interleaves(merged.drop_last(), first.drop_last(), second)
        }
        ||| {
            &&& second.len() > 0
            &&& second.last() == merged.last()
            &&& interleaves(merged.drop_last(), first, second.drop_last())
        }
    }
}

/// The phase of a capture that began in `phase`, after the host's reports
/// `outcomes`, in order.
pub open spec fn phase_after_all(phase: Phase, outcomes: Seq<IoOutcome>) -> Phase
    decreases outcomes.len(),
{
    if outcomes.len() == 0 {
        phase
    } else {
        phase_after(phase_after_all(phase, outcomes.drop_last()), outcomes.last())
    }
}

/// The operations that succeeded while a capture of `token` that began in
/// `phase` took the host's reports `outcomes`, in order.
pub open spec fn succeeded_during(
    phase: Phase,
    token: Seq<char>,
    outcomes: Seq<IoOutcome>,
) -> Seq<Operation>
    decreases outcomes.len(),
{
    if outcomes.len() == 0 {
        Seq::empty()
    } else {
        let earlier = succeeded_during(phase, token, outcomes.drop_last());
        match (phase_after_all(phase, outcomes.drop_last()), outcomes.last()) {
            (Phase::Pending(step), IoOutcome::Succeeded) => earlier.push(operation_of(step, token)),
            _ => earlier,
        }
    }
}

/// The operations that have succeeded by the time a capture of `token`
/// stands in `phase`.
pub open spec fn succeeded_by(phase: Phase, token: Seq<char>) -> Seq<Operation> {
    match phase {
        Phase::Pending(StoreStep::EnsureDirectory) | Phase::Failed(StoreStep::EnsureDirectory) => Seq::empty(),
        Phase::Pending(StoreStep::WriteToken) | Phase::Failed(StoreStep::WriteToken) => seq![
            Operation::EnsureDirectory,
        ],
        Phase::Stored => capture_operations(token),
    }
}

/// Whatever the host reports, and however often, the phase of a capture tells
/// which operations have succeeded: none before the directory is there, the
/// directory alone while the write is due or has failed, and both, in that
/// order, once the capture stands at `Stored`.
pub proof fn lemma_phase_tells_history(token: Seq<char>, outcomes: Seq<IoOutcome>)
    ensures
        succeeded_during(Phase::Pending(StoreStep::EnsureDirectory), token, outcomes)
            == succeeded_by(
            phase_after_all(Phase::Pending(StoreStep::EnsureDirectory), outcomes),
            token,
        ),
    decreases outcomes.len(),
{
    if outcomes.len() > 0 {
        lemma_phase_tells_history(token, outcomes.drop_last());
    }
}

/// A capture that ran to its end can succeed from any state, and leaves the
/// directory present and the token file holding the token.
proof fn lemma_capture_unfolds(before: StoreModel, token: Seq<char>)
    ensures
        before.admits_all(capture_operations(token)),
        before.captured(token) == (StoreModel { directory_exists: true, token: Some(token) }),
{
    let operations = capture_operations(token);
    assert(operations.drop_last() == seq![Operation::EnsureDirectory]);
    assert(operations.drop_last().drop_last() == Seq::<Operation>::empty());
    reveal_with_fuel(StoreModel::replay, 3);
    reveal_with_fuel(StoreModel::admits_all, 3);
}

/// A capture stores its token: whatever the store held before, a capture of
/// `token` that ran to its end can succeed, and leaves the token file holding
/// exactly `token`.
pub proof fn lemma_capture_stores_token(before: StoreModel, token: Seq<char>)
    ensures
        before.admits_all(capture_operations(token)),
        before.captured(token).token == Some(token),
        before.captured(token).wf(),
{
    lemma_capture_unfolds(before, token);
}

/// A capture that reports success has stored its token: if, after any
/// reports of the host, a capture of `token` stands at `Stored`, then the
/// operations that succeeded on its behalf leave the token file holding
/// exactly `token`.
pub proof fn lemma_stored_means_token_on_disk(
    before: StoreModel,
    token: Seq<char>,
    outcomes: Seq<IoOutcome>,
)
    requires
        phase_after_all(Phase::Pending(StoreStep::EnsureDirectory), outcomes) == Phase::Stored,
    ensures
        before.replay(
            succeeded_during(Phase::Pending(StoreStep::EnsureDirectory), token, outcomes),
        ).token == Some(token),
{
    lemma_phase_tells_history(token, outcomes);
    lemma_capture_stores_token(before, token);
}

/// Capturing the same token twice leaves the store as capturing it once.
pub proof fn lemma_capture_is_idempotent(before: StoreModel, token: Seq<char>)
    ensures
        before.captured(token).captured(token) == before.captured(token),
{
    lemma_capture_unfolds(before, token);
    lemma_capture_unfolds(before.captured(token), token);
}

/// A capture needs no directory to start from: where the application's
/// directory is missing, a capture can still succeed, and the directory is
/// there afterwards, together with the token.
pub proof fn lemma_capture_bootstraps_directory(before: StoreModel, token: Seq<char>)
    requires
        !before.directory_exists,
    ensures
        before.admits_all(capture_operations(token)),
        before.captured(token).directory_exists,
        before.captured(token).token == Some(token),
{
    lemma_capture_unfolds(before, token);
}

/// The last write wins: after any history of successful operations, the token
/// file holds the value of the last write in it, whatever was written before
/// and however often the directory was ensured in between or afterwards.
pub proof fn lemma_last_write_wins(
    before: StoreModel,
    history: Seq<Operation>,
    last: int,
    token: Seq<char>,
)
    requires
        0 <= last < history.len(),
        history[last] == Operation::WriteToken(token),
        forall|later: int| last < later < history.len() ==> history[later] is EnsureDirectory,
    ensures
        before.replay(history).token == Some(token),
    decreases history.len(),
{
    if last < history.len() - 1 {
        lemma_last_write_wins(before, history.drop_last(), last, token);
    }
}

/// Two captures that overlap in time: whatever the store held before and
/// however their operations interleave, all of them can succeed, and if the
/// write of the later capture comes last, the token file holds the later
/// token.
pub proof fn lemma_later_capture_wins(
    before: StoreModel,
    merged: Seq<Operation>,
    earlier: Seq<char>,
    later: Seq<char>,
)
    requires
        interleaves(merged, capture_operations(earlier), capture_operations(later)),
        merged.len() > 0 && merged.last() == Operation::WriteToken(later),
    ensures
        before.admits_all(merged),
        before.replay(merged).token == Some(later),
{
    lemma_last_write_wins(before, merged, merged.len() - 1, later);
    lemma_interleaving_starts_with_directory(merged, earlier, later);
    lemma_directory_first_admits_all(before, merged);
}

/// Every interleaving of two captures begins by ensuring the directory.
proof fn lemma_interleaving_starts_with_directory(
    merged: Seq<Operation>,
    earlier: Seq<char>,
    later: Seq<char>,
)
    requires
        interleaves(merged, capture_operations(earlier), capture_operations(later)),
    ensures
        merged.len() > 0,
        merged[0] is EnsureDirectory,
{
    let first = capture_operations(earlier);
    let second = capture_operations(later);
    let one = seq![Operation::EnsureDirectory];
    let none = Seq::<Operation>::empty();
    assert(first.drop_last() == one);
    assert(second.drop_last() == one);
    assert(one.drop_last() == none);
    reveal_with_fuel(interleaves, 6);
}

/// Once the directory is there it stays, so a history that begins by
/// ensuring it can succeed as a whole.
proof fn lemma_directory_first_admits_all(before: StoreModel, history: Seq<Operation>)
    requires
        history.len() > 0,
        history[0] is EnsureDirectory,
    ensures
        before.admits_all(history),
        before.replay(history).directory_exists,
    decreases history.len(),
{
    let earlier = history.drop_last();
    if history.len() > 1 {
        lemma_directory_first_admits_all(before, earlier);
        assert(before.replay(earlier).admits(history.last()));
    } else {
        assert(history.last() == history[0]);
        assert(before.admits_all(earlier));
        assert(before.replay(earlier).admits(history.last()));
    }
}


/// The disk as captures touch it: the directories that exist, and the files
/// with what they hold, each by the segments of its path.
pub struct Disk {
    pub directories: Set<Seq<Seq<char>>>,
    pub files: Map<Seq<Seq<char>>, Seq<char>>,
}

/// The application's directory below the configuration root `root`.
pub open spec fn store_directory(root: Seq<Seq<char>>) -> Seq<Seq<char>> {
    root.push(APP_NAMESPACE@)
}

/// The token file below the configuration root `root`.
pub open spec fn token_file(root: Seq<Seq<char>>) -> Seq<Seq<char>> {
    store_directory(root).push(TOKEN_FILE_NAME@)
}

impl Disk {
    /// The disk after `path` was created with every missing directory above
    /// it. What was there stays.
    pub open spec fn with_directory(self, path: Seq<Seq<char>>) -> Disk {
        Disk {
            directories: Set::new(
                |directory: Seq<Seq<char>>|
                    self.directories.contains(directory) || directory.is_prefix_of(path),
            ),
            files: self.files,
        }
    }

    /// Whether `operation` of a capture below `root` can succeed on this
    /// disk. A write needs the directory of its file.
    pub open spec fn admits(self, root: Seq<Seq<char>>, operation: Operation) -> bool {
        match operation {
            Operation::EnsureDirectory => true,
            Operation::WriteToken(_) => self.directories.contains(store_directory(root)),
        }
    }

    /// The disk after `operation` of a capture below `root` succeeded.
    pub open spec fn apply(self, root: Seq<Seq<char>>, operation: Operation) -> Disk {
        match operation {
            Operation::EnsureDirectory => self.with_directory(store_directory(root)),
            Operation::WriteToken(value) => Disk {
                directories: self.directories,
                files: self.files.insert(token_file(root), value),
            },
        }
    }

    /// The disk after every operation of `history` succeeded below `root`, in
    /// order.
    pub open spec fn replay(self, root: Seq<Seq<char>>, history: Seq<Operation>) -> Disk
        decreases history.len(),
    {
        if history.len() == 0 {
            self
        } else {
            self.replay(root, history.drop_last()).apply(root, history.last())
        }
    }

    /// What the store below `root` sees of this disk.
    pub open spec fn store(self, root: Seq<Seq<char>>) -> StoreModel {
        StoreModel {
            directory_exists: self.directories.contains(store_directory(root)),
            token: if self.files.contains_key(token_file(root)) {
                Some(self.files[token_file(root)])
            } else {
                None
            },
        }
    }
}

/// The store's model is the disk seen from the store: an operation can
/// succeed on the disk exactly if it can in the model, and does to the
/// store's part of the disk what it does to the model.
pub proof fn lemma_store_follows_disk(disk: Disk, root: Seq<Seq<char>>, operation: Operation)
    ensures
        disk.admits(root, operation) == disk.store(root).admits(operation),
        disk.apply(root, operation).store(root) == disk.store(root).apply(operation),
{
    let directory = store_directory(root);
    assert(directory.is_prefix_of(directory));
}

/// The same over whole histories: what the laws on `StoreModel` say of a
/// history, they say of the disk.
pub proof fn lemma_store_follows_disk_history(
    disk: Disk,
    root: Seq<Seq<char>>,
    history: Seq<Operation>,
)
    ensures
        disk.replay(root, history).store(root) == disk.store(root).replay(history),
    decreases history.len(),
{
    if history.len() > 0 {
        lemma_store_follows_disk_history(disk, root, history.drop_last());
        lemma_store_follows_disk(disk.replay(root, history.drop_last()), root, history.last());
    }
}

/// A capture creates all that is missing of its path. Whatever the disk
/// held before, and however many directories above the application's
/// directory were missing, a capture of `token` below `root` can succeed;
/// afterwards the application's directory and every directory above it
/// exist, every directory and file that was there is still there, nothing
/// else was created, and the token file holds exactly `token`.
pub proof fn lemma_capture_creates_every_segment(
    before: Disk,
    root: Seq<Seq<char>>,
    token: Seq<char>,
)
    ensures
        ({
            let directory = store_directory(root);
            let created = before.apply(root, Operation::EnsureDirectory);
            let after = before.replay(root, capture_operations(token));
            &&& before.admits(root, Operation::EnsureDirectory)
            &&& created.admits(root, Operation::WriteToken(token))
            &&& after == created.apply(root, Operation::WriteToken(token))
            &&& forall|path: Seq<Seq<char>>| #[trigger]
                path.is_prefix_of(directory) ==> after.directories.contains(path)
            &&& forall|path: Seq<Seq<char>>| #[trigger]
                before.directories.contains(path) ==> after.directories.contains(path)
            &&& forall|path: Seq<Seq<char>>| #[trigger]
                after.directories.contains(path) ==> before.directories.contains(path)
                    || path.is_prefix_of(directory)
            &&& after.files == before.files.insert(token_file(root), token)
        }),
{
    let directory = store_directory(root);
    assert(directory.is_prefix_of(directory));
    let operations = capture_operations(token);
    assert(operations.drop_last() == seq![Operation::EnsureDirectory]);
    assert(operations.drop_last().drop_last() == Seq::<Operation>::empty());
    reveal_with_fuel(Disk::replay, 3);
}


} // verus!
