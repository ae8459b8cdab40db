//! The token store: where the captured token goes, and the steps that put it
//! there.
//!
//! The store never touches the disk. It names the operations, one at a time;
//! the host performs each and reports how it went.

use std::path::PathBuf;
use vstd::prelude::*;

verus! {

/// `std::path::PathBuf`, carried through as an opaque value.
#[verifier::external_type_specification]
#[verifier::external_body]
pub struct ExPathBuf(PathBuf);

/// The directory, below the platform's configuration root, that belongs to
/// this application.
pub const APP_NAMESPACE: &'static str = "dev.chand1012.caffeineclipper";

/// The file, inside the application's directory, that holds the token.
pub const TOKEN_FILE_NAME: &'static str = "token.txt";

/// Calls `dirs::config_dir`. The answer depends on the platform and on the
/// environment of the process, so nothing is promised of it.
#[verifier::external_body]
fn platform_config_root() -> (root: Option<PathBuf>) {
    dirs::config_dir()
}

/// The place of the token file: a configuration root, the application's
/// directory below it, and the token file inside that.
pub struct TokenStore {
    pub root: PathBuf,
}

impl TokenStore {
    /// The store below a given configuration root.
    pub fn under(root: PathBuf) -> (store: TokenStore)
        ensures
            store.root == root,
    {
        TokenStore { root }
    }

    /// The store below the configuration root of the current user, looked up
    /// afresh on every call; `None` where the platform knows no such root.
    pub fn locate() -> (store: Option<TokenStore>) {
        // The platform alone decides whether there is a root, and which;
        // what becomes of its answer is `store_under`.
        let root = platform_config_root();
        store_under(root)
    }
}

/// How the host's last operation went.
#[derive(Clone, Copy, Debug, PartialEq, Eq, Structural)]
pub enum IoOutcome {
    Succeeded,
    Failed,
}

/// The two operations of a capture, in the order in which they are due.
#[derive(Clone, Copy, Debug, PartialEq, Eq, Structural)]
pub enum StoreStep {
    /// Create the application's directory and every missing directory above it.
    EnsureDirectory,
    /// Replace the whole content of the token file.
    WriteToken,
}

/// Where a capture stands.
#[derive(Clone, Copy, Debug, PartialEq, Eq, Structural)]
pub enum Phase {
    /// The host is to perform this operation next.
    Pending(StoreStep),
    /// Both operations succeeded: the token file holds the token.
    Stored,
    /// This operation failed, and nothing was attempted after it.
    Failed(StoreStep),
}

/// An operation for the host to perform, with all it needs to perform it.
#[derive(Clone, Copy, Debug)]
pub enum StoreAction<'a> {
    /// Create the directory `namespace` below `root`, and every missing
    /// directory on the way. An existing directory is a success.
    EnsureDirectory { root: &'a PathBuf, namespace: &'static str },
    /// Write `contents`, and nothing else, to the file `file_name` in the
    /// directory `namespace` below `root`, replacing what the file held.
    WriteToken {
        root: &'a PathBuf,
        namespace: &'static str,
        file_name: &'static str,
        contents: &'a str,
    },
}

/// A failed capture: the operation that failed and the directory it was
/// working in.
#[derive(Clone, Copy, Debug)]
pub struct StoreFailure<'a> {
    pub step: StoreStep,
    pub root: &'a PathBuf,
    pub namespace: &'static str,
}

/// The phase that follows `phase` once the host has reported `outcome` for
/// the pending operation. A finished capture stays as it is.
pub open spec fn phase_after(phase: Phase, outcome: IoOutcome) -> Phase {
    match (phase, outcome) {
        (Phase::Pending(StoreStep::EnsureDirectory), IoOutcome::Succeeded) => Phase::Pending(
            StoreStep::WriteToken,
        ),
        (Phase::Pending(StoreStep::WriteToken), IoOutcome::Succeeded) => Phase::Stored,
        (Phase::Pending(step), IoOutcome::Failed) => Phase::Failed(step),
        (finished, _) => finished,
    }
}

/// One capture of one token: a short conversation with the host, which
/// performs one operation at a time and reports back.
pub struct Capture {
    store: TokenStore,
    token: String,
    phase: Phase,
}

impl Capture {
    /// The token being captured.
    pub closed spec fn token(&self) -> Seq<char> {
        self.token@
    }

    /// The configuration root below which the token goes.
    pub closed spec fn root(&self) -> PathBuf {
        self.store.root
    }

    /// Where the capture stands.
    pub closed spec fn phase(&self) -> Phase {
        self.phase
    }

    /// Starts the capture of `token` into `store`. The directory comes first.
    pub fn begin(store: TokenStore, token: String) -> (capture: Capture)
        ensures
            capture.token() == token@,
            capture.root() == store.root,
            capture.phase() == Phase::Pending(StoreStep::EnsureDirectory),
    {
        Capture { store, token, phase: Phase::Pending(StoreStep::EnsureDirectory) }
    }

    /// The operation that the host is to perform now; `None` once the capture
    /// has finished.
    pub fn pending(&self) -> (action: Option<StoreAction<'_>>)
        ensures
            match self.phase() {
                Phase::Pending(StoreStep::EnsureDirectory) => {
                    &&& action matches Some(StoreAction::EnsureDirectory { root, namespace })
                    &&& *root == self.root()
                    &&& namespace@ == APP_NAMESPACE@
                },
                Phase::Pending(StoreStep::WriteToken) => {
                    &&& action matches Some(
                        StoreAction::WriteToken { root, namespace, file_name, contents },
                    )
                    &&& *root == self.root()
                    &&& namespace@ == APP_NAMESPACE@
                    &&& file_name@ == TOKEN_FILE_NAME@
                    &&& contents@ == self.token()
                },
                Phase::Stored | Phase::Failed(_) => action is None,
            },
    {
        match self.phase {
            Phase::Pending(StoreStep::EnsureDirectory) => Some(
                StoreAction::EnsureDirectory { root: &self.store.root, namespace: APP_NAMESPACE },
            ),
            Phase::Pending(StoreStep::WriteToken) => Some(
                StoreAction::WriteToken {
                    root: &self.store.root,
                    namespace: APP_NAMESPACE,
                    file_name: TOKEN_FILE_NAME,
                    contents: self.token.as_str(),
                },
            ),
            Phase::Stored | Phase::Failed(_) => None,
        }
    }

    /// Takes the host's report on the pending operation.
    pub fn advance(&mut self, outcome: IoOutcome)
        ensures
            final(self).phase() == phase_after(old(self).phase(), outcome),
            final(self).token() == old(self).token(),
            final(self).root() == old(self).root(),
    {
        self.phase = match (self.phase, outcome) {
            (Phase::Pending(StoreStep::EnsureDirectory), IoOutcome::Succeeded) => Phase::Pending(
                StoreStep::WriteToken,
            ),
            (Phase::Pending(StoreStep::WriteToken), IoOutcome::Succeeded) => Phase::Stored,
            (Phase::Pending(step), IoOutcome::Failed) => Phase::Failed(step),
            (finished, _) => finished,
        };
    }

    /// How the capture ended; `None` while an operation is pending.
    pub fn result(&self) -> (result: Option<Result<(), StoreFailure<'_>>>)
        ensures
            match self.phase() {
                Phase::Pending(_) => result is None,
                Phase::Stored => result == Some(Ok::<(), StoreFailure<'_>>(())),
                Phase::Failed(step) => {
                    &&& result matches Some(Err(failure))
                    &&& failure.step == step
                    &&& *failure.root == self.root()
                    &&& failure.namespace@ == APP_NAMESPACE@
                },
            },
    {
        match self.phase {
            Phase::Pending(_) => None,
            Phase::Stored => Some(Ok(())),
            Phase::Failed(step) => Some(
                Err(StoreFailure { step, root: &self.store.root, namespace: APP_NAMESPACE }),
            ),
        }
    }
}


/// Starts the capture of `token` into the store of the current user, which is
/// looked up afresh for this capture; `None` where the platform knows no
/// configuration root, and then nothing is to be performed.
pub fn capture(token: String) -> (capture: Option<Capture>)
    ensures
        capture matches Some(started) ==> {
            &&& started.token() == token@
            &&& started.phase() == Phase::Pending(StoreStep::EnsureDirectory)
        },
{
    // The lookup decides whether there is a store, and which; what becomes
    // of its answer is `capture_into`.
    let store = TokenStore::locate();
    capture_into(store, token)
}

/// Starts the capture of `token` into `store`: with a store, a capture that
/// has the directory due first; without one, no capture.
pub fn capture_into(store: Option<TokenStore>, token: String) -> (capture: Option<Capture>)
    ensures
        match store {
            Some(place) => {
                &&& capture matches Some(started)
                &&& started.token() == token@
                &&& started.root() == place.root
                &&& started.phase() == Phase::Pending(StoreStep::EnsureDirectory)
            },
            None => capture is None,
        },
{
    match store {
        Some(place) => Some(Capture::begin(place, token)),
        None => None,
    }
}

/// The store below a configuration root, where there is one: with a root,
/// the store below it; without one, no store.
pub fn store_under(root: Option<PathBuf>) -> (store: Option<TokenStore>)
    ensures
        match root {
            Some(found) => store matches Some(place) && place.root == found,
            None => store is None,
        },
{
    match root {
        Some(found) => Some(TokenStore::under(found)),
        None => None,
    }
}

} // verus!
