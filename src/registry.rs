use vstd::prelude::*;

use std::sync::atomic::{AtomicUsize, Ordering};
use std::sync::OnceLock;

use crate::metadata::Metadata;
use crate::record::Record;
use crate::vlog::{NopVLogger, VLog};

verus! {

#[verifier::external_type_specification]
#[verifier::external_body]
#[verifier::reject_recursive_types(T)]
pub struct ExOnceLock<T>(OnceLock<T>);

/// Relies on `std::sync::OnceLock::new`, which makes an empty slot.
pub assume_specification<T>[ OnceLock::<T>::new ]() -> OnceLock<T>;

/// Relies on `std::sync::OnceLock::set`: when the slot was already filled,
/// the value is handed back unchanged.
pub assume_specification<T>[ OnceLock::<T>::set ](cell: &OnceLock<T>, value: T) -> (r: Result<
    (),
    T,
>)
    ensures
        r matches Err(v) ==> v == value,
;

/// Relies on `std::sync::OnceLock::get`, which reads the slot without
/// blocking.
pub assume_specification<T>[ OnceLock::<T>::get ](cell: &OnceLock<T>) -> Option<&T>;

/// Relies on `std::sync::OnceLock::wait`, which blocks until the slot is
/// filled.
pub assume_specification<T>[ OnceLock::<T>::wait ](cell: &OnceLock<T>) -> &T;

/// Flag word: no backend installed.
pub const UNINITIALIZED: usize = 0;

/// Flag word: one installation is in flight.
pub const INITIALIZING: usize = 1;

/// Flag word: a backend is installed for good.
pub const INITIALIZED: usize = 2;

/// The error of an installation when a backend is already installed, or is
/// being installed.
#[derive(Debug)]
pub struct SetVLoggerError(());

impl SetVLoggerError {
    /// A description of the error.
    pub fn message(&self) -> (r: &'static str)
        ensures
            r == "attempted to set a vlogger after the vlogging system was already initialized",
    {
        "attempted to set a vlogger after the vlogging system was already initialized"
    }
}

/// The backend that a [`VLoggerCell`] currently hands out: the no-op backend,
/// or the installed one.
#[derive(Debug)]
pub enum CurrentVLogger<'a, L> {
    /// No backend is installed (or its installation is still in flight).
    Nop(NopVLogger),
    /// The installed backend.
    Installed(&'a L),
}

impl<'a, L: VLog> VLog for CurrentVLogger<'a, L> {
    fn enabled(&self, metadata: &Metadata) -> (r: bool)
        ensures
            self is Nop ==> !r,
    {
        match self {
            CurrentVLogger::Nop(nop) => nop.enabled(metadata),
            CurrentVLogger::Installed(l) => l.enabled(metadata),
        }
    }

    fn vlog(&self, record: &Record) {
        match self {
            CurrentVLogger::Nop(nop) => nop.vlog(record),
            CurrentVLogger::Installed(l) => l.vlog(record),
        }
    }

    fn clear(&self, surface: &str) {
        match self {
            CurrentVLogger::Nop(nop) => nop.clear(surface),
            CurrentVLogger::Installed(l) => l.clear(surface),
        }
    }
}

/// What a reader hands out, given the flag word it loaded and what it read
/// from the slot: the installed backend only once the flag says
/// `INITIALIZED`, the no-op backend otherwise.
pub open spec fn current_of<'a, L>(word: usize, installed: Option<&'a L>) -> CurrentVLogger<'a, L> {
    if word == INITIALIZED && installed is Some {
        CurrentVLogger::Installed(installed->Some_0)
    } else {
        CurrentVLogger::Nop(NopVLogger)
    }
}

/// Picks what a reader hands out from the flag word it loaded and what it
/// read from the slot.
pub fn select<'a, L>(word: usize, installed: Option<&'a L>) -> (r: CurrentVLogger<'a, L>)
    ensures
        r == current_of(word, installed),
        word != INITIALIZED ==> r is Nop,
{
    if word == INITIALIZED {
        match installed {
            Some(l) => CurrentVLogger::Installed(l),
            None => CurrentVLogger::Nop(NopVLogger),
        }
    } else {
        CurrentVLogger::Nop(NopVLogger)
    }
}

/// One atomic step on the installation flag, as the cell's methods take them.
pub enum FlagOp {
    /// The compare-and-set of `set_vlogger`: `UNINITIALIZED` to
    /// `INITIALIZING`, succeeding only from `UNINITIALIZED`.
    Begin,
    /// The store of `INITIALIZED` that ends an installation, made once the
    /// slot holds the winner's backend.
    Publish,
    /// The unchecked installation of `set_vlogger_racy`, taken as one step:
    /// `UNINITIALIZED` to `INITIALIZED`, succeeding only from
    /// `UNINITIALIZED`. Its caller promises that no other installation runs
    /// meanwhile.
    Racy,
}

/// The flag word after one step.
pub open spec fn flag_after(word: usize, op: FlagOp) -> usize {
    match op {
        FlagOp::Begin => if word == UNINITIALIZED {
            INITIALIZING
        } else {
            word
        },
        FlagOp::Publish => INITIALIZED,
        FlagOp::Racy => if word == UNINITIALIZED {
            INITIALIZED
        } else {
            word
        },
    }
}

/// Whether a step is an installation that succeeds.
pub open spec fn wins(word: usize, op: FlagOp) -> bool {
    !(op is Publish) && word == UNINITIALIZED
}

/// The flag word after a sequence of steps, taken one after another in the
/// order in which the atomic flag saw them.
pub open spec fn run_flag(word: usize, ops: Seq<FlagOp>) -> usize
    decreases ops.len(),
{
    if ops.len() == 0 {
        word
    } else {
        run_flag(flag_after(word, ops[0]), ops.drop_first())
    }
}

/// How many installations succeed in a sequence of steps.
pub open spec fn run_wins(word: usize, ops: Seq<FlagOp>) -> nat
    decreases ops.len(),
{
    if ops.len() == 0 {
        0
    } else {
        (if wins(word, ops[0]) {
            1nat
        } else {
            0nat
        }) + run_wins(flag_after(word, ops[0]), ops.drop_first())
    }
}

/// The flag only moves forward, from `UNINITIALIZED` through `INITIALIZING`
/// to `INITIALIZED`, and a step that wins is exactly one that leaves
/// `UNINITIALIZED`.
pub proof fn lemma_flag_moves_forward(word: usize, op: FlagOp)
    requires
        word <= INITIALIZED,
    ensures
        word <= flag_after(word, op) <= INITIALIZED,
        !(op is Publish) ==> (wins(word, op) <==> (word == UNINITIALIZED && flag_after(word, op)
            != UNINITIALIZED)),
        wins(word, op) && op is Begin ==> flag_after(word, op) == INITIALIZING,
        flag_after(word, op) == INITIALIZED ==> word == INITIALIZED || op is Publish || op is Racy,
{
}

proof fn lemma_no_win_after_start(word: usize, ops: Seq<FlagOp>)
    requires
        word != UNINITIALIZED,
    ensures
        run_wins(word, ops) == 0,
        run_flag(word, ops) != UNINITIALIZED,
        word == INITIALIZED ==> run_flag(word, ops) == INITIALIZED,
    decreases ops.len(),
{
    if ops.len() > 0 {
        lemma_no_win_after_start(flag_after(word, ops[0]), ops.drop_first());
    }
}

proof fn lemma_publish_sticks(word: usize, ops: Seq<FlagOp>, i: int)
    requires
        word != UNINITIALIZED,
        0 <= i < ops.len(),
        ops[i] is Publish,
    ensures
        run_flag(word, ops) == INITIALIZED,
    decreases ops.len(),
{
    if i == 0 {
        lemma_no_win_after_start(INITIALIZED, ops.drop_first());
    } else {
        lemma_publish_sticks(flag_after(word, ops[0]), ops.drop_first(), i - 1);
    }
}

/// However the installation steps of any number of callers interleave on a
/// fresh cell, exactly one installation succeeds, provided that at least
/// one is attempted and that every publish follows a compare-and-set (as in
/// `set_vlogger`, where a caller publishes only after its own compare-and-set).
/// Once a publish has happened, or when a racy installation came first, the
/// flag reads `INITIALIZED` for good, so every reader then hands out the
/// backend that the one winner put in the slot.
pub proof fn lemma_exactly_one_install(ops: Seq<FlagOp>)
    requires
        exists|i: int| 0 <= i < ops.len() && !(#[trigger] ops[i] is Publish),
        forall|i: int|
            0 <= i < ops.len() && #[trigger] ops[i] is Publish ==> exists|j: int|
                0 <= j < i && ops[j] is Begin,
    ensures
        run_wins(UNINITIALIZED, ops) == 1,
        (exists|i: int| 0 <= i < ops.len() && #[trigger] ops[i] is Publish) ==> run_flag(
            UNINITIALIZED,
            ops,
        ) == INITIALIZED,
        ops[0] is Racy ==> run_flag(UNINITIALIZED, ops) == INITIALIZED,
{
    assert(ops.len() > 0);
    if ops[0] is Publish {
        assert(false);
    }
    let rest = ops.drop_first();
    let next = flag_after(UNINITIALIZED, ops[0]);
    lemma_no_win_after_start(next, rest);
    if exists|i: int| 0 <= i < ops.len() && #[trigger] ops[i] is Publish {
        let i = choose|i: int| 0 <= i < ops.len() && #[trigger] ops[i] is Publish;
        lemma_publish_sticks(next, rest, i - 1);
    }
}

proof fn lemma_unpublished_flag(word: usize, ops: Seq<FlagOp>)
    requires
        word != INITIALIZED,
        forall|i: int| 0 <= i < ops.len() ==> (#[trigger] ops[i] is Begin),
    ensures
        run_flag(word, ops) != INITIALIZED,
    decreases ops.len(),
{
    if ops.len() > 0 {
        assert(ops[0] is Begin);
        lemma_unpublished_flag(flag_after(word, ops[0]), ops.drop_first());
    }
}

/// Until an installation has published its backend, a fresh cell hands out
/// the no-op backend, whatever the slot holds, and that backend enables no
/// metadata (see the `enabled` of [`CurrentVLogger`]).
pub proof fn lemma_nop_until_published<'a, L>(ops: Seq<FlagOp>, installed: Option<&'a L>)
    requires
        forall|i: int| 0 <= i < ops.len() ==> (#[trigger] ops[i] is Begin),
    ensures
        current_of(run_flag(UNINITIALIZED, ops), installed) is Nop,
{
    lemma_unpublished_flag(UNINITIALIZED, ops);
}

/// What `set_vlogger` does after its compare-and-set.
#[derive(PartialEq, Eq, Structural, Debug)]
pub enum InstallStep {
    /// It won: publish the backend, then set `INITIALIZED`.
    Publish,
    /// Another installation is in flight: wait until its backend is
    /// published, make sure the flag reads `INITIALIZED`, then fail.
    WaitThenFail,
    /// A backend is already installed: fail at once.
    Fail,
}

/// The flag word that a compare-and-set from `UNINITIALIZED` saw: the
/// expected word on success, the word it found on failure.
pub open spec fn word_of(observed: Result<usize, usize>) -> usize {
    match observed {
        Ok(_) => UNINITIALIZED,
        Err(w) => w,
    }
}

/// The step that follows a compare-and-set outcome.
pub open spec fn spec_install_step(observed: Result<usize, usize>) -> InstallStep {
    match observed {
        Ok(_) => InstallStep::Publish,
        Err(w) => if w == INITIALIZING {
            InstallStep::WaitThenFail
        } else {
            InstallStep::Fail
        },
    }
}

/// Decides what `set_vlogger` does with the outcome of its compare-and-set.
pub fn install_step(observed: Result<usize, usize>) -> (r: InstallStep)
    ensures
        r == spec_install_step(observed),
        observed is Ok <==> r is Publish,
        observed == Err::<usize, usize>(INITIALIZING) <==> r is WaitThenFail,
        r is Publish ==> wins(word_of(observed), FlagOp::Begin),
        word_of(observed) != UNINITIALIZED ==> !(r is Publish) && !wins(
            word_of(observed),
            FlagOp::Begin,
        ),
{
    match observed {
        Ok(_) => InstallStep::Publish,
        Err(w) => if w == INITIALIZING {
            InstallStep::WaitThenFail
        } else {
            InstallStep::Fail
        },
    }
}

/// Decides whether `set_vlogger_racy` installs, given the flag word it
/// loaded.
pub fn racy_step(word: usize) -> (r: bool)
    ensures
        r == (word == UNINITIALIZED),
        r == wins(word, FlagOp::Racy),
{
    word == UNINITIALIZED
}

/// A write-once cell holding the backend that commands go to.
///
/// A flag with three states guards it: `UNINITIALIZED`, `INITIALIZING`
/// while one installation is in flight, and `INITIALIZED` for good. Exactly
/// one installation moves the flag out of `UNINITIALIZED` (by an atomic
/// compare-and-set); it publishes its backend in the slot and only then sets
/// `INITIALIZED` with release ordering, so that a reader that loads
/// `INITIALIZED` with acquire ordering sees the published backend. Readers
/// never block and see the no-op backend until then.
#[verifier::reject_recursive_types(L)]
pub struct VLoggerCell<L> {
    state: AtomicUsize,
    slot: OnceLock<L>,
}

impl<L: VLog> VLoggerCell<L> {
    /// An empty cell: its readers see the no-op backend.
    pub fn new() -> Self {
        VLoggerCell { state: AtomicUsize::new(UNINITIALIZED), slot: OnceLock::new() }
    }

    /// Installs `vlogger` if no backend was installed before.
    ///
    /// Only one installation ever succeeds. A call that meets another one in
    /// flight waits until that one has published its backend and the flag
    /// reads `INITIALIZED`, then fails; a call after a completed installation
    /// fails at once. The result is `Ok` exactly when the step that
    /// [`install_step`] gives for this call's compare-and-set is `Publish`.
    pub fn set_vlogger(&self, vlogger: L) -> (r: Result<(), SetVLoggerError>)
        ensures
            exists|observed: Result<usize, usize>|
                (r is Ok <==> #[trigger] spec_install_step(observed) is Publish),
    {
        let observed = self.state.compare_exchange(
            UNINITIALIZED,
            INITIALIZING,
            Ordering::Acquire,
            Ordering::Relaxed,
        );
        let step = install_step(observed);
        match step {
            InstallStep::Publish => {
                let _ = self.slot.set(vlogger);
                self.state.store(INITIALIZED, Ordering::Release);
                Ok(())
            },
            InstallStep::WaitThenFail => {
                let _ = self.slot.wait();
                self.state.store(INITIALIZED, Ordering::Release);
                Err(SetVLoggerError(()))
            },
            InstallStep::Fail => Err(SetVLoggerError(())),
        }
    }

    /// Installs `vlogger` without the atomic compare-and-set, for a start-up
    /// phase in which no other installation can run at the same time.
    ///
    /// Racing it with another installation breaks the cell's protocol: two
    /// calls may then both report success while only one backend is kept.
    /// When it finds an installation in flight it fails rather than wait.
    /// The result is `Ok` exactly when [`racy_step`] accepts the flag word
    /// that this call loaded.
    pub fn set_vlogger_racy(&self, vlogger: L) -> (r: Result<(), SetVLoggerError>)
        ensures
            exists|word: usize| (r is Ok <==> #[trigger] wins(word, FlagOp::Racy)),
    {
        let word = self.state.load(Ordering::Acquire);
        if racy_step(word) {
            let _ = self.slot.set(vlogger);
            self.state.store(INITIALIZED, Ordering::Release);
            Ok(())
        } else {
            Err(SetVLoggerError(()))
        }
    }

    /// The backend that commands go to now: the installed one, or the
    /// no-op backend while none is installed. It is what [`select`] gives for
    /// the flag word this call loaded and what it read from the slot.
    pub fn vlogger(&self) -> (r: CurrentVLogger<'_, L>)
        ensures
            exists|word: usize, installed: Option<&L>| r == #[trigger] current_of(word, installed),
    {
        let word = self.state.load(Ordering::Acquire);
        let installed = if word == INITIALIZED {
            self.slot.get()
        } else {
            None
        };
        select(word, installed)
    }
}

} // verus!
