//! Blocking and trapping the signals that end the process.
use nix::errno::Errno;
use nix::sys::signal::{SigSet, Signal};
use vstd::prelude::*;

verus! {

#[verifier::external_type_specification]
#[verifier::external_body]
pub struct ExSigSet(SigSet);

#[verifier::external_type_specification]
#[verifier::external_body]
pub struct ExErrno(Errno);

#[verifier::external_type_specification]
pub struct ExSignal(Signal);

/// The signals held by a signal mask.
pub uninterp spec fn mask_signals(m: SigSet) -> Set<Signal>;

/// Relies on nix's `SigSet::empty`: the new mask holds no signal.
pub assume_specification[ SigSet::empty ]() -> (r: SigSet)
    ensures
        mask_signals(r) == Set::<Signal>::empty(),
;

/// Relies on nix's `SigSet::add`: the mask gains `signal` and keeps the others.
pub assume_specification[ SigSet::add ](set: &mut SigSet, signal: Signal)
    ensures
        mask_signals(*final(set)) == mask_signals(*old(set)).insert(signal),
;

/// Relies on nix's `SigSet::thread_block`: adds the mask to the calling
/// thread's blocked signals, reporting a failure of `pthread_sigmask`.
pub assume_specification[ SigSet::thread_block ](set: &SigSet) -> (r: Result<(), Errno>);

/// Relies on nix's `SigSet::wait`: waits until a signal of the mask is
/// pending and returns it.
pub assume_specification[ SigSet::wait ](set: &SigSet) -> (r: Result<Signal, Errno>)
    ensures
        r is Ok ==> mask_signals(*set).contains(r->Ok_0),
;

/// Interrupt, quit, terminate and hangup: the signals that end the process.
pub open spec fn exit_signals() -> Set<Signal> {
    set![Signal::SIGINT, Signal::SIGQUIT, Signal::SIGTERM, Signal::SIGHUP]
}

/// Why handling the exit signals failed.
#[derive(Debug, Clone, Copy, PartialEq, Eq, Structural)]
pub enum ExitError {
    BlockExitSignals,
    TrapExitSignals,
}

/// A mask holding exactly the exit signals.
pub fn create_exit_sigmask() -> (m: SigSet)
    ensures
        mask_signals(m) == exit_signals(),
{
    let mut mask = SigSet::empty();
    mask.add(Signal::SIGINT);
    mask.add(Signal::SIGQUIT);
    mask.add(Signal::SIGTERM);
    mask.add(Signal::SIGHUP);
    proof {
        assert(mask_signals(mask) =~= exit_signals());
    }
    mask
}

/// Blocks the exit signals on the calling thread; threads spawned afterwards
/// inherit the mask.
pub fn block_exit_signals() -> (r: Result<(), ExitError>)
    ensures
        r is Err ==> r->Err_0 == ExitError::BlockExitSignals,
{
    let mask = create_exit_sigmask();
    match mask.thread_block() {
        Ok(()) => Ok(()),
        Err(_) => Err(ExitError::BlockExitSignals),
    }
}

/// Waits for one of the exit signals and returns it.
pub fn wait_exit_signal() -> (r: Result<Signal, ExitError>)
    ensures
        r is Ok ==> exit_signals().contains(r->Ok_0),
        r is Err ==> r->Err_0 == ExitError::TrapExitSignals,
{
    let mask = create_exit_sigmask();
    match mask.wait() {
        Ok(sig) => Ok(sig),
        Err(_) => Err(ExitError::TrapExitSignals),
    }
}

/// Waits until one of the exit signals arrives.
pub fn trap_exit_signals() -> (r: Result<(), ExitError>)
    ensures
        r is Err ==> r->Err_0 == ExitError::TrapExitSignals,
{
    match wait_exit_signal() {
        Ok(_) => Ok(()),
        Err(e) => Err(e),
    }
}

} // verus!
