//! Installation of the dispatcher as the process's fault handler.
//!
//! The host runtime owns one slot for the fault handler of the whole process.
//! This module decides when the dispatcher is written to that slot: on every
//! call of [`install_handler`], and on the first call of [`set_once`], unless
//! the dispatcher is installed by then. The decision is handed back as a
//! [`Registration`]; the caller carries it out.
//!
//! The installer keeps its own record of what it had written to the slot and
//! decides by that record. It never reads the slot: a handler that other code
//! writes there is not seen.

use vstd::prelude::*;

verus! {

/// What the fault handler slot of the process holds, as far as this library
/// has written to it.
#[derive(Clone, Copy, Debug, PartialEq, Eq, Structural)]
pub enum Handler {
    /// Nothing was installed: the host's own fault behaviour is in place.
    HostDefault,
    /// The dispatcher is installed.
    Dispatcher,
}

/// What the caller has to do after an installer operation.
#[derive(Clone, Copy, Debug, PartialEq, Eq, Structural)]
pub enum Registration {
    /// Write the dispatcher to the fault handler slot, over whatever it holds.
    Register,
    /// Leave the slot alone.
    Skip,
}

/// One installer operation, as it appears in the history of a process.
pub enum Call {
    /// An unguarded installation.
    InstallHandler,
    /// A guarded installation.
    SetOnce,
}

/// The mathematical state of the installer.
pub struct InstallModel {
    /// What the fault handler slot holds.
    pub handler: Handler,
    /// Whether the guarded installation has been triggered.
    pub once: bool,
}

impl InstallModel {
    /// The state of a process in which no installer operation has run.
    pub open spec fn fresh() -> InstallModel {
        InstallModel { handler: Handler::HostDefault, once: false }
    }

    /// A state with the guard set has the dispatcher installed.
    pub open spec fn wf(self) -> bool {
        self.once ==> self.handler == Handler::Dispatcher
    }

    /// The state after an unguarded installation.
    pub open spec fn install_handler(self) -> InstallModel {
        InstallModel { handler: Handler::Dispatcher, once: self.once }
    }

    /// The state after a guarded installation.
    pub open spec fn set_once(self) -> InstallModel {
        if self.once {
            self
        } else {
            InstallModel { handler: Handler::Dispatcher, once: true }
        }
    }

    /// What a guarded installation asks of the caller in this state: nothing
    /// where the guard is set or the dispatcher is installed already, the
    /// registration otherwise.
    pub open spec fn set_once_action(self) -> Registration {
        if self.once || self.handler == Handler::Dispatcher {
            Registration::Skip
        } else {
            Registration::Register
        }
    }

    /// The state after one installer operation.
    pub open spec fn step(self, call: Call) -> InstallModel {
        match call {
            Call::InstallHandler => self.install_handler(),
            Call::SetOnce => self.set_once(),
        }
    }

    /// The state after the operations of `calls`, taken in order.
    pub open spec fn run(self, calls: Seq<Call>) -> InstallModel
        decreases calls.len(),
    {
        if calls.len() == 0 {
            self
        } else {
            self.run(calls.drop_last()).step(calls.last())
        }
    }

    /// How many registrations the guarded operations among `calls` ask for,
    /// when `calls` are taken in order from this state.
    pub open spec fn guarded_registrations(self, calls: Seq<Call>) -> nat
        decreases calls.len(),
    {
        if calls.len() == 0 {
            0
        } else {
            let earlier = self.guarded_registrations(calls.drop_last());
            if calls.last() == Call::SetOnce && self.run(calls.drop_last()).set_once_action()
                == Registration::Register {
                earlier + 1
            } else {
                earlier
            }
        }
    }
}

/// The history in which the guarded installation is called `n` times in a row.
pub open spec fn guarded_calls(n: nat) -> Seq<Call> {
    Seq::new(n, |i: int| Call::SetOnce)
}

/// The installer's state: one per process, with the process's lifetime.
#[derive(Debug)]
pub struct HookState {
    handler: Handler,
    once: bool,
}

impl View for HookState {
    type V = InstallModel;

    closed spec fn view(&self) -> InstallModel {
        InstallModel { handler: self.handler, once: self.once }
    }
}

impl HookState {
    /// Every state that exists while the program runs is well formed.
    #[verifier::type_invariant]
    pub open spec fn well_formed(&self) -> bool {
        self@.wf()
    }

    /// The state at the start of the process: nothing installed, guard unset.
    pub fn new() -> (state: Self)
        ensures
            state@ == InstallModel::fresh(),
    {
        HookState { handler: Handler::HostDefault, once: false }
    }

    /// What the fault handler slot holds.
    pub fn handler(&self) -> (handler: Handler)
        ensures
            handler == self@.handler,
    {
        self.handler
    }

    /// Whether the guarded installation has been triggered.
    pub fn is_set_once(&self) -> (once: bool)
        ensures
            once == self@.once,
    {
        self.once
    }
}

/// Installs the dispatcher unconditionally: the caller registers it on every
/// call, over whatever the slot holds. The guard is not touched.
pub fn install_handler(state: &mut HookState) -> (action: Registration)
    ensures
        final(state)@ == old(state)@.install_handler(),
        action == Registration::Register,
{
    state.handler = Handler::Dispatcher;
    Registration::Register
}

/// Installs the dispatcher the first time this is called, and sets the guard.
/// Where an unguarded installation came first, the dispatcher is in place and
/// the first call sets the guard only. Later calls find the guard set and ask
/// for nothing.
pub fn set_once(state: &mut HookState) -> (action: Registration)
    ensures
        final(state)@ == old(state)@.set_once(),
        action == old(state)@.set_once_action(),
{
    if state.once {
        Registration::Skip
    } else {
        match state.handler {
            Handler::Dispatcher => {
                state.once = true;
                Registration::Skip
            },
            Handler::HostDefault => {
                state.handler = Handler::Dispatcher;
                state.once = true;
                Registration::Register
            },
        }
    }
}

proof fn lemma_contains_last(calls: Seq<Call>, call: Call)
    requires
        calls.len() > 0,
    ensures
        calls.contains(call) <==> (calls.drop_last().contains(call) || calls.last() == call),
{
    let shorter = calls.drop_last();
    if calls.contains(call) {
        let i = choose|i: int| 0 <= i < calls.len() && calls[i] == call;
        if i < shorter.len() {
            assert(shorter[i] == call);
        }
    }
    if shorter.contains(call) {
        let i = choose|i: int| 0 <= i < shorter.len() && shorter[i] == call;
        assert(calls[i] == call);
    }
    if calls.last() == call {
        assert(calls[calls.len() - 1] == call);
    }
}

/// The process starts in a well-formed state, and no installer operation
/// leaves the well-formed states.
pub proof fn lemma_step_preserves_wf(state: InstallModel, call: Call)
    requires
        state.wf(),
    ensures
        InstallModel::fresh().wf(),
        state.step(call).wf(),
{
}

/// Installation is one-way. Whatever operations follow, in whatever order: a
/// set guard stays set and an installed dispatcher stays installed; after at
/// least one operation, guarded or not, the dispatcher is installed; and the
/// guard is set exactly if it was set before or a guarded operation ran.
pub proof fn lemma_installation_is_permanent(state: InstallModel, calls: Seq<Call>)
    requires
        state.wf(),
    ensures
        state.run(calls).wf(),
        state.once ==> state.run(calls).once,
        state.handler == Handler::Dispatcher ==> state.run(calls).handler == Handler::Dispatcher,
        calls.len() > 0 ==> state.run(calls).handler == Handler::Dispatcher,
        state.run(calls).once <==> (state.once || calls.contains(Call::SetOnce)),
    decreases calls.len(),
{
    if calls.len() > 0 {
        lemma_installation_is_permanent(state, calls.drop_last());
        lemma_contains_last(calls, Call::SetOnce);
    }
}

/// The guarded installation registers at most once in the life of a process,
/// whatever operations run and in whatever order: exactly once if nothing was
/// installed and the first operation to run is a guarded one, and not at all
/// otherwise. An unguarded installation that comes first has done the
/// registration, and no guarded operation repeats it.
pub proof fn lemma_guarded_registration_happens_once(state: InstallModel, calls: Seq<Call>)
    requires
        state.wf(),
    ensures
        state.guarded_registrations(calls) == if state.handler == Handler::HostDefault
            && calls.len() > 0 && calls[0] == Call::SetOnce {
            1nat
        } else {
            0nat
        },
    decreases calls.len(),
{
    if calls.len() > 0 {
        let earlier = calls.drop_last();
        lemma_guarded_registration_happens_once(state, earlier);
        lemma_installation_is_permanent(state, earlier);
        if earlier.len() > 0 {
            assert(earlier[0] == calls[0]);
        }
    }
}

/// A guarded installation asks for the registration exactly where nothing is
/// installed. After any installer operation, guarded or not, a guarded
/// installation asks for nothing: it sets the guard and leaves the dispatcher
/// installed.
pub proof fn lemma_guarded_call_never_repeats_a_registration(state: InstallModel, first: Call)
    requires
        state.wf(),
    ensures
        state.set_once_action() == Registration::Register <==> state.handler
            == Handler::HostDefault,
        state.step(first).set_once_action() == Registration::Skip,
        state.step(first).set_once() == (InstallModel {
            handler: Handler::Dispatcher,
            once: true,
        }),
{
}

/// When the guarded installation is called `n >= 1` times in a process in which
/// nothing was installed before, the registration is asked for exactly once: by
/// the first call. When any of the calls has returned, the guard is set and the
/// dispatcher is installed.
pub proof fn lemma_set_once_registers_exactly_once(state: InstallModel, n: nat)
    requires
        state.wf(),
        state.handler == Handler::HostDefault,
        n >= 1,
    ensures
        state.guarded_registrations(guarded_calls(n)) == 1,
        state.set_once_action() == Registration::Register,
        forall|k: nat|
            1 <= k <= n ==> (#[trigger] state.run(guarded_calls(k))) == (InstallModel {
                handler: Handler::Dispatcher,
                once: true,
            }),
        forall|k: nat|
            1 <= k < n ==> (#[trigger] state.run(guarded_calls(k))).set_once_action()
                == Registration::Skip,
{
    assert(guarded_calls(n)[0] == Call::SetOnce);
    lemma_guarded_registration_happens_once(state, guarded_calls(n));
    assert forall|k: nat| 1 <= k <= n implies (#[trigger] state.run(guarded_calls(k)))
        == (InstallModel { handler: Handler::Dispatcher, once: true }) by {
        assert(guarded_calls(k)[0] == Call::SetOnce);
        lemma_installation_is_permanent(state, guarded_calls(k));
    }
}

/// The unguarded installation may be repeated: after each call the dispatcher
/// is installed, and a second call leaves the state as the first left it.
pub proof fn lemma_install_handler_is_idempotent(state: InstallModel)
    ensures
        state.install_handler().handler == Handler::Dispatcher,
        state.install_handler().once == state.once,
        state.install_handler().install_handler() == state.install_handler(),
{
}

} // verus!
