//! What holds of projects and factories over whole sequences of calls.
//!
//! A call is written down as a value, and `run` applies a sequence of them
//! to a state by the same functions that the contracts of the calls use.

use crate::address::Address;
use crate::factory::FactoryState;
use crate::ledger::{ledger_sum, lemma_sum_credited};
use crate::project::{ProjectData, ProjectState, Transfer};
use vstd::prelude::*;

verus! {

/// A call on a project.
pub enum ProjectCall {
    SetToken { caller: Address, token: Address },
    Fund { caller: Address, from: Address, amount: i128, now: u64 },
    Withdraw { caller: Address, now: u64 },
}

impl ProjectState {
    /// Whether the project can take `call`: see `admits_fund`.
    pub open spec fn admits(self, call: ProjectCall) -> bool {
        match call {
            ProjectCall::Fund { caller, from, amount, now } => self.admits_fund(
                caller,
                from,
                amount,
                now,
            ),
            _ => true,
        }
    }

    /// Whether `call` is refused with an error.
    pub open spec fn refuses(self, call: ProjectCall) -> bool {
        match call {
            ProjectCall::SetToken { caller, token } => self.set_token_result(caller) is Err,
            ProjectCall::Fund { caller, from, amount, now } => self.fund_result(
                caller,
                from,
                amount,
                now,
            ) is Err,
            ProjectCall::Withdraw { caller, now } => self.withdraw_result(caller, now) is Err,
        }
    }

    /// The state that `call` leaves.
    pub open spec fn step(self, call: ProjectCall) -> ProjectState {
        match call {
            ProjectCall::SetToken { caller, token } => self.after_set_token(caller, token),
            ProjectCall::Fund { caller, from, amount, now } => self.after_fund(
                caller,
                from,
                amount,
                now,
            ),
            ProjectCall::Withdraw { caller, now } => self.after_withdraw(caller, now),
        }
    }

    /// The amount that `call` releases from custody.
    pub open spec fn paid_out_by(self, call: ProjectCall) -> int {
        match call {
            ProjectCall::Withdraw { caller, now } => if self.withdraw_result(caller, now) is Ok {
                self.total_funded
            } else {
                0
            },
            _ => 0,
        }
    }
}

/// The state that `calls`, made in order, leave of `start`.
pub open spec fn run(start: ProjectState, calls: Seq<ProjectCall>) -> ProjectState
    decreases calls.len(),
{
    if calls.len() == 0 {
        start
    } else {
        run(start, calls.drop_last()).step(calls.last())
    }
}

/// Whether each of `calls` can be taken in the state in which it arrives.
pub open spec fn admissible(start: ProjectState, calls: Seq<ProjectCall>) -> bool
    decreases calls.len(),
{
    if calls.len() == 0 {
        true
    } else {
        &&& admissible(start, calls.drop_last())
        &&& run(start, calls.drop_last()).admits(calls.last())
    }
}

/// The sum of what `calls`, made in order from `start`, release from
/// custody.
pub open spec fn paid_out(start: ProjectState, calls: Seq<ProjectCall>) -> int
    decreases calls.len(),
{
    if calls.len() == 0 {
        0
    } else {
        paid_out(start, calls.drop_last()) + run(start, calls.drop_last()).paid_out_by(
            calls.last(),
        )
    }
}

/// A refused call leaves the project as it was: the ledger, the amount in
/// custody, the asset and the data.
pub proof fn law_refused_call_changes_nothing(state: ProjectState, call: ProjectCall)
    requires
        state.refuses(call),
    ensures
        state.step(call) == state,
{
}

/// Every call that the project can take keeps the invariant, and changes
/// what the ledger records beyond custody by exactly what it pays out.
pub proof fn law_call_keeps_invariant(state: ProjectState, call: ProjectCall)
    requires
        state.wf(),
        state.admits(call),
    ensures
        state.step(call).wf(),
        state.step(call).released() == state.released() + state.paid_out_by(call),
        state.paid_out_by(call) >= 0,
        state.step(call).data == state.data,
{
    match call {
        ProjectCall::Fund { caller, from, amount, now } => {
            lemma_sum_credited(state.ledger, from, amount as int);
        },
        _ => {},
    }
}

/// No call removes an entry from the ledger or lowers one.
pub proof fn law_contributions_never_fall(state: ProjectState, call: ProjectCall, funder: Address)
    requires
        state.wf(),
        state.admits(call),
    ensures
        state.ledger.contains_key(funder) ==> state.step(call).ledger.contains_key(funder),
        state.step(call).contribution(funder) >= state.contribution(funder),
{
}

/// In every state that a project reaches from its set-up, whatever the
/// calls, the invariant holds, the data are those it was set up with, and
/// the ledger adds up to what is in custody plus what has been paid out.
/// So as long as nothing has been paid out, the amount in custody is the
/// sum of the ledger.
pub proof fn law_ledger_total_consistency(data: ProjectData, calls: Seq<ProjectCall>)
    requires
        admissible(ProjectState::init(data), calls),
    ensures
        run(ProjectState::init(data), calls).wf(),
        run(ProjectState::init(data), calls).data == data,
        paid_out(ProjectState::init(data), calls) >= 0,
        ledger_sum(run(ProjectState::init(data), calls).ledger) == run(
            ProjectState::init(data),
            calls,
        ).total_funded + paid_out(ProjectState::init(data), calls),
        paid_out(ProjectState::init(data), calls) == 0 ==> run(
            ProjectState::init(data),
            calls,
        ).balanced(),
    decreases calls.len(),
{
    let start = ProjectState::init(data);
    if calls.len() > 0 {
        law_ledger_total_consistency(data, calls.drop_last());
        law_call_keeps_invariant(run(start, calls.drop_last()), calls.last());
    }
}

/// The deadline gate: a contribution by its caller is taken exactly when
/// `now` is not after the deadline, and a withdrawal by the creator
/// exactly when it is.
pub proof fn law_deadline_gate(
    state: ProjectState,
    contributor: Address,
    amount: i128,
    now: u64,
)
    ensures
        state.fund_result(contributor, contributor, amount, now) is Ok <==> now
            <= state.data.deadline,
        state.withdraw_result(state.data.creator, now) is Ok <==> now > state.data.deadline,
        !(state.fund_result(contributor, contributor, amount, now) is Ok && state.withdraw_result(
            state.data.creator,
            now,
        ) is Ok),
{
}

/// After a withdrawal that was taken nothing is in custody, the ledger is
/// untouched, and the payout it asked for gives the creator exactly what
/// was in custody before.
pub proof fn law_withdrawal_completeness(state: ProjectState, caller: Address, now: u64)
    requires
        state.wf(),
        state.withdraw_result(caller, now) is Ok,
    ensures
        state.after_withdraw(caller, now).total_funded == 0,
        state.after_withdraw(caller, now).ledger == state.ledger,
        match state.withdraw_result(caller, now)->Ok_0 {
            Some(payout) => {
                &&& payout.gain_of(state.data.creator) == state.total_funded
                &&& payout.custody_gain() == -state.total_funded
                &&& payout is Payout
                &&& state.token == Some(payout->Payout_token)
            },
            None => state.total_funded == 0,
        },
{
}

/// A withdrawal that follows a taken one in the settlement phase, with no
/// contribution in between, is taken too, asks for no payout and changes
/// nothing.
pub proof fn law_second_withdraw_is_noop(
    state: ProjectState,
    caller: Address,
    first: u64,
    second: u64,
)
    requires
        state.withdraw_result(caller, first) is Ok,
        second > state.data.deadline,
    ensures
        state.after_withdraw(caller, first).withdraw_result(caller, second) == Ok::<
            Option<Transfer>,
            crate::project::Error,
        >(None),
        state.after_withdraw(caller, first).after_withdraw(caller, second) == state.after_withdraw(
            caller,
            first,
        ),
{
}

/// A call on a factory.
pub enum FactoryCall {
    SetProjectWasmHash { caller: Address, wasm_hash: [u8; 32] },
    CreateProject { caller: Address, creator: Address },
    RegisterProject { address: Address },
}

impl FactoryState {
    /// Whether `call` is refused with an error.
    pub open spec fn refuses(self, call: FactoryCall) -> bool {
        match call {
            FactoryCall::SetProjectWasmHash { caller, wasm_hash } =>
                self.set_project_wasm_hash_result(caller) is Err,
            FactoryCall::CreateProject { caller, creator } => self.create_project_error(
                caller,
                creator,
            ) is Some,
            FactoryCall::RegisterProject { address } => false,
        }
    }

    /// The state that `call` leaves.
    pub open spec fn step(self, call: FactoryCall) -> FactoryState {
        match call {
            FactoryCall::SetProjectWasmHash { caller, wasm_hash } =>
                self.after_set_project_wasm_hash(caller, wasm_hash),
            FactoryCall::CreateProject { caller, creator } => self,
            FactoryCall::RegisterProject { address } => self.after_register_project(address),
        }
    }
}

/// The state that `calls`, made in order, leave of `start`.
pub open spec fn run_factory(start: FactoryState, calls: Seq<FactoryCall>) -> FactoryState
    decreases calls.len(),
{
    if calls.len() == 0 {
        start
    } else {
        run_factory(start, calls.drop_last()).step(calls.last())
    }
}

/// A refused call leaves the factory as it was: the registry, the project
/// code and the administrator.
pub proof fn law_refused_factory_call_changes_nothing(state: FactoryState, call: FactoryCall)
    requires
        state.refuses(call),
    ensures
        state.step(call) == state,
{
}

/// Whatever the calls, the registry only grows at its end: what was
/// registered stays, in its place, so the registry never gets shorter. The
/// administrator stays the same.
pub proof fn law_registry_only_grows(start: FactoryState, calls: Seq<FactoryCall>)
    ensures
        start.projects.is_prefix_of(run_factory(start, calls).projects),
        run_factory(start, calls).projects.len() >= start.projects.len(),
        run_factory(start, calls).admin == start.admin,
    decreases calls.len(),
{
    if calls.len() > 0 {
        law_registry_only_grows(start, calls.drop_last());
    }
}

/// The registry after more calls is at least as long as after fewer.
pub proof fn law_registry_monotone(start: FactoryState, calls: Seq<FactoryCall>, earlier: int)
    requires
        0 <= earlier <= calls.len(),
    ensures
        run_factory(start, calls.take(earlier)).projects.is_prefix_of(
            run_factory(start, calls).projects,
        ),
        run_factory(start, calls.take(earlier)).projects.len() <= run_factory(
            start,
            calls,
        ).projects.len(),
    decreases calls.len() - earlier,
{
    if earlier < calls.len() {
        law_registry_monotone(start, calls, earlier + 1);
        assert(calls.take(earlier + 1).drop_last() =~= calls.take(earlier));
    } else {
        assert(calls.take(earlier) =~= calls);
    }
}

} // verus!
