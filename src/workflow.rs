use vstd::prelude::*;
use crate::address::Address;
use crate::amount::{allowance_below, resolve_debit, resolved_debit, u256_lt, Amount, Wide};
use crate::payload::{
    parse_collection, parse_distribution, address_field, AppResponse, CollectErc20Payload,
    Collection, DistributeBasePayload, DistributeErc20Payload, Distribution, FlowError,
};

verus! {

/// Which of the three transfers a request asks for.
#[derive(Clone, Copy, Debug, PartialEq, Eq, Structural)]
pub enum Flow {
    /// Native currency, split by the manager contract among receivers.
    Native,
    /// A token, split by the manager contract among receivers.
    Erc20,
    /// A token, pulled by the manager contract from source wallets.
    Collect,
}

/// Where a request stands.
pub enum Phase {
    /// Reading the balance of each source wallet (collection only).
    ResolvingAmounts,
    /// Reading allowances toward the manager contract.
    CheckingAllowances,
    /// Raising the operator's own allowance (token distribution only).
    Approving,
    /// Submitting the one transfer transaction.
    Executing,
    Completed(AppResponse),
    Failed(FlowError),
}

/// The remote call that a request needs next, or its end.
pub enum Action {
    /// Read `owner`'s balance of `token`.
    ReadBalance { token: Address, owner: Address },
    /// Read what `owner` has allowed `spender` to move of `token`.
    ReadAllowance { token: Address, owner: Address, spender: Address },
    /// Read what the operator itself has allowed `spender` to move of `token`.
    ReadOwnAllowance { token: Address, spender: Address },
    /// Set the operator's allowance to `spender` for `token` to exactly `amount`.
    Approve { token: Address, spender: Address, amount: Amount },
    /// Submit the native distribution of the workflow's wallets, weights and
    /// amount, with the amount attached as value.
    DistributeNative,
    /// Submit the token distribution of the workflow's token, wallets, weights and amount.
    DistributeToken,
    /// Submit the collection of the workflow's token from its wallets, with the
    /// scaled percentages as given.
    CollectToken,
    /// Nothing more: the request's answer.
    Done(Result<AppResponse, FlowError>),
}

/// What a remote call gave back.
pub enum Event {
    /// A read returned this amount.
    Value(Amount),
    /// A transaction was confirmed under this id.
    Submitted(String),
    /// The call failed with this message.
    Failure(String),
}

/// One request in progress. `wallets` are receivers or source wallets,
/// `weights` their proportions or scaled percentages.
pub struct Workflow {
    pub flow: Flow,
    pub phase: Phase,
    pub token: Address,
    pub manager: Address,
    pub wallets: Vec<Address>,
    pub weights: Vec<Amount>,
    pub amount: Amount,
    /// Resolved debits of the first source wallets (collection).
    pub debits: Vec<Wide>,
    /// Allowances of the first source wallets, each found sufficient (collection).
    pub allowances: Vec<Amount>,
    pub approve_tx: Option<String>,
}

impl Workflow {
    pub open spec fn is_terminal(&self) -> bool {
        self.phase is Completed || self.phase is Failed
    }

    /// What holds of every state that a request reaches.
    pub open spec fn wf(&self) -> bool {
        let n = self.wallets@.len();
        &&& self.weights@.len() == n
        &&& self.debits@.len() <= n
        &&& self.allowances@.len() <= self.debits@.len()
        &&& forall|i: int|
            0 <= i < self.allowances@.len() ==> (#[trigger] self.allowances@[i]).value()
                >= self.debits@[i].value()
        &&& (self.flow != Flow::Erc20 ==> self.approve_tx is None)
        &&& (self.phase is CheckingAllowances || self.phase is Approving ==> self.approve_tx is None)
        &&& (self.flow == Flow::Native ==> self.phase is Executing || self.is_terminal())
        &&& (self.flow == Flow::Erc20 ==> !(self.phase is ResolvingAmounts))
        &&& (self.flow == Flow::Collect ==> !(self.phase is Approving))
        &&& (self.flow == Flow::Collect && self.phase is ResolvingAmounts ==> self.debits@.len() < n
            && self.allowances@.len() == 0)
        &&& (self.flow == Flow::Collect && self.phase is CheckingAllowances ==> self.debits@.len()
            == n && self.allowances@.len() < n)
        &&& (self.flow == Flow::Collect && (self.phase is Executing || self.phase is Completed)
            ==> self.debits@.len() == n && self.allowances@.len() == n)
        &&& (self.phase matches Phase::Completed(resp) ==> resp.tx_hash_approve == self.approve_tx
            && resp.tx_hash_distribute is Some && resp.error is None)
    }

    /// The call that a state asks for.
    pub open spec fn action_of(&self) -> Action {
        match self.phase {
            Phase::ResolvingAmounts => Action::ReadBalance {
                token: self.token,
                owner: self.wallets@[self.debits@.len() as int],
            },
            Phase::CheckingAllowances => if self.flow == Flow::Collect {
                Action::ReadAllowance {
                    token: self.token,
                    owner: self.wallets@[self.allowances@.len() as int],
                    spender: self.manager,
                }
            } else {
                Action::ReadOwnAllowance { token: self.token, spender: self.manager }
            },
            Phase::Approving => Action::Approve {
                token: self.token,
                spender: self.manager,
                amount: self.amount,
            },
            Phase::Executing => match self.flow {
                Flow::Native => Action::DistributeNative,
                Flow::Erc20 => Action::DistributeToken,
                Flow::Collect => Action::CollectToken,
            },
            Phase::Completed(resp) => Action::Done(Ok(resp)),
            Phase::Failed(e) => Action::Done(Err(e)),
        }
    }

    /// The request itself is unchanged from `w` to `self`.
    pub open spec fn same_request(&self, w: &Workflow) -> bool {
        &&& self.flow == w.flow
        &&& self.token == w.token
        &&& self.manager == w.manager
        &&& self.wallets@ == w.wallets@
        &&& self.weights@ == w.weights@
        &&& self.amount == w.amount
    }

    /// Only the phase changed from `w` to `self`.
    pub open spec fn only_phase_from(&self, w: &Workflow, p: Phase) -> bool {
        &&& self.same_request(w)
        &&& self.debits@ == w.debits@
        &&& self.allowances@ == w.allowances@
        &&& self.approve_tx == w.approve_tx
        &&& self.phase == p
    }

    /// How one event moves a request from `w` to `self`.
    pub open spec fn follows(&self, w: &Workflow, e: Event) -> bool {
        let n = w.wallets@.len();
        if w.is_terminal() {
            *self == *w
        } else {
            match e {
                Event::Failure(msg) => self.only_phase_from(
                    w,
                    Phase::Failed(FlowError::RemoteCallFailure(msg)),
                ),
                Event::Value(v) => match w.phase {
                    Phase::ResolvingAmounts => {
                        let k = w.debits@.len();
                        &&& self.same_request(w)
                        &&& self.allowances@ == w.allowances@
                        &&& self.approve_tx == w.approve_tx
                        &&& self.debits@.len() == k + 1
                        &&& self.debits@.subrange(0, k as int) == w.debits@
                        &&& self.debits@[k as int].value() == resolved_debit(
                            v.value(),
                            w.weights@[k as int].value(),
                        )
                        &&& self.phase == if k + 1 == n {
                            Phase::CheckingAllowances
                        } else {
                            Phase::ResolvingAmounts
                        }
                    },
                    Phase::CheckingAllowances => if w.flow == Flow::Collect {
                        let k = w.allowances@.len();
                        if v.value() < w.debits@[k as int].value() {
                            self.only_phase_from(
                                w,
                                Phase::Failed(
                                    FlowError::InsufficientAllowance {
                                        wallet: w.wallets@[k as int],
                                        needed: w.debits@[k as int],
                                        has: v,
                                    },
                                ),
                            )
                        } else {
                            &&& self.same_request(w)
                            &&& self.debits@ == w.debits@
                            &&& self.approve_tx == w.approve_tx
                            &&& self.allowances@ == w.allowances@.push(v)
                            &&& self.phase == if k + 1 == n {
                                Phase::Executing
                            } else {
                                Phase::CheckingAllowances
                            }
                        }
                    } else {
                        self.only_phase_from(
                            w,
                            if v.value() < w.amount.value() {
                                Phase::Approving
                            } else {
                                Phase::Executing
                            },
                        )
                    },
                    _ => *self == *w,
                },
                Event::Submitted(h) => match w.phase {
                    Phase::Approving => {
                        &&& self.same_request(w)
                        &&& self.debits@ == w.debits@
                        &&& self.allowances@ == w.allowances@
                        &&& self.approve_tx == Some(h)
                        &&& self.phase == Phase::Executing
                    },
                    Phase::Executing => self.only_phase_from(
                        w,
                        Phase::Completed(
                            AppResponse {
                                tx_hash_approve: w.approve_tx,
                                tx_hash_distribute: Some(h),
                                error: None,
                            },
                        ),
                    ),
                    _ => *self == *w,
                },
            }
        }
    }
}

fn copy_text(t: &Option<String>) -> (r: Option<String>)
    ensures
        r == *t,
{
    match t {
        Some(s) => Some(s.clone()),
        None => None,
    }
}

fn copy_response(resp: &AppResponse) -> (r: AppResponse)
    ensures
        r == *resp,
{
    AppResponse {
        tx_hash_approve: copy_text(&resp.tx_hash_approve),
        tx_hash_distribute: copy_text(&resp.tx_hash_distribute),
        error: copy_text(&resp.error),
    }
}

fn copy_error(e: &FlowError) -> (r: FlowError)
    ensures
        r == *e,
{
    match e {
        FlowError::MalformedInput(s) => FlowError::MalformedInput(s.clone()),
        FlowError::InsufficientAllowance { wallet, needed, has } => FlowError::InsufficientAllowance {
            wallet: *wallet,
            needed: *needed,
            has: *has,
        },
        FlowError::RemoteCallFailure(s) => FlowError::RemoteCallFailure(s.clone()),
    }
}

impl Workflow {
    /// The call that this state asks for.
    pub fn action(&self) -> (r: Action)
        requires
            self.wf(),
        ensures
            r == self.action_of(),
    {
        match &self.phase {
            Phase::ResolvingAmounts => Action::ReadBalance {
                token: self.token,
                owner: self.wallets[self.debits.len()],
            },
            Phase::CheckingAllowances => if self.flow == Flow::Collect {
                Action::ReadAllowance {
                    token: self.token,
                    owner: self.wallets[self.allowances.len()],
                    spender: self.manager,
                }
            } else {
                Action::ReadOwnAllowance { token: self.token, spender: self.manager }
            },
            Phase::Approving => Action::Approve {
                token: self.token,
                spender: self.manager,
                amount: self.amount,
            },
            Phase::Executing => match self.flow {
                Flow::Native => Action::DistributeNative,
                Flow::Erc20 => Action::DistributeToken,
                Flow::Collect => Action::CollectToken,
            },
            Phase::Completed(resp) => Action::Done(Ok(copy_response(resp))),
            Phase::Failed(e) => Action::Done(Err(copy_error(e))),
        }
    }

    /// Moves the request on by what its last call gave back, and names the next call.
    /// An event of a kind the pending call cannot give leaves the state as it is.
    pub fn step(&mut self, e: Event) -> (r: Action)
        requires
            old(self).wf(),
        ensures
            final(self).wf(),
            final(self).follows(&*old(self), e),
            r == final(self).action_of(),
    {
        let resolving = if let Phase::ResolvingAmounts = &self.phase { true } else { false };
        let checking = if let Phase::CheckingAllowances = &self.phase { true } else { false };
        let approving = if let Phase::Approving = &self.phase { true } else { false };
        let executing = if let Phase::Executing = &self.phase { true } else { false };
        if !(resolving || checking || approving || executing) {
            return self.action();
        }
        match e {
            Event::Failure(msg) => {
                self.phase = Phase::Failed(FlowError::RemoteCallFailure(msg));
            },
            Event::Value(v) => {
                if resolving {
                    let k = self.debits.len();
                    let d = resolve_debit(v, self.weights[k]);
                    self.debits.push(d);
                    proof {
                        assert(self.debits@.subrange(0, k as int) =~= old(self).debits@);
                    }
                    if self.debits.len() == self.wallets.len() {
                        self.phase = Phase::CheckingAllowances;
                    }
                } else if checking && self.flow == Flow::Collect {
                    let k = self.allowances.len();
                    let needed = self.debits[k];
                    if allowance_below(v, needed) {
                        self.phase = Phase::Failed(
                            FlowError::InsufficientAllowance { wallet: self.wallets[k], needed, has: v },
                        );
                    } else {
                        self.allowances.push(v);
                        if self.allowances.len() == self.wallets.len() {
                            self.phase = Phase::Executing;
                        }
                    }
                } else if checking {
                    if u256_lt(v, self.amount) {
                        self.phase = Phase::Approving;
                    } else {
                        self.phase = Phase::Executing;
                    }
                }
            },
            Event::Submitted(h) => {
                if approving {
                    self.approve_tx = Some(h);
                    self.phase = Phase::Executing;
                } else if executing {
                    let resp = AppResponse {
                        tx_hash_approve: copy_text(&self.approve_tx),
                        tx_hash_distribute: Some(h),
                        error: None,
                    };
                    self.phase = Phase::Completed(resp);
                }
            },
        }
        self.action()
    }
}

/// Starts the orchestration of requests against one manager contract.
pub struct ActionService {
    pub manager: Address,
}

impl ActionService {
    pub fn new(manager: Address) -> (r: ActionService)
        ensures
            r.manager == manager,
    {
        ActionService { manager }
    }

    /// The state in which a validated request begins.
    pub open spec fn begins(&self, w: &Workflow, flow: Flow) -> bool {
        &&& w.flow == flow
        &&& w.manager == self.manager
        &&& w.debits@.len() == 0
        &&& w.allowances@.len() == 0
        &&& w.approve_tx is None
        &&& w.phase == match flow {
            Flow::Native => Phase::Executing,
            Flow::Erc20 => Phase::CheckingAllowances,
            Flow::Collect => if w.wallets@.len() == 0 {
                Phase::Executing
            } else {
                Phase::ResolvingAmounts
            },
        }
    }

    /// Validates a native distribution; it goes straight to its transfer.
    pub fn distribute_native_tokens(&self, payload: &DistributeBasePayload) -> (r: Result<
        (Workflow, Action),
        FlowError,
    >)
        ensures
            r is Ok <==> payload.is_well_formed_text(),
            r matches Err(e) ==> e is MalformedInput,
            r matches Ok((w, a)) ==> {
                &&& w.wf()
                &&& self.begins(&w, Flow::Native)
                &&& a == w.action_of()
                &&& (Distribution { receivers: w.wallets, proportions: w.weights, amount: w.amount }).parsed_from(payload)
            },
    {
        let d = parse_distribution(payload)?;
        let w = Workflow {
            flow: Flow::Native,
            phase: Phase::Executing,
            token: self.manager,
            manager: self.manager,
            wallets: d.receivers,
            weights: d.proportions,
            amount: d.amount,
            debits: Vec::new(),
            allowances: Vec::new(),
            approve_tx: None,
        };
        Ok((w, Action::DistributeNative))
    }

    /// Validates a token distribution; it first reads the operator's own allowance.
    pub fn distribute_erc20_tokens(&self, payload: &DistributeErc20Payload) -> (r: Result<
        (Workflow, Action),
        FlowError,
    >)
        ensures
            r is Ok <==> crate::payload::is_address_str(payload.token_address@)
                && payload.base.is_well_formed_text(),
            r matches Err(e) ==> e is MalformedInput,
            r matches Ok((w, a)) ==> {
                &&& w.wf()
                &&& self.begins(&w, Flow::Erc20)
                &&& a == w.action_of()
                &&& crate::payload::address_parsed(w.token, payload.token_address@)
                &&& (Distribution { receivers: w.wallets, proportions: w.weights, amount: w.amount }).parsed_from(&payload.base)
            },
    {
        let token = address_field(&payload.token_address)?;
        let d = parse_distribution(&payload.base)?;
        let w = Workflow {
            flow: Flow::Erc20,
            phase: Phase::CheckingAllowances,
            token,
            manager: self.manager,
            wallets: d.receivers,
            weights: d.proportions,
            amount: d.amount,
            debits: Vec::new(),
            allowances: Vec::new(),
            approve_tx: None,
        };
        Ok((w, Action::ReadOwnAllowance { token, spender: self.manager }))
    }

    /// Validates a collection; it first reads each source wallet's balance.
    pub fn collect_erc20_tokens(&self, payload: &CollectErc20Payload) -> (r: Result<
        (Workflow, Action),
        FlowError,
    >)
        ensures
            r is Ok <==> payload.is_well_formed_text(),
            r matches Err(e) ==> e is MalformedInput,
            r matches Ok((w, a)) ==> {
                &&& w.wf()
                &&& self.begins(&w, Flow::Collect)
                &&& a == w.action_of()
                &&& (Collection { token: w.token, froms: w.wallets, scaled_percents: w.weights }).parsed_from(payload)
            },
    {
        let c = parse_collection(payload)?;
        let token = c.token;
        let phase = if c.froms.len() == 0 {
            Phase::Executing
        } else {
            Phase::ResolvingAmounts
        };
        let a = if c.froms.len() == 0 {
            Action::CollectToken
        } else {
            Action::ReadBalance { token, owner: c.froms[0] }
        };
        let w = Workflow {
            flow: Flow::Collect,
            phase,
            token,
            manager: self.manager,
            wallets: c.froms,
            weights: c.scaled_percents,
            amount: Amount::zero(),
            debits: Vec::new(),
            allowances: Vec::new(),
            approve_tx: None,
        };
        Ok((w, a))
    }
}

} // verus!
