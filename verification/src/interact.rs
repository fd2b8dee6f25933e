use vstd::prelude::*;

use crate::address::{
    address_text, denotes_address, has_address_prefix, Address, Bech32Address, Bech32AddressView,
};
use crate::state::{
    lemma_address_prefix_is_not_legacy, lemma_stored_address_reads_back, read_back, stored_form,
    State,
};

verus! {

/// Gas limit given to every transaction that names one.
pub const GAS_LIMIT: u64 = 30_000_000;

/// Which of the three registered wallets sends a transaction.
#[derive(Clone, Copy, Debug)]
pub enum AddressType {
    Owner,
    Dan,
    Frank,
}

/// An error a transaction is expected to fail with: its status code and message.
#[derive(Clone, Debug)]
pub struct ExpectError {
    pub code: u64,
    pub message: String,
}

/// What the interactor expects back from a call.
#[derive(Clone, Debug)]
pub enum Expectation {
    /// The call succeeds (for a deployment: with the new contract's address).
    Success,
    /// The call fails with this error.
    Failure(ExpectError),
}

/// Tokens sent along with a call.
#[derive(Clone, Debug)]
pub enum Payment {
    Nothing,
    Egld { amount: u128 },
    Esdt { token_identifier: String, nonce: u64, amount: u128 },
}

/// A read-only view of the contract that takes no argument.
#[derive(Clone, Copy, Debug)]
pub enum ContractView {
    Status,
    GetCurrentFunds,
    Target,
    Deadline,
    CfTokenIdentifier,
}

/// The contract function a call invokes.
#[derive(Clone, Debug)]
pub enum Endpoint {
    /// Deploys the contract code with these arguments.
    Init { target: u128, deadline: u64, token_identifier: String },
    /// Replaces the code of the known contract, marked upgradeable, with these arguments.
    Upgrade { target: u128, deadline: u64, token_identifier: String },
    Fund,
    Claim,
    View(ContractView),
    /// The amount `donor` has deposited.
    Deposit { donor: Address },
}

/// The phase a crowdfunding campaign is in, as its `status` view reports it.
#[derive(Clone, Copy, Debug, PartialEq, Eq)]
pub enum Status {
    FundingPeriod,
    Successful,
    Failed,
}

impl Status {
    /// The status a view reply carries as the index of its variant, in the
    /// order `FundingPeriod`, `Successful`, `Failed`; `None` for any other index.
    pub fn from_discriminant(discriminant: u8) -> (res: Option<Status>)
        ensures
            discriminant == 0 ==> res == Some(Status::FundingPeriod),
            discriminant == 1 ==> res == Some(Status::Successful),
            discriminant == 2 ==> res == Some(Status::Failed),
            discriminant > 2 ==> res is None,
    {
        match discriminant {
            0 => Some(Status::FundingPeriod),
            1 => Some(Status::Successful),
            2 => Some(Status::Failed),
            _ => None,
        }
    }
}

/// The name under which the contract exposes `endpoint`.
pub open spec fn spec_function_name(endpoint: Endpoint) -> Seq<char> {
    match endpoint {
        Endpoint::Init { .. } => "init"@,
        Endpoint::Upgrade { .. } => "upgrade"@,
        Endpoint::Fund => "fund"@,
        Endpoint::Claim => "claim"@,
        Endpoint::View(ContractView::Status) => "status"@,
        Endpoint::View(ContractView::GetCurrentFunds) => "getCurrentFunds"@,
        Endpoint::View(ContractView::Target) => "getTarget"@,
        Endpoint::View(ContractView::Deadline) => "getDeadline"@,
        Endpoint::View(ContractView::CfTokenIdentifier) => "getCrowdfundingTokenIdentifier"@,
        Endpoint::Deposit { .. } => "getDeposit"@,
    }
}

impl Endpoint {
    /// The name under which the contract exposes this endpoint.
    pub fn function_name(&self) -> (res: &'static str)
        ensures
            res@ == spec_function_name(*self),
            *self is Init ==> res@ == "init"@,
            *self is Upgrade ==> res@ == "upgrade"@,
            *self is Fund ==> res@ == "fund"@,
            *self is Claim ==> res@ == "claim"@,
            *self == Endpoint::View(ContractView::Status) ==> res@ == "status"@,
            *self == Endpoint::View(ContractView::GetCurrentFunds) ==> res@ == "getCurrentFunds"@,
            *self == Endpoint::View(ContractView::Target) ==> res@ == "getTarget"@,
            *self == Endpoint::View(ContractView::Deadline) ==> res@ == "getDeadline"@,
            *self == Endpoint::View(ContractView::CfTokenIdentifier) ==> res@
                == "getCrowdfundingTokenIdentifier"@,
            *self is Deposit ==> res@ == "getDeposit"@,
    {
        match self {
            Endpoint::Init { .. } => "init",
            Endpoint::Upgrade { .. } => "upgrade",
            Endpoint::Fund => "fund",
            Endpoint::Claim => "claim",
            Endpoint::View(ContractView::Status) => "status",
            Endpoint::View(ContractView::GetCurrentFunds) => "getCurrentFunds",
            Endpoint::View(ContractView::Target) => "getTarget",
            Endpoint::View(ContractView::Deadline) => "getDeadline",
            Endpoint::View(ContractView::CfTokenIdentifier) => "getCrowdfundingTokenIdentifier",
            Endpoint::Deposit { .. } => "getDeposit",
        }
    }
}

/// A call the interactor sends: a transaction when `from` is set, a query
/// otherwise; a deployment when `to` is not set.
#[derive(Debug)]
pub struct Call {
    pub from: Option<Address>,
    pub to: Option<Bech32Address>,
    pub gas: Option<u64>,
    pub endpoint: Endpoint,
    pub payment: Payment,
    /// Whether the contract code goes with the call marked upgradeable.
    pub upgradeable: bool,
    pub expect: Expectation,
}

/// The interactor's wallets and remembered contract.
#[derive(Debug)]
pub struct ContractInteract {
    pub owner_address: Address,
    pub dan_address: Address,
    pub frank_address: Address,
    pub state: State,
}

impl ContractInteract {
    /// Puts together the three registered wallets and the stored state.
    pub fn new(owner_address: Address, dan_address: Address, frank_address: Address, state: State) -> (res: ContractInteract)
        ensures
            res.owner_address == owner_address,
            res.dan_address == dan_address,
            res.frank_address == frank_address,
            res.state == state,
    {
        ContractInteract { owner_address, dan_address, frank_address, state }
    }

    /// The wallet that `address_type` names.
    pub open spec fn spec_sender(self, address_type: AddressType) -> Address {
        match address_type {
            AddressType::Owner => self.owner_address,
            AddressType::Dan => self.dan_address,
            AddressType::Frank => self.frank_address,
        }
    }

    /// Whether the interactor knows a deployed contract.
    pub open spec fn knows_contract(self) -> bool {
        self.state.contract_address is Some
    }

    /// Whether `call` is addressed to the known contract.
    pub open spec fn targets_contract(self, call: Call) -> bool {
        &&& call.to is Some
        &&& self.state.contract_address is Some
        &&& call.to.unwrap() == self.state.contract_address.unwrap()
    }

    /// The wallet that `address_type` names.
    pub fn sender_address(&self, address_type: AddressType) -> (res: Address)
        ensures
            res == self.spec_sender(address_type),
            address_type is Owner ==> res == self.owner_address,
            address_type is Dan ==> res == self.dan_address,
            address_type is Frank ==> res == self.frank_address,
    {
        match address_type {
            AddressType::Dan => self.dan_address,
            AddressType::Frank => self.frank_address,
            AddressType::Owner => self.owner_address,
        }
    }

    /// The known contract, as the target of a call.
    fn contract(&self) -> (res: Option<Bech32Address>)
        requires
            self.knows_contract(),
        ensures
            res is Some,
            res.unwrap() == self.state.contract_address.unwrap(),
    {
        Some(self.state.current_address().clone())
    }

    /// Deployment of the contract by the owner, expected to succeed.
    pub fn deploy_succ(&self, target: u128, deadline: u64, token_identifier: &str) -> (res: Call)
        ensures
            res.from == Some(self.owner_address),
            res.to is None,
            res.gas == Some(GAS_LIMIT),
            res.endpoint matches Endpoint::Init { target: t, deadline: d, token_identifier: id }
                && t == target && d == deadline && id@ == token_identifier@,
            res.payment is Nothing,
            !res.upgradeable,
            res.expect is Success,
    {
        Call {
            from: Some(self.owner_address),
            to: None,
            gas: Some(GAS_LIMIT),
            endpoint: Endpoint::Init {
                target,
                deadline,
                token_identifier: token_identifier.to_owned(),
            },
            payment: Payment::Nothing,
            upgradeable: false,
            expect: Expectation::Success,
        }
    }

    /// Remembers the address a deployment returned and gives its bech32 text.
    pub fn record_new_address(&mut self, new_address: Address) -> (res: String)
        ensures
            res@ == address_text(new_address@),
            has_address_prefix(res@),
            final(self).state@ == Some(Bech32AddressView { address: new_address@, text: res@ }),
            denotes_address(final(self).state@.unwrap()),
            final(self).owner_address == old(self).owner_address,
            final(self).dan_address == old(self).dan_address,
            final(self).frank_address == old(self).frank_address,
    {
        let recorded = Bech32Address::from_address(new_address);
        let text = recorded.to_bech32_string();
        self.state.set_address(recorded);
        text
    }

    /// Deployment of the contract by the owner, expected to fail with `expected`.
    pub fn deploy_bad_parameters(
        &self,
        target: u128,
        deadline: u64,
        token_identifier: &str,
        expected: ExpectError,
    ) -> (res: Call)
        ensures
            res.from == Some(self.owner_address),
            res.to is None,
            res.gas == Some(GAS_LIMIT),
            res.endpoint matches Endpoint::Init { target: t, deadline: d, token_identifier: id }
                && t == target && d == deadline && id@ == token_identifier@,
            res.payment is Nothing,
            !res.upgradeable,
            res.expect == Expectation::Failure(expected),
    {
        Call {
            from: Some(self.owner_address),
            to: None,
            gas: Some(GAS_LIMIT),
            endpoint: Endpoint::Init {
                target,
                deadline,
                token_identifier: token_identifier.to_owned(),
            },
            payment: Payment::Nothing,
            upgradeable: false,
            expect: Expectation::Failure(expected),
        }
    }

    /// Upgrade of the known contract by the owner.
    pub fn upgrade(&self, target: u128, deadline: u64, token_identifier: &str) -> (res: Call)
        requires
            self.knows_contract(),
        ensures
            res.from == Some(self.owner_address),
            self.targets_contract(res),
            res.gas == Some(GAS_LIMIT),
            res.endpoint matches Endpoint::Upgrade { target: t, deadline: d, token_identifier: id }
                && t == target && d == deadline && id@ == token_identifier@,
            res.payment is Nothing,
            res.upgradeable,
            res.expect is Success,
    {
        Call {
            from: Some(self.owner_address),
            to: self.contract(),
            gas: Some(GAS_LIMIT),
            endpoint: Endpoint::Upgrade {
                target,
                deadline,
                token_identifier: token_identifier.to_owned(),
            },
            payment: Payment::Nothing,
            upgradeable: true,
            expect: Expectation::Success,
        }
    }

    /// The owner funds the known contract with EGLD, expected to succeed.
    pub fn fund_egld_succ(&self, token_amount: u128) -> (res: Call)
        requires
            self.knows_contract(),
        ensures
            res.from == Some(self.owner_address),
            self.targets_contract(res),
            res.gas == Some(GAS_LIMIT),
            res.endpoint is Fund,
            res.payment == (Payment::Egld { amount: token_amount }),
            !res.upgradeable,
            res.expect is Success,
    {
        Call {
            from: Some(self.owner_address),
            to: self.contract(),
            gas: Some(GAS_LIMIT),
            endpoint: Endpoint::Fund,
            payment: Payment::Egld { amount: token_amount },
            upgradeable: false,
            expect: Expectation::Success,
        }
    }

    /// The chosen wallet funds the known contract with an ESDT, expected to succeed.
    pub fn fund_succ(
        &self,
        token_id: &str,
        token_nonce: u64,
        token_amount: u128,
        address_type: AddressType,
    ) -> (res: Call)
        requires
            self.knows_contract(),
        ensures
            res.from == Some(self.spec_sender(address_type)),
            address_type is Owner ==> res.from == Some(self.owner_address),
            address_type is Dan ==> res.from == Some(self.dan_address),
            address_type is Frank ==> res.from == Some(self.frank_address),
            self.targets_contract(res),
            res.gas == Some(GAS_LIMIT),
            res.endpoint is Fund,
            res.payment matches Payment::Esdt { token_identifier: id, nonce: n, amount: a }
                && id@ == token_id@ && n == token_nonce && a == token_amount,
            !res.upgradeable,
            res.expect is Success,
    {
        Call {
            from: Some(self.sender_address(address_type)),
            to: self.contract(),
            gas: Some(GAS_LIMIT),
            endpoint: Endpoint::Fund,
            payment: Payment::Esdt {
                token_identifier: token_id.to_owned(),
                nonce: token_nonce,
                amount: token_amount,
            },
            upgradeable: false,
            expect: Expectation::Success,
        }
    }

    /// The owner funds the known contract with EGLD, expected to fail with `expected`.
    pub fn fund_egld_failed(&self, token_amount: u128, expected: ExpectError) -> (res: Call)
        requires
            self.knows_contract(),
        ensures
            res.from == Some(self.owner_address),
            self.targets_contract(res),
            res.gas == Some(GAS_LIMIT),
            res.endpoint is Fund,
            res.payment == (Payment::Egld { amount: token_amount }),
            !res.upgradeable,
            res.expect == Expectation::Failure(expected),
    {
        Call {
            from: Some(self.owner_address),
            to: self.contract(),
            gas: Some(GAS_LIMIT),
            endpoint: Endpoint::Fund,
            payment: Payment::Egld { amount: token_amount },
            upgradeable: false,
            expect: Expectation::Failure(expected),
        }
    }

    /// The owner funds the known contract with an ESDT, expected to fail with `expected`.
    pub fn fund_failed(
        &self,
        token_id: &str,
        token_nonce: u64,
        token_amount: u128,
        expected: ExpectError,
    ) -> (res: Call)
        requires
            self.knows_contract(),
        ensures
            res.from == Some(self.owner_address),
            self.targets_contract(res),
            res.gas == Some(GAS_LIMIT),
            res.endpoint is Fund,
            res.payment matches Payment::Esdt { token_identifier: id, nonce: n, amount: a }
                && id@ == token_id@ && n == token_nonce && a == token_amount,
            !res.upgradeable,
            res.expect == Expectation::Failure(expected),
    {
        Call {
            from: Some(self.owner_address),
            to: self.contract(),
            gas: Some(GAS_LIMIT),
            endpoint: Endpoint::Fund,
            payment: Payment::Esdt {
                token_identifier: token_id.to_owned(),
                nonce: token_nonce,
                amount: token_amount,
            },
            upgradeable: false,
            expect: Expectation::Failure(expected),
        }
    }

    /// The chosen wallet claims from the known contract, expected to succeed.
    /// No gas limit is named: the default one applies.
    pub fn claim_succ(&self, address_type: AddressType) -> (res: Call)
        requires
            self.knows_contract(),
        ensures
            res.from == Some(self.spec_sender(address_type)),
            address_type is Owner ==> res.from == Some(self.owner_address),
            address_type is Dan ==> res.from == Some(self.dan_address),
            address_type is Frank ==> res.from == Some(self.frank_address),
            self.targets_contract(res),
            res.gas is None,
            res.endpoint is Claim,
            res.payment is Nothing,
            !res.upgradeable,
            res.expect is Success,
    {
        Call {
            from: Some(self.sender_address(address_type)),
            to: self.contract(),
            gas: None,
            endpoint: Endpoint::Claim,
            payment: Payment::Nothing,
            upgradeable: false,
            expect: Expectation::Success,
        }
    }

    /// The chosen wallet claims from the known contract, expected to fail with `expected`.
    pub fn claim_fail(&self, expected: ExpectError, address_type: AddressType) -> (res: Call)
        requires
            self.knows_contract(),
        ensures
            res.from == Some(self.spec_sender(address_type)),
            address_type is Owner ==> res.from == Some(self.owner_address),
            address_type is Dan ==> res.from == Some(self.dan_address),
            address_type is Frank ==> res.from == Some(self.frank_address),
            self.targets_contract(res),
            res.gas == Some(GAS_LIMIT),
            res.endpoint is Claim,
            res.payment is Nothing,
            !res.upgradeable,
            res.expect == Expectation::Failure(expected),
    {
        Call {
            from: Some(self.sender_address(address_type)),
            to: self.contract(),
            gas: Some(GAS_LIMIT),
            endpoint: Endpoint::Claim,
            payment: Payment::Nothing,
            upgradeable: false,
            expect: Expectation::Failure(expected),
        }
    }

    /// A query of one of the known contract's views.
    pub fn query(&self, view: ContractView) -> (res: Call)
        requires
            self.knows_contract(),
        ensures
            res.from is None,
            self.targets_contract(res),
            res.gas is None,
            res.endpoint == Endpoint::View(view),
            res.payment is Nothing,
            !res.upgradeable,
            res.expect is Success,
    {
        Call {
            from: None,
            to: self.contract(),
            gas: None,
            endpoint: Endpoint::View(view),
            payment: Payment::Nothing,
            upgradeable: false,
            expect: Expectation::Success,
        }
    }

    /// A query of what `donor` has deposited in the known contract.
    pub fn deposit_of(&self, donor: Address) -> (res: Call)
        requires
            self.knows_contract(),
        ensures
            res.from is None,
            self.targets_contract(res),
            res.gas is None,
            res.endpoint == (Endpoint::Deposit { donor }),
            res.payment is Nothing,
            !res.upgradeable,
            res.expect is Success,
    {
        Call {
            from: None,
            to: self.contract(),
            gas: None,
            endpoint: Endpoint::Deposit { donor },
            payment: Payment::Nothing,
            upgradeable: false,
            expect: Expectation::Success,
        }
    }
}

} // verus!

verus! {

/// Once the interactor has recorded the address a deployment returned, every
/// call it builds for the contract goes to that address, under its bech32
/// text.
pub proof fn lemma_calls_go_to_recorded_address(
    interact: ContractInteract,
    new_address: Address,
    call: Call,
)
    requires
        interact.state@ == Some(
            Bech32AddressView { address: new_address@, text: address_text(new_address@) },
        ),
        interact.targets_contract(call),
    ensures
        call.to.unwrap()@.address == new_address@,
        call.to.unwrap()@.text == address_text(new_address@),
{
}

/// The address recorded after a deployment survives the state file: reading
/// back the text kept of the state gives the same state again.
pub proof fn lemma_recorded_address_reads_back(interact: ContractInteract)
    requires
        interact.state@ matches Some(a) && has_address_prefix(a.text) && denotes_address(a),
    ensures
        read_back(stored_form(interact.state@)) == Some(interact.state@),
{
    lemma_address_prefix_is_not_legacy(interact.state@.unwrap().text);
    lemma_stored_address_reads_back(interact.state@);
}

/// Each wallet kind names its own wallet: the owner's, Dan's or Frank's,
/// whatever the three addresses are.
pub proof fn lemma_sender_is_the_named_wallet(interact: ContractInteract)
    ensures
        interact.spec_sender(AddressType::Owner) == interact.owner_address,
        interact.spec_sender(AddressType::Dan) == interact.dan_address,
        interact.spec_sender(AddressType::Frank) == interact.frank_address,
{
}

/// The contract's function names, one per endpoint, whatever the arguments:
/// in particular every donor's deposit is asked for under `getDeposit`.
pub proof fn lemma_function_names(
    target: u128,
    deadline: u64,
    token_identifier: String,
    donor: Address,
)
    ensures
        spec_function_name(Endpoint::Init { target, deadline, token_identifier }) == "init"@,
        spec_function_name(Endpoint::Upgrade { target, deadline, token_identifier }) == "upgrade"@,
        spec_function_name(Endpoint::Fund) == "fund"@,
        spec_function_name(Endpoint::Claim) == "claim"@,
        spec_function_name(Endpoint::View(ContractView::Status)) == "status"@,
        spec_function_name(Endpoint::View(ContractView::GetCurrentFunds)) == "getCurrentFunds"@,
        spec_function_name(Endpoint::View(ContractView::Target)) == "getTarget"@,
        spec_function_name(Endpoint::View(ContractView::Deadline)) == "getDeadline"@,
        spec_function_name(Endpoint::View(ContractView::CfTokenIdentifier))
            == "getCrowdfundingTokenIdentifier"@,
        spec_function_name(Endpoint::Deposit { donor }) == "getDeposit"@,
{
}

} // verus!
