//! The reward token: a balance table with its total supply, and rewards
//! that are each paid at most once.

use vstd::prelude::*;
use crate::rental_agreement::RentalAgreement;
use crate::table::pairable;
use crate::table::paired;
use crate::table::paired_at;
use crate::table::Table;
use crate::types::Address;
use crate::types::Ident;
use crate::types::RecordId;

verus! {

/// The reward for a tenant's first payment, unless configured otherwise.
pub const DEFAULT_FIRST_PAYMENT_REWARD: i128 = 100000000;

/// The reward for one review, unless configured otherwise.
pub const DEFAULT_REVIEW_REWARD: i128 = 250000000;

/// The bonus to each party once both have reviewed, unless configured
/// otherwise.
pub const DEFAULT_MUTUAL_REVIEW_BONUS: i128 = 150000000;

/// The number of decimal places of the token.
pub const DECIMALS: u32 = 7;

/// Why the token refused an operation.
#[derive(Clone, Copy, Debug, PartialEq, Eq, Structural)]
pub enum Error {
    ContractPaused,
    Unauthorized,
    AlreadyInitialized,
    InvalidAmount,
    InsufficientBalance,
    /// The total supply would leave the range of amounts.
    Overflow,
    AgreementContractNotSet,
}

impl Error {
    /// The number under which this error is reported.
    pub open spec fn spec_code(self) -> u32 {
        match self {
            Error::ContractPaused => 1,
            Error::Unauthorized => 2,
            Error::AlreadyInitialized => 3,
            Error::InvalidAmount => 500,
            Error::InsufficientBalance => 501,
            Error::Overflow => 502,
            Error::AgreementContractNotSet => 503,
        }
    }

    /// The number under which this error is reported.
    pub fn code(&self) -> (c: u32)
        ensures
            c == self.spec_code(),
    {
        match self {
            Error::ContractPaused => 1,
            Error::Unauthorized => 2,
            Error::AlreadyInitialized => 3,
            Error::InvalidAmount => 500,
            Error::InsufficientBalance => 501,
            Error::Overflow => 502,
            Error::AgreementContractNotSet => 503,
        }
    }
}

/// The amounts of the three rewards. An amount of zero switches a reward off.
#[derive(Clone, Copy, Debug, PartialEq, Eq, Structural)]
pub struct RewardConfig {
    pub first_payment_reward: i128,
    pub review_reward: i128,
    pub mutual_review_bonus: i128,
}

/// How the token presents itself.
#[derive(Clone, Debug)]
pub struct Metadata {
    pub name: String,
    pub symbol: String,
    pub decimals: u32,
}

/// The key of a reward that is paid once for an agreement and a party.
#[derive(Clone, Copy, Debug, PartialEq, Eq, Structural)]
pub struct ClaimKey {
    pub agreement_id: RecordId,
    pub party: Address,
}

impl Ident for ClaimKey {
    fn same(&self, other: &Self) -> (r: bool) {
        self.agreement_id.same(&other.agreement_id) && self.party.same(&other.party)
    }
}

/// What a reward is paid for.
#[derive(Clone, Copy, Debug, PartialEq, Eq, Structural)]
pub enum RewardKind {
    FirstPayment,
    Review,
    MutualReview,
}

/// What the token lets the outside know of a change.
#[derive(Clone, Copy, Debug, PartialEq, Eq, Structural)]
pub enum Event {
    Initialized { admin: Address, timestamp: u64 },
    Paused { timestamp: u64 },
    Unpaused { timestamp: u64 },
    RewardConfigSet { first_payment_reward: i128, review_reward: i128, mutual_review_bonus: i128 },
    AgreementContractSet { agreement_contract: Address, timestamp: u64 },
    Transfer { from: Address, to: Address, amount: i128 },
    Mint { to: Address, amount: i128 },
    Burn { from: Address, amount: i128 },
    RewardIssued { kind: RewardKind, agreement_id: RecordId, recipient: Address, amount: i128 },
}

/// The sum of the balances of `holders`.
pub open spec fn sum_of(holders: Seq<Address>, balances: Map<Address, i128>) -> int
    decreases holders.len(),
{
    if holders.len() == 0 {
        0
    } else {
        sum_of(holders.drop_last(), balances) + balances[holders.last()]
    }
}

/// A balance of an address that is not among `holders` does not count.
pub proof fn sum_ignores_others(
    holders: Seq<Address>,
    balances: Map<Address, i128>,
    who: Address,
    amount: i128,
)
    requires
        !holders.contains(who),
    ensures
        sum_of(holders, balances.insert(who, amount)) == sum_of(holders, balances),
    decreases holders.len(),
{
    if holders.len() > 0 {
        let rest = holders.drop_last();
        assert(holders[holders.len() - 1] == holders.last());
        assert forall|a: Address| rest.contains(a) implies holders.contains(a) by {
            let j = rest.index_of(a);
            assert(holders[j] == a);
        }
        sum_ignores_others(rest, balances, who, amount);
    }
}

/// Changing the balance of one holder changes the sum by the difference.
pub proof fn sum_after_update(
    holders: Seq<Address>,
    balances: Map<Address, i128>,
    who: Address,
    amount: i128,
)
    requires
        holders.no_duplicates(),
        holders.contains(who),
    ensures
        sum_of(holders, balances.insert(who, amount)) == sum_of(holders, balances) - balances[who]
            + amount,
    decreases holders.len(),
{
    let rest = holders.drop_last();
    let n = holders.len() - 1;
    assert(holders[n] == holders.last());
    if holders.last() == who {
        assert(!rest.contains(who)) by {
            if rest.contains(who) {
                let j = rest.index_of(who);
                assert(holders[j] == holders[n]);
            }
        }
        sum_ignores_others(rest, balances, who, amount);
    } else {
        assert(rest.contains(who)) by {
            let j = holders.index_of(who);
            assert(rest[j] == who);
        }
        sum_after_update(rest, balances, who, amount);
    }
}

/// A new holder adds its balance to the sum.
pub proof fn sum_after_push(
    holders: Seq<Address>,
    balances: Map<Address, i128>,
    who: Address,
    amount: i128,
)
    requires
        !holders.contains(who),
    ensures
        sum_of(holders.push(who), balances.insert(who, amount)) == sum_of(holders, balances)
            + amount,
{
    assert(holders.push(who).drop_last() =~= holders);
    sum_ignores_others(holders, balances, who, amount);
}

/// Where no balance is negative, the sum is not negative and no holder has
/// more than the sum.
pub proof fn sum_bounds(holders: Seq<Address>, balances: Map<Address, i128>, who: Address)
    requires
        forall|i: int| 0 <= i < holders.len() ==> balances[#[trigger] holders[i]] >= 0,
    ensures
        sum_of(holders, balances) >= 0,
        holders.contains(who) ==> balances[who] <= sum_of(holders, balances),
    decreases holders.len(),
{
    if holders.len() > 0 {
        let rest = holders.drop_last();
        let n = holders.len() - 1;
        assert(holders[n] == holders.last());
        assert forall|i: int| 0 <= i < rest.len() implies balances[#[trigger] rest[i]] >= 0 by {
            assert(rest[i] == holders[i]);
        }
        sum_bounds(rest, balances, who);
        if holders.contains(who) && holders.last() != who {
            assert(rest.contains(who)) by {
                let j = holders.index_of(who);
                assert(rest[j] == who);
            }
        }
    }
}

/// How the token presents itself, as mathematical values.
pub struct MetadataView {
    pub name: Seq<char>,
    pub symbol: Seq<char>,
    pub decimals: u32,
}

/// What the token holds, as mathematical values.
pub struct TokenView {
    pub admin: Option<Address>,
    pub paused: bool,
    pub metadata: Option<MetadataView>,
    pub total_supply: i128,
    /// Every address that has a balance on record, in the order in which
    /// they first received one.
    pub holders: Seq<Address>,
    pub balances: Map<Address, i128>,
    pub reward_config: Option<RewardConfig>,
    pub agreement_contract: Option<Address>,
    pub first_payment_claims: Set<ClaimKey>,
    pub review_claims: Set<ClaimKey>,
    pub mutual_claims: Set<RecordId>,
    /// The events that wait to be published, oldest first.
    pub events: Seq<Event>,
}

impl TokenView {
    /// Whether `caller` is the administrator.
    pub open spec fn is_admin(self, caller: Address) -> bool {
        self.admin == Some(caller)
    }

    /// This state with one more event waiting to be published.
    pub open spec fn emitted(self, event: Event) -> TokenView {
        TokenView { events: self.events.push(event), ..self }
    }

    /// Whether the token has been initialized.
    pub open spec fn initialized(self) -> bool {
        self.admin.is_some()
    }

    /// The balance of `who`: zero where none is on record.
    pub open spec fn balance_of(self, who: Address) -> i128 {
        if self.balances.dom().contains(who) {
            self.balances[who]
        } else {
            0
        }
    }

    /// The holders are exactly the addresses with a balance on record, each
    /// listed once.
    pub open spec fn holders_match(self) -> bool {
        &&& self.holders.no_duplicates()
        &&& forall|a: Address| self.holders.contains(a) <==> self.balances.dom().contains(a)
    }

    /// The invariant of the token: no balance is negative, the balances add
    /// up to the total supply, the configuration is there exactly when the
    /// administrator is, and nothing exists before there is one.
    pub open spec fn wf(self) -> bool {
        &&& self.holders_match()
        &&& forall|a: Address| self.balances.dom().contains(a) ==> self.balances[a] >= 0
        &&& self.total_supply == sum_of(self.holders, self.balances)
        &&& self.reward_config.is_some() == self.admin.is_some()
        &&& self.metadata.is_some() == self.admin.is_some()
        &&& self.admin.is_none() ==> self.total_supply == 0
    }

    /// This state with the balance of `who` set to `amount`.
    pub open spec fn with_balance(self, who: Address, amount: i128) -> TokenView {
        TokenView {
            holders: if self.balances.dom().contains(who) {
                self.holders
            } else {
                self.holders.push(who)
            },
            balances: self.balances.insert(who, amount),
            ..self
        }
    }

    /// This state with `amount` created in the hands of `to`.
    pub open spec fn minted(self, to: Address, amount: i128) -> TokenView {
        TokenView {
            total_supply: (self.total_supply + amount) as i128,
            ..self.with_balance(to, (self.balance_of(to) + amount) as i128)
        }
    }

    /// This state with `amount` destroyed in the hands of `from`.
    pub open spec fn burned(self, from: Address, amount: i128) -> TokenView {
        TokenView {
            total_supply: (self.total_supply - amount) as i128,
            ..self.with_balance(from, (self.balance_of(from) - amount) as i128)
        }
    }

    /// This state with `amount` moved from `from` to `to`.
    pub open spec fn moved(self, from: Address, to: Address, amount: i128) -> TokenView {
        let debited = self.with_balance(from, (self.balance_of(from) - amount) as i128);
        debited.with_balance(to, (debited.balance_of(to) + amount) as i128)
    }

    /// Why `amount` cannot be created, if it cannot.
    pub open spec fn mint_error(self, amount: i128) -> Option<Error> {
        if amount <= 0 {
            Some(Error::InvalidAmount)
        } else if self.total_supply + amount > i128::MAX {
            Some(Error::Overflow)
        } else {
            None
        }
    }

    /// What naming the administrator gives.
    pub open spec fn initialize(self, admin: Address, now: u64) -> (
        Result<(), Error>,
        TokenView,
    ) {
        if self.admin.is_some() {
            (Err(Error::AlreadyInitialized), self)
        } else {
            (
                Ok(()),
                TokenView {
                    admin: Some(admin),
                    paused: false,
                    metadata: Some(
                        MetadataView {
                            name: "Briq Reward"@,
                            symbol: "BRIQ-R"@,
                            decimals: DECIMALS,
                        },
                    ),
                    total_supply: 0,
                    reward_config: Some(
                        RewardConfig {
                            first_payment_reward: DEFAULT_FIRST_PAYMENT_REWARD,
                            review_reward: DEFAULT_REVIEW_REWARD,
                            mutual_review_bonus: DEFAULT_MUTUAL_REVIEW_BONUS,
                        },
                    ),
                    ..self
                }.emitted(Event::Initialized { admin, timestamp: now }),
            )
        }
    }

    /// What pausing, or taking the pause back, gives.
    pub open spec fn set_paused(self, caller: Address, paused: bool, now: u64) -> (
        Result<(), Error>,
        TokenView,
    ) {
        if !self.is_admin(caller) {
            (Err(Error::Unauthorized), self)
        } else {
            (
                Ok(()),
                TokenView { paused, ..self }.emitted(
                    if paused {
                        Event::Paused { timestamp: now }
                    } else {
                        Event::Unpaused { timestamp: now }
                    },
                ),
            )
        }
    }

    /// What setting the amounts of the rewards gives.
    pub open spec fn set_reward_config(self, caller: Address, config: RewardConfig) -> (
        Result<(), Error>,
        TokenView,
    ) {
        if self.paused {
            (Err(Error::ContractPaused), self)
        } else if !self.is_admin(caller) {
            (Err(Error::Unauthorized), self)
        } else if config.first_payment_reward < 0 || config.review_reward < 0
            || config.mutual_review_bonus < 0 {
            (Err(Error::InvalidAmount), self)
        } else {
            (
                Ok(()),
                TokenView { reward_config: Some(config), ..self }.emitted(
                    Event::RewardConfigSet {
                        first_payment_reward: config.first_payment_reward,
                        review_reward: config.review_reward,
                        mutual_review_bonus: config.mutual_review_bonus,
                    },
                ),
            )
        }
    }

    /// What naming the agreement ledger gives.
    pub open spec fn set_agreement_contract(
        self,
        caller: Address,
        agreement_contract: Address,
        now: u64,
    ) -> (Result<(), Error>, TokenView) {
        if self.paused {
            (Err(Error::ContractPaused), self)
        } else if !self.is_admin(caller) {
            (Err(Error::Unauthorized), self)
        } else {
            (
                Ok(()),
                TokenView { agreement_contract: Some(agreement_contract), ..self }.emitted(
                    Event::AgreementContractSet { agreement_contract, timestamp: now },
                ),
            )
        }
    }

    /// What a transfer gives.
    pub open spec fn transfer(self, from: Address, to: Address, amount: i128) -> (
        Result<(), Error>,
        TokenView,
    ) {
        if self.paused {
            (Err(Error::ContractPaused), self)
        } else if amount <= 0 {
            (Err(Error::InvalidAmount), self)
        } else if self.balance_of(from) < amount {
            (Err(Error::InsufficientBalance), self)
        } else {
            (Ok(()), self.moved(from, to, amount).emitted(Event::Transfer { from, to, amount }))
        }
    }

    /// What the administrator's creating an amount gives.
    pub open spec fn mint(self, caller: Address, to: Address, amount: i128) -> (
        Result<(), Error>,
        TokenView,
    ) {
        if self.paused {
            (Err(Error::ContractPaused), self)
        } else if !self.is_admin(caller) {
            (Err(Error::Unauthorized), self)
        } else {
            match self.mint_error(amount) {
                Some(e) => (Err(e), self),
                None => (Ok(()), self.minted(to, amount).emitted(Event::Mint { to, amount })),
            }
        }
    }

    /// What the administrator's destroying an amount gives.
    pub open spec fn burn(self, caller: Address, from: Address, amount: i128) -> (
        Result<(), Error>,
        TokenView,
    ) {
        if self.paused {
            (Err(Error::ContractPaused), self)
        } else if !self.is_admin(caller) {
            (Err(Error::Unauthorized), self)
        } else if amount <= 0 {
            (Err(Error::InvalidAmount), self)
        } else if self.balance_of(from) < amount {
            (Err(Error::InsufficientBalance), self)
        } else {
            (Ok(()), self.burned(from, amount).emitted(Event::Burn { from, amount }))
        }
    }

    /// What asking for the reward for a first payment gives.
    pub open spec fn reward_first_payment(self, agreement_id: RecordId, tenant: Address) -> (
        Result<(), Error>,
        TokenView,
    ) {
        let key = ClaimKey { agreement_id, party: tenant };
        let amount = self.reward_config.unwrap().first_payment_reward;
        if self.paused {
            (Err(Error::ContractPaused), self)
        } else if self.first_payment_claims.contains(key) || amount <= 0 {
            (Ok(()), self)
        } else if self.total_supply + amount > i128::MAX {
            (Err(Error::Overflow), self)
        } else {
            (
                Ok(()),
                TokenView {
                    first_payment_claims: self.first_payment_claims.insert(key),
                    ..self.minted(tenant, amount)
                }.emitted(
                    Event::RewardIssued {
                        kind: RewardKind::FirstPayment,
                        agreement_id,
                        recipient: tenant,
                        amount,
                    },
                ),
            )
        }
    }

    /// What asking for the reward for a review gives.
    pub open spec fn reward_review(self, agreement_id: RecordId, reviewer: Address) -> (
        Result<(), Error>,
        TokenView,
    ) {
        let key = ClaimKey { agreement_id, party: reviewer };
        let amount = self.reward_config.unwrap().review_reward;
        if self.paused {
            (Err(Error::ContractPaused), self)
        } else if self.review_claims.contains(key) || amount <= 0 {
            (Ok(()), self)
        } else if self.total_supply + amount > i128::MAX {
            (Err(Error::Overflow), self)
        } else {
            (
                Ok(()),
                TokenView {
                    review_claims: self.review_claims.insert(key),
                    ..self.minted(reviewer, amount)
                }.emitted(
                    Event::RewardIssued {
                        kind: RewardKind::Review,
                        agreement_id,
                        recipient: reviewer,
                        amount,
                    },
                ),
            )
        }
    }

    /// Whether the mutual bonus of `agreement_id` is still to be paid, or why
    /// it cannot be.
    pub open spec fn mutual_review_due(self, agreement_id: RecordId) -> Result<bool, Error> {
        if self.paused {
            Err(Error::ContractPaused)
        } else if self.mutual_claims.contains(agreement_id)
            || self.reward_config.unwrap().mutual_review_bonus <= 0 {
            Ok(false)
        } else if self.agreement_contract.is_none() {
            Err(Error::AgreementContractNotSet)
        } else {
            Ok(true)
        }
    }

    /// What asking for the mutual bonus of `agreement` gives.
    pub open spec fn reward_mutual_review(self, agreement: RentalAgreement) -> (
        Result<(), Error>,
        TokenView,
    ) {
        let amount = self.reward_config.unwrap().mutual_review_bonus;
        match self.mutual_review_due(agreement.id) {
            Err(e) => (Err(e), self),
            Ok(false) => (Ok(()), self),
            Ok(true) => if self.total_supply + amount + amount > i128::MAX {
                (Err(Error::Overflow), self)
            } else {
                (
                    Ok(()),
                    TokenView {
                        mutual_claims: self.mutual_claims.insert(agreement.id),
                        ..self.minted(agreement.tenant, amount).minted(agreement.landlord, amount)
                    }.emitted(
                        Event::RewardIssued {
                            kind: RewardKind::MutualReview,
                            agreement_id: agreement.id,
                            recipient: agreement.tenant,
                            amount,
                        },
                    ).emitted(
                        Event::RewardIssued {
                            kind: RewardKind::MutualReview,
                            agreement_id: agreement.id,
                            recipient: agreement.landlord,
                            amount,
                        },
                    ),
                )
            },
        }
    }
}

/// Setting one balance keeps the holders in step with the balances and
/// changes the sum by the difference.
pub proof fn with_balance_sum(v: TokenView, who: Address, amount: i128)
    requires
        v.holders_match(),
    ensures
        v.with_balance(who, amount).holders_match(),
        sum_of(v.with_balance(who, amount).holders, v.with_balance(who, amount).balances) == sum_of(
            v.holders,
            v.balances,
        ) - v.balance_of(who) + amount,
{
    let w = v.with_balance(who, amount);
    if v.balances.dom().contains(who) {
        sum_after_update(v.holders, v.balances, who, amount);
    } else {
        sum_after_push(v.holders, v.balances, who, amount);
        let n = v.holders.len() as int;
        assert(w.holders[n] == who);
        assert forall|a: Address| w.holders.contains(a) <==> w.balances.dom().contains(a) by {
            if w.holders.contains(a) {
                let j = w.holders.index_of(a);
                if j < n {
                    assert(v.holders[j] == a);
                }
            }
            if v.holders.contains(a) {
                let j = v.holders.index_of(a);
                assert(w.holders[j] == a);
            }
        }
        assert(w.holders.no_duplicates()) by {
            assert forall|i: int, j: int|
                0 <= i < w.holders.len() && 0 <= j < w.holders.len() && i != j implies w.holders[i]
                != w.holders[j] by {
                if i < n {
                    assert(v.holders.contains(w.holders[i]));
                }
                if j < n {
                    assert(v.holders.contains(w.holders[j]));
                }
            }
        }
    }
}

/// In a well-formed state the total supply is not negative and no balance
/// exceeds it.
pub proof fn balance_within_supply(v: TokenView, who: Address)
    requires
        v.wf(),
    ensures
        0 <= v.balance_of(who) <= v.total_supply,
{
    assert forall|i: int| 0 <= i < v.holders.len() implies v.balances[#[trigger] v.holders[i]]
        >= 0 by {
        assert(v.holders.contains(v.holders[i]));
    }
    sum_bounds(v.holders, v.balances, who);
}

/// Creating an amount that the supply has room for keeps the invariant.
pub proof fn minted_wf(v: TokenView, to: Address, amount: i128)
    requires
        v.wf(),
        v.initialized(),
        amount > 0,
        v.total_supply + amount <= i128::MAX,
    ensures
        v.minted(to, amount).wf(),
        v.minted(to, amount).total_supply == v.total_supply + amount,
        v.minted(to, amount).balance_of(to) == v.balance_of(to) + amount,
{
    balance_within_supply(v, to);
    with_balance_sum(v, to, (v.balance_of(to) + amount) as i128);
}

/// Destroying an amount that its holder has keeps the invariant.
pub proof fn burned_wf(v: TokenView, from: Address, amount: i128)
    requires
        v.wf(),
        0 < amount <= v.balance_of(from),
    ensures
        v.burned(from, amount).wf(),
        v.burned(from, amount).total_supply == v.total_supply - amount,
{
    balance_within_supply(v, from);
    with_balance_sum(v, from, (v.balance_of(from) - amount) as i128);
}

/// Moving an amount that its holder has keeps the invariant and the supply.
pub proof fn moved_wf(v: TokenView, from: Address, to: Address, amount: i128)
    requires
        v.wf(),
        0 < amount <= v.balance_of(from),
    ensures
        v.moved(from, to, amount).wf(),
        v.moved(from, to, amount).total_supply == v.total_supply,
        v.with_balance(from, (v.balance_of(from) - amount) as i128).balance_of(to) + amount
            <= i128::MAX,
{
    balance_within_supply(v, from);
    let d = v.with_balance(from, (v.balance_of(from) - amount) as i128);
    with_balance_sum(v, from, (v.balance_of(from) - amount) as i128);
    assert forall|i: int| 0 <= i < d.holders.len() implies d.balances[#[trigger] d.holders[i]]
        >= 0 by {
        assert(d.holders.contains(d.holders[i]));
    }
    sum_bounds(d.holders, d.balances, to);
    with_balance_sum(d, to, (d.balance_of(to) + amount) as i128);
}

/// The reward token.
pub struct BriqToken {
    admin: Option<Address>,
    paused: bool,
    metadata: Option<Metadata>,
    total_supply: i128,
    balances: Table<Address, i128>,
    reward_config: Option<RewardConfig>,
    agreement_contract: Option<Address>,
    first_payment_claims: Table<ClaimKey, bool>,
    review_claims: Table<ClaimKey, bool>,
    mutual_claims: Table<RecordId, bool>,
    events: Vec<Event>,
}

impl View for BriqToken {
    type V = TokenView;

    closed spec fn view(&self) -> TokenView {
        TokenView {
            admin: self.admin,
            paused: self.paused,
            metadata: match self.metadata {
                Some(m) => Some(
                    MetadataView { name: m.name@, symbol: m.symbol@, decimals: m.decimals },
                ),
                None => None,
            },
            total_supply: self.total_supply,
            holders: self.balances.keys(),
            balances: self.balances.map(),
            reward_config: self.reward_config,
            agreement_contract: self.agreement_contract,
            first_payment_claims: self.first_payment_claims.map().dom(),
            review_claims: self.review_claims.map().dom(),
            mutual_claims: self.mutual_claims.map().dom(),
            events: self.events@,
        }
    }
}

impl BriqToken {
    /// The stored tables are in order.
    pub closed spec fn stored(&self) -> bool {
        &&& self.balances.wf()
        &&& self.first_payment_claims.wf()
        &&& self.review_claims.wf()
        &&& self.mutual_claims.wf()
    }

    /// The token is in order: its storage is, and its invariant holds.
    pub open spec fn wf(&self) -> bool {
        self.stored() && self@.wf()
    }

    /// A token with no balances and no administrator yet.
    pub fn new() -> (t: Self)
        ensures
            t.wf(),
            t@ == (TokenView {
                admin: None,
                paused: false,
                metadata: None,
                total_supply: 0,
                holders: Seq::empty(),
                balances: Map::empty(),
                reward_config: None,
                agreement_contract: None,
                first_payment_claims: Set::empty(),
                review_claims: Set::empty(),
                mutual_claims: Set::empty(),
                events: Seq::empty(),
            }),
    {
        let t = BriqToken {
            admin: None,
            paused: false,
            metadata: None,
            total_supply: 0,
            balances: Table::new(),
            reward_config: None,
            agreement_contract: None,
            first_payment_claims: Table::new(),
            review_claims: Table::new(),
            mutual_claims: Table::new(),
            events: Vec::new(),
        };
        proof {
            assert(t@.first_payment_claims =~= Set::empty());
            assert(t@.review_claims =~= Set::empty());
            assert(t@.mutual_claims =~= Set::empty());
        }
        t
    }

    /// Names the administrator and sets the name, the symbol and the default
    /// rewards. Works once.
    pub fn initialize(&mut self, admin: Address, now: u64) -> (r: Result<(), Error>)
        requires
            old(self).wf(),
        ensures
            final(self).wf(),
            (r, final(self)@) == old(self)@.initialize(admin, now),
    {
        if self.admin.is_some() {
            return Err(Error::AlreadyInitialized);
        }
        self.admin = Some(admin);
        self.paused = false;
        self.metadata = Some(
            Metadata {
                name: "Briq Reward".to_owned(),
                symbol: "BRIQ-R".to_owned(),
                decimals: DECIMALS,
            },
        );
        self.reward_config = Some(
            RewardConfig {
                first_payment_reward: DEFAULT_FIRST_PAYMENT_REWARD,
                review_reward: DEFAULT_REVIEW_REWARD,
                mutual_review_bonus: DEFAULT_MUTUAL_REVIEW_BONUS,
            },
        );
        self.events.push(Event::Initialized { admin, timestamp: now });
        Ok(())
    }

    /// Stops every state-changing operation until `unpause`. `caller` must be
    /// the administrator.
    pub fn pause(&mut self, caller: Address, now: u64) -> (r: Result<(), Error>)
        requires
            old(self).wf(),
        ensures
            final(self).wf(),
            (r, final(self)@) == old(self)@.set_paused(caller, true, now),
    {
        let admin = self.require_admin()?;
        if !admin.same(&caller) {
            return Err(Error::Unauthorized);
        }
        self.paused = true;
        self.events.push(Event::Paused { timestamp: now });
        Ok(())
    }

    /// Lets state-changing operations through again. `caller` must be the
    /// administrator.
    pub fn unpause(&mut self, caller: Address, now: u64) -> (r: Result<(), Error>)
        requires
            old(self).wf(),
        ensures
            final(self).wf(),
            (r, final(self)@) == old(self)@.set_paused(caller, false, now),
    {
        let admin = self.require_admin()?;
        if !admin.same(&caller) {
            return Err(Error::Unauthorized);
        }
        self.paused = false;
        self.events.push(Event::Unpaused { timestamp: now });
        Ok(())
    }

    /// Sets the amounts of the three rewards, none of them negative. `caller`
    /// must be the administrator.
    pub fn set_reward_config(
        &mut self,
        caller: Address,
        first_payment_reward: i128,
        review_reward: i128,
        mutual_review_bonus: i128,
    ) -> (r: Result<(), Error>)
        requires
            old(self).wf(),
        ensures
            final(self).wf(),
            (r, final(self)@) == old(self)@.set_reward_config(
                caller,
                RewardConfig { first_payment_reward, review_reward, mutual_review_bonus },
            ),
    {
        self.check_not_paused()?;
        let admin = self.require_admin()?;
        if !admin.same(&caller) {
            return Err(Error::Unauthorized);
        }
        if first_payment_reward < 0 || review_reward < 0 || mutual_review_bonus < 0 {
            return Err(Error::InvalidAmount);
        }
        self.reward_config = Some(
            RewardConfig { first_payment_reward, review_reward, mutual_review_bonus },
        );
        self.events.push(
            Event::RewardConfigSet { first_payment_reward, review_reward, mutual_review_bonus },
        );
        Ok(())
    }

    /// The amounts of the three rewards.
    pub fn get_reward_config(&self) -> (c: RewardConfig)
        requires
            self.wf(),
            self@.initialized(),
        ensures
            Some(c) == self@.reward_config,
    {
        self.reward_config()
    }

    /// Names the agreement ledger, from which the parties of an agreement are
    /// read before the mutual bonus is paid. `caller` must be the
    /// administrator.
    pub fn set_agreement_contract(
        &mut self,
        caller: Address,
        agreement_contract: Address,
        now: u64,
    ) -> (r: Result<(), Error>)
        requires
            old(self).wf(),
        ensures
            final(self).wf(),
            (r, final(self)@) == old(self)@.set_agreement_contract(
                caller,
                agreement_contract,
                now,
            ),
    {
        self.check_not_paused()?;
        let admin = self.require_admin()?;
        if !admin.same(&caller) {
            return Err(Error::Unauthorized);
        }
        self.agreement_contract = Some(agreement_contract);
        self.events.push(Event::AgreementContractSet { agreement_contract, timestamp: now });
        Ok(())
    }

    /// The name of the token.
    pub fn name(&self) -> (n: String)
        requires
            self.wf(),
            self@.initialized(),
        ensures
            n@ == self@.metadata.unwrap().name,
    {
        self.metadata.as_ref().unwrap().name.clone()
    }

    /// The symbol of the token.
    pub fn symbol(&self) -> (n: String)
        requires
            self.wf(),
            self@.initialized(),
        ensures
            n@ == self@.metadata.unwrap().symbol,
    {
        self.metadata.as_ref().unwrap().symbol.clone()
    }

    /// The number of decimal places of the token.
    pub fn decimals(&self) -> (d: u32)
        requires
            self.wf(),
            self@.initialized(),
        ensures
            d == self@.metadata.unwrap().decimals,
    {
        self.metadata.as_ref().unwrap().decimals
    }

    /// The sum of all balances.
    pub fn total_supply(&self) -> (s: i128)
        ensures
            s == self@.total_supply,
    {
        self.total_supply
    }

    /// The balance of `owner`.
    pub fn balance_of(&self, owner: Address) -> (b: i128)
        requires
            self.wf(),
        ensures
            b == self@.balance_of(owner),
    {
        self.get_balance(&owner)
    }

    /// Moves `amount` from `from` to `to`. `from` is the authenticated
    /// caller.
    pub fn transfer(&mut self, from: Address, to: Address, amount: i128) -> (r: Result<(), Error>)
        requires
            old(self).wf(),
        ensures
            final(self).wf(),
            (r, final(self)@) == old(self)@.transfer(from, to, amount),
    {
        self.check_not_paused()?;
        self.do_transfer(&from, &to, amount)
    }

    /// Creates `amount` in the hands of `to`. `caller` must be the
    /// administrator.
    pub fn mint(&mut self, caller: Address, to: Address, amount: i128) -> (r: Result<(), Error>)
        requires
            old(self).wf(),
        ensures
            final(self).wf(),
            (r, final(self)@) == old(self)@.mint(caller, to, amount),
    {
        self.check_not_paused()?;
        let admin = self.require_admin()?;
        if !admin.same(&caller) {
            return Err(Error::Unauthorized);
        }
        self.do_mint(&to, amount)?;
        self.events.push(Event::Mint { to, amount });
        Ok(())
    }

    /// Destroys `amount` in the hands of `from`. `caller` must be the
    /// administrator.
    pub fn burn(&mut self, caller: Address, from: Address, amount: i128) -> (r: Result<(), Error>)
        requires
            old(self).wf(),
        ensures
            final(self).wf(),
            (r, final(self)@) == old(self)@.burn(caller, from, amount),
    {
        self.check_not_paused()?;
        let admin = self.require_admin()?;
        if !admin.same(&caller) {
            return Err(Error::Unauthorized);
        }
        self.do_burn(&from, amount)?;
        self.events.push(Event::Burn { from, amount });
        Ok(())
    }

    /// Pays `tenant` the reward for the first payment on `agreement_id`,
    /// unless it has been paid or is switched off.
    pub fn reward_first_payment(&mut self, agreement_id: RecordId, tenant: Address) -> (r: Result<
        (),
        Error,
    >)
        requires
            old(self).wf(),
            old(self)@.initialized(),
        ensures
            final(self).wf(),
            (r, final(self)@) == old(self)@.reward_first_payment(agreement_id, tenant),
    {
        self.check_not_paused()?;
        let key = ClaimKey { agreement_id, party: tenant };
        if self.first_payment_claims.contains(&key) {
            return Ok(());
        }
        let cfg = self.reward_config();
        if cfg.first_payment_reward <= 0 {
            return Ok(());
        }
        self.do_mint(&tenant, cfg.first_payment_reward)?;
        self.first_payment_claims.insert(key, true);
        self.events.push(
            Event::RewardIssued {
                kind: RewardKind::FirstPayment,
                agreement_id,
                recipient: tenant,
                amount: cfg.first_payment_reward,
            },
        );
        proof {
            assert(self@.first_payment_claims =~= old(self)@.first_payment_claims.insert(key));
        }
        Ok(())
    }

    /// Pays the author the reward for a review of `agreement_id`, unless it
    /// has been paid or is switched off.
    pub fn reward_review(&mut self, agreement_id: RecordId, reviewer: Address) -> (r: Result<
        (),
        Error,
    >)
        requires
            old(self).wf(),
            old(self)@.initialized(),
        ensures
            final(self).wf(),
            (r, final(self)@) == old(self)@.reward_review(agreement_id, reviewer),
    {
        self.check_not_paused()?;
        let key = ClaimKey { agreement_id, party: reviewer };
        if self.review_claims.contains(&key) {
            return Ok(());
        }
        let cfg = self.reward_config();
        if cfg.review_reward <= 0 {
            return Ok(());
        }
        self.do_mint(&reviewer, cfg.review_reward)?;
        self.review_claims.insert(key, true);
        self.events.push(
            Event::RewardIssued {
                kind: RewardKind::Review,
                agreement_id,
                recipient: reviewer,
                amount: cfg.review_reward,
            },
        );
        proof {
            assert(self@.review_claims =~= old(self)@.review_claims.insert(key));
        }
        Ok(())
    }

    /// Whether the mutual bonus of `agreement_id` is still to be paid, so
    /// that the agreement has to be read from the ledger.
    pub fn mutual_review_due(&self, agreement_id: RecordId) -> (r: Result<bool, Error>)
        requires
            self.wf(),
            self@.initialized(),
        ensures
            r == self@.mutual_review_due(agreement_id),
    {
        self.check_not_paused()?;
        if self.mutual_claims.contains(&agreement_id) {
            return Ok(false);
        }
        let cfg = self.reward_config();
        if cfg.mutual_review_bonus <= 0 {
            return Ok(false);
        }
        if self.agreement_contract.is_none() {
            return Err(Error::AgreementContractNotSet);
        }
        Ok(true)
    }

    /// Pays the mutual bonus to the tenant and to the landlord of
    /// `agreement`, which is the ledger's own record of it, unless the bonus
    /// has been paid or is switched off.
    pub fn reward_mutual_review(&mut self, agreement: &RentalAgreement) -> (r: Result<(), Error>)
        requires
            old(self).wf(),
            old(self)@.initialized(),
        ensures
            final(self).wf(),
            (r, final(self)@) == old(self)@.reward_mutual_review(*agreement),
    {
        if !self.mutual_review_due(agreement.id)? {
            return Ok(());
        }
        let bonus = self.reward_config().mutual_review_bonus;
        let room = match self.total_supply.checked_add(bonus) {
            Some(once) => once.checked_add(bonus).is_some(),
            None => false,
        };
        if !room {
            return Err(Error::Overflow);
        }
        proof {
            minted_wf(self@, agreement.tenant, bonus);
        }
        let first = self.do_mint(&agreement.tenant, bonus);
        let second = self.do_mint(&agreement.landlord, bonus);
        self.mutual_claims.insert(agreement.id, true);
        self.events.push(
            Event::RewardIssued {
                kind: RewardKind::MutualReview,
                agreement_id: agreement.id,
                recipient: agreement.tenant,
                amount: bonus,
            },
        );
        self.events.push(
            Event::RewardIssued {
                kind: RewardKind::MutualReview,
                agreement_id: agreement.id,
                recipient: agreement.landlord,
                amount: bonus,
            },
        );
        proof {
            assert(first.is_ok() && second.is_ok());
            assert(self@.mutual_claims =~= old(self)@.mutual_claims.insert(agreement.id));
        }
        Ok(())
    }

    /// Hands over the events that wait to be published, oldest first, and
    /// keeps none.
    pub fn take_events(&mut self) -> (events: Vec<Event>)
        requires
            old(self).wf(),
        ensures
            final(self).wf(),
            events@ == old(self)@.events,
            final(self)@ == (TokenView { events: Seq::empty(), ..old(self)@ }),
    {
        let mut events: Vec<Event> = Vec::new();
        core::mem::swap(&mut events, &mut self.events);
        events
    }

    /// Whether the token is paused.
    pub fn is_paused(&self) -> (p: bool)
        ensures
            p == self@.paused,
    {
        self.paused
    }

    /// The address of the agreement ledger, once one is named.
    pub fn agreement_contract(&self) -> (r: Option<Address>)
        ensures
            r == self@.agreement_contract,
    {
        self.agreement_contract
    }

    /// Fails while the token is paused.
    pub fn check_not_paused(&self) -> (r: Result<(), Error>)
        ensures
            r == if self@.paused {
                Err::<(), Error>(Error::ContractPaused)
            } else {
                Ok(())
            },
    {
        if self.paused {
            Err(Error::ContractPaused)
        } else {
            Ok(())
        }
    }

    /// The administrator, once there is one.
    pub fn require_admin(&self) -> (r: Result<Address, Error>)
        ensures
            r == match self@.admin {
                Some(a) => Ok::<Address, Error>(a),
                None => Err(Error::Unauthorized),
            },
    {
        match self.admin {
            Some(a) => Ok(a),
            None => Err(Error::Unauthorized),
        }
    }

    /// The amounts of the three rewards.
    fn reward_config(&self) -> (c: RewardConfig)
        requires
            self.wf(),
            self@.initialized(),
        ensures
            Some(c) == self@.reward_config,
    {
        self.reward_config.unwrap()
    }

    /// Moves `amount` from `from` to `to` and makes the transfer known.
    fn do_transfer(&mut self, from: &Address, to: &Address, amount: i128) -> (r: Result<(), Error>)
        requires
            old(self).wf(),
        ensures
            final(self).wf(),
            r == if amount <= 0 {
                Err::<(), Error>(Error::InvalidAmount)
            } else if old(self)@.balance_of(*from) < amount {
                Err(Error::InsufficientBalance)
            } else {
                Ok(())
            },
            final(self)@ == if r.is_ok() {
                old(self)@.moved(*from, *to, amount).emitted(
                    Event::Transfer { from: *from, to: *to, amount },
                )
            } else {
                old(self)@
            },
    {
        if amount <= 0 {
            return Err(Error::InvalidAmount);
        }
        let from_balance = self.get_balance(from);
        if from_balance < amount {
            return Err(Error::InsufficientBalance);
        }
        proof {
            moved_wf(self@, *from, *to, amount);
        }
        self.set_balance(from, from_balance - amount);
        let to_balance = self.get_balance(to);
        self.set_balance(to, to_balance + amount);
        self.events.push(Event::Transfer { from: *from, to: *to, amount });
        Ok(())
    }

    /// Creates `amount` in the hands of `to`, where the supply has room.
    fn do_mint(&mut self, to: &Address, amount: i128) -> (r: Result<(), Error>)
        requires
            old(self).wf(),
            old(self)@.initialized(),
        ensures
            final(self).wf(),
            r == match old(self)@.mint_error(amount) {
                Some(e) => Err::<(), Error>(e),
                None => Ok(()),
            },
            final(self)@ == if r.is_ok() {
                old(self)@.minted(*to, amount)
            } else {
                old(self)@
            },
    {
        if amount <= 0 {
            return Err(Error::InvalidAmount);
        }
        let supply = match self.total_supply.checked_add(amount) {
            Some(s) => s,
            None => {
                return Err(Error::Overflow);
            },
        };
        proof {
            minted_wf(self@, *to, amount);
        }
        let to_balance = self.get_balance(to);
        self.set_balance(to, to_balance + amount);
        self.total_supply = supply;
        Ok(())
    }

    /// Destroys `amount` in the hands of `from`, where it is there.
    fn do_burn(&mut self, from: &Address, amount: i128) -> (r: Result<(), Error>)
        requires
            old(self).wf(),
        ensures
            final(self).wf(),
            r == if amount <= 0 {
                Err::<(), Error>(Error::InvalidAmount)
            } else if old(self)@.balance_of(*from) < amount {
                Err(Error::InsufficientBalance)
            } else {
                Ok(())
            },
            final(self)@ == if r.is_ok() {
                old(self)@.burned(*from, amount)
            } else {
                old(self)@
            },
    {
        if amount <= 0 {
            return Err(Error::InvalidAmount);
        }
        let from_balance = self.get_balance(from);
        if from_balance < amount {
            return Err(Error::InsufficientBalance);
        }
        proof {
            burned_wf(self@, *from, amount);
        }
        self.set_balance(from, from_balance - amount);
        self.total_supply = self.total_supply - amount;
        Ok(())
    }

    /// Sets the balance of `owner` and nothing else.
    fn set_balance(&mut self, owner: &Address, amount: i128)
        requires
            old(self).stored(),
        ensures
            final(self).stored(),
            final(self)@ == old(self)@.with_balance(*owner, amount),
    {
        self.balances.insert(*owner, amount);
        proof {
            old(self).balances.keys_distinct();
        }
    }

    /// The balance of `owner`: zero where none is on record.
    fn get_balance(&self, owner: &Address) -> (b: i128)
        requires
            self.stored(),
        ensures
            b == self@.balance_of(*owner),
    {
        match self.balances.get(owner) {
            Some(b) => *b,
            None => 0,
        }
    }
}

/// Where no balance is negative, the balances of the first holders add up to
/// no more than the balances of all.
pub proof fn sum_of_prefix(holders: Seq<Address>, balances: Map<Address, i128>, k: int)
    requires
        0 <= k <= holders.len(),
        forall|i: int| 0 <= i < holders.len() ==> balances[#[trigger] holders[i]] >= 0,
    ensures
        sum_of(holders.take(k), balances) <= sum_of(holders, balances),
    decreases holders.len(),
{
    if k == holders.len() {
        assert(holders.take(k) =~= holders);
    } else {
        let rest = holders.drop_last();
        assert(holders[holders.len() - 1] == holders.last());
        assert forall|i: int| 0 <= i < rest.len() implies balances[#[trigger] rest[i]] >= 0 by {
            assert(rest[i] == holders[i]);
        }
        sum_of_prefix(rest, balances, k);
        assert(rest.take(k) =~= holders.take(k));
    }
}

/// Everything the token holds, as plain values: what is written down to keep
/// a token, and read back to go on with it.
pub struct TokenParts {
    pub admin: Option<Address>,
    pub paused: bool,
    pub metadata: Option<Metadata>,
    pub total_supply: i128,
    /// The addresses that have a balance on record.
    pub holders: Vec<Address>,
    /// The balance of each holder, at the same place.
    pub amounts: Vec<i128>,
    pub reward_config: Option<RewardConfig>,
    pub agreement_contract: Option<Address>,
    pub first_payment_claims: Vec<ClaimKey>,
    pub review_claims: Vec<ClaimKey>,
    pub mutual_claims: Vec<RecordId>,
    /// The events that wait to be published, oldest first.
    pub events: Vec<Event>,
}

impl View for TokenParts {
    type V = TokenView;

    open spec fn view(&self) -> TokenView {
        TokenView {
            admin: self.admin,
            paused: self.paused,
            metadata: match self.metadata {
                Some(m) => Some(
                    MetadataView { name: m.name@, symbol: m.symbol@, decimals: m.decimals },
                ),
                None => None,
            },
            total_supply: self.total_supply,
            holders: self.holders@,
            balances: paired(self.holders@, self.amounts@),
            reward_config: self.reward_config,
            agreement_contract: self.agreement_contract,
            first_payment_claims: self.first_payment_claims@.to_set(),
            review_claims: self.review_claims@.to_set(),
            mutual_claims: self.mutual_claims@.to_set(),
            events: self.events@,
        }
    }
}

impl TokenParts {
    /// Whether these parts make up a token: one balance for each holder and
    /// no holder twice, no claim twice, and the invariant of the token.
    pub open spec fn valid(&self) -> bool {
        &&& pairable(self.holders@, self.amounts@)
        &&& self.first_payment_claims@.no_duplicates()
        &&& self.review_claims@.no_duplicates()
        &&& self.mutual_claims@.no_duplicates()
        &&& self@.wf()
    }
}

/// As many marks as there are keys.
fn marks<K>(keys: &Vec<K>) -> (out: Vec<bool>)
    ensures
        out@.len() == keys@.len(),
{
    let mut out: Vec<bool> = Vec::new();
    let mut i: usize = 0;
    while i < keys.len()
        invariant
            i <= keys@.len(),
            out@.len() == i,
        decreases keys@.len() - i,
    {
        out.push(true);
        i += 1;
    }
    out
}

/// The table that marks each of `keys`, where none of them occurs twice.
fn claims_from<K: Ident>(keys: Vec<K>) -> (r: Option<Table<K, bool>>)
    ensures
        r.is_some() == keys@.no_duplicates(),
        match r {
            Some(t) => t.wf() && t.map().dom() == keys@.to_set(),
            None => true,
        },
{
    let vals = marks(&keys);
    let ghost listed = keys@;
    let made = Table::from_parts(keys, vals);
    proof {
        if made.is_some() {
            assert(made.unwrap().map().dom() =~= listed.to_set());
        }
    }
    made
}

/// The keys that `claims` marks.
fn claims_of<K: Ident>(claims: Table<K, bool>) -> (keys: Vec<K>)
    requires
        claims.wf(),
    ensures
        keys@.no_duplicates(),
        keys@.to_set() == claims.map().dom(),
{
    let ghost held = claims.map().dom();
    let (keys, vals) = claims.into_parts();
    proof {
        assert(keys@.to_set() =~= held);
    }
    keys
}

/// Whether the balances are all non-negative and add up to `total_supply`.
fn balances_add_up(holders: &Vec<Address>, amounts: &Vec<i128>, total_supply: i128) -> (ok: bool)
    requires
        pairable(holders@, amounts@),
    ensures
        ok == {
            &&& forall|a: Address|
                paired(holders@, amounts@).dom().contains(a) ==> paired(holders@, amounts@)[a]
                    >= 0
            &&& total_supply == sum_of(holders@, paired(holders@, amounts@))
        },
{
    let ghost balances = paired(holders@, amounts@);
    if total_supply < 0 {
        proof {
            if forall|a: Address| balances.dom().contains(a) ==> balances[a] >= 0 {
                assert forall|i: int| 0 <= i < holders@.len() implies balances[#[trigger] holders@[i]]
                    >= 0 by {
                    paired_at(holders@, amounts@, i);
                }
                sum_bounds(holders@, balances, holders@[0]);
            }
        }
        return false;
    }
    let mut acc: i128 = 0;
    let mut i: usize = 0;
    while i < amounts.len()
        invariant
            pairable(holders@, amounts@),
            balances == paired(holders@, amounts@),
            i <= amounts@.len(),
            0 <= acc <= total_supply,
            acc == sum_of(holders@.take(i as int), balances),
            forall|j: int| 0 <= j < i ==> amounts@[j] >= 0,
        decreases amounts@.len() - i,
    {
        let amount = amounts[i];
        proof {
            paired_at(holders@, amounts@, i as int);
            assert(holders@.take(i + 1).drop_last() =~= holders@.take(i as int));
            assert(holders@.take(i + 1).last() == holders@[i as int]);
        }
        if amount < 0 {
            return false;
        }
        if amount > total_supply - acc {
            proof {
                if forall|a: Address| balances.dom().contains(a) ==> balances[a] >= 0 {
                    assert forall|k: int| 0 <= k < holders@.len() implies balances[#[trigger] holders@[k]]
                        >= 0 by {
                        paired_at(holders@, amounts@, k);
                    }
                    sum_of_prefix(holders@, balances, i + 1);
                }
            }
            return false;
        }
        acc = acc + amount;
        i += 1;
    }
    proof {
        assert(holders@.take(i as int) =~= holders@);
        assert forall|a: Address| balances.dom().contains(a) implies balances[a] >= 0 by {
            let k = holders@.index_of(a);
            paired_at(holders@, amounts@, k);
        }
    }
    acc == total_supply
}

impl BriqToken {
    /// The token that `parts` make up, where they make up one.
    pub fn from_parts(parts: TokenParts) -> (r: Option<Self>)
        ensures
            r.is_some() == parts.valid(),
            match r {
                Some(t) => t.wf() && t@ == parts@,
                None => true,
            },
    {
        if parts.reward_config.is_some() != parts.admin.is_some() {
            return None;
        }
        if parts.metadata.is_some() != parts.admin.is_some() {
            return None;
        }
        if parts.admin.is_none() && parts.total_supply != 0 {
            return None;
        }
        let balances = match Table::from_parts(parts.holders, parts.amounts) {
            Some(t) => t,
            None => {
                return None;
            },
        };
        let (holders, amounts) = balances.parts();
        if !balances_add_up(holders, amounts, parts.total_supply) {
            return None;
        }
        let first_payment_claims = match claims_from(parts.first_payment_claims) {
            Some(t) => t,
            None => {
                return None;
            },
        };
        let review_claims = match claims_from(parts.review_claims) {
            Some(t) => t,
            None => {
                return None;
            },
        };
        let mutual_claims = match claims_from(parts.mutual_claims) {
            Some(t) => t,
            None => {
                return None;
            },
        };
        proof {
            balances.keys_distinct();
        }
        Some(
            BriqToken {
                admin: parts.admin,
                paused: parts.paused,
                metadata: parts.metadata,
                total_supply: parts.total_supply,
                balances,
                reward_config: parts.reward_config,
                agreement_contract: parts.agreement_contract,
                first_payment_claims,
                review_claims,
                mutual_claims,
                events: parts.events,
            },
        )
    }

    /// Everything the token holds, as plain values.
    pub fn into_parts(self) -> (parts: TokenParts)
        requires
            self.wf(),
        ensures
            parts.valid(),
            parts@ == self@,
    {
        let (holders, amounts) = self.balances.into_parts();
        TokenParts {
            admin: self.admin,
            paused: self.paused,
            metadata: self.metadata,
            total_supply: self.total_supply,
            holders,
            amounts,
            reward_config: self.reward_config,
            agreement_contract: self.agreement_contract,
            first_payment_claims: claims_of(self.first_payment_claims),
            review_claims: claims_of(self.review_claims),
            mutual_claims: claims_of(self.mutual_claims),
            events: self.events,
        }
    }
}

/// The reward for a first payment is paid at most once: a second call with
/// the same agreement and tenant changes nothing, whatever the first did.
/// Where the first call paid, the total supply and the tenant's balance grew
/// by exactly the configured amount.
pub proof fn first_payment_reward_paid_once(
    token: TokenView,
    agreement_id: RecordId,
    tenant: Address,
)
    requires
        token.wf(),
        token.initialized(),
    ensures
        ({
            let amount = token.reward_config.unwrap().first_payment_reward;
            let first = token.reward_first_payment(agreement_id, tenant);
            let second = first.1.reward_first_payment(agreement_id, tenant);
            let paid = first.1 != token;
            &&& second == first
            &&& first.1.wf()
            &&& paid ==> first.1.total_supply == token.total_supply + amount
            &&& paid ==> first.1.balance_of(tenant) == token.balance_of(tenant) + amount
            &&& !paid ==> first.1.total_supply == token.total_supply
            &&& paid <==> {
                &&& !token.paused
                &&& !token.first_payment_claims.contains(ClaimKey { agreement_id, party: tenant })
                &&& amount > 0
                &&& token.total_supply + amount <= i128::MAX
            }
        }),
{
    let amount = token.reward_config.unwrap().first_payment_reward;
    let key = ClaimKey { agreement_id, party: tenant };
    if !token.paused && !token.first_payment_claims.contains(key) && amount > 0
        && token.total_supply + amount <= i128::MAX {
        minted_wf(token, tenant, amount);
        assert(token.reward_first_payment(agreement_id, tenant).1.first_payment_claims.contains(
            key,
        ));
    }
}

/// The reward for a review is paid at most once: a second call with the same
/// agreement and author changes nothing, whatever the first did. Where the
/// first call paid, the total supply grew by exactly the configured amount.
pub proof fn review_reward_paid_once(token: TokenView, agreement_id: RecordId, reviewer: Address)
    requires
        token.wf(),
        token.initialized(),
    ensures
        ({
            let amount = token.reward_config.unwrap().review_reward;
            let first = token.reward_review(agreement_id, reviewer);
            let second = first.1.reward_review(agreement_id, reviewer);
            let paid = first.1 != token;
            &&& second == first
            &&& first.1.wf()
            &&& paid ==> first.1.total_supply == token.total_supply + amount
            &&& paid ==> first.1.balance_of(reviewer) == token.balance_of(reviewer) + amount
            &&& !paid ==> first.1.total_supply == token.total_supply
        }),
{
    let amount = token.reward_config.unwrap().review_reward;
    let key = ClaimKey { agreement_id, party: reviewer };
    if !token.paused && !token.review_claims.contains(key) && amount > 0 && token.total_supply
        + amount <= i128::MAX {
        minted_wf(token, reviewer, amount);
        assert(token.reward_review(agreement_id, reviewer).1.review_claims.contains(key));
    }
}

/// The mutual bonus of an agreement is paid at most once, however often it
/// is asked for: after a first call, a further call for the same agreement
/// changes nothing, whatever record of the agreement it comes with. Where the
/// first call paid, the total supply grew by exactly twice the bonus.
pub proof fn mutual_bonus_paid_once(
    token: TokenView,
    agreement: RentalAgreement,
    again: RentalAgreement,
)
    requires
        token.wf(),
        token.initialized(),
        again.id == agreement.id,
    ensures
        ({
            let bonus = token.reward_config.unwrap().mutual_review_bonus;
            let first = token.reward_mutual_review(agreement);
            let second = first.1.reward_mutual_review(again);
            let paid = first.1 != token;
            &&& second == first
            &&& first.1.wf()
            &&& paid ==> first.1.total_supply == token.total_supply + 2 * bonus
            &&& paid && agreement.tenant != agreement.landlord ==> {
                &&& first.1.balance_of(agreement.tenant) == token.balance_of(agreement.tenant)
                    + bonus
                &&& first.1.balance_of(agreement.landlord) == token.balance_of(
                    agreement.landlord,
                ) + bonus
            }
            &&& !paid ==> first.1.total_supply == token.total_supply
        }),
{
    let bonus = token.reward_config.unwrap().mutual_review_bonus;
    if token.mutual_review_due(agreement.id) == Ok::<bool, Error>(true) && token.total_supply
        + bonus + bonus <= i128::MAX {
        minted_wf(token, agreement.tenant, bonus);
        let once = token.minted(agreement.tenant, bonus);
        minted_wf(once, agreement.landlord, bonus);
        assert(token.reward_mutual_review(agreement).1.mutual_claims.contains(agreement.id));
    }
}

/// While the token is paused, every operation that would change balances,
/// rewards or configuration is refused for that reason and leaves the token
/// as it was.
pub proof fn pause_blocks_changes(
    token: TokenView,
    caller: Address,
    other: Address,
    agreement: RentalAgreement,
    config: RewardConfig,
    amount: i128,
    now: u64,
)
    requires
        token.paused,
    ensures
        token.set_reward_config(caller, config) == (Err::<(), Error>(Error::ContractPaused), token),
        token.set_agreement_contract(caller, other, now) == (
            Err::<(), Error>(Error::ContractPaused),
            token,
        ),
        token.transfer(caller, other, amount) == (Err::<(), Error>(Error::ContractPaused), token),
        token.mint(caller, other, amount) == (Err::<(), Error>(Error::ContractPaused), token),
        token.burn(caller, other, amount) == (Err::<(), Error>(Error::ContractPaused), token),
        token.reward_first_payment(agreement.id, other) == (
            Err::<(), Error>(Error::ContractPaused),
            token,
        ),
        token.reward_review(agreement.id, other) == (
            Err::<(), Error>(Error::ContractPaused),
            token,
        ),
        token.reward_mutual_review(agreement) == (Err::<(), Error>(Error::ContractPaused), token),
{
}

/// The balances add up to the total supply at all times, and none is ever
/// negative: every operation keeps the invariant of the token.
pub proof fn balances_always_add_up(
    token: TokenView,
    caller: Address,
    other: Address,
    agreement: RentalAgreement,
    config: RewardConfig,
    amount: i128,
    now: u64,
)
    requires
        token.wf(),
    ensures
        token.initialize(caller, now).1.wf(),
        token.set_paused(caller, true, now).1.wf(),
        token.set_paused(caller, false, now).1.wf(),
        token.set_reward_config(caller, config).1.wf(),
        token.set_agreement_contract(caller, other, now).1.wf(),
        token.transfer(caller, other, amount).1.wf(),
        token.transfer(caller, other, amount).1.total_supply == token.total_supply,
        token.mint(caller, other, amount).1.wf(),
        token.burn(caller, other, amount).1.wf(),
        token.initialized() ==> {
            &&& token.reward_first_payment(agreement.id, other).1.wf()
            &&& token.reward_review(agreement.id, other).1.wf()
            &&& token.reward_mutual_review(agreement).1.wf()
        },
{
    if token.transfer(caller, other, amount).0.is_ok() {
        moved_wf(token, caller, other, amount);
    }
    if token.mint(caller, other, amount).0.is_ok() {
        minted_wf(token, other, amount);
    }
    if token.burn(caller, other, amount).0.is_ok() {
        burned_wf(token, other, amount);
    }
    if token.initialized() {
        first_payment_reward_paid_once(token, agreement.id, other);
        review_reward_paid_once(token, agreement.id, other);
        mutual_bonus_paid_once(token, agreement, agreement);
    }
}

} // verus!
