//! The escrow engine: custody of the tenant's deposit, rent passed on to the
//! landlord, and the log of every payment.
//!
//! The engine moves no money itself. Each operation updates the engine's own
//! books and returns the transfers that the settlement asset must carry out,
//! in order, and the notices that the agreement ledger must receive. A caller
//! for whom a transfer fails discards the updated books with the rest of the
//! invocation.

use vstd::prelude::*;
use crate::rental_agreement::AgreementStatus;
use crate::rental_agreement::LedgerView;
use crate::rental_agreement::RentalAgreement;
use crate::table::filed_under;
use crate::table::pairable;
use crate::table::paired;
use crate::table::Journal;
use crate::table::Table;
use crate::types::saturating_add;
use crate::types::saturating_sum;
use crate::types::Address;
use crate::types::Ident;
use crate::types::RecordId;

verus! {

/// Why the engine refused an operation.
#[derive(Clone, Copy, Debug, PartialEq, Eq, Structural)]
pub enum Error {
    ContractPaused,
    Unauthorized,
    AlreadyInitialized,
    AgreementNotFound,
    InvalidAgreementState,
    InvalidPaymentAmount,
    DepositAlreadyPaid,
    DepositNotPaid,
    DepositAlreadyReleased,
    AgreementNotCompleted,
}

impl Error {
    /// The number under which this error is reported.
    pub open spec fn spec_code(self) -> u32 {
        match self {
            Error::ContractPaused => 1,
            Error::Unauthorized => 2,
            Error::AlreadyInitialized => 3,
            Error::AgreementNotFound => 300,
            Error::InvalidAgreementState => 301,
            Error::InvalidPaymentAmount => 302,
            Error::DepositAlreadyPaid => 303,
            Error::DepositNotPaid => 304,
            Error::DepositAlreadyReleased => 305,
            Error::AgreementNotCompleted => 306,
        }
    }

    /// The number under which this error is reported.
    pub fn code(&self) -> (c: u32)
        ensures
            c == self.spec_code(),
    {
        match self {
            Error::ContractPaused => 1,
            Error::Unauthorized => 2,
            Error::AlreadyInitialized => 3,
            Error::AgreementNotFound => 300,
            Error::InvalidAgreementState => 301,
            Error::InvalidPaymentAmount => 302,
            Error::DepositAlreadyPaid => 303,
            Error::DepositNotPaid => 304,
            Error::DepositAlreadyReleased => 305,
            Error::AgreementNotCompleted => 306,
        }
    }
}

/// What a payment was for.
#[derive(Clone, Copy, Debug, PartialEq, Eq, Structural)]
pub enum PaymentType {
    SecurityDeposit,
    FirstMonthRent,
    MonthlyRent,
    DepositRelease,
    EmergencyWithdrawal,
}

/// One entry of the payment log. Entries are never changed.
#[derive(Clone, Copy, Debug, PartialEq, Eq, Structural)]
pub struct PaymentRecord {
    pub id: RecordId,
    pub agreement_id: RecordId,
    pub payer: Address,
    pub payee: Address,
    pub amount: i128,
    pub payment_type: PaymentType,
    pub timestamp: u64,
}

/// The engine's books for one agreement.
#[derive(Clone, Copy, Debug, PartialEq, Eq, Structural)]
pub struct EscrowAccount {
    pub agreement_id: RecordId,
    pub landlord: Address,
    pub tenant: Address,
    pub security_deposit_amount: i128,
    pub security_deposit_held: i128,
    pub monthly_rent_amount: i128,
    pub total_rent_received: i128,
    pub total_rent_released: i128,
    pub is_deposit_released: bool,
    pub deposit_released_at: u64,
    pub created_at: u64,
}

/// An order to the settlement asset: move `amount` from `from` to `to`.
#[derive(Clone, Copy, Debug, PartialEq, Eq, Structural)]
pub struct Transfer {
    pub from: Address,
    pub to: Address,
    pub amount: i128,
}

/// A notice that the agreement ledger must receive.
#[derive(Clone, Copy, Debug, PartialEq, Eq, Structural)]
pub enum LedgerNotice {
    /// The deposit and the first rent have arrived.
    DepositPaid { agreement_id: RecordId },
    /// One period's rent has been paid.
    RentPaid { agreement_id: RecordId, amount: i128 },
}

/// What the engine lets the outside know of a change.
#[derive(Clone, Copy, Debug, PartialEq, Eq, Structural)]
pub enum Event {
    Initialized { admin: Address, agreement_contract: Address, xlm_token: Address, timestamp: u64 },
    Paused { timestamp: u64 },
    Unpaused { timestamp: u64 },
    SecurityDepositReceived { agreement_id: RecordId, tenant: Address, amount: i128 },
    RentPaymentReceived { agreement_id: RecordId, tenant: Address, amount: i128 },
    RentReleasedToLandlord { agreement_id: RecordId, landlord: Address, amount: i128 },
    DepositReleasedToTenant { agreement_id: RecordId, tenant: Address, amount: i128 },
    EmergencyWithdrawal { agreement_id: RecordId, to: Address, amount: i128, admin: Address },
}

/// What the caller of a successful operation has to carry out.
#[derive(Debug)]
pub struct Settlement {
    /// The transfers, in the order in which they are to be made.
    pub transfers: Vec<Transfer>,
    /// The notices, in the order in which they are to be delivered.
    pub notices: Vec<LedgerNotice>,
}

/// What `who` gains from `transfers`: what comes in less what goes out.
pub open spec fn net_inflow(transfers: Seq<Transfer>, who: Address) -> int
    decreases transfers.len(),
{
    if transfers.len() == 0 {
        0
    } else {
        let t = transfers.last();
        net_inflow(transfers.drop_last(), who) + (if t.to == who {
            t.amount as int
        } else {
            0
        }) - (if t.from == who {
            t.amount as int
        } else {
            0
        })
    }
}

/// The deposit and the first rent together, as the tenant pays them.
pub open spec fn funding_total(agreement: RentalAgreement) -> i128 {
    saturating_sum(agreement.security_deposit, agreement.monthly_rent)
}

/// The books of `agreement` after its funding at `now`, given the books it
/// had before, if any.
pub open spec fn funded_account(
    existing: Option<EscrowAccount>,
    agreement: RentalAgreement,
    now: u64,
) -> EscrowAccount {
    let base = match existing {
        Some(e) => e,
        None => EscrowAccount {
            agreement_id: agreement.id,
            landlord: agreement.landlord,
            tenant: agreement.tenant,
            security_deposit_amount: agreement.security_deposit,
            security_deposit_held: 0,
            monthly_rent_amount: agreement.monthly_rent,
            total_rent_received: 0,
            total_rent_released: 0,
            is_deposit_released: false,
            deposit_released_at: 0,
            created_at: now,
        },
    };
    EscrowAccount {
        security_deposit_amount: agreement.security_deposit,
        monthly_rent_amount: agreement.monthly_rent,
        security_deposit_held: saturating_sum(
            base.security_deposit_held,
            agreement.security_deposit,
        ),
        total_rent_received: saturating_sum(base.total_rent_received, agreement.monthly_rent),
        total_rent_released: saturating_sum(base.total_rent_released, agreement.monthly_rent),
        ..base
    }
}

impl EscrowAccount {
    /// These books with one more rent of `amount` received and passed on.
    pub open spec fn with_rent(self, amount: i128) -> EscrowAccount {
        EscrowAccount {
            total_rent_received: saturating_sum(self.total_rent_received, amount),
            total_rent_released: saturating_sum(self.total_rent_released, amount),
            ..self
        }
    }

    /// These books once the held deposit has left custody at `now`.
    pub open spec fn emptied(self, now: u64) -> EscrowAccount {
        EscrowAccount {
            security_deposit_held: 0,
            is_deposit_released: true,
            deposit_released_at: now,
            ..self
        }
    }
}

/// What the engine holds, as mathematical values.
pub struct EscrowView {
    pub admin: Option<Address>,
    pub paused: bool,
    pub agreement_contract: Option<Address>,
    pub xlm_token: Option<Address>,
    /// The engine's own address, under which it holds funds.
    pub custody: Address,
    pub escrows: Map<RecordId, EscrowAccount>,
    pub payments: Seq<(RecordId, PaymentRecord)>,
    /// The events that wait to be published, oldest first.
    pub events: Seq<Event>,
}

impl EscrowView {
    /// Whether `caller` is the administrator.
    pub open spec fn is_admin(self, caller: Address) -> bool {
        self.admin == Some(caller)
    }

    /// The books of `agreement_id`, if the engine keeps any.
    pub open spec fn account(self, agreement_id: RecordId) -> Option<EscrowAccount> {
        if self.escrows.dom().contains(agreement_id) {
            Some(self.escrows[agreement_id])
        } else {
            None
        }
    }

    /// This state with one more event waiting to be published.
    pub open spec fn emitted(self, event: Event) -> EscrowView {
        EscrowView { events: self.events.push(event), ..self }
    }

    /// This state with `record` appended to the log of its agreement.
    pub open spec fn logged(self, record: PaymentRecord) -> EscrowView {
        EscrowView { payments: self.payments.push((record.agreement_id, record)), ..self }
    }

    /// What naming the administrator, the ledger and the asset gives.
    pub open spec fn initialize(
        self,
        admin: Address,
        agreement_contract: Address,
        xlm_token: Address,
        now: u64,
    ) -> (Result<(), Error>, EscrowView) {
        if self.admin.is_some() {
            (Err(Error::AlreadyInitialized), self)
        } else {
            (
                Ok(()),
                EscrowView {
                    admin: Some(admin),
                    paused: false,
                    agreement_contract: Some(agreement_contract),
                    xlm_token: Some(xlm_token),
                    ..self
                }.emitted(
                    Event::Initialized { admin, agreement_contract, xlm_token, timestamp: now },
                ),
            )
        }
    }

    /// What pausing, or taking the pause back, gives.
    pub open spec fn set_paused(self, caller: Address, paused: bool, now: u64) -> (
        Result<(), Error>,
        EscrowView,
    ) {
        if !self.is_admin(caller) {
            (Err(Error::Unauthorized), self)
        } else {
            (
                Ok(()),
                EscrowView { paused, ..self }.emitted(
                    if paused {
                        Event::Paused { timestamp: now }
                    } else {
                        Event::Unpaused { timestamp: now }
                    },
                ),
            )
        }
    }

    /// Why funding is refused, if it is.
    pub open spec fn funding_error(self, tenant: Address, agreement: RentalAgreement) -> Option<
        Error,
    > {
        if self.paused {
            Some(Error::ContractPaused)
        } else if self.agreement_contract.is_none() {
            Some(Error::Unauthorized)
        } else if tenant != agreement.tenant {
            Some(Error::Unauthorized)
        } else if agreement.status != AgreementStatus::PendingPayment {
            Some(Error::InvalidAgreementState)
        } else if agreement.deposit_paid {
            Some(Error::DepositAlreadyPaid)
        } else if funding_total(agreement) <= 0 {
            Some(Error::InvalidPaymentAmount)
        } else if self.xlm_token.is_none() {
            Some(Error::Unauthorized)
        } else {
            None
        }
    }

    /// The transfers of a funding: everything from the tenant into custody,
    /// then the first rent from custody to the landlord.
    pub open spec fn funding_transfers(self, agreement: RentalAgreement) -> Seq<Transfer> {
        seq![
            Transfer { from: agreement.tenant, to: self.custody, amount: funding_total(agreement) },
            Transfer {
                from: self.custody,
                to: agreement.landlord,
                amount: agreement.monthly_rent,
            },
        ]
    }

    /// The notices of a funding.
    pub open spec fn funding_notices(agreement: RentalAgreement) -> Seq<LedgerNotice> {
        seq![
            LedgerNotice::DepositPaid { agreement_id: agreement.id },
            LedgerNotice::RentPaid { agreement_id: agreement.id, amount: agreement.monthly_rent },
        ]
    }

    /// The state after a funding that was not refused.
    pub open spec fn funded(
        self,
        agreement: RentalAgreement,
        now: u64,
        deposit_record_id: RecordId,
        rent_record_id: RecordId,
    ) -> EscrowView {
        EscrowView {
            escrows: self.escrows.insert(
                agreement.id,
                funded_account(self.account(agreement.id), agreement, now),
            ),
            ..self
        }.logged(
            PaymentRecord {
                id: deposit_record_id,
                agreement_id: agreement.id,
                payer: agreement.tenant,
                payee: self.custody,
                amount: agreement.security_deposit,
                payment_type: PaymentType::SecurityDeposit,
                timestamp: now,
            },
        ).logged(
            PaymentRecord {
                id: rent_record_id,
                agreement_id: agreement.id,
                payer: agreement.tenant,
                payee: agreement.landlord,
                amount: agreement.monthly_rent,
                payment_type: PaymentType::FirstMonthRent,
                timestamp: now,
            },
        ).emitted(
            Event::SecurityDepositReceived {
                agreement_id: agreement.id,
                tenant: agreement.tenant,
                amount: agreement.security_deposit,
            },
        ).emitted(
            Event::RentReleasedToLandlord {
                agreement_id: agreement.id,
                landlord: agreement.landlord,
                amount: agreement.monthly_rent,
            },
        )
    }

    /// Why a rent payment is refused, if it is.
    pub open spec fn rent_error(self, tenant: Address, agreement: RentalAgreement) -> Option<
        Error,
    > {
        if self.paused {
            Some(Error::ContractPaused)
        } else if self.agreement_contract.is_none() {
            Some(Error::Unauthorized)
        } else if tenant != agreement.tenant {
            Some(Error::Unauthorized)
        } else if agreement.status != AgreementStatus::Active {
            Some(Error::InvalidAgreementState)
        } else if agreement.monthly_rent <= 0 {
            Some(Error::InvalidPaymentAmount)
        } else if self.xlm_token.is_none() {
            Some(Error::Unauthorized)
        } else if !self.escrows.dom().contains(agreement.id) {
            Some(Error::AgreementNotFound)
        } else {
            None
        }
    }

    /// The transfers of a rent payment: from the tenant into custody, then
    /// from custody to the landlord.
    pub open spec fn rent_transfers(self, agreement: RentalAgreement) -> Seq<Transfer> {
        seq![
            Transfer { from: agreement.tenant, to: self.custody, amount: agreement.monthly_rent },
            Transfer {
                from: self.custody,
                to: agreement.landlord,
                amount: agreement.monthly_rent,
            },
        ]
    }

    /// The state after a rent payment that was not refused.
    pub open spec fn rent_paid(
        self,
        agreement: RentalAgreement,
        now: u64,
        record_id: RecordId,
    ) -> EscrowView {
        EscrowView {
            escrows: self.escrows.insert(
                agreement.id,
                self.escrows[agreement.id].with_rent(agreement.monthly_rent),
            ),
            ..self
        }.logged(
            PaymentRecord {
                id: record_id,
                agreement_id: agreement.id,
                payer: agreement.tenant,
                payee: agreement.landlord,
                amount: agreement.monthly_rent,
                payment_type: PaymentType::MonthlyRent,
                timestamp: now,
            },
        ).emitted(
            Event::RentPaymentReceived {
                agreement_id: agreement.id,
                tenant: agreement.tenant,
                amount: agreement.monthly_rent,
            },
        ).emitted(
            Event::RentReleasedToLandlord {
                agreement_id: agreement.id,
                landlord: agreement.landlord,
                amount: agreement.monthly_rent,
            },
        )
    }

    /// Why the release of the deposit is refused, if it is.
    pub open spec fn release_error(self, caller: Address, agreement: RentalAgreement) -> Option<
        Error,
    > {
        if self.paused {
            Some(Error::ContractPaused)
        } else if self.agreement_contract.is_none() {
            Some(Error::Unauthorized)
        } else if !agreement.is_party(caller) {
            Some(Error::Unauthorized)
        } else if agreement.status != AgreementStatus::Completed {
            Some(Error::AgreementNotCompleted)
        } else if !self.escrows.dom().contains(agreement.id) {
            Some(Error::AgreementNotFound)
        } else if self.escrows[agreement.id].is_deposit_released {
            Some(Error::DepositAlreadyReleased)
        } else if self.escrows[agreement.id].security_deposit_held <= 0 {
            Some(Error::DepositNotPaid)
        } else if self.xlm_token.is_none() {
            Some(Error::Unauthorized)
        } else {
            None
        }
    }

    /// The state after the held deposit of `agreement_id` has been paid out
    /// to `payee` at `now`, logged as a payment of kind `payment_type`.
    pub open spec fn paid_out(
        self,
        agreement_id: RecordId,
        payee: Address,
        payment_type: PaymentType,
        now: u64,
        record_id: RecordId,
    ) -> EscrowView {
        EscrowView {
            escrows: self.escrows.insert(agreement_id, self.escrows[agreement_id].emptied(now)),
            ..self
        }.logged(
            PaymentRecord {
                id: record_id,
                agreement_id,
                payer: self.custody,
                payee,
                amount: self.escrows[agreement_id].security_deposit_held,
                payment_type,
                timestamp: now,
            },
        )
    }

    /// The state after the release of the held deposit of `agreement_id` to
    /// the tenant on the books.
    pub open spec fn released(
        self,
        agreement_id: RecordId,
        now: u64,
        record_id: RecordId,
    ) -> EscrowView {
        self.paid_out(
            agreement_id,
            self.escrows[agreement_id].tenant,
            PaymentType::DepositRelease,
            now,
            record_id,
        ).emitted(
            Event::DepositReleasedToTenant {
                agreement_id,
                tenant: self.escrows[agreement_id].tenant,
                amount: self.escrows[agreement_id].security_deposit_held,
            },
        )
    }

    /// The state after the administrator `admin` has withdrawn the held
    /// deposit of `agreement_id` to `to`.
    pub open spec fn withdrawn(
        self,
        admin: Address,
        agreement_id: RecordId,
        to: Address,
        now: u64,
        record_id: RecordId,
    ) -> EscrowView {
        self.paid_out(agreement_id, to, PaymentType::EmergencyWithdrawal, now, record_id).emitted(
            Event::EmergencyWithdrawal {
                agreement_id,
                to,
                amount: self.escrows[agreement_id].security_deposit_held,
                admin,
            },
        )
    }

    /// Why an emergency withdrawal is refused, if it is. A withdrawal from
    /// books that hold nothing is not refused: it does nothing.
    pub open spec fn withdrawal_error(self, caller: Address, agreement_id: RecordId) -> Option<
        Error,
    > {
        if self.paused {
            Some(Error::ContractPaused)
        } else if !self.is_admin(caller) {
            Some(Error::Unauthorized)
        } else if !self.escrows.dom().contains(agreement_id) {
            Some(Error::AgreementNotFound)
        } else if self.escrows[agreement_id].security_deposit_held <= 0 {
            None
        } else if self.xlm_token.is_none() {
            Some(Error::Unauthorized)
        } else {
            None
        }
    }
}

/// The escrow engine.
pub struct EscrowManager {
    admin: Option<Address>,
    paused: bool,
    agreement_contract: Option<Address>,
    xlm_token: Option<Address>,
    custody: Address,
    escrows: Table<RecordId, EscrowAccount>,
    payments: Journal<RecordId, PaymentRecord>,
    events: Vec<Event>,
}

impl View for EscrowManager {
    type V = EscrowView;

    closed spec fn view(&self) -> EscrowView {
        EscrowView {
            admin: self.admin,
            paused: self.paused,
            agreement_contract: self.agreement_contract,
            xlm_token: self.xlm_token,
            custody: self.custody,
            escrows: self.escrows.map(),
            payments: self.payments.entries(),
            events: self.events@,
        }
    }
}

impl EscrowManager {
    /// The stored table is in order.
    pub closed spec fn wf(&self) -> bool {
        self.escrows.wf()
    }

    /// An engine that holds nothing and has no administrator yet. `custody`
    /// is the engine's own address, under which it will hold funds.
    pub fn new(custody: Address) -> (m: Self)
        ensures
            m.wf(),
            m@ == (EscrowView {
                admin: None,
                paused: false,
                agreement_contract: None,
                xlm_token: None,
                custody,
                escrows: Map::empty(),
                payments: Seq::empty(),
                events: Seq::empty(),
            }),
    {
        EscrowManager {
            admin: None,
            paused: false,
            agreement_contract: None,
            xlm_token: None,
            custody,
            escrows: Table::new(),
            payments: Journal::new(),
            events: Vec::new(),
        }
    }

    /// Names the administrator, the agreement ledger and the settlement
    /// asset. Works once.
    pub fn initialize(
        &mut self,
        admin: Address,
        agreement_contract: Address,
        xlm_token: Address,
        now: u64,
    ) -> (r: Result<(), Error>)
        requires
            old(self).wf(),
        ensures
            final(self).wf(),
            (r, final(self)@) == old(self)@.initialize(admin, agreement_contract, xlm_token, now),
    {
        if self.admin.is_some() {
            return Err(Error::AlreadyInitialized);
        }
        self.admin = Some(admin);
        self.paused = false;
        self.agreement_contract = Some(agreement_contract);
        self.xlm_token = Some(xlm_token);
        self.events.push(
            Event::Initialized { admin, agreement_contract, xlm_token, timestamp: now },
        );
        Ok(())
    }

    /// Stops every state-changing operation until `unpause`. `caller` must be
    /// the administrator.
    pub fn pause(&mut self, caller: Address, now: u64) -> (r: Result<(), Error>)
        requires
            old(self).wf(),
        ensures
            final(self).wf(),
            (r, final(self)@) == old(self)@.set_paused(caller, true, now),
    {
        let admin = self.require_admin()?;
        if !admin.same(&caller) {
            return Err(Error::Unauthorized);
        }
        self.paused = true;
        self.events.push(Event::Paused { timestamp: now });
        Ok(())
    }

    /// Lets state-changing operations through again. `caller` must be the
    /// administrator.
    pub fn unpause(&mut self, caller: Address, now: u64) -> (r: Result<(), Error>)
        requires
            old(self).wf(),
        ensures
            final(self).wf(),
            (r, final(self)@) == old(self)@.set_paused(caller, false, now),
    {
        let admin = self.require_admin()?;
        if !admin.same(&caller) {
            return Err(Error::Unauthorized);
        }
        self.paused = false;
        self.events.push(Event::Unpaused { timestamp: now });
        Ok(())
    }

    /// The first payment on `agreement`, which is the ledger's current record
    /// of it: the tenant pays the deposit and the first rent into custody, and
    /// the rent goes on to the landlord at once. `tenant` is the authenticated
    /// caller; the two record ids are fresh identifiers for the log entries.
    pub fn deposit_security_and_rent(
        &mut self,
        tenant: Address,
        agreement: &RentalAgreement,
        now: u64,
        deposit_record_id: RecordId,
        rent_record_id: RecordId,
    ) -> (r: Result<Settlement, Error>)
        requires
            old(self).wf(),
        ensures
            final(self).wf(),
            match r {
                Ok(s) => {
                    &&& old(self)@.funding_error(tenant, *agreement).is_none()
                    &&& s.transfers@ == old(self)@.funding_transfers(*agreement)
                    &&& s.notices@ == EscrowView::funding_notices(*agreement)
                    &&& final(self)@ == old(self)@.funded(
                        *agreement,
                        now,
                        deposit_record_id,
                        rent_record_id,
                    )
                },
                Err(e) => {
                    &&& old(self)@.funding_error(tenant, *agreement) == Some(e)
                    &&& final(self)@ == old(self)@
                },
            },
    {
        self.check_not_paused()?;
        if self.agreement_contract.is_none() {
            return Err(Error::Unauthorized);
        }
        if !tenant.same(&agreement.tenant) {
            return Err(Error::Unauthorized);
        }
        match agreement.status {
            AgreementStatus::PendingPayment => {},
            _ => {
                return Err(Error::InvalidAgreementState);
            },
        }
        if agreement.deposit_paid {
            return Err(Error::DepositAlreadyPaid);
        }
        let total = saturating_add(agreement.security_deposit, agreement.monthly_rent);
        if total <= 0 {
            return Err(Error::InvalidPaymentAmount);
        }
        if self.xlm_token.is_none() {
            return Err(Error::Unauthorized);
        }
        let mut transfers: Vec<Transfer> = Vec::new();
        transfers.push(Transfer { from: agreement.tenant, to: self.custody, amount: total });
        transfers.push(
            Transfer { from: self.custody, to: agreement.landlord, amount: agreement.monthly_rent },
        );

        let mut escrow = match self.escrows.get(&agreement.id) {
            Some(e) => *e,
            None => EscrowAccount {
                agreement_id: agreement.id,
                landlord: agreement.landlord,
                tenant: agreement.tenant,
                security_deposit_amount: agreement.security_deposit,
                security_deposit_held: 0,
                monthly_rent_amount: agreement.monthly_rent,
                total_rent_received: 0,
                total_rent_released: 0,
                is_deposit_released: false,
                deposit_released_at: 0,
                created_at: now,
            },
        };
        escrow.security_deposit_amount = agreement.security_deposit;
        escrow.monthly_rent_amount = agreement.monthly_rent;
        escrow.security_deposit_held = saturating_add(
            escrow.security_deposit_held,
            agreement.security_deposit,
        );
        escrow.total_rent_received = saturating_add(
            escrow.total_rent_received,
            agreement.monthly_rent,
        );
        escrow.total_rent_released = saturating_add(
            escrow.total_rent_released,
            agreement.monthly_rent,
        );
        self.escrows.insert(agreement.id, escrow);

        self.append_payment(
            PaymentRecord {
                id: deposit_record_id,
                agreement_id: agreement.id,
                payer: agreement.tenant,
                payee: self.custody,
                amount: agreement.security_deposit,
                payment_type: PaymentType::SecurityDeposit,
                timestamp: now,
            },
        );
        self.append_payment(
            PaymentRecord {
                id: rent_record_id,
                agreement_id: agreement.id,
                payer: agreement.tenant,
                payee: agreement.landlord,
                amount: agreement.monthly_rent,
                payment_type: PaymentType::FirstMonthRent,
                timestamp: now,
            },
        );

        self.events.push(
            Event::SecurityDepositReceived {
                agreement_id: agreement.id,
                tenant: agreement.tenant,
                amount: agreement.security_deposit,
            },
        );
        self.events.push(
            Event::RentReleasedToLandlord {
                agreement_id: agreement.id,
                landlord: agreement.landlord,
                amount: agreement.monthly_rent,
            },
        );
        let mut notices: Vec<LedgerNotice> = Vec::new();
        notices.push(LedgerNotice::DepositPaid { agreement_id: agreement.id });
        notices.push(
            LedgerNotice::RentPaid { agreement_id: agreement.id, amount: agreement.monthly_rent },
        );
        proof {
            assert(transfers@ =~= old(self)@.funding_transfers(*agreement));
            assert(notices@ =~= EscrowView::funding_notices(*agreement));
        }
        Ok(Settlement { transfers, notices })
    }

    /// One period's rent on `agreement`, which is the ledger's current record
    /// of it: from the tenant into custody and on to the landlord. `tenant` is
    /// the authenticated caller.
    pub fn pay_rent(
        &mut self,
        tenant: Address,
        agreement: &RentalAgreement,
        now: u64,
        record_id: RecordId,
    ) -> (r: Result<Settlement, Error>)
        requires
            old(self).wf(),
        ensures
            final(self).wf(),
            match r {
                Ok(s) => {
                    &&& old(self)@.rent_error(tenant, *agreement).is_none()
                    &&& s.transfers@ == old(self)@.rent_transfers(*agreement)
                    &&& s.notices@ == seq![
                        LedgerNotice::RentPaid {
                            agreement_id: agreement.id,
                            amount: agreement.monthly_rent,
                        },
                    ]
                    &&& final(self)@ == old(self)@.rent_paid(*agreement, now, record_id)
                },
                Err(e) => {
                    &&& old(self)@.rent_error(tenant, *agreement) == Some(e)
                    &&& final(self)@ == old(self)@
                },
            },
    {
        self.check_not_paused()?;
        if self.agreement_contract.is_none() {
            return Err(Error::Unauthorized);
        }
        if !tenant.same(&agreement.tenant) {
            return Err(Error::Unauthorized);
        }
        match agreement.status {
            AgreementStatus::Active => {},
            _ => {
                return Err(Error::InvalidAgreementState);
            },
        }
        let amount = agreement.monthly_rent;
        if amount <= 0 {
            return Err(Error::InvalidPaymentAmount);
        }
        if self.xlm_token.is_none() {
            return Err(Error::Unauthorized);
        }
        let mut escrow = self.get_escrow(agreement.id)?;
        let mut transfers: Vec<Transfer> = Vec::new();
        transfers.push(Transfer { from: agreement.tenant, to: self.custody, amount });
        transfers.push(Transfer { from: self.custody, to: agreement.landlord, amount });

        escrow.total_rent_received = saturating_add(escrow.total_rent_received, amount);
        escrow.total_rent_released = saturating_add(escrow.total_rent_released, amount);
        self.escrows.insert(agreement.id, escrow);

        self.append_payment(
            PaymentRecord {
                id: record_id,
                agreement_id: agreement.id,
                payer: agreement.tenant,
                payee: agreement.landlord,
                amount,
                payment_type: PaymentType::MonthlyRent,
                timestamp: now,
            },
        );

        self.events.push(
            Event::RentPaymentReceived {
                agreement_id: agreement.id,
                tenant: agreement.tenant,
                amount,
            },
        );
        self.events.push(
            Event::RentReleasedToLandlord {
                agreement_id: agreement.id,
                landlord: agreement.landlord,
                amount,
            },
        );
        let mut notices: Vec<LedgerNotice> = Vec::new();
        notices.push(LedgerNotice::RentPaid { agreement_id: agreement.id, amount });
        proof {
            assert(transfers@ =~= old(self)@.rent_transfers(*agreement));
            assert(notices@ =~= seq![
                LedgerNotice::RentPaid {
                    agreement_id: agreement.id,
                    amount: agreement.monthly_rent,
                },
            ]);
        }
        Ok(Settlement { transfers, notices })
    }

    /// Returns the held deposit of the completed `agreement`, which is the
    /// ledger's current record of it, to the tenant on the engine's books.
    /// `caller` is the authenticated caller and must be a party.
    pub fn release_deposit_to_tenant(
        &mut self,
        caller: Address,
        agreement: &RentalAgreement,
        now: u64,
        record_id: RecordId,
    ) -> (r: Result<Settlement, Error>)
        requires
            old(self).wf(),
        ensures
            final(self).wf(),
            match r {
                Ok(s) => {
                    &&& old(self)@.release_error(caller, *agreement).is_none()
                    &&& s.transfers@ == seq![
                        Transfer {
                            from: old(self)@.custody,
                            to: old(self)@.escrows[agreement.id].tenant,
                            amount: old(self)@.escrows[agreement.id].security_deposit_held,
                        },
                    ]
                    &&& s.notices@ == Seq::<LedgerNotice>::empty()
                    &&& final(self)@ == old(self)@.released(agreement.id, now, record_id)
                },
                Err(e) => {
                    &&& old(self)@.release_error(caller, *agreement) == Some(e)
                    &&& final(self)@ == old(self)@
                },
            },
    {
        self.check_not_paused()?;
        if self.agreement_contract.is_none() {
            return Err(Error::Unauthorized);
        }
        if !caller.same(&agreement.tenant) && !caller.same(&agreement.landlord) {
            return Err(Error::Unauthorized);
        }
        match agreement.status {
            AgreementStatus::Completed => {},
            _ => {
                return Err(Error::AgreementNotCompleted);
            },
        }
        let mut escrow = self.get_escrow(agreement.id)?;
        if escrow.is_deposit_released {
            return Err(Error::DepositAlreadyReleased);
        }
        if escrow.security_deposit_held <= 0 {
            return Err(Error::DepositNotPaid);
        }
        if self.xlm_token.is_none() {
            return Err(Error::Unauthorized);
        }
        let amount = escrow.security_deposit_held;
        let mut transfers: Vec<Transfer> = Vec::new();
        transfers.push(Transfer { from: self.custody, to: escrow.tenant, amount });

        escrow.security_deposit_held = 0;
        escrow.is_deposit_released = true;
        escrow.deposit_released_at = now;
        self.escrows.insert(agreement.id, escrow);

        self.append_payment(
            PaymentRecord {
                id: record_id,
                agreement_id: agreement.id,
                payer: self.custody,
                payee: escrow.tenant,
                amount,
                payment_type: PaymentType::DepositRelease,
                timestamp: now,
            },
        );
        self.events.push(
            Event::DepositReleasedToTenant {
                agreement_id: agreement.id,
                tenant: escrow.tenant,
                amount,
            },
        );
        proof {
            assert(transfers@ =~= seq![
                Transfer {
                    from: old(self)@.custody,
                    to: old(self)@.escrows[agreement.id].tenant,
                    amount: old(self)@.escrows[agreement.id].security_deposit_held,
                },
            ]);
        }
        Ok(Settlement { transfers, notices: Vec::new() })
    }

    /// Reserved for settling disputes in the landlord's favour. It does
    /// nothing.
    pub fn release_deposit_to_landlord(&mut self, agreement_id: RecordId, amount: i128)
        ensures
            *final(self) == *old(self),
    {
    }

    /// The books of `agreement_id`.
    pub fn get_escrow(&self, agreement_id: RecordId) -> (r: Result<EscrowAccount, Error>)
        requires
            self.wf(),
        ensures
            r == match self@.account(agreement_id) {
                Some(e) => Ok::<EscrowAccount, Error>(e),
                None => Err(Error::AgreementNotFound),
            },
    {
        match self.escrows.get(&agreement_id) {
            Some(e) => Ok(*e),
            None => Err(Error::AgreementNotFound),
        }
    }

    /// The payments logged for `agreement_id`, oldest first. Fails where the
    /// engine keeps no books for that agreement.
    pub fn get_payment_history(&self, agreement_id: RecordId) -> (r: Result<
        Vec<PaymentRecord>,
        Error,
    >)
        requires
            self.wf(),
        ensures
            match r {
                Ok(v) => self@.escrows.dom().contains(agreement_id) && v@ == filed_under(
                    self@.payments,
                    agreement_id,
                ),
                Err(e) => !self@.escrows.dom().contains(agreement_id) && e
                    == Error::AgreementNotFound,
            },
    {
        if !self.escrows.contains(&agreement_id) {
            return Err(Error::AgreementNotFound);
        }
        Ok(self.payments.list(&agreement_id))
    }

    /// The administrator's way out: moves whatever deposit is held for
    /// `agreement_id` to `to` and marks it released. Where nothing is held it
    /// does nothing. `caller` must be the administrator.
    pub fn emergency_withdraw(
        &mut self,
        caller: Address,
        agreement_id: RecordId,
        to: Address,
        now: u64,
        record_id: RecordId,
    ) -> (r: Result<Settlement, Error>)
        requires
            old(self).wf(),
        ensures
            final(self).wf(),
            match r {
                Ok(s) => {
                    &&& old(self)@.withdrawal_error(caller, agreement_id).is_none()
                    &&& s.notices@ == Seq::<LedgerNotice>::empty()
                    &&& if old(self)@.escrows[agreement_id].security_deposit_held <= 0 {
                        &&& s.transfers@ == Seq::<Transfer>::empty()
                        &&& final(self)@ == old(self)@
                    } else {
                        &&& s.transfers@ == seq![
                            Transfer {
                                from: old(self)@.custody,
                                to,
                                amount: old(self)@.escrows[agreement_id].security_deposit_held,
                            },
                        ]
                        &&& final(self)@ == old(self)@.withdrawn(
                            caller,
                            agreement_id,
                            to,
                            now,
                            record_id,
                        )
                    }
                },
                Err(e) => {
                    &&& old(self)@.withdrawal_error(caller, agreement_id) == Some(e)
                    &&& final(self)@ == old(self)@
                },
            },
    {
        self.check_not_paused()?;
        let admin = self.require_admin()?;
        if !admin.same(&caller) {
            return Err(Error::Unauthorized);
        }
        let mut escrow = self.get_escrow(agreement_id)?;
        let amount = escrow.security_deposit_held;
        if amount <= 0 {
            return Ok(Settlement { transfers: Vec::new(), notices: Vec::new() });
        }
        if self.xlm_token.is_none() {
            return Err(Error::Unauthorized);
        }
        let mut transfers: Vec<Transfer> = Vec::new();
        transfers.push(Transfer { from: self.custody, to, amount });

        escrow.security_deposit_held = 0;
        escrow.is_deposit_released = true;
        escrow.deposit_released_at = now;
        self.escrows.insert(agreement_id, escrow);

        self.append_payment(
            PaymentRecord {
                id: record_id,
                agreement_id,
                payer: self.custody,
                payee: to,
                amount,
                payment_type: PaymentType::EmergencyWithdrawal,
                timestamp: now,
            },
        );
        self.events.push(Event::EmergencyWithdrawal { agreement_id, to, amount, admin });
        proof {
            assert(transfers@ =~= seq![
                Transfer {
                    from: old(self)@.custody,
                    to,
                    amount: old(self)@.escrows[agreement_id].security_deposit_held,
                },
            ]);
        }
        Ok(Settlement { transfers, notices: Vec::new() })
    }

    /// Hands over the events that wait to be published, oldest first, and
    /// keeps none.
    pub fn take_events(&mut self) -> (events: Vec<Event>)
        requires
            old(self).wf(),
        ensures
            final(self).wf(),
            events@ == old(self)@.events,
            final(self)@ == (EscrowView { events: Seq::empty(), ..old(self)@ }),
    {
        let mut events: Vec<Event> = Vec::new();
        core::mem::swap(&mut events, &mut self.events);
        events
    }

    /// Whether the engine is paused.
    pub fn is_paused(&self) -> (p: bool)
        ensures
            p == self@.paused,
    {
        self.paused
    }

    /// The engine's own address.
    pub fn custody(&self) -> (a: Address)
        ensures
            a == self@.custody,
    {
        self.custody
    }

    /// The address of the agreement ledger, once the engine is initialized.
    pub fn agreement_contract(&self) -> (r: Option<Address>)
        ensures
            r == self@.agreement_contract,
    {
        self.agreement_contract
    }

    /// The address of the settlement asset, once the engine is initialized.
    pub fn xlm_token(&self) -> (r: Option<Address>)
        ensures
            r == self@.xlm_token,
    {
        self.xlm_token
    }

    /// Fails while the engine is paused.
    pub fn check_not_paused(&self) -> (r: Result<(), Error>)
        ensures
            r == if self@.paused {
                Err::<(), Error>(Error::ContractPaused)
            } else {
                Ok(())
            },
    {
        if self.paused {
            Err(Error::ContractPaused)
        } else {
            Ok(())
        }
    }

    /// The administrator, once there is one.
    pub fn require_admin(&self) -> (r: Result<Address, Error>)
        ensures
            r == match self@.admin {
                Some(a) => Ok::<Address, Error>(a),
                None => Err(Error::Unauthorized),
            },
    {
        match self.admin {
            Some(a) => Ok(a),
            None => Err(Error::Unauthorized),
        }
    }

    /// Appends `rec` to the log of its agreement.
    fn append_payment(&mut self, rec: PaymentRecord)
        requires
            old(self).wf(),
        ensures
            final(self).wf(),
            final(self)@ == old(self)@.logged(rec),
    {
        self.payments.append(rec.agreement_id, rec);
    }
}

/// Everything the engine holds, as plain values: what is written down to
/// keep an engine, and read back to go on with it.
pub struct EscrowParts {
    pub admin: Option<Address>,
    pub paused: bool,
    pub agreement_contract: Option<Address>,
    pub xlm_token: Option<Address>,
    pub custody: Address,
    /// The agreements for which books are kept.
    pub escrow_ids: Vec<RecordId>,
    /// The books of each agreement, at the same place.
    pub escrows: Vec<EscrowAccount>,
    pub payments: Vec<(RecordId, PaymentRecord)>,
    /// The events that wait to be published, oldest first.
    pub events: Vec<Event>,
}

impl View for EscrowParts {
    type V = EscrowView;

    open spec fn view(&self) -> EscrowView {
        EscrowView {
            admin: self.admin,
            paused: self.paused,
            agreement_contract: self.agreement_contract,
            xlm_token: self.xlm_token,
            custody: self.custody,
            escrows: paired(self.escrow_ids@, self.escrows@),
            payments: self.payments@,
            events: self.events@,
        }
    }
}

impl EscrowParts {
    /// Whether these parts make up an engine: one set of books for each
    /// agreement, and no agreement twice.
    pub open spec fn valid(&self) -> bool {
        pairable(self.escrow_ids@, self.escrows@)
    }
}

impl EscrowManager {
    /// The engine that `parts` make up, where they make up one.
    pub fn from_parts(parts: EscrowParts) -> (r: Option<Self>)
        ensures
            r.is_some() == parts.valid(),
            match r {
                Some(m) => m.wf() && m@ == parts@,
                None => true,
            },
    {
        let escrows = match Table::from_parts(parts.escrow_ids, parts.escrows) {
            Some(t) => t,
            None => {
                return None;
            },
        };
        Some(
            EscrowManager {
                admin: parts.admin,
                paused: parts.paused,
                agreement_contract: parts.agreement_contract,
                xlm_token: parts.xlm_token,
                custody: parts.custody,
                escrows,
                payments: Journal::from_entries(parts.payments),
                events: parts.events,
            },
        )
    }

    /// Everything the engine holds, as plain values.
    pub fn into_parts(self) -> (parts: EscrowParts)
        requires
            self.wf(),
        ensures
            parts.valid(),
            parts@ == self@,
    {
        let (escrow_ids, escrows) = self.escrows.into_parts();
        EscrowParts {
            admin: self.admin,
            paused: self.paused,
            agreement_contract: self.agreement_contract,
            xlm_token: self.xlm_token,
            custody: self.custody,
            escrow_ids,
            escrows,
            payments: self.payments.into_entries(),
            events: self.events,
        }
    }
}

/// Funding an agreement for which the engine keeps no books yet, followed by
/// the delivery of its two notices to a running ledger that listens to this
/// engine: the engine then holds exactly the security deposit, the agreement
/// is active with its deposit marked paid, and the transfers leave the
/// landlord richer by exactly the monthly rent. The landlord is taken to be
/// neither the tenant nor the engine itself.
pub proof fn funding_activates_agreement(
    engine: EscrowView,
    ledger: LedgerView,
    agreement_id: RecordId,
    now: u64,
    deposit_record_id: RecordId,
    rent_record_id: RecordId,
)
    requires
        ledger.agreements.dom().contains(agreement_id),
        ledger.agreements[agreement_id].id == agreement_id,
        engine.funding_error(
            ledger.agreements[agreement_id].tenant,
            ledger.agreements[agreement_id],
        ).is_none(),
        !engine.escrows.dom().contains(agreement_id),
        !ledger.paused,
        ledger.is_escrow(engine.custody),
        ledger.agreements[agreement_id].landlord != ledger.agreements[agreement_id].tenant,
        ledger.agreements[agreement_id].landlord != engine.custody,
    ensures
        ({
            let agreement = ledger.agreements[agreement_id];
            let funded = engine.funded(agreement, now, deposit_record_id, rent_record_id);
            let marked = ledger.mark_deposit_paid(engine.custody, agreement_id, now);
            let recorded = marked.1.record_rent_payment(
                engine.custody,
                agreement_id,
                agreement.monthly_rent,
            );
            &&& funded.escrows[agreement_id].security_deposit_held == agreement.security_deposit
            &&& !funded.escrows[agreement_id].is_deposit_released
            &&& marked.0.is_ok()
            &&& recorded.0.is_ok()
            &&& recorded.1.agreements[agreement_id].status == AgreementStatus::Active
            &&& recorded.1.agreements[agreement_id].deposit_paid
            &&& recorded.1.agreements[agreement_id].total_rent_paid == saturating_sum(
                agreement.total_rent_paid,
                agreement.monthly_rent,
            )
            &&& net_inflow(engine.funding_transfers(agreement), agreement.landlord)
                == agreement.monthly_rent
        }),
{
    let agreement = ledger.agreements[agreement_id];
    let transfers = engine.funding_transfers(agreement);
    assert(transfers.drop_last() =~= seq![transfers[0]]);
    assert(transfers.drop_last().drop_last() =~= Seq::<Transfer>::empty());
    assert(net_inflow(transfers.drop_last().drop_last(), agreement.landlord) == 0);
    assert(net_inflow(transfers.drop_last(), agreement.landlord) == 0);
}

/// A deposit is released once: after a release that went through, a further
/// attempt on the same agreement by either party is refused as already
/// released, whatever the time.
pub proof fn second_release_refused(
    engine: EscrowView,
    caller: Address,
    again: Address,
    agreement: RentalAgreement,
    now: u64,
    record_id: RecordId,
)
    requires
        engine.release_error(caller, agreement).is_none(),
        agreement.is_party(again),
    ensures
        engine.released(agreement.id, now, record_id).release_error(again, agreement) == Some(
            Error::DepositAlreadyReleased,
        ),
{
}

/// Once the deposit of an agreement is marked released, no funding, rent
/// payment, release or withdrawal unmarks it.
pub proof fn released_stays_released(
    engine: EscrowView,
    agreement: RentalAgreement,
    payee: Address,
    payment_type: PaymentType,
    now: u64,
    first_record_id: RecordId,
    second_record_id: RecordId,
)
    requires
        engine.escrows.dom().contains(agreement.id),
        engine.escrows[agreement.id].is_deposit_released,
    ensures
        engine.funded(agreement, now, first_record_id, second_record_id).escrows[agreement.id]
            .is_deposit_released,
        engine.rent_paid(agreement, now, first_record_id).escrows[agreement.id]
            .is_deposit_released,
        engine.paid_out(agreement.id, payee, payment_type, now, first_record_id)
            .escrows[agreement.id].is_deposit_released,
{
}

/// While the engine is paused, every operation that would change it is
/// refused for that reason.
pub proof fn pause_blocks_changes(
    engine: EscrowView,
    caller: Address,
    agreement: RentalAgreement,
)
    requires
        engine.paused,
    ensures
        engine.funding_error(caller, agreement) == Some(Error::ContractPaused),
        engine.rent_error(caller, agreement) == Some(Error::ContractPaused),
        engine.release_error(caller, agreement) == Some(Error::ContractPaused),
        engine.withdrawal_error(caller, agreement.id) == Some(Error::ContractPaused),
{
}

/// The engine never holds a negative deposit for an agreement whose deposit
/// is not negative: where the books of an agreement hold no negative amount,
/// they hold none after a funding, a rent payment, a release or a
/// withdrawal.
pub proof fn held_deposit_stays_non_negative(
    engine: EscrowView,
    admin: Address,
    agreement: RentalAgreement,
    to: Address,
    now: u64,
    first_record_id: RecordId,
    second_record_id: RecordId,
)
    requires
        agreement.security_deposit >= 0,
        engine.escrows.dom().contains(agreement.id)
            ==> engine.escrows[agreement.id].security_deposit_held >= 0,
    ensures
        engine.funded(agreement, now, first_record_id, second_record_id).escrows[agreement.id]
            .security_deposit_held >= 0,
        engine.escrows.dom().contains(agreement.id) ==> {
            &&& engine.rent_paid(agreement, now, first_record_id).escrows[agreement.id]
                .security_deposit_held >= 0
            &&& engine.released(agreement.id, now, first_record_id).escrows[agreement.id]
                .security_deposit_held == 0
            &&& engine.withdrawn(admin, agreement.id, to, now, first_record_id)
                .escrows[agreement.id].security_deposit_held == 0
        },
{
}

/// Rent never stays in custody: what a funding or a rent payment adds to the
/// rent received it adds to the rent released.
pub proof fn rent_is_released_as_it_is_received(
    engine: EscrowView,
    agreement: RentalAgreement,
    now: u64,
    first_record_id: RecordId,
    second_record_id: RecordId,
)
    requires
        engine.escrows.dom().contains(agreement.id)
            ==> engine.escrows[agreement.id].total_rent_released
            == engine.escrows[agreement.id].total_rent_received,
    ensures
        ({
            let funded = engine.funded(agreement, now, first_record_id, second_record_id)
                .escrows[agreement.id];
            funded.total_rent_released == funded.total_rent_received
        }),
        engine.escrows.dom().contains(agreement.id) ==> {
            let paid = engine.rent_paid(agreement, now, first_record_id).escrows[agreement.id];
            paid.total_rent_released == paid.total_rent_received
        },
{
}

} // verus!
