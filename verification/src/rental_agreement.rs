//! The agreement ledger: the life of a rental agreement from draft through
//! both signatures, payment, occupancy and completion, or cancellation.

use vstd::prelude::*;
use crate::property_registry::Property;
use crate::table::filed_under;
use crate::table::pairable;
use crate::table::paired;
use crate::table::Journal;
use crate::table::Table;
use crate::types::saturating_add;
use crate::types::saturating_sum;
use crate::types::Address;
use crate::types::Ident;
use crate::types::RecordId;

verus! {

/// The number of seconds in a day.
pub const SECONDS_PER_DAY: u64 = 86400;

/// Why the ledger refused an operation.
#[derive(Clone, Copy, Debug, PartialEq, Eq, Structural)]
pub enum Error {
    ContractPaused,
    Unauthorized,
    AlreadyInitialized,
    PropertyNotFoundOrInactive,
    PropertyNotAvailable,
    InvalidDates,
    DurationBelowMinimum,
    DurationAboveMaximum,
    AgreementNotFound,
    NotAgreementParty,
    AlreadySigned,
    InvalidState,
}

impl Error {
    /// The number under which this error is reported.
    pub open spec fn spec_code(self) -> u32 {
        match self {
            Error::ContractPaused => 1,
            Error::Unauthorized => 2,
            Error::AlreadyInitialized => 3,
            Error::PropertyNotFoundOrInactive => 200,
            Error::PropertyNotAvailable => 201,
            Error::InvalidDates => 202,
            Error::DurationBelowMinimum => 203,
            Error::DurationAboveMaximum => 204,
            Error::AgreementNotFound => 205,
            Error::NotAgreementParty => 206,
            Error::AlreadySigned => 207,
            Error::InvalidState => 208,
        }
    }

    /// The number under which this error is reported.
    pub fn code(&self) -> (c: u32)
        ensures
            c == self.spec_code(),
    {
        match self {
            Error::ContractPaused => 1,
            Error::Unauthorized => 2,
            Error::AlreadyInitialized => 3,
            Error::PropertyNotFoundOrInactive => 200,
            Error::PropertyNotAvailable => 201,
            Error::InvalidDates => 202,
            Error::DurationBelowMinimum => 203,
            Error::DurationAboveMaximum => 204,
            Error::AgreementNotFound => 205,
            Error::NotAgreementParty => 206,
            Error::AlreadySigned => 207,
            Error::InvalidState => 208,
        }
    }
}

/// Where an agreement stands in its life.
#[derive(Clone, Copy, Debug, PartialEq, Eq, Structural)]
pub enum AgreementStatus {
    Draft,
    PendingTenantSign,
    PendingLandlordSign,
    PendingPayment,
    Active,
    Completed,
    Cancelled,
}

/// One rental agreement: a property, its landlord and tenant, the money terms
/// fixed at creation, the term, and how far signing and payment have come.
#[derive(Clone, Copy, Debug, PartialEq, Eq, Structural)]
pub struct RentalAgreement {
    pub id: RecordId,
    pub property_id: RecordId,
    pub landlord: Address,
    pub tenant: Address,
    pub monthly_rent: i128,
    pub security_deposit: i128,
    pub start_date: u64,
    pub end_date: u64,
    pub status: AgreementStatus,
    pub landlord_signed: bool,
    pub landlord_signed_at: u64,
    pub tenant_signed: bool,
    pub tenant_signed_at: u64,
    pub deposit_paid: bool,
    pub deposit_paid_at: u64,
    pub total_rent_paid: i128,
    pub months_paid: u32,
    pub created_at: u64,
    pub completed_at: u64,
}

/// The party that gave a signature.
#[derive(Clone, Copy, Debug, PartialEq, Eq, Structural)]
pub enum SignerRole {
    Tenant,
    Landlord,
}

/// What the ledger lets the outside know of a change.
#[derive(Clone, Copy, Debug, PartialEq, Eq, Structural)]
pub enum Event {
    Initialized { admin: Address, property_registry: Address, timestamp: u64 },
    Paused { timestamp: u64 },
    Unpaused { timestamp: u64 },
    EscrowContractSet { escrow: Address, timestamp: u64 },
    AgreementCreated {
        agreement_id: RecordId,
        property_id: RecordId,
        landlord: Address,
        tenant: Address,
        monthly_rent: i128,
        security_deposit: i128,
    },
    AgreementSigned { agreement_id: RecordId, signer: Address, role: SignerRole },
    AgreementActivated { agreement_id: RecordId, deposit_paid_at: u64 },
    RentPaymentRecorded { agreement_id: RecordId, amount: i128, months_paid: u32 },
    AgreementCompleted { agreement_id: RecordId, completed_at: u64 },
    AgreementCancelled { agreement_id: RecordId, timestamp: u64 },
}

/// The status that a pair of signature flags stands for.
pub open spec fn signed_status(tenant_signed: bool, landlord_signed: bool) -> AgreementStatus {
    if tenant_signed && landlord_signed {
        AgreementStatus::PendingPayment
    } else if tenant_signed {
        AgreementStatus::PendingLandlordSign
    } else if landlord_signed {
        AgreementStatus::PendingTenantSign
    } else {
        AgreementStatus::Draft
    }
}

/// The whole days between two timestamps, the later one second.
pub open spec fn whole_days(start_date: u64, end_date: u64) -> int {
    (end_date - start_date) / 86400
}

/// Why a term is refused for a property with the given stay limits, if it is.
pub open spec fn term_error(start_date: u64, end_date: u64, min_days: u32, max_days: u32) -> Option<
    Error,
> {
    if end_date <= start_date {
        Some(Error::InvalidDates)
    } else if whole_days(start_date, end_date) < min_days {
        Some(Error::DurationBelowMinimum)
    } else if whole_days(start_date, end_date) > max_days {
        Some(Error::DurationAboveMaximum)
    } else {
        None
    }
}

impl RentalAgreement {
    /// This agreement once the tenant has signed at `now`.
    pub open spec fn tenant_signed_at_time(self, now: u64) -> RentalAgreement {
        RentalAgreement {
            tenant_signed: true,
            tenant_signed_at: now,
            status: signed_status(true, self.landlord_signed),
            ..self
        }
    }

    /// This agreement once the landlord has signed at `now`.
    pub open spec fn landlord_signed_at_time(self, now: u64) -> RentalAgreement {
        RentalAgreement {
            landlord_signed: true,
            landlord_signed_at: now,
            status: signed_status(self.tenant_signed, true),
            ..self
        }
    }

    /// This agreement once its deposit has been paid at `now`.
    pub open spec fn activated(self, now: u64) -> RentalAgreement {
        RentalAgreement {
            deposit_paid: true,
            deposit_paid_at: now,
            status: AgreementStatus::Active,
            ..self
        }
    }

    /// This agreement with one more rent period of `amount` on record.
    pub open spec fn with_rent(self, amount: i128) -> RentalAgreement {
        RentalAgreement {
            total_rent_paid: saturating_sum(self.total_rent_paid, amount),
            months_paid: if self.months_paid == u32::MAX {
                u32::MAX
            } else {
                (self.months_paid + 1) as u32
            },
            ..self
        }
    }

    /// This agreement once it has been completed at `now`.
    pub open spec fn completed(self, now: u64) -> RentalAgreement {
        RentalAgreement { status: AgreementStatus::Completed, completed_at: now, ..self }
    }

    /// This agreement once it has been cancelled.
    pub open spec fn cancelled(self) -> RentalAgreement {
        RentalAgreement { status: AgreementStatus::Cancelled, ..self }
    }

    /// Whether `who` is the tenant or the landlord.
    pub open spec fn is_party(self, who: Address) -> bool {
        who == self.tenant || who == self.landlord
    }

    /// Whether the agreement can still be cancelled: it awaits a signature or
    /// the payment, and no deposit has been paid.
    pub open spec fn cancellable(self) -> bool {
        &&& !self.deposit_paid
        &&& (self.status == AgreementStatus::Draft || self.status
            == AgreementStatus::PendingTenantSign || self.status
            == AgreementStatus::PendingLandlordSign || self.status
            == AgreementStatus::PendingPayment)
    }

    /// A fresh draft on the money terms of `property`.
    pub open spec fn draft(
        id: RecordId,
        property_id: RecordId,
        property: &Property,
        landlord: Address,
        tenant: Address,
        start_date: u64,
        end_date: u64,
        now: u64,
    ) -> RentalAgreement {
        RentalAgreement {
            id,
            property_id,
            landlord,
            tenant,
            monthly_rent: property.price_per_month,
            security_deposit: property.security_deposit,
            start_date,
            end_date,
            status: AgreementStatus::Draft,
            landlord_signed: false,
            landlord_signed_at: 0,
            tenant_signed: false,
            tenant_signed_at: 0,
            deposit_paid: false,
            deposit_paid_at: 0,
            total_rent_paid: 0,
            months_paid: 0,
            created_at: now,
            completed_at: 0,
        }
    }
}

/// The agreements that `ids` name, in that order, leaving out any that the
/// map does not hold.
pub open spec fn hydrated(agreements: Map<RecordId, RentalAgreement>, ids: Seq<RecordId>) -> Seq<
    RentalAgreement,
>
    decreases ids.len(),
{
    if ids.len() == 0 {
        Seq::empty()
    } else {
        let earlier = hydrated(agreements, ids.drop_last());
        if agreements.dom().contains(ids.last()) {
            earlier.push(agreements[ids.last()])
        } else {
            earlier
        }
    }
}

/// What the ledger holds, as mathematical values.
pub struct LedgerView {
    pub admin: Option<Address>,
    pub paused: bool,
    pub property_registry: Option<Address>,
    pub escrow_contract: Option<Address>,
    pub agreements: Map<RecordId, RentalAgreement>,
    pub agreement_list: Seq<RecordId>,
    pub by_tenant: Seq<(Address, RecordId)>,
    pub by_landlord: Seq<(Address, RecordId)>,
    pub by_property: Seq<(RecordId, RecordId)>,
    /// The events that wait to be published, oldest first.
    pub events: Seq<Event>,
}

impl LedgerView {
    /// Whether `caller` is the administrator.
    pub open spec fn is_admin(self, caller: Address) -> bool {
        self.admin == Some(caller)
    }

    /// Whether `caller` is the escrow component that the ledger listens to.
    pub open spec fn is_escrow(self, caller: Address) -> bool {
        self.escrow_contract == Some(caller)
    }

    /// This ledger with one more event waiting to be published.
    pub open spec fn emitted(self, event: Event) -> LedgerView {
        LedgerView { events: self.events.push(event), ..self }
    }

    /// This ledger with `agreement` stored under `agreement_id`.
    pub open spec fn updated(
        self,
        agreement_id: RecordId,
        agreement: RentalAgreement,
    ) -> LedgerView {
        LedgerView { agreements: self.agreements.insert(agreement_id, agreement), ..self }
    }

    /// This ledger with `agreement` filed under its id in every index.
    pub open spec fn indexed(self, agreement: RentalAgreement) -> LedgerView {
        LedgerView {
            agreement_list: self.agreement_list.push(agreement.id),
            by_tenant: self.by_tenant.push((agreement.tenant, agreement.id)),
            by_landlord: self.by_landlord.push((agreement.landlord, agreement.id)),
            by_property: self.by_property.push((agreement.property_id, agreement.id)),
            ..self
        }
    }

    /// What naming the administrator and the catalog gives.
    pub open spec fn initialize(self, admin: Address, property_registry: Address, now: u64) -> (
        Result<(), Error>,
        LedgerView,
    ) {
        if self.admin.is_some() {
            (Err(Error::AlreadyInitialized), self)
        } else {
            (
                Ok(()),
                LedgerView {
                    admin: Some(admin),
                    paused: false,
                    property_registry: Some(property_registry),
                    ..self
                }.emitted(Event::Initialized { admin, property_registry, timestamp: now }),
            )
        }
    }

    /// What pausing, or taking the pause back, gives.
    pub open spec fn set_paused(self, caller: Address, paused: bool, now: u64) -> (
        Result<(), Error>,
        LedgerView,
    ) {
        if !self.is_admin(caller) {
            (Err(Error::Unauthorized), self)
        } else {
            (
                Ok(()),
                LedgerView { paused, ..self }.emitted(
                    if paused {
                        Event::Paused { timestamp: now }
                    } else {
                        Event::Unpaused { timestamp: now }
                    },
                ),
            )
        }
    }

    /// What naming the escrow component gives.
    pub open spec fn set_escrow_contract(self, caller: Address, escrow: Address, now: u64) -> (
        Result<(), Error>,
        LedgerView,
    ) {
        if self.paused {
            (Err(Error::ContractPaused), self)
        } else if !self.is_admin(caller) {
            (Err(Error::Unauthorized), self)
        } else {
            (
                Ok(()),
                LedgerView { escrow_contract: Some(escrow), ..self }.emitted(
                    Event::EscrowContractSet { escrow, timestamp: now },
                ),
            )
        }
    }

    /// Why creation is refused, if it is.
    pub open spec fn create_agreement_error(
        self,
        landlord: Address,
        property: Option<&Property>,
        start_date: u64,
        end_date: u64,
    ) -> Option<Error> {
        if self.paused {
            Some(Error::ContractPaused)
        } else if self.property_registry.is_none() {
            Some(Error::Unauthorized)
        } else if property.is_none() {
            Some(Error::PropertyNotFoundOrInactive)
        } else if !property.unwrap().is_active {
            Some(Error::PropertyNotFoundOrInactive)
        } else if !property.unwrap().is_available {
            Some(Error::PropertyNotAvailable)
        } else if property.unwrap().owner != landlord {
            Some(Error::Unauthorized)
        } else {
            term_error(
                start_date,
                end_date,
                property.unwrap().min_stay_days,
                property.unwrap().max_stay_days,
            )
        }
    }

    /// What creating an agreement gives.
    pub open spec fn create_agreement(
        self,
        landlord: Address,
        property_id: RecordId,
        property: Option<&Property>,
        tenant: Address,
        start_date: u64,
        end_date: u64,
        now: u64,
        id: RecordId,
    ) -> (Result<RecordId, Error>, LedgerView) {
        match self.create_agreement_error(landlord, property, start_date, end_date) {
            Some(e) => (Err(e), self),
            None => {
                let agreement = RentalAgreement::draft(
                    id,
                    property_id,
                    property.unwrap(),
                    landlord,
                    tenant,
                    start_date,
                    end_date,
                    now,
                );
                (
                    Ok(id),
                    self.updated(id, agreement).indexed(agreement).emitted(
                        Event::AgreementCreated {
                            agreement_id: id,
                            property_id,
                            landlord,
                            tenant,
                            monthly_rent: agreement.monthly_rent,
                            security_deposit: agreement.security_deposit,
                        },
                    ),
                )
            },
        }
    }

    /// What the tenant's signature gives.
    pub open spec fn tenant_sign(self, tenant: Address, agreement_id: RecordId, now: u64) -> (
        Result<(), Error>,
        LedgerView,
    ) {
        if self.paused {
            (Err(Error::ContractPaused), self)
        } else if !self.agreements.dom().contains(agreement_id) {
            (Err(Error::AgreementNotFound), self)
        } else if tenant != self.agreements[agreement_id].tenant {
            (Err(Error::NotAgreementParty), self)
        } else if self.agreements[agreement_id].tenant_signed {
            (Err(Error::AlreadySigned), self)
        } else {
            (
                Ok(()),
                self.updated(
                    agreement_id,
                    self.agreements[agreement_id].tenant_signed_at_time(now),
                ).emitted(
                    Event::AgreementSigned {
                        agreement_id,
                        signer: tenant,
                        role: SignerRole::Tenant,
                    },
                ),
            )
        }
    }

    /// What the landlord's signature gives.
    pub open spec fn landlord_sign(self, landlord: Address, agreement_id: RecordId, now: u64) -> (
        Result<(), Error>,
        LedgerView,
    ) {
        if self.paused {
            (Err(Error::ContractPaused), self)
        } else if !self.agreements.dom().contains(agreement_id) {
            (Err(Error::AgreementNotFound), self)
        } else if landlord != self.agreements[agreement_id].landlord {
            (Err(Error::NotAgreementParty), self)
        } else if self.agreements[agreement_id].landlord_signed {
            (Err(Error::AlreadySigned), self)
        } else {
            (
                Ok(()),
                self.updated(
                    agreement_id,
                    self.agreements[agreement_id].landlord_signed_at_time(now),
                ).emitted(
                    Event::AgreementSigned {
                        agreement_id,
                        signer: landlord,
                        role: SignerRole::Landlord,
                    },
                ),
            )
        }
    }

    /// What the notice of the paid deposit gives: nothing new where the
    /// deposit is already marked paid, else the activation of an agreement
    /// that awaits its payment.
    pub open spec fn mark_deposit_paid(self, caller: Address, agreement_id: RecordId, now: u64) -> (
        Result<(), Error>,
        LedgerView,
    ) {
        if self.paused {
            (Err(Error::ContractPaused), self)
        } else if !self.is_escrow(caller) {
            (Err(Error::Unauthorized), self)
        } else if !self.agreements.dom().contains(agreement_id) {
            (Err(Error::AgreementNotFound), self)
        } else if self.agreements[agreement_id].deposit_paid {
            (Ok(()), self)
        } else if self.agreements[agreement_id].status != AgreementStatus::PendingPayment {
            (Err(Error::InvalidState), self)
        } else {
            (
                Ok(()),
                self.updated(agreement_id, self.agreements[agreement_id].activated(now)).emitted(
                    Event::AgreementActivated { agreement_id, deposit_paid_at: now },
                ),
            )
        }
    }

    /// What the notice of one paid rent gives.
    pub open spec fn record_rent_payment(
        self,
        caller: Address,
        agreement_id: RecordId,
        amount: i128,
    ) -> (Result<(), Error>, LedgerView) {
        if self.paused {
            (Err(Error::ContractPaused), self)
        } else if !self.is_escrow(caller) {
            (Err(Error::Unauthorized), self)
        } else if !self.agreements.dom().contains(agreement_id) {
            (Err(Error::AgreementNotFound), self)
        } else if self.agreements[agreement_id].status != AgreementStatus::Active {
            (Err(Error::InvalidState), self)
        } else {
            (
                Ok(()),
                self.updated(agreement_id, self.agreements[agreement_id].with_rent(amount)).emitted(
                    Event::RentPaymentRecorded {
                        agreement_id,
                        amount,
                        months_paid: self.agreements[agreement_id].with_rent(amount).months_paid,
                    },
                ),
            )
        }
    }

    /// What completing an agreement gives.
    pub open spec fn complete_agreement(
        self,
        caller: Address,
        agreement_id: RecordId,
        now: u64,
    ) -> (
        Result<(), Error>,
        LedgerView,
    ) {
        if self.paused {
            (Err(Error::ContractPaused), self)
        } else if !self.agreements.dom().contains(agreement_id) {
            (Err(Error::AgreementNotFound), self)
        } else if !self.agreements[agreement_id].is_party(caller) {
            (Err(Error::NotAgreementParty), self)
        } else if self.agreements[agreement_id].status != AgreementStatus::Active {
            (Err(Error::InvalidState), self)
        } else if now < self.agreements[agreement_id].end_date {
            (Err(Error::InvalidDates), self)
        } else {
            (
                Ok(()),
                self.updated(agreement_id, self.agreements[agreement_id].completed(now)).emitted(
                    Event::AgreementCompleted { agreement_id, completed_at: now },
                ),
            )
        }
    }

    /// What cancelling an agreement gives.
    pub open spec fn cancel_agreement(self, caller: Address, agreement_id: RecordId, now: u64) -> (
        Result<(), Error>,
        LedgerView,
    ) {
        if self.paused {
            (Err(Error::ContractPaused), self)
        } else if !self.agreements.dom().contains(agreement_id) {
            (Err(Error::AgreementNotFound), self)
        } else if !self.agreements[agreement_id].is_party(caller) {
            (Err(Error::NotAgreementParty), self)
        } else if !self.agreements[agreement_id].cancellable() {
            (Err(Error::InvalidState), self)
        } else {
            (
                Ok(()),
                self.updated(agreement_id, self.agreements[agreement_id].cancelled()).emitted(
                    Event::AgreementCancelled { agreement_id, timestamp: now },
                ),
            )
        }
    }
}

/// The agreement ledger.
pub struct RentalAgreementContract {
    admin: Option<Address>,
    paused: bool,
    property_registry: Option<Address>,
    escrow_contract: Option<Address>,
    agreements: Table<RecordId, RentalAgreement>,
    agreement_list: Vec<RecordId>,
    by_tenant: Journal<Address, RecordId>,
    by_landlord: Journal<Address, RecordId>,
    by_property: Journal<RecordId, RecordId>,
    events: Vec<Event>,
}

impl View for RentalAgreementContract {
    type V = LedgerView;

    closed spec fn view(&self) -> LedgerView {
        LedgerView {
            admin: self.admin,
            paused: self.paused,
            property_registry: self.property_registry,
            escrow_contract: self.escrow_contract,
            agreements: self.agreements.map(),
            agreement_list: self.agreement_list@,
            by_tenant: self.by_tenant.entries(),
            by_landlord: self.by_landlord.entries(),
            by_property: self.by_property.entries(),
            events: self.events@,
        }
    }
}

/// Checks a term against a property's stay limits.
pub fn validate_dates_and_duration(
    start_date: u64,
    end_date: u64,
    min_days: u32,
    max_days: u32,
) -> (r: Result<(), Error>)
    ensures
        r == match term_error(start_date, end_date, min_days, max_days) {
            Some(e) => Err::<(), Error>(e),
            None => Ok(()),
        },
        r.is_ok() <==> end_date > start_date && min_days <= whole_days(start_date, end_date)
            <= max_days,
{
    if end_date <= start_date {
        return Err(Error::InvalidDates);
    }
    let duration_days: u64 = (end_date - start_date) / SECONDS_PER_DAY;
    if duration_days < min_days as u64 {
        return Err(Error::DurationBelowMinimum);
    }
    if duration_days > max_days as u64 {
        return Err(Error::DurationAboveMaximum);
    }
    Ok(())
}

/// The status that follows from the two signature flags of `a`.
pub fn next_status_after_signature(a: &RentalAgreement) -> (s: AgreementStatus)
    ensures
        s == signed_status(a.tenant_signed, a.landlord_signed),
{
    match (a.tenant_signed, a.landlord_signed) {
        (true, true) => AgreementStatus::PendingPayment,
        (true, false) => AgreementStatus::PendingLandlordSign,
        (false, true) => AgreementStatus::PendingTenantSign,
        (false, false) => AgreementStatus::Draft,
    }
}

impl RentalAgreementContract {
    /// The stored table is in order.
    pub closed spec fn wf(&self) -> bool {
        self.agreements.wf()
    }

    /// A ledger that holds nothing and has no administrator yet.
    pub fn new() -> (c: Self)
        ensures
            c.wf(),
            c@ == (LedgerView {
                admin: None,
                paused: false,
                property_registry: None,
                escrow_contract: None,
                agreements: Map::empty(),
                agreement_list: Seq::empty(),
                by_tenant: Seq::empty(),
                by_landlord: Seq::empty(),
                by_property: Seq::empty(),
                events: Seq::empty(),
            }),
    {
        RentalAgreementContract {
            admin: None,
            paused: false,
            property_registry: None,
            escrow_contract: None,
            agreements: Table::new(),
            agreement_list: Vec::new(),
            by_tenant: Journal::new(),
            by_landlord: Journal::new(),
            by_property: Journal::new(),
            events: Vec::new(),
        }
    }

    /// Names the administrator and the property catalog. Works once.
    pub fn initialize(&mut self, admin: Address, property_registry: Address, now: u64) -> (r:
        Result<(), Error>)
        requires
            old(self).wf(),
        ensures
            final(self).wf(),
            (r, final(self)@) == old(self)@.initialize(admin, property_registry, now),
    {
        if self.admin.is_some() {
            return Err(Error::AlreadyInitialized);
        }
        self.admin = Some(admin);
        self.paused = false;
        self.property_registry = Some(property_registry);
        self.events.push(Event::Initialized { admin, property_registry, timestamp: now });
        Ok(())
    }

    /// Stops every state-changing operation until `unpause`. `caller` must be
    /// the administrator.
    pub fn pause(&mut self, caller: Address, now: u64) -> (r: Result<(), Error>)
        requires
            old(self).wf(),
        ensures
            final(self).wf(),
            (r, final(self)@) == old(self)@.set_paused(caller, true, now),
    {
        let admin = self.require_admin()?;
        if !admin.same(&caller) {
            return Err(Error::Unauthorized);
        }
        self.paused = true;
        self.events.push(Event::Paused { timestamp: now });
        Ok(())
    }

    /// Lets state-changing operations through again. `caller` must be the
    /// administrator.
    pub fn unpause(&mut self, caller: Address, now: u64) -> (r: Result<(), Error>)
        requires
            old(self).wf(),
        ensures
            final(self).wf(),
            (r, final(self)@) == old(self)@.set_paused(caller, false, now),
    {
        let admin = self.require_admin()?;
        if !admin.same(&caller) {
            return Err(Error::Unauthorized);
        }
        self.paused = false;
        self.events.push(Event::Unpaused { timestamp: now });
        Ok(())
    }

    /// Names the escrow component, the only caller whose payment notices the
    /// ledger honours. `caller` must be the administrator.
    pub fn set_escrow_contract(&mut self, caller: Address, escrow: Address, now: u64) -> (r:
        Result<(), Error>)
        requires
            old(self).wf(),
        ensures
            final(self).wf(),
            (r, final(self)@) == old(self)@.set_escrow_contract(caller, escrow, now),
    {
        self.check_not_paused()?;
        let admin = self.require_admin()?;
        if !admin.same(&caller) {
            return Err(Error::Unauthorized);
        }
        self.escrow_contract = Some(escrow);
        self.events.push(Event::EscrowContractSet { escrow, timestamp: now });
        Ok(())
    }

    /// Creates a draft agreement between `landlord` and `tenant` on the terms
    /// of `property`, which is what the catalog returned for `property_id`
    /// (`None` where it returned nothing). `landlord` is the authenticated
    /// caller; `id` is the fresh identifier of the agreement: an agreement
    /// that is created must not take the place of one that is stored.
    pub fn create_agreement(
        &mut self,
        landlord: Address,
        property_id: RecordId,
        property: Option<&Property>,
        tenant: Address,
        start_date: u64,
        end_date: u64,
        now: u64,
        id: RecordId,
    ) -> (r: Result<RecordId, Error>)
        requires
            old(self).wf(),
            old(self)@.create_agreement_error(landlord, property, start_date, end_date).is_none()
                ==> !old(self)@.agreements.dom().contains(id),
        ensures
            final(self).wf(),
            (r, final(self)@) == old(self)@.create_agreement(
                landlord,
                property_id,
                property,
                tenant,
                start_date,
                end_date,
                now,
                id,
            ),
            r.is_ok() <==> {
                &&& !old(self)@.paused
                &&& old(self)@.property_registry.is_some()
                &&& property.is_some()
                &&& property.unwrap().is_active
                &&& property.unwrap().is_available
                &&& property.unwrap().owner == landlord
                &&& end_date > start_date
                &&& property.unwrap().min_stay_days <= whole_days(start_date, end_date)
                    <= property.unwrap().max_stay_days
            },
    {
        self.check_not_paused()?;
        if self.property_registry.is_none() {
            return Err(Error::Unauthorized);
        }
        let property = match property {
            Some(p) => p,
            None => {
                return Err(Error::PropertyNotFoundOrInactive);
            },
        };
        if !property.is_active {
            return Err(Error::PropertyNotFoundOrInactive);
        }
        if !property.is_available {
            return Err(Error::PropertyNotAvailable);
        }
        if !property.owner.same(&landlord) {
            return Err(Error::Unauthorized);
        }
        validate_dates_and_duration(
            start_date,
            end_date,
            property.min_stay_days,
            property.max_stay_days,
        )?;
        let agreement = RentalAgreement {
            id,
            property_id,
            landlord,
            tenant,
            monthly_rent: property.price_per_month,
            security_deposit: property.security_deposit,
            start_date,
            end_date,
            status: AgreementStatus::Draft,
            landlord_signed: false,
            landlord_signed_at: 0,
            tenant_signed: false,
            tenant_signed_at: 0,
            deposit_paid: false,
            deposit_paid_at: 0,
            total_rent_paid: 0,
            months_paid: 0,
            created_at: now,
            completed_at: 0,
        };
        self.agreements.insert(id, agreement);
        self.index_agreement(&agreement);
        self.events.push(
            Event::AgreementCreated {
                agreement_id: id,
                property_id,
                landlord,
                tenant,
                monthly_rent: agreement.monthly_rent,
                security_deposit: agreement.security_deposit,
            },
        );
        Ok(id)
    }

    /// Records the tenant's signature. `tenant` is the authenticated caller.
    pub fn tenant_sign(&mut self, tenant: Address, agreement_id: RecordId, now: u64) -> (r: Result<
        (),
        Error,
    >)
        requires
            old(self).wf(),
        ensures
            final(self).wf(),
            (r, final(self)@) == old(self)@.tenant_sign(tenant, agreement_id, now),
    {
        self.check_not_paused()?;
        let mut agreement = self.get_agreement(agreement_id)?;
        if !tenant.same(&agreement.tenant) {
            return Err(Error::NotAgreementParty);
        }
        if agreement.tenant_signed {
            return Err(Error::AlreadySigned);
        }
        agreement.tenant_signed = true;
        agreement.tenant_signed_at = now;
        agreement.status = next_status_after_signature(&agreement);
        self.agreements.insert(agreement_id, agreement);
        self.events.push(
            Event::AgreementSigned { agreement_id, signer: tenant, role: SignerRole::Tenant },
        );
        Ok(())
    }

    /// Records the landlord's signature. `landlord` is the authenticated
    /// caller.
    pub fn landlord_sign(&mut self, landlord: Address, agreement_id: RecordId, now: u64) -> (r:
        Result<(), Error>)
        requires
            old(self).wf(),
        ensures
            final(self).wf(),
            (r, final(self)@) == old(self)@.landlord_sign(landlord, agreement_id, now),
    {
        self.check_not_paused()?;
        let mut agreement = self.get_agreement(agreement_id)?;
        if !landlord.same(&agreement.landlord) {
            return Err(Error::NotAgreementParty);
        }
        if agreement.landlord_signed {
            return Err(Error::AlreadySigned);
        }
        agreement.landlord_signed = true;
        agreement.landlord_signed_at = now;
        agreement.status = next_status_after_signature(&agreement);
        self.agreements.insert(agreement_id, agreement);
        self.events.push(
            Event::AgreementSigned { agreement_id, signer: landlord, role: SignerRole::Landlord },
        );
        Ok(())
    }

    /// Takes the escrow component's notice that the deposit and the first
    /// rent have arrived: the agreement becomes active. A notice for a deposit
    /// that is already marked paid succeeds and changes nothing. `caller` must
    /// be the escrow component.
    pub fn mark_deposit_paid(&mut self, caller: Address, agreement_id: RecordId, now: u64) -> (r:
        Result<(), Error>)
        requires
            old(self).wf(),
        ensures
            final(self).wf(),
            (r, final(self)@) == old(self)@.mark_deposit_paid(caller, agreement_id, now),
    {
        self.check_not_paused()?;
        self.require_escrow(caller)?;
        let mut agreement = self.get_agreement(agreement_id)?;
        if agreement.deposit_paid {
            return Ok(());
        }
        match agreement.status {
            AgreementStatus::PendingPayment => {},
            _ => {
                return Err(Error::InvalidState);
            },
        }
        agreement.deposit_paid = true;
        agreement.deposit_paid_at = now;
        agreement.status = AgreementStatus::Active;
        self.agreements.insert(agreement_id, agreement);
        self.events.push(Event::AgreementActivated { agreement_id, deposit_paid_at: now });
        Ok(())
    }

    /// Takes the escrow component's notice of one rent period paid. `caller`
    /// must be the escrow component.
    pub fn record_rent_payment(
        &mut self,
        caller: Address,
        agreement_id: RecordId,
        amount: i128,
    ) -> (r:
        Result<(), Error>)
        requires
            old(self).wf(),
        ensures
            final(self).wf(),
            (r, final(self)@) == old(self)@.record_rent_payment(caller, agreement_id, amount),
    {
        self.check_not_paused()?;
        self.require_escrow(caller)?;
        let mut agreement = self.get_agreement(agreement_id)?;
        match agreement.status {
            AgreementStatus::Active => {},
            _ => {
                return Err(Error::InvalidState);
            },
        }
        agreement.total_rent_paid = saturating_add(agreement.total_rent_paid, amount);
        agreement.months_paid = agreement.months_paid.saturating_add(1);
        self.agreements.insert(agreement_id, agreement);
        self.events.push(Event::RentPaymentRecorded {
                agreement_id,
                amount,
                months_paid: agreement.months_paid,
            });
        Ok(())
    }

    /// Closes an active agreement whose term has ended. `caller` is the
    /// authenticated caller and must be a party.
    pub fn complete_agreement(&mut self, caller: Address, agreement_id: RecordId, now: u64) -> (r:
        Result<(), Error>)
        requires
            old(self).wf(),
        ensures
            final(self).wf(),
            (r, final(self)@) == old(self)@.complete_agreement(caller, agreement_id, now),
    {
        self.check_not_paused()?;
        let mut agreement = self.get_agreement(agreement_id)?;
        if !caller.same(&agreement.tenant) && !caller.same(&agreement.landlord) {
            return Err(Error::NotAgreementParty);
        }
        match agreement.status {
            AgreementStatus::Active => {},
            _ => {
                return Err(Error::InvalidState);
            },
        }
        if now < agreement.end_date {
            return Err(Error::InvalidDates);
        }
        agreement.status = AgreementStatus::Completed;
        agreement.completed_at = now;
        self.agreements.insert(agreement_id, agreement);
        self.events.push(Event::AgreementCompleted { agreement_id, completed_at: now });
        Ok(())
    }

    /// Cancels an agreement that has not been paid for. `caller` is the
    /// authenticated caller and must be a party.
    pub fn cancel_agreement(&mut self, caller: Address, agreement_id: RecordId, now: u64) -> (r:
        Result<(), Error>)
        requires
            old(self).wf(),
        ensures
            final(self).wf(),
            (r, final(self)@) == old(self)@.cancel_agreement(caller, agreement_id, now),
    {
        self.check_not_paused()?;
        let mut agreement = self.get_agreement(agreement_id)?;
        if !caller.same(&agreement.tenant) && !caller.same(&agreement.landlord) {
            return Err(Error::NotAgreementParty);
        }
        let open = match agreement.status {
            AgreementStatus::Draft => true,
            AgreementStatus::PendingTenantSign => true,
            AgreementStatus::PendingLandlordSign => true,
            AgreementStatus::PendingPayment => true,
            _ => false,
        };
        if !open || agreement.deposit_paid {
            return Err(Error::InvalidState);
        }
        agreement.status = AgreementStatus::Cancelled;
        self.agreements.insert(agreement_id, agreement);
        self.events.push(Event::AgreementCancelled { agreement_id, timestamp: now });
        Ok(())
    }

    /// The agreement stored under `agreement_id`.
    pub fn get_agreement(&self, agreement_id: RecordId) -> (r: Result<RentalAgreement, Error>)
        requires
            self.wf(),
        ensures
            r == if self@.agreements.dom().contains(agreement_id) {
                Ok::<RentalAgreement, Error>(self@.agreements[agreement_id])
            } else {
                Err(Error::AgreementNotFound)
            },
    {
        match self.agreements.get(&agreement_id) {
            Some(a) => Ok(*a),
            None => Err(Error::AgreementNotFound),
        }
    }

    /// The agreements in which `tenant` is the tenant, oldest first.
    pub fn get_agreements_by_tenant(&self, tenant: Address) -> (out: Vec<RentalAgreement>)
        requires
            self.wf(),
        ensures
            out@ == hydrated(self@.agreements, filed_under(self@.by_tenant, tenant)),
    {
        let ids = self.by_tenant.list(&tenant);
        self.hydrate_agreements(&ids)
    }

    /// The agreements in which `landlord` is the landlord, oldest first.
    pub fn get_agreements_by_landlord(&self, landlord: Address) -> (out: Vec<RentalAgreement>)
        requires
            self.wf(),
        ensures
            out@ == hydrated(self@.agreements, filed_under(self@.by_landlord, landlord)),
    {
        let ids = self.by_landlord.list(&landlord);
        self.hydrate_agreements(&ids)
    }

    /// The agreements made on the property `property_id`, oldest first.
    pub fn get_agreements_by_property(&self, property_id: RecordId) -> (out: Vec<RentalAgreement>)
        requires
            self.wf(),
        ensures
            out@ == hydrated(self@.agreements, filed_under(self@.by_property, property_id)),
    {
        let ids = self.by_property.list(&property_id);
        self.hydrate_agreements(&ids)
    }

    /// Hands over the events that wait to be published, oldest first, and
    /// keeps none.
    pub fn take_events(&mut self) -> (events: Vec<Event>)
        requires
            old(self).wf(),
        ensures
            final(self).wf(),
            events@ == old(self)@.events,
            final(self)@ == (LedgerView { events: Seq::empty(), ..old(self)@ }),
    {
        let mut events: Vec<Event> = Vec::new();
        core::mem::swap(&mut events, &mut self.events);
        events
    }

    /// The identifiers of all agreements, oldest first.
    pub fn agreement_ids(&self) -> (out: &Vec<RecordId>)
        ensures
            out@ == self@.agreement_list,
    {
        &self.agreement_list
    }

    /// Whether the ledger is paused.
    pub fn is_paused(&self) -> (p: bool)
        ensures
            p == self@.paused,
    {
        self.paused
    }

    /// Fails while the ledger is paused.
    pub fn check_not_paused(&self) -> (r: Result<(), Error>)
        ensures
            r == if self@.paused {
                Err::<(), Error>(Error::ContractPaused)
            } else {
                Ok(())
            },
    {
        if self.paused {
            Err(Error::ContractPaused)
        } else {
            Ok(())
        }
    }

    /// The administrator, once there is one.
    pub fn require_admin(&self) -> (r: Result<Address, Error>)
        ensures
            r == match self@.admin {
                Some(a) => Ok::<Address, Error>(a),
                None => Err(Error::Unauthorized),
            },
    {
        match self.admin {
            Some(a) => Ok(a),
            None => Err(Error::Unauthorized),
        }
    }

    /// Fails unless `caller` is the escrow component.
    fn require_escrow(&self, caller: Address) -> (r: Result<(), Error>)
        ensures
            r == if self@.is_escrow(caller) {
                Ok::<(), Error>(())
            } else {
                Err(Error::Unauthorized)
            },
    {
        match self.escrow_contract {
            Some(e) => if e.same(&caller) {
                Ok(())
            } else {
                Err(Error::Unauthorized)
            },
            None => Err(Error::Unauthorized),
        }
    }

    /// The address of the property catalog, once the ledger is initialized.
    pub fn property_registry(&self) -> (r: Option<Address>)
        ensures
            r == self@.property_registry,
    {
        self.property_registry
    }

    /// Files `a` under its id in the list of all agreements and under its
    /// tenant, its landlord and its property.
    fn index_agreement(&mut self, a: &RentalAgreement)
        requires
            old(self).wf(),
        ensures
            final(self).wf(),
            final(self)@ == old(self)@.indexed(*a),
    {
        self.agreement_list.push(a.id);
        self.by_tenant.append(a.tenant, a.id);
        self.by_landlord.append(a.landlord, a.id);
        self.by_property.append(a.property_id, a.id);
    }

    /// The agreements that `ids` name, in that order, leaving out any that
    /// the ledger does not hold.
    fn hydrate_agreements(&self, ids: &Vec<RecordId>) -> (out: Vec<RentalAgreement>)
        requires
            self.wf(),
        ensures
            out@ == hydrated(self@.agreements, ids@),
    {
        let mut out: Vec<RentalAgreement> = Vec::new();
        let mut i: usize = 0;
        while i < ids.len()
            invariant
                self.wf(),
                i <= ids@.len(),
                out@ == hydrated(self@.agreements, ids@.take(i as int)),
            decreases ids@.len() - i,
        {
            proof {
                assert(ids@.take(i + 1).drop_last() =~= ids@.take(i as int));
            }
            match self.agreements.get(&ids[i]) {
                Some(a) => {
                    out.push(*a);
                },
                None => {},
            }
            i += 1;
        }
        proof {
            assert(ids@.take(i as int) =~= ids@);
        }
        out
    }
}

/// Everything the ledger holds, as plain values: what is written down to keep
/// a ledger, and read back to go on with it.
pub struct LedgerParts {
    pub admin: Option<Address>,
    pub paused: bool,
    pub property_registry: Option<Address>,
    pub escrow_contract: Option<Address>,
    /// The identifiers under which the agreements are stored.
    pub agreement_ids: Vec<RecordId>,
    /// The agreement stored under each identifier, at the same place.
    pub agreements: Vec<RentalAgreement>,
    pub agreement_list: Vec<RecordId>,
    pub by_tenant: Vec<(Address, RecordId)>,
    pub by_landlord: Vec<(Address, RecordId)>,
    pub by_property: Vec<(RecordId, RecordId)>,
    /// The events that wait to be published, oldest first.
    pub events: Vec<Event>,
}

impl View for LedgerParts {
    type V = LedgerView;

    open spec fn view(&self) -> LedgerView {
        LedgerView {
            admin: self.admin,
            paused: self.paused,
            property_registry: self.property_registry,
            escrow_contract: self.escrow_contract,
            agreements: paired(self.agreement_ids@, self.agreements@),
            agreement_list: self.agreement_list@,
            by_tenant: self.by_tenant@,
            by_landlord: self.by_landlord@,
            by_property: self.by_property@,
            events: self.events@,
        }
    }
}

impl LedgerParts {
    /// Whether these parts make up a ledger: one agreement for each
    /// identifier, and no identifier twice.
    pub open spec fn valid(&self) -> bool {
        pairable(self.agreement_ids@, self.agreements@)
    }
}

impl RentalAgreementContract {
    /// The ledger that `parts` make up, where they make up one.
    pub fn from_parts(parts: LedgerParts) -> (r: Option<Self>)
        ensures
            r.is_some() == parts.valid(),
            match r {
                Some(c) => c.wf() && c@ == parts@,
                None => true,
            },
    {
        let agreements = match Table::from_parts(parts.agreement_ids, parts.agreements) {
            Some(t) => t,
            None => {
                return None;
            },
        };
        Some(
            RentalAgreementContract {
                admin: parts.admin,
                paused: parts.paused,
                property_registry: parts.property_registry,
                escrow_contract: parts.escrow_contract,
                agreements,
                agreement_list: parts.agreement_list,
                by_tenant: Journal::from_entries(parts.by_tenant),
                by_landlord: Journal::from_entries(parts.by_landlord),
                by_property: Journal::from_entries(parts.by_property),
                events: parts.events,
            },
        )
    }

    /// Everything the ledger holds, as plain values.
    pub fn into_parts(self) -> (parts: LedgerParts)
        requires
            self.wf(),
        ensures
            parts.valid(),
            parts@ == self@,
    {
        let (agreement_ids, agreements) = self.agreements.into_parts();
        LedgerParts {
            admin: self.admin,
            paused: self.paused,
            property_registry: self.property_registry,
            escrow_contract: self.escrow_contract,
            agreement_ids,
            agreements,
            agreement_list: self.agreement_list,
            by_tenant: self.by_tenant.into_entries(),
            by_landlord: self.by_landlord.into_entries(),
            by_property: self.by_property.into_entries(),
            events: self.events,
        }
    }
}

/// With the ledger running and the property usable by `landlord`, creation
/// succeeds exactly when the term ends after it starts and lasts no fewer
/// whole days than the property's minimum stay and no more than its maximum.
pub proof fn creation_succeeds_iff_term_fits(
    ledger: LedgerView,
    landlord: Address,
    property_id: RecordId,
    property: &Property,
    tenant: Address,
    start_date: u64,
    end_date: u64,
    now: u64,
    id: RecordId,
)
    requires
        !ledger.paused,
        ledger.property_registry.is_some(),
        property.is_active,
        property.is_available,
        property.owner == landlord,
    ensures
        ledger.create_agreement(
            landlord,
            property_id,
            Some(property),
            tenant,
            start_date,
            end_date,
            now,
            id,
        ).0.is_ok() <==> end_date > start_date && property.min_stay_days <= whole_days(
            start_date,
            end_date,
        ) <= property.max_stay_days,
{
}

/// A signature that was accepted sets the signer's flag, leaves the other
/// flag alone, and puts the agreement in the status that the two flags stand
/// for: both signed, awaiting payment; the tenant alone, awaiting the
/// landlord; the landlord alone, awaiting the tenant.
pub proof fn signature_sets_status(
    ledger: LedgerView,
    signer: Address,
    agreement_id: RecordId,
    now: u64,
)
    ensures
        ledger.tenant_sign(signer, agreement_id, now).0.is_ok() ==> {
            let before = ledger.agreements[agreement_id];
            let after = ledger.tenant_sign(signer, agreement_id, now).1.agreements[agreement_id];
            &&& !before.tenant_signed
            &&& after.tenant_signed
            &&& after.landlord_signed == before.landlord_signed
            &&& after.status == if before.landlord_signed {
                AgreementStatus::PendingPayment
            } else {
                AgreementStatus::PendingLandlordSign
            }
        },
        ledger.landlord_sign(signer, agreement_id, now).0.is_ok() ==> {
            let before = ledger.agreements[agreement_id];
            let after = ledger.landlord_sign(signer, agreement_id, now).1.agreements[agreement_id];
            &&& !before.landlord_signed
            &&& after.landlord_signed
            &&& after.tenant_signed == before.tenant_signed
            &&& after.status == if before.tenant_signed {
                AgreementStatus::PendingPayment
            } else {
                AgreementStatus::PendingTenantSign
            }
        },
        signed_status(false, false) == AgreementStatus::Draft,
{
}

/// A party that has signed cannot sign again: the second signature is
/// refused as already given, and the ledger stays as the first left it.
pub proof fn second_signature_refused(
    ledger: LedgerView,
    signer: Address,
    agreement_id: RecordId,
    first: u64,
    second: u64,
)
    ensures
        ledger.tenant_sign(signer, agreement_id, first).0.is_ok() ==> {
            let signed = ledger.tenant_sign(signer, agreement_id, first).1;
            signed.tenant_sign(signer, agreement_id, second) == (
                Err::<(), Error>(Error::AlreadySigned),
                signed,
            )
        },
        ledger.landlord_sign(signer, agreement_id, first).0.is_ok() ==> {
            let signed = ledger.landlord_sign(signer, agreement_id, first).1;
            signed.landlord_sign(signer, agreement_id, second) == (
                Err::<(), Error>(Error::AlreadySigned),
                signed,
            )
        },
{
}

/// No signing, payment notice, completion or cancellation ever takes a
/// signature back.
pub proof fn signatures_stay(
    ledger: LedgerView,
    caller: Address,
    agreement_id: RecordId,
    amount: i128,
    now: u64,
)
    requires
        ledger.agreements.dom().contains(agreement_id),
    ensures
        ({
            let before = ledger.agreements[agreement_id];
            let kept = |after: LedgerView|
                after.agreements.dom().contains(agreement_id) && (before.tenant_signed
                    ==> after.agreements[agreement_id].tenant_signed) && (before.landlord_signed
                    ==> after.agreements[agreement_id].landlord_signed);
            &&& kept(ledger.tenant_sign(caller, agreement_id, now).1)
            &&& kept(ledger.landlord_sign(caller, agreement_id, now).1)
            &&& kept(ledger.mark_deposit_paid(caller, agreement_id, now).1)
            &&& kept(ledger.record_rent_payment(caller, agreement_id, amount).1)
            &&& kept(ledger.complete_agreement(caller, agreement_id, now).1)
            &&& kept(ledger.cancel_agreement(caller, agreement_id, now).1)
        }),
{
}

/// While the ledger is paused, every operation that would change it is
/// refused for that reason and leaves it as it was.
pub proof fn pause_blocks_changes(
    ledger: LedgerView,
    caller: Address,
    other: Address,
    agreement_id: RecordId,
    property: Option<&Property>,
    start_date: u64,
    end_date: u64,
    amount: i128,
    now: u64,
)
    requires
        ledger.paused,
    ensures
        ledger.set_escrow_contract(caller, other, now) == (
            Err::<(), Error>(Error::ContractPaused),
            ledger,
        ),
        ledger.create_agreement(
            caller,
            agreement_id,
            property,
            other,
            start_date,
            end_date,
            now,
            agreement_id,
        ) == (Err::<RecordId, Error>(Error::ContractPaused), ledger),
        ledger.tenant_sign(caller, agreement_id, now) == (
            Err::<(), Error>(Error::ContractPaused),
            ledger,
        ),
        ledger.landlord_sign(caller, agreement_id, now) == (
            Err::<(), Error>(Error::ContractPaused),
            ledger,
        ),
        ledger.mark_deposit_paid(caller, agreement_id, now) == (
            Err::<(), Error>(Error::ContractPaused),
            ledger,
        ),
        ledger.record_rent_payment(caller, agreement_id, amount) == (
            Err::<(), Error>(Error::ContractPaused),
            ledger,
        ),
        ledger.complete_agreement(caller, agreement_id, now) == (
            Err::<(), Error>(Error::ContractPaused),
            ledger,
        ),
        ledger.cancel_agreement(caller, agreement_id, now) == (
            Err::<(), Error>(Error::ContractPaused),
            ledger,
        ),
{
}

/// An agreement that was created on acceptable terms is a draft that ends
/// after it starts, with a positive rent and a deposit that is not negative.
pub proof fn created_agreement_is_sound(
    ledger: LedgerView,
    landlord: Address,
    property_id: RecordId,
    property: &Property,
    tenant: Address,
    start_date: u64,
    end_date: u64,
    now: u64,
    id: RecordId,
)
    requires
        property.terms_error().is_none(),
        ledger.create_agreement(
            landlord,
            property_id,
            Some(property),
            tenant,
            start_date,
            end_date,
            now,
            id,
        ).0.is_ok(),
    ensures
        ({
            let created = ledger.create_agreement(
                landlord,
                property_id,
                Some(property),
                tenant,
                start_date,
                end_date,
                now,
                id,
            ).1.agreements[id];
            &&& created.id == id
            &&& created.status == AgreementStatus::Draft
            &&& created.end_date > created.start_date
            &&& created.monthly_rent > 0
            &&& created.security_deposit >= 0
            &&& !created.tenant_signed && !created.landlord_signed && !created.deposit_paid
        }),
{
}

/// Whether two records of an agreement agree on who, what, how much and
/// when: everything that is fixed at creation.
pub open spec fn same_terms(a: RentalAgreement, b: RentalAgreement) -> bool {
    &&& a.id == b.id
    &&& a.property_id == b.property_id
    &&& a.landlord == b.landlord
    &&& a.tenant == b.tenant
    &&& a.monthly_rent == b.monthly_rent
    &&& a.security_deposit == b.security_deposit
    &&& a.start_date == b.start_date
    &&& a.end_date == b.end_date
    &&& a.created_at == b.created_at
}

/// What is fixed at creation stays fixed: no signing, payment notice,
/// completion or cancellation changes the parties, the money terms or the
/// term of an agreement, and none removes an agreement.
pub proof fn terms_are_fixed(
    ledger: LedgerView,
    caller: Address,
    agreement_id: RecordId,
    amount: i128,
    now: u64,
)
    requires
        ledger.agreements.dom().contains(agreement_id),
    ensures
        ({
            let before = ledger.agreements[agreement_id];
            let kept = |after: LedgerView|
                after.agreements.dom().contains(agreement_id) && same_terms(
                    before,
                    after.agreements[agreement_id],
                );
            &&& kept(ledger.tenant_sign(caller, agreement_id, now).1)
            &&& kept(ledger.landlord_sign(caller, agreement_id, now).1)
            &&& kept(ledger.mark_deposit_paid(caller, agreement_id, now).1)
            &&& kept(ledger.record_rent_payment(caller, agreement_id, amount).1)
            &&& kept(ledger.complete_agreement(caller, agreement_id, now).1)
            &&& kept(ledger.cancel_agreement(caller, agreement_id, now).1)
        }),
{
}

/// A deposit notice that comes again is a silent success: once the escrow
/// component's notice has gone through, the same notice is accepted again,
/// whatever its time, and changes nothing, and makes nothing known.
pub proof fn repeated_deposit_notice_changes_nothing(
    ledger: LedgerView,
    caller: Address,
    agreement_id: RecordId,
    first: u64,
    second: u64,
)
    ensures
        ledger.mark_deposit_paid(caller, agreement_id, first).0.is_ok() ==> {
            let marked = ledger.mark_deposit_paid(caller, agreement_id, first).1;
            &&& marked.agreements[agreement_id].deposit_paid
            &&& marked.mark_deposit_paid(caller, agreement_id, second) == (
                Ok::<(), Error>(()),
                marked,
            )
        },
{
}

/// The life of an agreement after its signatures: it becomes active only
/// from awaiting payment, is completed only from active and not before its
/// term has ended, is cancelled only while it awaits a signature or the
/// payment and holds no deposit, and a rent notice leaves it active.
pub proof fn status_follows_the_life_of_an_agreement(
    ledger: LedgerView,
    caller: Address,
    agreement_id: RecordId,
    amount: i128,
    now: u64,
)
    ensures
        ledger.mark_deposit_paid(caller, agreement_id, now).0.is_ok() ==> {
            let before = ledger.agreements[agreement_id];
            let after = ledger.mark_deposit_paid(
                caller,
                agreement_id,
                now,
            ).1.agreements[agreement_id];
            &&& !before.deposit_paid ==> before.status == AgreementStatus::PendingPayment
                && after.status == AgreementStatus::Active && after.deposit_paid
            &&& before.deposit_paid ==> after == before
        },
        ledger.record_rent_payment(caller, agreement_id, amount).0.is_ok() ==> {
            let before = ledger.agreements[agreement_id];
            let after = ledger.record_rent_payment(
                caller,
                agreement_id,
                amount,
            ).1.agreements[agreement_id];
            &&& before.status == AgreementStatus::Active
            &&& after.status == AgreementStatus::Active
        },
        ledger.complete_agreement(caller, agreement_id, now).0.is_ok() ==> {
            let before = ledger.agreements[agreement_id];
            let after = ledger.complete_agreement(
                caller,
                agreement_id,
                now,
            ).1.agreements[agreement_id];
            &&& before.status == AgreementStatus::Active
            &&& now >= before.end_date
            &&& after.status == AgreementStatus::Completed
            &&& after.completed_at == now
        },
        ledger.cancel_agreement(caller, agreement_id, now).0.is_ok() ==> {
            let before = ledger.agreements[agreement_id];
            let after = ledger.cancel_agreement(
                caller,
                agreement_id,
                now,
            ).1.agreements[agreement_id];
            &&& before.status != AgreementStatus::Active
            &&& before.status != AgreementStatus::Completed
            &&& before.status != AgreementStatus::Cancelled
            &&& !before.deposit_paid
            &&& after.status == AgreementStatus::Cancelled
        },
{
}

/// Agreements are never removed and never replaced: the creation of an
/// agreement under a fresh identifier leaves every stored agreement as it
/// was, whether the creation goes through or not.
pub proof fn creation_keeps_every_agreement(
    ledger: LedgerView,
    landlord: Address,
    property_id: RecordId,
    property: Option<&Property>,
    tenant: Address,
    start_date: u64,
    end_date: u64,
    now: u64,
    id: RecordId,
    stored: RecordId,
)
    requires
        !ledger.agreements.dom().contains(id),
        ledger.agreements.dom().contains(stored),
    ensures
        ({
            let after = ledger.create_agreement(
                landlord,
                property_id,
                property,
                tenant,
                start_date,
                end_date,
                now,
                id,
            ).1;
            &&& after.agreements.dom().contains(stored)
            &&& after.agreements[stored] == ledger.agreements[stored]
        }),
{
}

} // verus!
