//! The property catalog: listings that landlords offer for rent.

use vstd::prelude::*;
use crate::table::filed_under;
use crate::table::pairable;
use crate::table::paired;
use crate::table::Journal;
use crate::table::Table;
use crate::types::byte_len;
use crate::types::Address;
use crate::types::Ident;
use crate::types::RecordId;

verus! {

/// The longest title that is accepted, in bytes.
pub const MAX_TITLE_LENGTH: usize = 100;

/// The longest description that is accepted, in bytes.
pub const MAX_DESCRIPTION_LENGTH: usize = 1000;

/// The longest location that is accepted, in bytes.
pub const MAX_LOCATION_LENGTH: usize = 200;

/// The shortest minimum stay that a listing may ask for, in days.
pub const SHORTEST_MIN_STAY_DAYS: u32 = 30;

/// Why the catalog refused an operation.
#[derive(Clone, Copy, Debug, PartialEq, Eq, Structural)]
pub enum Error {
    ContractPaused,
    Unauthorized,
    AlreadyInitialized,
    InvalidTitle,
    InvalidDescription,
    InvalidLocation,
    InvalidPrice,
    InvalidMinStay,
    InvalidMaxStay,
    PropertyNotFound,
}

impl Error {
    /// The number under which this error is reported.
    pub open spec fn spec_code(self) -> u32 {
        match self {
            Error::ContractPaused => 1,
            Error::Unauthorized => 2,
            Error::AlreadyInitialized => 3,
            Error::InvalidTitle => 100,
            Error::InvalidDescription => 101,
            Error::InvalidLocation => 102,
            Error::InvalidPrice => 103,
            Error::InvalidMinStay => 104,
            Error::InvalidMaxStay => 105,
            Error::PropertyNotFound => 106,
        }
    }

    /// The number under which this error is reported.
    pub fn code(&self) -> (c: u32)
        ensures
            c == self.spec_code(),
    {
        match self {
            Error::ContractPaused => 1,
            Error::Unauthorized => 2,
            Error::AlreadyInitialized => 3,
            Error::InvalidTitle => 100,
            Error::InvalidDescription => 101,
            Error::InvalidLocation => 102,
            Error::InvalidPrice => 103,
            Error::InvalidMinStay => 104,
            Error::InvalidMaxStay => 105,
            Error::PropertyNotFound => 106,
        }
    }
}

/// What the catalog lets the outside know of a change.
#[derive(Clone, Copy, Debug, PartialEq, Eq, Structural)]
pub enum Event {
    Initialized { admin: Address, timestamp: u64 },
    Paused { timestamp: u64 },
    Unpaused { timestamp: u64 },
    PropertyCreated {
        property_id: RecordId,
        owner: Address,
        price_per_month: i128,
        security_deposit: i128,
    },
    PropertyUpdated { property_id: RecordId, updated_at: u64 },
    PropertyAvailabilityChanged { property_id: RecordId, is_available: bool },
    PropertyDeactivated { property_id: RecordId, updated_at: u64 },
}

/// A listing: who offers it, on what terms, and whether it can be rented now.
#[derive(Clone, Debug)]
pub struct Property {
    pub id: RecordId,
    pub owner: Address,
    pub title: String,
    pub description: String,
    pub location: String,
    pub price_per_month: i128,
    pub security_deposit: i128,
    pub min_stay_days: u32,
    pub max_stay_days: u32,
    pub image_url: String,
    pub is_available: bool,
    pub is_active: bool,
    pub created_at: u64,
    pub updated_at: u64,
}

/// Why the texts and terms of a listing are refused, if they are.
pub open spec fn listing_error(
    title: &String,
    description: &String,
    location: &String,
    price_per_month: i128,
    security_deposit: i128,
    min_stay_days: u32,
    max_stay_days: u32,
) -> Option<Error> {
    if byte_len(title) == 0 || byte_len(title) > MAX_TITLE_LENGTH {
        Some(Error::InvalidTitle)
    } else if byte_len(description) > MAX_DESCRIPTION_LENGTH {
        Some(Error::InvalidDescription)
    } else if byte_len(location) == 0 || byte_len(location) > MAX_LOCATION_LENGTH {
        Some(Error::InvalidLocation)
    } else if price_per_month <= 0 {
        Some(Error::InvalidPrice)
    } else if security_deposit < 0 {
        Some(Error::InvalidPrice)
    } else if min_stay_days < SHORTEST_MIN_STAY_DAYS {
        Some(Error::InvalidMinStay)
    } else if max_stay_days < min_stay_days {
        Some(Error::InvalidMaxStay)
    } else {
        None
    }
}

impl Property {
    /// Why the texts and terms of this property would be refused in a
    /// listing, if they would.
    pub open spec fn terms_error(self) -> Option<Error> {
        listing_error(
            &self.title,
            &self.description,
            &self.location,
            self.price_per_month,
            self.security_deposit,
            self.min_stay_days,
            self.max_stay_days,
        )
    }

    /// A property as it stands right after `owner` listed it.
    pub open spec fn listed(
        id: RecordId,
        owner: Address,
        title: String,
        description: String,
        location: String,
        price_per_month: i128,
        security_deposit: i128,
        min_stay_days: u32,
        max_stay_days: u32,
        image_url: String,
        now: u64,
    ) -> Property {
        Property {
            id,
            owner,
            title,
            description,
            location,
            price_per_month,
            security_deposit,
            min_stay_days,
            max_stay_days,
            image_url,
            is_available: true,
            is_active: true,
            created_at: now,
            updated_at: now,
        }
    }

    /// This property with new texts and terms, changed at `now`.
    pub open spec fn relisted(
        self,
        title: String,
        description: String,
        location: String,
        price_per_month: i128,
        security_deposit: i128,
        min_stay_days: u32,
        max_stay_days: u32,
        image_url: String,
        now: u64,
    ) -> Property {
        Property {
            title,
            description,
            location,
            price_per_month,
            security_deposit,
            min_stay_days,
            max_stay_days,
            image_url,
            updated_at: now,
            ..self
        }
    }
}

/// The properties that `ids` name, in that order, leaving out any that the
/// map does not hold.
pub open spec fn hydrated(properties: Map<RecordId, Property>, ids: Seq<RecordId>) -> Seq<Property>
    decreases ids.len(),
{
    if ids.len() == 0 {
        Seq::empty()
    } else {
        let earlier = hydrated(properties, ids.drop_last());
        if properties.dom().contains(ids.last()) {
            earlier.push(properties[ids.last()])
        } else {
            earlier
        }
    }
}

/// The properties that `ids` name and that are active and available, in that
/// order.
pub open spec fn on_offer(properties: Map<RecordId, Property>, ids: Seq<RecordId>) -> Seq<Property>
    decreases ids.len(),
{
    if ids.len() == 0 {
        Seq::empty()
    } else {
        let earlier = on_offer(properties, ids.drop_last());
        if properties.dom().contains(ids.last()) && properties[ids.last()].is_active
            && properties[ids.last()].is_available {
            earlier.push(properties[ids.last()])
        } else {
            earlier
        }
    }
}

/// Whether `out` refers to exactly the properties of `expected`, in order.
pub open spec fn refers_to(out: Seq<&Property>, expected: Seq<Property>) -> bool {
    &&& out.len() == expected.len()
    &&& forall|i: int| 0 <= i < out.len() ==> *#[trigger] out[i] == expected[i]
}

/// What the catalog holds, as mathematical values.
pub struct RegistryView {
    pub admin: Option<Address>,
    pub paused: bool,
    pub properties: Map<RecordId, Property>,
    pub property_list: Seq<RecordId>,
    pub owner_index: Seq<(Address, RecordId)>,
    /// The events that wait to be published, oldest first.
    pub events: Seq<Event>,
}

impl RegistryView {
    /// Whether `caller` is the administrator.
    pub open spec fn is_admin(self, caller: Address) -> bool {
        self.admin == Some(caller)
    }

    /// This state with one more event waiting to be published.
    pub open spec fn emitted(self, event: Event) -> RegistryView {
        RegistryView { events: self.events.push(event), ..self }
    }

    /// What naming the administrator gives.
    pub open spec fn initialize(self, admin: Address, now: u64) -> (
        Result<(), Error>,
        RegistryView,
    ) {
        if self.admin.is_some() {
            (Err(Error::AlreadyInitialized), self)
        } else {
            (
                Ok(()),
                RegistryView { admin: Some(admin), paused: false, ..self }.emitted(
                    Event::Initialized { admin, timestamp: now },
                ),
            )
        }
    }

    /// What pausing, or taking the pause back, gives.
    pub open spec fn set_paused(self, caller: Address, paused: bool, now: u64) -> (
        Result<(), Error>,
        RegistryView,
    ) {
        if !self.is_admin(caller) {
            (Err(Error::Unauthorized), self)
        } else {
            (
                Ok(()),
                RegistryView { paused, ..self }.emitted(
                    if paused {
                        Event::Paused { timestamp: now }
                    } else {
                        Event::Unpaused { timestamp: now }
                    },
                ),
            )
        }
    }

    /// The state after `property`, found acceptable, has been listed.
    pub open spec fn listed(self, property: Property) -> RegistryView {
        RegistryView {
            properties: self.properties.insert(property.id, property),
            property_list: self.property_list.push(property.id),
            owner_index: self.owner_index.push((property.owner, property.id)),
            ..self
        }
    }

    /// What listing `property` gives: the state with it listed, or why it is
    /// refused.
    pub open spec fn create_property(self, property: Property) -> (
        Result<RecordId, Error>,
        RegistryView,
    ) {
        if self.paused {
            (Err(Error::ContractPaused), self)
        } else {
            match property.terms_error() {
                Some(e) => (Err(e), self),
                None => (
                    Ok(property.id),
                    self.listed(property).emitted(
                        Event::PropertyCreated {
                            property_id: property.id,
                            owner: property.owner,
                            price_per_month: property.price_per_month,
                            security_deposit: property.security_deposit,
                        },
                    ),
                ),
            }
        }
    }

    /// Why a change to the property `property_id` by `caller` is refused
    /// before its content is looked at, if it is.
    pub open spec fn access_error(self, caller: Address, property_id: RecordId) -> Option<Error> {
        if self.paused {
            Some(Error::ContractPaused)
        } else if !self.properties.dom().contains(property_id) {
            Some(Error::PropertyNotFound)
        } else if self.properties[property_id].owner != caller {
            Some(Error::Unauthorized)
        } else {
            None
        }
    }

    /// This state with `property` stored under `property_id`.
    pub open spec fn stored(self, property_id: RecordId, property: Property) -> RegistryView {
        RegistryView { properties: self.properties.insert(property_id, property), ..self }
    }

    /// What replacing the property `property_id` by `changed` gives, where
    /// `changed` is that property with new texts and terms.
    pub open spec fn update_property(
        self,
        caller: Address,
        property_id: RecordId,
        changed: Property,
    ) -> (
        Result<(), Error>,
        RegistryView,
    ) {
        match self.access_error(caller, property_id) {
            Some(e) => (Err(e), self),
            None => match changed.terms_error() {
                Some(e) => (Err(e), self),
                None => (
                    Ok(()),
                    self.stored(property_id, changed).emitted(
                        Event::PropertyUpdated { property_id, updated_at: changed.updated_at },
                    ),
                ),
            },
        }
    }

    /// What offering a property, or taking it off the market, gives.
    pub open spec fn set_availability(
        self,
        caller: Address,
        property_id: RecordId,
        is_available: bool,
        now: u64,
    ) -> (Result<(), Error>, RegistryView) {
        match self.access_error(caller, property_id) {
            Some(e) => (Err(e), self),
            None => (
                Ok(()),
                self.stored(
                    property_id,
                    Property { is_available, updated_at: now, ..self.properties[property_id] },
                ).emitted(Event::PropertyAvailabilityChanged { property_id, is_available }),
            ),
        }
    }

    /// What withdrawing a property for good gives.
    pub open spec fn deactivate_property(
        self,
        caller: Address,
        property_id: RecordId,
        now: u64,
    ) -> (
        Result<(), Error>,
        RegistryView,
    ) {
        match self.access_error(caller, property_id) {
            Some(e) => (Err(e), self),
            None => (
                Ok(()),
                self.stored(
                    property_id,
                    Property {
                        is_active: false,
                        is_available: false,
                        updated_at: now,
                        ..self.properties[property_id]
                    },
                ).emitted(Event::PropertyDeactivated { property_id, updated_at: now }),
            ),
        }
    }
}

/// The catalog.
pub struct PropertyRegistry {
    admin: Option<Address>,
    paused: bool,
    properties: Table<RecordId, Property>,
    property_list: Vec<RecordId>,
    owner_index: Journal<Address, RecordId>,
    events: Vec<Event>,
}

impl View for PropertyRegistry {
    type V = RegistryView;

    closed spec fn view(&self) -> RegistryView {
        RegistryView {
            admin: self.admin,
            paused: self.paused,
            properties: self.properties.map(),
            property_list: self.property_list@,
            owner_index: self.owner_index.entries(),
            events: self.events@,
        }
    }
}

/// Checks the texts and terms of a listing.
pub fn validate_property_fields(
    title: &String,
    description: &String,
    location: &String,
    price_per_month: i128,
    security_deposit: i128,
    min_stay_days: u32,
    max_stay_days: u32,
) -> (r: Result<(), Error>)
    ensures
        r == match listing_error(
            title,
            description,
            location,
            price_per_month,
            security_deposit,
            min_stay_days,
            max_stay_days,
        ) {
            Some(e) => Err::<(), Error>(e),
            None => Ok(()),
        },
{
    let title_len = title.as_str().len();
    if title_len == 0 || title_len > MAX_TITLE_LENGTH {
        return Err(Error::InvalidTitle);
    }
    if description.as_str().len() > MAX_DESCRIPTION_LENGTH {
        return Err(Error::InvalidDescription);
    }
    let loc_len = location.as_str().len();
    if loc_len == 0 || loc_len > MAX_LOCATION_LENGTH {
        return Err(Error::InvalidLocation);
    }
    if price_per_month <= 0 {
        return Err(Error::InvalidPrice);
    }
    if security_deposit < 0 {
        return Err(Error::InvalidPrice);
    }
    if min_stay_days < SHORTEST_MIN_STAY_DAYS {
        return Err(Error::InvalidMinStay);
    }
    if max_stay_days < min_stay_days {
        return Err(Error::InvalidMaxStay);
    }
    Ok(())
}

impl PropertyRegistry {
    /// The stored table is in order.
    pub closed spec fn wf(&self) -> bool {
        self.properties.wf()
    }

    /// A catalog that holds nothing and has no administrator yet.
    pub fn new() -> (c: Self)
        ensures
            c.wf(),
            c@ == (RegistryView {
                admin: None,
                paused: false,
                properties: Map::empty(),
                property_list: Seq::empty(),
                owner_index: Seq::empty(),
                events: Seq::empty(),
            }),
    {
        PropertyRegistry {
            admin: None,
            paused: false,
            properties: Table::new(),
            property_list: Vec::new(),
            owner_index: Journal::new(),
            events: Vec::new(),
        }
    }

    /// Names the administrator. Works once.
    pub fn initialize(&mut self, admin: Address, now: u64) -> (r: Result<(), Error>)
        requires
            old(self).wf(),
        ensures
            final(self).wf(),
            (r, final(self)@) == old(self)@.initialize(admin, now),
    {
        if self.admin.is_some() {
            return Err(Error::AlreadyInitialized);
        }
        self.admin = Some(admin);
        self.paused = false;
        self.events.push(Event::Initialized { admin, timestamp: now });
        Ok(())
    }

    /// Stops every state-changing operation until `unpause`. `caller` must be
    /// the administrator.
    pub fn pause(&mut self, caller: Address, now: u64) -> (r: Result<(), Error>)
        requires
            old(self).wf(),
        ensures
            final(self).wf(),
            (r, final(self)@) == old(self)@.set_paused(caller, true, now),
    {
        let admin = self.require_admin()?;
        if !admin.same(&caller) {
            return Err(Error::Unauthorized);
        }
        self.paused = true;
        self.events.push(Event::Paused { timestamp: now });
        Ok(())
    }

    /// Lets state-changing operations through again. `caller` must be the
    /// administrator.
    pub fn unpause(&mut self, caller: Address, now: u64) -> (r: Result<(), Error>)
        requires
            old(self).wf(),
        ensures
            final(self).wf(),
            (r, final(self)@) == old(self)@.set_paused(caller, false, now),
    {
        let admin = self.require_admin()?;
        if !admin.same(&caller) {
            return Err(Error::Unauthorized);
        }
        self.paused = false;
        self.events.push(Event::Unpaused { timestamp: now });
        Ok(())
    }

    /// Lists a property of `owner`, active and available. `owner` is the
    /// authenticated caller; `id` is the fresh identifier of the property: a
    /// property that is listed must not take the place of one that is stored.
    pub fn create_property(
        &mut self,
        owner: Address,
        title: String,
        description: String,
        location: String,
        price_per_month: i128,
        security_deposit: i128,
        min_stay_days: u32,
        max_stay_days: u32,
        image_url: String,
        now: u64,
        id: RecordId,
    ) -> (r: Result<RecordId, Error>)
        requires
            old(self).wf(),
            !old(self)@.paused && listing_error(
                &title,
                &description,
                &location,
                price_per_month,
                security_deposit,
                min_stay_days,
                max_stay_days,
            ).is_none() ==> !old(self)@.properties.dom().contains(id),
        ensures
            final(self).wf(),
            (r, final(self)@) == old(self)@.create_property(
                Property::listed(
                    id,
                    owner,
                    title,
                    description,
                    location,
                    price_per_month,
                    security_deposit,
                    min_stay_days,
                    max_stay_days,
                    image_url,
                    now,
                ),
            ),
    {
        self.check_not_paused()?;
        validate_property_fields(
            &title,
            &description,
            &location,
            price_per_month,
            security_deposit,
            min_stay_days,
            max_stay_days,
        )?;
        let property = Property {
            id,
            owner,
            title,
            description,
            location,
            price_per_month,
            security_deposit,
            min_stay_days,
            max_stay_days,
            image_url,
            is_available: true,
            is_active: true,
            created_at: now,
            updated_at: now,
        };
        self.properties.insert(id, property);
        self.property_list.push(id);
        self.owner_index.append(owner, id);
        self.events.push(
            Event::PropertyCreated { property_id: id, owner, price_per_month, security_deposit },
        );
        Ok(id)
    }

    /// Replaces the texts and terms of the property `property_id`. `caller`
    /// is the authenticated caller and must be the owner.
    pub fn update_property(
        &mut self,
        caller: Address,
        property_id: RecordId,
        title: String,
        description: String,
        location: String,
        price_per_month: i128,
        security_deposit: i128,
        min_stay_days: u32,
        max_stay_days: u32,
        image_url: String,
        now: u64,
    ) -> (r: Result<(), Error>)
        requires
            old(self).wf(),
        ensures
            final(self).wf(),
            (r, final(self)@) == old(self)@.update_property(
                caller,
                property_id,
                old(self)@.properties[property_id].relisted(
                    title,
                    description,
                    location,
                    price_per_month,
                    security_deposit,
                    min_stay_days,
                    max_stay_days,
                    image_url,
                    now,
                ),
            ),
    {
        self.check_not_paused()?;
        let current = self.get_property(property_id)?;
        if !current.owner.same(&caller) {
            return Err(Error::Unauthorized);
        }
        validate_property_fields(
            &title,
            &description,
            &location,
            price_per_month,
            security_deposit,
            min_stay_days,
            max_stay_days,
        )?;
        let property = Property {
            id: current.id,
            owner: current.owner,
            title,
            description,
            location,
            price_per_month,
            security_deposit,
            min_stay_days,
            max_stay_days,
            image_url,
            is_available: current.is_available,
            is_active: current.is_active,
            created_at: current.created_at,
            updated_at: now,
        };
        self.properties.insert(property_id, property);
        self.events.push(Event::PropertyUpdated { property_id, updated_at: now });
        Ok(())
    }

    /// Offers the property `property_id` or takes it off the market.
    /// `caller` is the authenticated caller and must be the owner.
    pub fn set_availability(
        &mut self,
        caller: Address,
        property_id: RecordId,
        is_available: bool,
        now: u64,
    ) -> (r: Result<(), Error>)
        requires
            old(self).wf(),
        ensures
            final(self).wf(),
            (r, final(self)@) == old(self)@.set_availability(
                caller,
                property_id,
                is_available,
                now,
            ),
    {
        self.check_not_paused()?;
        let current = self.get_property(property_id)?;
        if !current.owner.same(&caller) {
            return Err(Error::Unauthorized);
        }
        let property = Property {
            id: current.id,
            owner: current.owner,
            title: current.title.clone(),
            description: current.description.clone(),
            location: current.location.clone(),
            price_per_month: current.price_per_month,
            security_deposit: current.security_deposit,
            min_stay_days: current.min_stay_days,
            max_stay_days: current.max_stay_days,
            image_url: current.image_url.clone(),
            is_available,
            is_active: current.is_active,
            created_at: current.created_at,
            updated_at: now,
        };
        self.properties.insert(property_id, property);
        self.events.push(Event::PropertyAvailabilityChanged { property_id, is_available });
        Ok(())
    }

    /// Withdraws the property `property_id` for good. `caller` is the
    /// authenticated caller and must be the owner.
    pub fn deactivate_property(&mut self, caller: Address, property_id: RecordId, now: u64) -> (r:
        Result<(), Error>)
        requires
            old(self).wf(),
        ensures
            final(self).wf(),
            (r, final(self)@) == old(self)@.deactivate_property(caller, property_id, now),
    {
        self.check_not_paused()?;
        let current = self.get_property(property_id)?;
        if !current.owner.same(&caller) {
            return Err(Error::Unauthorized);
        }
        let property = Property {
            id: current.id,
            owner: current.owner,
            title: current.title.clone(),
            description: current.description.clone(),
            location: current.location.clone(),
            price_per_month: current.price_per_month,
            security_deposit: current.security_deposit,
            min_stay_days: current.min_stay_days,
            max_stay_days: current.max_stay_days,
            image_url: current.image_url.clone(),
            is_available: false,
            is_active: false,
            created_at: current.created_at,
            updated_at: now,
        };
        self.properties.insert(property_id, property);
        self.events.push(Event::PropertyDeactivated { property_id, updated_at: now });
        Ok(())
    }

    /// The property stored under `property_id`.
    pub fn get_property(&self, property_id: RecordId) -> (r: Result<&Property, Error>)
        requires
            self.wf(),
        ensures
            match r {
                Ok(p) => self@.properties.dom().contains(property_id) && *p
                    == self@.properties[property_id],
                Err(e) => !self@.properties.dom().contains(property_id) && e
                    == Error::PropertyNotFound,
            },
    {
        match self.properties.get(&property_id) {
            Some(p) => Ok(p),
            None => Err(Error::PropertyNotFound),
        }
    }

    /// The properties that `owner` listed, oldest first.
    pub fn get_properties_by_owner(&self, owner: Address) -> (out: Vec<&Property>)
        requires
            self.wf(),
        ensures
            refers_to(out@, hydrated(self@.properties, filed_under(self@.owner_index, owner))),
    {
        let ids = self.owner_index(&owner);
        let mut out: Vec<&Property> = Vec::new();
        let mut i: usize = 0;
        while i < ids.len()
            invariant
                self.wf(),
                i <= ids@.len(),
                refers_to(out@, hydrated(self@.properties, ids@.take(i as int))),
            decreases ids@.len() - i,
        {
            proof {
                assert(ids@.take(i + 1).drop_last() =~= ids@.take(i as int));
            }
            match self.properties.get(&ids[i]) {
                Some(p) => {
                    out.push(p);
                },
                None => {},
            }
            i += 1;
        }
        proof {
            assert(ids@.take(i as int) =~= ids@);
        }
        out
    }

    /// The properties that are active and available, oldest first.
    pub fn get_available_properties(&self) -> (out: Vec<&Property>)
        requires
            self.wf(),
        ensures
            refers_to(out@, on_offer(self@.properties, self@.property_list)),
    {
        let ids = self.property_list();
        let mut out: Vec<&Property> = Vec::new();
        let mut i: usize = 0;
        while i < ids.len()
            invariant
                self.wf(),
                i <= ids@.len(),
                refers_to(out@, on_offer(self@.properties, ids@.take(i as int))),
            decreases ids@.len() - i,
        {
            proof {
                assert(ids@.take(i + 1).drop_last() =~= ids@.take(i as int));
            }
            match self.properties.get(&ids[i]) {
                Some(p) => {
                    if p.is_active && p.is_available {
                        out.push(p);
                    }
                },
                None => {},
            }
            i += 1;
        }
        proof {
            assert(ids@.take(i as int) =~= ids@);
        }
        out
    }

    /// Hands over the events that wait to be published, oldest first, and
    /// keeps none.
    pub fn take_events(&mut self) -> (events: Vec<Event>)
        requires
            old(self).wf(),
        ensures
            final(self).wf(),
            events@ == old(self)@.events,
            final(self)@ == (RegistryView { events: Seq::empty(), ..old(self)@ }),
    {
        let mut events: Vec<Event> = Vec::new();
        core::mem::swap(&mut events, &mut self.events);
        events
    }

    /// Whether the catalog is paused.
    pub fn is_paused(&self) -> (p: bool)
        ensures
            p == self@.paused,
    {
        self.paused
    }

    /// Fails while the catalog is paused.
    pub fn check_not_paused(&self) -> (r: Result<(), Error>)
        ensures
            r == if self@.paused {
                Err::<(), Error>(Error::ContractPaused)
            } else {
                Ok(())
            },
    {
        if self.paused {
            Err(Error::ContractPaused)
        } else {
            Ok(())
        }
    }

    /// The administrator, once there is one.
    pub fn require_admin(&self) -> (r: Result<Address, Error>)
        ensures
            r == match self@.admin {
                Some(a) => Ok::<Address, Error>(a),
                None => Err(Error::Unauthorized),
            },
    {
        match self.admin {
            Some(a) => Ok(a),
            None => Err(Error::Unauthorized),
        }
    }

    /// The identifiers of all properties, oldest first.
    pub fn property_list(&self) -> (ids: &Vec<RecordId>)
        ensures
            ids@ == self@.property_list,
    {
        &self.property_list
    }

    /// The identifiers of the properties that `owner` listed, oldest first.
    pub fn owner_index(&self, owner: &Address) -> (ids: Vec<RecordId>)
        ensures
            ids@ == filed_under(self@.owner_index, *owner),
    {
        self.owner_index.list(owner)
    }
}

/// Everything the catalog holds, as plain values: what is written down to
/// keep a catalog, and read back to go on with it.
pub struct RegistryParts {
    pub admin: Option<Address>,
    pub paused: bool,
    /// The identifiers under which the properties are stored.
    pub property_ids: Vec<RecordId>,
    /// The property stored under each identifier, at the same place.
    pub properties: Vec<Property>,
    pub property_list: Vec<RecordId>,
    pub owner_index: Vec<(Address, RecordId)>,
    /// The events that wait to be published, oldest first.
    pub events: Vec<Event>,
}

impl View for RegistryParts {
    type V = RegistryView;

    open spec fn view(&self) -> RegistryView {
        RegistryView {
            admin: self.admin,
            paused: self.paused,
            properties: paired(self.property_ids@, self.properties@),
            property_list: self.property_list@,
            owner_index: self.owner_index@,
            events: self.events@,
        }
    }
}

impl RegistryParts {
    /// Whether these parts make up a catalog: one property for each
    /// identifier, and no identifier twice.
    pub open spec fn valid(&self) -> bool {
        pairable(self.property_ids@, self.properties@)
    }
}

impl PropertyRegistry {
    /// The catalog that `parts` make up, where they make up one.
    pub fn from_parts(parts: RegistryParts) -> (r: Option<Self>)
        ensures
            r.is_some() == parts.valid(),
            match r {
                Some(c) => c.wf() && c@ == parts@,
                None => true,
            },
    {
        let properties = match Table::from_parts(parts.property_ids, parts.properties) {
            Some(t) => t,
            None => {
                return None;
            },
        };
        Some(
            PropertyRegistry {
                admin: parts.admin,
                paused: parts.paused,
                properties,
                property_list: parts.property_list,
                owner_index: Journal::from_entries(parts.owner_index),
                events: parts.events,
            },
        )
    }

    /// Everything the catalog holds, as plain values.
    pub fn into_parts(self) -> (parts: RegistryParts)
        requires
            self.wf(),
        ensures
            parts.valid(),
            parts@ == self@,
    {
        let (property_ids, properties) = self.properties.into_parts();
        RegistryParts {
            admin: self.admin,
            paused: self.paused,
            property_ids,
            properties,
            property_list: self.property_list,
            owner_index: self.owner_index.into_entries(),
            events: self.events,
        }
    }
}

/// While the catalog is paused, every operation that would change it is
/// refused for that reason and leaves it as it was.
pub proof fn pause_blocks_changes(
    catalog: RegistryView,
    caller: Address,
    property_id: RecordId,
    property: Property,
    is_available: bool,
    now: u64,
)
    requires
        catalog.paused,
    ensures
        catalog.create_property(property) == (
            Err::<RecordId, Error>(Error::ContractPaused),
            catalog,
        ),
        catalog.update_property(caller, property_id, property) == (
            Err::<(), Error>(Error::ContractPaused),
            catalog,
        ),
        catalog.set_availability(caller, property_id, is_available, now) == (
            Err::<(), Error>(Error::ContractPaused),
            catalog,
        ),
        catalog.deactivate_property(caller, property_id, now) == (
            Err::<(), Error>(Error::ContractPaused),
            catalog,
        ),
{
}

/// Once a property is withdrawn it is never on offer again: nothing makes it
/// active.
pub proof fn withdrawn_stays_withdrawn(
    catalog: RegistryView,
    caller: Address,
    property_id: RecordId,
    changed: Property,
    is_available: bool,
    now: u64,
)
    requires
        catalog.properties.dom().contains(property_id),
        !catalog.properties[property_id].is_active,
        changed.is_active == catalog.properties[property_id].is_active,
    ensures
        !catalog.update_property(caller, property_id, changed).1.properties[property_id].is_active,
        !catalog.set_availability(caller, property_id, is_available, now).1.properties[property_id]
            .is_active,
        !catalog.deactivate_property(caller, property_id, now).1.properties[property_id].is_active,
        on_offer(
            catalog.set_availability(caller, property_id, is_available, now).1.properties,
            seq![property_id],
        ) == Seq::<Property>::empty(),
{
    let after = catalog.set_availability(caller, property_id, is_available, now).1.properties;
    assert(seq![property_id].drop_last() =~= Seq::<RecordId>::empty());
    assert(on_offer(after, seq![property_id].drop_last()) == Seq::<Property>::empty());
}

/// A listing never replaces a property: the creation of a property under a
/// fresh identifier leaves every stored property as it was, whether the
/// creation goes through or not.
pub proof fn listing_keeps_every_property(
    catalog: RegistryView,
    property: Property,
    stored: RecordId,
)
    requires
        !catalog.properties.dom().contains(property.id),
        catalog.properties.dom().contains(stored),
    ensures
        catalog.create_property(property).1.properties.dom().contains(stored),
        catalog.create_property(property).1.properties[stored] == catalog.properties[stored],
{
}

} // verus!
