use briq::property_registry::validate_property_fields;
use briq::property_registry::Error;
use briq::property_registry::Property;
use briq::property_registry::PropertyRegistry;
use briq::types::Address;
use briq::types::AddressKind;
use briq::types::RecordId;

const ADMIN: Address = Address { kind: AddressKind::Account, hi: 0, lo: 1 };
const OWNER: Address = Address { kind: AddressKind::Account, hi: 0, lo: 10 };
const OTHER: Address = Address { kind: AddressKind::Account, hi: 0, lo: 11 };

fn rid(n: u128) -> RecordId {
    RecordId { hi: 5, lo: n }
}

fn s(text: &str) -> String {
    text.to_string()
}

fn registry() -> PropertyRegistry {
    let mut r = PropertyRegistry::new();
    r.initialize(ADMIN, 0).unwrap();
    r
}

fn list(r: &mut PropertyRegistry, owner: Address, id: RecordId) -> RecordId {
    r.create_property(owner, s("Loft"), s("Bright"), s("Lyon"), 900, 300, 30, 90, s("img"), 10, id)
        .unwrap()
}

fn check(title: &str, description: &str, location: &str, price: i128, deposit: i128, min: u32, max: u32) -> Result<(), Error> {
    validate_property_fields(&s(title), &s(description), &s(location), price, deposit, min, max)
}

#[test]
fn initialize_and_create_property() {
    let mut r = PropertyRegistry::new();
    let admin = ADMIN;
    r.initialize(admin, 0).unwrap();

    let owner = OWNER;
    let title = s("Cozy Apartment");
    let desc = s("A nice place to stay");
    let loc = s("NYC");
    let img = s("");

    let id = r
        .create_property(owner, title.clone(), desc, loc.clone(), 10000000, 5000000, 30, 365, img, 1, rid(1))
        .unwrap();

    let p = r.get_property(id).unwrap();
    assert_eq!(p.title, title);
    assert_eq!(p.location, loc);
    assert!(p.is_available);
    assert!(p.is_active);
}

#[test]
fn catalog_initialize_twice_is_refused() {
    let mut r = registry();
    assert_eq!(r.initialize(OWNER, 0), Err(Error::AlreadyInitialized));
    assert_eq!(r.require_admin(), Ok(ADMIN));
}

#[test]
fn catalog_pause_blocks_changes() {
    let mut r = PropertyRegistry::new();
    assert_eq!(r.pause(ADMIN, 0), Err(Error::Unauthorized));
    r.initialize(ADMIN, 0).unwrap();
    let id = list(&mut r, OWNER, rid(1));
    assert_eq!(r.pause(OWNER, 0), Err(Error::Unauthorized));
    assert_eq!(r.pause(ADMIN, 0), Ok(()));
    assert!(r.is_paused());
    assert_eq!(r.check_not_paused(), Err(Error::ContractPaused));
    assert_eq!(
        r.create_property(OWNER, s("Loft"), s(""), s("Lyon"), 900, 300, 30, 90, s(""), 10, rid(2)),
        Err(Error::ContractPaused)
    );
    assert_eq!(
        r.update_property(OWNER, id, s("Loft"), s(""), s("Lyon"), 900, 300, 30, 90, s(""), 11),
        Err(Error::ContractPaused)
    );
    assert_eq!(r.set_availability(OWNER, id, false, 11), Err(Error::ContractPaused));
    assert_eq!(r.deactivate_property(OWNER, id, 11), Err(Error::ContractPaused));
    assert_eq!(r.unpause(OWNER, 0), Err(Error::Unauthorized));
    assert_eq!(r.unpause(ADMIN, 0), Ok(()));
    assert_eq!(r.set_availability(OWNER, id, false, 11), Ok(()));
}

#[test]
fn listing_fields_are_checked_in_order() {
    assert_eq!(check("Loft", "", "Lyon", 1, 0, 30, 30), Ok(()));
    assert_eq!(check("", "", "", 0, -1, 0, 0), Err(Error::InvalidTitle));
    assert_eq!(check(&"t".repeat(101), "", "Lyon", 1, 0, 30, 30), Err(Error::InvalidTitle));
    assert_eq!(check(&"t".repeat(100), "", "Lyon", 1, 0, 30, 30), Ok(()));
    assert_eq!(check("Loft", &"d".repeat(1001), "", 0, 0, 0, 0), Err(Error::InvalidDescription));
    assert_eq!(check("Loft", &"d".repeat(1000), "Lyon", 1, 0, 30, 30), Ok(()));
    assert_eq!(check("Loft", "", "", 0, 0, 0, 0), Err(Error::InvalidLocation));
    assert_eq!(check("Loft", "", &"l".repeat(201), 0, 0, 0, 0), Err(Error::InvalidLocation));
    assert_eq!(check("Loft", "", &"l".repeat(200), 1, 0, 30, 30), Ok(()));
    assert_eq!(check("Loft", "", "Lyon", 0, 0, 0, 0), Err(Error::InvalidPrice));
    assert_eq!(check("Loft", "", "Lyon", -3, 0, 30, 30), Err(Error::InvalidPrice));
    assert_eq!(check("Loft", "", "Lyon", 1, -1, 0, 0), Err(Error::InvalidPrice));
    assert_eq!(check("Loft", "", "Lyon", 1, 0, 29, 10), Err(Error::InvalidMinStay));
    assert_eq!(check("Loft", "", "Lyon", 1, 0, 31, 30), Err(Error::InvalidMaxStay));
}

#[test]
fn refused_listing_leaves_no_trace() {
    let mut r = registry();
    assert_eq!(
        r.create_property(OWNER, s(""), s(""), s("Lyon"), 900, 300, 30, 90, s(""), 10, rid(1)),
        Err(Error::InvalidTitle)
    );
    assert_eq!(r.get_property(rid(1)).err(), Some(Error::PropertyNotFound));
    assert!(r.property_list().is_empty());
    assert!(r.owner_index(&OWNER).is_empty());
}

#[test]
fn created_property_holds_what_was_given() {
    let mut r = registry();
    let id = list(&mut r, OWNER, rid(1));
    assert_eq!(id, rid(1));
    let p: &Property = r.get_property(id).unwrap();
    assert_eq!(p.id, rid(1));
    assert_eq!(p.owner, OWNER);
    assert_eq!(p.title, "Loft");
    assert_eq!(p.description, "Bright");
    assert_eq!(p.location, "Lyon");
    assert_eq!(p.price_per_month, 900);
    assert_eq!(p.security_deposit, 300);
    assert_eq!(p.min_stay_days, 30);
    assert_eq!(p.max_stay_days, 90);
    assert_eq!(p.image_url, "img");
    assert_eq!(p.created_at, 10);
    assert_eq!(p.updated_at, 10);
}

#[test]
fn update_replaces_texts_and_terms() {
    let mut r = registry();
    let id = list(&mut r, OWNER, rid(1));
    r.set_availability(OWNER, id, false, 12).unwrap();
    assert_eq!(
        r.update_property(OTHER, id, s("Den"), s("Dark"), s("Nice"), 800, 0, 40, 50, s("pic"), 20),
        Err(Error::Unauthorized)
    );
    assert_eq!(
        r.update_property(OWNER, rid(2), s("Den"), s("Dark"), s("Nice"), 800, 0, 40, 50, s("pic"), 20),
        Err(Error::PropertyNotFound)
    );
    assert_eq!(
        r.update_property(OWNER, id, s("Den"), s("Dark"), s("Nice"), 0, 0, 40, 50, s("pic"), 20),
        Err(Error::InvalidPrice)
    );
    assert_eq!(r.get_property(id).unwrap().title, "Loft");
    assert_eq!(
        r.update_property(OWNER, id, s("Den"), s("Dark"), s("Nice"), 800, 0, 40, 50, s("pic"), 20),
        Ok(())
    );
    let p = r.get_property(id).unwrap();
    assert_eq!(p.title, "Den");
    assert_eq!(p.description, "Dark");
    assert_eq!(p.location, "Nice");
    assert_eq!(p.price_per_month, 800);
    assert_eq!(p.security_deposit, 0);
    assert_eq!(p.min_stay_days, 40);
    assert_eq!(p.max_stay_days, 50);
    assert_eq!(p.image_url, "pic");
    assert_eq!(p.owner, OWNER);
    assert_eq!(p.created_at, 10);
    assert_eq!(p.updated_at, 20);
    assert!(!p.is_available);
    assert!(p.is_active);
}

#[test]
fn availability_and_deactivation_keep_the_texts() {
    let mut r = registry();
    let id = list(&mut r, OWNER, rid(1));
    assert_eq!(r.set_availability(OTHER, id, false, 12), Err(Error::Unauthorized));
    assert_eq!(r.set_availability(OWNER, rid(2), false, 12), Err(Error::PropertyNotFound));
    assert_eq!(r.set_availability(OWNER, id, false, 12), Ok(()));
    let p = r.get_property(id).unwrap();
    assert!(!p.is_available);
    assert!(p.is_active);
    assert_eq!(p.updated_at, 12);
    assert_eq!(p.title, "Loft");
    assert_eq!(p.image_url, "img");
    assert_eq!(r.set_availability(OWNER, id, true, 13), Ok(()));
    assert!(r.get_property(id).unwrap().is_available);
    assert_eq!(r.deactivate_property(OTHER, id, 14), Err(Error::Unauthorized));
    assert_eq!(r.deactivate_property(OWNER, rid(2), 14), Err(Error::PropertyNotFound));
    assert_eq!(r.deactivate_property(OWNER, id, 14), Ok(()));
    let p = r.get_property(id).unwrap();
    assert!(!p.is_available);
    assert!(!p.is_active);
    assert_eq!(p.updated_at, 14);
    assert_eq!(p.description, "Bright");
    assert_eq!(p.location, "Lyon");
    assert_eq!(p.price_per_month, 900);
}

#[test]
fn properties_are_listed_by_owner_and_by_offer() {
    let mut r = registry();
    list(&mut r, OWNER, rid(1));
    list(&mut r, OTHER, rid(2));
    list(&mut r, OWNER, rid(3));
    list(&mut r, OWNER, rid(4));
    r.set_availability(OWNER, rid(3), false, 20).unwrap();
    r.deactivate_property(OTHER, rid(2), 21).unwrap();
    let ids = |v: Vec<&Property>| v.iter().map(|p| p.id).collect::<Vec<RecordId>>();
    assert_eq!(r.property_list(), &vec![rid(1), rid(2), rid(3), rid(4)]);
    assert_eq!(r.owner_index(&OWNER), vec![rid(1), rid(3), rid(4)]);
    assert_eq!(ids(r.get_properties_by_owner(OWNER)), vec![rid(1), rid(3), rid(4)]);
    assert_eq!(ids(r.get_properties_by_owner(OTHER)), vec![rid(2)]);
    assert!(r.get_properties_by_owner(ADMIN).is_empty());
    assert_eq!(ids(r.get_available_properties()), vec![rid(1), rid(4)]);
}

#[test]
fn catalog_error_codes() {
    assert_eq!(Error::ContractPaused.code(), 1);
    assert_eq!(Error::Unauthorized.code(), 2);
    assert_eq!(Error::AlreadyInitialized.code(), 3);
    assert_eq!(Error::InvalidTitle.code(), 100);
    assert_eq!(Error::InvalidDescription.code(), 101);
    assert_eq!(Error::InvalidLocation.code(), 102);
    assert_eq!(Error::InvalidPrice.code(), 103);
    assert_eq!(Error::InvalidMinStay.code(), 104);
    assert_eq!(Error::InvalidMaxStay.code(), 105);
    assert_eq!(Error::PropertyNotFound.code(), 106);
}
