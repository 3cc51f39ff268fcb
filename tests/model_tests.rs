use transdirect::account::{Account, Member};
use transdirect::booking::{booking_path, bookings_path, BookingRequest};
use transdirect::product::{Dimensions, Product};

fn src_dest() -> (Account, Account) {
    (Account {
        address: "130 Royal St".to_string(),
        name: "John Smith".to_string(),
        email: "jsmith@google.com".to_string(),
        postcode: "6008".to_string(),
        state: "WA".to_string(),
        suburb: "East Perth".to_string(),
        kind: "business".to_string(),
        country: "AU".to_string(),
        company_name: "Royal Australian Mint".to_string(),
    },
    Account {
        address: "1 Pearl Bay Ave".to_string(),
        name: "Jane Doe".to_string(),
        email: "jdoe@google.com".to_string(),
        postcode: "2008".to_string(),
        state: "NSW".to_string(),
        suburb: "Mosman".to_string(),
        kind: "residential".to_string(),
        country: "AU".to_string(),
        company_name: "Sydney Harbour Operations Ltd.".to_string(),
    })
}

#[test]
fn default_request_is_blank() {
    let b: BookingRequest<u32, f64> = BookingRequest::new();
    assert_eq!(b.declared_value, 0.0);
    assert_eq!(b.referrer, "");
    assert_eq!(b.requesting_site, "");
    assert!(!b.tailgate_pickup);
    assert!(!b.tailgate_delivery);
    assert!(b.items.is_empty());
    assert!(b.sender.is_none());
    assert!(b.receiver.is_none());
    let d: BookingRequest<u64, f32> = BookingRequest::default();
    assert_eq!(d.declared_value, 0.0f32);
    assert!(d.items.is_empty());
}

#[test]
fn dimensions_from_lwh_keep_their_values() {
    let f = Dimensions::from_lwh(15.0f64, 15.0, 15.0);
    assert_eq!(f, Dimensions { length: 15.0, width: 15.0, height: 15.0 });
    let copy = f;
    assert_eq!(copy, f);
    let i = Dimensions::from_lwh(15u32, 15, 15);
    assert_eq!(i, Dimensions { length: 15, width: 15, height: 15 });
    assert_eq!(i.clone(), i);
    let o = Dimensions::from_lwh(1u32, 2, 3);
    assert_eq!((o.length, o.width, o.height), (1, 2, 3));
}

#[test]
fn blank_product_and_dimensions() {
    let p: Product<u32, f64> = Product::new();
    assert_eq!(p.quantity, 0);
    assert_eq!(p.weight, 0.0);
    assert_eq!(p.dimensions, Dimensions::new());
    assert_eq!(p.dimensions, Dimensions { length: 0.0, width: 0.0, height: 0.0 });
    assert_eq!(p.description, "");
    assert_eq!(p.id, None);
    assert_eq!(Product::<u32, f64>::default(), p);
}

#[test]
fn blank_account() {
    let a = Account::default();
    assert_eq!(a.address, "");
    assert_eq!(a.kind, "");
    assert_eq!(a.country, "");
    assert_eq!(a.company_name, "");
    assert_eq!(a, Account::default());
}

#[test]
fn request_assembles_accounts_and_items() {
    let (sender, receiver) = src_dest();
    let items = vec![Product { weight: 2.0, quantity: 1, dimensions: Dimensions { length: 5.0f64, width: 5.0f64, height: 5.0f64 }, ..Product::new() }];
    let b: BookingRequest<u32, f64> = BookingRequest {
        declared_value: 53.3,
        items: items.clone(),
        sender: Some(&sender),
        receiver: Some(&receiver),
        ..BookingRequest::default()
    };
    assert_eq!(b.declared_value, 53.3);
    assert_eq!(b.items, items);
    assert_eq!(b.sender.unwrap().postcode, "6008");
    assert_eq!(b.sender.unwrap().state, "WA");
    assert_eq!(b.receiver.unwrap().postcode, "2008");
    assert_eq!(b.receiver.unwrap().suburb, "Mosman");
}

#[test]
fn resource_paths() {
    assert_eq!(Member::get_path(), "member");
    assert_eq!(bookings_path(), "bookings/v4");
    assert_eq!(BookingRequest::<u32, f64>::get_path(), "bookings/v4");
    assert_eq!(booking_path(623630), "bookings/v4/623630");
    assert_eq!(booking_path(0), "bookings/v4/0");
    assert_eq!(booking_path(7), "bookings/v4/7");
    assert_eq!(booking_path(10), "bookings/v4/10");
    assert_eq!(booking_path(u32::MAX), "bookings/v4/4294967295");
}
