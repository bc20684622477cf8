use pharmacy::page::PageError;
use pharmacy::search::{own_medications, ApothecaryServiceError, MedicationDetail, MedicationDetailWithQuantity};
use pharmacy::reservation::{
    check_delete, find_stock, present, present_now, reserve, reserve_new,
    MedicationQuantity,
    MedicationQuantityPackage, MedicationQuantityUnknown, MedicationReservationRequest,
    MedicationReservationStatus, Price, QuantityType, Reservation, ReservationServiceError,
    ReservationStatus, Stock, StockEntry, MAX_DATE_TIME, RESERVATION_WINDOW_SECONDS,
};

const START: i64 = 1_700_000_000;

fn price() -> Price {
    Price { mantissa: 1299, scale: 2 }
}

fn package_stock(quantity: u64) -> StockEntry {
    StockEntry { apothecary_id: 7, medication_id: 9, stock: Stock::Package { quantity, price: price() } }
}

fn request(quantity: u64, start: i64) -> MedicationReservationRequest {
    MedicationReservationRequest {
        apothecary_id: 7,
        medication_id: 9,
        quantity: MedicationQuantity::Package(MedicationQuantityPackage { quantity, price: price() }),
        start_date_time: start,
    }
}

fn stored(status: ReservationStatus, end: Option<i64>) -> Reservation {
    Reservation {
        id: 1,
        apothecary_id: 7,
        medication_id: 9,
        user_id: 3,
        quantity_type: QuantityType::Package,
        quantity: Some(2),
        price: price(),
        status,
        start_date_time: end.map(|e| e - RESERVATION_WINDOW_SECONDS),
        end_date_time: end,
    }
}

#[test]
fn reserving_all_packages_succeeds() {
    let (r, left) = reserve(Some(package_stock(10)), 3, &request(10, START), 42).unwrap();
    assert_eq!(r.status, ReservationStatus::Active);
    assert_eq!(r.start_date_time, Some(START));
    assert_eq!(r.end_date_time, Some(START + 30 * 60));
    assert_eq!(r.quantity, Some(10));
    assert_eq!(r.price, price());
    assert_eq!(r.id, 42);
    assert_eq!(r.user_id, 3);
    assert_eq!(r.quantity_type, QuantityType::Package);
    assert_eq!(left.stock, Stock::Package { quantity: 0, price: price() });
}

#[test]
fn reserving_more_than_stock_fails() {
    let e = reserve(Some(package_stock(10)), 3, &request(11, START), 42).unwrap_err();
    assert_eq!(e, ReservationServiceError::NotEnoughAvailable);
}

#[test]
fn second_reservation_sees_first_decrement() {
    let stock = package_stock(10);
    let (_, left) = reserve(Some(stock), 3, &request(6, START), 1).unwrap();
    assert_eq!(left.stock, Stock::Package { quantity: 4, price: price() });
    let e = reserve(Some(left), 4, &request(6, START), 2).unwrap_err();
    assert_eq!(e, ReservationServiceError::NotEnoughAvailable);
    let (_, rest) = reserve(Some(left), 4, &request(4, START), 2).unwrap();
    assert_eq!(rest.stock, Stock::Package { quantity: 0, price: price() });
}

#[test]
fn missing_stock_record_is_not_found() {
    let e = reserve(None, 3, &request(1, START), 42).unwrap_err();
    assert_eq!(e, ReservationServiceError::MedicationNotFound);
}

#[test]
fn untracked_stock_makes_a_pending_reservation() {
    let stock = StockEntry { apothecary_id: 7, medication_id: 9, stock: Stock::Unknown { price: price() } };
    let (r, left) = reserve(Some(stock), 3, &request(5, START), 42).unwrap();
    assert_eq!(r.status, ReservationStatus::Pending);
    assert_eq!(r.start_date_time, None);
    assert_eq!(r.end_date_time, None);
    assert_eq!(r.quantity, Some(5));
    assert_eq!(r.quantity_type, QuantityType::Unknown);
    assert_eq!(left, stock);
}

#[test]
fn other_kinds_of_request_are_unavailable() {
    let mut liquid = request(1, START);
    liquid.quantity = MedicationQuantity::Liquid;
    assert_eq!(
        reserve(Some(package_stock(10)), 3, &liquid, 1).unwrap_err(),
        ReservationServiceError::NotEnoughAvailable
    );
    let mut unknown = request(1, START);
    unknown.quantity = MedicationQuantity::Unknown(MedicationQuantityUnknown);
    assert_eq!(
        reserve(Some(package_stock(10)), 3, &unknown, 1).unwrap_err(),
        ReservationServiceError::NotEnoughAvailable
    );
}

#[test]
fn window_past_the_last_moment_is_internal() {
    let e = reserve(Some(package_stock(10)), 3, &request(1, MAX_DATE_TIME - 1799), 1).unwrap_err();
    assert_eq!(e, ReservationServiceError::Internal);
    let (r, _) = reserve(Some(package_stock(10)), 3, &request(1, MAX_DATE_TIME - 1800), 1).unwrap();
    assert_eq!(r.end_date_time, Some(MAX_DATE_TIME));
}

#[test]
fn fresh_reservation_gets_random_id() {
    let (a, _) = reserve_new(Some(package_stock(10)), 3, &request(1, START)).unwrap();
    let (b, _) = reserve_new(Some(package_stock(10)), 3, &request(1, START)).unwrap();
    assert_ne!(a.id, b.id);
    assert_eq!(a.status, ReservationStatus::Active);
}

#[test]
fn expired_window_shows_expired() {
    let now = START;
    let r = stored(ReservationStatus::Active, Some(now - 1));
    assert_eq!(r.presented_status(now), MedicationReservationStatus::Expired);
    let done = stored(ReservationStatus::Done, Some(now - 1));
    assert_eq!(done.presented_status(now), MedicationReservationStatus::Expired);
}

#[test]
fn open_window_shows_stored_state() {
    let now = START;
    assert_eq!(
        stored(ReservationStatus::Active, Some(now)).presented_status(now),
        MedicationReservationStatus::Active
    );
    assert_eq!(
        stored(ReservationStatus::Pending, None).presented_status(now),
        MedicationReservationStatus::Pending
    );
    assert_eq!(
        stored(ReservationStatus::Rejected, None).presented_status(now),
        MedicationReservationStatus::Rejected
    );
    assert_eq!(
        stored(ReservationStatus::Done, Some(now + 5)).presented_status(now),
        MedicationReservationStatus::Done
    );
}

#[test]
fn listing_derives_states_without_changing_records() {
    let list = vec![
        stored(ReservationStatus::Active, Some(START - 1)),
        stored(ReservationStatus::Pending, None),
    ];
    let page = present(list.clone(), START);
    assert_eq!(page.content[0], (list[0], MedicationReservationStatus::Expired));
    assert_eq!(page.content[1], (list[1], MedicationReservationStatus::Pending));
    assert_eq!(page.content[0].0.status, ReservationStatus::Active);
    assert_eq!(page.total_elements, 2);
    assert_eq!(page.number_of_elements, 2);
    assert!(page.first && page.last);
}

#[test]
fn listing_now_expires_old_windows() {
    let list = vec![stored(ReservationStatus::Active, Some(1_000)), stored(ReservationStatus::Pending, None)];
    let page = present_now(list);
    assert_eq!(page.content[0].1, MedicationReservationStatus::Expired);
    assert_eq!(page.content[1].1, MedicationReservationStatus::Pending);
}

#[test]
fn delete_needs_owner() {
    let r = stored(ReservationStatus::Active, None);
    assert_eq!(check_delete(Some(r), 3).unwrap(), r);
    assert_eq!(check_delete(Some(r), 4).unwrap_err(), ReservationServiceError::ReservationNotFound);
    assert_eq!(check_delete(None, 3).unwrap_err(), ReservationServiceError::ReservationNotFound);
}

#[test]
fn reservation_error_responses() {
    assert_eq!(ReservationServiceError::NotEnoughAvailable.response(), (404, "Not enough available".to_string()));
    assert_eq!(ReservationServiceError::MedicationNotFound.response(), (404, "Medication not found".to_string()));
    assert_eq!(ReservationServiceError::UserNotFound.response(), (404, "User not found".to_string()));
    assert_eq!(ReservationServiceError::ReservationNotFound.response(), (404, "Reservation not found".to_string()));
    assert_eq!(ReservationServiceError::Internal.response(), (500, String::new()));
    assert_eq!(ReservationServiceError::from(PageError::InvalidPageSize), ReservationServiceError::Internal);
}

#[test]
fn quantities_as_clients_see_them() {
    assert_eq!(
        package_stock(4).quantity(),
        MedicationQuantity::Package(MedicationQuantityPackage { quantity: 4, price: price() })
    );
    let unknown = StockEntry { apothecary_id: 1, medication_id: 2, stock: Stock::Unknown { price: price() } };
    assert_eq!(unknown.quantity(), MedicationQuantity::Unknown(MedicationQuantityUnknown));
    assert_eq!(
        stored(ReservationStatus::Active, None).requested_quantity(),
        MedicationQuantity::Package(MedicationQuantityPackage { quantity: 2, price: price() })
    );
}

#[test]
fn state_and_kind_words() {
    assert_eq!(ReservationStatus::Active.as_text(), "active");
    assert_eq!(ReservationStatus::Pending.as_text(), "pending");
    assert_eq!(ReservationStatus::Rejected.as_text(), "rejected");
    assert_eq!(ReservationStatus::Done.as_text(), "done");
    assert_eq!(QuantityType::Package.as_text(), "package");
    assert_eq!(QuantityType::Unknown.as_text(), "unknown");
}

#[test]
fn own_medications_follow_the_medication_order() {
    let entries = vec![
        StockEntry { apothecary_id: 7, medication_id: 1, stock: Stock::Unknown { price: price() } },
        StockEntry { apothecary_id: 8, medication_id: 2, stock: Stock::Package { quantity: 1, price: price() } },
        StockEntry { apothecary_id: 7, medication_id: 2, stock: Stock::Package { quantity: 6, price: price() } },
    ];
    let aspirin = MedicationDetail { id: 2, name: "Aspirin".to_string() };
    let salve = MedicationDetail { id: 1, name: "Salve".to_string() };
    let listed = own_medications(7, &vec![aspirin.clone(), salve.clone()], &entries).unwrap();
    assert_eq!(
        listed,
        vec![
            MedicationDetailWithQuantity {
                medication: aspirin,
                quantity: MedicationQuantity::Package(MedicationQuantityPackage { quantity: 6, price: price() }),
            },
            MedicationDetailWithQuantity {
                medication: salve,
                quantity: MedicationQuantity::Unknown(MedicationQuantityUnknown),
            },
        ]
    );
    assert_eq!(find_stock(&entries, 8, 2), Some(entries[1]));
    assert_eq!(find_stock(&entries, 8, 1), None);
    let missing = MedicationDetail { id: 3, name: "Missing".to_string() };
    assert_eq!(own_medications(7, &vec![missing], &entries).unwrap_err(), ApothecaryServiceError::NotFound);
    assert!(own_medications(7, &vec![], &entries).unwrap().is_empty());
}
