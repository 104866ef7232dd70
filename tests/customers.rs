use rest_backend::customers::{
    customer_created, customer_found, customers_listed, customer_page, customer_updated, format_created_at, page_window,
    AllCustomers, CustomerResponse, FilterOptions, PageWindow, Timestamp,
};
use rest_backend::error::{ApiError, DbFailure};
use rest_backend::response::{error_envelope, SuccessResponse};

fn ts(year: i32, month: u8, day: u8, hour: u8, minute: u8, second: u8) -> Timestamp {
    Timestamp { year, month, day, hour, minute, second }
}

fn customer(id: i32, created_at: Option<Timestamp>) -> AllCustomers {
    AllCustomers { id, name: format!("c{}", id), email: format!("c{}@x.io", id), created_at }
}

#[test]
fn timestamp_is_formatted_day_first() {
    assert_eq!(format_created_at(Some(ts(2024, 3, 5, 7, 8, 9))), "05/03/2024 07:08:09");
    assert_eq!(format_created_at(Some(ts(1999, 12, 31, 23, 59, 59))), "31/12/1999 23:59:59");
    assert_eq!(format_created_at(Some(ts(7, 1, 1, 0, 0, 0))), "01/01/0007 00:00:00");
    assert_eq!(format_created_at(Some(ts(-44, 3, 15, 12, 0, 0))), "15/03/-0044 12:00:00");
}

#[test]
fn absent_or_unformattable_timestamp_is_a_dash() {
    assert_eq!(format_created_at(None), "-");
    assert_eq!(format_created_at(Some(ts(2024, 13, 5, 7, 8, 9))), "-");
    assert_eq!(format_created_at(Some(ts(2024, 1, 0, 7, 8, 9))), "-");
    assert_eq!(format_created_at(Some(ts(2024, 1, 1, 24, 0, 0))), "-");
    assert_eq!(format_created_at(Some(ts(10000, 1, 1, 0, 0, 0))), "-");
}

#[test]
fn page_two_of_ten_is_offset_by_ten() {
    let w = page_window(&FilterOptions { page: Some(2), limit: Some(10) }).unwrap();
    assert_eq!(w, PageWindow { limit: 10, offset: 10 });
}

#[test]
fn pagination_defaults() {
    let w = page_window(&FilterOptions { page: None, limit: None }).unwrap();
    assert_eq!(w, PageWindow { limit: 10, offset: 0 });
    let w = page_window(&FilterOptions { page: Some(3), limit: None }).unwrap();
    assert_eq!(w, PageWindow { limit: 10, offset: 20 });
    let w = page_window(&FilterOptions { page: None, limit: Some(25) }).unwrap();
    assert_eq!(w, PageWindow { limit: 25, offset: 0 });
}

#[test]
fn page_zero_is_clamped_to_first_page() {
    let w = page_window(&FilterOptions { page: Some(0), limit: Some(5) }).unwrap();
    assert_eq!(w, PageWindow { limit: 5, offset: 0 });
}

#[test]
fn oversized_window_is_bad_request() {
    let too_big = (i32::MAX as usize) + 1;
    assert_eq!(page_window(&FilterOptions { page: None, limit: Some(too_big) }).unwrap_err(), ApiError::BadRequest);
    assert_eq!(page_window(&FilterOptions { page: Some(usize::MAX), limit: Some(10) }).unwrap_err(), ApiError::BadRequest);
    let w = page_window(&FilterOptions { page: Some(usize::MAX), limit: Some(0) }).unwrap();
    assert_eq!(w, PageWindow { limit: 0, offset: 0 });
}

#[test]
fn customer_page_keeps_total_and_order() {
    let rows = vec![customer(3, Some(ts(2024, 3, 5, 7, 8, 9))), customer(1, None)];
    let a = customer_page(42, &rows);
    assert_eq!(a.total_count, 42);
    assert_eq!(a.customers.len(), 2);
    assert_eq!(a.customers[0].id, 3);
    assert_eq!(a.customers[0].created_at, "05/03/2024 07:08:09");
    assert_eq!(a.customers[1].id, 1);
    assert_eq!(a.customers[1].name, "c1");
    assert_eq!(a.customers[1].created_at, "-");
    let b = customer_page(42, &Vec::new());
    assert_eq!(b.total_count, a.total_count);
    assert!(b.customers.is_empty());
}

#[test]
fn customer_response_from_row() {
    let r = CustomerResponse::from(customer(9, Some(ts(2023, 11, 2, 14, 30, 0))));
    assert_eq!(r.id, 9);
    assert_eq!(r.name, "c9");
    assert_eq!(r.email, "c9@x.io");
    assert_eq!(r.created_at, "02/11/2023 14:30:00");
}

#[test]
fn customer_lookup_outcomes() {
    let r = customer_found(Ok(Some(customer(2, None)))).ok().unwrap();
    assert_eq!(r.id, 2);
    assert_eq!(customer_found(Ok(None)).err(), Some(ApiError::NotFound));
    assert_eq!(customer_found(Err(DbFailure)).err(), Some(ApiError::Internal));
}

#[test]
fn customer_create_and_update_envelopes() {
    let c = customer_created(Ok(5)).ok().unwrap();
    assert_eq!(c.status, 201);
    assert_eq!(c.message, "Customer created successfully");
    assert_eq!(customer_created(Err(DbFailure)).err(), Some(ApiError::Internal));
    let u = customer_updated(Ok(0)).ok().unwrap();
    assert_eq!(u.status, 200);
    assert_eq!(u.message, "Customer updated successfully");
    assert_eq!(customer_updated(Err(DbFailure)).err(), Some(ApiError::Internal));
}

#[test]
fn success_response_new() {
    let s = SuccessResponse::new("done", 202);
    assert_eq!(s.message, "done");
    assert_eq!(s.status, 202);
}

#[test]
fn error_envelope_is_500() {
    let e = error_envelope("boom");
    assert_eq!(e.error, "boom");
    assert_eq!(e.status, 500);
}

#[test]
fn customers_listing_outcomes() {
    let p = customers_listed(Ok(vec![customer(4, None)]), Ok(17)).ok().unwrap();
    assert_eq!(p.total_count, 17);
    assert_eq!(p.customers.len(), 1);
    assert_eq!(p.customers[0].id, 4);
    assert_eq!(customers_listed(Err(DbFailure), Ok(17)).err(), Some(ApiError::Internal));
    assert_eq!(customers_listed(Ok(Vec::new()), Err(DbFailure)).err(), Some(ApiError::Internal));
}

#[test]
fn timestamp_new_checks_ranges() {
    assert_eq!(Timestamp::new(2024, 2, 29, 23, 59, 59), Some(ts(2024, 2, 29, 23, 59, 59)));
    assert_eq!(Timestamp::new(2024, 0, 1, 0, 0, 0), None);
    assert_eq!(Timestamp::new(2024, 1, 32, 0, 0, 0), None);
    assert_eq!(Timestamp::new(2024, 1, 1, 0, 60, 0), None);
    assert_eq!(Timestamp::new(10000, 1, 1, 0, 0, 0), None);
}
