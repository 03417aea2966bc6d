use jewel_api::eval::find_customer;
use jewel_api::eval::is_deleted_status;
use jewel_api::eval::run_customer_list;
use jewel_api::query::customer_query_of_search;
use jewel_api::query::customers_bind;
use jewel_api::query::customers_sql;
use jewel_api::query::customer_by_id_sql;
use jewel_api::query::like_pattern;
use jewel_api::query::products_sql;
use jewel_api::query::rates_sql;
use jewel_api::respond::customer_detail_handler;
use jewel_api::respond::customers_handler;
use jewel_api::respond::detail_endpoint;
use jewel_api::respond::health_endpoint;
use jewel_api::respond::health_status_at;
use jewel_api::respond::list_endpoint;
use jewel_api::respond::products_handler;
use jewel_api::respond::rates_handler;
use jewel_api::text::blank;
use jewel_api::text::contains_bytes;
use jewel_api::text::ilike;
use jewel_api::types::Customer;
use jewel_api::types::CustomerRow;
use jewel_api::types::DbError;
use jewel_api::types::DbStatus;
use jewel_api::types::MetalRate;
use jewel_api::types::Product;
use jewel_api::types::ProductRow;
use jewel_api::HTTP_INTERNAL_ERROR;
use jewel_api::HTTP_NOT_FOUND;
use jewel_api::HTTP_OK;

fn customer(id: i32, name: &str, phone: &str, email: Option<&str>) -> Customer {
    Customer {
        id,
        name: name.as_bytes().to_vec(),
        phone: phone.as_bytes().to_vec(),
        email: email.map(|e| e.as_bytes().to_vec()),
        customer_type: None,
        kyc_verified: None,
        total_purchases_minor: None,
        created_at_millis: None,
    }
}

fn row(id: i32, name: &str, phone: &str, email: Option<&str>, status: &str) -> CustomerRow {
    CustomerRow {
        customer: customer(id, name, phone, email),
        status: status.as_bytes().to_vec(),
    }
}

fn product(id: i32, name: &str) -> Product {
    Product {
        id,
        name: name.as_bytes().to_vec(),
        metal_type: b"gold".to_vec(),
        weight_milligrams: 12_500,
        making_charges_minor: None,
        current_price_minor: Some(9_999_00),
        stock_quantity: Some(3),
        hallmark_number: None,
    }
}

#[test]
fn health_is_200_and_disconnected_when_db_unreachable() {
    let (payload, code) = health_status_at(false, 1_700_000_000_000);
    assert_eq!(code, HTTP_OK);
    assert_eq!(payload.database, DbStatus::Disconnected);
    assert_eq!(payload.timestamp_millis, 1_700_000_000_000);

    let (payload, code) = health_endpoint(false);
    assert_eq!(code, HTTP_OK);
    assert_eq!(payload.database, DbStatus::Disconnected);
}

#[test]
fn health_reports_connected_when_ping_succeeds() {
    let (payload, code) = health_endpoint(true);
    assert_eq!(code, HTTP_OK);
    assert_eq!(payload.database, DbStatus::Connected);
}

#[test]
fn three_products_come_back_in_store_order() {
    let rows = vec![
        ProductRow { product: product(3, "ring"), created_at_millis: Some(300) },
        ProductRow { product: product(2, "chain"), created_at_millis: Some(200) },
        ProductRow { product: product(1, "bangle"), created_at_millis: Some(100) },
    ];
    let out = products_handler(Ok(rows)).expect("listing succeeds");
    assert_eq!(out.len(), 3);
    assert_eq!(out[0].id, 3);
    assert_eq!(out[1].id, 2);
    assert_eq!(out[2].id, 1);
}

#[test]
fn empty_product_table_gives_empty_array() {
    let out = products_handler(Ok(Vec::new())).expect("listing succeeds");
    assert!(out.is_empty());
}

#[test]
fn product_store_failure_maps_to_500() {
    assert_eq!(products_handler(Err(DbError)), Err(HTTP_INTERNAL_ERROR));
}

#[test]
fn rates_keep_only_todays_snapshot() {
    let today = 20_000;
    let rows = vec![
        MetalRate { id: 1, metal_type: b"gold".to_vec(), rate_per_gram_minor: 6_400_00, date_days: today },
        MetalRate { id: 2, metal_type: b"silver".to_vec(), rate_per_gram_minor: 80_00, date_days: today - 1 },
        MetalRate { id: 3, metal_type: b"platinum".to_vec(), rate_per_gram_minor: 3_100_00, date_days: today },
    ];
    let out = rates_handler(Ok(rows), today).expect("listing succeeds");
    assert_eq!(out.len(), 2);
    assert_eq!(out[0].id, 1);
    assert_eq!(out[1].id, 3);
}

#[test]
fn rate_store_failure_maps_to_500() {
    assert_eq!(rates_handler(Err(DbError), 0), Err(HTTP_INTERNAL_ERROR));
}

#[test]
fn search_ann_matches_name_and_email_but_not_bob() {
    let rows = vec![
        row(1, "Anna Lee", "777-0000", None, "active"),
        row(2, "Carl", "888-1111", Some("dannie@x.com"), "active"),
        row(3, "Bob", "555-1234", None, "active"),
    ];
    let out = customers_handler(Ok(rows), Some(b"ann".to_vec())).expect("listing succeeds");
    assert_eq!(out.len(), 2);
    assert_eq!(out[0].id, 1);
    assert_eq!(out[1].id, 2);
}

#[test]
fn search_is_case_insensitive_both_ways() {
    let rows = vec![row(1, "ANNA", "1", None, "active"), row(2, "Bob", "2", None, "active")];
    let out = customers_handler(Ok(rows), Some(b"aNn".to_vec())).expect("listing succeeds");
    assert_eq!(out.len(), 1);
    assert_eq!(out[0].id, 1);

    assert!(ilike(&b"ANN".to_vec(), &b"anna lee".to_vec()));
    assert!(!ilike(&b"ann".to_vec(), &b"555-1234".to_vec()));
}

#[test]
fn deleted_rows_never_appear_in_the_listing() {
    let rows = vec![
        row(1, "Anna", "1", None, "active"),
        row(2, "Annette", "2", None, "deleted"),
        row(3, "Annika", "3", None, "vip"),
    ];
    let out = customers_handler(Ok(rows), Some(b"ann".to_vec())).expect("listing succeeds");
    assert_eq!(out.iter().map(|c| c.id).collect::<Vec<_>>(), vec![1, 3]);

    let rows = vec![
        row(1, "Anna", "1", None, "active"),
        row(2, "Annette", "2", None, "deleted"),
    ];
    let out = customers_handler(Ok(rows), None).expect("listing succeeds");
    assert_eq!(out.iter().map(|c| c.id).collect::<Vec<_>>(), vec![1]);
}

#[test]
fn empty_search_equals_no_search() {
    let stock = || {
        vec![
            row(1, "Anna", "1", None, "active"),
            row(2, "Bob", "2", None, "active"),
            row(3, "Cleo", "3", None, "deleted"),
        ]
    };
    let without = customers_handler(Ok(stock()), None).expect("listing succeeds");
    let with_empty = customers_handler(Ok(stock()), Some(Vec::new())).expect("listing succeeds");
    let with_blank = customers_handler(Ok(stock()), Some(b"   ".to_vec())).expect("listing succeeds");
    assert_eq!(without, with_empty);
    assert_eq!(without, with_blank);
    assert_eq!(without.len(), 2);
}

#[test]
fn listing_never_exceeds_twenty_rows() {
    let mut rows = Vec::new();
    for i in 0..25 {
        rows.push(row(i, "Anna", "1", None, "active"));
    }
    let out = customers_handler(Ok(rows), None).expect("listing succeeds");
    assert_eq!(out.len(), 20);
    assert_eq!(out[0].id, 0);
    assert_eq!(out[19].id, 19);

    let mut rows = Vec::new();
    for i in 0..20 {
        rows.push(row(i, "Anna", "1", None, "active"));
    }
    let out = customers_handler(Ok(rows), None).expect("listing succeeds");
    assert_eq!(out.len(), 20);
}

#[test]
fn filtered_listing_is_within_the_unfiltered_one_when_under_cap() {
    let stock = || {
        vec![
            row(1, "Anna Lee", "777", None, "active"),
            row(2, "Bob", "555", None, "active"),
            row(3, "Joanne", "888", None, "active"),
        ]
    };
    let all = customers_handler(Ok(stock()), None).expect("listing succeeds");
    let filtered = customers_handler(Ok(stock()), Some(b"ann".to_vec())).expect("listing succeeds");
    for c in &filtered {
        assert!(all.contains(c));
    }
    assert_eq!(filtered.iter().map(|c| c.id).collect::<Vec<_>>(), vec![1, 3]);
}

#[test]
fn customer_store_failure_maps_to_500() {
    assert_eq!(customers_handler(Err(DbError), None), Err(HTTP_INTERNAL_ERROR));
    assert_eq!(customer_detail_handler(Err(DbError), 1), Err(HTTP_INTERNAL_ERROR));
}

#[test]
fn deleted_customer_42_is_a_404() {
    let rows = vec![
        row(41, "Maya", "1", None, "active"),
        row(42, "Dinesh", "2", None, "deleted"),
    ];
    assert_eq!(customer_detail_handler(Ok(rows), 42), Err(HTTP_NOT_FOUND));
}

#[test]
fn missing_id_is_a_404_and_visible_id_is_found() {
    let rows = vec![row(7, "Maya", "1", Some("maya@x.com"), "active")];
    assert_eq!(customer_detail_handler(Ok(rows), 8), Err(HTTP_NOT_FOUND));

    let rows = vec![row(7, "Maya", "1", Some("maya@x.com"), "active")];
    let c = customer_detail_handler(Ok(rows), 7).expect("lookup succeeds");
    assert_eq!(c.id, 7);
    assert_eq!(c.name, b"Maya".to_vec());
    assert_eq!(c.email, Some(b"maya@x.com".to_vec()));
}

#[test]
fn lookup_skips_deleted_rows_with_the_same_id() {
    let rows = vec![
        row(9, "Old", "1", None, "deleted"),
        row(9, "New", "2", None, "active"),
    ];
    let c = customer_detail_handler(Ok(rows), 9).expect("lookup succeeds");
    assert_eq!(c.name, b"New".to_vec());
}

#[test]
fn detail_endpoint_separates_miss_from_failure() {
    assert_eq!(detail_endpoint(Ok(None)), Err(HTTP_NOT_FOUND));
    assert_eq!(detail_endpoint(Err(DbError)), Err(HTTP_INTERNAL_ERROR));
    let c = customer(1, "Anna", "1", None);
    assert_eq!(detail_endpoint(Ok(Some(c.clone()))), Ok(c));
}

#[test]
fn list_endpoint_passes_rows_through() {
    let rows = vec![product(1, "ring")];
    assert_eq!(list_endpoint(Ok(rows.clone())), Ok(rows));
    assert_eq!(list_endpoint::<Product>(Err(DbError)), Err(HTTP_INTERNAL_ERROR));
}

#[test]
fn blank_and_absent_search_build_the_unfiltered_query() {
    let q = customer_query_of_search(None);
    assert!(customers_bind(&q).is_none());
    let q = customer_query_of_search(Some(Vec::new()));
    assert!(customers_bind(&q).is_none());
    let q = customer_query_of_search(Some(b" \t\r\n ".to_vec()));
    assert!(customers_bind(&q).is_none());
}

#[test]
fn a_term_builds_one_wrapped_pattern() {
    let q = customer_query_of_search(Some(b"ann".to_vec()));
    assert_eq!(customers_bind(&q), Some(b"%ann%".to_vec()));
    assert_eq!(like_pattern(&b"o'brien".to_vec()), b"%o'brien%".to_vec());
}

#[test]
fn sql_text_is_fixed_and_never_holds_the_term() {
    let unfiltered = customer_query_of_search(None);
    let filtered = customer_query_of_search(Some(b"'; DROP TABLE customers; --".to_vec()));
    assert_eq!(
        customers_sql(&unfiltered),
        "SELECT id, name, phone, email, customer_type, kyc_verified, CAST(total_purchases AS FLOAT) as total_purchases, created_at FROM customers WHERE status != 'deleted' ORDER BY created_at DESC LIMIT 20"
    );
    assert_eq!(
        customers_sql(&filtered),
        "SELECT id, name, phone, email, customer_type, kyc_verified, CAST(total_purchases AS FLOAT) as total_purchases, created_at FROM customers WHERE status != 'deleted' AND (name ILIKE $1 OR phone ILIKE $1 OR email ILIKE $1) ORDER BY created_at DESC LIMIT 20"
    );
    assert!(!customers_sql(&filtered).contains("DROP"));
    assert!(products_sql().contains("ORDER BY created_at DESC"));
    assert!(rates_sql().contains("WHERE date = CURRENT_DATE"));
    assert!(customer_by_id_sql().contains("status != 'deleted'"));
}

#[test]
fn text_helpers_behave_on_edges() {
    assert!(blank(&Vec::new()));
    assert!(blank(&b" \t".to_vec()));
    assert!(!blank(&b" a ".to_vec()));
    assert!(contains_bytes(&b"abc".to_vec(), &Vec::new()));
    assert!(!contains_bytes(&Vec::new(), &b"a".to_vec()));
    assert!(contains_bytes(&b"abc".to_vec(), &b"abc".to_vec()));
    assert!(!contains_bytes(&b"ab".to_vec(), &b"abc".to_vec()));
    assert!(is_deleted_status(&b"deleted".to_vec()));
    assert!(!is_deleted_status(&b"Deleted".to_vec()));
    assert!(!is_deleted_status(&b"active".to_vec()));
}

#[test]
fn evaluators_can_stand_in_for_the_store() {
    let q = customer_query_of_search(Some(b"ann".to_vec()));
    let rows = vec![
        row(1, "Anna", "1", None, "active"),
        row(2, "Bob", "2", None, "active"),
    ];
    let out = run_customer_list(rows, &q);
    assert_eq!(out.len(), 1);
    assert_eq!(out[0].id, 1);

    let rows = vec![row(5, "Maya", "1", None, "active")];
    let found = find_customer(rows, 5).expect("row is visible");
    assert_eq!(found.id, 5);
}
