use ticket_ingest::amount::Amount;
use ticket_ingest::datetime::DateTime;
use ticket_ingest::models::{ProductUpsert, PurchaseInsert, TicketPdfInsert};
use ticket_ingest::store::{
    get_product, get_ticket_pdf, insert_purchase, insert_ticket_pdf, upsert_product, Store,
};

fn dt(year: i32, month: u8, day: u8, hour: u8, minute: u8, second: u8) -> DateTime {
    DateTime { year, month, day, hour, minute, second }
}

#[test]
fn test_upsert_new_product() {
    let mut store = Store::new();
    let product = ProductUpsert {
        nombre: "LECHE ENTERA".to_string(),
        marca: Some("Hacendado".to_string()),
        unidad: "l".to_string(),
        precio_actual: Some(Amount { units: 9500 }), // 0.95
    };

    let inserted = upsert_product(&mut store, &product, 100);

    assert_eq!(inserted.nombre, "LECHE ENTERA");
    assert_eq!(inserted.marca, Some("Hacendado".to_string()));
    assert_eq!(inserted.unidad, Some("l".to_string()));
    assert_eq!(inserted.precio_actual, Some(Amount { units: 9500 }));
}

#[test]
fn test_upsert_existing_product_preserves_marca() {
    let mut store = Store::new();
    let product1 = ProductUpsert {
        nombre: "PAN INTEGRAL".to_string(),
        marca: Some("Hacendado".to_string()),
        unidad: "unidad".to_string(),
        precio_actual: Some(Amount { units: 15000 }), // 1.50
    };
    upsert_product(&mut store, &product1, 100);

    // A later observation without a brand must not erase the known one.
    let product2 = ProductUpsert {
        nombre: "PAN INTEGRAL".to_string(),
        marca: None,
        unidad: "unidad".to_string(),
        precio_actual: Some(Amount { units: 16000 }), // 1.60
    };
    let updated = upsert_product(&mut store, &product2, 200);

    assert_eq!(updated.marca, Some("Hacendado".to_string()));
    assert_eq!(updated.precio_actual, Some(Amount { units: 16000 }));
}

#[test]
fn stale_observation_never_changes_price() {
    let mut store = Store::new();
    let newer = ProductUpsert {
        nombre: "CAFE MOLIDO".to_string(),
        marca: None,
        unidad: "unidad".to_string(),
        precio_actual: Some(Amount { units: 32000 }),
    };
    upsert_product(&mut store, &newer, 500);

    // An upsert whose merge instant is at or before the stored
    // timestamp keeps the stored price.
    let stale = ProductUpsert {
        nombre: "CAFE MOLIDO".to_string(),
        marca: None,
        unidad: "unidad".to_string(),
        precio_actual: Some(Amount { units: 1000 }),
    };
    let merged = upsert_product(&mut store, &stale, 500);
    assert_eq!(merged.precio_actual, Some(Amount { units: 32000 }));

    let found = get_product(&store, "CAFE MOLIDO").expect("row must exist");
    assert_eq!(found.precio_actual, Some(Amount { units: 32000 }));
    assert_eq!(store.productos.len(), 1);
}

#[test]
fn test_insert_purchase() {
    let mut store = Store::new();
    let purchase = PurchaseInsert {
        numero_factura: "0001-001-000001".to_string(),
        usuario_email: "test@example.com".to_string(),
        fecha_hora: dt(2025, 1, 15, 10, 30, 0),
        total: Amount { units: 456500 }, // 45.65
        tienda: Some("MERCADONA S.A.".to_string()),
        ubicacion: Some("CALLE TEST 123".to_string()),
        metodo_pago: Some("TARJETA BANCARIA".to_string()),
        numero_operacion: Some("OP123456".to_string()),
    };

    let inserted = insert_purchase(&mut store, &purchase, 100).expect("insert must succeed");

    assert_eq!(inserted.numero_factura, "0001-001-000001");
    assert_eq!(inserted.usuario_email, "test@example.com");
    assert_eq!(inserted.total, Amount { units: 456500 });
}

#[test]
fn duplicate_invoice_insert_is_refused() {
    let mut store = Store::new();
    let purchase = PurchaseInsert {
        numero_factura: "F-1".to_string(),
        usuario_email: "a@b.c".to_string(),
        fecha_hora: dt(2025, 1, 1, 0, 0, 0),
        total: Amount { units: 0 },
        tienda: None,
        ubicacion: None,
        metodo_pago: None,
        numero_operacion: None,
    };
    insert_purchase(&mut store, &purchase, 1).expect("first insert succeeds");
    let second = insert_purchase(&mut store, &purchase, 2);
    assert!(matches!(
        second,
        Err(ticket_ingest::error::AppError::DatabaseIntegrity(_))
    ));
    assert_eq!(store.compras.len(), 1);
}

#[test]
fn test_insert_and_get_ticket_pdf() {
    let mut store = Store::new();
    let purchase = PurchaseInsert {
        numero_factura: "0001-001-000001".to_string(),
        usuario_email: "test@example.com".to_string(),
        fecha_hora: dt(2025, 1, 15, 10, 30, 0),
        total: Amount { units: 456500 },
        tienda: None,
        ubicacion: None,
        metodo_pago: None,
        numero_operacion: None,
    };
    insert_purchase(&mut store, &purchase, 100).expect("purchase insert succeeds");

    let fake_pdf = vec![0x25, 0x50, 0x44, 0x46]; // "%PDF" magic bytes
    let ticket = TicketPdfInsert {
        numero_factura: "0001-001-000001".to_string(),
        ticket_pdf: fake_pdf.clone(),
        ticket_nombre_archivo: "ticket_test.pdf".to_string(),
    };

    let inserted = insert_ticket_pdf(&mut store, &ticket, 100).expect("pdf insert succeeds");

    assert_eq!(inserted.numero_factura, "0001-001-000001");
    assert_eq!(inserted.ticket_pdf, fake_pdf);
    assert_eq!(inserted.ticket_nombre_archivo, "ticket_test.pdf");
    assert_eq!(inserted.ticket_tamano_bytes, 4);

    let retrieved = get_ticket_pdf(&store, "0001-001-000001").expect("PDF should exist");
    assert_eq!(retrieved.ticket_pdf, fake_pdf);
}
