use ticket_ingest::amount::Amount;
use ticket_ingest::error::AppError;
use ticket_ingest::extraction::{ProcessTicketResponse, TicketProduct};
use ticket_ingest::ingest::ingest_ticket;
use ticket_ingest::store::{get_product, Store};

// "JVBERi0=" is the standard base64 encoding of the bytes "%PDF-".
const PDF_B64: &str = "JVBERi0=";
const PDF_BYTES: [u8; 5] = [0x25, 0x50, 0x44, 0x46, 0x2d];

fn item(name: &str, qty_units: i64, unit_price_units: i64, line_total_units: i64) -> TicketProduct {
    TicketProduct {
        nombre: name.to_string(),
        cantidad: Some(Amount { units: qty_units }),
        unidad: "unidad".to_string(),
        precio_unitario: Some(Amount { units: unit_price_units }),
        precio_total: Some(Amount { units: line_total_units }),
        descuento: None,
        iva_porcentaje: None,
        iva_importe: None,
    }
}

fn extraction(
    invoice: Option<&str>,
    total_units: Option<i64>,
    items: Vec<TicketProduct>,
) -> ProcessTicketResponse {
    ProcessTicketResponse {
        ticket_id: "t-1".to_string(),
        raw_text: String::new(),
        numero_factura: invoice.map(|s| s.to_string()),
        fecha: None,
        fecha_hora: Some("2025-01-15 10:30:00".to_string()),
        total: total_units.map(|u| Amount { units: u }),
        tienda: None,
        ubicacion: None,
        metodo_pago: None,
        numero_operacion: None,
        productos: items,
        iva_desglose: vec![],
    }
}

#[test]
fn scenario_single_bread_ticket() {
    // extraction {invoice: "A-001", total: 10.00,
    //             items: [{bread, qty 1, unit 10.00, total 10.00}]}
    let mut store = Store::new();
    let ext = extraction(Some("A-001"), Some(100_000), vec![item("bread", 10_000, 100_000, 100_000)]);

    let summary = ingest_ticket(&mut store, "user@example.com", PDF_B64, "ticket.pdf", ext, 7, 0)
        .expect("the scenario ticket must ingest");

    assert!(summary.ingested);
    assert_eq!(summary.numero_factura, "A-001");
    assert_eq!(summary.total, Amount { units: 100_000 });
    assert_eq!(summary.productos_insertados, 1);

    assert_eq!(store.compras.len(), 1);
    assert_eq!(store.compras_productos.len(), 1);
    assert_eq!(store.productos.len(), 1);
    assert_eq!(store.tickets_pdf.len(), 1);

    let entry = get_product(&store, "BREAD").expect("catalog entry under the normalized name");
    assert_eq!(entry.nombre, "BREAD");
    assert_eq!(entry.precio_actual, Some(Amount { units: 100_000 }));

    let line = &store.compras_productos[0];
    assert_eq!(line.compra_numero_factura, "A-001");
    assert_eq!(line.producto_nombre, "BREAD");
    assert_eq!(line.cantidad, Amount { units: 10_000 });

    // The stored document holds the decoded bytes, not the transport text.
    assert_eq!(store.tickets_pdf[0].ticket_pdf, PDF_BYTES.to_vec());
    assert_eq!(store.tickets_pdf[0].ticket_tamano_bytes, 5);

    // Every row of the transaction carries the same commit timestamp.
    assert_eq!(store.compras[0].created_at, 7);
    assert_eq!(store.tickets_pdf[0].created_at, 7);
    assert_eq!(entry.precio_actualizado_en, Some(7));
}

#[test]
fn second_ingestion_of_same_invoice_is_a_duplicate() {
    let mut store = Store::new();
    let ext1 = extraction(Some("B-100"), Some(100_000), vec![item("milk", 10_000, 100_000, 100_000)]);
    ingest_ticket(&mut store, "u@e.c", PDF_B64, "a.pdf", ext1, 1, 0).expect("first call succeeds");

    // The invoice number is normalized before the duplicate check, so
    // a differently spelled copy still collides.
    let ext2 = extraction(Some("  b-100 "), Some(100_000), vec![item("milk", 10_000, 100_000, 100_000)]);
    let second = ingest_ticket(&mut store, "u@e.c", PDF_B64, "a.pdf", ext2, 2, 0);
    match second {
        Err(AppError::DuplicatePurchase(invoice)) => assert_eq!(invoice, "B-100"),
        other => panic!("expected a duplicate rejection, got {:?}", other),
    }

    // Exactly one purchase row exists afterward.
    assert_eq!(store.compras.len(), 1);
    assert_eq!(store.compras_productos.len(), 1);
}

#[test]
fn empty_basket_with_zero_total_succeeds() {
    let mut store = Store::new();
    let ext = extraction(Some("C-1"), Some(0), vec![]);
    let summary =
        ingest_ticket(&mut store, "u@e.c", PDF_B64, "c.pdf", ext, 1, 0).expect("zero total is fine");
    assert_eq!(summary.productos_insertados, 0);
    assert_eq!(store.compras.len(), 1);
}

#[test]
fn empty_basket_with_positive_total_is_rejected() {
    let mut store = Store::new();
    let ext = extraction(Some("C-2"), Some(10_000), vec![]);
    let r = ingest_ticket(&mut store, "u@e.c", PDF_B64, "c.pdf", ext, 1, 0);
    assert!(matches!(r, Err(AppError::InvalidTicketData(_))));
    assert_eq!(store.compras.len(), 0);
    assert_eq!(store.tickets_pdf.len(), 0);
}

#[test]
fn missing_invoice_number_is_rejected() {
    let mut store = Store::new();
    let ext = extraction(None, Some(0), vec![]);
    let r = ingest_ticket(&mut store, "u@e.c", PDF_B64, "c.pdf", ext, 1, 0);
    assert!(matches!(r, Err(AppError::MissingInvoiceNumber)));
}

#[test]
fn undecodable_attachment_is_rejected() {
    let mut store = Store::new();
    let ext = extraction(Some("D-1"), Some(0), vec![]);
    let r = ingest_ticket(&mut store, "u@e.c", "!!!not-base64!!!", "d.pdf", ext, 1, 0);
    assert!(matches!(r, Err(AppError::InvalidTicketData(_))));
}

#[test]
fn unparseable_date_is_rejected() {
    let mut store = Store::new();
    let mut ext = extraction(Some("D-2"), Some(0), vec![]);
    ext.fecha_hora = Some("15/01/2025 10:30".to_string());
    ext.fecha = None;
    let r = ingest_ticket(&mut store, "u@e.c", PDF_B64, "d.pdf", ext, 1, 0);
    assert!(matches!(r, Err(AppError::InvalidTicketData(_))));
}

#[test]
fn date_only_extraction_defaults_to_noon() {
    let mut store = Store::new();
    let mut ext = extraction(Some("D-3"), Some(0), vec![]);
    ext.fecha_hora = None;
    ext.fecha = Some("2025-03-09".to_string());
    let summary = ingest_ticket(&mut store, "u@e.c", PDF_B64, "d.pdf", ext, 1, 0)
        .expect("date-only tickets are accepted");
    assert_eq!(summary.fecha_hora.hour, 12);
    assert_eq!(summary.fecha_hora.day, 9);
}

#[test]
fn negative_total_is_rejected() {
    let mut store = Store::new();
    let ext = extraction(Some("D-4"), Some(-100), vec![]);
    let r = ingest_ticket(&mut store, "u@e.c", PDF_B64, "d.pdf", ext, 1, 0);
    assert!(matches!(r, Err(AppError::InvalidTotals(_))));
}

#[test]
fn diverging_totals_are_rejected_and_nothing_is_stored() {
    // One line of 10.00 against a declared total of 10.11: past the
    // ten-cent tolerance.
    let mut store = Store::new();
    let ext = extraction(Some("E-1"), Some(101_100), vec![item("rice", 10_000, 100_000, 100_000)]);
    let r = ingest_ticket(&mut store, "u@e.c", PDF_B64, "e.pdf", ext, 1, 0);
    assert!(matches!(r, Err(AppError::InvalidTotals(_))));
    assert_eq!(store.compras.len(), 0);
    assert_eq!(store.productos.len(), 0);
    assert_eq!(store.compras_productos.len(), 0);
}

#[test]
fn in_tolerance_difference_is_accepted() {
    // One line of 10.00 against a declared total of 10.10: exactly at
    // the tolerance.
    let mut store = Store::new();
    let ext = extraction(Some("E-2"), Some(101_000), vec![item("rice", 10_000, 100_000, 100_000)]);
    ingest_ticket(&mut store, "u@e.c", PDF_B64, "e.pdf", ext, 1, 0)
        .expect("a ten-cent difference is within tolerance");
}

#[test]
fn empty_product_name_is_rejected() {
    let mut store = Store::new();
    let ext = extraction(Some("E-3"), Some(100_000), vec![item("   ", 10_000, 100_000, 100_000)]);
    let r = ingest_ticket(&mut store, "u@e.c", PDF_B64, "e.pdf", ext, 1, 0);
    assert!(matches!(r, Err(AppError::InvalidTicketData(_))));
}

#[test]
fn trimmed_fields_and_payment_method_normalization() {
    let mut store = Store::new();
    let mut ext = extraction(Some(" f-9 "), Some(100_000), vec![item("bread", 10_000, 100_000, 100_000)]);
    ext.tienda = Some("  MERCADONA S.A.  ".to_string());
    ext.metodo_pago = Some("  tarjeta bancaria ".to_string());
    ext.numero_operacion = Some(" OP99 ".to_string());
    ingest_ticket(&mut store, "u@e.c", PDF_B64, "f.pdf", ext, 1, 0).expect("must ingest");
    let row = &store.compras[0];
    assert_eq!(row.numero_factura, "F-9");
    assert_eq!(row.tienda, Some("MERCADONA S.A.".to_string()));
    assert_eq!(row.metodo_pago, Some("TARJETA BANCARIA".to_string()));
    assert_eq!(row.numero_operacion, Some("OP99".to_string()));
}

#[test]
fn unknown_payment_method_becomes_unknown_not_error() {
    let mut store = Store::new();
    let mut ext = extraction(Some("F-10"), Some(100_000), vec![item("bread", 10_000, 100_000, 100_000)]);
    ext.metodo_pago = Some("paypal".to_string());
    ingest_ticket(&mut store, "u@e.c", PDF_B64, "f.pdf", ext, 1, 0).expect("must ingest");
    assert_eq!(store.compras[0].metodo_pago, None);
}

#[test]
fn utc_shift_crosses_the_day_boundary() {
    let mut store = Store::new();
    let mut ext = extraction(Some("G-1"), Some(0), vec![]);
    // 00:30 local at UTC+1 is 23:30 the previous day.
    ext.fecha_hora = Some("2025-01-01 00:30:00".to_string());
    let summary = ingest_ticket(&mut store, "u@e.c", PDF_B64, "g.pdf", ext, 1, 3600)
        .expect("must ingest");
    assert_eq!(summary.fecha_hora.year, 2024);
    assert_eq!(summary.fecha_hora.month, 12);
    assert_eq!(summary.fecha_hora.day, 31);
    assert_eq!(summary.fecha_hora.hour, 23);
    assert_eq!(summary.fecha_hora.minute, 30);
}
