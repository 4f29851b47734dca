use ticket_ingest::amount::Amount;
use ticket_ingest::config::AppConfig;
use ticket_ingest::error::AppError;
use ticket_ingest::extraction::TicketProduct;
use ticket_ingest::ingest::{parse_producto, validate_totals};
use ticket_ingest::models::{
    ProductUpsert, PurchaseInsert, PurchaseProductInsert, TicketPdfInsert,
};
use ticket_ingest::retry::{RetryAction, RetryPolicy, UpstreamResponse};

fn line(total_units: i64) -> PurchaseProductInsert {
    PurchaseProductInsert {
        producto_nombre: "X".to_string(),
        cantidad: Amount { units: 10_000 },
        precio_unitario: Amount { units: total_units },
        precio_total: Amount { units: total_units },
        descuento: Amount { units: 0 },
        iva_porcentaje: Amount { units: 0 },
        iva_importe: Amount { units: 0 },
    }
}

#[test]
fn vat_bucketing_boundaries() {
    // 2.0 -> 0, 7.0 -> 4, 15.5 -> 10, 21.0 -> 21, and 2.01 -> 4.
    let cases = [
        (20_000, 0),
        (70_000, 40_000),
        (155_000, 100_000),
        (210_000, 210_000),
        (20_100, 40_000),
        (0, 0),
        (300_000, 210_000),
    ];
    for (input, expected) in cases {
        let r = PurchaseProductInsert::normalize_iva_percentage(Amount { units: input });
        assert_eq!(r.units, expected, "bucket of {} units", input);
    }
}

#[test]
fn vat_amount_formula() {
    // 10.00 at 21% is 2.10.
    let r = PurchaseProductInsert::calculate_iva_importe(
        Amount { units: 100_000 },
        Amount { units: 210_000 },
    );
    assert_eq!(r.units, 21_000);
    // 3.50 at 10% is 0.35.
    let r2 = PurchaseProductInsert::calculate_iva_importe(
        Amount { units: 35_000 },
        Amount { units: 100_000 },
    );
    assert_eq!(r2.units, 3_500);
}

#[test]
fn price_coherence_tolerance() {
    // 2 x 1.50 - 0.00 against a line total of 3.01: exactly one cent off.
    let p = PurchaseProductInsert {
        producto_nombre: "X".to_string(),
        cantidad: Amount { units: 20_000 },
        precio_unitario: Amount { units: 15_000 },
        precio_total: Amount { units: 30_100 },
        descuento: Amount { units: 0 },
        iva_porcentaje: Amount { units: 0 },
        iva_importe: Amount { units: 0 },
    };
    assert!(p.validate_price_coherence());
    // Two cents off is out.
    let q = PurchaseProductInsert { precio_total: Amount { units: 30_200 }, ..p };
    assert!(!q.validate_price_coherence());
}

#[test]
fn totals_within_tolerance_succeed() {
    let items = vec![line(50_000), line(50_100)];
    // Sum 10.01 against declared 10.11: difference exactly 0.10.
    assert!(validate_totals(&items, Amount { units: 101_100 }).is_ok());
}

#[test]
fn totals_divergence_is_rejected() {
    let items = vec![line(50_000), line(50_000)];
    // Sum 10.00 against declared 10.11: difference 0.11.
    let r = validate_totals(&items, Amount { units: 101_100 });
    assert!(matches!(r, Err(AppError::InvalidTotals(_))));
}

#[test]
fn attachment_extension_and_size_limits() {
    // A wrong extension is rejected regardless of size.
    let tiny_txt = TicketPdfInsert {
        numero_factura: "F".to_string(),
        ticket_pdf: vec![1, 2, 3],
        ticket_nombre_archivo: "scan.txt".to_string(),
    };
    assert!(tiny_txt.validate().is_err());

    // Upper-case extensions are recognized.
    assert!(TicketPdfInsert::validate_pdf_extension("TICKET.PDF"));
    assert!(!TicketPdfInsert::validate_pdf_extension("ticketpdf"));

    // Exactly at the ceiling is accepted; one byte over is not.
    let at_limit = TicketPdfInsert {
        numero_factura: "F".to_string(),
        ticket_pdf: vec![0u8; 10_485_760],
        ticket_nombre_archivo: "big.pdf".to_string(),
    };
    assert!(at_limit.validate().is_ok());

    let over = TicketPdfInsert {
        numero_factura: "F".to_string(),
        ticket_pdf: vec![0u8; 10_485_761],
        ticket_nombre_archivo: "big.pdf".to_string(),
    };
    assert!(over.validate().is_err());
    assert!(TicketPdfInsert::validate_size(10_485_760));
    assert!(!TicketPdfInsert::validate_size(10_485_761));
}

#[test]
fn name_and_invoice_normalization() {
    assert_eq!(ProductUpsert::normalize_name("  leche entera "), "LECHE ENTERA");
    assert_eq!(PurchaseInsert::normalize_invoice_number(" a-001 "), "A-001");
}

#[test]
fn payment_method_allow_list() {
    assert_eq!(
        PurchaseInsert::normalize_payment_method(" tarjeta bancaria "),
        Some("TARJETA BANCARIA".to_string())
    );
    assert_eq!(PurchaseInsert::normalize_payment_method("bizum"), Some("BIZUM".to_string()));
    assert_eq!(PurchaseInsert::normalize_payment_method("paypal"), None);
    assert!(PurchaseInsert::validate_payment_method("EFECTIVO"));
    assert!(!PurchaseInsert::validate_payment_method("efectivo"));
}

#[test]
fn unit_allow_list() {
    assert!(ProductUpsert::validate_unit("kg"));
    assert!(ProductUpsert::validate_unit("unidad"));
    assert!(!ProductUpsert::validate_unit("docena"));
}

#[test]
fn parse_producto_defaults_and_derivation() {
    // Discount and VAT absent: zero discount, zero percent, zero VAT.
    let p = TicketProduct {
        nombre: " bread ".to_string(),
        cantidad: Some(Amount { units: 10_000 }),
        unidad: "unidad".to_string(),
        precio_unitario: Some(Amount { units: 100_000 }),
        precio_total: Some(Amount { units: 100_000 }),
        descuento: None,
        iva_porcentaje: None,
        iva_importe: None,
    };
    let ins = parse_producto(&p).expect("parses");
    assert_eq!(ins.producto_nombre, "BREAD");
    assert_eq!(ins.descuento.units, 0);
    assert_eq!(ins.iva_porcentaje.units, 0);
    assert_eq!(ins.iva_importe.units, 0);

    // A reported VAT percentage is bucketed and the amount derived
    // from the discounted base: (10.00 - 0.50) * 21% = 1.995.
    let q = TicketProduct {
        descuento: Some(Amount { units: 5_000 }),
        iva_porcentaje: Some(Amount { units: 200_000 }), // 20 -> bucket 21
        ..p
    };
    let ins2 = parse_producto(&q).expect("parses");
    assert_eq!(ins2.iva_porcentaje.units, 210_000);
    assert_eq!(ins2.iva_importe.units, 19_950);

    // A positive reported VAT amount is taken as-is.
    let r = TicketProduct { iva_importe: Some(Amount { units: 12_300 }), ..q };
    let ins3 = parse_producto(&r).expect("parses");
    assert_eq!(ins3.iva_importe.units, 12_300);

    // A missing quantity is a hard error.
    let bad = TicketProduct { cantidad: None, ..r };
    assert!(matches!(parse_producto(&bad), Err(AppError::InvalidTicketData(_))));
}

#[test]
fn error_classification() {
    assert_eq!(AppError::MissingInvoiceNumber.status_code(), 422);
    assert_eq!(AppError::DuplicatePurchase("X".to_string()).status_code(), 409);
    assert_eq!(AppError::InvalidTotals("m".to_string()).status_code(), 422);
    assert_eq!(AppError::DatabaseError("m".to_string()).status_code(), 500);
    assert_eq!(AppError::ServiceUnavailable("m".to_string()).status_code(), 503);
    assert_eq!(AppError::Unauthorized("m".to_string()).status_code(), 401);

    assert_eq!(
        AppError::DuplicatePurchase("A-1".to_string()).public_message(),
        "La compra con numero de factura A-1 ya existe"
    );
    assert_eq!(
        AppError::DatabaseError("secret detail".to_string()).public_message(),
        "Error en la base de datos"
    );
    let (status, body) = AppError::MissingInvoiceNumber.to_response();
    assert_eq!(status, 422);
    assert_eq!(body.error, "El ticket no contiene numero de factura");
}

#[test]
fn retry_policy_decisions() {
    let policy = RetryPolicy { max_retries: 2 };
    assert!(matches!(policy.next_action(0, &UpstreamResponse::Success), RetryAction::Proceed));
    match policy.next_action(0, &UpstreamResponse::Unavailable) {
        RetryAction::RetryAfter(ms) => assert_eq!(ms, 200),
        other => panic!("expected a retry, got {:?}", other),
    }
    match policy.next_action(1, &UpstreamResponse::Unavailable) {
        RetryAction::RetryAfter(ms) => assert_eq!(ms, 400),
        other => panic!("expected a retry, got {:?}", other),
    }
    assert!(matches!(
        policy.next_action(2, &UpstreamResponse::Unavailable),
        RetryAction::Fail(AppError::ServiceUnavailable(_))
    ));
    assert!(matches!(
        policy.next_action(0, &UpstreamResponse::Timeout),
        RetryAction::Fail(AppError::ServiceUnavailable(_))
    ));
    assert!(matches!(
        policy.next_action(0, &UpstreamResponse::Failure(404)),
        RetryAction::Fail(AppError::BadRequest(_))
    ));
    assert!(matches!(
        policy.next_action(0, &UpstreamResponse::Failure(502)),
        RetryAction::Fail(AppError::InternalError(_))
    ));
}

#[test]
fn server_addr_joins_host_and_port() {
    let config = AppConfig {
        database_url: String::new(),
        jwt_secret: String::new(),
        host: "127.0.0.1".to_string(),
        port: 8000,
        intelligence_service_url: String::new(),
        intelligence_api_key: None,
        intelligence_timeout_secs: 30,
        intelligence_max_retries: 2,
    };
    assert_eq!(config.server_addr(), "127.0.0.1:8000");
}
