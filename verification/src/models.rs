//! Domain rows and insertion records.
//!
//! Four entities make up a committed ticket: the catalog `Product`, the
//! `Purchase` keyed by invoice number, its `PurchaseProduct` line items,
//! and the attached `TicketPdf` document.  Each has an insertion record
//! carrying the fields a new row needs, together with the normalization
//! and validation rules the ingestion pipeline applies.

use vstd::prelude::*;

use crate::amount::Amount;
use crate::datetime::DateTime;
use crate::strings::{lower_str, normalize_text, spec_has_suffix, spec_normalized, str_ends_with};

verus! {

/// Size ceiling for an attached document, in bytes.
pub const MAX_PDF_BYTES: usize = 10_485_760;

/// The character sequence behind an optional text field.
pub open spec fn opt_str_view(o: Option<String>) -> Option<Seq<char>> {
    match o {
        Some(s) => Some(s@),
        None => None,
    }
}

/// A catalog row: one known product, keyed by normalized name.
#[derive(Debug)]
pub struct Product {
    pub nombre: String,
    pub marca: Option<String>,
    pub unidad: Option<String>,
    pub precio_actual: Option<Amount>,
    pub precio_actualizado_en: Option<i64>,
    pub created_at: i64,
}

/// An observation to merge into the catalog.
#[derive(Debug)]
pub struct ProductUpsert {
    pub nombre: String,
    pub marca: Option<String>,
    pub unidad: String,
    pub precio_actual: Option<Amount>,
}

impl ProductUpsert {
    /// Normalizes a product name: trim, then uppercase.
    pub fn normalize_name(name: &str) -> (r: String)
        ensures
            r@ == spec_normalized(name@),
    {
        normalize_text(name)
    }

    /// Whether the unit of measure is one of the recognized ones.
    pub fn validate_unit(unit: &str) -> (r: bool)
        ensures
            r == spec_valid_unit(unit@),
    {
        let u = unit.to_owned();
        u == "unidad".to_owned() || u == "kg".to_owned() || u == "g".to_owned() || u
            == "l".to_owned() || u == "ml".to_owned()
    }
}

/// The closed list of units of measure the catalog accepts.
pub open spec fn spec_valid_unit(s: Seq<char>) -> bool {
    s == "unidad"@ || s == "kg"@ || s == "g"@ || s == "l"@ || s == "ml"@
}

/// A purchase row: one committed ticket, keyed by invoice number.
#[derive(Debug)]
pub struct Purchase {
    pub numero_factura: String,
    pub usuario_email: String,
    pub fecha_hora: DateTime,
    pub total: Amount,
    pub tienda: Option<String>,
    pub ubicacion: Option<String>,
    pub metodo_pago: Option<String>,
    pub numero_operacion: Option<String>,
    pub created_at: i64,
}

/// The fields a new purchase row is created from.
#[derive(Debug)]
pub struct PurchaseInsert {
    pub numero_factura: String,
    pub usuario_email: String,
    pub fecha_hora: DateTime,
    pub total: Amount,
    pub tienda: Option<String>,
    pub ubicacion: Option<String>,
    pub metodo_pago: Option<String>,
    pub numero_operacion: Option<String>,
}

/// The closed list of payment methods a purchase may record.
pub open spec fn spec_allowed_payment(s: Seq<char>) -> bool {
    s == "TARJETA BANCARIA"@ || s == "EFECTIVO"@ || s == "BIZUM"@ || s == "TRANSFERENCIA"@
}

/// The outcome of payment-method normalization: the normalized text
/// when it is on the allow-list, nothing otherwise.
pub open spec fn spec_norm_payment(s: Seq<char>) -> Option<Seq<char>> {
    if spec_allowed_payment(spec_normalized(s)) {
        Some(spec_normalized(s))
    } else {
        None
    }
}

impl PurchaseInsert {
    /// Normalizes an invoice number: trim, then uppercase.
    pub fn normalize_invoice_number(invoice: &str) -> (r: String)
        ensures
            r@ == spec_normalized(invoice@),
    {
        normalize_text(invoice)
    }

    /// Whether the given text is one of the allowed payment methods.
    pub fn validate_payment_method(method: &str) -> (r: bool)
        ensures
            r == spec_allowed_payment(method@),
    {
        let m = method.to_owned();
        m == "TARJETA BANCARIA".to_owned() || m == "EFECTIVO".to_owned() || m == "BIZUM".to_owned()
            || m == "TRANSFERENCIA".to_owned()
    }

    /// Normalizes a payment method, keeping it only when it is on the
    /// allow-list; an unrecognized method becomes unknown, not an
    /// error.
    pub fn normalize_payment_method(method: &str) -> (r: Option<String>)
        ensures
            r is Some <==> spec_norm_payment(method@) is Some,
            r is Some ==> r.unwrap()@ == spec_norm_payment(method@).unwrap(),
    {
        let normalized = normalize_text(method);
        if Self::validate_payment_method(normalized.as_str()) {
            Some(normalized)
        } else {
            None
        }
    }
}

/// A line-item row: one product entry of one purchase.
#[derive(Debug)]
pub struct PurchaseProduct {
    pub compra_numero_factura: String,
    pub producto_nombre: String,
    pub cantidad: Amount,
    pub precio_unitario: Amount,
    pub precio_total: Amount,
    pub descuento: Amount,
    pub iva_porcentaje: Amount,
    pub iva_importe: Amount,
}

/// The fields a new line item is created from.
#[derive(Debug)]
pub struct PurchaseProductInsert {
    pub producto_nombre: String,
    pub cantidad: Amount,
    pub precio_unitario: Amount,
    pub precio_total: Amount,
    pub descuento: Amount,
    pub iva_porcentaje: Amount,
    pub iva_importe: Amount,
}

/// The legal VAT schedule: an observed percentage is bucketed to the
/// nearest bracket by fixed breakpoints, in units of one
/// ten-thousandth of a percentage point.
pub open spec fn spec_iva_bucket(units: int) -> int {
    if units <= 20_000 {
        0
    } else if units <= 70_000 {
        40_000
    } else if units <= 155_000 {
        100_000
    } else {
        210_000
    }
}

/// Derived VAT amount: `base * percentage / 100`, truncated toward
/// zero below the fourth fractional digit.
pub open spec fn spec_vat_units(base: int, pct: int) -> int {
    if base >= 0 {
        (base * pct) / 1_000_000
    } else {
        -(((-base) * pct) / 1_000_000)
    }
}

/// Price coherence: `quantity * unit_price - discount` is within one
/// cent of the line total.  The comparison is exact at eight
/// fractional digits.
pub open spec fn spec_price_coherent(p: PurchaseProductInsert) -> bool {
    let expected = p.cantidad.spec_units() * p.precio_unitario.spec_units();
    let actual = (p.precio_total.spec_units() + p.descuento.spec_units()) * 10_000;
    -1_000_000 <= expected - actual <= 1_000_000
}

impl PurchaseProductInsert {
    /// All monetary fields within the engine's representable range.
    pub open spec fn wf(self) -> bool {
        &&& self.cantidad.spec_in_range()
        &&& self.precio_unitario.spec_in_range()
        &&& self.precio_total.spec_in_range()
        &&& self.descuento.spec_in_range()
        &&& self.iva_porcentaje.spec_in_range()
        &&& self.iva_importe.spec_in_range()
    }

    /// Whether the line's prices cohere: `quantity * unit_price -
    /// discount` within one cent of the line total.
    pub fn validate_price_coherence(&self) -> (r: bool)
        ensures
            r == spec_price_coherent(*self),
    {
        proof {
            let a = self.cantidad.units as int;
            let b = self.precio_unitario.units as int;
            assert(-0x4000_0000_0000_0000_0000_0000_0000_0000 <= a * b
                <= 0x4000_0000_0000_0000_0000_0000_0000_0000) by (nonlinear_arith)
                requires
                    -0x8000_0000_0000_0000 <= a <= 0x8000_0000_0000_0000,
                    -0x8000_0000_0000_0000 <= b <= 0x8000_0000_0000_0000,
            ;
        }
        let expected: i128 = self.cantidad.units as i128 * self.precio_unitario.units as i128;
        let actual: i128 = (self.precio_total.units as i128 + self.descuento.units as i128)
            * 10_000;
        let diff: i128 = expected - actual;
        -1_000_000 <= diff && diff <= 1_000_000
    }

    /// Buckets an observed VAT percentage to the legal schedule.
    pub fn normalize_iva_percentage(iva: Amount) -> (r: Amount)
        ensures
            r.units == spec_iva_bucket(iva.units as int),
            0 <= r.units <= 210_000,
    {
        if iva.units <= 20_000 {
            Amount { units: 0 }
        } else if iva.units <= 70_000 {
            Amount { units: 40_000 }
        } else if iva.units <= 155_000 {
            Amount { units: 100_000 }
        } else {
            Amount { units: 210_000 }
        }
    }

    /// Derives the VAT amount from a base and a bucketed percentage.
    /// The base may be a difference of two in-range amounts.
    pub fn calculate_iva_importe(base: Amount, percentage: Amount) -> (r: Amount)
        requires
            -200_000_000_000_000 <= base.units <= 200_000_000_000_000,
            0 <= percentage.units <= 210_000,
        ensures
            r.units == spec_vat_units(base.units as int, percentage.units as int),
            r.spec_in_range(),
    {
        let neg = base.units < 0;
        let mag: u128 = if neg {
            (-(base.units as i128)) as u128
        } else {
            base.units as u128
        };
        let pct: u128 = percentage.units as u128;
        proof {
            assert(mag * pct <= 42_000_000_000_000_000_000) by (nonlinear_arith)
                requires
                    mag <= 200_000_000_000_000,
                    pct <= 210_000,
            ;
        }
        let q: u128 = (mag * pct) / 1_000_000;
        proof {
            assert(q <= 100_000_000_000_000) by (nonlinear_arith)
                requires
                    q == (mag * pct) / 1_000_000,
                    mag * pct <= 42_000_000_000_000_000_000,
            ;
        }
        if neg {
            Amount { units: -(q as i64) }
        } else {
            Amount { units: q as i64 }
        }
    }
}

/// A stored attachment row: the original document of one purchase.
#[derive(Debug)]
pub struct TicketPdf {
    pub numero_factura: String,
    pub ticket_pdf: Vec<u8>,
    pub ticket_nombre_archivo: String,
    pub ticket_tamano_bytes: i32,
    pub created_at: i64,
}

/// The fields a new attachment row is created from.
#[derive(Debug)]
pub struct TicketPdfInsert {
    pub numero_factura: String,
    pub ticket_pdf: Vec<u8>,
    pub ticket_nombre_archivo: String,
}

/// A recognized document name: its lowercase form ends in `.pdf`.
pub open spec fn spec_has_pdf_extension(f: Seq<char>) -> bool {
    spec_has_suffix(crate::strings::lower_of(f), ".pdf"@)
}

impl TicketPdfInsert {
    /// Whether the file name carries the recognized document
    /// extension, case-insensitively.
    pub fn validate_pdf_extension(filename: &str) -> (r: bool)
        ensures
            r == spec_has_pdf_extension(filename@),
    {
        let low = lower_str(filename);
        str_ends_with(low.as_str(), ".pdf")
    }

    /// Whether a byte size is within the attachment ceiling.
    pub fn validate_size(size: usize) -> (r: bool)
        ensures
            r == (size <= MAX_PDF_BYTES),
    {
        size <= MAX_PDF_BYTES
    }

    /// The stored byte size of the attachment.
    pub fn calculate_size(&self) -> (r: i32)
        ensures
            self.ticket_pdf@.len() <= i32::MAX ==> r == self.ticket_pdf@.len() as i32,
    {
        #[verifier::truncate]
        let r = self.ticket_pdf.len() as i32;
        r
    }

    /// Accepts the attachment exactly when the name carries the
    /// recognized extension and the size is within the ceiling.
    pub fn validate(&self) -> (r: Result<(), String>)
        ensures
            r is Ok <==> spec_has_pdf_extension(self.ticket_nombre_archivo@)
                && self.ticket_pdf@.len() <= MAX_PDF_BYTES,
    {
        if !Self::validate_pdf_extension(self.ticket_nombre_archivo.as_str()) {
            return Err("El archivo debe tener extension .pdf".to_owned());
        }
        let size = self.ticket_pdf.len();
        if !Self::validate_size(size) {
            return Err("El archivo excede el tamano maximo de 10MB".to_owned());
        }
        Ok(())
    }
}

} // verus!
