//! The ingestion pipeline.
//!
//! One call takes an untrusted extraction and either commits a
//! purchase, its line items, the catalog merges and the attached
//! document as one atomic change of the store, or rejects the ticket
//! with a classified error and leaves the store untouched.  Validation
//! (steps through total reconciliation) happens strictly before any
//! write.

use base64::Engine;
use vstd::prelude::*;
use vstd::string::*;

use crate::amount::Amount;
use crate::datetime::{
    parse_date, parse_datetime, shift_to_utc, spec_parse_date, spec_parse_datetime,
    spec_shift_to_utc, DateTime, DAY_SECONDS,
};
use crate::error::{AppError, AppResult};
use crate::extraction::{ProcessTicketResponse, TicketProduct};
use crate::models::{
    opt_str_view, spec_has_pdf_extension, spec_iva_bucket, spec_norm_payment, spec_vat_units,
    ProductUpsert, Purchase, PurchaseInsert, PurchaseProduct, PurchaseProductInsert, TicketPdf,
    TicketPdfInsert, MAX_PDF_BYTES,
};
use crate::store::{
    insert_purchase, insert_purchase_products, insert_ticket_pdf, spec_has_pdf, spec_has_product,
    spec_has_purchase, spec_line_row, upsert_product, Store,
};
use crate::strings::{spec_normalized, trim_of, trim_str};

verus! {

/// Summary of one successful ingestion.
#[derive(Debug)]
pub struct TicketIngestionResponse {
    pub ingested: bool,
    pub numero_factura: String,
    pub total: Amount,
    pub productos_insertados: usize,
    pub fecha_hora: DateTime,
}

pub uninterp spec fn b64_decode_of(s: Seq<char>) -> Option<Seq<u8>>;

/// Relies on base64's standard-alphabet `Engine::decode`: the outcome
/// is a function of the input characters alone.
#[verifier::external_body]
fn b64_decode(s: &str) -> (r: Option<Vec<u8>>)
    ensures
        r is Some <==> b64_decode_of(s@) is Some,
        r is Some ==> r.unwrap()@ == b64_decode_of(s@).unwrap(),
{
    base64::engine::general_purpose::STANDARD.decode(s).ok()
}

/// Decodes the attachment from its transport encoding.
pub fn decode_pdf_base64(pdf_b64: &str) -> (r: AppResult<Vec<u8>>)
    ensures
        r is Ok <==> b64_decode_of(pdf_b64@) is Some,
        r is Ok ==> r.unwrap()@ == b64_decode_of(pdf_b64@).unwrap(),
        r is Err ==> r.unwrap_err() is InvalidTicketData,
{
    match b64_decode(pdf_b64) {
        Some(v) => Ok(v),
        None => Err(AppError::InvalidTicketData("PDF base64 invalido".to_owned())),
    }
}

/// The normalized invoice number of an extraction that carries one.
pub open spec fn spec_nf(ext: ProcessTicketResponse) -> Seq<char> {
    spec_normalized(ext.numero_factura.unwrap()@)
}

/// The timestamp an extraction parses to: the combined field first,
/// then the date-only fallback at noon.
pub open spec fn spec_fecha_hora_of(ext: ProcessTicketResponse) -> Option<DateTime> {
    if ext.fecha_hora is Some && spec_parse_datetime(ext.fecha_hora.unwrap()@) is Some {
        spec_parse_datetime(ext.fecha_hora.unwrap()@)
    } else if ext.fecha is Some && spec_parse_date(ext.fecha.unwrap()@) is Some {
        spec_parse_date(ext.fecha.unwrap()@)
    } else {
        None
    }
}

/// A declared total that is present, non-negative and representable.
pub open spec fn spec_total_ok(ext: ProcessTicketResponse) -> bool {
    &&& ext.total is Some
    &&& ext.total.unwrap().units >= 0
    &&& ext.total.unwrap().spec_in_range()
}

/// A line item the pipeline can parse: a non-empty normalized name and
/// representable quantity and prices.
pub open spec fn spec_producto_ok(p: TicketProduct) -> bool {
    &&& spec_normalized(p.nombre@).len() > 0
    &&& p.cantidad is Some && p.cantidad.unwrap().spec_in_range()
    &&& p.precio_unitario is Some && p.precio_unitario.unwrap().spec_in_range()
    &&& p.precio_total is Some && p.precio_total.unwrap().spec_in_range()
}

pub open spec fn spec_all_productos_ok(ps: Seq<TicketProduct>) -> bool {
    forall|j: int| 0 <= j < ps.len() ==> spec_producto_ok(#[trigger] ps[j])
}

/// The discount a line item parses to: absent or unrepresentable
/// becomes zero.
pub open spec fn spec_desc_of(p: TicketProduct) -> Amount {
    match p.descuento {
        Some(d) => if d.spec_in_range() {
            d
        } else {
            Amount { units: 0 }
        },
        None => Amount { units: 0 },
    }
}

/// The raw observed VAT percentage, defaulted to zero.
pub open spec fn spec_iva_raw_of(p: TicketProduct) -> Amount {
    match p.iva_porcentaje {
        Some(v) => if v.spec_in_range() {
            v
        } else {
            Amount { units: 0 }
        },
        None => Amount { units: 0 },
    }
}

/// The bucketed VAT percentage of a line item.
pub open spec fn spec_iva_pct_of(p: TicketProduct) -> Amount {
    Amount { units: spec_iva_bucket(spec_iva_raw_of(p).units as int) as i64 }
}

/// The VAT amount of a line item: the reported one when positive,
/// otherwise derived from the discounted base and the bucketed
/// percentage.
pub open spec fn spec_iva_amount_of(p: TicketProduct) -> Amount {
    if p.iva_importe is Some && p.iva_importe.unwrap().units > 0 {
        if p.iva_importe.unwrap().spec_in_range() {
            p.iva_importe.unwrap()
        } else {
            Amount { units: 0 }
        }
    } else {
        Amount {
            units: spec_vat_units(
                p.precio_total.unwrap().units - spec_desc_of(p).units,
                spec_iva_pct_of(p).units as int,
            ) as i64,
        }
    }
}

/// How a parsed insertion record relates to the extracted line item.
pub open spec fn spec_item_matches(ins: PurchaseProductInsert, p: TicketProduct) -> bool {
    &&& ins.producto_nombre@ == spec_normalized(p.nombre@)
    &&& ins.cantidad == p.cantidad.unwrap()
    &&& ins.precio_unitario == p.precio_unitario.unwrap()
    &&& ins.precio_total == p.precio_total.unwrap()
    &&& ins.descuento == spec_desc_of(p)
    &&& ins.iva_porcentaje == spec_iva_pct_of(p)
    &&& ins.iva_importe == spec_iva_amount_of(p)
}

/// Sum of the declared line totals of the extraction, in units.
pub open spec fn spec_items_sum(ps: Seq<TicketProduct>) -> int
    decreases ps.len(),
{
    if ps.len() == 0 {
        0
    } else {
        spec_items_sum(ps.drop_last()) + ps.last().precio_total.unwrap().units
    }
}

/// Sum of the line totals of parsed insertion records, in units.
pub open spec fn spec_sum_totals(items: Seq<PurchaseProductInsert>) -> int
    decreases items.len(),
{
    if items.len() == 0 {
        0
    } else {
        spec_sum_totals(items.drop_last()) + items.last().precio_total.units
    }
}

/// Reconciliation: the line-item sum within ten cents of the declared
/// total.
pub open spec fn spec_totals_within(ps: Seq<TicketProduct>, total: Amount) -> bool {
    -1000 <= spec_items_sum(ps) - total.units <= 1000
}

/// An attachment the pipeline accepts: it decodes, its name carries
/// the recognized extension, and it is within the size ceiling.
pub open spec fn spec_pdf_ok(pdf_b64: Seq<char>, file_name: Seq<char>) -> bool {
    &&& b64_decode_of(pdf_b64) is Some
    &&& spec_has_pdf_extension(file_name)
    &&& b64_decode_of(pdf_b64).unwrap().len() <= MAX_PDF_BYTES
}

/// Whether some extracted line item normalizes to the given catalog
/// name.
pub open spec fn spec_name_in_items(ps: Seq<TicketProduct>, n: Seq<char>) -> bool {
    exists|j: int| 0 <= j < ps.len() && spec_normalized(ps[j].nombre@) == n
}

/// Every condition a successful ingestion needs, against the store
/// state at the start of the call.
pub open spec fn spec_ingest_ok(
    ext: ProcessTicketResponse,
    s: Store,
    pdf_b64: Seq<char>,
    file_name: Seq<char>,
) -> bool {
    &&& ext.numero_factura is Some
    &&& !spec_has_purchase(s.compras@, spec_nf(ext))
    &&& spec_fecha_hora_of(ext) is Some
    &&& spec_total_ok(ext)
    &&& !(ext.productos@.len() == 0 && ext.total.unwrap().units > 0)
    &&& spec_pdf_ok(pdf_b64, file_name)
    &&& spec_all_productos_ok(ext.productos@)
    &&& spec_totals_within(ext.productos@, ext.total.unwrap())
}

/// The view of an optional text field after trimming.
pub open spec fn spec_opt_trim(o: Option<String>) -> Option<Seq<char>> {
    match o {
        Some(s) => Some(trim_of(s@)),
        None => None,
    }
}

/// The view of an optional payment method after normalization.
pub open spec fn spec_opt_payment(o: Option<String>) -> Option<Seq<char>> {
    match o {
        Some(m) => spec_norm_payment(m@),
        None => None,
    }
}

/// How the committed purchase row relates to the call's inputs.
pub open spec fn spec_ingested_purchase(
    row: Purchase,
    ext: ProcessTicketResponse,
    user_email: Seq<char>,
    utc: DateTime,
    now: i64,
) -> bool {
    &&& row.numero_factura@ == spec_nf(ext)
    &&& row.usuario_email@ == user_email
    &&& row.fecha_hora == utc
    &&& row.total == ext.total.unwrap()
    &&& opt_str_view(row.tienda) == spec_opt_trim(ext.tienda)
    &&& opt_str_view(row.ubicacion) == spec_opt_trim(ext.ubicacion)
    &&& opt_str_view(row.metodo_pago) == spec_opt_payment(ext.metodo_pago)
    &&& opt_str_view(row.numero_operacion) == spec_opt_trim(ext.numero_operacion)
    &&& row.created_at == now
}

/// How a committed line-item row relates to its extracted item.
pub open spec fn spec_ingested_line(row: PurchaseProduct, p: TicketProduct, nf: Seq<char>) -> bool {
    &&& row.compra_numero_factura@ == nf
    &&& row.producto_nombre@ == spec_normalized(p.nombre@)
    &&& row.cantidad == p.cantidad.unwrap()
    &&& row.precio_unitario == p.precio_unitario.unwrap()
    &&& row.precio_total == p.precio_total.unwrap()
    &&& row.descuento == spec_desc_of(p)
    &&& row.iva_porcentaje == spec_iva_pct_of(p)
    &&& row.iva_importe == spec_iva_amount_of(p)
}

/// How the committed document row relates to the call's inputs.
pub open spec fn spec_ingested_doc(
    row: TicketPdf,
    pdf_b64: Seq<char>,
    file_name: Seq<char>,
    nf: Seq<char>,
    now: i64,
) -> bool {
    &&& row.numero_factura@ == nf
    &&& row.ticket_pdf@ == b64_decode_of(pdf_b64).unwrap()
    &&& row.ticket_nombre_archivo@ == file_name
    &&& row.ticket_tamano_bytes == b64_decode_of(pdf_b64).unwrap().len() as i32
    &&& row.created_at == now
}

/// Parses the receipt timestamp: the combined field first, then the
/// date-only fallback (whose time defaults to noon).
pub fn parse_fecha_hora(response: &ProcessTicketResponse) -> (r: AppResult<DateTime>)
    ensures
        r is Ok <==> spec_fecha_hora_of(*response) is Some,
        r is Ok ==> r.unwrap() == spec_fecha_hora_of(*response).unwrap(),
        r is Ok ==> r.unwrap().wf() && 0 <= r.unwrap().year <= 9999,
        r is Err ==> r.unwrap_err() is InvalidTicketData,
{
    if let Some(fecha_hora_str) = &response.fecha_hora {
        if let Some(dt) = parse_datetime(fecha_hora_str.as_str()) {
            return Ok(dt);
        }
    }
    if let Some(fecha_str) = &response.fecha {
        if let Some(dt) = parse_date(fecha_str.as_str()) {
            return Ok(dt);
        }
    }
    Err(AppError::InvalidTicketData("No se pudo parsear la fecha del ticket".to_owned()))
}

/// Validates the declared total: present, non-negative, representable.
pub fn parse_total(response: &ProcessTicketResponse) -> (r: AppResult<Amount>)
    ensures
        r is Ok <==> spec_total_ok(*response),
        r is Ok ==> r.unwrap() == response.total.unwrap(),
        response.total is None ==> r is Err && r.unwrap_err() is InvalidTicketData,
        response.total is Some && response.total.unwrap().units < 0 ==> r is Err
            && r.unwrap_err() is InvalidTotals,
        response.total is Some && response.total.unwrap().units >= 0
            && !response.total.unwrap().spec_in_range() ==> r is Err
            && r.unwrap_err() is InvalidTicketData,
{
    match response.total {
        None => Err(AppError::InvalidTicketData("El ticket no tiene total".to_owned())),
        Some(total) => {
            if total.is_negative() {
                Err(AppError::InvalidTotals("El total no puede ser negativo".to_owned()))
            } else if !total.in_range() {
                Err(AppError::InvalidTicketData("Total invalido".to_owned()))
            } else {
                Ok(total)
            }
        },
    }
}

/// Parses one extracted line item into an insertion record:
/// normalizes the name, checks quantity and prices, defaults discount
/// and VAT, buckets the percentage and derives the VAT amount when
/// absent.
pub fn parse_producto(producto: &TicketProduct) -> (r: AppResult<PurchaseProductInsert>)
    ensures
        r is Ok <==> spec_producto_ok(*producto),
        r is Ok ==> spec_item_matches(r.unwrap(), *producto),
        r is Ok ==> r.unwrap().wf(),
        r is Err ==> r.unwrap_err() is InvalidTicketData,
{
    let nombre = ProductUpsert::normalize_name(producto.nombre.as_str());
    if nombre.as_str().unicode_len() == 0 {
        return Err(AppError::InvalidTicketData("Producto con nombre vacio".to_owned()));
    }
    let cantidad = match producto.cantidad {
        Some(c) => {
            if !c.in_range() {
                return Err(AppError::InvalidTicketData("Cantidad invalida".to_owned()));
            }
            c
        },
        None => {
            return Err(AppError::InvalidTicketData("Cantidad invalida".to_owned()));
        },
    };
    let precio_unitario = match producto.precio_unitario {
        Some(p) => {
            if !p.in_range() {
                return Err(AppError::InvalidTicketData("Precio unitario invalido".to_owned()));
            }
            p
        },
        None => {
            return Err(AppError::InvalidTicketData("Precio unitario invalido".to_owned()));
        },
    };
    let precio_total = match producto.precio_total {
        Some(p) => {
            if !p.in_range() {
                return Err(AppError::InvalidTicketData("Precio total invalido".to_owned()));
            }
            p
        },
        None => {
            return Err(AppError::InvalidTicketData("Precio total invalido".to_owned()));
        },
    };
    let descuento = match producto.descuento {
        Some(d) => {
            if d.in_range() {
                d
            } else {
                Amount::zero()
            }
        },
        None => Amount::zero(),
    };
    let iva_raw = match producto.iva_porcentaje {
        Some(v) => {
            if v.in_range() {
                v
            } else {
                Amount::zero()
            }
        },
        None => Amount::zero(),
    };
    let iva_porcentaje = PurchaseProductInsert::normalize_iva_percentage(iva_raw);
    let reported_iva = match producto.iva_importe {
        Some(v) => {
            if v.units > 0 {
                Some(v)
            } else {
                None
            }
        },
        None => None,
    };
    let iva_importe = match reported_iva {
        Some(v) => {
            if v.in_range() {
                v
            } else {
                Amount::zero()
            }
        },
        None => {
            let base = Amount::from_units(precio_total.units - descuento.units);
            PurchaseProductInsert::calculate_iva_importe(base, iva_porcentaje)
        },
    };
    let product_insert = PurchaseProductInsert {
        producto_nombre: nombre,
        cantidad,
        precio_unitario,
        precio_total,
        descuento,
        iva_porcentaje,
        iva_importe,
    };
    // Coherence violations are warnings at the transport layer; they
    // never reject a line item.
    let _coherent = product_insert.validate_price_coherence();
    Ok(product_insert)
}

/// The two sums agree when each parsed record carries its item's
/// declared line total.
proof fn lemma_sums_agree(items: Seq<PurchaseProductInsert>, ps: Seq<TicketProduct>)
    requires
        items.len() == ps.len(),
        forall|j: int| 0 <= j < ps.len() ==> #[trigger] items[j].precio_total == ps[
            j
        ].precio_total.unwrap(),
    ensures
        spec_sum_totals(items) == spec_items_sum(ps),
    decreases items.len(),
{
    if items.len() > 0 {
        lemma_sums_agree(items.drop_last(), ps.drop_last());
    }
}

/// Checks the line-item sum against the declared total, within ten
/// cents; exceeding the tolerance is a hard rejection.
pub fn validate_totals(productos: &Vec<PurchaseProductInsert>, expected_total: Amount) -> (r:
    AppResult<()>)
    requires
        forall|j: int| 0 <= j < productos@.len() ==> (#[trigger] productos@[j]).wf(),
    ensures
        r is Ok <==> -1000 <= spec_sum_totals(productos@) - expected_total.units <= 1000,
        r is Err ==> r.unwrap_err() is InvalidTotals,
{
    let n = productos.len();
    let mut suma: i128 = 0;
    let mut i: usize = 0;
    while i < n
        invariant
            0 <= i <= n,
            n == productos@.len(),
            forall|j: int| 0 <= j < productos@.len() ==> (#[trigger] productos@[j]).wf(),
            suma == spec_sum_totals(productos@.subrange(0, i as int)),
            -(i as int) * 100_000_000_000_000 <= suma <= (i as int) * 100_000_000_000_000,
        decreases n - i,
    {
        proof {
            assert(productos@.subrange(0, i + 1).drop_last() =~= productos@.subrange(0, i as int));
            assert(productos@.subrange(0, i + 1).last() == productos@[i as int]);
        }
        suma = suma + productos[i].precio_total.units as i128;
        i = i + 1;
    }
    proof {
        assert(productos@.subrange(0, n as int) =~= productos@);
    }
    let diff: i128 = suma - expected_total.units as i128;
    if -1000 <= diff && diff <= 1000 {
        Ok(())
    } else {
        Err(
            AppError::InvalidTotals(
                "La suma de productos no coincide con el total del ticket".to_owned(),
            ),
        )
    }
}

/// Trims an optional free-text field.
fn opt_trim(o: &Option<String>) -> (r: Option<String>)
    ensures
        opt_str_view(r) == spec_opt_trim(match o {
            Some(s) => Some(*s),
            None => None,
        }),
{
    match o {
        Some(s) => Some(trim_str(s.as_str()).to_owned()),
        None => None,
    }
}

/// No document row can reference an invoice that has no purchase.
proof fn lemma_no_pdf_without_purchase(s: Store, n: Seq<char>)
    requires
        s.wf(),
        !spec_has_purchase(s.compras@, n),
    ensures
        !spec_has_pdf(s.tickets_pdf@, n),
{
    if spec_has_pdf(s.tickets_pdf@, n) {
        let i = choose|i: int| 0 <= i < s.tickets_pdf@.len() && s.tickets_pdf@[i].numero_factura@
            == n;
        assert(spec_has_purchase(s.compras@, s.tickets_pdf@[i].numero_factura@));
    }
}

/// Ingests one extracted ticket as a consistent set of records.
///
/// The pipeline validates in order: invoice number present, no
/// existing purchase under the same (normalized) number, a parseable
/// timestamp, a usable declared total, a non-empty basket whenever the
/// total is positive, a decodable and acceptable attachment, parseable
/// line items, and reconciled totals.  Only then does it write: one
/// catalog upsert per line item, the purchase row, the line-item rows,
/// and the document row.  On any rejection the store is unchanged.
///
/// `now` is the commit timestamp and `utc_offset_secs` the zone offset
/// the local receipt timestamp is shifted by; both come from the
/// caller's environment.
#[verifier::loop_isolation(false)]
pub fn ingest_ticket(
    store: &mut Store,
    user_email: &str,
    pdf_b64: &str,
    file_name: &str,
    ocr_response: ProcessTicketResponse,
    now: i64,
    utc_offset_secs: i32,
) -> (r: AppResult<TicketIngestionResponse>)
    requires
        old(store).wf(),
        -DAY_SECONDS < utc_offset_secs < DAY_SECONDS,
    ensures
        final(store).wf(),
        r is Ok <==> spec_ingest_ok(ocr_response, *old(store), pdf_b64@, file_name@),
        r is Err ==> *final(store) == *old(store),
        ocr_response.numero_factura is None ==> r is Err
            && r.unwrap_err() is MissingInvoiceNumber,
        ocr_response.numero_factura is Some && spec_has_purchase(
            old(store).compras@,
            spec_nf(ocr_response),
        ) ==> r is Err && r.unwrap_err() is DuplicatePurchase
            && r.unwrap_err()->DuplicatePurchase_0@ == spec_nf(ocr_response),
        ocr_response.numero_factura is Some && !spec_has_purchase(
            old(store).compras@,
            spec_nf(ocr_response),
        ) && spec_fecha_hora_of(ocr_response) is None ==> r is Err
            && r.unwrap_err() is InvalidTicketData,
        ocr_response.numero_factura is Some && !spec_has_purchase(
            old(store).compras@,
            spec_nf(ocr_response),
        ) && spec_fecha_hora_of(ocr_response) is Some ==> {
            &&& ocr_response.total is None ==> r is Err && r.unwrap_err() is InvalidTicketData
            &&& ocr_response.total is Some && ocr_response.total.unwrap().units < 0 ==> r is Err
                && r.unwrap_err() is InvalidTotals
            &&& ocr_response.total is Some && ocr_response.total.unwrap().units >= 0
                && !ocr_response.total.unwrap().spec_in_range() ==> r is Err
                && r.unwrap_err() is InvalidTicketData
            &&& spec_total_ok(ocr_response) && ocr_response.productos@.len() == 0
                && ocr_response.total.unwrap().units > 0 ==> r is Err
                && r.unwrap_err() is InvalidTicketData
            &&& spec_total_ok(ocr_response) && !(ocr_response.productos@.len() == 0
                && ocr_response.total.unwrap().units > 0) && !spec_pdf_ok(pdf_b64@, file_name@)
                ==> r is Err && r.unwrap_err() is InvalidTicketData
            &&& spec_total_ok(ocr_response) && !(ocr_response.productos@.len() == 0
                && ocr_response.total.unwrap().units > 0) && spec_pdf_ok(pdf_b64@, file_name@)
                && !spec_all_productos_ok(ocr_response.productos@) ==> r is Err
                && r.unwrap_err() is InvalidTicketData
            &&& spec_total_ok(ocr_response) && !(ocr_response.productos@.len() == 0
                && ocr_response.total.unwrap().units > 0) && spec_pdf_ok(pdf_b64@, file_name@)
                && spec_all_productos_ok(ocr_response.productos@) && !spec_totals_within(
                ocr_response.productos@,
                ocr_response.total.unwrap(),
            ) ==> r is Err && r.unwrap_err() is InvalidTotals
        },
        r is Ok ==> final(store).compras@.len() == old(store).compras@.len() + 1,
        r is Ok ==> final(store).compras@.subrange(0, old(store).compras@.len() as int) == old(
            store,
        ).compras@,
        r is Ok ==> spec_ingested_purchase(
            final(store).compras@.last(),
            ocr_response,
            user_email@,
            spec_shift_to_utc(spec_fecha_hora_of(ocr_response).unwrap(), utc_offset_secs as int),
            now,
        ),
        r is Ok ==> final(store).compras_productos@.len() == old(store).compras_productos@.len()
            + ocr_response.productos@.len(),
        r is Ok ==> final(store).compras_productos@.subrange(
            0,
            old(store).compras_productos@.len() as int,
        ) == old(store).compras_productos@,
        r is Ok ==> forall|j: int|
            0 <= j < ocr_response.productos@.len() ==> spec_ingested_line(
                final(store).compras_productos@[old(store).compras_productos@.len() + j],
                #[trigger] ocr_response.productos@[j],
                spec_nf(ocr_response),
            ),
        r is Ok ==> final(store).tickets_pdf@.len() == old(store).tickets_pdf@.len() + 1,
        r is Ok ==> final(store).tickets_pdf@.subrange(0, old(store).tickets_pdf@.len() as int)
            == old(store).tickets_pdf@,
        r is Ok ==> spec_ingested_doc(
            final(store).tickets_pdf@.last(),
            pdf_b64@,
            file_name@,
            spec_nf(ocr_response),
            now,
        ),
        r is Ok ==> forall|j: int|
            0 <= j < ocr_response.productos@.len() ==> spec_has_product(
                final(store).productos@,
                spec_normalized((#[trigger] ocr_response.productos@[j]).nombre@),
            ),
        r is Ok ==> old(store).productos@.len() <= final(store).productos@.len(),
        r is Ok ==> forall|i: int|
            0 <= i < old(store).productos@.len() ==> (#[trigger] final(store).productos@[
                i
            ]).nombre@ == old(store).productos@[i].nombre@,
        r is Ok ==> forall|i: int|
            0 <= i < old(store).productos@.len() && !spec_name_in_items(
                ocr_response.productos@,
                (#[trigger] old(store).productos@[i]).nombre@,
            ) ==> final(store).productos@[i] == old(store).productos@[i],
        // Ingestion observations carry no brand, so known catalog data
        // is never regressed: brand, known unit and creation stamp of
        // every pre-existing row survive unchanged.
        r is Ok ==> forall|i: int|
            0 <= i < old(store).productos@.len() ==> ((#[trigger] final(store).productos@[
                i
            ]).marca == old(store).productos@[i].marca && (old(store).productos@[i].unidad is Some
                ==> final(store).productos@[i].unidad == old(store).productos@[i].unidad)
                && final(store).productos@[i].created_at == old(store).productos@[i].created_at),
        r is Ok ==> r.unwrap().ingested == true && r.unwrap().numero_factura@ == spec_nf(
            ocr_response,
        ) && r.unwrap().total == ocr_response.total.unwrap() && r.unwrap().productos_insertados
            == ocr_response.productos@.len() && r.unwrap().fecha_hora == spec_shift_to_utc(
            spec_fecha_hora_of(ocr_response).unwrap(),
            utc_offset_secs as int,
        ),
{
    // 1. The invoice number is required; normalize it.
    let numero_factura = match &ocr_response.numero_factura {
        Some(s) => PurchaseInsert::normalize_invoice_number(s.as_str()),
        None => {
            return Err(AppError::MissingInvoiceNumber);
        },
    };

    // 2. Idempotency: a purchase under this invoice number must not
    //    exist yet.
    if let Some(_existing) = crate::store::get_purchase(store, numero_factura.as_str()) {
        return Err(AppError::DuplicatePurchase(numero_factura));
    }

    // 3. Timestamp and declared total.
    let fecha_local = match parse_fecha_hora(&ocr_response) {
        Ok(dt) => dt,
        Err(e) => {
            return Err(e);
        },
    };
    let fecha_hora = shift_to_utc(fecha_local, utc_offset_secs);
    let total = match parse_total(&ocr_response) {
        Ok(t) => t,
        Err(e) => {
            return Err(e);
        },
    };

    // 4. A receipt with spend but no items is incoherent.
    if ocr_response.productos.len() == 0 && total.is_positive() {
        return Err(
            AppError::InvalidTicketData(
                "El ticket tiene un total mayor a 0 pero no contiene productos".to_owned(),
            ),
        );
    }

    // 5. Decode and validate the attachment.
    let pdf_bytes = match decode_pdf_base64(pdf_b64) {
        Ok(b) => b,
        Err(e) => {
            return Err(e);
        },
    };
    let ticket_pdf = TicketPdfInsert {
        numero_factura: numero_factura.clone(),
        ticket_pdf: pdf_bytes,
        ticket_nombre_archivo: file_name.to_owned(),
    };
    match ticket_pdf.validate() {
        Ok(()) => {},
        Err(m) => {
            return Err(AppError::InvalidTicketData(m));
        },
    }

    // 6. The purchase row to insert.
    let purchase_data = PurchaseInsert {
        numero_factura: numero_factura.clone(),
        usuario_email: user_email.to_owned(),
        fecha_hora,
        total,
        tienda: opt_trim(&ocr_response.tienda),
        ubicacion: opt_trim(&ocr_response.ubicacion),
        metodo_pago: match &ocr_response.metodo_pago {
            Some(m) => PurchaseInsert::normalize_payment_method(m.as_str()),
            None => None,
        },
        numero_operacion: opt_trim(&ocr_response.numero_operacion),
    };

    // 7. Parse every line item.
    let n_items = ocr_response.productos.len();
    let mut productos: Vec<PurchaseProductInsert> = Vec::new();
    let mut k: usize = 0;
    while k < n_items
        invariant
            0 <= k <= n_items,
            n_items == ocr_response.productos@.len(),
            productos@.len() == k,
            forall|j: int|
                0 <= j < k ==> spec_producto_ok(#[trigger] ocr_response.productos@[j]),
            forall|j: int|
                0 <= j < k ==> spec_item_matches(
                    #[trigger] productos@[j],
                    ocr_response.productos@[j],
                ),
            forall|j: int| 0 <= j < k ==> (#[trigger] productos@[j]).wf(),
        decreases n_items - k,
    {
        match parse_producto(&ocr_response.productos[k]) {
            Ok(ins) => {
                productos.push(ins);
            },
            Err(e) => {
                return Err(e);
            },
        }
        k = k + 1;
    }

    // 8. Reconcile line totals with the declared total.
    proof {
        lemma_sums_agree(productos@, ocr_response.productos@);
    }
    match validate_totals(&productos, total) {
        Ok(()) => {},
        Err(e) => {
            return Err(e);
        },
    }

    // 9. Commit: catalog upserts, purchase, line items, document.
    let ghost store0 = *store;
    proof {
        lemma_no_pdf_without_purchase(*store, numero_factura@);
    }
    let mut u: usize = 0;
    while u < n_items
        invariant
            0 <= u <= n_items,
            n_items == productos@.len(),
            store.wf(),
            store.compras == store0.compras,
            store.compras_productos == store0.compras_productos,
            store.tickets_pdf == store0.tickets_pdf,
            store0.productos@.len() <= store.productos@.len(),
            forall|i: int|
                0 <= i < store0.productos@.len() ==> (#[trigger] store.productos@[i]).nombre@
                    == store0.productos@[i].nombre@,
            forall|j: int|
                0 <= j < u ==> spec_has_product(
                    store.productos@,
                    (#[trigger] productos@[j]).producto_nombre@,
                ),
            forall|i: int|
                0 <= i < store0.productos@.len() && !spec_name_in_parsed(
                    productos@,
                    (#[trigger] store0.productos@[i]).nombre@,
                ) ==> store.productos@[i] == store0.productos@[i],
            forall|i: int|
                0 <= i < store0.productos@.len() ==> ((#[trigger] store.productos@[i]).marca
                    == store0.productos@[i].marca && (store0.productos@[i].unidad is Some
                    ==> store.productos@[i].unidad == store0.productos@[i].unidad)
                    && store.productos@[i].created_at == store0.productos@[i].created_at),
        decreases n_items - u,
    {
        let item = &productos[u];
        let product_upsert = ProductUpsert {
            nombre: item.producto_nombre.clone(),
            marca: None,
            unidad: "unidad".to_owned(),
            precio_actual: Some(item.precio_unitario),
        };
        let ghost before = store.productos@;
        let _merged = upsert_product(store, &product_upsert, now);
        proof {
            assert(spec_name_in_parsed(productos@, product_upsert.nombre@)) by {
                assert(productos@[u as int].producto_nombre@ == product_upsert.nombre@);
            }
            assert forall|j: int| 0 <= j < u + 1 implies spec_has_product(
                store.productos@,
                (#[trigger] productos@[j]).producto_nombre@,
            ) by {
                if j < u {
                    assert(spec_has_product(before, productos@[j].producto_nombre@));
                }
            }
        }
        u = u + 1;
    }

    // The duplicate check still holds: no write so far has touched
    // the purchases table.
    let purchase_result = insert_purchase(store, &purchase_data, now);
    let _purchase = match purchase_result {
        Ok(p) => p,
        Err(e) => {
            proof {
                assert(false);
            }
            return Err(e);
        },
    };

    proof {
        let cs = store.compras@;
        assert(cs.last().numero_factura@ == numero_factura@);
        assert(0 <= cs.len() - 1 < cs.len() && cs[cs.len() - 1].numero_factura@
            == numero_factura@);
        assert(spec_has_purchase(cs, numero_factura@));
    }
    let n_inserted = productos.len();
    let _rows_inserted = insert_purchase_products(store, &numero_factura, &productos);

    let pdf_result = insert_ticket_pdf(store, &ticket_pdf, now);
    let _pdf_row = match pdf_result {
        Ok(p) => p,
        Err(e) => {
            proof {
                assert(false);
            }
            return Err(e);
        },
    };

    proof {
        lemma_lines_match(
            store.compras_productos@,
            store0.compras_productos@,
            productos@,
            ocr_response.productos@,
            numero_factura,
        );
    }

    Ok(
        TicketIngestionResponse {
            ingested: true,
            numero_factura,
            total,
            productos_insertados: n_inserted,
            fecha_hora,
        },
    )
}

/// Number of purchase rows carrying the given invoice number.
pub open spec fn spec_count_purchases(cs: Seq<Purchase>, n: Seq<char>) -> int
    decreases cs.len(),
{
    if cs.len() == 0 {
        0
    } else {
        spec_count_purchases(cs.drop_last(), n) + if cs.last().numero_factura@ == n {
            1int
        } else {
            0int
        }
    }
}

/// An invoice number that no row carries is counted zero times.
proof fn lemma_count_absent(cs: Seq<Purchase>, n: Seq<char>)
    requires
        !spec_has_purchase(cs, n),
    ensures
        spec_count_purchases(cs, n) == 0,
    decreases cs.len(),
{
    if cs.len() > 0 {
        assert(forall|i: int|
            0 <= i < cs.len() - 1 ==> cs.drop_last()[i] == cs[i]);
        lemma_count_absent(cs.drop_last(), n);
        assert(cs[cs.len() - 1].numero_factura@ != n);
    }
}

/// Idempotency of ingestion.  After an ingestion for some invoice
/// number succeeds, leaving the store in state `s2`, a second
/// extraction that normalizes to the same invoice number can no
/// longer be ingested — `spec_ingest_ok` fails on its duplicate-check
/// conjunct, so by the contract of `ingest_ticket` the second call
/// returns the duplicate-purchase error — and exactly one purchase
/// row carries that invoice number.
pub proof fn lemma_ingest_idempotent(
    s: Store,
    s2: Store,
    ext: ProcessTicketResponse,
    ext2: ProcessTicketResponse,
    pdf_b64: Seq<char>,
    file_name: Seq<char>,
    pdf_b64_2: Seq<char>,
    file_name_2: Seq<char>,
    user_email: Seq<char>,
    utc: DateTime,
    now: i64,
)
    requires
        spec_ingest_ok(ext, s, pdf_b64, file_name),
        s2.compras@.len() == s.compras@.len() + 1,
        s2.compras@.subrange(0, s.compras@.len() as int) == s.compras@,
        spec_ingested_purchase(s2.compras@.last(), ext, user_email, utc, now),
        ext2.numero_factura is Some,
        spec_nf(ext2) == spec_nf(ext),
    ensures
        spec_has_purchase(s2.compras@, spec_nf(ext2)),
        !spec_ingest_ok(ext2, s2, pdf_b64_2, file_name_2),
        spec_count_purchases(s2.compras@, spec_nf(ext)) == 1,
{
    let n = spec_nf(ext);
    let len = s.compras@.len() as int;
    assert(s2.compras@[len] == s2.compras@.last());
    assert(s2.compras@[len].numero_factura@ == n);
    assert(spec_has_purchase(s2.compras@, n));
    assert(s2.compras@.drop_last() =~= s.compras@);
    lemma_count_absent(s.compras@, n);
}

/// Whether some parsed record carries the given catalog name.
pub open spec fn spec_name_in_parsed(items: Seq<PurchaseProductInsert>, n: Seq<char>) -> bool {
    exists|j: int| 0 <= j < items.len() && items[j].producto_nombre@ == n
}

/// Appended line rows built from matching parsed records satisfy the
/// per-item commitment.
proof fn lemma_lines_match(
    rows: Seq<PurchaseProduct>,
    old_rows: Seq<PurchaseProduct>,
    items: Seq<PurchaseProductInsert>,
    ps: Seq<TicketProduct>,
    nf: String,
)
    requires
        rows == old_rows + items.map_values(|item: PurchaseProductInsert| spec_line_row(nf, item)),
        items.len() == ps.len(),
        forall|j: int| 0 <= j < ps.len() ==> spec_item_matches(#[trigger] items[j], ps[j]),
    ensures
        rows.len() == old_rows.len() + ps.len(),
        rows.subrange(0, old_rows.len() as int) == old_rows,
        forall|j: int|
            0 <= j < ps.len() ==> spec_ingested_line(
                rows[old_rows.len() + j],
                #[trigger] ps[j],
                nf@,
            ),
{
    assert(rows.subrange(0, old_rows.len() as int) =~= old_rows);
    assert forall|j: int| 0 <= j < ps.len() implies spec_ingested_line(
        rows[old_rows.len() + j],
        #[trigger] ps[j],
        nf@,
    ) by {
        assert(rows[old_rows.len() + j] == items.map_values(
            |item: PurchaseProductInsert| spec_line_row(nf, item),
        )[j]);
    }
}

} // verus!
