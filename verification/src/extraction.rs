//! The structured extraction an external recognizer produces.
//!
//! This is the untrusted input of the engine.  Numeric fields arrive as
//! fixed-point amounts; a field the recognizer could not represent is
//! absent.  Optional line-item fields (discount, VAT) default to zero
//! during parsing rather than failing.

use vstd::prelude::*;

use crate::amount::Amount;

verus! {

/// One detected line item of the receipt.
#[derive(Debug)]
pub struct TicketProduct {
    pub nombre: String,
    pub cantidad: Option<Amount>,
    pub unidad: String,
    pub precio_unitario: Option<Amount>,
    pub precio_total: Option<Amount>,
    pub descuento: Option<Amount>,
    pub iva_porcentaje: Option<Amount>,
    pub iva_importe: Option<Amount>,
}

/// One VAT bracket of the receipt's summary table.
#[derive(Debug)]
pub struct IvaBreakdown {
    pub porcentaje: Option<Amount>,
    pub base_imponible: Option<Amount>,
    pub cuota: Option<Amount>,
}

/// The complete recognizer output for one ticket.
#[derive(Debug)]
pub struct ProcessTicketResponse {
    pub ticket_id: String,
    pub raw_text: String,
    pub numero_factura: Option<String>,
    pub fecha: Option<String>,
    pub fecha_hora: Option<String>,
    pub total: Option<Amount>,
    pub tienda: Option<String>,
    pub ubicacion: Option<String>,
    pub metodo_pago: Option<String>,
    pub numero_operacion: Option<String>,
    pub productos: Vec<TicketProduct>,
    pub iva_desglose: Vec<IvaBreakdown>,
}

} // verus!
