//! In-memory relational store.
//!
//! The four tables a committed ticket touches, with their integrity
//! rules as a single well-formedness invariant: catalog names, invoice
//! numbers and document keys are unique, and every line item and every
//! document references an existing purchase (and, for line items, an
//! existing catalog product).  Each operation states exactly which rows
//! it adds or rewrites; on the error side the store is untouched.

use vstd::pervasive::VecAdditionalExecFns;
use vstd::prelude::*;

use crate::error::AppError;
use crate::models::{
    opt_str_view, Product, ProductUpsert, Purchase, PurchaseInsert, PurchaseProduct,
    PurchaseProductInsert, TicketPdf, TicketPdfInsert,
};
use crate::strings::str_eq;

verus! {

/// The relational state: one `Vec` per table.
pub struct Store {
    pub productos: Vec<Product>,
    pub compras: Vec<Purchase>,
    pub compras_productos: Vec<PurchaseProduct>,
    pub tickets_pdf: Vec<TicketPdf>,
}

/// Whether the catalog holds a product with the given name.
pub open spec fn spec_has_product(ps: Seq<Product>, n: Seq<char>) -> bool {
    exists|i: int| 0 <= i < ps.len() && ps[i].nombre@ == n
}

/// Whether a purchase with the given invoice number exists.
pub open spec fn spec_has_purchase(cs: Seq<Purchase>, n: Seq<char>) -> bool {
    exists|i: int| 0 <= i < cs.len() && cs[i].numero_factura@ == n
}

/// Whether a document for the given invoice number exists.
pub open spec fn spec_has_pdf(ts: Seq<TicketPdf>, n: Seq<char>) -> bool {
    exists|i: int| 0 <= i < ts.len() && ts[i].numero_factura@ == n
}

/// Catalog names are pairwise distinct.
pub open spec fn spec_unique_products(ps: Seq<Product>) -> bool {
    forall|i: int, j: int| 0 <= i < j < ps.len() ==> ps[i].nombre@ != ps[j].nombre@
}

/// Invoice numbers are pairwise distinct.
pub open spec fn spec_unique_purchases(cs: Seq<Purchase>) -> bool {
    forall|i: int, j: int| 0 <= i < j < cs.len() ==> cs[i].numero_factura@ != cs[j].numero_factura@
}

/// Document keys are pairwise distinct.
pub open spec fn spec_unique_pdfs(ts: Seq<TicketPdf>) -> bool {
    forall|i: int, j: int| 0 <= i < j < ts.len() ==> ts[i].numero_factura@ != ts[j].numero_factura@
}

impl Store {
    /// The store's integrity invariant: key uniqueness and referential
    /// integrity.
    pub open spec fn wf(self) -> bool {
        &&& spec_unique_products(self.productos@)
        &&& spec_unique_purchases(self.compras@)
        &&& spec_unique_pdfs(self.tickets_pdf@)
        &&& forall|i: int|
            0 <= i < self.compras_productos@.len() ==> spec_has_purchase(
                self.compras@,
                #[trigger] self.compras_productos@[i].compra_numero_factura@,
            )
        &&& forall|i: int|
            0 <= i < self.compras_productos@.len() ==> spec_has_product(
                self.productos@,
                #[trigger] self.compras_productos@[i].producto_nombre@,
            )
        &&& forall|i: int|
            0 <= i < self.tickets_pdf@.len() ==> spec_has_purchase(
                self.compras@,
                #[trigger] self.tickets_pdf@[i].numero_factura@,
            )
    }

    /// An empty store.
    pub fn new() -> (s: Store)
        ensures
            s.wf(),
            s.productos@.len() == 0,
            s.compras@.len() == 0,
            s.compras_productos@.len() == 0,
            s.tickets_pdf@.len() == 0,
    {
        Store { productos: Vec::new(), compras: Vec::new(), compras_productos: Vec::new(), tickets_pdf: Vec::new() }
    }
}

/// Copies an optional text field.
fn clone_opt_string(o: &Option<String>) -> (r: Option<String>)
    ensures
        r == *o,
{
    match o {
        Some(s) => Some(s.clone()),
        None => None,
    }
}

/// Copies a byte buffer element by element.
fn clone_bytes(v: &Vec<u8>) -> (r: Vec<u8>)
    ensures
        r@ == v@,
{
    let mut out: Vec<u8> = Vec::new();
    let n = v.len();
    let mut i: usize = 0;
    while i < n
        invariant
            0 <= i <= n,
            n == v@.len(),
            out@ == v@.subrange(0, i as int),
        decreases n - i,
    {
        out.push(v[i]);
        proof {
            assert(out@ =~= v@.subrange(0, i + 1));
        }
        i = i + 1;
    }
    proof {
        assert(out@ =~= v@);
    }
    out
}

/// Copies a catalog row.
fn clone_product(p: &Product) -> (r: Product)
    ensures
        r == *p,
{
    Product {
        nombre: p.nombre.clone(),
        marca: clone_opt_string(&p.marca),
        unidad: clone_opt_string(&p.unidad),
        precio_actual: p.precio_actual,
        precio_actualizado_en: p.precio_actualizado_en,
        created_at: p.created_at,
    }
}

/// Copies a purchase row.
fn clone_purchase(p: &Purchase) -> (r: Purchase)
    ensures
        r == *p,
{
    Purchase {
        numero_factura: p.numero_factura.clone(),
        usuario_email: p.usuario_email.clone(),
        fecha_hora: p.fecha_hora,
        total: p.total,
        tienda: clone_opt_string(&p.tienda),
        ubicacion: clone_opt_string(&p.ubicacion),
        metodo_pago: clone_opt_string(&p.metodo_pago),
        numero_operacion: clone_opt_string(&p.numero_operacion),
        created_at: p.created_at,
    }
}

/// Index of the catalog row with the given name, if one exists.
fn find_product_index(store: &Store, nombre: &str) -> (r: Option<usize>)
    ensures
        match r {
            Some(i) => i < store.productos@.len() && store.productos@[i as int].nombre@ == nombre@,
            None => !spec_has_product(store.productos@, nombre@),
        },
{
    let n = store.productos.len();
    let mut i: usize = 0;
    while i < n
        invariant
            0 <= i <= n,
            n == store.productos@.len(),
            forall|j: int| 0 <= j < i ==> store.productos@[j].nombre@ != nombre@,
        decreases n - i,
    {
        if str_eq(store.productos[i].nombre.as_str(), nombre) {
            return Some(i);
        }
        i = i + 1;
    }
    None
}

/// Index of the purchase row with the given invoice number, if any.
fn find_purchase_index(store: &Store, numero_factura: &str) -> (r: Option<usize>)
    ensures
        match r {
            Some(i) => i < store.compras@.len() && store.compras@[i as int].numero_factura@
                == numero_factura@,
            None => !spec_has_purchase(store.compras@, numero_factura@),
        },
{
    let n = store.compras.len();
    let mut i: usize = 0;
    while i < n
        invariant
            0 <= i <= n,
            n == store.compras@.len(),
            forall|j: int| 0 <= j < i ==> store.compras@[j].numero_factura@ != numero_factura@,
        decreases n - i,
    {
        if str_eq(store.compras[i].numero_factura.as_str(), numero_factura) {
            return Some(i);
        }
        i = i + 1;
    }
    None
}

/// Index of the document row with the given invoice number, if any.
fn find_pdf_index(store: &Store, numero_factura: &str) -> (r: Option<usize>)
    ensures
        match r {
            Some(i) => i < store.tickets_pdf@.len() && store.tickets_pdf@[i as int].numero_factura@
                == numero_factura@,
            None => !spec_has_pdf(store.tickets_pdf@, numero_factura@),
        },
{
    let n = store.tickets_pdf.len();
    let mut i: usize = 0;
    while i < n
        invariant
            0 <= i <= n,
            n == store.tickets_pdf@.len(),
            forall|j: int| 0 <= j < i ==> store.tickets_pdf@[j].numero_factura@ != numero_factura@,
        decreases n - i,
    {
        if str_eq(store.tickets_pdf[i].numero_factura.as_str(), numero_factura) {
            return Some(i);
        }
        i = i + 1;
    }
    None
}

/// Looks a product up by its (normalized) name.
pub fn get_product(store: &Store, nombre: &str) -> (r: Option<Product>)
    ensures
        r is Some <==> spec_has_product(store.productos@, nombre@),
        r is Some ==> r.unwrap().nombre@ == nombre@ && exists|i: int|
            0 <= i < store.productos@.len() && store.productos@[i] == r.unwrap(),
{
    match find_product_index(store, nombre) {
        Some(i) => Some(clone_product(&store.productos[i])),
        None => None,
    }
}

/// Looks a purchase up by its (normalized) invoice number.
pub fn get_purchase(store: &Store, numero_factura: &str) -> (r: Option<Purchase>)
    ensures
        r is Some <==> spec_has_purchase(store.compras@, numero_factura@),
        r is Some ==> r.unwrap().numero_factura@ == numero_factura@ && exists|i: int|
            0 <= i < store.compras@.len() && store.compras@[i] == r.unwrap(),
{
    match find_purchase_index(store, numero_factura) {
        Some(i) => Some(clone_purchase(&store.compras[i])),
        None => None,
    }
}

/// The catalog row a first sighting creates.
pub open spec fn spec_new_product_row(up: ProductUpsert, now: i64) -> Product {
    Product {
        nombre: up.nombre,
        marca: up.marca,
        unidad: Some(up.unidad),
        precio_actual: up.precio_actual,
        precio_actualizado_en: Some(now),
        created_at: now,
    }
}

/// The conflict-merge rule of the catalog: brand and unit are only
/// filled when previously absent, and the price is replaced exactly
/// when the stored observation is missing or strictly older than
/// `now`.
pub open spec fn spec_merge_product(e: Product, up: ProductUpsert, now: i64) -> Product {
    Product {
        nombre: e.nombre,
        marca: if e.marca is Some {
            e.marca
        } else {
            up.marca
        },
        unidad: if e.unidad is Some {
            e.unidad
        } else {
            Some(up.unidad)
        },
        precio_actual: if e.precio_actualizado_en is None || e.precio_actualizado_en.unwrap()
            < now {
            up.precio_actual
        } else {
            e.precio_actual
        },
        precio_actualizado_en: if e.precio_actualizado_en is None
            || e.precio_actualizado_en.unwrap() < now {
            Some(now)
        } else {
            e.precio_actualizado_en
        },
        created_at: e.created_at,
    }
}

/// How one upsert relates the catalog before and after, together with
/// the returned row.
pub open spec fn spec_upsert_rel(
    old_ps: Seq<Product>,
    new_ps: Seq<Product>,
    ret: Product,
    up: ProductUpsert,
    now: i64,
) -> bool {
    if spec_has_product(old_ps, up.nombre@) {
        &&& new_ps.len() == old_ps.len()
        &&& forall|j: int|
            0 <= j < old_ps.len() && old_ps[j].nombre@ != up.nombre@ ==> new_ps[j] == old_ps[j]
        &&& forall|j: int|
            0 <= j < old_ps.len() && old_ps[j].nombre@ == up.nombre@ ==> new_ps[j]
                == spec_merge_product(old_ps[j], up, now) && ret == new_ps[j]
    } else {
        &&& new_ps == old_ps.push(spec_new_product_row(up, now))
        &&& ret == spec_new_product_row(up, now)
    }
}

/// Inserts or merges a product observation into the catalog: a new
/// name creates a row; a known name is merged under the
/// never-regress rule.  Returns the post-merge row.
pub fn upsert_product(store: &mut Store, product: &ProductUpsert, now: i64) -> (r: Product)
    requires
        old(store).wf(),
    ensures
        final(store).wf(),
        final(store).compras == old(store).compras,
        final(store).compras_productos == old(store).compras_productos,
        final(store).tickets_pdf == old(store).tickets_pdf,
        spec_upsert_rel(old(store).productos@, final(store).productos@, r, *product, now),
        spec_has_product(final(store).productos@, product.nombre@),
        forall|n: Seq<char>|
            #[trigger] spec_has_product(old(store).productos@, n) ==> spec_has_product(
                final(store).productos@,
                n,
            ),
        old(store).productos@.len() <= final(store).productos@.len(),
        forall|i: int|
            0 <= i < old(store).productos@.len() ==> (#[trigger] final(store).productos@[
                i
            ]).nombre@ == old(store).productos@[i].nombre@,
{
    let ghost old_ps = store.productos@;
    match find_product_index(store, product.nombre.as_str()) {
        Some(i) => {
            let e = store.productos.remove(i);
            let marca = if e.marca.is_some() {
                e.marca
            } else {
                clone_opt_string(&product.marca)
            };
            let unidad = if e.unidad.is_some() {
                e.unidad
            } else {
                Some(product.unidad.clone())
            };
            let replace_price = match e.precio_actualizado_en {
                None => true,
                Some(t) => t < now,
            };
            let precio_actual = if replace_price {
                product.precio_actual
            } else {
                e.precio_actual
            };
            let precio_actualizado_en = if replace_price {
                Some(now)
            } else {
                e.precio_actualizado_en
            };
            let merged = Product {
                nombre: e.nombre,
                marca,
                unidad,
                precio_actual,
                precio_actualizado_en,
                created_at: e.created_at,
            };
            proof {
                assert(merged == spec_merge_product(old_ps[i as int], *product, now));
            }
            store.productos.insert(i, merged);
            proof {
                assert(store.productos@ =~= old_ps.update(
                    i as int,
                    spec_merge_product(old_ps[i as int], *product, now),
                ));
                assert forall|j: int|
                    0 <= j < old_ps.len() && old_ps[j].nombre@ == product.nombre@ implies j
                    == i as int by {
                    if j != i as int {
                        assert(old_ps[j].nombre@ != old_ps[i as int].nombre@);
                    }
                }
                assert forall|j: int| 0 <= j < store.productos@.len() implies store.productos@[
                    j
                ].nombre@ == old_ps[j].nombre@ by {}
                lemma_names_preserved(old_ps, store.productos@);
            }
            clone_product(&store.productos[i])
        },
        None => {
            let row = Product {
                nombre: product.nombre.clone(),
                marca: clone_opt_string(&product.marca),
                unidad: Some(product.unidad.clone()),
                precio_actual: product.precio_actual,
                precio_actualizado_en: Some(now),
                created_at: now,
            };
            proof {
                assert(row == spec_new_product_row(*product, now));
            }
            store.productos.push(row);
            proof {
                assert(store.productos@ == old_ps.push(spec_new_product_row(*product, now)));
                lemma_has_product_push(old_ps, spec_new_product_row(*product, now));
                assert(store.productos@[old_ps.len() as int].nombre@ == product.nombre@);
            }
            let n = store.productos.len();
            clone_product(&store.productos[n - 1])
        },
    }
}

/// Appending a row keeps every name that was already present.
proof fn lemma_has_product_push(ps: Seq<Product>, p: Product)
    ensures
        forall|n: Seq<char>|
            #[trigger] spec_has_product(ps, n) ==> spec_has_product(ps.push(p), n),
        spec_has_product(ps.push(p), p.nombre@),
{
    assert forall|n: Seq<char>| #[trigger]
        spec_has_product(ps, n) implies spec_has_product(ps.push(p), n) by {
        let i = choose|i: int| 0 <= i < ps.len() && ps[i].nombre@ == n;
        assert(ps.push(p)[i] == ps[i]);
    }
    assert(ps.push(p)[ps.len() as int] == p);
}

/// Appending a row keeps every invoice number that was already
/// present.
proof fn lemma_has_purchase_push(cs: Seq<Purchase>, p: Purchase)
    ensures
        forall|n: Seq<char>|
            #[trigger] spec_has_purchase(cs, n) ==> spec_has_purchase(cs.push(p), n),
        spec_has_purchase(cs.push(p), p.numero_factura@),
{
    assert forall|n: Seq<char>| #[trigger]
        spec_has_purchase(cs, n) implies spec_has_purchase(cs.push(p), n) by {
        let i = choose|i: int| 0 <= i < cs.len() && cs[i].numero_factura@ == n;
        assert(cs.push(p)[i] == cs[i]);
    }
    assert(cs.push(p)[cs.len() as int] == p);
}

/// Two catalogs with pointwise equal names hold the same names and
/// are equally duplicate-free.
proof fn lemma_names_preserved(old_ps: Seq<Product>, new_ps: Seq<Product>)
    requires
        old_ps.len() == new_ps.len(),
        forall|j: int| 0 <= j < old_ps.len() ==> new_ps[j].nombre@ == old_ps[j].nombre@,
    ensures
        forall|n: Seq<char>|
            #[trigger] spec_has_product(old_ps, n) ==> spec_has_product(new_ps, n),
        spec_unique_products(old_ps) ==> spec_unique_products(new_ps),
{
    assert forall|n: Seq<char>| #[trigger]
        spec_has_product(old_ps, n) implies spec_has_product(new_ps, n) by {
        let i = choose|i: int| 0 <= i < old_ps.len() && old_ps[i].nombre@ == n;
        assert(new_ps[i].nombre@ == n);
    }
}

/// A known brand is never overwritten: if the catalog row for the
/// upserted name already carries a brand, the merged row carries the
/// same brand, whatever the incoming observation says.
pub proof fn lemma_upsert_preserves_brand(
    old_ps: Seq<Product>,
    new_ps: Seq<Product>,
    ret: Product,
    up: ProductUpsert,
    now: i64,
    i: int,
)
    requires
        spec_upsert_rel(old_ps, new_ps, ret, up, now),
        0 <= i < old_ps.len(),
        old_ps[i].nombre@ == up.nombre@,
        old_ps[i].marca is Some,
    ensures
        new_ps[i].marca == old_ps[i].marca,
        new_ps[i].unidad is Some ==> old_ps[i].unidad is Some ==> new_ps[i].unidad == old_ps[
            i
        ].unidad,
{
    assert(spec_has_product(old_ps, up.nombre@));
}

/// A newer observation always wins: when the stored price timestamp
/// is absent or strictly older than the merge instant, the merged row
/// carries the incoming price, stamped at that instant.
pub proof fn lemma_upsert_newer_price_wins(
    old_ps: Seq<Product>,
    new_ps: Seq<Product>,
    ret: Product,
    up: ProductUpsert,
    now: i64,
    i: int,
)
    requires
        spec_upsert_rel(old_ps, new_ps, ret, up, now),
        0 <= i < old_ps.len(),
        old_ps[i].nombre@ == up.nombre@,
        old_ps[i].precio_actualizado_en is None || old_ps[i].precio_actualizado_en.unwrap() < now,
    ensures
        new_ps[i].precio_actual == up.precio_actual,
        new_ps[i].precio_actualizado_en == Some(now),
{
    assert(spec_has_product(old_ps, up.nombre@));
}

/// A stale writer never changes the price: when the stored timestamp
/// is at or after the merge instant, price and timestamp stay as they
/// were.
pub proof fn lemma_upsert_stale_price_kept(
    old_ps: Seq<Product>,
    new_ps: Seq<Product>,
    ret: Product,
    up: ProductUpsert,
    now: i64,
    i: int,
)
    requires
        spec_upsert_rel(old_ps, new_ps, ret, up, now),
        0 <= i < old_ps.len(),
        old_ps[i].nombre@ == up.nombre@,
        old_ps[i].precio_actualizado_en is Some,
        old_ps[i].precio_actualizado_en.unwrap() >= now,
    ensures
        new_ps[i].precio_actual == old_ps[i].precio_actual,
        new_ps[i].precio_actualizado_en == old_ps[i].precio_actualizado_en,
{
    assert(spec_has_product(old_ps, up.nombre@));
}

/// The purchase row an insert creates.
pub open spec fn spec_new_purchase_row(ins: PurchaseInsert, now: i64) -> Purchase {
    Purchase {
        numero_factura: ins.numero_factura,
        usuario_email: ins.usuario_email,
        fecha_hora: ins.fecha_hora,
        total: ins.total,
        tienda: ins.tienda,
        ubicacion: ins.ubicacion,
        metodo_pago: ins.metodo_pago,
        numero_operacion: ins.numero_operacion,
        created_at: now,
    }
}

/// Inserts a new purchase row; a second row under the same invoice
/// number is refused by the uniqueness constraint.
pub fn insert_purchase(store: &mut Store, purchase: &PurchaseInsert, now: i64) -> (r: Result<
    Purchase,
    AppError,
>)
    requires
        old(store).wf(),
    ensures
        final(store).wf(),
        r is Err ==> *final(store) == *old(store) && spec_has_purchase(
            old(store).compras@,
            purchase.numero_factura@,
        ) && r.unwrap_err() is DatabaseIntegrity,
        r is Ok ==> !spec_has_purchase(old(store).compras@, purchase.numero_factura@),
        r is Ok ==> final(store).compras@ == old(store).compras@.push(
            spec_new_purchase_row(*purchase, now),
        ) && r.unwrap() == spec_new_purchase_row(*purchase, now),
        r is Ok ==> final(store).productos == old(store).productos,
        r is Ok ==> final(store).compras_productos == old(store).compras_productos,
        r is Ok ==> final(store).tickets_pdf == old(store).tickets_pdf,
{
    match find_purchase_index(store, purchase.numero_factura.as_str()) {
        Some(_) => Err(
            AppError::DatabaseIntegrity("Violacion de unicidad: compras_pkey".to_owned()),
        ),
        None => {
            let row = Purchase {
                numero_factura: purchase.numero_factura.clone(),
                usuario_email: purchase.usuario_email.clone(),
                fecha_hora: purchase.fecha_hora,
                total: purchase.total,
                tienda: clone_opt_string(&purchase.tienda),
                ubicacion: clone_opt_string(&purchase.ubicacion),
                metodo_pago: clone_opt_string(&purchase.metodo_pago),
                numero_operacion: clone_opt_string(&purchase.numero_operacion),
                created_at: now,
            };
            proof {
                assert(row == spec_new_purchase_row(*purchase, now));
            }
            let ghost old_cs = store.compras@;
            store.compras.push(row);
            proof {
                lemma_has_purchase_push(old_cs, spec_new_purchase_row(*purchase, now));
            }
            let n = store.compras.len();
            Ok(clone_purchase(&store.compras[n - 1]))
        },
    }
}

/// The line-item row built for one parsed product of one invoice.
pub open spec fn spec_line_row(nf: String, item: PurchaseProductInsert) -> PurchaseProduct {
    PurchaseProduct {
        compra_numero_factura: nf,
        producto_nombre: item.producto_nombre,
        cantidad: item.cantidad,
        precio_unitario: item.precio_unitario,
        precio_total: item.precio_total,
        descuento: item.descuento,
        iva_porcentaje: item.iva_porcentaje,
        iva_importe: item.iva_importe,
    }
}

/// Inserts the line items of one purchase, in order; belongs inside
/// the same transaction as the purchase itself.  Returns the number of
/// rows inserted.
pub fn insert_purchase_products(
    store: &mut Store,
    numero_factura: &String,
    items: &Vec<PurchaseProductInsert>,
) -> (r: u64)
    requires
        old(store).wf(),
        spec_has_purchase(old(store).compras@, numero_factura@),
        forall|j: int|
            0 <= j < items@.len() ==> spec_has_product(
                old(store).productos@,
                #[trigger] items@[j].producto_nombre@,
            ),
    ensures
        final(store).wf(),
        final(store).compras_productos@ == old(store).compras_productos@ + items@.map_values(
            |item: PurchaseProductInsert| spec_line_row(*numero_factura, item),
        ),
        final(store).productos == old(store).productos,
        final(store).compras == old(store).compras,
        final(store).tickets_pdf == old(store).tickets_pdf,
        r == items@.len(),
{
    let ghost old_rows = store.compras_productos@;
    let ghost target = items@.map_values(
        |item: PurchaseProductInsert| spec_line_row(*numero_factura, item),
    );
    let n = items.len();
    let mut i: usize = 0;
    while i < n
        invariant
            0 <= i <= n,
            n == items@.len(),
            store.wf(),
            store.productos == old(store).productos,
            store.compras == old(store).compras,
            store.tickets_pdf == old(store).tickets_pdf,
            spec_has_purchase(store.compras@, numero_factura@),
            forall|j: int|
                0 <= j < items@.len() ==> spec_has_product(
                    store.productos@,
                    #[trigger] items@[j].producto_nombre@,
                ),
            target == items@.map_values(
                |item: PurchaseProductInsert| spec_line_row(*numero_factura, item),
            ),
            store.compras_productos@ == old_rows + target.subrange(0, i as int),
        decreases n - i,
    {
        let item = &items[i];
        let row = PurchaseProduct {
            compra_numero_factura: numero_factura.clone(),
            producto_nombre: item.producto_nombre.clone(),
            cantidad: item.cantidad,
            precio_unitario: item.precio_unitario,
            precio_total: item.precio_total,
            descuento: item.descuento,
            iva_porcentaje: item.iva_porcentaje,
            iva_importe: item.iva_importe,
        };
        proof {
            assert(row == spec_line_row(*numero_factura, items@[i as int]));
            assert(target[i as int] == spec_line_row(*numero_factura, items@[i as int]));
        }
        store.compras_productos.push(row);
        proof {
            assert(store.compras_productos@ =~= old_rows + target.subrange(0, i + 1));
        }
        i = i + 1;
    }
    proof {
        assert(target.subrange(0, n as int) =~= target);
    }
    n as u64
}

/// Whether two document rows carry the same data.
pub open spec fn spec_pdf_row_matches(row: TicketPdf, t: TicketPdfInsert, now: i64) -> bool {
    &&& row.numero_factura@ == t.numero_factura@
    &&& row.ticket_pdf@ == t.ticket_pdf@
    &&& row.ticket_nombre_archivo@ == t.ticket_nombre_archivo@
    &&& row.ticket_tamano_bytes == t.ticket_pdf@.len() as i32
    &&& row.created_at == now
}

/// Inserts the attached document of one purchase; one document per
/// invoice number is enforced, and the purchase must already exist.
pub fn insert_ticket_pdf(store: &mut Store, ticket: &TicketPdfInsert, now: i64) -> (r: Result<
    TicketPdf,
    AppError,
>)
    requires
        old(store).wf(),
        spec_has_purchase(old(store).compras@, ticket.numero_factura@),
        ticket.ticket_pdf@.len() <= i32::MAX,
    ensures
        final(store).wf(),
        r is Err ==> *final(store) == *old(store) && spec_has_pdf(
            old(store).tickets_pdf@,
            ticket.numero_factura@,
        ) && r.unwrap_err() is DatabaseIntegrity,
        r is Ok ==> !spec_has_pdf(old(store).tickets_pdf@, ticket.numero_factura@),
        r is Ok ==> final(store).tickets_pdf@.len() == old(store).tickets_pdf@.len() + 1,
        r is Ok ==> final(store).tickets_pdf@.subrange(0, old(store).tickets_pdf@.len() as int)
            == old(store).tickets_pdf@,
        r is Ok ==> spec_pdf_row_matches(
            final(store).tickets_pdf@[old(store).tickets_pdf@.len() as int],
            *ticket,
            now,
        ) && spec_pdf_row_matches(r.unwrap(), *ticket, now),
        r is Ok ==> final(store).productos == old(store).productos,
        r is Ok ==> final(store).compras == old(store).compras,
        r is Ok ==> final(store).compras_productos == old(store).compras_productos,
{
    match find_pdf_index(store, ticket.numero_factura.as_str()) {
        Some(_) => Err(
            AppError::DatabaseIntegrity("Violacion de unicidad: tickets_pdf_pkey".to_owned()),
        ),
        None => {
            let size = ticket.calculate_size();
            let row = TicketPdf {
                numero_factura: ticket.numero_factura.clone(),
                ticket_pdf: clone_bytes(&ticket.ticket_pdf),
                ticket_nombre_archivo: ticket.ticket_nombre_archivo.clone(),
                ticket_tamano_bytes: size,
                created_at: now,
            };
            let ghost old_ts = store.tickets_pdf@;
            store.tickets_pdf.push(row);
            proof {
                assert(store.tickets_pdf@.subrange(0, old_ts.len() as int) =~= old_ts);
            }
            let n = store.tickets_pdf.len();
            let back = &store.tickets_pdf[n - 1];
            Ok(
                TicketPdf {
                    numero_factura: back.numero_factura.clone(),
                    ticket_pdf: clone_bytes(&back.ticket_pdf),
                    ticket_nombre_archivo: back.ticket_nombre_archivo.clone(),
                    ticket_tamano_bytes: back.ticket_tamano_bytes,
                    created_at: back.created_at,
                },
            )
        },
    }
}

/// Looks the stored document up by invoice number.
pub fn get_ticket_pdf(store: &Store, numero_factura: &str) -> (r: Option<TicketPdf>)
    ensures
        r is Some <==> spec_has_pdf(store.tickets_pdf@, numero_factura@),
        r is Some ==> r.unwrap().numero_factura@ == numero_factura@ && exists|i: int|
            0 <= i < store.tickets_pdf@.len() && store.tickets_pdf@[i].numero_factura@
                == numero_factura@ && store.tickets_pdf@[i].ticket_pdf@ == r.unwrap().ticket_pdf@
                && store.tickets_pdf@[i].ticket_nombre_archivo@
                == r.unwrap().ticket_nombre_archivo@ && store.tickets_pdf@[i].ticket_tamano_bytes
                == r.unwrap().ticket_tamano_bytes && store.tickets_pdf@[i].created_at
                == r.unwrap().created_at,
{
    match find_pdf_index(store, numero_factura) {
        Some(i) => {
            let row = &store.tickets_pdf[i];
            Some(
                TicketPdf {
                    numero_factura: row.numero_factura.clone(),
                    ticket_pdf: clone_bytes(&row.ticket_pdf),
                    ticket_nombre_archivo: row.ticket_nombre_archivo.clone(),
                    ticket_tamano_bytes: row.ticket_tamano_bytes,
                    created_at: row.created_at,
                },
            )
        },
        None => None,
    }
}

} // verus!
