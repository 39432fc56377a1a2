use vstd::prelude::*;

use crate::cuenta::AccountId;
use crate::publicacion::Publicacion;

verus! {

/// Estados posibles de una orden de compra.
#[derive(Debug, Clone, Copy, PartialEq, Eq, Structural)]
pub enum Estado {
    /// Creada y aún no procesada.
    Pendiente,
    /// Enviada al comprador.
    Enviada,
    /// Recibida por el comprador.
    Recibida,
    /// Cancelada por consentimiento de ambas partes.
    Cancelada,
}

/// Una orden de compra. Guarda una copia de la publicación tal como
/// estaba al momento de comprar, independiente de ediciones posteriores
/// del catálogo.
#[derive(Debug)]
pub struct OrdenCompra {
    /// Estado actual de la orden.
    pub estado: Estado,
    /// Copia de la publicación al momento de la compra.
    pub publicacion: Publicacion,
    /// Cuenta del comprador que realizó la orden.
    pub comprador_id: AccountId,
    /// Si el comprador solicitó la cancelación.
    pub peticion_cancelacion: bool,
    /// Cantidad de unidades compradas; fija desde la creación.
    pub cantidad: u32,
}

impl Clone for OrdenCompra {
    fn clone(&self) -> (r: OrdenCompra)
        ensures
            r == *self,
    {
        OrdenCompra {
            estado: self.estado,
            publicacion: self.publicacion.clone(),
            comprador_id: self.comprador_id,
            peticion_cancelacion: self.peticion_cancelacion,
            cantidad: self.cantidad,
        }
    }
}

impl PartialEq for OrdenCompra {
    fn eq(&self, otro: &OrdenCompra) -> (r: bool) {
        self.estado == otro.estado && self.publicacion == otro.publicacion && self.comprador_id
            == otro.comprador_id && self.peticion_cancelacion == otro.peticion_cancelacion
            && self.cantidad == otro.cantidad
    }
}

impl vstd::std_specs::cmp::PartialEqSpecImpl for OrdenCompra {
    open spec fn obeys_eq_spec() -> bool {
        true
    }

    open spec fn eq_spec(&self, otro: &OrdenCompra) -> bool {
        self.estado == otro.estado && crate::publicacion::publicacion_igual(
            &self.publicacion,
            &otro.publicacion,
        ) && self.comprador_id == otro.comprador_id && self.peticion_cancelacion
            == otro.peticion_cancelacion && self.cantidad == otro.cantidad
    }
}

/// Cuánto stock de la publicación `id` tiene reservado la orden `o`:
/// su cantidad mientras no esté cancelada, y nada en caso contrario.
pub open spec fn reserva_de(o: OrdenCompra, id: int) -> int {
    if o.publicacion.id_publicacion == id && o.estado != Estado::Cancelada {
        o.cantidad as int
    } else {
        0
    }
}

/// Stock de la publicación `id` reservado en conjunto por las órdenes `s`.
pub open spec fn stock_reservado(s: Seq<OrdenCompra>, id: int) -> int
    decreases s.len(),
{
    if s.len() == 0 {
        0
    } else {
        stock_reservado(s.drop_last(), id) + reserva_de(s.last(), id)
    }
}

/// Agregar una orden suma exactamente su reserva.
pub proof fn lema_stock_reservado_push(s: Seq<OrdenCompra>, o: OrdenCompra, id: int)
    ensures
        stock_reservado(s.push(o), id) == stock_reservado(s, id) + reserva_de(o, id),
{
    assert(s.push(o).drop_last() =~= s);
    assert(s.push(o).last() == o);
}

/// Reemplazar la orden `k` cambia la suma exactamente por la diferencia
/// de reservas entre la orden nueva y la vieja.
pub proof fn lema_stock_reservado_update(s: Seq<OrdenCompra>, k: int, o2: OrdenCompra, id: int)
    requires
        0 <= k < s.len(),
    ensures
        stock_reservado(s.update(k, o2), id) == stock_reservado(s, id) - reserva_de(s[k], id)
            + reserva_de(o2, id),
    decreases s.len(),
{
    if k == s.len() - 1 {
        assert(s.update(k, o2).drop_last() =~= s.drop_last());
        assert(s.update(k, o2).last() == o2);
    } else {
        assert(s.update(k, o2).drop_last() =~= s.drop_last().update(k, o2));
        assert(s.update(k, o2).last() == s.last());
        lema_stock_reservado_update(s.drop_last(), k, o2, id);
    }
}

/// El stock reservado nunca es negativo.
pub proof fn lema_stock_reservado_no_negativo(s: Seq<OrdenCompra>, id: int)
    ensures
        0 <= stock_reservado(s, id),
    decreases s.len(),
{
    if s.len() > 0 {
        lema_stock_reservado_no_negativo(s.drop_last(), id);
    }
}

/// La reserva de cualquier orden individual no supera la suma total.
pub proof fn lema_stock_reservado_cota(s: Seq<OrdenCompra>, k: int, id: int)
    requires
        0 <= k < s.len(),
    ensures
        reserva_de(s[k], id) <= stock_reservado(s, id),
    decreases s.len(),
{
    if k == s.len() - 1 {
        lema_stock_reservado_no_negativo(s.drop_last(), id);
    } else {
        lema_stock_reservado_cota(s.drop_last(), k, id);
        assert(reserva_de(s.last(), id) >= 0);
    }
}

/// Si ninguna orden de `s` refiere a la publicación `id`, nada está reservado.
pub proof fn lema_stock_reservado_ajeno(s: Seq<OrdenCompra>, id: int)
    requires
        forall|k: int| 0 <= k < s.len() ==> s[k].publicacion.id_publicacion != id,
    ensures
        stock_reservado(s, id) == 0,
    decreases s.len(),
{
    if s.len() > 0 {
        assert(s.drop_last() =~= s.subrange(0, s.len() - 1));
        lema_stock_reservado_ajeno(s.drop_last(), id);
    }
}

/// Relación de evolución de un estado de orden a otro, en uno o más pasos:
/// la identidad, los avances desde `Pendiente` y el paso a `Recibida`
/// desde `Enviada`. `Recibida` y `Cancelada` son terminales.
pub open spec fn estado_alcanzable(a: Estado, b: Estado) -> bool {
    ||| a == b
    ||| (a == Estado::Pendiente && b != Estado::Pendiente)
    ||| (a == Estado::Enviada && b == Estado::Recibida)
}

/// Cómo puede evolucionar una orden ya creada: sus datos quedan fijos,
/// su estado sólo avanza por `estado_alcanzable`, la petición de
/// cancelación nunca se retira, sólo se pide sobre una orden pendiente,
/// y una orden sólo llega a `Cancelada` con la petición hecha.
pub open spec fn transicion_orden(a: OrdenCompra, b: OrdenCompra) -> bool {
    &&& estado_alcanzable(a.estado, b.estado)
    &&& b.publicacion == a.publicacion
    &&& b.comprador_id == a.comprador_id
    &&& b.cantidad == a.cantidad
    &&& (a.peticion_cancelacion ==> b.peticion_cancelacion)
    &&& ((!a.peticion_cancelacion && b.peticion_cancelacion) ==> a.estado == Estado::Pendiente)
    &&& ((a.estado != Estado::Cancelada && b.estado == Estado::Cancelada)
        ==> b.peticion_cancelacion)
}

/// Cómo puede evolucionar el libro de órdenes con una operación: las
/// órdenes existentes sólo avanzan por `transicion_orden` y las nuevas
/// nacen pendientes y sin petición de cancelación.
pub open spec fn evolucion_ordenes(antes: Seq<OrdenCompra>, despues: Seq<OrdenCompra>) -> bool {
    &&& ordenes_avanzan(antes, despues)
    &&& forall|k: int|
        antes.len() <= k < despues.len() ==> (#[trigger] despues[k]).estado == Estado::Pendiente
            && !despues[k].peticion_cancelacion
}

/// Cómo puede evolucionar el libro de órdenes a lo largo de cualquier
/// cantidad de operaciones: nada se borra y cada orden ya creada sólo
/// avanza por `transicion_orden`.
pub open spec fn ordenes_avanzan(antes: Seq<OrdenCompra>, despues: Seq<OrdenCompra>) -> bool {
    &&& antes.len() <= despues.len()
    &&& forall|k: int| 0 <= k < antes.len() ==> transicion_orden(antes[k], despues[k])
}

} // verus!
