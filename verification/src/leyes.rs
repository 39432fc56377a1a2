use vstd::prelude::*;

use crate::mercado::Marketplace;
use crate::orden::{
    evolucion_ordenes, lema_stock_reservado_no_negativo, ordenes_avanzan, stock_reservado,
    transicion_orden, Estado, OrdenCompra,
};
use crate::usuario::{buscar_usuario, lema_buscar_push, Usuario};

verus! {

/// Registrarse y consultarse de inmediato devuelve el registro recién
/// creado: en un libro donde la cuenta de `u` no figura, agregar `u`
/// hace que la búsqueda de esa cuenta resuelva exactamente a `u` — con
/// lo cual un segundo registro de la misma cuenta encuentra el registro
/// y es rechazado.
pub proof fn lema_registro_luego_consulta(s: Seq<Usuario>, u: Usuario)
    requires
        buscar_usuario(s, u.account_id) is None,
    ensures
        buscar_usuario(s.push(u), u.account_id) == Some(u),
{
    lema_buscar_push(s, u.account_id, u, 0);
}

/// Contabilidad del inventario: en todo estado bien formado, el stock de
/// cada publicación es exactamente el stock con el que nació menos lo
/// reservado por sus órdenes no canceladas; esa reserva nunca es
/// negativa, así que el stock nunca supera al inicial (y por su tipo
/// nunca baja de cero).
pub proof fn lema_inventario(m: Marketplace, i: int)
    requires
        m.bien_formado(),
        0 <= i < m.publicaciones@.len(),
    ensures
        m.publicaciones@[i].stock == m.stock_inicial@[i] - stock_reservado(m.ordenes_compra@, i),
        0 <= stock_reservado(m.ordenes_compra@, i),
        m.publicaciones@[i].stock <= m.stock_inicial@[i],
{
    lema_stock_reservado_no_negativo(m.ordenes_compra@, i);
}

/// El avance de una orden es transitivo: los estados sólo recorren
/// `Pendiente → Enviada → Recibida` o el desvío `Pendiente → Cancelada`,
/// en cualquier cantidad de pasos, y ninguna otra transición se observa.
pub proof fn lema_transicion_transitiva(a: OrdenCompra, b: OrdenCompra, c: OrdenCompra)
    requires
        transicion_orden(a, b),
        transicion_orden(b, c),
    ensures
        transicion_orden(a, c),
{
}

/// El avance del libro de órdenes es transitivo: encadenando las
/// evoluciones que garantiza cada operación, toda orden ya creada sólo
/// avanza por `transicion_orden` a lo largo de cualquier secuencia de
/// operaciones.
pub proof fn lema_avance_transitivo(
    a: Seq<OrdenCompra>,
    b: Seq<OrdenCompra>,
    c: Seq<OrdenCompra>,
)
    requires
        ordenes_avanzan(a, b),
        ordenes_avanzan(b, c),
    ensures
        ordenes_avanzan(a, c),
{
    assert forall|k: int| 0 <= k < a.len() implies transicion_orden(a[k], c[k]) by {
        lema_transicion_transitiva(a[k], b[k], c[k]);
    }
}

/// La evolución que garantiza una operación es en particular un avance
/// encadenable.
pub proof fn lema_evolucion_avanza(a: Seq<OrdenCompra>, b: Seq<OrdenCompra>)
    requires
        evolucion_ordenes(a, b),
    ensures
        ordenes_avanzan(a, b),
{
}

/// La cancelación exige el consentimiento de ambas partes: ninguna orden
/// llega a `Cancelada` sin que la petición de cancelación haya quedado
/// registrada.
pub proof fn lema_cancelacion_consentida(a: OrdenCompra, b: OrdenCompra)
    requires
        transicion_orden(a, b),
        a.estado != Estado::Cancelada,
        b.estado == Estado::Cancelada,
    ensures
        b.peticion_cancelacion,
{
}

} // verus!
