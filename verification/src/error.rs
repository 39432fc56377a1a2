use vstd::prelude::*;

verus! {

/// Fallos tipados que una operación puede devolver. Ninguno es fatal:
/// una operación que falla deja el estado exactamente como estaba.
#[derive(Debug, Clone, Copy, PartialEq, Eq, Structural)]
pub enum ErrorSistema {
    /// El usuario no está registrado en el sistema.
    UsuarioNoRegistrado,
    /// El usuario ya se encuentra registrado.
    UsuarioYaRegistrado,
    /// El usuario no posee permisos de vendedor.
    UsuarioNoEsVendedor,
    /// El usuario no posee permisos de comprador.
    UsuarioNoEsComprador,
    /// El vendedor especificado no existe.
    VendedorNoExistente,
    /// El vendedor no tiene publicaciones registradas.
    VendedorSinPublicaciones,
    /// La publicación no posee stock suficiente.
    PublicacionSinStock,
    /// La cantidad de una orden debe ser positiva.
    CantidadInvalida,
    /// La publicación solicitada no existe.
    PublicacionNoExistente,
    /// La orden solicitada no existe.
    OrdenNoExistente,
    /// Desbordamiento negativo al manipular publicaciones.
    UnderflowPublicaciones,
    /// Desbordamiento negativo al manipular órdenes.
    UnderflowOrdenes,
    /// Quien intenta la acción no es el vendedor asociado a la orden.
    NoEresVendedorDeLaOrden,
    /// Quien intenta la acción no es el comprador asociado a la orden.
    NoEresCompradorDeLaOrden,
    /// La orden ya fue marcada como enviada.
    YaEnviada,
    /// La orden ya fue marcada como recibida.
    YaRecibido,
    /// La orden fue cancelada y no admite más cambios.
    OrdenCancelada,
    /// La orden aún está pendiente y no puede marcarse como recibida.
    OrdenPendiente,
    /// No hay petición de cancelación activa para la orden.
    PeticionNoSolicitada,
    /// La orden no se encuentra en estado pendiente.
    OrdenNoPendiente,
    /// El usuario no tiene permisos para realizar la acción.
    SinPermisos,
    /// Desbordamiento positivo al manipular publicaciones.
    OverflowPublicaciones,
}

} // verus!
