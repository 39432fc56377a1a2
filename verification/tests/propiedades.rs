use marketplace::AccountId;
use marketplace::Categoria;
use marketplace::ErrorSistema;
use marketplace::Estado;
use marketplace::Marketplace;
use marketplace::Rol;

/// Registrarse y consultarse de inmediato devuelve el registro recién
/// creado, y un segundo registro de la misma cuenta es rechazado.
#[test]
fn propiedad_registro_y_consulta_inmediata() {
    let mut mercado = Marketplace::new();
    let cuenta = AccountId::from([0x11; 32]);

    let registrado = mercado
        .registrar_usuario(cuenta, "ana".to_string(), Rol::Ambos)
        .expect("el registro de una cuenta nueva debe funcionar");
    let consultado = mercado.get_usuario(cuenta).expect("la consulta inmediata debe funcionar");

    assert_eq!(registrado, consultado);
    assert_eq!(consultado.username, "ana".to_string());
    assert_eq!(consultado.rol, Rol::Ambos);
    assert_eq!(consultado.account_id, cuenta);

    let repetido = mercado.registrar_usuario(cuenta, "ana".to_string(), Rol::Comprador);
    assert_eq!(repetido, Err(ErrorSistema::UsuarioYaRegistrado));
}

/// El ciclo completo de una compra: publicar con stock 20, comprar 5
/// (queda 15 y la orden pendiente), marcar enviada, marcar recibida, y
/// un segundo intento de marcar recibida falla.
#[test]
fn propiedad_ciclo_completo_de_compra() {
    let mut mercado = Marketplace::new();
    let vendedor = AccountId::from([0x01; 32]);
    let comprador = AccountId::from([0x02; 32]);

    let _ = mercado.registrar_usuario(vendedor, "S".to_string(), Rol::Vendedor);
    let _ = mercado.registrar_usuario(comprador, "B".to_string(), Rol::Comprador);

    let publicada = mercado
        .publicar(
            vendedor,
            "Widget".to_string(),
            "util".to_string(),
            100,
            Categoria::Herramientas,
            20,
        )
        .expect("un vendedor registrado debe poder publicar");
    assert_eq!(publicada.id_publicacion, 0);
    assert_eq!(publicada.stock, 20);
    assert_eq!(publicada.precio, 100);

    let orden = mercado
        .ordenar_compra(comprador, 0, 5)
        .expect("con stock suficiente la compra debe funcionar");
    assert_eq!(orden.estado, Estado::Pendiente);
    assert_eq!(orden.cantidad, 5);
    assert_eq!(mercado.publicaciones[0].stock, 15);
    // La orden guarda la publicación ya descontada, con su vendedor.
    assert_eq!(orden.publicacion.stock, 15);
    assert_eq!(orden.publicacion.vendedor_id, vendedor);

    let enviada = mercado.marcar_enviado(vendedor, 0).expect("el vendedor marca el envío");
    assert_eq!(enviada.estado, Estado::Enviada);

    let recibida = mercado.marcar_recibido(comprador, 0).expect("el comprador marca la recepción");
    assert_eq!(recibida.estado, Estado::Recibida);

    let repetida = mercado.marcar_recibido(comprador, 0);
    assert_eq!(repetida, Err(ErrorSistema::YaRecibido));
}

/// Comprar sobre una publicación sin stock falla, no crea ninguna orden
/// y deja el stock en cero.
#[test]
fn propiedad_sin_stock_no_crea_orden() {
    let mut mercado = Marketplace::new();
    let vendedor = AccountId::from([0x01; 32]);
    let comprador = AccountId::from([0x02; 32]);

    let _ = mercado.registrar_usuario(vendedor, "S".to_string(), Rol::Vendedor);
    let _ = mercado.registrar_usuario(comprador, "B".to_string(), Rol::Comprador);
    let _ = mercado.publicar(
        vendedor,
        "Agotado".to_string(),
        "sin unidades".to_string(),
        50,
        Categoria::Muebles,
        0,
    );

    let resultado = mercado.ordenar_compra(comprador, 0, 3);
    assert_eq!(resultado, Err(ErrorSistema::PublicacionSinStock));
    assert_eq!(mercado.ordenes_compra.len(), 0);
    assert_eq!(mercado.publicaciones[0].stock, 0);
}

/// El apretón de manos de la cancelación: el pedido del comprador deja
/// la orden pendiente con la petición anotada, un tercero registrado no
/// puede intervenir, y la aprobación del vendedor cancela la orden y
/// devuelve el stock exactamente a su valor inicial.
#[test]
fn propiedad_cancelacion_en_dos_pasos() {
    let mut mercado = Marketplace::new();
    let vendedor = AccountId::from([0x01; 32]);
    let comprador = AccountId::from([0x02; 32]);
    let tercero = AccountId::from([0x03; 32]);

    let _ = mercado.registrar_usuario(vendedor, "S".to_string(), Rol::Vendedor);
    let _ = mercado.registrar_usuario(comprador, "B".to_string(), Rol::Comprador);
    let _ = mercado.registrar_usuario(tercero, "T".to_string(), Rol::Ambos);
    let _ = mercado.publicar(
        vendedor,
        "Widget".to_string(),
        "util".to_string(),
        100,
        Categoria::Herramientas,
        20,
    );

    let _ = mercado.ordenar_compra(comprador, 0, 2);
    assert_eq!(mercado.publicaciones[0].stock, 18);

    let pedida = mercado.cancelar_orden(comprador, 0).expect("el comprador pide la cancelación");
    assert_eq!(pedida.estado, Estado::Pendiente);
    assert_eq!(pedida.peticion_cancelacion, true);

    let ajena = mercado.cancelar_orden(tercero, 0);
    assert_eq!(ajena, Err(ErrorSistema::SinPermisos));

    let aprobada = mercado.cancelar_orden(vendedor, 0).expect("el vendedor aprueba");
    assert_eq!(aprobada.estado, Estado::Cancelada);
    assert_eq!(mercado.publicaciones[0].stock, 20);
}

/// Repetir el pedido de cancelación del comprador no es un error y no
/// cambia nada: la orden sigue pendiente con la petición anotada.
#[test]
fn propiedad_peticion_de_cancelacion_idempotente() {
    let mut mercado = Marketplace::new();
    let vendedor = AccountId::from([0x01; 32]);
    let comprador = AccountId::from([0x02; 32]);

    let _ = mercado.registrar_usuario(vendedor, "S".to_string(), Rol::Vendedor);
    let _ = mercado.registrar_usuario(comprador, "B".to_string(), Rol::Comprador);
    let _ = mercado.publicar(
        vendedor,
        "Widget".to_string(),
        "util".to_string(),
        100,
        Categoria::Herramientas,
        20,
    );
    let _ = mercado.ordenar_compra(comprador, 0, 2);

    let primera = mercado.cancelar_orden(comprador, 0).expect("primer pedido");
    let segunda = mercado.cancelar_orden(comprador, 0).expect("repetir el pedido no es error");
    assert_eq!(primera, segunda);
    assert_eq!(segunda.estado, Estado::Pendiente);
    assert_eq!(segunda.peticion_cancelacion, true);
    assert_eq!(mercado.publicaciones[0].stock, 18);
}

/// El stock de una publicación es su stock inicial menos las cantidades
/// de las órdenes no canceladas: dos compras lo descuentan y la
/// cancelación de una sola devuelve exactamente su cantidad.
#[test]
fn propiedad_contabilidad_de_stock() {
    let mut mercado = Marketplace::new();
    let vendedor = AccountId::from([0x01; 32]);
    let comprador = AccountId::from([0x02; 32]);

    let _ = mercado.registrar_usuario(vendedor, "S".to_string(), Rol::Vendedor);
    let _ = mercado.registrar_usuario(comprador, "B".to_string(), Rol::Comprador);
    let _ = mercado.publicar(
        vendedor,
        "Widget".to_string(),
        "util".to_string(),
        100,
        Categoria::Herramientas,
        10,
    );

    let _ = mercado.ordenar_compra(comprador, 0, 2);
    let _ = mercado.ordenar_compra(comprador, 0, 3);
    assert_eq!(mercado.publicaciones[0].stock, 5); // 10 - 2 - 3

    let _ = mercado.cancelar_orden(comprador, 0);
    let _ = mercado.cancelar_orden(vendedor, 0);
    assert_eq!(mercado.publicaciones[0].stock, 7); // 10 - 3

    // La orden cancelada no puede volver a cancelarse ni avanzar.
    assert_eq!(mercado.cancelar_orden(vendedor, 0), Err(ErrorSistema::OrdenNoPendiente));
    assert_eq!(mercado.marcar_enviado(vendedor, 0), Err(ErrorSistema::OrdenCancelada));
}

/// La cantidad de una orden debe ser positiva: una compra de cero
/// unidades es rechazada antes de cualquier mutación, incluso sobre una
/// publicación con stock disponible, y el rechazo precede al control de
/// stock.
#[test]
fn propiedad_cantidad_cero_rechazada() {
    let mut mercado = Marketplace::new();
    let vendedor = AccountId::from([0x01; 32]);
    let comprador = AccountId::from([0x02; 32]);

    let _ = mercado.registrar_usuario(vendedor, "S".to_string(), Rol::Vendedor);
    let _ = mercado.registrar_usuario(comprador, "B".to_string(), Rol::Comprador);
    let _ = mercado.publicar(
        vendedor,
        "Widget".to_string(),
        "util".to_string(),
        100,
        Categoria::Herramientas,
        20,
    );
    let _ = mercado.publicar(
        vendedor,
        "Agotado".to_string(),
        "sin unidades".to_string(),
        50,
        Categoria::Muebles,
        0,
    );

    let con_stock = mercado.ordenar_compra(comprador, 0, 0);
    assert_eq!(con_stock, Err(ErrorSistema::CantidadInvalida));

    // También sobre una publicación sin stock: la cantidad se valida antes.
    let sin_stock = mercado.ordenar_compra(comprador, 1, 0);
    assert_eq!(sin_stock, Err(ErrorSistema::CantidadInvalida));

    assert_eq!(mercado.ordenes_compra.len(), 0);
    assert_eq!(mercado.publicaciones[0].stock, 20);
    assert_eq!(mercado.publicaciones[1].stock, 0);
}

/// Comprar exactamente el stock disponible funciona y deja cero; una
/// unidad más falla.
#[test]
fn propiedad_compra_del_stock_exacto() {
    let mut mercado = Marketplace::new();
    let vendedor = AccountId::from([0x01; 32]);
    let comprador = AccountId::from([0x02; 32]);

    let _ = mercado.registrar_usuario(vendedor, "S".to_string(), Rol::Vendedor);
    let _ = mercado.registrar_usuario(comprador, "B".to_string(), Rol::Comprador);
    let _ = mercado.publicar(
        vendedor,
        "Justo".to_string(),
        "exacto".to_string(),
        10,
        Categoria::Ropa,
        4,
    );

    assert_eq!(mercado.ordenar_compra(comprador, 0, 5), Err(ErrorSistema::PublicacionSinStock));
    assert!(mercado.ordenar_compra(comprador, 0, 4).is_ok());
    assert_eq!(mercado.publicaciones[0].stock, 0);
}

/// Los listados respetan rol y propiedad y devuelven en orden de alta:
/// cada vendedor ve exactamente sus publicaciones, cada comprador
/// exactamente sus órdenes, y los listados globales todo, en orden.
#[test]
fn propiedad_listados_por_propiedad_y_orden() {
    let mut mercado = Marketplace::new();
    let vendedor1 = AccountId::from([0x01; 32]);
    let vendedor2 = AccountId::from([0x02; 32]);
    let comprador = AccountId::from([0x03; 32]);

    let _ = mercado.registrar_usuario(vendedor1, "S1".to_string(), Rol::Vendedor);
    let _ = mercado.registrar_usuario(vendedor2, "S2".to_string(), Rol::Vendedor);
    let _ = mercado.registrar_usuario(comprador, "B".to_string(), Rol::Comprador);

    let _ = mercado.publicar(
        vendedor1,
        "Primero".to_string(),
        "de S1".to_string(),
        1,
        Categoria::Ropa,
        10,
    );
    let _ = mercado.publicar(
        vendedor2,
        "Segundo".to_string(),
        "de S2".to_string(),
        2,
        Categoria::Ropa,
        10,
    );
    let _ = mercado.publicar(
        vendedor1,
        "Tercero".to_string(),
        "de S1".to_string(),
        3,
        Categoria::Ropa,
        10,
    );

    let de_s1 = mercado.get_publicaciones_vendedor(vendedor1).expect("S1 lista lo suyo");
    assert_eq!(de_s1.len(), 2);
    assert_eq!(de_s1[0].nombre, "Primero".to_string());
    assert_eq!(de_s1[1].nombre, "Tercero".to_string());
    assert!(de_s1.iter().all(|p| p.vendedor_id == vendedor1));

    let de_s2 = mercado.get_publicaciones_vendedor(vendedor2).expect("S2 lista lo suyo");
    assert_eq!(de_s2.len(), 1);
    assert_eq!(de_s2[0].nombre, "Segundo".to_string());

    let todas = mercado.get_publicaciones(comprador).expect("cualquier registrado lista todo");
    assert_eq!(todas.len(), 3);
    assert_eq!(todas[0].nombre, "Primero".to_string());
    assert_eq!(todas[1].nombre, "Segundo".to_string());
    assert_eq!(todas[2].nombre, "Tercero".to_string());
    assert_eq!(todas[0].id_publicacion, 0);
    assert_eq!(todas[1].id_publicacion, 1);
    assert_eq!(todas[2].id_publicacion, 2);

    let _ = mercado.ordenar_compra(comprador, 1, 1);
    let _ = mercado.ordenar_compra(comprador, 0, 2);

    let mias = mercado.get_ordenes_comprador(comprador).expect("B lista sus órdenes");
    assert_eq!(mias.len(), 2);
    assert_eq!(mias[0].publicacion.nombre, "Segundo".to_string());
    assert_eq!(mias[1].publicacion.nombre, "Primero".to_string());
    assert!(mias.iter().all(|o| o.comprador_id == comprador));

    let globales = mercado.get_ordenes(vendedor1).expect("cualquier registrado lista todo");
    assert_eq!(globales.len(), 2);
    assert_eq!(globales[0].cantidad, 1);
    assert_eq!(globales[1].cantidad, 2);
}

/// Un cambio de rol habilita de inmediato las operaciones del rol nuevo
/// y deshabilita las del anterior.
#[test]
fn propiedad_cambio_de_rol_efectivo() {
    let mut mercado = Marketplace::new();
    let cuenta = AccountId::from([0x07; 32]);

    let _ = mercado.registrar_usuario(cuenta, "mutable".to_string(), Rol::Comprador);
    assert_eq!(
        mercado
            .publicar(
                cuenta,
                "Nada".to_string(),
                "aún".to_string(),
                1,
                Categoria::Muebles,
                1,
            ),
        Err(ErrorSistema::UsuarioNoEsVendedor)
    );

    let _ = mercado.cambiar_rol(cuenta, Rol::Vendedor);
    assert!(
        mercado
            .publicar(
                cuenta,
                "Ahora".to_string(),
                "sí".to_string(),
                1,
                Categoria::Muebles,
                1,
            )
            .is_ok()
    );
    assert_eq!(mercado.ordenar_compra(cuenta, 0, 1), Err(ErrorSistema::UsuarioNoEsComprador));
}

/// Los fallos no dejan efectos a medias: tras una tanda de operaciones
/// rechazadas, el estado es el mismo que antes.
#[test]
fn propiedad_fallo_sin_efectos() {
    let mut mercado = Marketplace::new();
    let vendedor = AccountId::from([0x01; 32]);
    let comprador = AccountId::from([0x02; 32]);

    let _ = mercado.registrar_usuario(vendedor, "S".to_string(), Rol::Vendedor);
    let _ = mercado.registrar_usuario(comprador, "B".to_string(), Rol::Comprador);
    let _ = mercado.publicar(
        vendedor,
        "Widget".to_string(),
        "util".to_string(),
        100,
        Categoria::Herramientas,
        6,
    );
    let _ = mercado.ordenar_compra(comprador, 0, 1);

    assert!(mercado.ordenar_compra(comprador, 7, 1).is_err()); // no existe
    assert!(mercado.ordenar_compra(comprador, 0, 99).is_err()); // sin stock
    assert!(mercado.ordenar_compra(vendedor, 0, 1).is_err()); // rol
    assert!(mercado.cancelar_orden(vendedor, 0).is_err()); // sin petición
    assert!(mercado.marcar_recibido(comprador, 0).is_err()); // aún pendiente

    assert_eq!(mercado.publicaciones[0].stock, 5);
    assert_eq!(mercado.ordenes_compra.len(), 1);
    assert_eq!(mercado.ordenes_compra[0].estado, Estado::Pendiente);
    assert_eq!(mercado.ordenes_compra[0].peticion_cancelacion, false);
}
