use marketplace::AccountId;
use marketplace::ErrorSistema;
use marketplace::Marketplace;
use marketplace::Rol;
use marketplace::Usuario;

/// Verifica que un usuario con rol `Vendedor` sea identificado correctamente como vendedor.
#[test]
fn tests_es_vendedor_true_vendedor() {
    let usuario = Usuario {
        account_id: AccountId::from([0xAA; 32]),
        username: "agustin22".to_string(),
        rol: Rol::Vendedor,
    };

    assert_eq!(usuario.es_vendedor().is_ok(), true);
}

/// Verifica que un usuario con rol `Ambos` sea identificado correctamente como vendedor.
#[test]
fn tests_es_vendedor_true_ambos() {
    let usuario = Usuario {
        account_id: AccountId::from([0xAA; 32]),
        username: "agustin22".to_string(),
        rol: Rol::Ambos,
    };

    assert_eq!(usuario.es_vendedor().is_ok(), true);
}

/// Verifica que un usuario con rol `Comprador` NO sea identificado como vendedor.
#[test]
fn tests_es_vendedor_false() {
    let usuario = Usuario {
        account_id: AccountId::from([0xAA; 32]),
        username: "agustin22".to_string(),
        rol: Rol::Comprador,
    };

    assert_eq!(usuario.es_vendedor().is_ok(), false);
}

/// Verifica que un usuario con rol `Comprador` sea identificado correctamente como comprador.
#[test]
fn tests_es_comprador_true_comprador() {
    let usuario = Usuario {
        account_id: AccountId::from([0xAA; 32]),
        username: "agustin22".to_string(),
        rol: Rol::Comprador,
    };

    assert_eq!(usuario.es_comprador().is_ok(), true);
}

/// Verifica que un usuario con rol `Ambos` sea identificado correctamente como comprador.
#[test]
fn tests_es_comprador_true_ambos() {
    let usuario = Usuario {
        account_id: AccountId::from([0xAA; 32]),
        username: "agustin22".to_string(),
        rol: Rol::Ambos,
    };

    assert_eq!(usuario.es_comprador().is_ok(), true);
}

/// Verifica que un usuario con rol `Vendedor` NO sea identificado como comprador.
#[test]
fn tests_es_comprador_false() {
    let usuario = Usuario {
        account_id: AccountId::from([0xAA; 32]),
        username: "agustin22".to_string(),
        rol: Rol::Vendedor,
    };

    assert_eq!(usuario.es_comprador().is_ok(), false);
}

/// Verifica que un usuario nuevo pueda registrarse correctamente.
#[test]
fn tests_registrar_usuario_no_registrado() {
    let mut marketplace = Marketplace::new();

    let caller = AccountId::from([0xAA; 32]);
    let username = "agustin".to_string();
    let rol = Rol::Ambos;

    assert_eq!(marketplace.registrar_usuario(caller, username, rol).is_ok(), true);
}

/// Verifica que no se pueda registrar un usuario que ya existe.
#[test]
fn tests_registrar_usuario_ya_registrado_error() {
    let mut marketplace = Marketplace::new();

    let caller = AccountId::from([0xAA; 32]);
    let username = "agustin".to_string();
    let rol = Rol::Ambos;

    assert_eq!(
        marketplace.registrar_usuario(caller.clone(), username.clone(), rol.clone()).is_ok(),
        true
    );

    let result = marketplace.registrar_usuario(caller, username, rol);

    assert_eq!(result, Err(ErrorSistema::UsuarioYaRegistrado));
}

/// Verifica que se pueda obtener la información de un usuario registrado.
#[test]
fn tests_get_usuario_encontrado() {
    let mut marketplace = Marketplace::new();

    let caller = AccountId::from([0xAA; 32]);
    let username = "agustin".to_string();
    let rol = Rol::Ambos;

    let _ = marketplace.registrar_usuario(caller, username, rol);

    assert_eq!(marketplace.get_usuario(caller).is_ok(), true);
}

/// Verifica que se retorne un error al intentar obtener un usuario no registrado.
#[test]
fn tests_get_usuario_no_encontrado() {
    let marketplace = Marketplace::new();

    let caller = AccountId::from([0xAA; 32]);

    let result = marketplace.get_usuario(caller);

    assert_eq!(result, Err(ErrorSistema::UsuarioNoRegistrado));
}

/// Verifica que un usuario pueda cambiar su rol de `Comprador` a `Vendedor`.
#[test]
fn tests_cambiar_rol_comprador_a_vendedor() {
    let mut marketplace = Marketplace::new();
    let caller = AccountId::from([0xAA; 32]);

    let _ = marketplace.registrar_usuario(caller, "agustin".to_string(), Rol::Comprador);
    let result = marketplace.cambiar_rol(caller, Rol::Vendedor);

    assert!(result.is_ok());
    if let Ok(usuario) = result {
        assert_eq!(usuario.rol, Rol::Vendedor);
    }
}

/// Verifica que un usuario pueda cambiar su rol de `Vendedor` a `Comprador`.
#[test]
fn tests_cambiar_rol_vendedor_a_comprador() {
    let mut marketplace = Marketplace::new();
    let caller = AccountId::from([0xAA; 32]);

    let _ = marketplace.registrar_usuario(caller, "agustin".to_string(), Rol::Vendedor);
    let result = marketplace.cambiar_rol(caller, Rol::Comprador);

    assert!(result.is_ok());
    if let Ok(usuario) = result {
        assert_eq!(usuario.rol, Rol::Comprador);
    }
}

/// Verifica que un usuario pueda cambiar su rol a `Ambos`.
#[test]
fn tests_cambiar_rol_a_ambos() {
    let mut marketplace = Marketplace::new();
    let caller = AccountId::from([0xAA; 32]);

    let _ = marketplace.registrar_usuario(caller, "test".to_string(), Rol::Comprador);
    let result = marketplace.cambiar_rol(caller, Rol::Ambos);

    assert!(result.is_ok());
    if let Ok(usuario) = result {
        assert_eq!(usuario.rol, Rol::Ambos);
    }
}

/// Verifica que no se pueda cambiar el rol de un usuario no registrado.
#[test]
fn tests_cambiar_rol_usuario_no_registrado() {
    let mut marketplace = Marketplace::new();
    let caller = AccountId::from([0xAA; 32]);

    let result = marketplace.cambiar_rol(caller, Rol::Ambos);
    assert_eq!(result, Err(ErrorSistema::UsuarioNoRegistrado));
}
