//! Núcleo transaccional de un mercado entre pares.
//!
//! Lleva el registro de usuarios con roles, publicaciones con control de
//! stock y órdenes de compra con su ciclo de vida (incluida la cancelación
//! por consentimiento de ambas partes). Cada operación recibe la cuenta
//! que la invoca como argumento explícito y deja el estado bien formado:
//! el stock nunca se pierde ni se duplica, los índices secundarios nunca
//! apuntan fuera de rango y los estados de las órdenes sólo avanzan por
//! las transiciones permitidas.

pub mod cuenta;
pub mod error;
pub mod indice;
pub mod leyes;
pub mod mercado;
pub mod orden;
pub mod publicacion;
pub mod usuario;

pub use cuenta::AccountId;
pub use error::ErrorSistema;
pub use mercado::Marketplace;
pub use orden::Estado;
pub use orden::OrdenCompra;
pub use publicacion::Categoria;
pub use publicacion::Publicacion;
pub use usuario::Rol;
pub use usuario::Usuario;
