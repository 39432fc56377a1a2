use vstd::prelude::*;

use crate::cuenta::AccountId;

verus! {

/// Categorías disponibles para las publicaciones.
#[derive(Debug, Clone, Copy, PartialEq, Eq, Structural)]
pub enum Categoria {
    /// Equipos y componentes de computación.
    Computacion,
    /// Prendas de vestir y accesorios.
    Ropa,
    /// Herramientas manuales o eléctricas.
    Herramientas,
    /// Muebles y artículos para el hogar.
    Muebles,
}

/// Una publicación del catálogo: el aviso de un vendedor con precio y stock.
#[derive(Debug)]
pub struct Publicacion {
    /// Identificador de la publicación: su posición en el catálogo,
    /// asignada al crearla y nunca reutilizada.
    pub id_publicacion: u64,
    /// Nombre del producto publicado.
    pub nombre: String,
    /// Descripción del producto.
    pub descripcion: String,
    /// Precio del producto en la unidad base.
    pub precio: u64,
    /// Categoría a la que pertenece el producto.
    pub categoria: Categoria,
    /// Cantidad disponible en stock.
    pub stock: u64,
    /// Cuenta del vendedor que la publicó.
    pub vendedor_id: AccountId,
}

impl Publicacion {
    /// Crea una publicación con los datos dados.
    pub fn new(
        id_publicacion: u64,
        nombre: String,
        descripcion: String,
        precio: u64,
        categoria: Categoria,
        stock: u64,
        vendedor_id: AccountId,
    ) -> (r: Publicacion)
        ensures
            r == (Publicacion {
                id_publicacion,
                nombre,
                descripcion,
                precio,
                categoria,
                stock,
                vendedor_id,
            }),
    {
        Publicacion { id_publicacion, nombre, descripcion, precio, categoria, stock, vendedor_id }
    }
}

impl Clone for Publicacion {
    fn clone(&self) -> (r: Publicacion)
        ensures
            r == *self,
    {
        Publicacion {
            id_publicacion: self.id_publicacion,
            nombre: self.nombre.clone(),
            descripcion: self.descripcion.clone(),
            precio: self.precio,
            categoria: self.categoria,
            stock: self.stock,
            vendedor_id: self.vendedor_id,
        }
    }
}

impl PartialEq for Publicacion {
    fn eq(&self, otro: &Publicacion) -> (r: bool) {
        self.id_publicacion == otro.id_publicacion && self.nombre == otro.nombre
            && self.descripcion == otro.descripcion && self.precio == otro.precio && self.categoria
            == otro.categoria && self.stock == otro.stock && self.vendedor_id == otro.vendedor_id
    }
}

/// Igualdad de publicaciones campo a campo, con los textos comparados
/// por contenido.
pub open spec fn publicacion_igual(a: &Publicacion, b: &Publicacion) -> bool {
    a.id_publicacion == b.id_publicacion && a.nombre@ == b.nombre@ && a.descripcion@
        == b.descripcion@ && a.precio == b.precio && a.categoria == b.categoria && a.stock
        == b.stock && a.vendedor_id == b.vendedor_id
}

impl vstd::std_specs::cmp::PartialEqSpecImpl for Publicacion {
    open spec fn obeys_eq_spec() -> bool {
        true
    }

    open spec fn eq_spec(&self, otro: &Publicacion) -> bool {
        publicacion_igual(self, otro)
    }
}

} // verus!
