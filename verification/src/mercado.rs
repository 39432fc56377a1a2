use vstd::prelude::*;

use crate::cuenta::AccountId;
use crate::error::ErrorSistema;
use crate::indice::{
    buscar_entrada, clonar_posiciones, lema_posiciones_push, lema_posiciones_update_mismo,
    lema_posiciones_update_otro, posiciones_de, Indice,
};
use crate::orden::{
    evolucion_ordenes, lema_stock_reservado_ajeno, lema_stock_reservado_cota,
    lema_stock_reservado_push, lema_stock_reservado_update, reserva_de, stock_reservado, Estado,
    OrdenCompra,
};
use crate::publicacion::{Categoria, Publicacion};
use crate::usuario::{
    buscar_usuario, lema_buscar_push, lema_buscar_update_mismo, lema_buscar_update_otro,
    posicion_usuario, puede_comprar, puede_vender, Rol, Usuario,
};

verus! {

/// El libro mayor del mercado: usuarios, catálogo de publicaciones,
/// órdenes de compra y los índices secundarios por vendedor y por
/// comprador. Las secuencias maestras son de sólo-agregado: nada se
/// borra ni se reordena, por lo que toda posición indexada sigue válida.
pub struct Marketplace {
    /// Usuarios registrados; a lo sumo uno por cuenta.
    pub usuarios: Vec<Usuario>,
    /// Catálogo de publicaciones; la posición de cada una es su id.
    pub publicaciones: Vec<Publicacion>,
    /// Libro de órdenes de compra.
    pub ordenes_compra: Vec<OrdenCompra>,
    /// Índice por vendedor: posiciones de sus publicaciones en el catálogo.
    pub publicaciones_mapping: Indice,
    /// Índice por comprador: posiciones de sus órdenes en el libro.
    pub ordenes_compra_mapping: Indice,
    /// Registro fantasma del stock con el que nació cada publicación,
    /// para enunciar la contabilidad del inventario.
    pub stock_inicial: Ghost<Seq<u64>>,
}

/// Los dos estados tienen exactamente el mismo contenido.
pub open spec fn mismo_estado(a: Marketplace, b: Marketplace) -> bool {
    &&& a.usuarios@ == b.usuarios@
    &&& a.publicaciones@ == b.publicaciones@
    &&& a.ordenes_compra@ == b.ordenes_compra@
    &&& a.publicaciones_mapping@ == b.publicaciones_mapping@
    &&& a.ordenes_compra_mapping@ == b.ordenes_compra_mapping@
    &&& a.stock_inicial@ == b.stock_inicial@
}

impl Marketplace {
    /// A lo sumo un usuario por cuenta.
    pub open spec fn usuarios_validos(&self) -> bool {
        forall|i: int, j: int|
            0 <= i < j < self.usuarios@.len() ==> (#[trigger] self.usuarios@[i]).account_id != (
            #[trigger] self.usuarios@[j]).account_id
    }

    /// El id de cada publicación es su posición en el catálogo.
    pub open spec fn catalogo_valido(&self) -> bool {
        forall|i: int|
            0 <= i < self.publicaciones@.len() ==> (#[trigger] self.publicaciones@[i]).id_publicacion
                == i
    }

    /// El índice por vendedor tiene a lo sumo una entrada por cuenta, y
    /// cada posición que guarda señala una publicación de esa cuenta.
    pub open spec fn indice_vendedores_valido(&self) -> bool {
        &&& forall|i: int, j: int|
            0 <= i < j < self.publicaciones_mapping@.len() ==> (
            #[trigger] self.publicaciones_mapping@[i]).0 != (
            #[trigger] self.publicaciones_mapping@[j]).0
        &&& forall|k: int, j: int|
            0 <= k < self.publicaciones_mapping@.len() && 0 <= j
                < self.publicaciones_mapping@[k].1@.len() ==> {
                let p = #[trigger] self.publicaciones_mapping@[k].1@[j];
                &&& (p as int) < self.publicaciones@.len()
                &&& self.publicaciones@[p as int].vendedor_id == self.publicaciones_mapping@[k].0
            }
    }

    /// El índice por comprador tiene a lo sumo una entrada por cuenta, y
    /// cada posición que guarda señala una orden de esa cuenta.
    pub open spec fn indice_compradores_valido(&self) -> bool {
        &&& forall|i: int, j: int|
            0 <= i < j < self.ordenes_compra_mapping@.len() ==> (
            #[trigger] self.ordenes_compra_mapping@[i]).0 != (
            #[trigger] self.ordenes_compra_mapping@[j]).0
        &&& forall|k: int, j: int|
            0 <= k < self.ordenes_compra_mapping@.len() && 0 <= j
                < self.ordenes_compra_mapping@[k].1@.len() ==> {
                let p = #[trigger] self.ordenes_compra_mapping@[k].1@[j];
                &&& (p as int) < self.ordenes_compra@.len()
                &&& self.ordenes_compra@[p as int].comprador_id == self.ordenes_compra_mapping@[k].0
            }
    }

    /// Toda orden señala una publicación existente del catálogo y lleva
    /// una cantidad positiva, fijada al crearla.
    pub open spec fn ordenes_validas(&self) -> bool {
        forall|k: int|
            0 <= k < self.ordenes_compra@.len() ==> ((
            #[trigger] self.ordenes_compra@[k]).publicacion.id_publicacion as int)
                < self.publicaciones@.len() && self.ordenes_compra@[k].cantidad > 0
    }

    /// Contabilidad del inventario: el stock actual de cada publicación
    /// más lo reservado por sus órdenes no canceladas es exactamente el
    /// stock con el que nació. En consecuencia el stock nunca baja de
    /// cero ni se restaura de más.
    pub open spec fn inventario_consistente(&self) -> bool {
        &&& self.stock_inicial@.len() == self.publicaciones@.len()
        &&& forall|i: int|
            0 <= i < self.publicaciones@.len() ==> (#[trigger] self.publicaciones@[i]).stock
                + stock_reservado(self.ordenes_compra@, i) == self.stock_inicial@[i]
    }

    /// Invariante de todo el libro mayor: lo establece el constructor y
    /// lo preserva cada operación.
    pub open spec fn bien_formado(&self) -> bool {
        &&& self.usuarios_validos()
        &&& self.catalogo_valido()
        &&& self.indice_vendedores_valido()
        &&& self.indice_compradores_valido()
        &&& self.ordenes_validas()
        &&& self.inventario_consistente()
    }

    /// Crea un mercado sin usuarios, publicaciones ni órdenes.
    pub fn new() -> (r: Marketplace)
        ensures
            r.usuarios@ == Seq::<Usuario>::empty(),
            r.publicaciones@ == Seq::<Publicacion>::empty(),
            r.ordenes_compra@ == Seq::<OrdenCompra>::empty(),
            r.publicaciones_mapping@ == Seq::<(AccountId, Vec<u32>)>::empty(),
            r.ordenes_compra_mapping@ == Seq::<(AccountId, Vec<u32>)>::empty(),
            r.stock_inicial@ == Seq::<u64>::empty(),
            r.bien_formado(),
    {
        Marketplace {
            usuarios: Vec::new(),
            publicaciones: Vec::new(),
            ordenes_compra: Vec::new(),
            publicaciones_mapping: Vec::new(),
            ordenes_compra_mapping: Vec::new(),
            stock_inicial: Ghost(Seq::empty()),
        }
    }

    /// Registra un usuario nuevo para la cuenta `caller`.
    ///
    /// Falla con `UsuarioYaRegistrado` si la cuenta ya tiene un registro;
    /// en tal caso nada cambia. Si no, crea el registro, lo guarda y lo
    /// devuelve.
    pub fn registrar_usuario(&mut self, caller: AccountId, username: String, rol: Rol) -> (r:
        Result<Usuario, ErrorSistema>)
        requires
            old(self).bien_formado(),
        ensures
            final(self).bien_formado(),
            evolucion_ordenes(old(self).ordenes_compra@, final(self).ordenes_compra@),
            match buscar_usuario(old(self).usuarios@, caller) {
                Some(_) => {
                    &&& r == Err::<Usuario, ErrorSistema>(ErrorSistema::UsuarioYaRegistrado)
                    &&& mismo_estado(*old(self), *final(self))
                },
                None => {
                    let u = (Usuario { username, rol, account_id: caller });
                    &&& r == Ok::<Usuario, ErrorSistema>(u)
                    &&& final(self).usuarios@ == old(self).usuarios@.push(u)
                    &&& buscar_usuario(final(self).usuarios@, caller) == Some(u)
                    &&& final(self).publicaciones@ == old(self).publicaciones@
                    &&& final(self).ordenes_compra@ == old(self).ordenes_compra@
                    &&& final(self).publicaciones_mapping@ == old(self).publicaciones_mapping@
                    &&& final(self).ordenes_compra_mapping@ == old(self).ordenes_compra_mapping@
                    &&& final(self).stock_inicial@ == old(self).stock_inicial@
                },
            },
    {
        match posicion_usuario(&self.usuarios, &caller) {
            Some(_) => Err(ErrorSistema::UsuarioYaRegistrado),
            None => {
                let u = Usuario { username, rol, account_id: caller };
                let devuelto = u.clone();
                proof {
                    lema_buscar_push(self.usuarios@, caller, u, 0);
                }
                self.usuarios.push(u);
                Ok(devuelto)
            },
        }
    }

    /// Devuelve el registro del usuario de la cuenta `caller`, o
    /// `UsuarioNoRegistrado` si no existe.
    pub fn get_usuario(&self, caller: AccountId) -> (r: Result<Usuario, ErrorSistema>)
        ensures
            r == match buscar_usuario(self.usuarios@, caller) {
                Some(u) => Ok::<Usuario, ErrorSistema>(u),
                None => Err::<Usuario, ErrorSistema>(ErrorSistema::UsuarioNoRegistrado),
            },
    {
        match posicion_usuario(&self.usuarios, &caller) {
            Some(k) => Ok(self.usuarios[k].clone()),
            None => Err(ErrorSistema::UsuarioNoRegistrado),
        }
    }

    /// Cambia el rol del usuario de la cuenta `caller` y devuelve el
    /// registro actualizado. Cualquier rol puede cambiarse a cualquier
    /// otro. Falla con `UsuarioNoRegistrado` si la cuenta no existe, sin
    /// cambiar nada. Las demás cuentas no se ven afectadas.
    pub fn cambiar_rol(&mut self, caller: AccountId, nuevo_rol: Rol) -> (r: Result<
        Usuario,
        ErrorSistema,
    >)
        requires
            old(self).bien_formado(),
        ensures
            final(self).bien_formado(),
            evolucion_ordenes(old(self).ordenes_compra@, final(self).ordenes_compra@),
            match buscar_usuario(old(self).usuarios@, caller) {
                None => {
                    &&& r == Err::<Usuario, ErrorSistema>(ErrorSistema::UsuarioNoRegistrado)
                    &&& mismo_estado(*old(self), *final(self))
                },
                Some(u) => {
                    let u2 = (Usuario { rol: nuevo_rol, ..u });
                    &&& r == Ok::<Usuario, ErrorSistema>(u2)
                    &&& buscar_usuario(final(self).usuarios@, caller) == Some(u2)
                    &&& forall|otra: AccountId|
                        otra != caller ==> buscar_usuario(final(self).usuarios@, otra)
                            == buscar_usuario(old(self).usuarios@, otra)
                    &&& final(self).usuarios@.len() == old(self).usuarios@.len()
                    &&& final(self).publicaciones@ == old(self).publicaciones@
                    &&& final(self).ordenes_compra@ == old(self).ordenes_compra@
                    &&& final(self).publicaciones_mapping@ == old(self).publicaciones_mapping@
                    &&& final(self).ordenes_compra_mapping@ == old(self).ordenes_compra_mapping@
                    &&& final(self).stock_inicial@ == old(self).stock_inicial@
                },
            },
    {
        let k = match posicion_usuario(&self.usuarios, &caller) {
            None => {
                return Err(ErrorSistema::UsuarioNoRegistrado);
            },
            Some(k) => k,
        };
        let mut u = self.usuarios[k].clone();
        u.rol = nuevo_rol;
        let devuelto = u.clone();
        proof {
            lema_buscar_update_mismo(self.usuarios@, caller, k as int, u, 0);
            assert forall|otra: AccountId| otra != caller implies buscar_usuario(
                self.usuarios@.update(k as int, u),
                otra,
            ) == buscar_usuario(self.usuarios@, otra) by {
                lema_buscar_update_otro(self.usuarios@, otra, k as int, u, 0);
            }
        }
        self.usuarios[k] = u;
        Ok(devuelto)
    }

    /// Publica un producto nuevo a nombre de la cuenta `caller`.
    ///
    /// Exige un usuario registrado con permisos de vendedor. La
    /// publicación recibe como id la posición siguiente del catálogo y esa
    /// posición se agrega al índice del vendedor. Falla, sin cambiar nada,
    /// con `UsuarioNoRegistrado`, `UsuarioNoEsVendedor` o — como resguardo
    /// ante un catálogo que desborde el rango del índice —
    /// `OverflowPublicaciones`.
    pub fn publicar(
        &mut self,
        caller: AccountId,
        nombre: String,
        descripcion: String,
        precio: u64,
        categoria: Categoria,
        stock: u64,
    ) -> (r: Result<Publicacion, ErrorSistema>)
        requires
            old(self).bien_formado(),
        ensures
            final(self).bien_formado(),
            evolucion_ordenes(old(self).ordenes_compra@, final(self).ordenes_compra@),
            match buscar_usuario(old(self).usuarios@, caller) {
                None => {
                    &&& r == Err::<Publicacion, ErrorSistema>(ErrorSistema::UsuarioNoRegistrado)
                    &&& mismo_estado(*old(self), *final(self))
                },
                Some(u) => if !puede_vender(u.rol) {
                    &&& r == Err::<Publicacion, ErrorSistema>(ErrorSistema::UsuarioNoEsVendedor)
                    &&& mismo_estado(*old(self), *final(self))
                } else if old(self).publicaciones@.len() > u32::MAX as int {
                    &&& r == Err::<Publicacion, ErrorSistema>(ErrorSistema::OverflowPublicaciones)
                    &&& mismo_estado(*old(self), *final(self))
                } else {
                    let p = (Publicacion {
                        id_publicacion: old(self).publicaciones@.len() as u64,
                        nombre,
                        descripcion,
                        precio,
                        categoria,
                        stock,
                        vendedor_id: caller,
                    });
                    &&& r == Ok::<Publicacion, ErrorSistema>(p)
                    &&& final(self).publicaciones@ == old(self).publicaciones@.push(p)
                    &&& final(self).stock_inicial@ == old(self).stock_inicial@.push(stock)
                    &&& posiciones_de(final(self).publicaciones_mapping@, caller) == posiciones_de(
                        old(self).publicaciones_mapping@,
                        caller,
                    ).push(old(self).publicaciones@.len() as u32)
                    &&& forall|otra: AccountId|
                        otra != caller ==> posiciones_de(final(self).publicaciones_mapping@, otra)
                            == posiciones_de(old(self).publicaciones_mapping@, otra)
                    &&& final(self).usuarios@ == old(self).usuarios@
                    &&& final(self).ordenes_compra@ == old(self).ordenes_compra@
                    &&& final(self).ordenes_compra_mapping@ == old(self).ordenes_compra_mapping@
                },
            },
    {
        let k_usuario = match posicion_usuario(&self.usuarios, &caller) {
            None => {
                return Err(ErrorSistema::UsuarioNoRegistrado);
            },
            Some(k) => k,
        };
        let usuario = self.usuarios[k_usuario].clone();
        match usuario.es_vendedor() {
            Err(e) => {
                return Err(e);
            },
            Ok(_) => {},
        }
        if self.publicaciones.len() > u32::MAX as usize {
            return Err(ErrorSistema::OverflowPublicaciones);
        }
        let indice_nuevo: u32 = self.publicaciones.len() as u32;
        let publicacion = Publicacion::new(
            self.publicaciones.len() as u64,
            nombre,
            descripcion,
            precio,
            categoria,
            stock,
            usuario.account_id,
        );
        let devuelta = publicacion.clone();
        let ghost ordenes_antes = self.ordenes_compra@;
        let ghost publicaciones_antes = self.publicaciones@;
        self.publicaciones.push(publicacion);
        proof {
            self.stock_inicial@ = self.stock_inicial@.push(stock);
            assert forall|k: int| 0 <= k < ordenes_antes.len() implies ordenes_antes[k]
                .publicacion.id_publicacion != publicaciones_antes.len() by {}
            lema_stock_reservado_ajeno(ordenes_antes, publicaciones_antes.len() as int);
        }
        match buscar_entrada(&self.publicaciones_mapping, &caller) {
            Some(k) => {
                let mut posiciones = clonar_posiciones(&self.publicaciones_mapping[k].1);
                posiciones.push(indice_nuevo);
                proof {
                    lema_posiciones_update_mismo(
                        self.publicaciones_mapping@,
                        k as int,
                        (caller, posiciones),
                        0,
                    );
                    assert forall|otra: AccountId| otra != caller implies posiciones_de(
                        self.publicaciones_mapping@.update(k as int, (caller, posiciones)),
                        otra,
                    ) == posiciones_de(self.publicaciones_mapping@, otra) by {
                        lema_posiciones_update_otro(
                            self.publicaciones_mapping@,
                            k as int,
                            (caller, posiciones),
                            otra,
                            0,
                        );
                    }
                }
                self.publicaciones_mapping[k] = (caller, posiciones);
            },
            None => {
                let mut posiciones: Vec<u32> = Vec::new();
                posiciones.push(indice_nuevo);
                proof {
                    lema_posiciones_push(
                        self.publicaciones_mapping@,
                        (caller, posiciones),
                        caller,
                        0,
                    );
                    assert(posiciones_de(self.publicaciones_mapping@, caller).push(indice_nuevo)
                        =~= posiciones@);
                    assert forall|otra: AccountId| otra != caller implies posiciones_de(
                        self.publicaciones_mapping@.push((caller, posiciones)),
                        otra,
                    ) == posiciones_de(self.publicaciones_mapping@, otra) by {
                        lema_posiciones_push(
                            self.publicaciones_mapping@,
                            (caller, posiciones),
                            otra,
                            0,
                        );
                    }
                }
                self.publicaciones_mapping.push((caller, posiciones));
            },
        }
        Ok(devuelta)
    }

    /// Devuelve las publicaciones de la cuenta `caller`, en el orden en
    /// que fueron publicadas. Exige registro y permisos de vendedor; el
    /// resultado contiene exactamente las publicaciones que el índice del
    /// vendedor señala, todas de su propiedad.
    pub fn get_publicaciones_vendedor(&self, caller: AccountId) -> (r: Result<
        Vec<Publicacion>,
        ErrorSistema,
    >)
        requires
            self.bien_formado(),
        ensures
            match buscar_usuario(self.usuarios@, caller) {
                None => r == Err::<Vec<Publicacion>, ErrorSistema>(
                    ErrorSistema::UsuarioNoRegistrado,
                ),
                Some(u) => if !puede_vender(u.rol) {
                    r == Err::<Vec<Publicacion>, ErrorSistema>(ErrorSistema::UsuarioNoEsVendedor)
                } else {
                    let posiciones = posiciones_de(self.publicaciones_mapping@, caller);
                    r matches Ok(v) && v@.len() == posiciones.len() && (forall|j: int|
                        0 <= j < posiciones.len() ==> v@[j] == self.publicaciones@[posiciones[j] as int])
                        && (forall|j: int|
                        0 <= j < v@.len() ==> (#[trigger] v@[j]).vendedor_id == caller)
                },
            },
    {
        let k_usuario = match posicion_usuario(&self.usuarios, &caller) {
            None => {
                return Err(ErrorSistema::UsuarioNoRegistrado);
            },
            Some(k) => k,
        };
        let usuario = self.usuarios[k_usuario].clone();
        match usuario.es_vendedor() {
            Err(e) => {
                return Err(e);
            },
            Ok(_) => {},
        }
        let mut resultado: Vec<Publicacion> = Vec::new();
        let k = match buscar_entrada(&self.publicaciones_mapping, &caller) {
            None => {
                return Ok(resultado);
            },
            Some(k) => k,
        };
        let total = self.publicaciones_mapping[k].1.len();
        let mut j: usize = 0;
        while j < total
            invariant
                self.bien_formado(),
                j <= total,
                (k as int) < self.publicaciones_mapping@.len(),
                total == self.publicaciones_mapping@[k as int].1@.len(),
                self.publicaciones_mapping@[k as int].0 == caller,
                resultado@.len() == j,
                forall|jj: int|
                    0 <= jj < j ==> resultado@[jj] == self.publicaciones@[self.publicaciones_mapping@[k as int].1@[jj] as int],
            decreases total - j,
        {
            let posicion = self.publicaciones_mapping[k].1[j];
            resultado.push(self.publicaciones[posicion as usize].clone());
            j += 1;
        }
        Ok(resultado)
    }

    /// Devuelve el catálogo completo, en orden de publicación. Sólo exige
    /// que la cuenta `caller` esté registrada.
    pub fn get_publicaciones(&self, caller: AccountId) -> (r: Result<
        Vec<Publicacion>,
        ErrorSistema,
    >)
        ensures
            match buscar_usuario(self.usuarios@, caller) {
                None => r == Err::<Vec<Publicacion>, ErrorSistema>(
                    ErrorSistema::UsuarioNoRegistrado,
                ),
                Some(_) => r matches Ok(v) && v@ == self.publicaciones@,
            },
    {
        match posicion_usuario(&self.usuarios, &caller) {
            None => {
                return Err(ErrorSistema::UsuarioNoRegistrado);
            },
            Some(_) => {},
        }
        let mut resultado: Vec<Publicacion> = Vec::new();
        let mut i: usize = 0;
        while i < self.publicaciones.len()
            invariant
                i <= self.publicaciones@.len(),
                resultado@ == self.publicaciones@.subrange(0, i as int),
            decreases self.publicaciones@.len() - i,
        {
            resultado.push(self.publicaciones[i].clone());
            proof {
                assert(resultado@ =~= self.publicaciones@.subrange(0, i as int + 1));
            }
            i += 1;
        }
        proof {
            assert(self.publicaciones@.subrange(0, self.publicaciones@.len() as int)
                =~= self.publicaciones@);
        }
        Ok(resultado)
    }

    /// Crea una orden de compra de la cuenta `caller` sobre la
    /// publicación `idx_publicacion` por `cantidad` unidades.
    ///
    /// Exige un usuario registrado con permisos de comprador, una
    /// publicación existente, una cantidad positiva y stock suficiente;
    /// el resguardo final cubre
    /// un libro de órdenes que desborde el rango del índice. Si todo vale,
    /// descuenta la cantidad del stock, crea la orden pendiente con una
    /// copia de la publicación ya descontada y la agrega al libro y al
    /// índice del comprador. Ante cualquier fallo nada cambia.
    pub fn ordenar_compra(&mut self, caller: AccountId, idx_publicacion: u32, cantidad: u32) -> (r:
        Result<OrdenCompra, ErrorSistema>)
        requires
            old(self).bien_formado(),
        ensures
            final(self).bien_formado(),
            evolucion_ordenes(old(self).ordenes_compra@, final(self).ordenes_compra@),
            match buscar_usuario(old(self).usuarios@, caller) {
                None => {
                    &&& r == Err::<OrdenCompra, ErrorSistema>(ErrorSistema::UsuarioNoRegistrado)
                    &&& mismo_estado(*old(self), *final(self))
                },
                Some(u) => if !puede_comprar(u.rol) {
                    &&& r == Err::<OrdenCompra, ErrorSistema>(ErrorSistema::UsuarioNoEsComprador)
                    &&& mismo_estado(*old(self), *final(self))
                } else if idx_publicacion as int >= old(self).publicaciones@.len() {
                    &&& r == Err::<OrdenCompra, ErrorSistema>(ErrorSistema::PublicacionNoExistente)
                    &&& mismo_estado(*old(self), *final(self))
                } else if cantidad == 0 {
                    &&& r == Err::<OrdenCompra, ErrorSistema>(ErrorSistema::CantidadInvalida)
                    &&& mismo_estado(*old(self), *final(self))
                } else if cantidad as int > old(self).publicaciones@[idx_publicacion as int].stock {
                    &&& r == Err::<OrdenCompra, ErrorSistema>(ErrorSistema::PublicacionSinStock)
                    &&& mismo_estado(*old(self), *final(self))
                } else if old(self).ordenes_compra@.len() > u32::MAX as int {
                    &&& r == Err::<OrdenCompra, ErrorSistema>(ErrorSistema::UnderflowOrdenes)
                    &&& mismo_estado(*old(self), *final(self))
                } else {
                    let p = old(self).publicaciones@[idx_publicacion as int];
                    let p2 = (Publicacion { stock: (p.stock - cantidad) as u64, ..p });
                    let o = (OrdenCompra {
                        estado: Estado::Pendiente,
                        publicacion: p2,
                        comprador_id: caller,
                        peticion_cancelacion: false,
                        cantidad,
                    });
                    &&& r == Ok::<OrdenCompra, ErrorSistema>(o)
                    &&& final(self).publicaciones@ == old(self).publicaciones@.update(
                        idx_publicacion as int,
                        p2,
                    )
                    &&& final(self).ordenes_compra@ == old(self).ordenes_compra@.push(o)
                    &&& posiciones_de(final(self).ordenes_compra_mapping@, caller)
                        == posiciones_de(old(self).ordenes_compra_mapping@, caller).push(
                        old(self).ordenes_compra@.len() as u32,
                    )
                    &&& forall|otra: AccountId|
                        otra != caller ==> posiciones_de(final(self).ordenes_compra_mapping@, otra)
                            == posiciones_de(old(self).ordenes_compra_mapping@, otra)
                    &&& final(self).usuarios@ == old(self).usuarios@
                    &&& final(self).publicaciones_mapping@ == old(self).publicaciones_mapping@
                    &&& final(self).stock_inicial@ == old(self).stock_inicial@
                },
            },
    {
        let k_usuario = match posicion_usuario(&self.usuarios, &caller) {
            None => {
                return Err(ErrorSistema::UsuarioNoRegistrado);
            },
            Some(k) => k,
        };
        let usuario = self.usuarios[k_usuario].clone();
        match usuario.es_comprador() {
            Err(e) => {
                return Err(e);
            },
            Ok(_) => {},
        }
        if idx_publicacion as usize >= self.publicaciones.len() {
            return Err(ErrorSistema::PublicacionNoExistente);
        }
        if cantidad == 0 {
            return Err(ErrorSistema::CantidadInvalida);
        }
        let mut publicacion = self.publicaciones[idx_publicacion as usize].clone();
        if cantidad as u64 > publicacion.stock {
            return Err(ErrorSistema::PublicacionSinStock);
        }
        if self.ordenes_compra.len() > u32::MAX as usize {
            return Err(ErrorSistema::UnderflowOrdenes);
        }
        let indice_nuevo: u32 = self.ordenes_compra.len() as u32;
        publicacion.stock = publicacion.stock - cantidad as u64;
        self.publicaciones[idx_publicacion as usize] = publicacion.clone();
        let orden = OrdenCompra {
            estado: Estado::Pendiente,
            publicacion,
            comprador_id: usuario.account_id,
            peticion_cancelacion: false,
            cantidad,
        };
        let devuelta = orden.clone();
        proof {
            assert forall|i: int| #![all_triggers] true implies stock_reservado(
                self.ordenes_compra@.push(orden),
                i,
            ) == stock_reservado(self.ordenes_compra@, i) + reserva_de(orden, i) by {
                lema_stock_reservado_push(self.ordenes_compra@, orden, i);
            }
        }
        self.ordenes_compra.push(orden);
        match buscar_entrada(&self.ordenes_compra_mapping, &caller) {
            Some(k) => {
                let mut posiciones = clonar_posiciones(&self.ordenes_compra_mapping[k].1);
                posiciones.push(indice_nuevo);
                proof {
                    lema_posiciones_update_mismo(
                        self.ordenes_compra_mapping@,
                        k as int,
                        (caller, posiciones),
                        0,
                    );
                    assert forall|otra: AccountId| otra != caller implies posiciones_de(
                        self.ordenes_compra_mapping@.update(k as int, (caller, posiciones)),
                        otra,
                    ) == posiciones_de(self.ordenes_compra_mapping@, otra) by {
                        lema_posiciones_update_otro(
                            self.ordenes_compra_mapping@,
                            k as int,
                            (caller, posiciones),
                            otra,
                            0,
                        );
                    }
                }
                self.ordenes_compra_mapping[k] = (caller, posiciones);
            },
            None => {
                let mut posiciones: Vec<u32> = Vec::new();
                posiciones.push(indice_nuevo);
                proof {
                    lema_posiciones_push(
                        self.ordenes_compra_mapping@,
                        (caller, posiciones),
                        caller,
                        0,
                    );
                    assert(posiciones_de(self.ordenes_compra_mapping@, caller).push(indice_nuevo)
                        =~= posiciones@);
                    assert forall|otra: AccountId| otra != caller implies posiciones_de(
                        self.ordenes_compra_mapping@.push((caller, posiciones)),
                        otra,
                    ) == posiciones_de(self.ordenes_compra_mapping@, otra) by {
                        lema_posiciones_push(
                            self.ordenes_compra_mapping@,
                            (caller, posiciones),
                            otra,
                            0,
                        );
                    }
                }
                self.ordenes_compra_mapping.push((caller, posiciones));
            },
        }
        Ok(devuelta)
    }

    /// Marca como enviada la orden `idx_orden`. Sólo puede hacerlo el
    /// vendedor de la publicación comprada, y sólo sobre una orden
    /// pendiente: en los demás estados falla con el error que nombra el
    /// estado actual. Ante cualquier fallo nada cambia.
    pub fn marcar_enviado(&mut self, caller: AccountId, idx_orden: u32) -> (r: Result<
        OrdenCompra,
        ErrorSistema,
    >)
        requires
            old(self).bien_formado(),
        ensures
            final(self).bien_formado(),
            evolucion_ordenes(old(self).ordenes_compra@, final(self).ordenes_compra@),
            match buscar_usuario(old(self).usuarios@, caller) {
                None => {
                    &&& r == Err::<OrdenCompra, ErrorSistema>(ErrorSistema::UsuarioNoRegistrado)
                    &&& mismo_estado(*old(self), *final(self))
                },
                Some(u) => if !puede_vender(u.rol) {
                    &&& r == Err::<OrdenCompra, ErrorSistema>(ErrorSistema::UsuarioNoEsVendedor)
                    &&& mismo_estado(*old(self), *final(self))
                } else if idx_orden as int >= old(self).ordenes_compra@.len() {
                    &&& r == Err::<OrdenCompra, ErrorSistema>(ErrorSistema::OrdenNoExistente)
                    &&& mismo_estado(*old(self), *final(self))
                } else {
                    let o = old(self).ordenes_compra@[idx_orden as int];
                    match o.estado {
                        Estado::Pendiente => if o.publicacion.vendedor_id != caller {
                            &&& r == Err::<OrdenCompra, ErrorSistema>(
                                ErrorSistema::NoEresVendedorDeLaOrden,
                            )
                            &&& mismo_estado(*old(self), *final(self))
                        } else {
                            let o2 = (OrdenCompra { estado: Estado::Enviada, ..o });
                            &&& r == Ok::<OrdenCompra, ErrorSistema>(o2)
                            &&& final(self).ordenes_compra@ == old(self).ordenes_compra@.update(
                                idx_orden as int,
                                o2,
                            )
                            &&& final(self).usuarios@ == old(self).usuarios@
                            &&& final(self).publicaciones@ == old(self).publicaciones@
                            &&& final(self).publicaciones_mapping@ == old(
                                self,
                            ).publicaciones_mapping@
                            &&& final(self).ordenes_compra_mapping@ == old(
                                self,
                            ).ordenes_compra_mapping@
                            &&& final(self).stock_inicial@ == old(self).stock_inicial@
                        },
                        Estado::Enviada => {
                            &&& r == Err::<OrdenCompra, ErrorSistema>(ErrorSistema::YaEnviada)
                            &&& mismo_estado(*old(self), *final(self))
                        },
                        Estado::Recibida => {
                            &&& r == Err::<OrdenCompra, ErrorSistema>(ErrorSistema::YaRecibido)
                            &&& mismo_estado(*old(self), *final(self))
                        },
                        Estado::Cancelada => {
                            &&& r == Err::<OrdenCompra, ErrorSistema>(ErrorSistema::OrdenCancelada)
                            &&& mismo_estado(*old(self), *final(self))
                        },
                    }
                },
            },
    {
        let k_usuario = match posicion_usuario(&self.usuarios, &caller) {
            None => {
                return Err(ErrorSistema::UsuarioNoRegistrado);
            },
            Some(k) => k,
        };
        let usuario = self.usuarios[k_usuario].clone();
        match usuario.es_vendedor() {
            Err(e) => {
                return Err(e);
            },
            Ok(_) => {},
        }
        if idx_orden as usize >= self.ordenes_compra.len() {
            return Err(ErrorSistema::OrdenNoExistente);
        }
        let mut orden = self.ordenes_compra[idx_orden as usize].clone();
        match orden.estado {
            Estado::Pendiente => {
                if orden.publicacion.vendedor_id != usuario.account_id {
                    return Err(ErrorSistema::NoEresVendedorDeLaOrden);
                }
                orden.estado = Estado::Enviada;
                let devuelta = orden.clone();
                proof {
                    assert forall|i: int| #![all_triggers] true implies stock_reservado(
                        self.ordenes_compra@.update(idx_orden as int, orden),
                        i,
                    ) == stock_reservado(self.ordenes_compra@, i) by {
                        lema_stock_reservado_update(self.ordenes_compra@, idx_orden as int, orden, i);
                    }
                }
                self.ordenes_compra[idx_orden as usize] = orden;
                Ok(devuelta)
            },
            Estado::Enviada => Err(ErrorSistema::YaEnviada),
            Estado::Recibida => Err(ErrorSistema::YaRecibido),
            Estado::Cancelada => Err(ErrorSistema::OrdenCancelada),
        }
    }

    /// Marca como recibida la orden `idx_orden`. Sólo puede hacerlo el
    /// comprador de la orden, y sólo cuando está enviada: pendiente,
    /// recibida o cancelada fallan con el error que nombra el estado.
    /// Ante cualquier fallo nada cambia.
    pub fn marcar_recibido(&mut self, caller: AccountId, idx_orden: u32) -> (r: Result<
        OrdenCompra,
        ErrorSistema,
    >)
        requires
            old(self).bien_formado(),
        ensures
            final(self).bien_formado(),
            evolucion_ordenes(old(self).ordenes_compra@, final(self).ordenes_compra@),
            match buscar_usuario(old(self).usuarios@, caller) {
                None => {
                    &&& r == Err::<OrdenCompra, ErrorSistema>(ErrorSistema::UsuarioNoRegistrado)
                    &&& mismo_estado(*old(self), *final(self))
                },
                Some(u) => if !puede_comprar(u.rol) {
                    &&& r == Err::<OrdenCompra, ErrorSistema>(ErrorSistema::UsuarioNoEsComprador)
                    &&& mismo_estado(*old(self), *final(self))
                } else if idx_orden as int >= old(self).ordenes_compra@.len() {
                    &&& r == Err::<OrdenCompra, ErrorSistema>(ErrorSistema::OrdenNoExistente)
                    &&& mismo_estado(*old(self), *final(self))
                } else {
                    let o = old(self).ordenes_compra@[idx_orden as int];
                    match o.estado {
                        Estado::Enviada => if o.comprador_id != caller {
                            &&& r == Err::<OrdenCompra, ErrorSistema>(
                                ErrorSistema::NoEresCompradorDeLaOrden,
                            )
                            &&& mismo_estado(*old(self), *final(self))
                        } else {
                            let o2 = (OrdenCompra { estado: Estado::Recibida, ..o });
                            &&& r == Ok::<OrdenCompra, ErrorSistema>(o2)
                            &&& final(self).ordenes_compra@ == old(self).ordenes_compra@.update(
                                idx_orden as int,
                                o2,
                            )
                            &&& final(self).usuarios@ == old(self).usuarios@
                            &&& final(self).publicaciones@ == old(self).publicaciones@
                            &&& final(self).publicaciones_mapping@ == old(
                                self,
                            ).publicaciones_mapping@
                            &&& final(self).ordenes_compra_mapping@ == old(
                                self,
                            ).ordenes_compra_mapping@
                            &&& final(self).stock_inicial@ == old(self).stock_inicial@
                        },
                        Estado::Pendiente => {
                            &&& r == Err::<OrdenCompra, ErrorSistema>(ErrorSistema::OrdenPendiente)
                            &&& mismo_estado(*old(self), *final(self))
                        },
                        Estado::Recibida => {
                            &&& r == Err::<OrdenCompra, ErrorSistema>(ErrorSistema::YaRecibido)
                            &&& mismo_estado(*old(self), *final(self))
                        },
                        Estado::Cancelada => {
                            &&& r == Err::<OrdenCompra, ErrorSistema>(ErrorSistema::OrdenCancelada)
                            &&& mismo_estado(*old(self), *final(self))
                        },
                    }
                },
            },
    {
        let k_usuario = match posicion_usuario(&self.usuarios, &caller) {
            None => {
                return Err(ErrorSistema::UsuarioNoRegistrado);
            },
            Some(k) => k,
        };
        let usuario = self.usuarios[k_usuario].clone();
        match usuario.es_comprador() {
            Err(e) => {
                return Err(e);
            },
            Ok(_) => {},
        }
        if idx_orden as usize >= self.ordenes_compra.len() {
            return Err(ErrorSistema::OrdenNoExistente);
        }
        let mut orden = self.ordenes_compra[idx_orden as usize].clone();
        match orden.estado {
            Estado::Enviada => {
                if orden.comprador_id != usuario.account_id {
                    return Err(ErrorSistema::NoEresCompradorDeLaOrden);
                }
                orden.estado = Estado::Recibida;
                let devuelta = orden.clone();
                proof {
                    assert forall|i: int| #![all_triggers] true implies stock_reservado(
                        self.ordenes_compra@.update(idx_orden as int, orden),
                        i,
                    ) == stock_reservado(self.ordenes_compra@, i) by {
                        lema_stock_reservado_update(self.ordenes_compra@, idx_orden as int, orden, i);
                    }
                }
                self.ordenes_compra[idx_orden as usize] = orden;
                Ok(devuelta)
            },
            Estado::Pendiente => Err(ErrorSistema::OrdenPendiente),
            Estado::Recibida => Err(ErrorSistema::YaRecibido),
            Estado::Cancelada => Err(ErrorSistema::OrdenCancelada),
        }
    }

    /// Cancela la orden `idx_orden` mediante el apretón de manos de dos
    /// pasos: el comprador pide la cancelación (la orden sigue pendiente,
    /// repetir el pedido no es error) y luego el vendedor la aprueba, lo
    /// que devuelve al stock exactamente la cantidad de la orden — ni más
    /// ni menos — y la deja cancelada. Aprobar sin pedido previo falla con
    /// `PeticionNoSolicitada`; cualquier otra cuenta registrada falla con
    /// `SinPermisos`; una orden que no está pendiente, con
    /// `OrdenNoPendiente`. Ante cualquier fallo nada cambia.
    pub fn cancelar_orden(&mut self, caller: AccountId, idx_orden: u32) -> (r: Result<
        OrdenCompra,
        ErrorSistema,
    >)
        requires
            old(self).bien_formado(),
        ensures
            final(self).bien_formado(),
            evolucion_ordenes(old(self).ordenes_compra@, final(self).ordenes_compra@),
            match buscar_usuario(old(self).usuarios@, caller) {
                None => {
                    &&& r == Err::<OrdenCompra, ErrorSistema>(ErrorSistema::UsuarioNoRegistrado)
                    &&& mismo_estado(*old(self), *final(self))
                },
                Some(_) => if idx_orden as int >= old(self).ordenes_compra@.len() {
                    &&& r == Err::<OrdenCompra, ErrorSistema>(ErrorSistema::OrdenNoExistente)
                    &&& mismo_estado(*old(self), *final(self))
                } else {
                    let o = old(self).ordenes_compra@[idx_orden as int];
                    if o.estado != Estado::Pendiente {
                        &&& r == Err::<OrdenCompra, ErrorSistema>(ErrorSistema::OrdenNoPendiente)
                        &&& mismo_estado(*old(self), *final(self))
                    } else if caller == o.comprador_id {
                        let o2 = (OrdenCompra { peticion_cancelacion: true, ..o });
                        &&& r == Ok::<OrdenCompra, ErrorSistema>(o2)
                        &&& final(self).ordenes_compra@ == old(self).ordenes_compra@.update(
                            idx_orden as int,
                            o2,
                        )
                        &&& final(self).usuarios@ == old(self).usuarios@
                        &&& final(self).publicaciones@ == old(self).publicaciones@
                        &&& final(self).publicaciones_mapping@ == old(self).publicaciones_mapping@
                        &&& final(self).ordenes_compra_mapping@ == old(
                            self,
                        ).ordenes_compra_mapping@
                        &&& final(self).stock_inicial@ == old(self).stock_inicial@
                    } else if caller == o.publicacion.vendedor_id {
                        if !o.peticion_cancelacion {
                            &&& r == Err::<OrdenCompra, ErrorSistema>(
                                ErrorSistema::PeticionNoSolicitada,
                            )
                            &&& mismo_estado(*old(self), *final(self))
                        } else {
                            let o2 = (OrdenCompra { estado: Estado::Cancelada, ..o });
                            let pid = o.publicacion.id_publicacion as int;
                            let p = old(self).publicaciones@[pid];
                            let p2 = (Publicacion { stock: (p.stock + o.cantidad) as u64, ..p });
                            &&& p.stock + o.cantidad <= u64::MAX
                            &&& r == Ok::<OrdenCompra, ErrorSistema>(o2)
                            &&& final(self).ordenes_compra@ == old(self).ordenes_compra@.update(
                                idx_orden as int,
                                o2,
                            )
                            &&& final(self).publicaciones@ == old(self).publicaciones@.update(
                                pid,
                                p2,
                            )
                            &&& final(self).publicaciones@[pid].stock == p.stock + o.cantidad
                            &&& final(self).usuarios@ == old(self).usuarios@
                            &&& final(self).publicaciones_mapping@ == old(
                                self,
                            ).publicaciones_mapping@
                            &&& final(self).ordenes_compra_mapping@ == old(
                                self,
                            ).ordenes_compra_mapping@
                            &&& final(self).stock_inicial@ == old(self).stock_inicial@
                        }
                    } else {
                        &&& r == Err::<OrdenCompra, ErrorSistema>(ErrorSistema::SinPermisos)
                        &&& mismo_estado(*old(self), *final(self))
                    }
                },
            },
    {
        match posicion_usuario(&self.usuarios, &caller) {
            None => {
                return Err(ErrorSistema::UsuarioNoRegistrado);
            },
            Some(_) => {},
        }
        if idx_orden as usize >= self.ordenes_compra.len() {
            return Err(ErrorSistema::OrdenNoExistente);
        }
        let mut orden = self.ordenes_compra[idx_orden as usize].clone();
        if orden.estado != Estado::Pendiente {
            return Err(ErrorSistema::OrdenNoPendiente);
        }
        if caller == orden.comprador_id {
            // El comprador pide la cancelación; la orden sigue pendiente.
            orden.peticion_cancelacion = true;
            let devuelta = orden.clone();
            proof {
                assert forall|i: int| #![all_triggers] true implies stock_reservado(
                    self.ordenes_compra@.update(idx_orden as int, orden),
                    i,
                ) == stock_reservado(self.ordenes_compra@, i) by {
                    lema_stock_reservado_update(self.ordenes_compra@, idx_orden as int, orden, i);
                }
            }
            self.ordenes_compra[idx_orden as usize] = orden;
            Ok(devuelta)
        } else if caller == orden.publicacion.vendedor_id {
            // El vendedor aprueba: sólo con la petición ya hecha.
            if !orden.peticion_cancelacion {
                return Err(ErrorSistema::PeticionNoSolicitada);
            }
            let total_publicaciones = self.publicaciones.len();
            proof {
                assert((orden.publicacion.id_publicacion as int) < total_publicaciones as int);
            }
            let pid = orden.publicacion.id_publicacion as usize;
            let mut publicacion = self.publicaciones[pid].clone();
            proof {
                let pid_entero = orden.publicacion.id_publicacion as int;
                assert(self.publicaciones@[pid_entero].stock + stock_reservado(
                    self.ordenes_compra@,
                    pid_entero,
                ) == self.stock_inicial@[pid_entero]);
                lema_stock_reservado_cota(self.ordenes_compra@, idx_orden as int, pid_entero);
                assert(reserva_de(self.ordenes_compra@[idx_orden as int], pid_entero)
                    == orden.cantidad as int);
                assert(publicacion.stock + orden.cantidad <= u64::MAX);
            }
            publicacion.stock = publicacion.stock + orden.cantidad as u64;
            orden.estado = Estado::Cancelada;
            let devuelta = orden.clone();
            proof {
                assert forall|i: int| #![all_triggers] true implies stock_reservado(
                    self.ordenes_compra@.update(idx_orden as int, orden),
                    i,
                ) == stock_reservado(self.ordenes_compra@, i) - reserva_de(
                    old(self).ordenes_compra@[idx_orden as int],
                    i,
                ) by {
                    lema_stock_reservado_update(self.ordenes_compra@, idx_orden as int, orden, i);
                }
            }
            self.publicaciones[pid] = publicacion;
            self.ordenes_compra[idx_orden as usize] = orden;
            Ok(devuelta)
        } else {
            // Ni el comprador ni el vendedor de la orden.
            Err(ErrorSistema::SinPermisos)
        }
    }

    /// Devuelve las órdenes de la cuenta `caller`, en el orden en que
    /// fueron creadas. Exige registro y permisos de comprador; el
    /// resultado contiene exactamente las órdenes que el índice del
    /// comprador señala, todas suyas.
    pub fn get_ordenes_comprador(&self, caller: AccountId) -> (r: Result<
        Vec<OrdenCompra>,
        ErrorSistema,
    >)
        requires
            self.bien_formado(),
        ensures
            match buscar_usuario(self.usuarios@, caller) {
                None => r == Err::<Vec<OrdenCompra>, ErrorSistema>(
                    ErrorSistema::UsuarioNoRegistrado,
                ),
                Some(u) => if !puede_comprar(u.rol) {
                    r == Err::<Vec<OrdenCompra>, ErrorSistema>(ErrorSistema::UsuarioNoEsComprador)
                } else {
                    let posiciones = posiciones_de(self.ordenes_compra_mapping@, caller);
                    r matches Ok(v) && v@.len() == posiciones.len() && (forall|j: int|
                        0 <= j < posiciones.len() ==> v@[j] == self.ordenes_compra@[posiciones[j] as int])
                        && (forall|j: int|
                        0 <= j < v@.len() ==> (#[trigger] v@[j]).comprador_id == caller)
                },
            },
    {
        let k_usuario = match posicion_usuario(&self.usuarios, &caller) {
            None => {
                return Err(ErrorSistema::UsuarioNoRegistrado);
            },
            Some(k) => k,
        };
        let usuario = self.usuarios[k_usuario].clone();
        match usuario.es_comprador() {
            Err(e) => {
                return Err(e);
            },
            Ok(_) => {},
        }
        let mut resultado: Vec<OrdenCompra> = Vec::new();
        let k = match buscar_entrada(&self.ordenes_compra_mapping, &caller) {
            None => {
                return Ok(resultado);
            },
            Some(k) => k,
        };
        let total = self.ordenes_compra_mapping[k].1.len();
        let mut j: usize = 0;
        while j < total
            invariant
                self.bien_formado(),
                j <= total,
                (k as int) < self.ordenes_compra_mapping@.len(),
                total == self.ordenes_compra_mapping@[k as int].1@.len(),
                self.ordenes_compra_mapping@[k as int].0 == caller,
                resultado@.len() == j,
                forall|jj: int|
                    0 <= jj < j ==> resultado@[jj] == self.ordenes_compra@[self.ordenes_compra_mapping@[k as int].1@[jj] as int],
            decreases total - j,
        {
            let posicion = self.ordenes_compra_mapping[k].1[j];
            resultado.push(self.ordenes_compra[posicion as usize].clone());
            j += 1;
        }
        Ok(resultado)
    }

    /// Devuelve el libro de órdenes completo, en orden de creación. Sólo
    /// exige que la cuenta `caller` esté registrada.
    pub fn get_ordenes(&self, caller: AccountId) -> (r: Result<Vec<OrdenCompra>, ErrorSistema>)
        ensures
            match buscar_usuario(self.usuarios@, caller) {
                None => r == Err::<Vec<OrdenCompra>, ErrorSistema>(
                    ErrorSistema::UsuarioNoRegistrado,
                ),
                Some(_) => r matches Ok(v) && v@ == self.ordenes_compra@,
            },
    {
        match posicion_usuario(&self.usuarios, &caller) {
            None => {
                return Err(ErrorSistema::UsuarioNoRegistrado);
            },
            Some(_) => {},
        }
        let mut resultado: Vec<OrdenCompra> = Vec::new();
        let mut i: usize = 0;
        while i < self.ordenes_compra.len()
            invariant
                i <= self.ordenes_compra@.len(),
                resultado@ == self.ordenes_compra@.subrange(0, i as int),
            decreases self.ordenes_compra@.len() - i,
        {
            resultado.push(self.ordenes_compra[i].clone());
            proof {
                assert(resultado@ =~= self.ordenes_compra@.subrange(0, i as int + 1));
            }
            i += 1;
        }
        proof {
            assert(self.ordenes_compra@.subrange(0, self.ordenes_compra@.len() as int)
                =~= self.ordenes_compra@);
        }
        Ok(resultado)
    }
}

} // verus!
