use vstd::prelude::*;

use crate::cuenta::AccountId;
use crate::error::ErrorSistema;

verus! {

/// Roles posibles de un usuario dentro del sistema.
#[derive(Debug, Clone, Copy, PartialEq, Eq, Structural)]
pub enum Rol {
    /// Con permisos para realizar compras.
    Comprador,
    /// Con permisos para publicar y vender productos.
    Vendedor,
    /// Con permisos tanto de comprador como de vendedor.
    Ambos,
}

/// El rol habilita a publicar y vender.
pub open spec fn puede_vender(rol: Rol) -> bool {
    rol != Rol::Comprador
}

/// El rol habilita a comprar.
pub open spec fn puede_comprar(rol: Rol) -> bool {
    rol != Rol::Vendedor
}

/// Un usuario registrado dentro del sistema.
#[derive(Debug)]
pub struct Usuario {
    /// Nombre de usuario asociado a la cuenta.
    pub username: String,
    /// Rol asignado al usuario.
    pub rol: Rol,
    /// Identificador único de la cuenta.
    pub account_id: AccountId,
}

impl Usuario {
    /// Valida que el usuario tenga rol `Vendedor` o `Ambos`.
    pub fn es_vendedor(&self) -> (r: Result<bool, ErrorSistema>)
        ensures
            r == if puede_vender(self.rol) {
                Ok::<bool, ErrorSistema>(true)
            } else {
                Err::<bool, ErrorSistema>(ErrorSistema::UsuarioNoEsVendedor)
            },
    {
        if self.rol == Rol::Comprador {
            Err(ErrorSistema::UsuarioNoEsVendedor)
        } else {
            Ok(true)
        }
    }

    /// Valida que el usuario tenga rol `Comprador` o `Ambos`.
    pub fn es_comprador(&self) -> (r: Result<bool, ErrorSistema>)
        ensures
            r == if puede_comprar(self.rol) {
                Ok::<bool, ErrorSistema>(true)
            } else {
                Err::<bool, ErrorSistema>(ErrorSistema::UsuarioNoEsComprador)
            },
    {
        if self.rol == Rol::Vendedor {
            Err(ErrorSistema::UsuarioNoEsComprador)
        } else {
            Ok(true)
        }
    }
}

impl Clone for Usuario {
    fn clone(&self) -> (r: Usuario)
        ensures
            r == *self,
    {
        Usuario { username: self.username.clone(), rol: self.rol, account_id: self.account_id }
    }
}

impl PartialEq for Usuario {
    fn eq(&self, otro: &Usuario) -> (r: bool) {
        self.username == otro.username && self.rol == otro.rol && self.account_id
            == otro.account_id
    }
}

impl vstd::std_specs::cmp::PartialEqSpecImpl for Usuario {
    open spec fn obeys_eq_spec() -> bool {
        true
    }

    open spec fn eq_spec(&self, otro: &Usuario) -> bool {
        self.username@ == otro.username@ && self.rol == otro.rol && self.account_id
            == otro.account_id
    }
}

/// Primer usuario con la cuenta `id` a partir de la posición `i`.
pub open spec fn buscar_usuario_desde(s: Seq<Usuario>, id: AccountId, i: int) -> Option<Usuario>
    decreases s.len() - i,
{
    if i < 0 || i >= s.len() {
        None
    } else if s[i].account_id == id {
        Some(s[i])
    } else {
        buscar_usuario_desde(s, id, i + 1)
    }
}

/// Registro del usuario con la cuenta `id`, si existe.
pub open spec fn buscar_usuario(s: Seq<Usuario>, id: AccountId) -> Option<Usuario> {
    buscar_usuario_desde(s, id, 0)
}

/// Agregar un usuario al final no altera una búsqueda que ya encontraba
/// algo, y resuelve a él una búsqueda que no encontraba nada.
pub proof fn lema_buscar_push(s: Seq<Usuario>, id: AccountId, u: Usuario, i: int)
    requires
        0 <= i <= s.len(),
    ensures
        buscar_usuario_desde(s.push(u), id, i) == match buscar_usuario_desde(s, id, i) {
            Some(x) => Some(x),
            None => if u.account_id == id {
                Some(u)
            } else {
                None
            },
        },
    decreases s.len() - i,
{
    if i < s.len() {
        lema_buscar_push(s, id, u, i + 1);
    } else {
        assert(s.push(u)[i] == u);
        if u.account_id == id {
            assert(buscar_usuario_desde(s.push(u), id, i) == Some(u));
        } else {
            assert(buscar_usuario_desde(s.push(u), id, i + 1) is None);
        }
    }
}

/// Reemplazar la primera coincidencia por un usuario con la misma cuenta
/// hace que la búsqueda devuelva el reemplazo.
pub proof fn lema_buscar_update_mismo(s: Seq<Usuario>, id: AccountId, k: int, u2: Usuario, i: int)
    requires
        0 <= i <= k < s.len(),
        s[k].account_id == id,
        u2.account_id == id,
        forall|j: int| i <= j < k ==> s[j].account_id != id,
    ensures
        buscar_usuario_desde(s.update(k, u2), id, i) == Some(u2),
    decreases k - i,
{
    if i < k {
        lema_buscar_update_mismo(s, id, k, u2, i + 1);
    }
}

/// Reemplazar una posición por un usuario con la misma cuenta no altera
/// la búsqueda de ninguna otra cuenta.
pub proof fn lema_buscar_update_otro(s: Seq<Usuario>, id: AccountId, k: int, u2: Usuario, i: int)
    requires
        0 <= k < s.len(),
        u2.account_id == s[k].account_id,
        id != s[k].account_id,
    ensures
        buscar_usuario_desde(s.update(k, u2), id, i) == buscar_usuario_desde(s, id, i),
    decreases s.len() - i,
{
    if 0 <= i && i < s.len() {
        lema_buscar_update_otro(s, id, k, u2, i + 1);
    }
}

/// Posición del usuario con la cuenta `id`, si está registrado.
pub(crate) fn posicion_usuario(usuarios: &Vec<Usuario>, id: &AccountId) -> (r: Option<usize>)
    ensures
        match r {
            Some(k) => {
                &&& (k as int) < usuarios@.len()
                &&& usuarios@[k as int].account_id == *id
                &&& forall|j: int| 0 <= j < k as int ==> usuarios@[j].account_id != *id
                &&& buscar_usuario(usuarios@, *id) == Some(usuarios@[k as int])
            },
            None => {
                &&& forall|j: int| 0 <= j < usuarios@.len() ==> usuarios@[j].account_id != *id
                &&& buscar_usuario(usuarios@, *id) is None
            },
        },
{
    let mut i: usize = 0;
    while i < usuarios.len()
        invariant
            i <= usuarios.len(),
            forall|j: int| 0 <= j < i as int ==> usuarios@[j].account_id != *id,
            buscar_usuario(usuarios@, *id) == buscar_usuario_desde(usuarios@, *id, i as int),
        decreases usuarios@.len() - i,
    {
        if usuarios[i].account_id == *id {
            return Some(i);
        }
        i += 1;
    }
    None
}

} // verus!
