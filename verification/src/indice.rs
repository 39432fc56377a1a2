use vstd::prelude::*;

use crate::cuenta::AccountId;

verus! {

/// Un índice secundario: para cada cuenta, la lista de posiciones que le
/// pertenecen dentro de una secuencia maestra de sólo-agregado.
pub type Indice = Vec<(AccountId, Vec<u32>)>;

/// Posiciones asociadas a la cuenta `id` buscando desde la entrada `i`:
/// las de la primera entrada con esa cuenta, o ninguna si no hay entrada.
pub open spec fn posiciones_desde(s: Seq<(AccountId, Vec<u32>)>, id: AccountId, i: int) -> Seq<u32>
    decreases s.len() - i,
{
    if i < 0 || i >= s.len() {
        Seq::empty()
    } else if s[i].0 == id {
        s[i].1@
    } else {
        posiciones_desde(s, id, i + 1)
    }
}

/// Posiciones asociadas a la cuenta `id` en el índice `s`.
pub open spec fn posiciones_de(s: Seq<(AccountId, Vec<u32>)>, id: AccountId) -> Seq<u32> {
    posiciones_desde(s, id, 0)
}

/// Agregar al final una entrada de otra cuenta no altera las posiciones
/// de ninguna cuenta distinta; agregar la primera entrada de una cuenta
/// le da exactamente esas posiciones.
pub proof fn lema_posiciones_push(
    s: Seq<(AccountId, Vec<u32>)>,
    e: (AccountId, Vec<u32>),
    id: AccountId,
    i: int,
)
    requires
        0 <= i <= s.len(),
        forall|j: int| 0 <= j < s.len() ==> s[j].0 != e.0,
    ensures
        posiciones_desde(s.push(e), id, i) == if id == e.0 {
            e.1@
        } else {
            posiciones_desde(s, id, i)
        },
    decreases s.len() - i,
{
    if i < s.len() {
        lema_posiciones_push(s, e, id, i + 1);
    } else {
        assert(s.push(e)[i] == e);
        if id != e.0 {
            assert(posiciones_desde(s.push(e), id, i + 1) =~= Seq::empty());
        }
    }
}

/// Reemplazar la primera entrada de una cuenta por otra entrada de la
/// misma cuenta le deja exactamente las posiciones nuevas.
pub proof fn lema_posiciones_update_mismo(
    s: Seq<(AccountId, Vec<u32>)>,
    k: int,
    e2: (AccountId, Vec<u32>),
    i: int,
)
    requires
        0 <= i <= k < s.len(),
        e2.0 == s[k].0,
        forall|j: int| i <= j < k ==> s[j].0 != s[k].0,
    ensures
        posiciones_desde(s.update(k, e2), s[k].0, i) == e2.1@,
    decreases k - i,
{
    if i < k {
        lema_posiciones_update_mismo(s, k, e2, i + 1);
    }
}

/// Reemplazar una entrada por otra de la misma cuenta no altera las
/// posiciones de ninguna otra cuenta.
pub proof fn lema_posiciones_update_otro(
    s: Seq<(AccountId, Vec<u32>)>,
    k: int,
    e2: (AccountId, Vec<u32>),
    id: AccountId,
    i: int,
)
    requires
        0 <= k < s.len(),
        e2.0 == s[k].0,
        id != s[k].0,
    ensures
        posiciones_desde(s.update(k, e2), id, i) == posiciones_desde(s, id, i),
    decreases s.len() - i,
{
    if 0 <= i && i < s.len() {
        lema_posiciones_update_otro(s, k, e2, id, i + 1);
    }
}

/// Posición de la entrada del índice que pertenece a la cuenta `id`.
pub(crate) fn buscar_entrada(indice: &Indice, id: &AccountId) -> (r: Option<usize>)
    ensures
        match r {
            Some(k) => {
                &&& (k as int) < indice@.len()
                &&& indice@[k as int].0 == *id
                &&& forall|j: int| 0 <= j < k as int ==> indice@[j].0 != *id
                &&& posiciones_de(indice@, *id) == indice@[k as int].1@
            },
            None => {
                &&& forall|j: int| 0 <= j < indice@.len() ==> indice@[j].0 != *id
                &&& posiciones_de(indice@, *id) == Seq::<u32>::empty()
            },
        },
{
    let mut i: usize = 0;
    while i < indice.len()
        invariant
            i <= indice.len(),
            forall|j: int| 0 <= j < i as int ==> indice@[j].0 != *id,
            posiciones_de(indice@, *id) == posiciones_desde(indice@, *id, i as int),
        decreases indice@.len() - i,
    {
        if indice[i].0 == *id {
            return Some(i);
        }
        i += 1;
    }
    None
}

/// Copia una lista de posiciones.
pub(crate) fn clonar_posiciones(v: &Vec<u32>) -> (r: Vec<u32>)
    ensures
        r@ == v@,
{
    let mut r: Vec<u32> = Vec::new();
    let mut i: usize = 0;
    while i < v.len()
        invariant
            i <= v.len(),
            r@ == v@.subrange(0, i as int),
        decreases v@.len() - i,
    {
        r.push(v[i]);
        proof {
            assert(r@ =~= v@.subrange(0, i as int + 1));
        }
        i += 1;
    }
    proof {
        assert(v@.subrange(0, v@.len() as int) =~= v@);
    }
    r
}

} // verus!
