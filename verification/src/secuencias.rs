//! Lemas sobre secuencias que comparten las operaciones del almacén.

use vstd::prelude::*;

verus! {

/// Filtrar una secuencia cuyos elementos pasan todos el predicado la deja
/// igual.
pub proof fn lema_filtrar_todo<T>(s: Seq<T>, pred: spec_fn(T) -> bool)
    requires
        forall|i: int| 0 <= i < s.len() ==> pred(#[trigger] s[i]),
    ensures
        s.filter(pred) =~= s,
    decreases s.len(),
{
    reveal(Seq::filter);
    if s.len() > 0 {
        assert(forall|i: int| 0 <= i < s.drop_last().len() ==> pred(#[trigger] s.drop_last()[i]));
        lema_filtrar_todo(s.drop_last(), pred);
        assert(s.filter(pred) =~= s.drop_last().push(s.last()));
        assert(s.drop_last().push(s.last()) =~= s);
    }
}

/// Quitar el único elemento que no pasa un predicado es filtrar con ese
/// predicado.
pub proof fn lema_remover_unico<T>(s: Seq<T>, i: int, conservar: spec_fn(T) -> bool)
    requires
        0 <= i < s.len(),
        !conservar(s[i]),
        forall|k: int| 0 <= k < s.len() && k != i ==> conservar(#[trigger] s[k]),
    ensures
        s.remove(i) =~= s.filter(conservar),
    decreases s.len(),
{
    reveal(Seq::filter);
    if i == s.len() - 1 {
        assert(!conservar(s.last()));
        assert(s.filter(conservar) =~= s.drop_last().filter(conservar));
        assert(forall|k: int|
            0 <= k < s.drop_last().len() ==> conservar(#[trigger] s.drop_last()[k]));
        lema_filtrar_todo(s.drop_last(), conservar);
        assert(s.remove(i) =~= s.drop_last());
    } else {
        assert(conservar(s.last()));
        assert(s.filter(conservar) =~= s.drop_last().filter(conservar).push(s.last()));
        assert(!conservar(s.drop_last()[i]));
        assert(forall|k: int|
            0 <= k < s.drop_last().len() && k != i ==> conservar(#[trigger] s.drop_last()[k]));
        lema_remover_unico(s.drop_last(), i, conservar);
        assert(s.remove(i) =~= s.drop_last().remove(i).push(s.last()));
    }
}

} // verus!
