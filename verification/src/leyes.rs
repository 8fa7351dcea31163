//! Proved laws of the predicate engine and of the refresh coordinator.
//!
//! Each public proof function states one property of the library in terms
//! of the same spec functions the executable contracts use.

use vstd::prelude::*;

use crate::estado::{sondeo_sin_datos, App, INTERVALO_SONDEO_MS, TECHO_SONDEO_MS};
use crate::modelos::{Filtro, Mensaje, Partido};
use crate::motor::{
    buscados, cumple_busqueda, cumple_categoria, cumple_consulta, cumple_filtro, filtrados,
    mayusculas_de, seleccionados,
};

verus! {

/// Pushing an element onto a sequence adds exactly that element to its
/// membership.
proof fn lemma_push_pertenece(s: Seq<Partido>, x: Partido, p: Partido)
    ensures
        s.push(x).contains(p) <==> (s.contains(p) || p == x),
{
    if s.push(x).contains(p) {
        let i = choose|i: int| 0 <= i < s.push(x).len() && s.push(x)[i] == p;
        if i < s.len() {
            assert(s[i] == p);
        }
    }
    if s.contains(p) {
        let i = choose|i: int| 0 <= i < s.len() && s[i] == p;
        assert(s.push(x)[i] == p);
    }
    if p == x {
        assert(s.push(x)[s.len() as int] == p);
    }
}

/// A selection holds exactly the fixtures of the list that satisfy the
/// predicate.
pub proof fn lemma_seleccionados_pertenece(
    lista: Seq<Partido>,
    pred: spec_fn(Partido) -> bool,
    p: Partido,
)
    ensures
        seleccionados(lista, pred).contains(p) <==> (lista.contains(p) && pred(p)),
    decreases lista.len(),
{
    if lista.len() == 0 {
        assert(!seleccionados(lista, pred).contains(p));
        assert(!lista.contains(p));
    } else {
        let dl = lista.drop_last();
        let sdl = seleccionados(dl, pred);
        lemma_seleccionados_pertenece(dl, pred, p);
        assert(lista =~= dl.push(lista.last()));
        lemma_push_pertenece(dl, lista.last(), p);
        if pred(lista.last()) {
            assert(seleccionados(lista, pred) =~= sdl.push(lista.last()));
            lemma_push_pertenece(sdl, lista.last(), p);
        } else {
            assert(seleccionados(lista, pred) =~= sdl);
        }
    }
}

/// A selection never grows the list.
pub proof fn lemma_seleccionados_len(lista: Seq<Partido>, pred: spec_fn(Partido) -> bool)
    ensures
        seleccionados(lista, pred).len() <= lista.len(),
    decreases lista.len(),
{
    if lista.len() > 0 {
        lemma_seleccionados_len(lista.drop_last(), pred);
    }
}

/// A predicate that holds of every element selects the whole list.
pub proof fn lemma_seleccionados_todo(lista: Seq<Partido>, pred: spec_fn(Partido) -> bool)
    requires
        forall|i: int| 0 <= i < lista.len() ==> #[trigger] pred(lista[i]),
    ensures
        seleccionados(lista, pred) == lista,
    decreases lista.len(),
{
    if lista.len() == 0 {
        assert(seleccionados(lista, pred) =~= lista);
    } else {
        let dl = lista.drop_last();
        assert(forall|i: int| 0 <= i < dl.len() ==> #[trigger] pred(dl[i]));
        lemma_seleccionados_todo(dl, pred);
        assert(pred(lista[lista.len() - 1]));
        assert(seleccionados(lista, pred) =~= lista);
    }
}

/// Selecting from a selection changes nothing: the survivors all satisfy
/// the predicate already.
pub proof fn lemma_seleccionados_idempotente(lista: Seq<Partido>, pred: spec_fn(Partido) -> bool)
    ensures
        seleccionados(seleccionados(lista, pred), pred) == seleccionados(lista, pred),
    decreases lista.len(),
{
    if lista.len() == 0 {
        assert(seleccionados(seleccionados(lista, pred), pred) =~= seleccionados(lista, pred));
    } else {
        let dl = lista.drop_last();
        let sdl = seleccionados(dl, pred);
        lemma_seleccionados_idempotente(dl, pred);
        if pred(lista.last()) {
            let sel = seleccionados(lista, pred);
            assert(sel =~= sdl.push(lista.last()));
            assert(sel.drop_last() =~= sdl);
            assert(sel.last() == lista.last());
            assert(seleccionados(sel, pred) =~= seleccionados(sdl, pred).push(lista.last()));
            assert(seleccionados(sel, pred) =~= sel);
        } else {
            assert(seleccionados(lista, pred) =~= sdl);
        }
    }
}

/// Two predicates that agree on every element of the list select the same
/// fixtures.
pub proof fn lemma_seleccionados_congruencia(
    lista: Seq<Partido>,
    pred1: spec_fn(Partido) -> bool,
    pred2: spec_fn(Partido) -> bool,
)
    requires
        forall|i: int| 0 <= i < lista.len() ==> #[trigger] pred1(lista[i]) == pred2(lista[i]),
    ensures
        seleccionados(lista, pred1) == seleccionados(lista, pred2),
    decreases lista.len(),
{
    if lista.len() == 0 {
        assert(seleccionados(lista, pred1) =~= seleccionados(lista, pred2));
    } else {
        let dl = lista.drop_last();
        assert(forall|i: int| 0 <= i < dl.len() ==> #[trigger] pred1(dl[i]) == pred2(dl[i]));
        lemma_seleccionados_congruencia(dl, pred1, pred2);
        assert(pred1(lista[lista.len() - 1]) == pred2(lista[lista.len() - 1]));
        assert(seleccionados(lista, pred1) =~= seleccionados(lista, pred2));
    }
}

/// A filter never grows the list.
pub proof fn lemma_filtrados_len(lista: Seq<Partido>, f: Filtro)
    ensures
        filtrados(lista, f).len() <= lista.len(),
{
    lemma_seleccionados_len(lista, |p: Partido| cumple_filtro(p, f));
}

/// A search never grows the list.
pub proof fn lemma_buscados_len(lista: Seq<Partido>, consulta: Seq<char>)
    ensures
        buscados(lista, consulta).len() <= lista.len(),
{
    lemma_seleccionados_len(lista, |p: Partido| cumple_busqueda(p, consulta));
}

/// A filter with an empty query shows the full list unchanged, whatever
/// its category holds.
pub proof fn lemma_filtro_vacio_identidad(lista: Seq<Partido>, f: Filtro)
    requires
        f.buscar@.len() == 0,
    ensures
        filtrados(lista, f) == lista,
{
    let pred = |p: Partido| cumple_filtro(p, f);
    assert(forall|i: int| 0 <= i < lista.len() ==> #[trigger] pred(lista[i]));
    lemma_seleccionados_todo(lista, pred);
}

/// An empty search shows the full list unchanged.
pub proof fn lemma_busqueda_vacia_identidad(lista: Seq<Partido>, consulta: Seq<char>)
    requires
        consulta.len() == 0,
    ensures
        buscados(lista, consulta) == lista,
{
    let pred = |p: Partido| cumple_busqueda(p, consulta);
    assert(forall|i: int| 0 <= i < lista.len() ==> #[trigger] pred(lista[i]));
    lemma_seleccionados_todo(lista, pred);
}

/// Every fixture a search shows comes from the full list.
pub proof fn lemma_busqueda_subconjunto(lista: Seq<Partido>, consulta: Seq<char>)
    ensures
        forall|i: int|
            0 <= i < buscados(lista, consulta).len() ==> lista.contains(
                #[trigger] buscados(lista, consulta)[i],
            ),
{
    let pred = |p: Partido| cumple_busqueda(p, consulta);
    assert forall|i: int| 0 <= i < buscados(lista, consulta).len() implies lista.contains(
        #[trigger] buscados(lista, consulta)[i],
    ) by {
        let p = buscados(lista, consulta)[i];
        assert(buscados(lista, consulta).contains(p));
        lemma_seleccionados_pertenece(lista, pred, p);
    }
}

/// Applying the same search text twice is idempotent.
pub proof fn lemma_busqueda_idempotente(lista: Seq<Partido>, consulta: Seq<char>)
    ensures
        buscados(buscados(lista, consulta), consulta) == buscados(lista, consulta),
{
    lemma_seleccionados_idempotente(lista, |p: Partido| cumple_busqueda(p, consulta));
}

/// Searching is case-insensitive: two search texts with the same folded
/// form (both empty or both non-empty) show the same list.  Folding
/// preserves (non-)emptiness, but the folding function is uninterpreted
/// here, so that fact has to be a premise; the folding wrapper states it
/// of every value it returns, which lets callers who actually folded the
/// two texts discharge it.
pub proof fn lemma_busqueda_insensible(lista: Seq<Partido>, c1: Seq<char>, c2: Seq<char>)
    requires
        mayusculas_de(c1) == mayusculas_de(c2),
        c1.len() == 0 <==> c2.len() == 0,
    ensures
        buscados(lista, c1) == buscados(lista, c2),
{
    let pred1 = |p: Partido| cumple_busqueda(p, c1);
    let pred2 = |p: Partido| cumple_busqueda(p, c2);
    assert(forall|i: int| 0 <= i < lista.len() ==> #[trigger] pred1(lista[i]) == pred2(lista[i]));
    lemma_seleccionados_congruencia(lista, pred1, pred2);
}

/// A filter with a non-empty query and a non-empty category excludes any
/// fixture that matches the query but not the category.
pub proof fn lemma_filtro_excluye_categoria(lista: Seq<Partido>, f: Filtro, p: Partido)
    requires
        f.buscar@.len() > 0,
        f.categoria@.len() > 0,
        cumple_consulta(p, f.buscar@),
        !cumple_categoria(p, f.categoria@),
    ensures
        !filtrados(lista, f).contains(p),
{
    lemma_seleccionados_pertenece(lista, |q: Partido| cumple_filtro(q, f), p);
    assert(!cumple_filtro(p, f));
}

/// A refresh that never sees usable data times out after exactly the
/// polling ceiling.  Along any run of states whose steps are empty poll
/// ticks (and that stands still once the refresh has left flight),
/// starting with the clock at zero: as long as `k` intervals are under
/// the ceiling the refresh is still in flight with `k` intervals on the
/// clock, and from the tick that reaches the ceiling on the refresh is
/// over and the state reports the timeout.
pub proof fn lemma_sondeo_agota(estados: Seq<App>, k: int)
    requires
        0 <= k < estados.len(),
        estados[0].scraping,
        estados[0].espera_ms == 0,
        forall|i: int|
            0 <= i < estados.len() - 1 ==> (if estados[i].scraping {
                sondeo_sin_datos(#[trigger] estados[i], estados[i + 1])
            } else {
                estados[i + 1] == estados[i]
            }),
    ensures
        k * INTERVALO_SONDEO_MS < TECHO_SONDEO_MS ==> (estados[k].scraping && estados[k].espera_ms
            == k * INTERVALO_SONDEO_MS),
        k * INTERVALO_SONDEO_MS >= TECHO_SONDEO_MS ==> (!estados[k].scraping
            && estados[k].espera_ms == TECHO_SONDEO_MS && estados[k].mensaje
            == Mensaje::TiempoAgotado),
    decreases k,
{
    if k > 0 {
        lemma_sondeo_agota(estados, k - 1);
        if (k - 1) * INTERVALO_SONDEO_MS < TECHO_SONDEO_MS {
            assert(sondeo_sin_datos(estados[k - 1], estados[k]));
            assert(k * INTERVALO_SONDEO_MS == (k - 1) * INTERVALO_SONDEO_MS
                + INTERVALO_SONDEO_MS);
        } else {
            assert(estados[k] == estados[k - 1]);
        }
    }
}

} // verus!
