//! The predicate engine: pure functions that derive the visible fixture
//! list from the full list and a filter or a free-text search.
//!
//! Matching is case-insensitive containment.  Case folding is delegated to
//! the standard library and named by the uninterpreted function
//! [`mayusculas_de`]; everything built on top of it is verified against
//! that name.

use vstd::prelude::*;
use vstd::string::*;

use crate::modelos::{Filtro, Partido};

verus! {

/// The text a filter query is matched against: competition, home team,
/// away team and venue, separated by single spaces.
pub open spec fn texto_filtro(p: Partido) -> Seq<char> {
    p.competicion@ + " "@ + p.local@ + " "@ + p.visitante@ + " "@ + p.pista@
}

/// The text a free-text search is matched against: the filter text plus
/// the score.
pub open spec fn texto_busqueda(p: Partido) -> Seq<char> {
    texto_filtro(p) + " "@ + p.resultado@
}

/// `aguja` occurs in `pajar` as a contiguous subsequence.
pub open spec fn contiene_sub(pajar: Seq<char>, aguja: Seq<char>) -> bool {
    exists|i: int|
        0 <= i && i + aguja.len() <= pajar.len() && #[trigger] pajar.subrange(i, i + aguja.len())
            == aguja
}

/// The uppercase form of a character sequence, as the standard library
/// computes it.  It depends on the characters alone.
pub uninterp spec fn mayusculas_de(s: Seq<char>) -> Seq<char>;

/// Relies on str::to_uppercase: the uppercase form of the string, a
/// function of its characters alone.  Each character maps independently
/// to one or more characters, so the result is empty exactly when the
/// input is.
#[verifier::external_body]
fn en_mayusculas(s: &str) -> (r: String)
    ensures
        r@ == mayusculas_de(s@),
        r@.len() == 0 <==> s@.len() == 0,
{
    s.to_uppercase()
}

/// Relies on str::contains: true exactly when the pattern occurs as a
/// contiguous substring.  str::contains matches bytes, but a byte-level
/// occurrence of valid UTF-8 always falls on character boundaries, so it
/// coincides with containment over the character sequences.
#[verifier::external_body]
fn contiene(pajar: &str, aguja: &str) -> (r: bool)
    ensures
        r == contiene_sub(pajar@, aguja@),
{
    pajar.contains(aguja)
}

/// A fixture matches the query part of a filter: the folded query occurs
/// in the folded fixture text.
pub open spec fn cumple_consulta(p: Partido, consulta: Seq<char>) -> bool {
    contiene_sub(mayusculas_de(texto_filtro(p)), mayusculas_de(consulta))
}

/// A fixture matches the category part of a filter: the category is empty
/// or its folded form occurs in the folded competition name.
pub open spec fn cumple_categoria(p: Partido, categoria: Seq<char>) -> bool {
    categoria.len() == 0 || contiene_sub(mayusculas_de(p.competicion@), mayusculas_de(categoria))
}

/// A fixture matches a filter: an empty query matches everything,
/// independent of the category; otherwise both the query and the category
/// condition must hold.
pub open spec fn cumple_filtro(p: Partido, f: Filtro) -> bool {
    f.buscar@.len() == 0 || (cumple_consulta(p, f.buscar@) && cumple_categoria(p, f.categoria@))
}

/// A fixture matches a free-text search: an empty search matches
/// everything; otherwise the folded search text occurs in the folded
/// fixture text (score included).
pub open spec fn cumple_busqueda(p: Partido, consulta: Seq<char>) -> bool {
    consulta.len() == 0 || contiene_sub(mayusculas_de(texto_busqueda(p)), mayusculas_de(consulta))
}

/// The elements of `lista` that satisfy `pred`, keeping their order.
pub open spec fn seleccionados(lista: Seq<Partido>, pred: spec_fn(Partido) -> bool) -> Seq<Partido>
    decreases lista.len(),
{
    if lista.len() == 0 {
        Seq::empty()
    } else {
        seleccionados(lista.drop_last(), pred) + if pred(lista.last()) {
            seq![lista.last()]
        } else {
            Seq::empty()
        }
    }
}

/// The visible list a filter derives from the full list.
pub open spec fn filtrados(lista: Seq<Partido>, f: Filtro) -> Seq<Partido> {
    seleccionados(lista, |p: Partido| cumple_filtro(p, f))
}

/// The visible list a free-text search derives from the full list.
pub open spec fn buscados(lista: Seq<Partido>, consulta: Seq<char>) -> Seq<Partido> {
    seleccionados(lista, |p: Partido| cumple_busqueda(p, consulta))
}

/// The text a filter query is matched against, as a string.
fn texto_de_filtro(p: &Partido) -> (t: String)
    ensures
        t@ == texto_filtro(*p),
{
    let mut t = p.competicion.clone();
    t.append(" ");
    t.append(p.local.as_str());
    t.append(" ");
    t.append(p.visitante.as_str());
    t.append(" ");
    t.append(p.pista.as_str());
    t
}

/// The text a free-text search is matched against, as a string.
fn texto_de_busqueda(p: &Partido) -> (t: String)
    ensures
        t@ == texto_busqueda(*p),
{
    let mut t = texto_de_filtro(p);
    t.append(" ");
    t.append(p.resultado.as_str());
    t
}

/// Decides `cumple_filtro` for one fixture.
fn cumple_filtro_exec(p: &Partido, f: &Filtro) -> (r: bool)
    ensures
        r == cumple_filtro(*p, *f),
{
    if f.buscar.as_str().is_empty() {
        return true;
    }
    let texto = texto_de_filtro(p);
    let texto_m = en_mayusculas(texto.as_str());
    let buscar_m = en_mayusculas(f.buscar.as_str());
    let cumple_b = contiene(texto_m.as_str(), buscar_m.as_str());
    let cumple_c = if f.categoria.as_str().is_empty() {
        true
    } else {
        let comp_m = en_mayusculas(p.competicion.as_str());
        let categoria_m = en_mayusculas(f.categoria.as_str());
        contiene(comp_m.as_str(), categoria_m.as_str())
    };
    cumple_b && cumple_c
}

/// Decides `cumple_busqueda` for one fixture.
fn cumple_busqueda_exec(p: &Partido, consulta: &str) -> (r: bool)
    ensures
        r == cumple_busqueda(*p, consulta@),
{
    if consulta.is_empty() {
        return true;
    }
    let texto = texto_de_busqueda(p);
    let texto_m = en_mayusculas(texto.as_str());
    let consulta_m = en_mayusculas(consulta);
    contiene(texto_m.as_str(), consulta_m.as_str())
}

/// Applies a filter to the full list and returns the visible list.
pub fn filtrar(todos: &Vec<Partido>, filtro: &Filtro) -> (visibles: Vec<Partido>)
    ensures
        visibles@ == filtrados(todos@, *filtro),
{
    let mut visibles: Vec<Partido> = Vec::new();
    let mut i: usize = 0;
    while i < todos.len()
        invariant
            i <= todos.len(),
            visibles@ == filtrados(todos@.take(i as int), *filtro),
        decreases todos.len() - i,
    {
        let cumple = cumple_filtro_exec(&todos[i], filtro);
        if cumple {
            visibles.push(todos[i].clone());
        }
        proof {
            let s = todos@;
            let f = *filtro;
            assert(s.take((i + 1) as int).drop_last() =~= s.take(i as int));
            assert(s.take((i + 1) as int).last() == s[i as int]);
            if cumple_filtro(s[i as int], f) {
                assert(filtrados(s.take((i + 1) as int), f) =~= filtrados(s.take(i as int), f).push(
                    s[i as int],
                ));
            } else {
                assert(filtrados(s.take((i + 1) as int), f) =~= filtrados(s.take(i as int), f));
            }
        }
        i = i + 1;
    }
    proof {
        assert(todos@.take(todos@.len() as int) =~= todos@);
    }
    visibles
}

/// Applies a free-text search to the full list and returns the visible
/// list.
pub fn buscar(todos: &Vec<Partido>, consulta: &str) -> (visibles: Vec<Partido>)
    ensures
        visibles@ == buscados(todos@, consulta@),
{
    let mut visibles: Vec<Partido> = Vec::new();
    let mut i: usize = 0;
    while i < todos.len()
        invariant
            i <= todos.len(),
            visibles@ == buscados(todos@.take(i as int), consulta@),
        decreases todos.len() - i,
    {
        let cumple = cumple_busqueda_exec(&todos[i], consulta);
        if cumple {
            visibles.push(todos[i].clone());
        }
        proof {
            let s = todos@;
            let q = consulta@;
            assert(s.take((i + 1) as int).drop_last() =~= s.take(i as int));
            assert(s.take((i + 1) as int).last() == s[i as int]);
            if cumple_busqueda(s[i as int], q) {
                assert(buscados(s.take((i + 1) as int), q) =~= buscados(s.take(i as int), q).push(
                    s[i as int],
                ));
            } else {
                assert(buscados(s.take((i + 1) as int), q) =~= buscados(s.take(i as int), q));
            }
        }
        i = i + 1;
    }
    proof {
        assert(todos@.take(todos@.len() as int) =~= todos@);
    }
    visibles
}

} // verus!
