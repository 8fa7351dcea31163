//! Tests of the predicate engine: filtering and searching over concrete
//! fixture lists.

use fecapa_explorer::modelos::{Filtro, Partido};
use fecapa_explorer::motor::{buscar, filtrar};

fn partido(comp: &str, local: &str, visitante: &str, resultado: &str, pista: &str) -> Partido {
    Partido {
        competicion: comp.to_string(),
        data: "2024-05-11".to_string(),
        hora: "18:00".to_string(),
        local: local.to_string(),
        visitante: visitante.to_string(),
        resultado: resultado.to_string(),
        pista: pista.to_string(),
    }
}

fn filtro(nombre: &str, buscar: &str, categoria: &str) -> Filtro {
    Filtro {
        nombre: nombre.to_string(),
        buscar: buscar.to_string(),
        categoria: categoria.to_string(),
    }
}

fn lista_ejemplo() -> Vec<Partido> {
    vec![
        partido("Liga A", "Madrid", "Barcelona", "3-2", "Pista Norte"),
        partido("Liga A", "Valencia", "Sevilla", "", "Pista Sur"),
        partido("Liga B", "Girona", "Madrid B", "1-1", "Pista Este"),
    ]
}

#[test]
fn filtro_vacio_devuelve_todo() {
    let lista = lista_ejemplo();
    let visibles = filtrar(&lista, &filtro("Todos", "", ""));
    assert_eq!(visibles, lista);
}

#[test]
fn filtro_vacio_ignora_categoria() {
    // An empty query matches everything even with a non-empty category.
    let lista = lista_ejemplo();
    let visibles = filtrar(&lista, &filtro("raro", "", "Liga A"));
    assert_eq!(visibles, lista);
}

#[test]
fn busqueda_vacia_devuelve_todo() {
    let lista = lista_ejemplo();
    let visibles = buscar(&lista, "");
    assert_eq!(visibles, lista);
}

#[test]
fn busqueda_subconjunto() {
    let lista = lista_ejemplo();
    let visibles = buscar(&lista, "Madrid");
    assert_eq!(visibles.len(), 2);
    for p in &visibles {
        assert!(lista.contains(p));
    }
}

#[test]
fn busqueda_idempotente() {
    let lista = lista_ejemplo();
    let una = buscar(&lista, "pista");
    let dos = buscar(&una, "pista");
    assert_eq!(una, dos);
}

#[test]
fn busqueda_insensible_a_mayusculas() {
    let lista = lista_ejemplo();
    let gritado = buscar(&lista, "MADRID");
    let susurrado = buscar(&lista, "madrid");
    assert_eq!(gritado, susurrado);
    assert_eq!(gritado.len(), 2);
}

#[test]
fn filtro_insensible_a_mayusculas() {
    let lista = lista_ejemplo();
    let a = filtrar(&lista, &filtro("f", "VALENCIA", ""));
    let b = filtrar(&lista, &filtro("f", "valencia", ""));
    assert_eq!(a, b);
    assert_eq!(a.len(), 1);
    assert_eq!(a[0].local, "Valencia");
}

#[test]
fn filtro_categoria_excluye() {
    // "Madrid" matches the first and the third fixture, but the category
    // narrows the result to Liga A: the Liga B one is excluded.
    let lista = lista_ejemplo();
    let visibles = filtrar(&lista, &filtro("f", "Madrid", "Liga A"));
    assert_eq!(visibles.len(), 1);
    assert_eq!(visibles[0].competicion, "Liga A");
    assert_eq!(visibles[0].local, "Madrid");
}

#[test]
fn escenario_liga_a() {
    // Three fixtures, two in Liga A; querying and narrowing by "Liga A"
    // yields exactly those two.
    let lista = lista_ejemplo();
    let visibles = filtrar(&lista, &filtro("Liga A", "Liga A", "Liga A"));
    assert_eq!(visibles.len(), 2);
    assert_eq!(visibles[0].local, "Madrid");
    assert_eq!(visibles[1].local, "Valencia");
}

#[test]
fn busqueda_cubre_resultado() {
    // The search text covers the score; a filter query does not.
    let lista = lista_ejemplo();
    let encontrados = buscar(&lista, "3-2");
    assert_eq!(encontrados.len(), 1);
    assert_eq!(encontrados[0].local, "Madrid");
    let filtrados = filtrar(&lista, &filtro("f", "3-2", ""));
    assert_eq!(filtrados.len(), 0);
}

#[test]
fn busqueda_sin_aciertos() {
    let lista = lista_ejemplo();
    let visibles = buscar(&lista, "waterpolo");
    assert_eq!(visibles.len(), 0);
}

#[test]
fn busqueda_en_lista_vacia() {
    let lista: Vec<Partido> = Vec::new();
    let visibles = buscar(&lista, "Madrid");
    assert_eq!(visibles.len(), 0);
}
