//! Tests of the view state machine: one command per input event, driven
//! through `procesar_comando`.

use fecapa_explorer::estado::App;
use fecapa_explorer::modelos::{Comando, ConfirmType, Efecto, Filtro, Partido, Vista};

fn partido(comp: &str, local: &str, visitante: &str, resultado: &str, pista: &str) -> Partido {
    Partido {
        competicion: comp.to_string(),
        data: "2024-05-11".to_string(),
        hora: "18:00".to_string(),
        local: local.to_string(),
        visitante: visitante.to_string(),
        resultado: resultado.to_string(),
        pista: pista.to_string(),
    }
}

fn filtro(nombre: &str, buscar: &str, categoria: &str) -> Filtro {
    Filtro {
        nombre: nombre.to_string(),
        buscar: buscar.to_string(),
        categoria: categoria.to_string(),
    }
}

fn filtro_todos() -> Filtro {
    filtro("Todos", "", "")
}

fn lista_ejemplo() -> Vec<Partido> {
    vec![
        partido("Liga A", "Madrid", "Barcelona", "3-2", "Pista Norte"),
        partido("Liga A", "Valencia", "Sevilla", "", "Pista Sur"),
        partido("Liga B", "Girona", "Madrid B", "1-1", "Pista Este"),
    ]
}

fn lista_larga(n: usize) -> Vec<Partido> {
    let mut lista = Vec::new();
    for i in 0..n {
        lista.push(partido("Liga A", &format!("Equipo {}", i), "Rival", "", "Pista"));
    }
    lista
}

#[test]
fn abrir_y_confirmar_filtro() {
    let cargados = vec![filtro_todos(), filtro("B", "Liga B", "")];
    let mut app = App::new(cargados, lista_ejemplo());
    let e = app.procesar_comando(Comando::AbrirFiltros);
    assert_eq!(e, Efecto::Ninguno);
    assert_eq!(app.vista_actual, Vista::Filtros);
    app.procesar_comando(Comando::SeleccionAbajo);
    assert_eq!(app.filtro_seleccionado, 1);
    app.procesar_comando(Comando::Confirmar);
    assert_eq!(app.vista_actual, Vista::Partidos);
    assert_eq!(app.partidos.len(), 1);
    assert_eq!(app.partidos[0].competicion, "Liga B");
}

#[test]
fn busqueda_en_vivo_por_teclas() {
    let mut app = App::new(Vec::new(), lista_ejemplo());
    app.procesar_comando(Comando::AbrirBusqueda);
    assert_eq!(app.vista_actual, Vista::Buscar);
    assert_eq!(app.buscar_texto, "");
    app.procesar_comando(Comando::Escribir('g'));
    app.procesar_comando(Comando::Escribir('i'));
    assert_eq!(app.buscar_texto, "gi");
    assert_eq!(app.partidos.len(), 1);
    assert_eq!(app.partidos[0].local, "Girona");
    app.procesar_comando(Comando::Borrar);
    assert_eq!(app.buscar_texto, "g");
    // "g" also matches the "Liga" in every competition name.
    assert_eq!(app.partidos.len(), 3);
    app.procesar_comando(Comando::Confirmar);
    assert_eq!(app.vista_actual, Vista::Partidos);
    assert_eq!(app.partidos.len(), 3);
}

#[test]
fn cancelar_busqueda_restaura() {
    let mut app = App::new(Vec::new(), lista_ejemplo());
    app.procesar_comando(Comando::AbrirBusqueda);
    app.procesar_comando(Comando::Escribir('x'));
    assert_eq!(app.partidos.len(), 0);
    app.procesar_comando(Comando::Cancelar);
    assert_eq!(app.vista_actual, Vista::Partidos);
    assert_eq!(app.buscar_texto, "");
    assert_eq!(app.partidos, lista_ejemplo());
}

#[test]
fn borrar_en_busqueda_vacia_no_rompe() {
    let mut app = App::new(Vec::new(), lista_ejemplo());
    app.procesar_comando(Comando::AbrirBusqueda);
    app.procesar_comando(Comando::Borrar);
    assert_eq!(app.buscar_texto, "");
    assert_eq!(app.partidos, lista_ejemplo());
}

#[test]
fn eliminar_filtro_con_dialogo() {
    let cargados = vec![filtro_todos(), filtro("A", "Liga A", "")];
    let mut app = App::new(cargados, lista_ejemplo());
    app.procesar_comando(Comando::AbrirFiltros);
    app.procesar_comando(Comando::SeleccionAbajo);
    app.procesar_comando(Comando::PedirEliminar);
    assert_eq!(app.vista_actual, Vista::Confirm);
    assert_eq!(app.confirm_type, Some(ConfirmType::DeleteFilter));
    // The dialog starts on "no"; flip to "yes" and confirm.
    assert_eq!(app.confirm_seleccion, 1);
    app.procesar_comando(Comando::AlternarOpcion);
    assert_eq!(app.confirm_seleccion, 0);
    let e = app.procesar_comando(Comando::Confirmar);
    assert_eq!(e, Efecto::GuardarFiltros);
    assert_eq!(app.vista_actual, Vista::Partidos);
    assert_eq!(app.filtros.len(), 1);
    assert_eq!(app.confirm_type, None);
}

#[test]
fn dialogo_respondido_con_no_descarta() {
    let cargados = vec![filtro_todos(), filtro("A", "Liga A", "")];
    let mut app = App::new(cargados.clone(), lista_ejemplo());
    app.procesar_comando(Comando::AbrirFiltros);
    app.procesar_comando(Comando::SeleccionAbajo);
    app.procesar_comando(Comando::PedirEliminar);
    let e = app.procesar_comando(Comando::Confirmar);
    assert_eq!(e, Efecto::Ninguno);
    assert_eq!(app.vista_actual, Vista::Filtros);
    assert_eq!(app.filtros, cargados);
    assert_eq!(app.confirm_type, None);
}

#[test]
fn proteger_todos_sin_dialogo() {
    // Requesting a deletion at index 0 never opens the dialog.
    let mut app = App::new(Vec::new(), lista_ejemplo());
    app.procesar_comando(Comando::AbrirFiltros);
    app.procesar_comando(Comando::PedirEliminar);
    assert_eq!(app.vista_actual, Vista::Filtros);
    assert_eq!(app.confirm_type, None);
}

#[test]
fn agregar_filtro_desde_detalle() {
    let mut app = App::new(Vec::new(), lista_ejemplo());
    app.procesar_comando(Comando::AbrirDetalle);
    assert_eq!(app.vista_actual, Vista::Detalles);
    app.procesar_comando(Comando::FiltroDesdeLocal);
    assert_eq!(app.vista_actual, Vista::Confirm);
    assert_eq!(app.confirm_type, Some(ConfirmType::AddFilter));
    app.procesar_comando(Comando::AlternarOpcion);
    let e = app.procesar_comando(Comando::Confirmar);
    assert_eq!(e, Efecto::GuardarFiltros);
    assert_eq!(app.vista_actual, Vista::Partidos);
    assert_eq!(app.filtros.len(), 2);
    assert_eq!(app.filtros[1].nombre, "Madrid");
    assert_eq!(app.filtros[1].buscar, "Madrid");
    assert_eq!(app.filtros[1].categoria, "");
    // The new filter was applied at once.
    assert_eq!(app.partidos.len(), 2);
}

#[test]
fn agregar_competicion_desde_detalle() {
    let mut app = App::new(Vec::new(), lista_ejemplo());
    app.procesar_comando(Comando::SeleccionAbajo);
    app.procesar_comando(Comando::SeleccionAbajo);
    app.procesar_comando(Comando::AbrirDetalle);
    app.procesar_comando(Comando::FiltroDesdeCompeticion);
    app.procesar_comando(Comando::AlternarOpcion);
    let e = app.procesar_comando(Comando::Confirmar);
    assert_eq!(e, Efecto::GuardarFiltros);
    assert_eq!(app.filtros[1].nombre, "Liga B");
    assert_eq!(app.filtros[1].categoria, "Liga B");
    assert_eq!(app.partidos.len(), 1);
}

#[test]
fn ayuda_desde_cualquier_vista() {
    let mut app = App::new(Vec::new(), lista_ejemplo());
    app.procesar_comando(Comando::AbrirAyuda);
    assert_eq!(app.vista_actual, Vista::Help);
    app.procesar_comando(Comando::Cancelar);
    assert_eq!(app.vista_actual, Vista::Partidos);
    app.procesar_comando(Comando::AbrirFiltros);
    app.procesar_comando(Comando::AbrirAyuda);
    assert_eq!(app.vista_actual, Vista::Help);
}

#[test]
fn salir_solo_desde_partidos() {
    let mut app = App::new(Vec::new(), lista_ejemplo());
    app.procesar_comando(Comando::AbrirFiltros);
    let e = app.procesar_comando(Comando::Salir);
    assert_eq!(e, Efecto::Ninguno);
    app.procesar_comando(Comando::Cancelar);
    let e2 = app.procesar_comando(Comando::Salir);
    assert_eq!(e2, Efecto::Salir);
}

#[test]
fn seleccion_se_mantiene_en_limites() {
    let mut app = App::new(Vec::new(), lista_ejemplo());
    app.procesar_comando(Comando::SeleccionArriba);
    assert_eq!(app.partido_seleccionado, 0);
    app.procesar_comando(Comando::SeleccionAbajo);
    app.procesar_comando(Comando::SeleccionAbajo);
    app.procesar_comando(Comando::SeleccionAbajo);
    assert_eq!(app.partido_seleccionado, 2);
}

#[test]
fn paginacion_satura_en_los_bordes() {
    let mut app = App::new(Vec::new(), lista_larga(50));
    app.procesar_comando(Comando::PaginaAbajo);
    assert_eq!(app.partido_seleccionado, 20);
    app.procesar_comando(Comando::PaginaAbajo);
    assert_eq!(app.partido_seleccionado, 40);
    app.procesar_comando(Comando::PaginaAbajo);
    assert_eq!(app.partido_seleccionado, 49);
    app.procesar_comando(Comando::PaginaArriba);
    assert_eq!(app.partido_seleccionado, 29);
}

#[test]
fn seleccion_en_lista_vacia() {
    let mut app = App::new(Vec::new(), Vec::new());
    app.procesar_comando(Comando::SeleccionAbajo);
    assert_eq!(app.partido_seleccionado, 0);
    app.procesar_comando(Comando::PaginaAbajo);
    assert_eq!(app.partido_seleccionado, 0);
}

#[test]
fn detalle_navega_sus_campos() {
    let mut app = App::new(Vec::new(), lista_ejemplo());
    app.procesar_comando(Comando::AbrirDetalle);
    assert_eq!(app.detalle_seleccion, 0);
    for _ in 0..10 {
        app.procesar_comando(Comando::SeleccionAbajo);
    }
    assert_eq!(app.detalle_seleccion, 5);
    app.procesar_comando(Comando::Cancelar);
    assert_eq!(app.vista_actual, Vista::Partidos);
}
