//! The data model: fixtures, filters, views and the commands and effects
//! that drive the state machine.

use vstd::prelude::*;

verus! {

/// One scheduled or completed match record.  All fields are free text; an
/// empty `resultado` means the match has not been played yet.  A fixture has
/// no stable identity beyond its position in the loaded list.
#[derive(Debug, PartialEq, Eq)]
pub struct Partido {
    pub competicion: String,
    pub data: String,
    pub hora: String,
    pub local: String,
    pub visitante: String,
    pub resultado: String,
    pub pista: String,
}

impl Clone for Partido {
    fn clone(&self) -> (res: Self)
        ensures
            res == *self,
    {
        Partido {
            competicion: self.competicion.clone(),
            data: self.data.clone(),
            hora: self.hora.clone(),
            local: self.local.clone(),
            visitante: self.visitante.clone(),
            resultado: self.resultado.clone(),
            pista: self.pista.clone(),
        }
    }
}

/// A named, persisted predicate over fixtures.  An empty `buscar` matches
/// every fixture, whatever `categoria` holds; a non-empty `buscar` is a
/// case-insensitive containment query, optionally narrowed by `categoria`.
#[derive(Debug, PartialEq, Eq)]
pub struct Filtro {
    pub nombre: String,
    pub buscar: String,
    pub categoria: String,
}

impl Clone for Filtro {
    fn clone(&self) -> (res: Self)
        ensures
            res == *self,
    {
        Filtro {
            nombre: self.nombre.clone(),
            buscar: self.buscar.clone(),
            categoria: self.categoria.clone(),
        }
    }
}

/// The shape of the persisted filter registry.
#[derive(Debug, PartialEq, Eq)]
pub struct EquipoConfig {
    pub filtros: Vec<Filtro>,
}

/// The protected filter at index 0 of every well-formed registry: named
/// "Todos", with an empty query and an empty category.
pub open spec fn es_filtro_todos(f: Filtro) -> bool {
    &&& f.nombre@ == "Todos"@
    &&& f.buscar@.len() == 0
    &&& f.categoria@.len() == 0
}

/// The modal views.  Exactly one is active at a time.
#[derive(Clone, Copy, Debug, PartialEq, Eq, Structural)]
pub enum Vista {
    Partidos,
    Filtros,
    Detalles,
    Buscar,
    Confirm,
    Help,
}

impl Default for Vista {
    /// The fixture list is the view a fresh session starts in.
    fn default() -> (v: Self)
        ensures
            v == Vista::Partidos,
    {
        Vista::Partidos
    }
}

/// What a pending confirmation dialog would do when answered with "yes".
#[derive(Clone, Copy, Debug, PartialEq, Eq, Structural)]
pub enum ConfirmType {
    DeleteFilter,
    AddFilter,
}

/// The status line, as structured data.  Rendering it to text is the
/// caller's concern; every variant that reports a count carries it.
#[derive(Clone, Copy, Debug, PartialEq, Eq, Structural)]
pub enum Mensaje {
    /// The initial load yielded this many fixtures.
    Cargados(usize),
    /// An empty filter query or empty search shows the full list.
    MostrandoTodos(usize),
    /// The selected filter left this many fixtures visible.
    Filtrado(usize),
    /// The live search left this many fixtures visible.
    Buscando(usize),
    /// The search was cancelled; the full list is back.
    Partidos(usize),
    /// A refresh adopted a new full list of this many fixtures.
    Guardados(usize),
    /// A refresh reached the polling ceiling without usable data.
    TiempoAgotado,
}

/// One discrete command, produced from one input event.  Which commands are
/// meaningful depends on the active view; the rest are ignored there.
#[derive(Clone, Copy, Debug, PartialEq, Eq)]
pub enum Comando {
    AbrirFiltros,
    AbrirBusqueda,
    AbrirDetalle,
    AbrirAyuda,
    Refrescar,
    Salir,
    SeleccionArriba,
    SeleccionAbajo,
    PaginaArriba,
    PaginaAbajo,
    Confirmar,
    Cancelar,
    PedirEliminar,
    FiltroDesdeLocal,
    FiltroDesdeCompeticion,
    Escribir(char),
    Borrar,
    AlternarOpcion,
}

/// What the caller has to do after a command was processed: nothing, end
/// the program, launch the background refresh, or persist the filter
/// registry (best effort).
#[derive(Clone, Copy, Debug, PartialEq, Eq, Structural)]
pub enum Efecto {
    Ninguno,
    Salir,
    LanzarRefresco,
    GuardarFiltros,
}

} // verus!
