//! The application state and its operations: loading, filtering,
//! searching, editing the filter registry, and the bounded polling that a
//! background refresh is observed through.

use vstd::prelude::*;
use vstd::string::*;

use crate::modelos::{es_filtro_todos, ConfirmType, Filtro, Mensaje, Partido, Vista};
use crate::motor::{buscados, filtrados};
use crate::leyes::{
    lemma_buscados_len, lemma_busqueda_vacia_identidad, lemma_filtro_vacio_identidad,
    lemma_filtrados_len,
};

verus! {

/// Milliseconds between two polls of the well-known fixture location.
pub const INTERVALO_SONDEO_MS: u64 = 500;

/// Milliseconds a refresh may keep polling before it gives up.
pub const TECHO_SONDEO_MS: u64 = 30000;

/// Rows a page-sized selection move jumps over.
pub const SALTO_PAGINA: usize = 20;

/// Fields the detail view shows for one fixture.
pub const CAMPOS_DETALLE: usize = 6;

/// The whole application state: one instance per program run, mutated
/// only through the methods below.
pub struct App {
    /// The currently visible subset, always re-derived from
    /// `todos_partidos`, never patched in place.
    pub partidos: Vec<Partido>,
    /// The full fixture list as last loaded or refreshed.
    pub todos_partidos: Vec<Partido>,
    /// The filter registry; index 0 always holds the protected "Todos"
    /// filter.
    pub filtros: Vec<Filtro>,
    pub filtro_seleccionado: usize,
    pub partido_seleccionado: usize,
    pub vista_actual: Vista,
    pub mensaje: Mensaje,
    /// A refresh is in flight: the poll loop is watching the well-known
    /// location.
    pub scraping: bool,
    /// Elapsed polling time of the refresh in flight, in milliseconds.
    pub espera_ms: u64,
    pub buscar_texto: String,
    pub confirm_type: Option<ConfirmType>,
    /// 0 answers the dialog with yes, 1 with no.
    pub confirm_seleccion: usize,
    pub detalle_seleccion: usize,
    /// The filter a pending `ConfirmType::AddFilter` dialog would add.
    pub filtro_pendiente: Option<Filtro>,
}

impl App {
    /// The internal invariant: the registry keeps the protected filter at
    /// index 0, every selection index is in bounds, the visible list never
    /// outgrows the full one, and the polling clock is a whole number of
    /// intervals under the ceiling while a refresh is in flight.  A
    /// confirmation request exists exactly while the dialog view is
    /// active, and a pending filter exactly while that request would add
    /// one.
    pub open spec fn bien_formado(self) -> bool {
        &&& self.filtros.len() >= 1
        &&& es_filtro_todos(self.filtros@[0])
        &&& self.filtro_seleccionado < self.filtros.len()
        &&& self.partidos.len() <= self.todos_partidos.len()
        &&& (self.partidos.len() == 0 ==> self.partido_seleccionado == 0)
        &&& (self.partidos.len() > 0 ==> self.partido_seleccionado < self.partidos.len())
        &&& self.confirm_seleccion < 2
        &&& self.detalle_seleccion < CAMPOS_DETALLE
        &&& self.espera_ms <= TECHO_SONDEO_MS
        &&& self.espera_ms % INTERVALO_SONDEO_MS == 0
        &&& (self.scraping ==> self.espera_ms < TECHO_SONDEO_MS)
        &&& (self.vista_actual == Vista::Confirm <==> self.confirm_type is Some)
        &&& (self.confirm_type == Some(ConfirmType::AddFilter) <==> self.filtro_pendiente is Some)
    }

    /// The filter currently selected in the registry.
    pub open spec fn filtro_actual(self) -> Filtro {
        self.filtros@[self.filtro_seleccionado as int]
    }
}

/// How one recomputation of the visible list under the selected filter
/// changes the state: everything but the visible list, the list
/// selection, and the status line stays as it was (the active view is
/// left unconstrained so that transitions can change it alongside).
pub open spec fn aplicacion_filtro(pre: App, post: App) -> bool {
    &&& post.partidos@ == filtrados(pre.todos_partidos@, pre.filtro_actual())
    &&& post.partido_seleccionado == 0
    &&& post.mensaje == (if pre.filtro_actual().buscar@.len() == 0 {
        Mensaje::MostrandoTodos(post.partidos.len())
    } else {
        Mensaje::Filtrado(post.partidos.len())
    })
    &&& post.todos_partidos == pre.todos_partidos
    &&& post.filtros == pre.filtros
    &&& post.filtro_seleccionado == pre.filtro_seleccionado
    &&& post.scraping == pre.scraping
    &&& post.espera_ms == pre.espera_ms
    &&& post.buscar_texto == pre.buscar_texto
    &&& post.confirm_type == pre.confirm_type
    &&& post.confirm_seleccion == pre.confirm_seleccion
    &&& post.detalle_seleccion == pre.detalle_seleccion
    &&& post.filtro_pendiente == pre.filtro_pendiente
}

/// How one recomputation of the visible list under the search text
/// `consulta` changes the state (the search buffer itself is left
/// unconstrained so that live typing can change it alongside).
pub open spec fn aplicacion_busqueda(pre: App, post: App, consulta: Seq<char>) -> bool {
    &&& post.partidos@ == buscados(pre.todos_partidos@, consulta)
    &&& post.partido_seleccionado == 0
    &&& post.mensaje == (if consulta.len() == 0 {
        Mensaje::MostrandoTodos(post.partidos.len())
    } else {
        Mensaje::Buscando(post.partidos.len())
    })
    &&& post.todos_partidos == pre.todos_partidos
    &&& post.filtros == pre.filtros
    &&& post.filtro_seleccionado == pre.filtro_seleccionado
    &&& post.vista_actual == pre.vista_actual
    &&& post.scraping == pre.scraping
    &&& post.espera_ms == pre.espera_ms
    &&& post.confirm_type == pre.confirm_type
    &&& post.confirm_seleccion == pre.confirm_seleccion
    &&& post.detalle_seleccion == pre.detalle_seleccion
    &&& post.filtro_pendiente == pre.filtro_pendiente
}

/// How cancelling the search changes the state: the buffer empties, the
/// full list comes back, and — as after every recomputation — the
/// selection resets (the active view is left unconstrained).
pub open spec fn reinicio_busqueda(pre: App, post: App) -> bool {
    &&& post.buscar_texto@.len() == 0
    &&& post.partidos@ == pre.todos_partidos@
    &&& post.mensaje == Mensaje::Partidos(post.partidos.len())
    &&& post.partido_seleccionado == 0
    &&& post.todos_partidos == pre.todos_partidos
    &&& post.filtros == pre.filtros
    &&& post.filtro_seleccionado == pre.filtro_seleccionado
    &&& post.scraping == pre.scraping
    &&& post.espera_ms == pre.espera_ms
    &&& post.confirm_type == pre.confirm_type
    &&& post.confirm_seleccion == pre.confirm_seleccion
    &&& post.detalle_seleccion == pre.detalle_seleccion
    &&& post.filtro_pendiente == pre.filtro_pendiente
}

/// How deleting the selected filter changes the registry and the derived
/// state.  Index 0 is protected: nothing changes there.  Otherwise the
/// entry leaves, the selection is clamped back into bounds, and the
/// visible list is re-derived under the newly selected filter.  The
/// fields of the dialog and the active view are left unconstrained.
pub open spec fn eliminacion_filtro(pre: App, post: App) -> bool {
    &&& (if pre.filtro_seleccionado == 0 {
        &&& post.filtros == pre.filtros
        &&& post.filtro_seleccionado == pre.filtro_seleccionado
        &&& post.partidos == pre.partidos
        &&& post.partido_seleccionado == pre.partido_seleccionado
        &&& post.mensaje == pre.mensaje
    } else {
        &&& post.filtros@ == pre.filtros@.remove(pre.filtro_seleccionado as int)
        &&& post.filtro_seleccionado as int == (if pre.filtro_seleccionado as int
            == pre.filtros.len() - 1 {
            pre.filtro_seleccionado - 1
        } else {
            pre.filtro_seleccionado as int
        })
        &&& post.partidos@ == filtrados(pre.todos_partidos@, post.filtro_actual())
        &&& post.partido_seleccionado == 0
        &&& post.mensaje == (if post.filtro_actual().buscar@.len() == 0 {
            Mensaje::MostrandoTodos(post.partidos.len())
        } else {
            Mensaje::Filtrado(post.partidos.len())
        })
    })
    &&& post.todos_partidos == pre.todos_partidos
    &&& post.scraping == pre.scraping
    &&& post.espera_ms == pre.espera_ms
    &&& post.buscar_texto == pre.buscar_texto
}

/// How adding the filter `f` changes the registry and the derived state:
/// `f` is appended, becomes the selection, and the visible list is
/// re-derived under it.  The fields of the dialog and the active view are
/// left unconstrained.
pub open spec fn adicion_filtro(pre: App, post: App, f: Filtro) -> bool {
    &&& post.filtros@ == pre.filtros@.push(f)
    &&& post.filtro_seleccionado == pre.filtros.len()
    &&& post.partidos@ == filtrados(pre.todos_partidos@, f)
    &&& post.partido_seleccionado == 0
    &&& post.mensaje == (if f.buscar@.len() == 0 {
        Mensaje::MostrandoTodos(post.partidos.len())
    } else {
        Mensaje::Filtrado(post.partidos.len())
    })
    &&& post.todos_partidos == pre.todos_partidos
    &&& post.scraping == pre.scraping
    &&& post.espera_ms == pre.espera_ms
    &&& post.buscar_texto == pre.buscar_texto
}

/// One poll tick that found a non-empty fixture list: the refresh ends in
/// success, the full list is replaced, and the visible list is re-derived
/// under the filter that was selected when the tick ran.
pub open spec fn sondeo_adopta(pre: App, post: App, nuevos: Seq<Partido>) -> bool {
    &&& post.todos_partidos@ == nuevos
    &&& post.partidos@ == filtrados(nuevos, pre.filtro_actual())
    &&& post.partido_seleccionado == 0
    &&& post.scraping == false
    &&& post.espera_ms == pre.espera_ms
    &&& post.mensaje == Mensaje::Guardados(post.todos_partidos.len())
    &&& post.filtros == pre.filtros
    &&& post.filtro_seleccionado == pre.filtro_seleccionado
    &&& post.vista_actual == pre.vista_actual
    &&& post.buscar_texto == pre.buscar_texto
    &&& post.confirm_type == pre.confirm_type
    &&& post.confirm_seleccion == pre.confirm_seleccion
    &&& post.detalle_seleccion == pre.detalle_seleccion
    &&& post.filtro_pendiente == pre.filtro_pendiente
}

/// One poll tick that found nothing usable: the clock advances one
/// interval; reaching the ceiling ends the refresh in a timeout, anything
/// earlier leaves it in flight.  Nothing else changes.
pub open spec fn sondeo_sin_datos(pre: App, post: App) -> bool {
    &&& post.espera_ms == pre.espera_ms + INTERVALO_SONDEO_MS
    &&& post.scraping == (pre.espera_ms + INTERVALO_SONDEO_MS < TECHO_SONDEO_MS)
    &&& post.mensaje == (if pre.espera_ms + INTERVALO_SONDEO_MS < TECHO_SONDEO_MS {
        pre.mensaje
    } else {
        Mensaje::TiempoAgotado
    })
    &&& post.partidos == pre.partidos
    &&& post.todos_partidos == pre.todos_partidos
    &&& post.filtros == pre.filtros
    &&& post.filtro_seleccionado == pre.filtro_seleccionado
    &&& post.partido_seleccionado == pre.partido_seleccionado
    &&& post.vista_actual == pre.vista_actual
    &&& post.buscar_texto == pre.buscar_texto
    &&& post.confirm_type == pre.confirm_type
    &&& post.confirm_seleccion == pre.confirm_seleccion
    &&& post.detalle_seleccion == pre.detalle_seleccion
    &&& post.filtro_pendiente == pre.filtro_pendiente
}

/// Clones a fixture list, element by element.
pub fn clonar_partidos(v: &Vec<Partido>) -> (r: Vec<Partido>)
    ensures
        r@ == v@,
{
    let r = v.clone();
    proof {
        assert forall|i: int| 0 <= i < v@.len() implies r@[i] == v@[i] by {
            assert(vstd::pervasive::cloned::<Partido>(v[i], r[i]));
        }
        assert(r@ =~= v@);
    }
    r
}

/// Decides `es_filtro_todos`.
fn es_todos_exec(f: &Filtro) -> (r: bool)
    ensures
        r == es_filtro_todos(*f),
{
    let todos = String::from_str("Todos");
    let nombre_ok = f.nombre.eq(&todos);
    nombre_ok && f.buscar.as_str().is_empty() && f.categoria.as_str().is_empty()
}

impl App {
    /// Builds the initial state from the loaded filter registry and the
    /// loaded fixture list.  If the registry does not already carry the
    /// protected "Todos" filter at index 0, one is synthesized there; the
    /// rest of the registry is kept as loaded.
    pub fn new(filtros_cargados: Vec<Filtro>, partidos_cargados: Vec<Partido>) -> (app: App)
        ensures
            app.bien_formado(),
            app.todos_partidos@ == partidos_cargados@,
            app.partidos@ == partidos_cargados@,
            (filtros_cargados@.len() > 0 && es_filtro_todos(filtros_cargados@[0])) ==> app.filtros@
                == filtros_cargados@,
            !(filtros_cargados@.len() > 0 && es_filtro_todos(filtros_cargados@[0])) ==> {
                &&& app.filtros@.len() == filtros_cargados@.len() + 1
                &&& es_filtro_todos(app.filtros@[0])
                &&& app.filtros@.skip(1) == filtros_cargados@
            },
            app.filtro_seleccionado == 0,
            app.partido_seleccionado == 0,
            app.vista_actual == Vista::Partidos,
            app.mensaje == Mensaje::Cargados(partidos_cargados@.len() as usize),
            app.scraping == false,
            app.espera_ms == 0,
            app.buscar_texto@.len() == 0,
            app.confirm_type is None,
            app.confirm_seleccion == 1,
            app.detalle_seleccion == 0,
            app.filtro_pendiente is None,
    {
        let mut filtros = filtros_cargados;
        let necesita_todos = if filtros.len() == 0 {
            true
        } else {
            !es_todos_exec(&filtros[0])
        };
        if necesita_todos {
            filtros.insert(
                0,
                Filtro {
                    nombre: String::from_str("Todos"),
                    buscar: String::new(),
                    categoria: String::new(),
                },
            );
            proof {
                assert(filtros@.skip(1) =~= filtros_cargados@);
            }
        }
        let num_partidos = partidos_cargados.len();
        let partidos = clonar_partidos(&partidos_cargados);
        App {
            partidos,
            todos_partidos: partidos_cargados,
            filtros,
            filtro_seleccionado: 0,
            partido_seleccionado: 0,
            vista_actual: Vista::Partidos,
            mensaje: Mensaje::Cargados(num_partidos),
            scraping: false,
            espera_ms: 0,
            buscar_texto: String::new(),
            confirm_type: None,
            confirm_seleccion: 1,
            detalle_seleccion: 0,
            filtro_pendiente: None,
        }
    }

    /// Re-derives the visible list from the full list under the selected
    /// filter, always from the full list so that stale results never
    /// compound.  The selection resets and the status line reports the
    /// count.
    pub fn aplicar_filtro(&mut self)
        requires
            old(self).bien_formado(),
        ensures
            final(self).bien_formado(),
            aplicacion_filtro(*old(self), *final(self)),
            final(self).vista_actual == old(self).vista_actual,
    {
        let vacio = self.filtros[self.filtro_seleccionado].buscar.as_str().is_empty();
        if vacio {
            self.partidos = clonar_partidos(&self.todos_partidos);
            proof {
                lemma_filtro_vacio_identidad(self.todos_partidos@, self.filtro_actual());
            }
            self.mensaje = Mensaje::MostrandoTodos(self.partidos.len());
        } else {
            let visibles = crate::motor::filtrar(
                &self.todos_partidos,
                &self.filtros[self.filtro_seleccionado],
            );
            proof {
                lemma_filtrados_len(self.todos_partidos@, self.filtro_actual());
            }
            self.partidos = visibles;
            self.mensaje = Mensaje::Filtrado(self.partidos.len());
        }
        self.partido_seleccionado = 0;
    }

    /// Adopts a freshly loaded full list and re-derives the visible list
    /// under the selected filter.
    pub fn recargar_datos(&mut self, nuevos: Vec<Partido>)
        requires
            old(self).bien_formado(),
        ensures
            final(self).bien_formado(),
            final(self).todos_partidos@ == nuevos@,
            final(self).partidos@ == filtrados(nuevos@, old(self).filtro_actual()),
            final(self).partido_seleccionado == 0,
            final(self).mensaje == (if old(self).filtro_actual().buscar@.len() == 0 {
                Mensaje::MostrandoTodos(final(self).partidos.len())
            } else {
                Mensaje::Filtrado(final(self).partidos.len())
            }),
            final(self).filtros == old(self).filtros,
            final(self).filtro_seleccionado == old(self).filtro_seleccionado,
            final(self).vista_actual == old(self).vista_actual,
            final(self).scraping == old(self).scraping,
            final(self).espera_ms == old(self).espera_ms,
            final(self).buscar_texto == old(self).buscar_texto,
            final(self).confirm_type == old(self).confirm_type,
            final(self).confirm_seleccion == old(self).confirm_seleccion,
            final(self).detalle_seleccion == old(self).detalle_seleccion,
            final(self).filtro_pendiente == old(self).filtro_pendiente,
    {
        self.todos_partidos = nuevos;
        self.partidos = clonar_partidos(&self.todos_partidos);
        self.partido_seleccionado = 0;
        self.aplicar_filtro();
    }

    /// Re-derives the visible list from the full list under the search
    /// buffer, live on every edit.
    pub fn aplicar_busqueda(&mut self)
        requires
            old(self).bien_formado(),
        ensures
            final(self).bien_formado(),
            aplicacion_busqueda(*old(self), *final(self), old(self).buscar_texto@),
            final(self).buscar_texto == old(self).buscar_texto,
    {
        let vacio = self.buscar_texto.as_str().is_empty();
        if vacio {
            self.partidos = clonar_partidos(&self.todos_partidos);
            proof {
                lemma_busqueda_vacia_identidad(self.todos_partidos@, self.buscar_texto@);
            }
            self.mensaje = Mensaje::MostrandoTodos(self.partidos.len());
        } else {
            let visibles = crate::motor::buscar(&self.todos_partidos, self.buscar_texto.as_str());
            proof {
                lemma_buscados_len(self.todos_partidos@, self.buscar_texto@);
            }
            self.partidos = visibles;
            self.mensaje = Mensaje::Buscando(self.partidos.len());
        }
        self.partido_seleccionado = 0;
    }

    /// Cancels the search: clears the buffer, shows the full list again,
    /// and resets the selection.
    pub fn reset_busqueda(&mut self)
        requires
            old(self).bien_formado(),
        ensures
            final(self).bien_formado(),
            reinicio_busqueda(*old(self), *final(self)),
            final(self).vista_actual == old(self).vista_actual,
    {
        self.buscar_texto = String::new();
        self.partidos = clonar_partidos(&self.todos_partidos);
        self.partido_seleccionado = 0;
        self.mensaje = Mensaje::Partidos(self.partidos.len());
    }

    /// Deletes the selected filter.  Index 0 — the protected "Todos"
    /// filter — is never deleted: the call is then a no-op.  Otherwise
    /// the selection is clamped back into bounds and the visible list is
    /// re-derived under the newly selected filter.
    pub fn eliminar_filtro(&mut self)
        requires
            old(self).bien_formado(),
        ensures
            final(self).bien_formado(),
            eliminacion_filtro(*old(self), *final(self)),
            old(self).filtro_seleccionado == 0 ==> *final(self) == *old(self),
            final(self).vista_actual == old(self).vista_actual,
            final(self).confirm_type == old(self).confirm_type,
            final(self).confirm_seleccion == old(self).confirm_seleccion,
            final(self).detalle_seleccion == old(self).detalle_seleccion,
            final(self).filtro_pendiente == old(self).filtro_pendiente,
    {
        if self.filtro_seleccionado == 0 {
            return ;
        }
        self.filtros.remove(self.filtro_seleccionado);
        if self.filtro_seleccionado >= self.filtros.len() {
            self.filtro_seleccionado = self.filtros.len() - 1;
        }
        self.aplicar_filtro();
    }

    /// Appends a new filter built from the three given fields, selects
    /// it, and re-derives the visible list under it.
    pub fn agregar_filtro(&mut self, nombre: String, buscar: String, categoria: String)
        requires
            old(self).bien_formado(),
        ensures
            final(self).bien_formado(),
            adicion_filtro(*old(self), *final(self), Filtro { nombre, buscar, categoria }),
            final(self).vista_actual == old(self).vista_actual,
            final(self).confirm_type == old(self).confirm_type,
            final(self).confirm_seleccion == old(self).confirm_seleccion,
            final(self).detalle_seleccion == old(self).detalle_seleccion,
            final(self).filtro_pendiente == old(self).filtro_pendiente,
    {
        let nuevo = Filtro { nombre, buscar, categoria };
        self.filtros.push(nuevo);
        self.filtro_seleccionado = self.filtros.len() - 1;
        self.aplicar_filtro();
    }

    /// Starts a refresh.  If one is already in flight the state does not
    /// change at all and the caller is told not to launch anything; at
    /// most one refresh runs at a time.
    pub fn iniciar_refresco(&mut self) -> (lanzado: bool)
        requires
            old(self).bien_formado(),
        ensures
            final(self).bien_formado(),
            old(self).scraping ==> (*final(self) == *old(self) && !lanzado),
            !old(self).scraping ==> (lanzado && *final(self) == App {
                scraping: true,
                espera_ms: 0,
                ..*old(self)
            }),
    {
        if self.scraping {
            return false;
        }
        self.scraping = true;
        self.espera_ms = 0;
        true
    }

    /// One poll tick that found nothing usable yet.
    fn avanzar_sondeo(&mut self)
        requires
            old(self).bien_formado(),
            old(self).scraping,
        ensures
            final(self).bien_formado(),
            sondeo_sin_datos(*old(self), *final(self)),
    {
        proof {
            assert(old(self).espera_ms + INTERVALO_SONDEO_MS <= TECHO_SONDEO_MS);
        }
        self.espera_ms = self.espera_ms + INTERVALO_SONDEO_MS;
        if self.espera_ms >= TECHO_SONDEO_MS {
            self.scraping = false;
            self.mensaje = Mensaje::TiempoAgotado;
        }
    }

    /// One poll tick of a refresh in flight, fed with whatever the
    /// well-known location yielded: a non-empty list is adopted and ends
    /// the refresh in success; a missing, malformed or empty list only
    /// advances the clock, which ends the refresh in a timeout once the
    /// ceiling is reached.
    pub fn tic_sondeo(&mut self, carga: Option<Vec<Partido>>)
        requires
            old(self).bien_formado(),
            old(self).scraping,
        ensures
            final(self).bien_formado(),
            match carga {
                Some(nuevos) => if nuevos@.len() > 0 {
                    sondeo_adopta(*old(self), *final(self), nuevos@)
                } else {
                    sondeo_sin_datos(*old(self), *final(self))
                },
                None => sondeo_sin_datos(*old(self), *final(self)),
            },
    {
        match carga {
            Some(nuevos) => {
                if nuevos.len() > 0 {
                    let visibles = crate::motor::filtrar(
                        &nuevos,
                        &self.filtros[self.filtro_seleccionado],
                    );
                    proof {
                        lemma_filtrados_len(nuevos@, self.filtro_actual());
                    }
                    self.todos_partidos = nuevos;
                    self.partidos = visibles;
                    self.partido_seleccionado = 0;
                    self.scraping = false;
                    self.mensaje = Mensaje::Guardados(self.todos_partidos.len());
                } else {
                    self.avanzar_sondeo();
                }
            },
            None => {
                self.avanzar_sondeo();
            },
        }
    }
}

} // verus!
