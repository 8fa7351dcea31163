//! The view state machine: which command does what in which view.
//!
//! Each view has a transition relation stating, per command, the next
//! state and the effect handed back to the caller; `App::procesar_comando`
//! is verified against the relation of the active view.  Commands that a
//! view gives no meaning to leave the state untouched.

use vstd::prelude::*;

use crate::estado::{
    adicion_filtro, aplicacion_busqueda, aplicacion_filtro, eliminacion_filtro,
    reinicio_busqueda, App, CAMPOS_DETALLE, SALTO_PAGINA,
};
use crate::modelos::{Comando, ConfirmType, Efecto, Filtro, Vista};

verus! {

/// A selection index after an upward move of `salto` rows, saturating at
/// the top.
pub open spec fn sel_arriba(sel: int, salto: int) -> int {
    if sel >= salto {
        sel - salto
    } else {
        0
    }
}

/// A selection index after a downward move of `salto` rows over a list of
/// `len` rows, saturating at the bottom.
pub open spec fn sel_abajo(sel: int, len: int, salto: int) -> int {
    if len == 0 {
        0
    } else if sel + salto <= len - 1 {
        sel + salto
    } else {
        len - 1
    }
}

/// Moves a selection up by `salto`, saturating at 0.
fn mover_arriba(sel: usize, salto: usize) -> (r: usize)
    ensures
        r as int == sel_arriba(sel as int, salto as int),
{
    if sel >= salto {
        sel - salto
    } else {
        0
    }
}

/// Moves a selection down by `salto` over `len` rows, saturating at the
/// last row.
fn mover_abajo(sel: usize, len: usize, salto: usize) -> (r: usize)
    requires
        len == 0 ==> sel == 0,
        len > 0 ==> sel < len,
    ensures
        r as int == sel_abajo(sel as int, len as int, salto as int),
{
    if len == 0 {
        0
    } else {
        let resto = len - 1 - sel;
        if salto <= resto {
            sel + salto
        } else {
            len - 1
        }
    }
}

/// Relies on String::push: appends the character to the end.
#[verifier::external_body]
fn anexar_char(s: &mut String, c: char)
    ensures
        final(s)@ == old(s)@.push(c),
{
    s.push(c);
}

/// Relies on String::pop: removes the last character; an empty string
/// stays empty.
#[verifier::external_body]
fn quitar_ultimo_char(s: &mut String)
    ensures
        old(s)@.len() == 0 ==> final(s)@ == old(s)@,
        old(s)@.len() > 0 ==> final(s)@ == old(s)@.drop_last(),
{
    s.pop();
}

/// Discarding a confirmation dialog: the request and any pending filter
/// are dropped, and the view returns to where the dialog came from — the
/// filter list for a deletion, the fixture list otherwise.
pub open spec fn descarte_confirmacion(pre: App, post: App) -> bool {
    &&& post.confirm_type is None
    &&& post.filtro_pendiente is None
    &&& post == App {
        vista_actual: match pre.confirm_type {
            Some(ConfirmType::DeleteFilter) => Vista::Filtros,
            _ => Vista::Partidos,
        },
        confirm_type: post.confirm_type,
        filtro_pendiente: post.filtro_pendiente,
        ..pre
    }
}

/// The fixture-list view.
pub open spec fn transicion_partidos(pre: App, post: App, c: Comando, e: Efecto) -> bool {
    match c {
        Comando::AbrirFiltros => post == App { vista_actual: Vista::Filtros, ..pre } && e
            == Efecto::Ninguno,
        Comando::AbrirBusqueda => post.buscar_texto@.len() == 0 && post == App {
            vista_actual: Vista::Buscar,
            buscar_texto: post.buscar_texto,
            ..pre
        } && e == Efecto::Ninguno,
        Comando::AbrirDetalle => post == App {
            vista_actual: Vista::Detalles,
            detalle_seleccion: 0,
            ..pre
        } && e == Efecto::Ninguno,
        Comando::AbrirAyuda => post == App { vista_actual: Vista::Help, ..pre } && e
            == Efecto::Ninguno,
        Comando::Refrescar => if pre.scraping {
            post == pre && e == Efecto::Ninguno
        } else {
            post == App { scraping: true, espera_ms: 0, ..pre } && e == Efecto::LanzarRefresco
        },
        Comando::Salir => post == pre && e == Efecto::Salir,
        Comando::SeleccionArriba => post.partido_seleccionado as int == sel_arriba(
            pre.partido_seleccionado as int,
            1,
        ) && post == App { partido_seleccionado: post.partido_seleccionado, ..pre } && e
            == Efecto::Ninguno,
        Comando::SeleccionAbajo => post.partido_seleccionado as int == sel_abajo(
            pre.partido_seleccionado as int,
            pre.partidos.len() as int,
            1,
        ) && post == App { partido_seleccionado: post.partido_seleccionado, ..pre } && e
            == Efecto::Ninguno,
        Comando::PaginaArriba => post.partido_seleccionado as int == sel_arriba(
            pre.partido_seleccionado as int,
            SALTO_PAGINA as int,
        ) && post == App { partido_seleccionado: post.partido_seleccionado, ..pre } && e
            == Efecto::Ninguno,
        Comando::PaginaAbajo => post.partido_seleccionado as int == sel_abajo(
            pre.partido_seleccionado as int,
            pre.partidos.len() as int,
            SALTO_PAGINA as int,
        ) && post == App { partido_seleccionado: post.partido_seleccionado, ..pre } && e
            == Efecto::Ninguno,
        _ => post == pre && e == Efecto::Ninguno,
    }
}

/// The filter-list view.
pub open spec fn transicion_filtros(pre: App, post: App, c: Comando, e: Efecto) -> bool {
    match c {
        Comando::Confirmar => aplicacion_filtro(pre, post) && post.vista_actual == Vista::Partidos
            && e == Efecto::Ninguno,
        Comando::Cancelar => post == App { vista_actual: Vista::Partidos, ..pre } && e
            == Efecto::Ninguno,
        Comando::AbrirAyuda => post == App { vista_actual: Vista::Help, ..pre } && e
            == Efecto::Ninguno,
        Comando::SeleccionArriba => post.filtro_seleccionado as int == sel_arriba(
            pre.filtro_seleccionado as int,
            1,
        ) && post == App { filtro_seleccionado: post.filtro_seleccionado, ..pre } && e
            == Efecto::Ninguno,
        Comando::SeleccionAbajo => post.filtro_seleccionado as int == sel_abajo(
            pre.filtro_seleccionado as int,
            pre.filtros.len() as int,
            1,
        ) && post == App { filtro_seleccionado: post.filtro_seleccionado, ..pre } && e
            == Efecto::Ninguno,
        Comando::PedirEliminar => if pre.filtro_seleccionado > 0 {
            post == App {
                vista_actual: Vista::Confirm,
                confirm_type: Some(ConfirmType::DeleteFilter),
                confirm_seleccion: 1,
                ..pre
            } && e == Efecto::Ninguno
        } else {
            post == pre && e == Efecto::Ninguno
        },
        _ => post == pre && e == Efecto::Ninguno,
    }
}

/// The detail view.  Either "add as filter" command opens a confirmation
/// dialog carrying the filter it would add, built from the selected
/// fixture's field.
pub open spec fn transicion_detalles(pre: App, post: App, c: Comando, e: Efecto) -> bool {
    match c {
        Comando::Cancelar => post == App { vista_actual: Vista::Partidos, ..pre } && e
            == Efecto::Ninguno,
        Comando::AbrirAyuda => post == App { vista_actual: Vista::Help, ..pre } && e
            == Efecto::Ninguno,
        Comando::SeleccionArriba => post.detalle_seleccion as int == sel_arriba(
            pre.detalle_seleccion as int,
            1,
        ) && post == App { detalle_seleccion: post.detalle_seleccion, ..pre } && e
            == Efecto::Ninguno,
        Comando::SeleccionAbajo => post.detalle_seleccion as int == sel_abajo(
            pre.detalle_seleccion as int,
            CAMPOS_DETALLE as int,
            1,
        ) && post == App { detalle_seleccion: post.detalle_seleccion, ..pre } && e
            == Efecto::Ninguno,
        Comando::FiltroDesdeLocal => if pre.partido_seleccionado < pre.partidos.len() {
            post == App {
                vista_actual: Vista::Confirm,
                confirm_type: Some(ConfirmType::AddFilter),
                confirm_seleccion: 1,
                filtro_pendiente: post.filtro_pendiente,
                ..pre
            } && (match post.filtro_pendiente {
                Some(f) => {
                    let p = pre.partidos@[pre.partido_seleccionado as int];
                    f.nombre@ == p.local@ && f.buscar@ == p.local@ && f.categoria@.len() == 0
                },
                None => false,
            }) && e == Efecto::Ninguno
        } else {
            post == pre && e == Efecto::Ninguno
        },
        Comando::FiltroDesdeCompeticion => if pre.partido_seleccionado < pre.partidos.len() {
            post == App {
                vista_actual: Vista::Confirm,
                confirm_type: Some(ConfirmType::AddFilter),
                confirm_seleccion: 1,
                filtro_pendiente: post.filtro_pendiente,
                ..pre
            } && (match post.filtro_pendiente {
                Some(f) => {
                    let p = pre.partidos@[pre.partido_seleccionado as int];
                    f.nombre@ == p.competicion@ && f.buscar@ == p.competicion@ && f.categoria@
                        == p.competicion@
                },
                None => false,
            }) && e == Efecto::Ninguno
        } else {
            post == pre && e == Efecto::Ninguno
        },
        _ => post == pre && e == Efecto::Ninguno,
    }
}

/// The search-input view: typing edits the buffer and re-derives the
/// visible list live; cancelling clears both.
pub open spec fn transicion_buscar(pre: App, post: App, c: Comando, e: Efecto) -> bool {
    match c {
        Comando::Escribir(ch) => post.buscar_texto@ == pre.buscar_texto@.push(ch)
            && aplicacion_busqueda(pre, post, pre.buscar_texto@.push(ch)) && e == Efecto::Ninguno,
        Comando::Borrar => {
            let q = if pre.buscar_texto@.len() == 0 {
                pre.buscar_texto@
            } else {
                pre.buscar_texto@.drop_last()
            };
            post.buscar_texto@ == q && aplicacion_busqueda(pre, post, q) && e == Efecto::Ninguno
        },
        Comando::Confirmar => post == App { vista_actual: Vista::Partidos, ..pre } && e
            == Efecto::Ninguno,
        Comando::Cancelar => reinicio_busqueda(pre, post) && post.vista_actual == Vista::Partidos
            && e == Efecto::Ninguno,
        Comando::AbrirAyuda => post == App { vista_actual: Vista::Help, ..pre } && e
            == Efecto::Ninguno,
        _ => post == pre && e == Efecto::Ninguno,
    }
}

/// The confirmation dialog.  Answering yes executes the pending request
/// and asks the caller to persist the registry; answering no, or
/// cancelling, discards it.
pub open spec fn transicion_confirm(pre: App, post: App, c: Comando, e: Efecto) -> bool {
    match c {
        Comando::AlternarOpcion => post.confirm_seleccion as int == (if pre.confirm_seleccion == 0 {
            1int
        } else {
            0int
        }) && post == App { confirm_seleccion: post.confirm_seleccion, ..pre } && e
            == Efecto::Ninguno,
        Comando::Confirmar => if pre.confirm_seleccion == 0 {
            match pre.confirm_type {
                Some(ConfirmType::DeleteFilter) => {
                    &&& eliminacion_filtro(pre, post)
                    &&& post.vista_actual == Vista::Partidos
                    &&& post.confirm_type is None
                    &&& post.confirm_seleccion == pre.confirm_seleccion
                    &&& post.detalle_seleccion == pre.detalle_seleccion
                    &&& post.filtro_pendiente is None
                    &&& e == (if pre.filtro_seleccionado > 0 {
                        Efecto::GuardarFiltros
                    } else {
                        Efecto::Ninguno
                    })
                },
                Some(ConfirmType::AddFilter) => match pre.filtro_pendiente {
                    Some(f) => {
                        &&& adicion_filtro(pre, post, f)
                        &&& post.vista_actual == Vista::Partidos
                        &&& post.confirm_type is None
                        &&& post.confirm_seleccion == pre.confirm_seleccion
                        &&& post.detalle_seleccion == pre.detalle_seleccion
                        &&& post.filtro_pendiente is None
                        &&& e == Efecto::GuardarFiltros
                    },
                    None => post == pre && e == Efecto::Ninguno,
                },
                None => post == pre && e == Efecto::Ninguno,
            }
        } else {
            descarte_confirmacion(pre, post) && e == Efecto::Ninguno
        },
        Comando::Cancelar => descarte_confirmacion(pre, post) && e == Efecto::Ninguno,
        Comando::AbrirAyuda => post.confirm_type is None && post.filtro_pendiente is None && post
            == App {
            vista_actual: Vista::Help,
            confirm_type: post.confirm_type,
            filtro_pendiente: post.filtro_pendiente,
            ..pre
        } && e == Efecto::Ninguno,
        _ => post == pre && e == Efecto::Ninguno,
    }
}

/// The help view.
pub open spec fn transicion_ayuda(pre: App, post: App, c: Comando, e: Efecto) -> bool {
    match c {
        Comando::Cancelar => post == App { vista_actual: Vista::Partidos, ..pre } && e
            == Efecto::Ninguno,
        _ => post == pre && e == Efecto::Ninguno,
    }
}

impl App {
    /// The fixture-list view's command handler.
    fn manejar_partidos(&mut self, c: Comando) -> (e: Efecto)
        requires
            old(self).bien_formado(),
            old(self).vista_actual == Vista::Partidos,
        ensures
            final(self).bien_formado(),
            transicion_partidos(*old(self), *final(self), c, e),
    {
        match c {
            Comando::AbrirFiltros => {
                self.vista_actual = Vista::Filtros;
                Efecto::Ninguno
            },
            Comando::AbrirBusqueda => {
                self.buscar_texto = String::new();
                self.vista_actual = Vista::Buscar;
                Efecto::Ninguno
            },
            Comando::AbrirDetalle => {
                self.detalle_seleccion = 0;
                self.vista_actual = Vista::Detalles;
                Efecto::Ninguno
            },
            Comando::AbrirAyuda => {
                self.vista_actual = Vista::Help;
                Efecto::Ninguno
            },
            Comando::Refrescar => {
                let lanzado = self.iniciar_refresco();
                if lanzado {
                    Efecto::LanzarRefresco
                } else {
                    Efecto::Ninguno
                }
            },
            Comando::Salir => Efecto::Salir,
            Comando::SeleccionArriba => {
                self.partido_seleccionado = mover_arriba(self.partido_seleccionado, 1);
                Efecto::Ninguno
            },
            Comando::SeleccionAbajo => {
                self.partido_seleccionado = mover_abajo(
                    self.partido_seleccionado,
                    self.partidos.len(),
                    1,
                );
                Efecto::Ninguno
            },
            Comando::PaginaArriba => {
                self.partido_seleccionado = mover_arriba(self.partido_seleccionado, SALTO_PAGINA);
                Efecto::Ninguno
            },
            Comando::PaginaAbajo => {
                self.partido_seleccionado = mover_abajo(
                    self.partido_seleccionado,
                    self.partidos.len(),
                    SALTO_PAGINA,
                );
                Efecto::Ninguno
            },
            _ => Efecto::Ninguno,
        }
    }

    /// The filter-list view's command handler.
    fn manejar_filtros(&mut self, c: Comando) -> (e: Efecto)
        requires
            old(self).bien_formado(),
            old(self).vista_actual == Vista::Filtros,
        ensures
            final(self).bien_formado(),
            transicion_filtros(*old(self), *final(self), c, e),
    {
        match c {
            Comando::Confirmar => {
                self.aplicar_filtro();
                self.vista_actual = Vista::Partidos;
                Efecto::Ninguno
            },
            Comando::Cancelar => {
                self.vista_actual = Vista::Partidos;
                Efecto::Ninguno
            },
            Comando::AbrirAyuda => {
                self.vista_actual = Vista::Help;
                Efecto::Ninguno
            },
            Comando::SeleccionArriba => {
                self.filtro_seleccionado = mover_arriba(self.filtro_seleccionado, 1);
                Efecto::Ninguno
            },
            Comando::SeleccionAbajo => {
                self.filtro_seleccionado = mover_abajo(
                    self.filtro_seleccionado,
                    self.filtros.len(),
                    1,
                );
                Efecto::Ninguno
            },
            Comando::PedirEliminar => {
                if self.filtro_seleccionado > 0 {
                    self.confirm_type = Some(ConfirmType::DeleteFilter);
                    self.confirm_seleccion = 1;
                    self.vista_actual = Vista::Confirm;
                }
                Efecto::Ninguno
            },
            _ => Efecto::Ninguno,
        }
    }

    /// The detail view's command handler.
    fn manejar_detalles(&mut self, c: Comando) -> (e: Efecto)
        requires
            old(self).bien_formado(),
            old(self).vista_actual == Vista::Detalles,
        ensures
            final(self).bien_formado(),
            transicion_detalles(*old(self), *final(self), c, e),
    {
        match c {
            Comando::Cancelar => {
                self.vista_actual = Vista::Partidos;
                Efecto::Ninguno
            },
            Comando::AbrirAyuda => {
                self.vista_actual = Vista::Help;
                Efecto::Ninguno
            },
            Comando::SeleccionArriba => {
                self.detalle_seleccion = mover_arriba(self.detalle_seleccion, 1);
                Efecto::Ninguno
            },
            Comando::SeleccionAbajo => {
                self.detalle_seleccion = mover_abajo(self.detalle_seleccion, CAMPOS_DETALLE, 1);
                Efecto::Ninguno
            },
            Comando::FiltroDesdeLocal => {
                if self.partido_seleccionado < self.partidos.len() {
                    let equipo = self.partidos[self.partido_seleccionado].local.clone();
                    self.filtro_pendiente = Some(
                        Filtro {
                            nombre: equipo.clone(),
                            buscar: equipo,
                            categoria: String::new(),
                        },
                    );
                    self.confirm_type = Some(ConfirmType::AddFilter);
                    self.confirm_seleccion = 1;
                    self.vista_actual = Vista::Confirm;
                }
                Efecto::Ninguno
            },
            Comando::FiltroDesdeCompeticion => {
                if self.partido_seleccionado < self.partidos.len() {
                    let comp = self.partidos[self.partido_seleccionado].competicion.clone();
                    self.filtro_pendiente = Some(
                        Filtro { nombre: comp.clone(), buscar: comp.clone(), categoria: comp },
                    );
                    self.confirm_type = Some(ConfirmType::AddFilter);
                    self.confirm_seleccion = 1;
                    self.vista_actual = Vista::Confirm;
                }
                Efecto::Ninguno
            },
            _ => Efecto::Ninguno,
        }
    }

    /// The search-input view's command handler.
    fn manejar_buscar(&mut self, c: Comando) -> (e: Efecto)
        requires
            old(self).bien_formado(),
            old(self).vista_actual == Vista::Buscar,
        ensures
            final(self).bien_formado(),
            transicion_buscar(*old(self), *final(self), c, e),
    {
        match c {
            Comando::Escribir(ch) => {
                anexar_char(&mut self.buscar_texto, ch);
                self.aplicar_busqueda();
                Efecto::Ninguno
            },
            Comando::Borrar => {
                quitar_ultimo_char(&mut self.buscar_texto);
                self.aplicar_busqueda();
                Efecto::Ninguno
            },
            Comando::Confirmar => {
                self.vista_actual = Vista::Partidos;
                Efecto::Ninguno
            },
            Comando::Cancelar => {
                self.reset_busqueda();
                self.vista_actual = Vista::Partidos;
                Efecto::Ninguno
            },
            Comando::AbrirAyuda => {
                self.vista_actual = Vista::Help;
                Efecto::Ninguno
            },
            _ => Efecto::Ninguno,
        }
    }

    /// The confirmation dialog's command handler.
    fn manejar_confirm(&mut self, c: Comando) -> (e: Efecto)
        requires
            old(self).bien_formado(),
            old(self).vista_actual == Vista::Confirm,
        ensures
            final(self).bien_formado(),
            transicion_confirm(*old(self), *final(self), c, e),
    {
        match c {
            Comando::AlternarOpcion => {
                self.confirm_seleccion = if self.confirm_seleccion == 0 {
                    1
                } else {
                    0
                };
                Efecto::Ninguno
            },
            Comando::Confirmar => {
                if self.confirm_seleccion == 0 {
                    let tipo = self.confirm_type;
                    match tipo {
                        Some(ConfirmType::DeleteFilter) => {
                            self.confirm_type = None;
                            self.vista_actual = Vista::Partidos;
                            let borra = self.filtro_seleccionado > 0;
                            self.eliminar_filtro();
                            if borra {
                                Efecto::GuardarFiltros
                            } else {
                                Efecto::Ninguno
                            }
                        },
                        Some(ConfirmType::AddFilter) => {
                            self.confirm_type = None;
                            self.vista_actual = Vista::Partidos;
                            let mut pendiente: Option<Filtro> = None;
                            core::mem::swap(&mut pendiente, &mut self.filtro_pendiente);
                            match pendiente {
                                Some(f) => {
                                    self.agregar_filtro(f.nombre, f.buscar, f.categoria);
                                    Efecto::GuardarFiltros
                                },
                                None => {
                                    // Unreachable: the invariant ties a
                                    // pending filter to this dialog kind.
                                    proof {
                                        assert(false);
                                    }
                                    Efecto::Ninguno
                                },
                            }
                        },
                        None => {
                            // Unreachable: the dialog view implies a
                            // pending request.
                            proof {
                                assert(false);
                            }
                            Efecto::Ninguno
                        },
                    }
                } else {
                    self.descartar_confirmacion();
                    Efecto::Ninguno
                }
            },
            Comando::Cancelar => {
                self.descartar_confirmacion();
                Efecto::Ninguno
            },
            Comando::AbrirAyuda => {
                self.confirm_type = None;
                self.filtro_pendiente = None;
                self.vista_actual = Vista::Help;
                Efecto::Ninguno
            },
            _ => Efecto::Ninguno,
        }
    }

    /// Drops the pending request and returns to the view the dialog came
    /// from.
    fn descartar_confirmacion(&mut self)
        requires
            old(self).bien_formado(),
            old(self).vista_actual == Vista::Confirm,
        ensures
            final(self).bien_formado(),
            descarte_confirmacion(*old(self), *final(self)),
    {
        let tipo = self.confirm_type;
        self.confirm_type = None;
        self.filtro_pendiente = None;
        self.vista_actual = match tipo {
            Some(ConfirmType::DeleteFilter) => Vista::Filtros,
            _ => Vista::Partidos,
        };
    }

    /// The help view's command handler.
    fn manejar_ayuda(&mut self, c: Comando) -> (e: Efecto)
        requires
            old(self).bien_formado(),
            old(self).vista_actual == Vista::Help,
        ensures
            final(self).bien_formado(),
            transicion_ayuda(*old(self), *final(self), c, e),
    {
        match c {
            Comando::Cancelar => {
                self.vista_actual = Vista::Partidos;
                Efecto::Ninguno
            },
            _ => Efecto::Ninguno,
        }
    }

    /// Processes one discrete command against the active view and returns
    /// the effect the caller has to carry out.
    pub fn procesar_comando(&mut self, c: Comando) -> (e: Efecto)
        requires
            old(self).bien_formado(),
        ensures
            final(self).bien_formado(),
            match old(self).vista_actual {
                Vista::Partidos => transicion_partidos(*old(self), *final(self), c, e),
                Vista::Filtros => transicion_filtros(*old(self), *final(self), c, e),
                Vista::Detalles => transicion_detalles(*old(self), *final(self), c, e),
                Vista::Buscar => transicion_buscar(*old(self), *final(self), c, e),
                Vista::Confirm => transicion_confirm(*old(self), *final(self), c, e),
                Vista::Help => transicion_ayuda(*old(self), *final(self), c, e),
            },
    {
        match self.vista_actual {
            Vista::Partidos => self.manejar_partidos(c),
            Vista::Filtros => self.manejar_filtros(c),
            Vista::Detalles => self.manejar_detalles(c),
            Vista::Buscar => self.manejar_buscar(c),
            Vista::Confirm => self.manejar_confirm(c),
            Vista::Help => self.manejar_ayuda(c),
        }
    }
}

} // verus!
