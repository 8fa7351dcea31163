//! Small helpers around the state machine: display truncation and the
//! choice between the two candidate locations of a data file.

use vstd::prelude::*;
use vstd::string::*;

verus! {

/// Shortens a string for display.  Whether it is shortened at all is
/// decided by its byte length — the `max_len` budgets are byte-sized —
/// but the cut itself takes whole characters, never splitting a
/// multi-byte encoding: a string of at most `max_len` bytes is returned
/// unchanged, a longer one is cut to its first `max_len - 3` characters
/// (all of them, if it has fewer) with an ellipsis appended.
pub fn truncate(s: &str, max_len: usize) -> (r: String)
    requires
        s.spec_bytes().len() > max_len ==> max_len >= 3,
    ensures
        s.spec_bytes().len() <= max_len ==> r@ == s@,
        s.spec_bytes().len() > max_len ==> r@ == s@.take(
            if max_len - 3 <= s@.len() {
                (max_len - 3) as int
            } else {
                s@.len() as int
            },
        ) + "..."@,
{
    let nbytes = s.as_bytes().len();
    if nbytes > max_len {
        let n = s.unicode_len();
        let corte = if max_len - 3 <= n {
            max_len - 3
        } else {
            n
        };
        let recorte = s.substring_char(0, corte);
        let mut r = recorte.to_owned();
        r.append("...");
        r
    } else {
        s.to_owned()
    }
}

/// Picks the directory the data files are read from and written to: the
/// executable's directory when both data files are already there, the
/// working directory otherwise.  The existence check is the caller's.
pub fn elegir_directorio_datos(
    dir_exe: String,
    dir_actual: String,
    exe_tiene_datos: bool,
) -> (r: String)
    ensures
        r@ == (if exe_tiene_datos {
            dir_exe@
        } else {
            dir_actual@
        }),
{
    if exe_tiene_datos {
        dir_exe
    } else {
        dir_actual
    }
}

/// Picks where a data file is read from: the data directory's copy when
/// it exists, the working directory's copy when only that one exists,
/// and the data directory's path otherwise.  The existence checks are the
/// caller's.
pub fn find_file_path(
    ruta_datos: String,
    ruta_local: String,
    datos_existe: bool,
    local_existe: bool,
) -> (r: String)
    ensures
        r@ == (if datos_existe {
            ruta_datos@
        } else if local_existe {
            ruta_local@
        } else {
            ruta_datos@
        }),
{
    if datos_existe {
        ruta_datos
    } else if local_existe {
        ruta_local
    } else {
        ruta_datos
    }
}

} // verus!
