//! Tests of the display and path helpers.

use fecapa_explorer::apoyo::{elegir_directorio_datos, find_file_path, truncate};

#[test]
fn truncate_deja_lo_que_cabe() {
    assert_eq!(truncate("Madrid", 10), "Madrid");
    assert_eq!(truncate("Madrid", 6), "Madrid");
    assert_eq!(truncate("", 5), "");
}

#[test]
fn truncate_corta_con_puntos() {
    assert_eq!(truncate("abcdefghij", 5), "ab...");
    assert_eq!(truncate("Liga Nacional de Hockey", 10), "Liga Na...");
}

#[test]
fn truncate_decide_por_bytes_y_corta_por_caracteres() {
    // Whether to cut is a byte question; the cut itself never splits a
    // multi-byte character.
    assert_eq!(truncate("Competición", 20), "Competición");
    assert_eq!(truncate("áéíóúáéíóú", 8), "áéíóú...");
    // Three characters but six bytes: over a four-byte budget the string
    // is cut to its first character.
    assert_eq!(truncate("ááá", 4), "á...");
    // Eleven characters, twelve bytes: over an eleven-byte budget.
    assert_eq!(truncate("Competición", 11), "Competic...");
}

#[test]
fn find_file_path_prefiere_directorio_de_datos() {
    let r = find_file_path("/datos/p.json".to_string(), "p.json".to_string(), true, true);
    assert_eq!(r, "/datos/p.json");
    let r2 = find_file_path("/datos/p.json".to_string(), "p.json".to_string(), true, false);
    assert_eq!(r2, "/datos/p.json");
}

#[test]
fn find_file_path_cae_al_directorio_actual() {
    let r = find_file_path("/datos/p.json".to_string(), "p.json".to_string(), false, true);
    assert_eq!(r, "p.json");
}

#[test]
fn find_file_path_sin_archivos_usa_datos() {
    let r = find_file_path("/datos/p.json".to_string(), "p.json".to_string(), false, false);
    assert_eq!(r, "/datos/p.json");
}

#[test]
fn elegir_directorio_prefiere_exe_con_datos() {
    let r = elegir_directorio_datos("/exe".to_string(), "/cwd".to_string(), true);
    assert_eq!(r, "/exe");
    let r2 = elegir_directorio_datos("/exe".to_string(), "/cwd".to_string(), false);
    assert_eq!(r2, "/cwd");
}
