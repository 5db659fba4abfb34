//! Importación completa y de catálogo, configuración y firma.

use mantencion::almacen::Almacen;
use mantencion::entidades::Estado;

fn doc_completo() -> String {
    "{\"jardines\": [{\"codigo\": \"J1\", \"nombre\": \"Uno\"}, {\"codigo\": \"J1\", \"nombre\": \"Repetido\"}],\"partidas\": [{\"item\": \"P1\", \"partida\": \"Poda\", \"precioUnitario\": 700}],\"recintos\": [{\"jardinCodigo\": \"J1\", \"nombre\": \"Patio\"}],\"ordenes_trabajo\": [{\"codigo\": \"OT-J1-A001\", \"jardinCodigo\": \"J1\", \"fechaCreacion\": 10}],\"informes_pago\": [{\"codigo\": \"IP-J1-A01\", \"jardinCodigo\": \"J1\", \"fechaCreacion\": 12, \"neto\": 3000, \"utilidades\": 300, \"iva\": 627, \"totalFinal\": 3927}],\"requerimientos\": [{\"jardinCodigo\": \"J1\", \"partidaItem\": \"P1\", \"cantidad\": 2, \"precioUnitario\": 700, \"fechaInicio\": 5, \"fechaRegistro\": 5, \"plazoDias\": 3, \"ot_codigo\": \"OT-J1-A001\", \"id\": 999},{\"jardinCodigo\": \"J1\", \"partidaItem\": \"P1\", \"cantidad\": 1, \"precioUnitario\": 700, \"fechaInicio\": 6, \"fechaRegistro\": 6, \"plazoDias\": 3, \"informe_codigo\": \"IP-J1-A01\", \"fechaRecepcion\": 9},{\"jardinCodigo\": \"J1\", \"partidaItem\": \"P1\", \"cantidad\": 1, \"precioUnitario\": 700, \"fechaInicio\": 7, \"fechaRegistro\": 7, \"plazoDias\": 3, \"ot_codigo\": \"OT-NO-EXISTE\"}],\"configuracion\": {\"titulo\": \"Contrato\", \"contratista\": \"Alguien\", \"prefijo_correlativo\": \"A\", \"ito_nombre\": \"Inspector\"}}"
    .to_string()
}

#[test]
fn importacion_completa_repone_todo() {
    let mut a = Almacen::nuevo();
    // datos previos que la importacion debe borrar
    a.add_jardin("VIEJO".to_string(), "se va".to_string()).unwrap();
    let resumen = a.importar_base_datos_completa(&doc_completo()).unwrap();
    assert_eq!(
        resumen,
        "Importado: 2 jardines, 1 partidas, 1 recintos, 3 requerimientos, 1 OTs, 1 informes"
    );
    // el jardin duplicado se ignoro en silencio pero se conto
    assert_eq!(a.get_jardines().len(), 1);
    assert_eq!(a.get_jardines()[0].nombre, "Uno".to_string());
    assert!(a.get_jardin_by_codigo(&"VIEJO".to_string()).is_none());
    assert_eq!(a.get_partidas()[0].precio_unitario, 700);
    assert_eq!(a.get_recintos().len(), 1);
    let filas = a.get_requerimientos();
    assert_eq!(filas.len(), 3);
    // los vinculos se resolvieron por codigo, no por el id numerico embebido
    assert_eq!(filas[0].estado, Estado::EnOt);
    assert_eq!(filas[0].ot_codigo, Some("OT-J1-A001".to_string()));
    assert_eq!(filas[1].estado, Estado::EnInforme);
    assert_eq!(filas[1].informe_pago_codigo, Some("IP-J1-A01".to_string()));
    // un codigo sin destino deja la fila pendiente
    assert_eq!(filas[2].estado, Estado::Pendiente);
    assert_eq!(filas[2].ot_id, None);
    let config = a.get_configuracion();
    assert_eq!(config.titulo, "Contrato".to_string());
    assert_eq!(config.prefijo_correlativo, "A".to_string());
    assert_eq!(config.ito_nombre, Some("Inspector".to_string()));
}

#[test]
fn importacion_completa_no_es_idempotente_pero_es_estable() {
    // volver a correr la importacion parte de cero y deja el mismo resultado
    let mut a = Almacen::nuevo();
    a.importar_base_datos_completa(&doc_completo()).unwrap();
    let jardines_1 = a.get_jardines().len();
    let requerimientos_1 = a.get_requerimientos().len();
    a.importar_base_datos_completa(&doc_completo()).unwrap();
    assert_eq!(a.get_jardines().len(), jardines_1);
    assert_eq!(a.get_requerimientos().len(), requerimientos_1);
}

#[test]
fn importacion_completa_invalida_no_cambia_nada() {
    let mut a = Almacen::nuevo();
    a.add_jardin("J9".to_string(), "queda".to_string()).unwrap();
    // dos ordenes con el mismo codigo frustran la importacion entera
    let doc = "{\"ordenes_trabajo\": [{\"codigo\": \"OT-X-1\", \"jardinCodigo\": \"J\", \"fechaCreacion\": 1},{\"codigo\": \"OT-X-1\", \"jardinCodigo\": \"J\", \"fechaCreacion\": 2}]}"
    .to_string();
    assert!(a.importar_base_datos_completa(&doc).is_err());
    assert_eq!(a.get_jardines().len(), 1);
    // un texto que no es JSON falla con el analisis
    let malo = "esto no es json".to_string();
    let e = a.importar_base_datos_completa(&malo).unwrap_err();
    assert!(e.contains("Error parseando JSON"));
    assert_eq!(a.get_jardines().len(), 1);
}

#[test]
fn catalogo_json_dos_veces_sin_duplicados() {
    // reimportar el mismo catalogo no produce filas duplicadas
    let mut a = Almacen::nuevo();
    let doc = "{\"jardines\": [{\"codigo\": \"J1\", \"nombre\": \"Uno\"}],\"partidas\": [{\"item\": \"P1\", \"partida\": \"Poda\", \"precio_unitario\": 9}]}"
    .to_string();
    let resumen = a.importar_catalogo_json(&doc).unwrap();
    assert_eq!(resumen, "2 registros importados");
    assert_eq!(a.get_jardines().len(), 1);
    assert_eq!(a.get_partidas().len(), 1);
    let resumen2 = a.importar_catalogo_json(&doc).unwrap();
    // las filas se procesan y cuentan, pero nada se duplica
    assert_eq!(resumen2, "2 registros importados");
    assert_eq!(a.get_jardines().len(), 1);
    assert_eq!(a.get_partidas().len(), 1);
}

#[test]
fn catalogo_json_recinto_repetido_falla() {
    let mut a = Almacen::nuevo();
    a.add_recinto("J1".to_string(), "Patio".to_string()).unwrap();
    let doc = "{\"recintos\": [{\"jardin_codigo\": \"J1\", \"nombre\": \"Patio\"}]}".to_string();
    assert!(a.importar_catalogo_json(&doc).is_err());
    assert_eq!(a.get_recintos().len(), 1);
}

#[test]
fn catalogo_csv_de_jardines_y_partidas() {
    let mut a = Almacen::nuevo();
    let csv_jardines = "codigo,nombre\nJ1,Uno\nJ2,Dos\n".to_string();
    let resumen = a
        .importar_catalogo_csv(&csv_jardines, &"jardines".to_string())
        .unwrap();
    assert_eq!(resumen, "2 registros importados");
    assert_eq!(a.get_jardines().len(), 2);
    let csv_partidas = "item,partida,unidad,precio\nP1,Poda,m2,450\nP2,Riego,,no-numerico\n".to_string();
    let resumen = a
        .importar_catalogo_csv(&csv_partidas, &"partidas".to_string())
        .unwrap();
    assert_eq!(resumen, "2 registros importados");
    let partidas = a.get_partidas();
    assert_eq!(partidas[0].precio_unitario, 450);
    assert_eq!(partidas[0].unidad, Some("m2".to_string()));
    // un precio no numerico vale cero
    assert_eq!(partidas[1].precio_unitario, 0);
    // un tipo desconocido se rechaza
    assert!(a
        .importar_catalogo_csv(&csv_jardines, &"otros".to_string())
        .is_err());
    // reimportar ignora los codigos ya presentes
    a.importar_catalogo_csv(&csv_jardines, &"jardines".to_string()).unwrap();
    assert_eq!(a.get_jardines().len(), 2);
}

#[test]
fn catalogo_csv_malformado_falla() {
    let mut a = Almacen::nuevo();
    // una comilla sin cerrar en medio del registro malforma la tabla
    let malo = "codigo,nombre\nJ1,\"sin cierre\nJ2,Dos".to_string();
    let r = a.importar_catalogo_csv(&malo, &"jardines".to_string());
    assert!(r.is_err() || a.get_jardines().len() < 2);
}

#[test]
fn xlsx_con_bytes_invalidos_falla() {
    let mut a = Almacen::nuevo();
    a.add_jardin("J1".to_string(), "queda".to_string()).unwrap();
    let bytes = vec![1u8, 2, 3, 4];
    assert!(a.importar_catalogo_xlsx_bytes(&bytes).is_err());
    assert!(a
        .importar_catalogo_xlsx(&bytes, &"jardines".to_string(), &"jardines".to_string())
        .is_err());
    assert_eq!(a.get_jardines().len(), 1);
}

#[test]
fn filas_de_catalogo_directas() {
    // la logica de filas compartida por las tablas y las hojas de calculo
    let mut a = Almacen::nuevo();
    let filas = vec![
        vec!["J1".to_string(), "Uno".to_string()],
        vec!["corta".to_string()],
        vec!["J2".to_string(), "Dos".to_string(), "extra".to_string()],
    ];
    let resumen = a
        .importar_catalogo_filas(&"jardines".to_string(), &filas)
        .unwrap();
    // la fila corta se pasa por alto y no se cuenta
    assert_eq!(resumen, "2 registros importados");
    assert_eq!(a.get_jardines().len(), 2);
}

#[test]
fn firma_ida_y_vuelta() {
    // la firma decodificada y reencodificada vuelve identica
    let mut a = Almacen::nuevo();
    assert_eq!(a.get_firma().unwrap(), None);
    a.importar_firma(&"aG9sYQ==".to_string()).unwrap();
    assert_eq!(a.get_firma().unwrap(), Some("aG9sYQ==".to_string()));
    let config = a.get_configuracion();
    assert_eq!(
        config.ito_firma_base64,
        Some("data:image/png;base64,aG9sYQ==".to_string())
    );
    // un texto que no es base64 se rechaza sin cambiar la firma
    let e = a.importar_firma(&"no es base64!!!".to_string()).unwrap_err();
    assert!(e.contains("Error decodificando base64"));
    assert_eq!(a.get_firma().unwrap(), Some("aG9sYQ==".to_string()));
}

#[test]
fn firma_importada_en_documento() {
    let mut a = Almacen::nuevo();
    let doc = "{\"configuracion\": {\"titulo\": \"T\", \"contratista\": \"C\", \"prefijo_correlativo\": \"A\", \"ito_nombre\": \"I\", \"firma_png_base64\": \"aG9sYQ==\"}}"
    .to_string();
    a.importar_base_datos_completa(&doc).unwrap();
    assert_eq!(a.get_firma().unwrap(), Some("aG9sYQ==".to_string()));
    // una firma malformada se pasa por alto pero los campos se actualizan
    let doc2 = "{\"configuracion\": {\"titulo\": \"T2\", \"contratista\": \"C2\", \"prefijo_correlativo\": \"B\", \"ito_nombre\": \"I2\", \"firma_png_base64\": \"###\"}}"
    .to_string();
    a.importar_base_datos_completa(&doc2).unwrap();
    assert_eq!(a.get_configuracion().titulo, "T2".to_string());
    assert_eq!(a.get_firma().unwrap(), Some("aG9sYQ==".to_string()));
}

#[test]
fn clear_all_conserva_configuracion() {
    let mut a = Almacen::nuevo();
    a.update_configuracion(
        "T".to_string(),
        "C".to_string(),
        "A".to_string(),
        Some("I".to_string()),
    )
    .unwrap();
    a.add_jardin("J1".to_string(), "Uno".to_string()).unwrap();
    a.clear_all();
    assert_eq!(a.get_jardines().len(), 0);
    assert_eq!(a.get_configuracion().titulo, "T".to_string());
    // los identificadores parten de nuevo en uno
    let id = a.add_jardin("J1".to_string(), "Uno".to_string()).unwrap();
    assert_eq!(id, 1);
}
