//! Ciclo de vida de los requerimientos: creación validada, actualización
//! parcial, fechas de recepción, campos derivados y borrado.

use mantencion::almacen::Almacen;
use mantencion::entidades::{Estado, RequerimientoCambios};

fn almacen_con_catalogo() -> Almacen {
    let mut a = Almacen::nuevo();
    a.add_jardin("J1".to_string(), "Jardin Uno".to_string()).unwrap();
    a.add_jardin("J2".to_string(), "Jardin Dos".to_string()).unwrap();
    a.add_partida("P1".to_string(), "Poda".to_string(), Some("m2".to_string()), 500).unwrap();
    a
}

#[test]
fn crear_requerimiento_pendiente() {
    let mut a = almacen_con_catalogo();
    let id = a
        .add_requerimiento(
            "J1".to_string(),
            Some("Patio".to_string()),
            "P1".to_string(),
            10,
            500,
            100,
            99,
            5,
            Some("poda general".to_string()),
        )
        .unwrap();
    assert_eq!(id, 1);
    let filas = a.get_requerimientos();
    assert_eq!(filas.len(), 1);
    assert_eq!(filas[0].estado, Estado::Pendiente);
    assert_eq!(filas[0].precio_total, 5000);
    assert_eq!(filas[0].ot_id, None);
    assert_eq!(filas[0].informe_pago_id, None);
    assert_eq!(filas[0].partida_nombre, Some("Poda".to_string()));
    assert_eq!(filas[0].partida_unidad, Some("m2".to_string()));
}

#[test]
fn crear_requerimiento_jardin_desconocido() {
    let mut a = almacen_con_catalogo();
    let r = a.add_requerimiento(
        "NO".to_string(),
        None,
        "P1".to_string(),
        1,
        1,
        0,
        0,
        0,
        None,
    );
    assert!(r.is_err());
    assert_eq!(a.get_requerimientos().len(), 0);
    let r2 = a.add_requerimiento(
        "J1".to_string(),
        None,
        "NOPE".to_string(),
        1,
        1,
        0,
        0,
        0,
        None,
    );
    assert!(r2.is_err());
}

#[test]
fn derivados_del_ejemplo() {
    // cantidad 10 y precio 500 dan total 5000; inicio D con plazos 5 y 2 da
    // limite D+7; recepcion D+10 da atraso 3; multa 200 deja a pago 4800
    let mut a = almacen_con_catalogo();
    let d = 1000;
    let id = a
        .add_requerimiento("J1".to_string(), None, "P1".to_string(), 10, 500, d, d, 5, None)
        .unwrap();
    let mut cambios = RequerimientoCambios::vacio();
    cambios.plazo_adicional = Some(2);
    cambios.multa = Some(200);
    a.update_requerimiento(id, cambios).unwrap();
    a.actualizar_fecha_recepcion(id, d + 10).unwrap();
    let filas = a.get_requerimientos();
    assert_eq!(filas[0].precio_total, 5000);
    assert_eq!(filas[0].plazo_total, 7);
    assert_eq!(filas[0].fecha_limite, Some(d + 7));
    assert_eq!(filas[0].dias_atraso, 3);
    assert_eq!(filas[0].a_pago, 4800);
}

#[test]
fn atraso_cero_sin_recepcion_o_dentro_de_plazo() {
    let mut a = almacen_con_catalogo();
    let id = a
        .add_requerimiento("J1".to_string(), None, "P1".to_string(), 1, 100, 50, 50, 10, None)
        .unwrap();
    let filas = a.get_requerimientos();
    assert_eq!(filas[0].dias_atraso, 0);
    a.actualizar_fecha_recepcion(id, 55).unwrap();
    let filas = a.get_requerimientos();
    // la recepcion no excede el limite 60
    assert_eq!(filas[0].dias_atraso, 0);
    a.actualizar_fecha_recepcion(id, 60).unwrap();
    assert_eq!(a.get_requerimientos()[0].dias_atraso, 0);
    a.actualizar_fecha_recepcion(id, 61).unwrap();
    assert_eq!(a.get_requerimientos()[0].dias_atraso, 1);
    a.eliminar_fecha_recepcion(id).unwrap();
    assert_eq!(a.get_requerimientos()[0].dias_atraso, 0);
    assert_eq!(a.get_requerimientos()[0].fecha_recepcion, None);
}

#[test]
fn plazo_no_positivo_sin_limite() {
    let mut a = almacen_con_catalogo();
    let id = a
        .add_requerimiento("J1".to_string(), None, "P1".to_string(), 1, 100, 50, 50, 0, None)
        .unwrap();
    a.actualizar_fecha_recepcion(id, 90).unwrap();
    let filas = a.get_requerimientos();
    assert_eq!(filas[0].fecha_limite, None);
    assert_eq!(filas[0].dias_atraso, 0);
}

#[test]
fn actualizacion_parcial_recalcula_total() {
    let mut a = almacen_con_catalogo();
    let id = a
        .add_requerimiento("J1".to_string(), None, "P1".to_string(), 10, 500, 0, 0, 5, None)
        .unwrap();
    // solo cambia la cantidad: el total usa el precio existente
    let mut cambios = RequerimientoCambios::vacio();
    cambios.cantidad = Some(3);
    a.update_requerimiento(id, cambios).unwrap();
    let filas = a.get_requerimientos();
    assert_eq!(filas[0].cantidad, 3);
    assert_eq!(filas[0].precio_total, 1500);
    // solo cambia el precio: el total usa la cantidad resultante
    let mut cambios = RequerimientoCambios::vacio();
    cambios.precio_unitario = Some(7);
    a.update_requerimiento(id, cambios).unwrap();
    assert_eq!(a.get_requerimientos()[0].precio_total, 21);
    // un cambio sin cantidad ni precio no toca el total
    let mut cambios = RequerimientoCambios::vacio();
    cambios.descripcion = Some("otra".to_string());
    a.update_requerimiento(id, cambios).unwrap();
    let filas = a.get_requerimientos();
    assert_eq!(filas[0].precio_total, 21);
    assert_eq!(filas[0].descripcion, Some("otra".to_string()));
}

#[test]
fn actualizacion_vacia_no_cambia_nada() {
    let mut a = almacen_con_catalogo();
    let id = a
        .add_requerimiento("J1".to_string(), None, "P1".to_string(), 2, 3, 0, 0, 5, None)
        .unwrap();
    let antes = a.get_requerimientos()[0].updated_at;
    a.update_requerimiento(id, RequerimientoCambios::vacio()).unwrap();
    assert_eq!(a.get_requerimientos()[0].updated_at, antes);
}

#[test]
fn actualizacion_de_id_desconocido_no_falla() {
    let mut a = almacen_con_catalogo();
    let mut cambios = RequerimientoCambios::vacio();
    cambios.cantidad = Some(1);
    assert!(a.update_requerimiento(999, cambios).is_ok());
}

#[test]
fn borrado_de_requerimiento() {
    let mut a = almacen_con_catalogo();
    let id1 = a
        .add_requerimiento("J1".to_string(), None, "P1".to_string(), 1, 1, 0, 0, 0, None)
        .unwrap();
    let id2 = a
        .add_requerimiento("J1".to_string(), None, "P1".to_string(), 2, 2, 0, 0, 0, None)
        .unwrap();
    a.delete_requerimiento(id1).unwrap();
    let filas = a.get_requerimientos();
    assert_eq!(filas.len(), 1);
    assert_eq!(filas[0].id, id2);
    // borrar un identificador desconocido no cambia nada
    a.delete_requerimiento(999).unwrap();
    assert_eq!(a.get_requerimientos().len(), 1);
}

#[test]
fn catalogo_basico() {
    let mut a = almacen_con_catalogo();
    assert_eq!(a.get_jardines().len(), 2);
    assert!(a.get_jardin_by_codigo(&"J1".to_string()).is_some());
    assert!(a.get_jardin_by_codigo(&"ZZ".to_string()).is_none());
    assert!(a.add_jardin("J1".to_string(), "repetido".to_string()).is_err());
    assert!(a.add_partida("P1".to_string(), "repetida".to_string(), None, 1).is_err());
    assert_eq!(a.get_partidas().len(), 1);
    let r1 = a.add_recinto("J1".to_string(), "Patio".to_string()).unwrap();
    assert_eq!(r1, 1);
    assert!(a.add_recinto("J1".to_string(), "Patio".to_string()).is_err());
    a.add_recinto("J2".to_string(), "Patio".to_string()).unwrap();
    let de_j1 = a.get_recintos_by_jardin(&"J1".to_string());
    assert_eq!(de_j1.len(), 1);
    assert_eq!(de_j1[0].jardin_codigo, "J1".to_string());
    assert_eq!(a.get_recintos().len(), 2);
}
