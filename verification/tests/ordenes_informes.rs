//! Órdenes de trabajo e informes de pago: códigos correlativos, vínculos
//! atómicos, validación de jardín y totales financieros.

use mantencion::almacen::Almacen;
use mantencion::entidades::{Estado, ItemPago};

fn base() -> Almacen {
    let mut a = Almacen::nuevo();
    a.update_configuracion(
        "Contrato".to_string(),
        "Contratista".to_string(),
        "A".to_string(),
        None,
    )
    .unwrap();
    a.add_jardin("J1".to_string(), "Uno".to_string()).unwrap();
    a.add_jardin("J2".to_string(), "Dos".to_string()).unwrap();
    a.add_partida("P1".to_string(), "Poda".to_string(), None, 100).unwrap();
    a
}

fn requerimiento(a: &mut Almacen, jardin: &str) -> i64 {
    a.add_requerimiento(jardin.to_string(), None, "P1".to_string(), 1, 100, 0, 0, 5, None)
        .unwrap()
}

#[test]
fn codigos_correlativos_sin_reuso() {
    // dos ordenes en el mismo jardin con prefijo A terminan en A001 y A002;
    // borrada la primera, la tercera termina en A003: el 001 no se reexpide
    let mut a = base();
    let ot1 = a
        .crear_orden_trabajo("J1".to_string(), 10, None, vec![])
        .unwrap();
    let ot2 = a
        .crear_orden_trabajo("J1".to_string(), 11, None, vec![])
        .unwrap();
    {
        let ordenes = a.get_ordenes_trabajo();
        assert_eq!(ordenes[0].codigo, "OT-J1-A001".to_string());
        assert_eq!(ordenes[1].codigo, "OT-J1-A002".to_string());
    }
    a.eliminar_orden_trabajo(ot1).unwrap();
    let ot3 = a
        .crear_orden_trabajo("J1".to_string(), 12, None, vec![])
        .unwrap();
    assert_ne!(ot2, ot3);
    let ordenes = a.get_ordenes_trabajo();
    assert_eq!(ordenes.len(), 2);
    assert_eq!(ordenes[1].codigo, "OT-J1-A003".to_string());
}

#[test]
fn alcances_correlativos_separados() {
    // otro jardin u otro tipo de entidad parten su numeracion desde 1
    let mut a = base();
    a.crear_orden_trabajo("J1".to_string(), 10, None, vec![]).unwrap();
    a.crear_orden_trabajo("J2".to_string(), 10, None, vec![]).unwrap();
    a.crear_informe_pago("J1".to_string(), 10, None, vec![]).unwrap();
    let ordenes = a.get_ordenes_trabajo();
    assert_eq!(ordenes[1].codigo, "OT-J2-A001".to_string());
    let informes = a.get_informes_pago_filas();
    assert_eq!(informes[0].codigo, "IP-J1-A01".to_string());
}

#[test]
fn cambio_de_prefijo_renumera_desde_uno() {
    let mut a = base();
    a.crear_orden_trabajo("J1".to_string(), 10, None, vec![]).unwrap();
    a.update_configuracion(
        "Contrato".to_string(),
        "Contratista".to_string(),
        "B".to_string(),
        None,
    )
    .unwrap();
    a.crear_orden_trabajo("J1".to_string(), 11, None, vec![]).unwrap();
    let ordenes = a.get_ordenes_trabajo();
    assert_eq!(ordenes[0].codigo, "OT-J1-A001".to_string());
    assert_eq!(ordenes[1].codigo, "OT-J1-B001".to_string());
}

#[test]
fn crear_orden_vincula_miembros() {
    let mut a = base();
    let r1 = requerimiento(&mut a, "J1");
    let r2 = requerimiento(&mut a, "J1");
    let r3 = requerimiento(&mut a, "J1");
    let ot = a
        .crear_orden_trabajo("J1".to_string(), 10, Some("obs".to_string()), vec![r1, r2, 999])
        .unwrap();
    let filas = a.get_requerimientos();
    assert_eq!(filas[0].estado, Estado::EnOt);
    assert_eq!(filas[0].ot_id, Some(ot));
    assert_eq!(filas[0].ot_codigo, Some("OT-J1-A001".to_string()));
    assert_eq!(filas[1].estado, Estado::EnOt);
    assert_eq!(filas[2].estado, Estado::Pendiente);
    assert_eq!(filas[2].id, r3);
    let detalle = a.get_orden_trabajo_detalle(ot);
    assert_eq!(detalle.len(), 2);
}

#[test]
fn actualizar_orden_reemplaza_membresia() {
    let mut a = base();
    let r1 = requerimiento(&mut a, "J1");
    let r2 = requerimiento(&mut a, "J1");
    let ot = a
        .crear_orden_trabajo("J1".to_string(), 10, None, vec![r1])
        .unwrap();
    a.update_orden_trabajo(ot, vec![r2], Some("nuevas".to_string())).unwrap();
    let filas = a.get_requerimientos();
    assert_eq!(filas[0].estado, Estado::Pendiente);
    assert_eq!(filas[0].ot_id, None);
    assert_eq!(filas[1].estado, Estado::EnOt);
    assert_eq!(filas[1].ot_id, Some(ot));
    let ordenes = a.get_ordenes_trabajo();
    assert_eq!(ordenes[0].observaciones, Some("nuevas".to_string()));
}

#[test]
fn actualizar_orden_con_jardin_ajeno_falla_entera() {
    // un requerimiento de otro jardin frustra la actualizacion completa y
    // ningun miembro de la orden cambia
    let mut a = base();
    let r1 = requerimiento(&mut a, "J1");
    let ajeno = requerimiento(&mut a, "J2");
    let ot = a
        .crear_orden_trabajo("J1".to_string(), 10, None, vec![r1])
        .unwrap();
    let resultado = a.update_orden_trabajo(ot, vec![r1, ajeno], Some("no debe quedar".to_string()));
    assert!(resultado.is_err());
    let mensaje = resultado.unwrap_err();
    assert!(mensaje.contains("J2"));
    assert!(mensaje.contains("J1"));
    let filas = a.get_requerimientos();
    assert_eq!(filas[0].estado, Estado::EnOt);
    assert_eq!(filas[0].ot_id, Some(ot));
    assert_eq!(filas[1].estado, Estado::Pendiente);
    let ordenes = a.get_ordenes_trabajo();
    assert_eq!(ordenes[0].observaciones, None);
}

#[test]
fn actualizar_orden_con_requerimiento_inexistente_falla() {
    let mut a = base();
    let r1 = requerimiento(&mut a, "J1");
    let ot = a
        .crear_orden_trabajo("J1".to_string(), 10, None, vec![r1])
        .unwrap();
    let resultado = a.update_orden_trabajo(ot, vec![777], None);
    assert!(resultado.is_err());
    assert!(resultado.unwrap_err().contains("777"));
    assert_eq!(a.get_requerimientos()[0].ot_id, Some(ot));
    assert!(a.update_orden_trabajo(999, vec![], None).is_err());
}

#[test]
fn eliminar_orden_devuelve_a_pendiente() {
    // todo miembro vuelve a pendiente con ambos vinculos nulos
    let mut a = base();
    let r1 = requerimiento(&mut a, "J1");
    let r2 = requerimiento(&mut a, "J1");
    let ot = a
        .crear_orden_trabajo("J1".to_string(), 10, None, vec![r1, r2])
        .unwrap();
    a.eliminar_orden_trabajo(ot).unwrap();
    assert_eq!(a.get_ordenes_trabajo().len(), 0);
    for fila in a.get_requerimientos() {
        assert_eq!(fila.estado, Estado::Pendiente);
        assert_eq!(fila.ot_id, None);
        assert_eq!(fila.informe_pago_id, None);
    }
}

#[test]
fn totales_del_informe() {
    // items de montos 1000 y 2000 dan neto 3000, utilidades 300, iva 627 y
    // total 3927
    let mut a = base();
    let r1 = requerimiento(&mut a, "J1");
    let r2 = requerimiento(&mut a, "J1");
    a.actualizar_fecha_recepcion(r1, 5).unwrap();
    a.actualizar_fecha_recepcion(r2, 5).unwrap();
    let items = vec![
        ItemPago { id: Some(r1), monto: 1000 },
        ItemPago { id: Some(r2), monto: 2000 },
    ];
    let inf = a
        .crear_informe_pago("J1".to_string(), 20, None, items)
        .unwrap();
    let informes = a.get_informes_pago();
    assert_eq!(informes.len(), 1);
    assert_eq!(informes[0].neto, 3000);
    assert_eq!(informes[0].utilidades, 300);
    assert_eq!(informes[0].iva, 627);
    assert_eq!(informes[0].total_final, 3927);
    assert_eq!(informes[0].cantidad_requerimientos, 2);
    assert_eq!(informes[0].jardin_nombre, Some("Uno".to_string()));
    let filas = a.get_requerimientos();
    assert_eq!(filas[0].estado, Estado::EnInforme);
    assert_eq!(filas[0].informe_pago_id, Some(inf));
    assert_eq!(filas[0].informe_pago_codigo, Some("IP-J1-A01".to_string()));
}

#[test]
fn item_sin_id_solo_aporta_al_neto() {
    let mut a = base();
    let items = vec![ItemPago { id: None, monto: 500 }];
    a.crear_informe_pago("J1".to_string(), 20, None, items).unwrap();
    let informes = a.get_informes_pago();
    assert_eq!(informes[0].neto, 500);
    assert_eq!(informes[0].cantidad_requerimientos, 0);
}

#[test]
fn sin_recepcion_no_entra_al_informe() {
    // un requerimiento sin fecha de recepcion cuenta para el neto pero no se
    // vincula
    let mut a = base();
    let r1 = requerimiento(&mut a, "J1");
    let items = vec![ItemPago { id: Some(r1), monto: 100 }];
    a.crear_informe_pago("J1".to_string(), 20, None, items).unwrap();
    assert_eq!(a.get_requerimientos()[0].estado, Estado::Pendiente);
    assert_eq!(a.get_informes_pago()[0].neto, 100);
}

#[test]
fn candidatos_para_informe() {
    // elegibles: con recepcion y sin informe; estar en una orden no estorba
    let mut a = base();
    let r1 = requerimiento(&mut a, "J1");
    let r2 = requerimiento(&mut a, "J1");
    let r3 = requerimiento(&mut a, "J1");
    let de_otro = requerimiento(&mut a, "J2");
    a.actualizar_fecha_recepcion(r1, 5).unwrap();
    a.actualizar_fecha_recepcion(r3, 5).unwrap();
    a.actualizar_fecha_recepcion(de_otro, 5).unwrap();
    a.crear_orden_trabajo("J1".to_string(), 10, None, vec![r3]).unwrap();
    let candidatos = a.get_requerimientos_para_informe(&"J1".to_string());
    let ids: Vec<i64> = candidatos.iter().map(|c| c.id).collect();
    assert_eq!(ids, vec![r1, r3]);
    assert!(!ids.contains(&r2));
    assert!(!ids.contains(&de_otro));
    // el precio unitario mostrado es el del catalogo
    assert_eq!(candidatos[0].precio_unitario, Some(100));
}

#[test]
fn entrar_al_informe_saca_de_la_orden() {
    // ningun requerimiento queda con ambos vinculos a la vez
    let mut a = base();
    let r1 = requerimiento(&mut a, "J1");
    a.actualizar_fecha_recepcion(r1, 5).unwrap();
    let ot = a
        .crear_orden_trabajo("J1".to_string(), 10, None, vec![r1])
        .unwrap();
    assert_eq!(a.get_requerimientos()[0].ot_id, Some(ot));
    let inf = a
        .crear_informe_pago(
            "J1".to_string(),
            20,
            None,
            vec![ItemPago { id: Some(r1), monto: 100 }],
        )
        .unwrap();
    let filas = a.get_requerimientos();
    assert_eq!(filas[0].estado, Estado::EnInforme);
    assert_eq!(filas[0].informe_pago_id, Some(inf));
    assert_eq!(filas[0].ot_id, None);
}

#[test]
fn actualizar_informe_recalcula_y_reemplaza() {
    let mut a = base();
    let r1 = requerimiento(&mut a, "J1");
    let r2 = requerimiento(&mut a, "J1");
    a.actualizar_fecha_recepcion(r1, 5).unwrap();
    a.actualizar_fecha_recepcion(r2, 5).unwrap();
    let inf = a
        .crear_informe_pago(
            "J1".to_string(),
            20,
            None,
            vec![ItemPago { id: Some(r1), monto: 1000 }],
        )
        .unwrap();
    a.update_informe_pago(
        inf,
        vec![ItemPago { id: Some(r2), monto: 2000 }],
        Some("rev".to_string()),
    )
    .unwrap();
    let informes = a.get_informes_pago();
    assert_eq!(informes[0].neto, 2000);
    assert_eq!(informes[0].utilidades, 200);
    assert_eq!(informes[0].iva, 418);
    assert_eq!(informes[0].total_final, 2618);
    assert_eq!(informes[0].observaciones, Some("rev".to_string()));
    let filas = a.get_requerimientos();
    assert_eq!(filas[0].estado, Estado::Pendiente);
    assert_eq!(filas[0].informe_pago_id, None);
    assert_eq!(filas[1].estado, Estado::EnInforme);
    assert!(a
        .update_informe_pago(999, vec![], None)
        .is_err());
}

#[test]
fn eliminar_informe_devuelve_a_pendiente() {
    let mut a = base();
    let r1 = requerimiento(&mut a, "J1");
    a.actualizar_fecha_recepcion(r1, 5).unwrap();
    let inf = a
        .crear_informe_pago(
            "J1".to_string(),
            20,
            None,
            vec![ItemPago { id: Some(r1), monto: 100 }],
        )
        .unwrap();
    a.eliminar_informe_pago(inf).unwrap();
    assert_eq!(a.get_informes_pago().len(), 0);
    let filas = a.get_requerimientos();
    assert_eq!(filas[0].estado, Estado::Pendiente);
    assert_eq!(filas[0].ot_id, None);
    assert_eq!(filas[0].informe_pago_id, None);
    // un detalle de informe borrado queda vacio
    assert_eq!(a.get_informe_pago_detalle(inf).len(), 0);
}

#[test]
fn correlativo_continua_tras_importar_codigos() {
    // el siguiente codigo supera el maximo de los codigos ya almacenados,
    // tambien cuando estos llegaron por importacion
    let mut a = base();
    let doc = "{\"jardines\": [{\"codigo\": \"J1\", \"nombre\": \"Uno\"}],\"ordenes_trabajo\": [{\"codigo\": \"OT-J1-A007\", \"jardinCodigo\": \"J1\", \"fechaCreacion\": 1},{\"codigo\": \"OT-J1-A002\", \"jardinCodigo\": \"J1\", \"fechaCreacion\": 2},{\"codigo\": \"OT-J2-A900\", \"jardinCodigo\": \"J2\", \"fechaCreacion\": 3}],\"configuracion\": {\"titulo\": \"T\", \"contratista\": \"C\", \"prefijo_correlativo\": \"A\", \"ito_nombre\": \"I\"}}".to_string();
    a.importar_base_datos_completa(&doc).unwrap();
    a.crear_orden_trabajo("J1".to_string(), 10, None, vec![]).unwrap();
    let ordenes = a.get_ordenes_trabajo();
    // el alcance de J1 tenia maximo 7; el de J2 no cuenta
    assert_eq!(ordenes[3].codigo, "OT-J1-A008".to_string());
}

#[test]
fn informe_con_montos_negativos() {
    // un monto a pago negativo (multa mayor que el total) es admisible; los
    // porcentajes se truncan hacia cero con el signo del neto
    let mut a = base();
    let items = vec![
        ItemPago { id: None, monto: -1000 },
        ItemPago { id: None, monto: -2000 },
    ];
    a.crear_informe_pago("J1".to_string(), 20, None, items).unwrap();
    let informes = a.get_informes_pago();
    assert_eq!(informes[0].neto, -3000);
    assert_eq!(informes[0].utilidades, -300);
    assert_eq!(informes[0].iva, -627);
    assert_eq!(informes[0].total_final, -3927);
}

#[test]
fn truncamiento_de_porcentajes() {
    // con un neto no divisible, cada porcentaje se trunca hacia cero
    let mut a = base();
    let items = vec![ItemPago { id: None, monto: 105 }];
    a.crear_informe_pago("J1".to_string(), 20, None, items).unwrap();
    let informes = a.get_informes_pago();
    assert_eq!(informes[0].neto, 105);
    // el diez por ciento de 105 truncado es 10
    assert_eq!(informes[0].utilidades, 10);
    // el diecinueve por ciento de 115 es 21.85, truncado 21
    assert_eq!(informes[0].iva, 21);
    assert_eq!(informes[0].total_final, 136);
}
