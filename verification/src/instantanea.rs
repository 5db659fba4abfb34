//! La instantánea tipada que consume el reconciliador de importación, su
//! condición de validez, y las funciones que describen el almacén que una
//! importación completa produce: los identificadores sustitutos se regeneran
//! y los vínculos se resuelven solo por códigos de negocio.

use vstd::prelude::*;
use crate::entidades::{
    Jardin, Partida, Recinto, Requerimiento, OrdenTrabajo, InformePago, Estado, CANTIDAD_MAX,
    PRECIO_MAX, PRECIO_TOTAL_MAX, MULTA_MAX, FECHA_MAX, PLAZO_MAX, AGREGADO_MAX,
};

verus! {

/// Cota para el número de filas de una sección de la instantánea.
pub const FILAS_MAX: usize = 1_000_000_000;

/// Fila de jardín de una instantánea.
#[derive(Debug)]
pub struct JardinImportado {
    pub codigo: String,
    pub nombre: String,
}

/// Fila de partida de una instantánea.
#[derive(Debug)]
pub struct PartidaImportada {
    pub item: String,
    pub partida: String,
    pub unidad: Option<String>,
    pub precio_unitario: i64,
}

/// Fila de recinto de una instantánea.
#[derive(Debug)]
pub struct RecintoImportado {
    pub jardin_codigo: String,
    pub nombre: String,
}

/// Fila de orden de trabajo de una instantánea.
#[derive(Debug)]
pub struct OrdenImportada {
    pub codigo: String,
    pub jardin_codigo: String,
    pub fecha_creacion: i64,
    pub observaciones: Option<String>,
}

/// Fila de informe de pago de una instantánea: los totales vienen dados y se
/// insertan tal cual.
#[derive(Debug)]
pub struct InformeImportado {
    pub codigo: String,
    pub jardin_codigo: String,
    pub fecha_creacion: i64,
    pub neto: i64,
    pub utilidades: i64,
    pub iva: i64,
    pub total_final: i64,
    pub observaciones: Option<String>,
}

/// Fila de requerimiento de una instantánea. Los vínculos a orden e informe
/// vienen como códigos de negocio; cualquier identificador numérico de la
/// fuente se pasa por alto.
#[derive(Debug)]
pub struct RequerimientoImportado {
    pub jardin_codigo: String,
    pub recinto: Option<String>,
    pub partida_item: String,
    pub cantidad: i64,
    pub precio_unitario: i64,
    pub precio_total: Option<i64>,
    pub fecha_inicio: i64,
    pub fecha_registro: i64,
    pub ot_codigo: Option<String>,
    pub informe_codigo: Option<String>,
    pub plazo_dias: i64,
    pub plazo_adicional: i64,
    pub multa: i64,
    pub descripcion: Option<String>,
    pub observaciones: Option<String>,
    pub fecha_recepcion: Option<i64>,
}

/// Sección de configuración de una instantánea.
#[derive(Debug)]
pub struct ConfiguracionImportada {
    pub titulo: String,
    pub contratista: String,
    pub prefijo_correlativo: String,
    pub ito_nombre: String,
    pub firma_png_base64: Option<String>,
}

/// Una instantánea completa; cada sección es opcional.
#[derive(Debug)]
pub struct BaseDatosCompleta {
    pub jardines: Option<Vec<JardinImportado>>,
    pub partidas: Option<Vec<PartidaImportada>>,
    pub recintos: Option<Vec<RecintoImportado>>,
    pub requerimientos: Option<Vec<RequerimientoImportado>>,
    pub ordenes_trabajo: Option<Vec<OrdenImportada>>,
    pub informes_pago: Option<Vec<InformeImportado>>,
    pub configuracion: Option<ConfiguracionImportada>,
}

/// Un documento de catálogo; cada sección es opcional.
#[derive(Debug)]
pub struct CatalogoImport {
    pub jardines: Option<Vec<JardinImportado>>,
    pub partidas: Option<Vec<PartidaImportada>>,
    pub recintos: Option<Vec<RecintoImportado>>,
}

/// Las filas de una sección opcional, o ninguna.
pub open spec fn filas_de<T>(seccion: Option<Vec<T>>) -> Seq<T> {
    match seccion {
        Some(v) => v@,
        None => Seq::<T>::empty(),
    }
}

/// Si algún jardín construido lleva el código dado.
pub open spec fn contiene_codigo_jardin(s: Seq<Jardin>, codigo: Seq<char>) -> bool {
    exists|i: int| 0 <= i < s.len() && s[i].codigo@ == codigo
}

/// Si alguna partida construida lleva el ítem dado.
pub open spec fn contiene_item_partida(s: Seq<Partida>, item: Seq<char>) -> bool {
    exists|i: int| 0 <= i < s.len() && s[i].item@ == item
}

/// Los jardines que deja una carga con supresión de duplicados: la primera
/// aparición de cada código gana y las siguientes se ignoran en silencio;
/// los identificadores parten en `desde` y crecen de uno en uno.
pub open spec fn jardines_cargados(previos: Seq<Jardin>, filas: Seq<JardinImportado>, desde: int) -> Seq<
    Jardin,
>
    decreases filas.len(),
{
    if filas.len() == 0 {
        previos
    } else {
        let pre = jardines_cargados(previos, filas.drop_last(), desde);
        let fila = filas.last();
        if contiene_codigo_jardin(pre, fila.codigo@) {
            pre
        } else {
            pre.push(
                Jardin {
                    id: (desde + pre.len() - previos.len()) as i64,
                    codigo: fila.codigo,
                    nombre: fila.nombre,
                },
            )
        }
    }
}

/// Las partidas que deja una carga con supresión de duplicados por ítem.
pub open spec fn partidas_cargadas(
    previos: Seq<Partida>,
    filas: Seq<PartidaImportada>,
    desde: int,
) -> Seq<Partida>
    decreases filas.len(),
{
    if filas.len() == 0 {
        previos
    } else {
        let pre = partidas_cargadas(previos, filas.drop_last(), desde);
        let fila = filas.last();
        if contiene_item_partida(pre, fila.item@) {
            pre
        } else {
            pre.push(
                Partida {
                    id: (desde + pre.len() - previos.len()) as i64,
                    item: fila.item,
                    partida: fila.partida,
                    unidad: fila.unidad,
                    precio_unitario: fila.precio_unitario,
                },
            )
        }
    }
}

/// Los recintos que deja una carga sin supresión de duplicados.
pub open spec fn recintos_cargados(
    previos: Seq<Recinto>,
    filas: Seq<RecintoImportado>,
    desde: int,
) -> Seq<Recinto> {
    previos + Seq::new(
        filas.len(),
        |i: int| Recinto {
            id: (desde + i) as i64,
            jardin_codigo: filas[i].jardin_codigo,
            nombre: filas[i].nombre,
        },
    )
}

/// Las órdenes de trabajo que una importación completa construye, con
/// identificadores nuevos en el orden de las filas.
pub open spec fn ordenes_importadas(filas: Seq<OrdenImportada>, marca: u64) -> Seq<OrdenTrabajo> {
    Seq::new(
        filas.len(),
        |i: int| OrdenTrabajo {
            id: (i + 1) as i64,
            codigo: filas[i].codigo,
            jardin_codigo: filas[i].jardin_codigo,
            fecha_creacion: filas[i].fecha_creacion,
            observaciones: filas[i].observaciones,
            updated_at: marca,
        },
    )
}

/// Los informes de pago que una importación completa construye.
pub open spec fn informes_importados(filas: Seq<InformeImportado>, marca: u64) -> Seq<InformePago> {
    Seq::new(
        filas.len(),
        |i: int| InformePago {
            id: (i + 1) as i64,
            codigo: filas[i].codigo,
            jardin_codigo: filas[i].jardin_codigo,
            fecha_creacion: filas[i].fecha_creacion,
            neto: filas[i].neto,
            utilidades: filas[i].utilidades,
            iva: filas[i].iva,
            total_final: filas[i].total_final,
            observaciones: filas[i].observaciones,
            updated_at: marca,
        },
    )
}

/// La primera orden con el código dado.
pub open spec fn busca_orden_codigo(s: Seq<OrdenTrabajo>, codigo: Seq<char>) -> Option<OrdenTrabajo>
    decreases s.len(),
{
    if s.len() == 0 {
        None
    } else if s[0].codigo@ == codigo {
        Some(s[0])
    } else {
        busca_orden_codigo(s.skip(1), codigo)
    }
}

/// El primer informe con el código dado.
pub open spec fn busca_informe_codigo(s: Seq<InformePago>, codigo: Seq<char>) -> Option<InformePago>
    decreases s.len(),
{
    if s.len() == 0 {
        None
    } else if s[0].codigo@ == codigo {
        Some(s[0])
    } else {
        busca_informe_codigo(s.skip(1), codigo)
    }
}

/// El requerimiento que una fila de instantánea produce: el vínculo al
/// informe se resuelve por código, y solo a falta de informe se resuelve el
/// vínculo a la orden, de modo que nunca queden ambos; el estado refleja el
/// vínculo resuelto; el total almacenado es el dado o, a falta de él, el
/// producto de cantidad y precio.
pub open spec fn requerimiento_importado_a(
    fila: RequerimientoImportado,
    ordenes: Seq<OrdenTrabajo>,
    informes: Seq<InformePago>,
    id: int,
    marca: u64,
) -> Requerimiento {
    let informe = match fila.informe_codigo {
        Some(c) => busca_informe_codigo(informes, c@),
        None => None,
    };
    let orden = if informe is Some {
        None
    } else {
        match fila.ot_codigo {
            Some(c) => busca_orden_codigo(ordenes, c@),
            None => None,
        }
    };
    Requerimiento {
        id: id as i64,
        jardin_codigo: fila.jardin_codigo,
        recinto: fila.recinto,
        partida_item: fila.partida_item,
        cantidad: fila.cantidad,
        precio_unitario: fila.precio_unitario,
        precio_total: match fila.precio_total {
            Some(t) => t,
            None => (fila.cantidad as int * fila.precio_unitario as int) as i64,
        },
        fecha_inicio: fila.fecha_inicio,
        fecha_registro: fila.fecha_registro,
        estado: if informe is Some {
            Estado::EnInforme
        } else if orden is Some {
            Estado::EnOt
        } else {
            Estado::Pendiente
        },
        ot_id: match orden {
            Some(o) => Some(o.id),
            None => None,
        },
        informe_pago_id: match informe {
            Some(o) => Some(o.id),
            None => None,
        },
        fecha_recepcion: fila.fecha_recepcion,
        plazo_dias: fila.plazo_dias,
        plazo_adicional: fila.plazo_adicional,
        multa: fila.multa,
        descripcion: fila.descripcion,
        observaciones: fila.observaciones,
        updated_at: marca,
    }
}

/// Los requerimientos que una importación completa construye.
pub open spec fn requerimientos_importados(
    filas: Seq<RequerimientoImportado>,
    ordenes: Seq<OrdenTrabajo>,
    informes: Seq<InformePago>,
    marca: u64,
) -> Seq<Requerimiento> {
    Seq::new(
        filas.len(),
        |i: int| requerimiento_importado_a(filas[i], ordenes, informes, i + 1, marca),
    )
}

/// Cotas numéricas de una fila de requerimiento.
pub open spec fn requerimiento_importado_acotado(fila: RequerimientoImportado) -> bool {
    &&& -CANTIDAD_MAX <= fila.cantidad <= CANTIDAD_MAX
    &&& -PRECIO_MAX <= fila.precio_unitario <= PRECIO_MAX
    &&& (fila.precio_total matches Some(t) ==> -PRECIO_TOTAL_MAX <= t <= PRECIO_TOTAL_MAX)
    &&& -MULTA_MAX <= fila.multa <= MULTA_MAX
    &&& -FECHA_MAX <= fila.fecha_inicio <= FECHA_MAX
    &&& -FECHA_MAX <= fila.fecha_registro <= FECHA_MAX
    &&& (fila.fecha_recepcion matches Some(f) ==> -FECHA_MAX <= f <= FECHA_MAX)
    &&& -PLAZO_MAX <= fila.plazo_dias <= PLAZO_MAX
    &&& -PLAZO_MAX <= fila.plazo_adicional <= PLAZO_MAX
}

/// Validez de una instantánea completa: cotas numéricas en partidas,
/// requerimientos e informes; códigos de órdenes e informes sin repetición;
/// y pares jardín y nombre de recintos sin repetición. Una instantánea que
/// las incumple aborta entera, como cualquier violación del almacén.
pub open spec fn instantanea_valida(d: BaseDatosCompleta) -> bool {
    &&& forall|i: int|
        0 <= i < filas_de(d.partidas).len() ==> -PRECIO_MAX <= (#[trigger] filas_de(
            d.partidas,
        )[i]).precio_unitario <= PRECIO_MAX
    &&& forall|i: int|
        0 <= i < filas_de(d.requerimientos).len() ==> requerimiento_importado_acotado(
            #[trigger] filas_de(d.requerimientos)[i],
        )
    &&& forall|i: int|
        0 <= i < filas_de(d.informes_pago).len() ==> {
            let f = #[trigger] filas_de(d.informes_pago)[i];
            &&& -AGREGADO_MAX <= f.neto <= AGREGADO_MAX
            &&& -AGREGADO_MAX <= f.utilidades <= AGREGADO_MAX
            &&& -AGREGADO_MAX <= f.iva <= AGREGADO_MAX
            &&& -AGREGADO_MAX <= f.total_final <= AGREGADO_MAX
        }
    &&& forall|i: int, j: int|
        0 <= i < j < filas_de(d.ordenes_trabajo).len() ==> filas_de(d.ordenes_trabajo)[i].codigo@
            != filas_de(d.ordenes_trabajo)[j].codigo@
    &&& forall|i: int, j: int|
        0 <= i < j < filas_de(d.informes_pago).len() ==> filas_de(d.informes_pago)[i].codigo@
            != filas_de(d.informes_pago)[j].codigo@
    &&& forall|i: int, j: int|
        0 <= i < j < filas_de(d.recintos).len() ==> !(filas_de(d.recintos)[i].jardin_codigo@
            == filas_de(d.recintos)[j].jardin_codigo@ && filas_de(d.recintos)[i].nombre@
            == filas_de(d.recintos)[j].nombre@)
}

} // verus!
