//! Reconciliador de importación. La importación completa repone una
//! instantánea entera: borra todos los datos operacionales, inserta jardines
//! y partidas ignorando duplicados, recintos sin supresión, órdenes e
//! informes registrando sus códigos, y los requerimientos al final, con los
//! vínculos resueltos estrictamente por código de negocio; la configuración
//! solo se sobreescribe si la instantánea trae esa sección. La importación de
//! catálogo solo agrega, ignorando jardines y partidas duplicados. Toda la
//! secuencia es atómica: una instantánea inválida no cambia nada.

use vstd::prelude::*;
use crate::entidades::{
    Jardin, Partida, Recinto, Requerimiento, OrdenTrabajo, InformePago, Estado, PRECIO_MAX,
    AGREGADO_MAX,
};
use crate::almacen::{Almacen, existe_jardin, existe_partida, existe_recinto, existe_orden,
    existe_informe};
use crate::instantanea::{
    JardinImportado, PartidaImportada, RecintoImportado, OrdenImportada, InformeImportado,
    RequerimientoImportado, ConfiguracionImportada, BaseDatosCompleta, CatalogoImport, filas_de,
    jardines_cargados, partidas_cargadas, recintos_cargados, ordenes_importadas,
    informes_importados, requerimientos_importados, requerimiento_importado_a,
    requerimiento_importado_acotado, instantanea_valida, busca_orden_codigo, busca_informe_codigo,
    contiene_codigo_jardin, contiene_item_partida, FILAS_MAX,
};
use crate::numeros::{digitos, entero_a_texto};
use crate::codificacion::{b64_bytes_de, decodificar_b64};
use crate::requerimientos::{clonar_opt_texto, lema_producto_acotado};

verus! {

/// El resumen de una importación completa, con la cuenta de filas procesadas
/// por sección.
pub open spec fn resumen_importacion(a: nat, b: nat, c: nat, d: nat, e: nat, f: nat) -> Seq<char> {
    "Importado: "@ + digitos(a) + " jardines, "@ + digitos(b) + " partidas, "@ + digitos(c)
        + " recintos, "@ + digitos(d) + " requerimientos, "@ + digitos(e) + " OTs, "@ + digitos(f)
        + " informes"@
}

/// El resumen de una importación de catálogo.
pub open spec fn resumen_catalogo(n: nat) -> Seq<char> {
    digitos(n) + " registros importados"@
}

/// Validez de un documento de catálogo contra un almacén: precios de partidas
/// en rango, y pares jardín y nombre de recintos sin repetición, ni entre sí
/// ni contra los recintos ya almacenados.
pub open spec fn catalogo_valido(
    recintos_previos: Seq<Recinto>,
    d: CatalogoImport,
) -> bool {
    &&& forall|i: int|
        0 <= i < filas_de(d.partidas).len() ==> -PRECIO_MAX <= (#[trigger] filas_de(
            d.partidas,
        )[i]).precio_unitario <= PRECIO_MAX
    &&& forall|i: int, j: int|
        0 <= i < j < filas_de(d.recintos).len() ==> !(filas_de(d.recintos)[i].jardin_codigo@
            == filas_de(d.recintos)[j].jardin_codigo@ && filas_de(d.recintos)[i].nombre@
            == filas_de(d.recintos)[j].nombre@)
    &&& forall|i: int|
        0 <= i < filas_de(d.recintos).len() ==> !existe_recinto(
            recintos_previos,
            (#[trigger] filas_de(d.recintos)[i]).jardin_codigo@,
            filas_de(d.recintos)[i].nombre@,
        )
}

/// Si la búsqueda por código encuentra una orden, esa orden está en la
/// secuencia.
proof fn lema_busca_orden_codigo_en(s: Seq<OrdenTrabajo>, codigo: Seq<char>)
    ensures
        match busca_orden_codigo(s, codigo) {
            Some(x) => exists|i: int| 0 <= i < s.len() && s[i] == x,
            None => true,
        },
    decreases s.len(),
{
    if s.len() > 0 && s[0].codigo@ != codigo {
        lema_busca_orden_codigo_en(s.skip(1), codigo);
        match busca_orden_codigo(s.skip(1), codigo) {
            Some(x) => {
                let i = choose|i: int| 0 <= i < s.skip(1).len() && s.skip(1)[i] == x;
                assert(s[i + 1] == x);
            },
            None => {},
        }
    }
}

/// Si la búsqueda por código encuentra un informe, ese informe está en la
/// secuencia.
proof fn lema_busca_informe_codigo_en(s: Seq<InformePago>, codigo: Seq<char>)
    ensures
        match busca_informe_codigo(s, codigo) {
            Some(x) => exists|i: int| 0 <= i < s.len() && s[i] == x,
            None => true,
        },
    decreases s.len(),
{
    if s.len() > 0 && s[0].codigo@ != codigo {
        lema_busca_informe_codigo_en(s.skip(1), codigo);
        match busca_informe_codigo(s.skip(1), codigo) {
            Some(x) => {
                let i = choose|i: int| 0 <= i < s.skip(1).len() && s.skip(1)[i] == x;
                assert(s[i + 1] == x);
            },
            None => {},
        }
    }
}

impl Almacen {
    /// Carga filas de jardines ignorando en silencio los códigos ya
    /// presentes; la primera aparición gana.
    pub(crate) fn cargar_jardines(&mut self, filas: &Vec<JardinImportado>)
        requires
            old(self).wf(),
            filas@.len() <= FILAS_MAX,
            old(self).sig_jardin <= i64::MAX - FILAS_MAX,
        ensures
            final(self).wf(),
            final(self).jardines@ == jardines_cargados(
                old(self).jardines@,
                filas@,
                old(self).sig_jardin as int,
            ),
            final(self).sig_jardin == old(self).sig_jardin + final(self).jardines@.len() - old(self).jardines@.len(),
            *final(self) == (Almacen {
                jardines: final(self).jardines,
                sig_jardin: final(self).sig_jardin,
                ..*old(self)
            }),
    {
        let mut i: usize = 0;
        proof {
            assert(jardines_cargados(
                old(self).jardines@,
                filas@.take(0int),
                old(self).sig_jardin as int,
            ) == old(self).jardines@);
        }
        while i < filas.len()
            invariant
                old(self).wf(),
                self.wf(),
                filas@.len() <= FILAS_MAX,
                old(self).sig_jardin <= i64::MAX - FILAS_MAX,
                i <= filas@.len(),
                self.jardines@ == jardines_cargados(
                    old(self).jardines@,
                    filas@.take(i as int),
                    old(self).sig_jardin as int,
                ),
                self.jardines@.len() <= old(self).jardines@.len() + i,
                self.sig_jardin == old(self).sig_jardin + self.jardines@.len() - old(self).jardines@.len(),
                *self == (Almacen {
                    jardines: self.jardines,
                    sig_jardin: self.sig_jardin,
                    ..*old(self)
                }),
            decreases filas@.len() - i,
        {
            proof {
                assert(filas@.take(i as int + 1).drop_last() =~= filas@.take(i as int));
                assert(filas@.take(i as int + 1).last() == filas@[i as int]);
            }
            let fila = &filas[i];
            let mut existe: bool = false;
            let mut k: usize = 0;
            while k < self.jardines.len()
                invariant
                    k <= self.jardines@.len(),
                    existe <==> exists|m: int|
                        0 <= m < k && #[trigger] self.jardines@[m].codigo@ == fila.codigo@,
                decreases self.jardines@.len() - k,
            {
                if self.jardines[k].codigo == fila.codigo {
                    existe = true;
                }
                k = k + 1;
            }
            if !existe {
                let id = self.sig_jardin;
                self.jardines.push(
                    Jardin { id, codigo: fila.codigo.clone(), nombre: fila.nombre.clone() },
                );
                self.sig_jardin = id + 1;
                proof {
                    assert(self.jardines@.last() == (Jardin {
                        id: id,
                        codigo: filas@[i as int].codigo,
                        nombre: filas@[i as int].nombre,
                    }));
                }
            }
            i = i + 1;
        }
        proof {
            assert(filas@.take(filas@.len() as int) =~= filas@);
        }
    }

    /// Carga filas de partidas ignorando en silencio los ítems ya presentes.
    pub(crate) fn cargar_partidas(&mut self, filas: &Vec<PartidaImportada>)
        requires
            old(self).wf(),
            filas@.len() <= FILAS_MAX,
            old(self).sig_partida <= i64::MAX - FILAS_MAX,
            forall|i: int|
                0 <= i < filas@.len() ==> -PRECIO_MAX <= (#[trigger] filas@[i]).precio_unitario
                    <= PRECIO_MAX,
        ensures
            final(self).wf(),
            final(self).partidas@ == partidas_cargadas(
                old(self).partidas@,
                filas@,
                old(self).sig_partida as int,
            ),
            final(self).sig_partida == old(self).sig_partida + final(self).partidas@.len() - old(self).partidas@.len(),
            *final(self) == (Almacen {
                partidas: final(self).partidas,
                sig_partida: final(self).sig_partida,
                ..*old(self)
            }),
    {
        let mut i: usize = 0;
        proof {
            assert(partidas_cargadas(
                old(self).partidas@,
                filas@.take(0int),
                old(self).sig_partida as int,
            ) == old(self).partidas@);
        }
        while i < filas.len()
            invariant
                old(self).wf(),
                self.wf(),
                filas@.len() <= FILAS_MAX,
                old(self).sig_partida <= i64::MAX - FILAS_MAX,
                forall|m: int|
                    0 <= m < filas@.len() ==> -PRECIO_MAX <= (#[trigger] filas@[m]).precio_unitario
                        <= PRECIO_MAX,
                i <= filas@.len(),
                self.partidas@ == partidas_cargadas(
                    old(self).partidas@,
                    filas@.take(i as int),
                    old(self).sig_partida as int,
                ),
                self.partidas@.len() <= old(self).partidas@.len() + i,
                self.sig_partida == old(self).sig_partida + self.partidas@.len() - old(self).partidas@.len(),
                *self == (Almacen {
                    partidas: self.partidas,
                    sig_partida: self.sig_partida,
                    ..*old(self)
                }),
            decreases filas@.len() - i,
        {
            proof {
                assert(filas@.take(i as int + 1).drop_last() =~= filas@.take(i as int));
                assert(filas@.take(i as int + 1).last() == filas@[i as int]);
            }
            let fila = &filas[i];
            let mut existe: bool = false;
            let mut k: usize = 0;
            while k < self.partidas.len()
                invariant
                    k <= self.partidas@.len(),
                    existe <==> exists|m: int|
                        0 <= m < k && #[trigger] self.partidas@[m].item@ == fila.item@,
                decreases self.partidas@.len() - k,
            {
                if self.partidas[k].item == fila.item {
                    existe = true;
                }
                k = k + 1;
            }
            if !existe {
                let id = self.sig_partida;
                self.partidas.push(
                    Partida {
                        id,
                        item: fila.item.clone(),
                        partida: fila.partida.clone(),
                        unidad: clonar_opt_texto(&fila.unidad),
                        precio_unitario: fila.precio_unitario,
                    },
                );
                self.sig_partida = id + 1;
                proof {
                    assert(self.partidas@.last() == (Partida {
                        id: id,
                        item: filas@[i as int].item,
                        partida: filas@[i as int].partida,
                        unidad: filas@[i as int].unidad,
                        precio_unitario: filas@[i as int].precio_unitario,
                    }));
                }
            }
            i = i + 1;
        }
        proof {
            assert(filas@.take(filas@.len() as int) =~= filas@);
        }
    }

    /// Carga filas de recintos sin supresión de duplicados; el llamador ya
    /// comprobó que no los hay.
    pub(crate) fn cargar_recintos(&mut self, filas: &Vec<RecintoImportado>)
        requires
            old(self).wf(),
            filas@.len() <= FILAS_MAX,
            old(self).sig_recinto <= i64::MAX - FILAS_MAX,
            forall|i: int, j: int|
                0 <= i < j < filas@.len() ==> !(filas@[i].jardin_codigo@ == filas@[j].jardin_codigo@
                    && filas@[i].nombre@ == filas@[j].nombre@),
            forall|i: int|
                0 <= i < filas@.len() ==> !existe_recinto(
                    old(self).recintos@,
                    (#[trigger] filas@[i]).jardin_codigo@,
                    filas@[i].nombre@,
                ),
        ensures
            final(self).wf(),
            final(self).recintos@ == recintos_cargados(
                old(self).recintos@,
                filas@,
                old(self).sig_recinto as int,
            ),
            final(self).sig_recinto == old(self).sig_recinto + filas@.len(),
            *final(self) == (Almacen {
                recintos: final(self).recintos,
                sig_recinto: final(self).sig_recinto,
                ..*old(self)
            }),
    {
        let mut i: usize = 0;
        while i < filas.len()
            invariant
                old(self).wf(),
                self.wf(),
                filas@.len() <= FILAS_MAX,
                old(self).sig_recinto <= i64::MAX - FILAS_MAX,
                forall|a: int, b: int|
                    0 <= a < b < filas@.len() ==> !(filas@[a].jardin_codigo@
                        == filas@[b].jardin_codigo@ && filas@[a].nombre@ == filas@[b].nombre@),
                forall|a: int|
                    0 <= a < filas@.len() ==> !existe_recinto(
                        old(self).recintos@,
                        (#[trigger] filas@[a]).jardin_codigo@,
                        filas@[a].nombre@,
                    ),
                i <= filas@.len(),
                self.recintos@ == recintos_cargados(
                    old(self).recintos@,
                    filas@.take(i as int),
                    old(self).sig_recinto as int,
                ),
                self.recintos@.len() == old(self).recintos@.len() + i,
                self.sig_recinto == old(self).sig_recinto + i,
                *self == (Almacen {
                    recintos: self.recintos,
                    sig_recinto: self.sig_recinto,
                    ..*old(self)
                }),
            decreases filas@.len() - i,
        {
            let fila = &filas[i];
            let id = self.sig_recinto;
            self.recintos.push(
                Recinto {
                    id,
                    jardin_codigo: fila.jardin_codigo.clone(),
                    nombre: fila.nombre.clone(),
                },
            );
            self.sig_recinto = id + 1;
            proof {
                assert(self.recintos@ =~= recintos_cargados(
                    old(self).recintos@,
                    filas@.take(i as int + 1),
                    old(self).sig_recinto as int,
                ));
                // el recinto recién cargado no choca ni con los previos ni con
                // los de la misma carga
                assert forall|a: int, b: int|
                    0 <= a < b < self.recintos@.len() implies self.recintos@[a].id
                    != self.recintos@[b].id && !(self.recintos@[a].jardin_codigo@
                    == self.recintos@[b].jardin_codigo@ && self.recintos@[a].nombre@
                    == self.recintos@[b].nombre@) by {
                    let base = old(self).recintos@.len() as int;
                    if b >= base {
                        assert(self.recintos@[b].jardin_codigo@ == filas@[b - base].jardin_codigo@
                            && self.recintos@[b].nombre@ == filas@[b - base].nombre@);
                        if a >= base {
                            assert(self.recintos@[a].jardin_codigo@ == filas@[a
                                - base].jardin_codigo@ && self.recintos@[a].nombre@ == filas@[a
                                - base].nombre@);
                        } else {
                            assert(!existe_recinto(
                                old(self).recintos@,
                                filas@[b - base].jardin_codigo@,
                                filas@[b - base].nombre@,
                            ));
                            assert(self.recintos@[a] == old(self).recintos@[a]);
                        }
                    }
                }
            }
            i = i + 1;
        }
        proof {
            assert(filas@.take(filas@.len() as int) =~= filas@);
            assert(self.recintos@ =~= recintos_cargados(
                old(self).recintos@,
                filas@,
                old(self).sig_recinto as int,
            ));
        }
    }

    /// Carga filas de órdenes de trabajo en un almacén sin órdenes ni
    /// requerimientos, con identificadores nuevos en el orden de las filas.
    fn cargar_ordenes(&mut self, filas: &Vec<OrdenImportada>, marca: u64)
        requires
            old(self).wf(),
            old(self).ordenes_trabajo@.len() == 0,
            old(self).requerimientos@.len() == 0,
            old(self).sig_orden == 1,
            filas@.len() <= FILAS_MAX,
            forall|i: int, j: int|
                0 <= i < j < filas@.len() ==> filas@[i].codigo@ != filas@[j].codigo@,
        ensures
            final(self).wf(),
            final(self).requerimientos@.len() == 0,
            final(self).ordenes_trabajo@ == ordenes_importadas(filas@, marca),
            final(self).sig_orden == filas@.len() + 1,
            *final(self) == (Almacen {
                ordenes_trabajo: final(self).ordenes_trabajo,
                sig_orden: final(self).sig_orden,
                ..*old(self)
            }),
    {
        let mut i: usize = 0;
        while i < filas.len()
            invariant
                old(self).wf(),
                self.wf(),
                old(self).requerimientos@.len() == 0,
                filas@.len() <= FILAS_MAX,
                forall|a: int, b: int|
                    0 <= a < b < filas@.len() ==> filas@[a].codigo@ != filas@[b].codigo@,
                i <= filas@.len(),
                self.ordenes_trabajo@.len() == i,
                forall|k: int|
                    0 <= k < i ==> self.ordenes_trabajo@[k] == (OrdenTrabajo {
                        id: (k + 1) as i64,
                        codigo: filas@[k].codigo,
                        jardin_codigo: filas@[k].jardin_codigo,
                        fecha_creacion: filas@[k].fecha_creacion,
                        observaciones: filas@[k].observaciones,
                        updated_at: marca,
                    }),
                self.sig_orden == i + 1,
                *self == (Almacen {
                    ordenes_trabajo: self.ordenes_trabajo,
                    sig_orden: self.sig_orden,
                    ..*old(self)
                }),
            decreases filas@.len() - i,
        {
            let fila = &filas[i];
            let id = self.sig_orden;
            self.ordenes_trabajo.push(
                OrdenTrabajo {
                    id,
                    codigo: fila.codigo.clone(),
                    jardin_codigo: fila.jardin_codigo.clone(),
                    fecha_creacion: fila.fecha_creacion,
                    observaciones: clonar_opt_texto(&fila.observaciones),
                    updated_at: marca,
                },
            );
            self.sig_orden = id + 1;
            i = i + 1;
        }
        proof {
            assert(self.ordenes_trabajo@ =~= ordenes_importadas(filas@, marca));
        }
    }

    /// Carga filas de informes de pago en un almacén sin informes ni
    /// requerimientos, con los totales tal como vienen.
    fn cargar_informes(&mut self, filas: &Vec<InformeImportado>, marca: u64)
        requires
            old(self).wf(),
            old(self).informes_pago@.len() == 0,
            old(self).requerimientos@.len() == 0,
            old(self).sig_informe == 1,
            filas@.len() <= FILAS_MAX,
            forall|i: int, j: int|
                0 <= i < j < filas@.len() ==> filas@[i].codigo@ != filas@[j].codigo@,
        ensures
            final(self).wf(),
            final(self).requerimientos@.len() == 0,
            final(self).informes_pago@ == informes_importados(filas@, marca),
            final(self).sig_informe == filas@.len() + 1,
            *final(self) == (Almacen {
                informes_pago: final(self).informes_pago,
                sig_informe: final(self).sig_informe,
                ..*old(self)
            }),
    {
        let mut i: usize = 0;
        while i < filas.len()
            invariant
                old(self).wf(),
                self.wf(),
                old(self).requerimientos@.len() == 0,
                filas@.len() <= FILAS_MAX,
                forall|a: int, b: int|
                    0 <= a < b < filas@.len() ==> filas@[a].codigo@ != filas@[b].codigo@,
                i <= filas@.len(),
                self.informes_pago@.len() == i,
                forall|k: int|
                    0 <= k < i ==> self.informes_pago@[k] == (InformePago {
                        id: (k + 1) as i64,
                        codigo: filas@[k].codigo,
                        jardin_codigo: filas@[k].jardin_codigo,
                        fecha_creacion: filas@[k].fecha_creacion,
                        neto: filas@[k].neto,
                        utilidades: filas@[k].utilidades,
                        iva: filas@[k].iva,
                        total_final: filas@[k].total_final,
                        observaciones: filas@[k].observaciones,
                        updated_at: marca,
                    }),
                self.sig_informe == i + 1,
                *self == (Almacen {
                    informes_pago: self.informes_pago,
                    sig_informe: self.sig_informe,
                    ..*old(self)
                }),
            decreases filas@.len() - i,
        {
            let fila = &filas[i];
            let id = self.sig_informe;
            self.informes_pago.push(
                InformePago {
                    id,
                    codigo: fila.codigo.clone(),
                    jardin_codigo: fila.jardin_codigo.clone(),
                    fecha_creacion: fila.fecha_creacion,
                    neto: fila.neto,
                    utilidades: fila.utilidades,
                    iva: fila.iva,
                    total_final: fila.total_final,
                    observaciones: clonar_opt_texto(&fila.observaciones),
                    updated_at: marca,
                },
            );
            self.sig_informe = id + 1;
            i = i + 1;
        }
        proof {
            assert(self.informes_pago@ =~= informes_importados(filas@, marca));
        }
    }

    /// La primera orden de trabajo con el código dado.
    fn buscar_orden_por_codigo(&self, codigo: &String) -> (r: Option<&OrdenTrabajo>)
        ensures
            match r {
                Some(o) => busca_orden_codigo(self.ordenes_trabajo@, codigo@) == Some(*o),
                None => busca_orden_codigo(self.ordenes_trabajo@, codigo@) is None,
            },
    {
        let mut i: usize = 0;
        proof {
            assert(self.ordenes_trabajo@.skip(0int) =~= self.ordenes_trabajo@);
        }
        while i < self.ordenes_trabajo.len()
            invariant
                i <= self.ordenes_trabajo@.len(),
                busca_orden_codigo(self.ordenes_trabajo@, codigo@) == busca_orden_codigo(
                    self.ordenes_trabajo@.skip(i as int),
                    codigo@,
                ),
            decreases self.ordenes_trabajo@.len() - i,
        {
            proof {
                assert(self.ordenes_trabajo@.skip(i as int)[0] == self.ordenes_trabajo@[i as int]);
                assert(self.ordenes_trabajo@.skip(i as int).skip(1) =~= self.ordenes_trabajo@.skip(
                    i as int + 1,
                ));
            }
            if self.ordenes_trabajo[i].codigo == *codigo {
                return Some(&self.ordenes_trabajo[i]);
            }
            i = i + 1;
        }
        None
    }

    /// El primer informe de pago con el código dado.
    fn buscar_informe_por_codigo(&self, codigo: &String) -> (r: Option<&InformePago>)
        ensures
            match r {
                Some(o) => busca_informe_codigo(self.informes_pago@, codigo@) == Some(*o),
                None => busca_informe_codigo(self.informes_pago@, codigo@) is None,
            },
    {
        let mut i: usize = 0;
        proof {
            assert(self.informes_pago@.skip(0int) =~= self.informes_pago@);
        }
        while i < self.informes_pago.len()
            invariant
                i <= self.informes_pago@.len(),
                busca_informe_codigo(self.informes_pago@, codigo@) == busca_informe_codigo(
                    self.informes_pago@.skip(i as int),
                    codigo@,
                ),
            decreases self.informes_pago@.len() - i,
        {
            proof {
                assert(self.informes_pago@.skip(i as int)[0] == self.informes_pago@[i as int]);
                assert(self.informes_pago@.skip(i as int).skip(1) =~= self.informes_pago@.skip(
                    i as int + 1,
                ));
            }
            if self.informes_pago[i].codigo == *codigo {
                return Some(&self.informes_pago[i]);
            }
            i = i + 1;
        }
        None
    }

    /// Carga filas de requerimientos en un almacén sin requerimientos,
    /// resolviendo los vínculos por código contra las órdenes e informes ya
    /// cargados.
    fn cargar_requerimientos(&mut self, filas: &Vec<RequerimientoImportado>, marca: u64)
        requires
            old(self).wf(),
            old(self).requerimientos@.len() == 0,
            old(self).sig_requerimiento == 1,
            filas@.len() <= FILAS_MAX,
            forall|i: int|
                0 <= i < filas@.len() ==> requerimiento_importado_acotado(#[trigger] filas@[i]),
        ensures
            final(self).wf(),
            final(self).requerimientos@ == requerimientos_importados(
                filas@,
                old(self).ordenes_trabajo@,
                old(self).informes_pago@,
                marca,
            ),
            final(self).sig_requerimiento == filas@.len() + 1,
            *final(self) == (Almacen {
                requerimientos: final(self).requerimientos,
                sig_requerimiento: final(self).sig_requerimiento,
                ..*old(self)
            }),
    {
        let mut i: usize = 0;
        while i < filas.len()
            invariant
                old(self).wf(),
                self.wf(),
                filas@.len() <= FILAS_MAX,
                forall|m: int|
                    0 <= m < filas@.len() ==> requerimiento_importado_acotado(#[trigger] filas@[m]),
                i <= filas@.len(),
                self.requerimientos@.len() == i,
                forall|k: int|
                    0 <= k < i ==> self.requerimientos@[k] == requerimiento_importado_a(
                        filas@[k],
                        old(self).ordenes_trabajo@,
                        old(self).informes_pago@,
                        k + 1,
                        marca,
                    ),
                self.sig_requerimiento == i + 1,
                *self == (Almacen {
                    requerimientos: self.requerimientos,
                    sig_requerimiento: self.sig_requerimiento,
                    ..*old(self)
                }),
            decreases filas@.len() - i,
        {
            let fila = &filas[i];
            let informe = match &fila.informe_codigo {
                Some(c) => self.buscar_informe_por_codigo(c),
                None => None,
            };
            let informe_pago_id = match informe {
                Some(x) => Some(x.id),
                None => None,
            };
            let orden = if informe_pago_id.is_some() {
                None
            } else {
                match &fila.ot_codigo {
                    Some(c) => self.buscar_orden_por_codigo(c),
                    None => None,
                }
            };
            let ot_id = match orden {
                Some(x) => Some(x.id),
                None => None,
            };
            let estado = if informe_pago_id.is_some() {
                Estado::EnInforme
            } else if ot_id.is_some() {
                Estado::EnOt
            } else {
                Estado::Pendiente
            };
            proof {
                lema_producto_acotado(fila.cantidad as int, fila.precio_unitario as int);
            }
            let precio_total = match fila.precio_total {
                Some(t) => t,
                None => fila.cantidad * fila.precio_unitario,
            };
            let id = self.sig_requerimiento;
            let nuevo = Requerimiento {
                id,
                jardin_codigo: fila.jardin_codigo.clone(),
                recinto: clonar_opt_texto(&fila.recinto),
                partida_item: fila.partida_item.clone(),
                cantidad: fila.cantidad,
                precio_unitario: fila.precio_unitario,
                precio_total,
                fecha_inicio: fila.fecha_inicio,
                fecha_registro: fila.fecha_registro,
                estado,
                ot_id,
                informe_pago_id,
                fecha_recepcion: fila.fecha_recepcion,
                plazo_dias: fila.plazo_dias,
                plazo_adicional: fila.plazo_adicional,
                multa: fila.multa,
                descripcion: clonar_opt_texto(&fila.descripcion),
                observaciones: clonar_opt_texto(&fila.observaciones),
                updated_at: marca,
            };
            proof {
                assert(nuevo == requerimiento_importado_a(
                    filas@[i as int],
                    old(self).ordenes_trabajo@,
                    old(self).informes_pago@,
                    i as int + 1,
                    marca,
                ));
                match nuevo.ot_id {
                    Some(o) => {
                        lema_busca_orden_codigo_en(
                            self.ordenes_trabajo@,
                            match filas@[i as int].ot_codigo {
                                Some(c) => c@,
                                None => Seq::<char>::empty(),
                            },
                        );
                        assert(existe_orden(self.ordenes_trabajo@, o));
                    },
                    None => {},
                }
                match nuevo.informe_pago_id {
                    Some(o) => {
                        lema_busca_informe_codigo_en(
                            self.informes_pago@,
                            match filas@[i as int].informe_codigo {
                                Some(c) => c@,
                                None => Seq::<char>::empty(),
                            },
                        );
                        assert(existe_informe(self.informes_pago@, o));
                    },
                    None => {},
                }
            }
            self.requerimientos.push(nuevo);
            self.sig_requerimiento = id + 1;
            i = i + 1;
        }
        proof {
            assert(self.requerimientos@ =~= requerimientos_importados(
                filas@,
                old(self).ordenes_trabajo@,
                old(self).informes_pago@,
                marca,
            ));
        }
    }

    /// Repone el almacén entero desde una instantánea tipada: borra todos los
    /// datos operacionales y carga cada sección en el orden debido; la
    /// configuración se conserva salvo que la instantánea traiga esa sección,
    /// y una firma malformada se pasa por alto sin frustrar la importación.
    /// Falla, sin cambiar nada, exactamente cuando la instantánea es
    /// inválida. Devuelve el resumen con la cuenta de filas por sección.
    #[verifier::rlimit(100)]
    pub fn importar_base_datos(&mut self, datos: &BaseDatosCompleta) -> (r: Result<String, String>)
        requires
            old(self).wf(),
            filas_de(datos.jardines).len() <= FILAS_MAX,
            filas_de(datos.partidas).len() <= FILAS_MAX,
            filas_de(datos.recintos).len() <= FILAS_MAX,
            filas_de(datos.requerimientos).len() <= FILAS_MAX,
            filas_de(datos.ordenes_trabajo).len() <= FILAS_MAX,
            filas_de(datos.informes_pago).len() <= FILAS_MAX,
        ensures
            final(self).wf(),
            match r {
                Ok(resumen) => {
                    &&& instantanea_valida(*datos)
                    &&& final(self).jardines@ == jardines_cargados(
                        Seq::<Jardin>::empty(),
                        filas_de(datos.jardines),
                        1,
                    )
                    &&& final(self).partidas@ == partidas_cargadas(
                        Seq::<Partida>::empty(),
                        filas_de(datos.partidas),
                        1,
                    )
                    &&& final(self).recintos@ == recintos_cargados(
                        Seq::<Recinto>::empty(),
                        filas_de(datos.recintos),
                        1,
                    )
                    &&& final(self).ordenes_trabajo@ == ordenes_importadas(
                        filas_de(datos.ordenes_trabajo),
                        old(self).reloj_avanzado(),
                    )
                    &&& final(self).informes_pago@ == informes_importados(
                        filas_de(datos.informes_pago),
                        old(self).reloj_avanzado(),
                    )
                    &&& final(self).requerimientos@ == requerimientos_importados(
                        filas_de(datos.requerimientos),
                        final(self).ordenes_trabajo@,
                        final(self).informes_pago@,
                        old(self).reloj_avanzado(),
                    )
                    &&& match datos.configuracion {
                        Some(c) => {
                            &&& final(self).configuracion.titulo@ == c.titulo@
                            &&& final(self).configuracion.contratista@ == c.contratista@
                            &&& final(self).configuracion.prefijo_correlativo@
                                == c.prefijo_correlativo@
                            &&& final(self).configuracion.ito_nombre matches Some(n) && n@
                                == c.ito_nombre@
                            &&& match c.firma_png_base64 {
                                Some(t) => match b64_bytes_de(t@) {
                                    Some(b) => final(self).configuracion.firma_png matches Some(fb)
                                        && fb@ == b,
                                    None => final(self).configuracion.firma_png == old(self).configuracion.firma_png,
                                },
                                None => final(self).configuracion.firma_png == old(self).configuracion.firma_png,
                            }
                        },
                        None => final(self).configuracion == old(self).configuracion,
                    }
                    &&& final(self).sig_jardin == final(self).jardines@.len() + 1
                    &&& final(self).sig_partida == final(self).partidas@.len() + 1
                    &&& final(self).sig_recinto == filas_de(datos.recintos).len() + 1
                    &&& final(self).sig_orden == filas_de(datos.ordenes_trabajo).len() + 1
                    &&& final(self).sig_informe == filas_de(datos.informes_pago).len() + 1
                    &&& final(self).sig_requerimiento == filas_de(datos.requerimientos).len() + 1
                    &&& final(self).reloj == old(self).reloj_avanzado()
                    &&& resumen@ == resumen_importacion(
                        filas_de(datos.jardines).len(),
                        filas_de(datos.partidas).len(),
                        filas_de(datos.recintos).len(),
                        filas_de(datos.requerimientos).len(),
                        filas_de(datos.ordenes_trabajo).len(),
                        filas_de(datos.informes_pago).len(),
                    )
                },
                Err(_) => !instantanea_valida(*datos) && *final(self) == *old(self),
            },
    {
        // validar antes de borrar nada: la importación es atómica
        if let Some(filas) = &datos.partidas {
            let mut i: usize = 0;
            while i < filas.len()
                invariant
                    *self == *old(self),
                    old(self).wf(),
                    datos.partidas matches Some(v) && v@ == filas@,
                    i <= filas@.len(),
                    forall|k: int|
                        0 <= k < i ==> -PRECIO_MAX <= (#[trigger] filas@[k]).precio_unitario
                            <= PRECIO_MAX,
                decreases filas@.len() - i,
            {
                if filas[i].precio_unitario < -PRECIO_MAX || filas[i].precio_unitario > PRECIO_MAX {
                    proof {
                        assert(filas_de(datos.partidas) == filas@);
                    }
                    return Err(String::from_str("precio de partida fuera de rango"));
                }
                i = i + 1;
            }
        }
        if let Some(filas) = &datos.requerimientos {
            let mut i: usize = 0;
            while i < filas.len()
                invariant
                    *self == *old(self),
                    old(self).wf(),
                    datos.requerimientos matches Some(v) && v@ == filas@,
                    i <= filas@.len(),
                    forall|k: int|
                        0 <= k < i ==> requerimiento_importado_acotado(#[trigger] filas@[k]),
                decreases filas@.len() - i,
            {
                if !es_requerimiento_acotado(&filas[i]) {
                    proof {
                        assert(filas_de(datos.requerimientos) == filas@);
                        assert(!requerimiento_importado_acotado(
                            filas_de(datos.requerimientos)[i as int],
                        ));
                    }
                    return Err(String::from_str("requerimiento con valor fuera de rango"));
                }
                i = i + 1;
            }
        }
        if let Some(filas) = &datos.informes_pago {
            let mut i: usize = 0;
            while i < filas.len()
                invariant
                    *self == *old(self),
                    old(self).wf(),
                    datos.informes_pago matches Some(v) && v@ == filas@,
                    i <= filas@.len(),
                    forall|k: int|
                        0 <= k < i ==> {
                            let f = #[trigger] filas@[k];
                            &&& -AGREGADO_MAX <= f.neto <= AGREGADO_MAX
                            &&& -AGREGADO_MAX <= f.utilidades <= AGREGADO_MAX
                            &&& -AGREGADO_MAX <= f.iva <= AGREGADO_MAX
                            &&& -AGREGADO_MAX <= f.total_final <= AGREGADO_MAX
                        },
                decreases filas@.len() - i,
            {
                let f = &filas[i];
                if f.neto < -AGREGADO_MAX || f.neto > AGREGADO_MAX || f.utilidades < -AGREGADO_MAX
                    || f.utilidades > AGREGADO_MAX || f.iva < -AGREGADO_MAX || f.iva > AGREGADO_MAX
                    || f.total_final < -AGREGADO_MAX || f.total_final > AGREGADO_MAX {
                    proof {
                        assert(filas_de(datos.informes_pago) == filas@);
                    }
                    return Err(String::from_str("informe con monto fuera de rango"));
                }
                i = i + 1;
            }
            let mut i: usize = 0;
            while i < filas.len()
                invariant
                    *self == *old(self),
                    old(self).wf(),
                    datos.informes_pago matches Some(v) && v@ == filas@,
                    i <= filas@.len(),
                    forall|a: int, b: int|
                        0 <= a < b < i ==> filas@[a].codigo@ != filas@[b].codigo@,
                decreases filas@.len() - i,
            {
                let mut j: usize = 0;
                while j < i
                    invariant
                        *self == *old(self),
                        old(self).wf(),
                        datos.informes_pago matches Some(v) && v@ == filas@,
                        i < filas@.len(),
                        j <= i,
                        forall|a: int, b: int|
                            0 <= a < b < i ==> filas@[a].codigo@ != filas@[b].codigo@,
                        forall|a: int| 0 <= a < j ==> #[trigger] filas@[a].codigo@ != filas@[i as int].codigo@,
                    decreases i - j,
                {
                    if filas[j].codigo == filas[i].codigo {
                        proof {
                            assert(filas_de(datos.informes_pago) == filas@);
                            assert(filas_de(datos.informes_pago)[j as int].codigo@ == filas_de(
                                datos.informes_pago,
                            )[i as int].codigo@);
                        }
                        return Err(String::from_str("codigo de informe repetido"));
                    }
                    j = j + 1;
                }
                i = i + 1;
            }
        }
        if let Some(filas) = &datos.ordenes_trabajo {
            let mut i: usize = 0;
            while i < filas.len()
                invariant
                    *self == *old(self),
                    old(self).wf(),
                    datos.ordenes_trabajo matches Some(v) && v@ == filas@,
                    i <= filas@.len(),
                    forall|a: int, b: int|
                        0 <= a < b < i ==> filas@[a].codigo@ != filas@[b].codigo@,
                decreases filas@.len() - i,
            {
                let mut j: usize = 0;
                while j < i
                    invariant
                        *self == *old(self),
                        old(self).wf(),
                        datos.ordenes_trabajo matches Some(v) && v@ == filas@,
                        i < filas@.len(),
                        j <= i,
                        forall|a: int, b: int|
                            0 <= a < b < i ==> filas@[a].codigo@ != filas@[b].codigo@,
                        forall|a: int| 0 <= a < j ==> #[trigger] filas@[a].codigo@ != filas@[i as int].codigo@,
                    decreases i - j,
                {
                    if filas[j].codigo == filas[i].codigo {
                        proof {
                            assert(filas_de(datos.ordenes_trabajo) == filas@);
                            assert(filas_de(datos.ordenes_trabajo)[j as int].codigo@ == filas_de(
                                datos.ordenes_trabajo,
                            )[i as int].codigo@);
                        }
                        return Err(String::from_str("codigo de orden de trabajo repetido"));
                    }
                    j = j + 1;
                }
                i = i + 1;
            }
        }
        if let Some(filas) = &datos.recintos {
            let mut i: usize = 0;
            while i < filas.len()
                invariant
                    *self == *old(self),
                    old(self).wf(),
                    datos.recintos matches Some(v) && v@ == filas@,
                    i <= filas@.len(),
                    forall|a: int, b: int|
                        0 <= a < b < i ==> !(filas@[a].jardin_codigo@ == filas@[b].jardin_codigo@
                            && filas@[a].nombre@ == filas@[b].nombre@),
                decreases filas@.len() - i,
            {
                let mut j: usize = 0;
                while j < i
                    invariant
                        *self == *old(self),
                        old(self).wf(),
                        datos.recintos matches Some(v) && v@ == filas@,
                        i < filas@.len(),
                        j <= i,
                        forall|a: int, b: int|
                            0 <= a < b < i ==> !(filas@[a].jardin_codigo@
                                == filas@[b].jardin_codigo@ && filas@[a].nombre@
                                == filas@[b].nombre@),
                        forall|a: int|
                            0 <= a < j ==> !(#[trigger] filas@[a].jardin_codigo@
                                == filas@[i as int].jardin_codigo@ && filas@[a].nombre@
                                == filas@[i as int].nombre@),
                    decreases i - j,
                {
                    if filas[j].jardin_codigo == filas[i].jardin_codigo && filas[j].nombre
                        == filas[i].nombre {
                        proof {
                            assert(filas_de(datos.recintos) == filas@);
                            assert(filas_de(datos.recintos)[j as int].jardin_codigo@ == filas_de(
                                datos.recintos,
                            )[i as int].jardin_codigo@ && filas_de(datos.recintos)[j as int].nombre@
                                == filas_de(datos.recintos)[i as int].nombre@);
                        }
                        return Err(String::from_str("recinto repetido"));
                    }
                    j = j + 1;
                }
                i = i + 1;
            }
        }
        proof {
            assert(instantanea_valida(*datos));
        }
        // borrar todo y cargar en orden; la configuración se conserva
        self.tic();
        let marca = self.reloj;
        self.clear_all();
        proof {
            assert(self.jardines@ =~= Seq::<Jardin>::empty());
            assert(self.partidas@ =~= Seq::<Partida>::empty());
            assert(self.recintos@ =~= Seq::<Recinto>::empty());
        }
        let vacio_j: Vec<JardinImportado> = Vec::new();
        let na: u64 = match &datos.jardines {
            Some(v) => {
                self.cargar_jardines(v);
                v.len() as u64
            },
            None => {
                self.cargar_jardines(&vacio_j);
                0
            },
        };
        let vacio_p: Vec<PartidaImportada> = Vec::new();
        let nb: u64 = match &datos.partidas {
            Some(v) => {
                self.cargar_partidas(v);
                v.len() as u64
            },
            None => {
                self.cargar_partidas(&vacio_p);
                0
            },
        };
        let vacio_r: Vec<RecintoImportado> = Vec::new();
        let nc: u64 = match &datos.recintos {
            Some(v) => {
                self.cargar_recintos(v);
                v.len() as u64
            },
            None => {
                self.cargar_recintos(&vacio_r);
                0
            },
        };
        let vacio_o: Vec<OrdenImportada> = Vec::new();
        let ne: u64 = match &datos.ordenes_trabajo {
            Some(v) => {
                self.cargar_ordenes(v, marca);
                v.len() as u64
            },
            None => {
                self.cargar_ordenes(&vacio_o, marca);
                0
            },
        };
        let vacio_i: Vec<InformeImportado> = Vec::new();
        let nf: u64 = match &datos.informes_pago {
            Some(v) => {
                self.cargar_informes(v, marca);
                v.len() as u64
            },
            None => {
                self.cargar_informes(&vacio_i, marca);
                0
            },
        };
        let vacio_q: Vec<RequerimientoImportado> = Vec::new();
        let nd: u64 = match &datos.requerimientos {
            Some(v) => {
                self.cargar_requerimientos(v, marca);
                v.len() as u64
            },
            None => {
                self.cargar_requerimientos(&vacio_q, marca);
                0
            },
        };
        if let Some(c) = &datos.configuracion {
            self.configuracion.titulo = c.titulo.clone();
            self.configuracion.contratista = c.contratista.clone();
            self.configuracion.prefijo_correlativo = c.prefijo_correlativo.clone();
            self.configuracion.ito_nombre = Some(c.ito_nombre.clone());
            if let Some(texto) = &c.firma_png_base64 {
                match decodificar_b64(texto.as_str()) {
                    Ok(bytes) => {
                        self.configuracion.firma_png = Some(bytes);
                    },
                    Err(_) => {
                        // una firma malformada se pasa por alto en silencio
                    },
                }
            }
        }
        let mut resumen = String::from_str("Importado: ");
        let texto_na = entero_a_texto(na);
        resumen.append(texto_na.as_str());
        resumen.append(" jardines, ");
        let texto_nb = entero_a_texto(nb);
        resumen.append(texto_nb.as_str());
        resumen.append(" partidas, ");
        let texto_nc = entero_a_texto(nc);
        resumen.append(texto_nc.as_str());
        resumen.append(" recintos, ");
        let texto_nd = entero_a_texto(nd);
        resumen.append(texto_nd.as_str());
        resumen.append(" requerimientos, ");
        let texto_ne = entero_a_texto(ne);
        resumen.append(texto_ne.as_str());
        resumen.append(" OTs, ");
        let texto_nf = entero_a_texto(nf);
        resumen.append(texto_nf.as_str());
        resumen.append(" informes");
        proof {
            assert(resumen@ =~= resumen_importacion(
                filas_de(datos.jardines).len(),
                filas_de(datos.partidas).len(),
                filas_de(datos.recintos).len(),
                filas_de(datos.requerimientos).len(),
                filas_de(datos.ordenes_trabajo).len(),
                filas_de(datos.informes_pago).len(),
            ));
        }
        Ok(resumen)
    }

    /// Agrega un documento de catálogo al almacén: jardines y partidas con
    /// supresión silenciosa de duplicados, recintos sin ella. Falla, sin
    /// cambiar nada, exactamente cuando el documento es inválido (un precio
    /// fuera de rango o un recinto repetido, entre sí o contra lo ya
    /// almacenado). Devuelve la cuenta de filas procesadas.
    #[verifier::rlimit(100)]
    pub fn importar_catalogo(&mut self, datos: &CatalogoImport) -> (r: Result<String, String>)
        requires
            old(self).wf(),
            filas_de(datos.jardines).len() <= FILAS_MAX,
            filas_de(datos.partidas).len() <= FILAS_MAX,
            filas_de(datos.recintos).len() <= FILAS_MAX,
            old(self).sig_jardin <= i64::MAX - FILAS_MAX,
            old(self).sig_partida <= i64::MAX - FILAS_MAX,
            old(self).sig_recinto <= i64::MAX - FILAS_MAX,
        ensures
            final(self).wf(),
            match r {
                Ok(resumen) => {
                    &&& catalogo_valido(old(self).recintos@, *datos)
                    &&& final(self).jardines@ == jardines_cargados(
                        old(self).jardines@,
                        filas_de(datos.jardines),
                        old(self).sig_jardin as int,
                    )
                    &&& final(self).partidas@ == partidas_cargadas(
                        old(self).partidas@,
                        filas_de(datos.partidas),
                        old(self).sig_partida as int,
                    )
                    &&& final(self).recintos@ == recintos_cargados(
                        old(self).recintos@,
                        filas_de(datos.recintos),
                        old(self).sig_recinto as int,
                    )
                    &&& final(self).sig_jardin == old(self).sig_jardin + final(self).jardines@.len() - old(self).jardines@.len()
                    &&& final(self).sig_partida == old(self).sig_partida + final(self).partidas@.len() - old(self).partidas@.len()
                    &&& final(self).sig_recinto == old(self).sig_recinto + filas_de(
                        datos.recintos,
                    ).len()
                    &&& *final(self) == (Almacen {
                        jardines: final(self).jardines,
                        partidas: final(self).partidas,
                        recintos: final(self).recintos,
                        sig_jardin: final(self).sig_jardin,
                        sig_partida: final(self).sig_partida,
                        sig_recinto: final(self).sig_recinto,
                        ..*old(self)
                    })
                    &&& resumen@ == resumen_catalogo(
                        filas_de(datos.jardines).len() + filas_de(datos.partidas).len() + filas_de(
                            datos.recintos,
                        ).len(),
                    )
                },
                Err(_) => !catalogo_valido(old(self).recintos@, *datos) && *final(self) == *old(self),
            },
    {
        if let Some(filas) = &datos.partidas {
            let mut i: usize = 0;
            while i < filas.len()
                invariant
                    *self == *old(self),
                    old(self).wf(),
                    datos.partidas matches Some(v) && v@ == filas@,
                    i <= filas@.len(),
                    forall|k: int|
                        0 <= k < i ==> -PRECIO_MAX <= (#[trigger] filas@[k]).precio_unitario
                            <= PRECIO_MAX,
                decreases filas@.len() - i,
            {
                if filas[i].precio_unitario < -PRECIO_MAX || filas[i].precio_unitario > PRECIO_MAX {
                    proof {
                        assert(filas_de(datos.partidas) == filas@);
                    }
                    return Err(String::from_str("precio de partida fuera de rango"));
                }
                i = i + 1;
            }
        }
        if let Some(filas) = &datos.recintos {
            let mut i: usize = 0;
            while i < filas.len()
                invariant
                    *self == *old(self),
                    old(self).wf(),
                    datos.recintos matches Some(v) && v@ == filas@,
                    i <= filas@.len(),
                    forall|a: int, b: int|
                        0 <= a < b < i ==> !(filas@[a].jardin_codigo@ == filas@[b].jardin_codigo@
                            && filas@[a].nombre@ == filas@[b].nombre@),
                    forall|a: int|
                        0 <= a < i ==> !existe_recinto(
                            self.recintos@,
                            (#[trigger] filas@[a]).jardin_codigo@,
                            filas@[a].nombre@,
                        ),
                decreases filas@.len() - i,
            {
                let mut k: usize = 0;
                while k < self.recintos.len()
                    invariant
                        *self == *old(self),
                        old(self).wf(),
                        datos.recintos matches Some(v) && v@ == filas@,
                        i < filas@.len(),
                        k <= self.recintos@.len(),
                        forall|m: int|
                            0 <= m < k ==> !(#[trigger] self.recintos@[m].jardin_codigo@
                                == filas@[i as int].jardin_codigo@ && self.recintos@[m].nombre@
                                == filas@[i as int].nombre@),
                    decreases self.recintos@.len() - k,
                {
                    if self.recintos[k].jardin_codigo == filas[i].jardin_codigo
                        && self.recintos[k].nombre == filas[i].nombre {
                        proof {
                            assert(filas_de(datos.recintos) == filas@);
                            assert(existe_recinto(
                                old(self).recintos@,
                                filas_de(datos.recintos)[i as int].jardin_codigo@,
                                filas_de(datos.recintos)[i as int].nombre@,
                            ));
                        }
                        return Err(
                            String::from_str("ya existe un recinto con ese nombre en ese jardin"),
                        );
                    }
                    k = k + 1;
                }
                let mut j: usize = 0;
                while j < i
                    invariant
                        *self == *old(self),
                        old(self).wf(),
                        datos.recintos matches Some(v) && v@ == filas@,
                        i < filas@.len(),
                        j <= i,
                        forall|a: int, b: int|
                            0 <= a < b < i ==> !(filas@[a].jardin_codigo@
                                == filas@[b].jardin_codigo@ && filas@[a].nombre@
                                == filas@[b].nombre@),
                        forall|a: int|
                            0 <= a < j ==> !(#[trigger] filas@[a].jardin_codigo@
                                == filas@[i as int].jardin_codigo@ && filas@[a].nombre@
                                == filas@[i as int].nombre@),
                    decreases i - j,
                {
                    if filas[j].jardin_codigo == filas[i].jardin_codigo && filas[j].nombre
                        == filas[i].nombre {
                        proof {
                            assert(filas_de(datos.recintos) == filas@);
                            assert(filas_de(datos.recintos)[j as int].jardin_codigo@ == filas_de(
                                datos.recintos,
                            )[i as int].jardin_codigo@ && filas_de(datos.recintos)[j as int].nombre@
                                == filas_de(datos.recintos)[i as int].nombre@);
                        }
                        return Err(String::from_str("recinto repetido"));
                    }
                    j = j + 1;
                }
                i = i + 1;
            }
        }
        proof {
            assert(catalogo_valido(old(self).recintos@, *datos));
        }
        let vacio_j: Vec<JardinImportado> = Vec::new();
        let na: u64 = match &datos.jardines {
            Some(v) => {
                self.cargar_jardines(v);
                v.len() as u64
            },
            None => {
                self.cargar_jardines(&vacio_j);
                0
            },
        };
        let vacio_p: Vec<PartidaImportada> = Vec::new();
        let nb: u64 = match &datos.partidas {
            Some(v) => {
                self.cargar_partidas(v);
                v.len() as u64
            },
            None => {
                self.cargar_partidas(&vacio_p);
                0
            },
        };
        let vacio_r: Vec<RecintoImportado> = Vec::new();
        let nc: u64 = match &datos.recintos {
            Some(v) => {
                self.cargar_recintos(v);
                v.len() as u64
            },
            None => {
                self.cargar_recintos(&vacio_r);
                0
            },
        };
        let total = na + nb + nc;
        let mut resumen = entero_a_texto(total);
        resumen.append(" registros importados");
        proof {
            assert(resumen@ =~= resumen_catalogo(
                filas_de(datos.jardines).len() + filas_de(datos.partidas).len() + filas_de(
                    datos.recintos,
                ).len(),
            ));
        }
        Ok(resumen)
    }
}

/// Cotas numéricas de una fila de requerimiento.
fn es_requerimiento_acotado(f: &RequerimientoImportado) -> (r: bool)
    ensures
        r == requerimiento_importado_acotado(*f),
{
    let cotas = -crate::entidades::CANTIDAD_MAX <= f.cantidad && f.cantidad
        <= crate::entidades::CANTIDAD_MAX && -PRECIO_MAX <= f.precio_unitario && f.precio_unitario
        <= PRECIO_MAX && -crate::entidades::MULTA_MAX <= f.multa && f.multa
        <= crate::entidades::MULTA_MAX && -crate::entidades::FECHA_MAX <= f.fecha_inicio
        && f.fecha_inicio <= crate::entidades::FECHA_MAX && -crate::entidades::FECHA_MAX
        <= f.fecha_registro && f.fecha_registro <= crate::entidades::FECHA_MAX
        && -crate::entidades::PLAZO_MAX <= f.plazo_dias && f.plazo_dias
        <= crate::entidades::PLAZO_MAX && -crate::entidades::PLAZO_MAX <= f.plazo_adicional
        && f.plazo_adicional <= crate::entidades::PLAZO_MAX;
    let total_ok = match f.precio_total {
        Some(t) => -crate::entidades::PRECIO_TOTAL_MAX <= t && t
            <= crate::entidades::PRECIO_TOTAL_MAX,
        None => true,
    };
    let recepcion_ok = match f.fecha_recepcion {
        Some(x) => -crate::entidades::FECHA_MAX <= x && x <= crate::entidades::FECHA_MAX,
        None => true,
    };
    cotas && total_ok && recepcion_ok
}

/// La carga de jardines deja presente el código de cada fila cargada, haya
/// sido insertada o ignorada.
proof fn lema_jardines_cargados_contiene(
    previos: Seq<Jardin>,
    filas: Seq<JardinImportado>,
    desde: int,
)
    ensures
        forall|i: int|
            0 <= i < filas.len() ==> contiene_codigo_jardin(
                jardines_cargados(previos, filas, desde),
                (#[trigger] filas[i]).codigo@,
            ),
        forall|c: Seq<char>|
            contiene_codigo_jardin(previos, c) ==> #[trigger] contiene_codigo_jardin(
                jardines_cargados(previos, filas, desde),
                c,
            ),
    decreases filas.len(),
{
    if filas.len() > 0 {
        lema_jardines_cargados_contiene(previos, filas.drop_last(), desde);
        let pre = jardines_cargados(previos, filas.drop_last(), desde);
        let todo = jardines_cargados(previos, filas, desde);
        assert forall|c: Seq<char>|
            contiene_codigo_jardin(pre, c) implies #[trigger] contiene_codigo_jardin(todo, c) by {
            let j = choose|j: int| 0 <= j < pre.len() && pre[j].codigo@ == c;
            if pre != todo {
                assert(todo[j] == pre[j]);
            }
        }
        assert(forall|i: int| 0 <= i < filas.len() - 1 ==> filas.drop_last()[i] == #[trigger] filas[i]);
        if !contiene_codigo_jardin(pre, filas.last().codigo@) {
            assert(todo.last().codigo@ == filas.last().codigo@);
            assert(contiene_codigo_jardin(todo, filas.last().codigo@));
        }
    }
}

/// Cargar filas cuyos códigos ya están todos presentes no cambia nada.
proof fn lema_jardines_cargados_presentes(
    previos: Seq<Jardin>,
    filas: Seq<JardinImportado>,
    desde: int,
)
    requires
        forall|i: int|
            0 <= i < filas.len() ==> contiene_codigo_jardin(
                previos,
                (#[trigger] filas[i]).codigo@,
            ),
    ensures
        jardines_cargados(previos, filas, desde) == previos,
    decreases filas.len(),
{
    if filas.len() > 0 {
        assert(forall|i: int| 0 <= i < filas.len() - 1 ==> filas.drop_last()[i] == #[trigger] filas[i]);
        lema_jardines_cargados_presentes(previos, filas.drop_last(), desde);
    }
}

/// La importación de catálogo es idempotente para los jardines: volver a
/// cargar las mismas filas sobre el resultado de una primera carga, con
/// cualquier identificador inicial, deja los jardines tal cual, porque la
/// supresión de duplicados ignora todo código ya presente.
pub proof fn lema_catalogo_jardines_idempotente(
    previos: Seq<Jardin>,
    filas: Seq<JardinImportado>,
    desde: int,
    desde2: int,
)
    ensures
        jardines_cargados(jardines_cargados(previos, filas, desde), filas, desde2)
            == jardines_cargados(previos, filas, desde),
{
    lema_jardines_cargados_contiene(previos, filas, desde);
    lema_jardines_cargados_presentes(jardines_cargados(previos, filas, desde), filas, desde2);
}

/// La carga de partidas deja presente el ítem de cada fila cargada.
proof fn lema_partidas_cargadas_contiene(
    previos: Seq<Partida>,
    filas: Seq<PartidaImportada>,
    desde: int,
)
    ensures
        forall|i: int|
            0 <= i < filas.len() ==> contiene_item_partida(
                partidas_cargadas(previos, filas, desde),
                (#[trigger] filas[i]).item@,
            ),
        forall|c: Seq<char>|
            contiene_item_partida(previos, c) ==> #[trigger] contiene_item_partida(
                partidas_cargadas(previos, filas, desde),
                c,
            ),
    decreases filas.len(),
{
    if filas.len() > 0 {
        lema_partidas_cargadas_contiene(previos, filas.drop_last(), desde);
        let pre = partidas_cargadas(previos, filas.drop_last(), desde);
        let todo = partidas_cargadas(previos, filas, desde);
        assert forall|c: Seq<char>|
            contiene_item_partida(pre, c) implies #[trigger] contiene_item_partida(todo, c) by {
            let j = choose|j: int| 0 <= j < pre.len() && pre[j].item@ == c;
            if pre != todo {
                assert(todo[j] == pre[j]);
            }
        }
        assert(forall|i: int| 0 <= i < filas.len() - 1 ==> filas.drop_last()[i] == #[trigger] filas[i]);
        if !contiene_item_partida(pre, filas.last().item@) {
            assert(todo.last().item@ == filas.last().item@);
            assert(contiene_item_partida(todo, filas.last().item@));
        }
    }
}

/// Cargar filas cuyos ítems ya están todos presentes no cambia nada.
proof fn lema_partidas_cargadas_presentes(
    previos: Seq<Partida>,
    filas: Seq<PartidaImportada>,
    desde: int,
)
    requires
        forall|i: int|
            0 <= i < filas.len() ==> contiene_item_partida(previos, (#[trigger] filas[i]).item@),
    ensures
        partidas_cargadas(previos, filas, desde) == previos,
    decreases filas.len(),
{
    if filas.len() > 0 {
        assert(forall|i: int| 0 <= i < filas.len() - 1 ==> filas.drop_last()[i] == #[trigger] filas[i]);
        lema_partidas_cargadas_presentes(previos, filas.drop_last(), desde);
    }
}

/// La importación de catálogo es idempotente para las partidas: volver a
/// cargar las mismas filas sobre el resultado de una primera carga deja las
/// partidas tal cual.
pub proof fn lema_catalogo_partidas_idempotente(
    previos: Seq<Partida>,
    filas: Seq<PartidaImportada>,
    desde: int,
    desde2: int,
)
    ensures
        partidas_cargadas(partidas_cargadas(previos, filas, desde), filas, desde2)
            == partidas_cargadas(previos, filas, desde),
{
    lema_partidas_cargadas_contiene(previos, filas, desde);
    lema_partidas_cargadas_presentes(partidas_cargadas(previos, filas, desde), filas, desde2);
}


/// Con códigos todos distintos y sin filas previas, la carga de jardines
/// inserta cada fila, en orden, con identificadores consecutivos desde
/// `desde`.
pub(crate) proof fn lema_jardines_cargados_distintos(filas: Seq<JardinImportado>, desde: int)
    requires
        0 <= desde,
        desde + filas.len() <= i64::MAX,
        forall|i: int, j: int| 0 <= i < j < filas.len() ==> filas[i].codigo@ != filas[j].codigo@,
    ensures
        ({
            let r = jardines_cargados(Seq::<Jardin>::empty(), filas, desde);
            &&& r.len() == filas.len()
            &&& forall|k: int|
                0 <= k < filas.len() ==> (#[trigger] r[k]).id == desde + k && r[k].codigo
                    == filas[k].codigo && r[k].nombre == filas[k].nombre
        }),
    decreases filas.len(),
{
    if filas.len() > 0 {
        assert(forall|i: int|
            0 <= i < filas.len() - 1 ==> filas.drop_last()[i] == #[trigger] filas[i]);
        lema_jardines_cargados_distintos(filas.drop_last(), desde);
        let pre = jardines_cargados(Seq::<Jardin>::empty(), filas.drop_last(), desde);
        let ultima = filas.last();
        assert(!contiene_codigo_jardin(pre, ultima.codigo@)) by {
            if contiene_codigo_jardin(pre, ultima.codigo@) {
                let m = choose|m: int| 0 <= m < pre.len() && pre[m].codigo@ == ultima.codigo@;
                assert(pre[m].codigo == filas[m].codigo);
                assert(filas[m].codigo@ != filas[filas.len() - 1].codigo@);
            }
        }
    }
}

/// Con ítems todos distintos y sin filas previas, la carga de partidas
/// inserta cada fila, en orden, con identificadores consecutivos desde
/// `desde`.
pub(crate) proof fn lema_partidas_cargadas_distintas(filas: Seq<PartidaImportada>, desde: int)
    requires
        0 <= desde,
        desde + filas.len() <= i64::MAX,
        forall|i: int, j: int| 0 <= i < j < filas.len() ==> filas[i].item@ != filas[j].item@,
    ensures
        ({
            let r = partidas_cargadas(Seq::<Partida>::empty(), filas, desde);
            &&& r.len() == filas.len()
            &&& forall|k: int|
                0 <= k < filas.len() ==> (#[trigger] r[k]).id == desde + k && r[k].item
                    == filas[k].item && r[k].partida == filas[k].partida && r[k].unidad
                    == filas[k].unidad && r[k].precio_unitario == filas[k].precio_unitario
        }),
    decreases filas.len(),
{
    if filas.len() > 0 {
        assert(forall|i: int|
            0 <= i < filas.len() - 1 ==> filas.drop_last()[i] == #[trigger] filas[i]);
        lema_partidas_cargadas_distintas(filas.drop_last(), desde);
        let pre = partidas_cargadas(Seq::<Partida>::empty(), filas.drop_last(), desde);
        let ultima = filas.last();
        assert(!contiene_item_partida(pre, ultima.item@)) by {
            if contiene_item_partida(pre, ultima.item@) {
                let m = choose|m: int| 0 <= m < pre.len() && pre[m].item@ == ultima.item@;
                assert(pre[m].item == filas[m].item);
                assert(filas[m].item@ != filas[filas.len() - 1].item@);
            }
        }
    }
}


} // verus!
