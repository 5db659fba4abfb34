//! Agregador de informes de pago: creación con código correlativo y totales
//! calculados (neto, utilidades, iva y total), reemplazo de membresía y
//! borrado que devuelve cada miembro a pendiente.
//!
//! Un requerimiento entra a un informe solo si ya lleva fecha de recepción y
//! no está vinculado a otro informe; un ítem sin identificador utilizable
//! cuenta para el neto pero no produce vínculo.

use vstd::prelude::*;
use crate::entidades::{Requerimiento, InformePago, ItemPago, Estado, MONTO_MAX};
use crate::almacen::{Almacen, existe_informe};
use crate::correlativo::{
    patron_de, maximo_sufijo, codigos_informes, construir_patron, codigo_con_numero2,
    lema_correlativo_sin_repeticion,
};
use crate::numeros::{relleno2, TOPE_CORRELATIVO};
use crate::secuencias::{lema_remover_unico, lema_filtrar_todo};
use crate::requerimientos::clonar_opt_texto;

verus! {

/// Cota para el número de ítems de un informe.
pub const ITEMS_INFORME_MAX: usize = 1_000_000;

/// El neto: la suma de los montos de los ítems.
pub open spec fn neto_de(items: Seq<ItemPago>) -> int
    decreases items.len(),
{
    if items.len() == 0 {
        0
    } else {
        neto_de(items.drop_last()) + items.last().monto
    }
}

/// División entera truncada hacia cero, para divisores positivos: el
/// cociente lleva el signo del dividendo, como la división de máquina.
pub open spec fn division_truncada(a: int, b: int) -> int {
    if a >= 0 {
        a / b
    } else {
        -((-a) / b)
    }
}

/// Las utilidades: el diez por ciento del neto, truncado hacia cero.
pub open spec fn utilidades_de(neto: int) -> int {
    division_truncada(neto, 10)
}

/// El iva: el diecinueve por ciento del neto más las utilidades, truncado
/// hacia cero.
pub open spec fn iva_de(neto: int) -> int {
    division_truncada((neto + utilidades_de(neto)) * 19, 100)
}

/// El total: neto más utilidades más iva.
pub open spec fn total_de(neto: int) -> int {
    neto + utilidades_de(neto) + iva_de(neto)
}

/// Cotas de los montos de los ítems; un monto puede ser negativo (un monto a
/// pago puede serlo cuando la multa excede el total).
pub open spec fn items_acotados(items: Seq<ItemPago>) -> bool {
    forall|k: int|
        0 <= k < items.len() ==> -MONTO_MAX <= (#[trigger] items[k]).monto <= MONTO_MAX
}

/// Si algún ítem lleva el identificador dado.
pub open spec fn listado(items: Seq<ItemPago>, id: i64) -> bool {
    exists|j: int| 0 <= j < items.len() && items[j].id == Some(id)
}

/// Un requerimiento vinculado a un informe de pago: el vínculo a la orden se
/// limpia, el estado pasa a estar en informe y la marca se estampa.
pub open spec fn vinculado_a_informe(r: Requerimiento, informe: i64, marca: u64) -> Requerimiento {
    Requerimiento {
        informe_pago_id: Some(informe),
        ot_id: None,
        estado: Estado::EnInforme,
        updated_at: marca,
        ..r
    }
}

/// Un requerimiento desvinculado de su informe de pago: vuelve a pendiente.
pub open spec fn desvinculado_de_informe(r: Requerimiento, marca: u64) -> Requerimiento {
    Requerimiento { informe_pago_id: None, estado: Estado::Pendiente, updated_at: marca, ..r }
}

/// Cómo queda un requerimiento tras reemplazar la membresía de un informe:
/// se vincula si está listado, lleva fecha de recepción y no pertenece a otro
/// informe; si no se vincula y pertenecía a este informe, vuelve a pendiente.
pub open spec fn tras_membresia_informe(
    r: Requerimiento,
    informe: i64,
    items: Seq<ItemPago>,
    marca: u64,
) -> Requerimiento {
    if listado(items, r.id) && r.fecha_recepcion is Some && (r.informe_pago_id is None
        || r.informe_pago_id == Some(informe)) {
        vinculado_a_informe(r, informe, marca)
    } else if r.informe_pago_id == Some(informe) {
        desvinculado_de_informe(r, marca)
    } else {
        r
    }
}

/// El patrón del alcance correlativo de los informes de pago de un jardín.
pub open spec fn patron_informe(jardin: Seq<char>, prefijo: Seq<char>) -> Seq<char> {
    patron_de("IP-"@, jardin, prefijo)
}

/// Quitar un informe conserva la existencia de los demás.
proof fn lema_informe_sigue_existiendo(s: Seq<InformePago>, i: int, id: i64)
    requires
        0 <= i < s.len(),
        existe_informe(s, id),
        s[i].id != id,
    ensures
        existe_informe(s.remove(i), id),
{
    let j = choose|j: int| 0 <= j < s.len() && s[j].id == id;
    if j < i {
        assert(s.remove(i)[j] == s[j]);
    } else {
        assert(s.remove(i)[j - 1] == s[j]);
    }
}

/// El neto de ítems acotados queda, en magnitud, bajo el número de ítems por
/// la cota de un monto.
proof fn lema_neto_acotado(items: Seq<ItemPago>)
    requires
        items_acotados(items),
    ensures
        -(items.len() * MONTO_MAX) <= neto_de(items) <= items.len() * MONTO_MAX,
    decreases items.len(),
{
    if items.len() > 0 {
        assert(items_acotados(items.drop_last())) by {
            assert(forall|k: int|
                0 <= k < items.len() - 1 ==> items.drop_last()[k] == #[trigger] items[k]);
        }
        lema_neto_acotado(items.drop_last());
        assert((items.len() - 1) * MONTO_MAX + MONTO_MAX == items.len() * MONTO_MAX)
            by (nonlinear_arith);
    }
}

/// Si algún ítem lleva el identificador dado.
fn contiene_item(items: &Vec<ItemPago>, id: i64) -> (r: bool)
    ensures
        r == listado(items@, id),
{
    let mut i: usize = 0;
    while i < items.len()
        invariant
            i <= items@.len(),
            forall|k: int| 0 <= k < i ==> #[trigger] items@[k].id != Some(id),
        decreases items@.len() - i,
    {
        let es = match items[i].id {
            Some(x) => x == id,
            None => false,
        };
        if es {
            return true;
        }
        i = i + 1;
    }
    false
}

impl Almacen {
    /// Los informes de pago almacenados.
    pub fn get_informes_pago_filas(&self) -> (r: &Vec<InformePago>)
        ensures
            r == &self.informes_pago,
    {
        &self.informes_pago
    }

    /// El neto de una lista de ítems: la suma de sus montos.
    pub fn calcular_neto(items: &Vec<ItemPago>) -> (r: i64)
        requires
            items_acotados(items@),
            items@.len() <= ITEMS_INFORME_MAX,
        ensures
            r as int == neto_de(items@),
            -(items@.len() * MONTO_MAX) <= r as int <= items@.len() * MONTO_MAX,
    {
        let mut suma: i64 = 0;
        let mut i: usize = 0;
        while i < items.len()
            invariant
                items_acotados(items@),
                items@.len() <= ITEMS_INFORME_MAX,
                i <= items@.len(),
                suma as int == neto_de(items@.take(i as int)),
                -(i * MONTO_MAX) <= suma as int <= i * MONTO_MAX,
            decreases items@.len() - i,
        {
            proof {
                assert(items@.take(i as int + 1).drop_last() =~= items@.take(i as int));
                assert(items@.take(i as int + 1).last() == items@[i as int]);
                assert((i as int) * MONTO_MAX + MONTO_MAX == (i as int + 1) * MONTO_MAX)
                    by (nonlinear_arith);
                assert((i as int + 1) * MONTO_MAX <= ITEMS_INFORME_MAX as int * MONTO_MAX)
                    by (nonlinear_arith)
                    requires
                        i as int + 1 <= ITEMS_INFORME_MAX as int,
                ;
            }
            suma = suma + items[i].monto;
            i = i + 1;
        }
        proof {
            assert(items@.take(items@.len() as int) =~= items@);
            assert((items@.len() as int) * MONTO_MAX <= ITEMS_INFORME_MAX as int * MONTO_MAX)
                by (nonlinear_arith)
                requires
                    items@.len() as int <= ITEMS_INFORME_MAX as int,
            ;
        }
        suma
    }

    /// Las utilidades, el iva y el total a partir del neto; los porcentajes
    /// se truncan hacia cero, con el signo del neto.
    pub fn calcular_totales(neto: i64) -> (r: (i64, i64, i64))
        requires
            -(ITEMS_INFORME_MAX as int * MONTO_MAX) <= neto <= ITEMS_INFORME_MAX as int
                * MONTO_MAX,
        ensures
            r.0 as int == utilidades_de(neto as int),
            r.1 as int == iva_de(neto as int),
            r.2 as int == total_de(neto as int),
    {
        let neto_negativo = neto < 0;
        let magnitud: u64 = if neto_negativo {
            (-neto) as u64
        } else {
            neto as u64
        };
        let ut_magnitud = magnitud / 10;
        let utilidades: i64 = if neto_negativo {
            -(ut_magnitud as i64)
        } else {
            ut_magnitud as i64
        };
        proof {
            assert(utilidades as int == utilidades_de(neto as int));
        }
        let subtotal: i128 = neto as i128 + utilidades as i128;
        let sub_negativo = subtotal < 0;
        let sub_magnitud: u128 = if sub_negativo {
            (-subtotal) as u128
        } else {
            subtotal as u128
        };
        proof {
            assert(sub_magnitud * 19 <= 21 * 1_000_000_000_000_000_000) by (nonlinear_arith)
                requires
                    0 <= sub_magnitud <= 1_100_000_000_000_000_000,
            ;
        }
        let iva_magnitud: u128 = (sub_magnitud * 19) / 100;
        let iva: i64 = if sub_negativo {
            -(iva_magnitud as i64)
        } else {
            iva_magnitud as i64
        };
        proof {
            let sub = neto as int + utilidades as int;
            if sub >= 0 {
                assert(sub * 19 >= 0) by (nonlinear_arith)
                    requires
                        sub >= 0,
                ;
                assert(sub_magnitud as int * 19 == sub * 19);
            } else {
                assert(sub * 19 < 0 && (-sub) * 19 == -(sub * 19)) by (nonlinear_arith)
                    requires
                        sub < 0,
                ;
                assert(sub_magnitud as int * 19 == -(sub * 19));
            }
            assert(iva as int == iva_de(neto as int));
        }
        let total = neto + utilidades + iva;
        (utilidades, iva, total)
    }

    /// Vincula al informe dado todo requerimiento listado y elegible (con
    /// fecha de recepción y sin otro informe), y desvincula todo miembro del
    /// informe que no quede vinculado.
    fn reemplazar_membresia_informe(&mut self, informe_id: i64, items: &Vec<ItemPago>, marca: u64)
        requires
            old(self).wf(),
            existe_informe(old(self).informes_pago@, informe_id),
        ensures
            final(self).wf(),
            final(self).requerimientos@.len() == old(self).requerimientos@.len(),
            forall|k: int|
                0 <= k < old(self).requerimientos@.len() ==> final(self).requerimientos@[k]
                    == tras_membresia_informe(
                    old(self).requerimientos@[k],
                    informe_id,
                    items@,
                    marca,
                ),
            *final(self) == (Almacen { requerimientos: final(self).requerimientos, ..*old(self) }),
    {
        let mut i: usize = 0;
        while i < self.requerimientos.len()
            invariant
                old(self).wf(),
                existe_informe(old(self).informes_pago@, informe_id),
                self.wf(),
                i <= self.requerimientos@.len(),
                self.requerimientos@.len() == old(self).requerimientos@.len(),
                forall|k: int|
                    0 <= k < i ==> self.requerimientos@[k] == tras_membresia_informe(
                        old(self).requerimientos@[k],
                        informe_id,
                        items@,
                        marca,
                    ),
                forall|k: int|
                    i <= k < self.requerimientos@.len() ==> self.requerimientos@[k] == old(self).requerimientos@[k],
                *self == (Almacen { requerimientos: self.requerimientos, ..*old(self) }),
            decreases self.requerimientos@.len() - i,
        {
            let rid = self.requerimientos[i].id;
            let pertenece = match self.requerimientos[i].informe_pago_id {
                Some(o) => o == informe_id,
                None => false,
            };
            let vincular = contiene_item(items, rid) && self.requerimientos[i].fecha_recepcion.is_some()
                && (self.requerimientos[i].informe_pago_id.is_none() || pertenece);
            if vincular || pertenece {
                let viejo = &self.requerimientos[i];
                let nuevo = Requerimiento {
                    id: viejo.id,
                    jardin_codigo: viejo.jardin_codigo.clone(),
                    recinto: clonar_opt_texto(&viejo.recinto),
                    partida_item: viejo.partida_item.clone(),
                    cantidad: viejo.cantidad,
                    precio_unitario: viejo.precio_unitario,
                    precio_total: viejo.precio_total,
                    fecha_inicio: viejo.fecha_inicio,
                    fecha_registro: viejo.fecha_registro,
                    estado: if vincular {
                        Estado::EnInforme
                    } else {
                        Estado::Pendiente
                    },
                    ot_id: if vincular {
                        None
                    } else {
                        viejo.ot_id
                    },
                    informe_pago_id: if vincular {
                        Some(informe_id)
                    } else {
                        None
                    },
                    fecha_recepcion: viejo.fecha_recepcion,
                    plazo_dias: viejo.plazo_dias,
                    plazo_adicional: viejo.plazo_adicional,
                    multa: viejo.multa,
                    descripcion: clonar_opt_texto(&viejo.descripcion),
                    observaciones: clonar_opt_texto(&viejo.observaciones),
                    updated_at: marca,
                };
                proof {
                    if vincular {
                        assert(nuevo == vinculado_a_informe(
                            old(self).requerimientos@[i as int],
                            informe_id,
                            marca,
                        ));
                    } else {
                        assert(old(self).requerimientos@[i as int].ot_id is None);
                        assert(nuevo == desvinculado_de_informe(
                            old(self).requerimientos@[i as int],
                            marca,
                        ));
                    }
                }
                vstd::std_specs::core::index_set(&mut self.requerimientos, i, nuevo);
            }
            i = i + 1;
        }
    }

    /// Crea un informe de pago para el jardín dado con el siguiente código
    /// correlativo del alcance y los totales calculados del neto (la suma de
    /// los montos). Vincula los requerimientos listados elegibles; los ítems
    /// sin identificador utilizable solo aportan al neto. Devuelve el
    /// identificador del informe.
    pub fn crear_informe_pago(
        &mut self,
        jardin_codigo: String,
        fecha_creacion: i64,
        observaciones: Option<String>,
        requerimientos: Vec<ItemPago>,
    ) -> (r: Result<i64, String>)
        requires
            old(self).wf(),
            old(self).sig_informe < i64::MAX,
            items_acotados(requerimientos@),
            requerimientos@.len() <= ITEMS_INFORME_MAX,
            maximo_sufijo(
                codigos_informes(old(self).informes_pago@),
                patron_informe(jardin_codigo@, old(self).configuracion.prefijo_correlativo@),
            ) < TOPE_CORRELATIVO,
        ensures
            final(self).wf(),
            match r {
                Ok(id) => {
                    &&& id == old(self).sig_informe
                    &&& final(self).informes_pago@.len() == old(self).informes_pago@.len() + 1
                    &&& final(self).informes_pago@.drop_last() == old(self).informes_pago@
                    &&& final(self).informes_pago@.last() == (InformePago {
                        id: old(self).sig_informe,
                        codigo: final(self).informes_pago@.last().codigo,
                        jardin_codigo: jardin_codigo,
                        fecha_creacion: fecha_creacion,
                        neto: final(self).informes_pago@.last().neto,
                        utilidades: final(self).informes_pago@.last().utilidades,
                        iva: final(self).informes_pago@.last().iva,
                        total_final: final(self).informes_pago@.last().total_final,
                        observaciones: observaciones,
                        updated_at: old(self).reloj_avanzado(),
                    })
                    &&& final(self).informes_pago@.last().codigo@ == patron_informe(
                        jardin_codigo@,
                        old(self).configuracion.prefijo_correlativo@,
                    ) + relleno2(
                        (maximo_sufijo(
                            codigos_informes(old(self).informes_pago@),
                            patron_informe(
                                jardin_codigo@,
                                old(self).configuracion.prefijo_correlativo@,
                            ),
                        ) + 1) as nat,
                    )
                    &&& final(self).informes_pago@.last().neto as int == neto_de(requerimientos@)
                    &&& final(self).informes_pago@.last().utilidades as int == utilidades_de(
                        neto_de(requerimientos@),
                    )
                    &&& final(self).informes_pago@.last().iva as int == iva_de(
                        neto_de(requerimientos@),
                    )
                    &&& final(self).informes_pago@.last().total_final as int == total_de(
                        neto_de(requerimientos@),
                    )
                    &&& final(self).requerimientos@.len() == old(self).requerimientos@.len()
                    &&& forall|k: int|
                        0 <= k < old(self).requerimientos@.len() ==> final(self).requerimientos@[k] == (
                        if listado(requerimientos@, old(self).requerimientos@[k].id) && old(self).requerimientos@[k].fecha_recepcion is Some && old(self).requerimientos@[k].informe_pago_id is None {
                            vinculado_a_informe(
                                old(self).requerimientos@[k],
                                old(self).sig_informe,
                                old(self).reloj_avanzado(),
                            )
                        } else {
                            old(self).requerimientos@[k]
                        })
                    &&& *final(self) == (Almacen {
                        informes_pago: final(self).informes_pago,
                        requerimientos: final(self).requerimientos,
                        sig_informe: (old(self).sig_informe + 1) as i64,
                        reloj: old(self).reloj_avanzado(),
                        ..*old(self)
                    })
                },
                Err(_) => false,
            },
    {
        let patron = construir_patron(
            "IP-",
            &jardin_codigo,
            &self.configuracion.prefijo_correlativo,
        );
        proof {
            reveal_strlit("IP-");
        }
        let maximo = self.maximo_correlativo_informe(&patron);
        let n = maximo + 1;
        let codigo = codigo_con_numero2(&patron, n);
        proof {
            lema_correlativo_sin_repeticion(
                codigos_informes(self.informes_pago@),
                patron@,
                relleno2(n as nat),
            );
            assert(forall|k: int|
                0 <= k < self.informes_pago@.len()
                    ==> codigos_informes(self.informes_pago@)[k]
                    == #[trigger] self.informes_pago@[k].codigo@);
            lema_neto_acotado(requerimientos@);
            assert((requerimientos@.len() as int) * MONTO_MAX <= ITEMS_INFORME_MAX as int
                * MONTO_MAX) by (nonlinear_arith)
                requires
                    requerimientos@.len() as int <= ITEMS_INFORME_MAX as int,
            ;
        }
        let neto = Self::calcular_neto(&requerimientos);
        let (utilidades, iva, total_final) = Self::calcular_totales(neto);
        self.tic();
        let marca = self.reloj;
        let id = self.sig_informe;
        self.informes_pago.push(
            InformePago {
                id,
                codigo,
                jardin_codigo,
                fecha_creacion,
                neto,
                utilidades,
                iva,
                total_final,
                observaciones,
                updated_at: marca,
            },
        );
        self.sig_informe = id + 1;
        proof {
            assert(existe_informe(self.informes_pago@, id)) by {
                assert(self.informes_pago@.last().id == id);
            }
            assert forall|k: int|
                0 <= k < self.requerimientos@.len() implies (match #[trigger] self.requerimientos@[k].informe_pago_id {
                Some(o) => existe_informe(self.informes_pago@, o),
                None => true,
            }) by {
                match self.requerimientos@[k].informe_pago_id {
                    Some(o) => {
                        let j = choose|j: int|
                            0 <= j < old(self).informes_pago@.len() && old(self).informes_pago@[j].id == o;
                        assert(self.informes_pago@[j].id == o);
                    },
                    None => {},
                }
            }
        }
        let ghost tras_informe = *self;
        self.reemplazar_membresia_informe(id, &requerimientos, marca);
        proof {
            assert forall|k: int| 0 <= k < old(self).requerimientos@.len() implies self.requerimientos@[k]
                == (if listado(requerimientos@, old(self).requerimientos@[k].id) && old(self).requerimientos@[k].fecha_recepcion is Some && old(self).requerimientos@[k].informe_pago_id is None {
                vinculado_a_informe(old(self).requerimientos@[k], id, marca)
            } else {
                old(self).requerimientos@[k]
            }) by {
                assert(tras_informe.requerimientos@[k] == old(self).requerimientos@[k]);
                if old(self).requerimientos@[k].informe_pago_id == Some(id) {
                    assert(existe_informe(old(self).informes_pago@, id));
                    let j = choose|j: int|
                        0 <= j < old(self).informes_pago@.len() && old(self).informes_pago@[j].id
                            == id;
                    assert(old(self).informes_pago@[j].id < old(self).sig_informe);
                    assert(false);
                }
            }
        }
        Ok(id)
    }

    /// Recalcula los totales de un informe a partir de la nueva lista de
    /// ítems, sobreescribe sus observaciones y reemplaza su membresía: los
    /// miembros anteriores no revinculados vuelven a pendiente. Falla, sin
    /// cambiar nada, exactamente cuando el informe no existe.
    pub fn update_informe_pago(
        &mut self,
        informe_id: i64,
        requerimientos: Vec<ItemPago>,
        observaciones: Option<String>,
    ) -> (r: Result<(), String>)
        requires
            old(self).wf(),
            items_acotados(requerimientos@),
            requerimientos@.len() <= ITEMS_INFORME_MAX,
        ensures
            final(self).wf(),
            match r {
                Ok(_) => {
                    &&& existe_informe(old(self).informes_pago@, informe_id)
                    &&& final(self).informes_pago@.len() == old(self).informes_pago@.len()
                    &&& forall|k: int|
                        0 <= k < old(self).informes_pago@.len() ==> final(self).informes_pago@[k]
                            == (if old(self).informes_pago@[k].id == informe_id {
                            (InformePago {
                                neto: final(self).informes_pago@[k].neto,
                                utilidades: final(self).informes_pago@[k].utilidades,
                                iva: final(self).informes_pago@[k].iva,
                                total_final: final(self).informes_pago@[k].total_final,
                                observaciones: observaciones,
                                updated_at: old(self).reloj_avanzado(),
                                ..old(self).informes_pago@[k]
                            })
                        } else {
                            old(self).informes_pago@[k]
                        })
                    &&& forall|k: int|
                        0 <= k < old(self).informes_pago@.len() && old(self).informes_pago@[k].id
                            == informe_id ==> {
                            &&& (#[trigger] final(self).informes_pago@[k].neto) as int == neto_de(
                                requerimientos@,
                            )
                            &&& final(self).informes_pago@[k].utilidades as int == utilidades_de(
                                neto_de(requerimientos@),
                            )
                            &&& final(self).informes_pago@[k].iva as int == iva_de(
                                neto_de(requerimientos@),
                            )
                            &&& final(self).informes_pago@[k].total_final as int == total_de(
                                neto_de(requerimientos@),
                            )
                        }
                    &&& final(self).requerimientos@.len() == old(self).requerimientos@.len()
                    &&& forall|k: int|
                        0 <= k < old(self).requerimientos@.len() ==> final(self).requerimientos@[k] == tras_membresia_informe(
                            old(self).requerimientos@[k],
                            informe_id,
                            requerimientos@,
                            old(self).reloj_avanzado(),
                        )
                    &&& *final(self) == (Almacen {
                        informes_pago: final(self).informes_pago,
                        requerimientos: final(self).requerimientos,
                        reloj: old(self).reloj_avanzado(),
                        ..*old(self)
                    })
                },
                Err(_) => !existe_informe(old(self).informes_pago@, informe_id) && *final(self)
                    == *old(self),
            },
    {
        let indice = match self.indice_informe(informe_id) {
            Some(i) => i,
            None => {
                return Err(String::from_str("informe no encontrado"));
            },
        };
        proof {
            lema_neto_acotado(requerimientos@);
            assert((requerimientos@.len() as int) * MONTO_MAX <= ITEMS_INFORME_MAX as int
                * MONTO_MAX) by (nonlinear_arith)
                requires
                    requerimientos@.len() as int <= ITEMS_INFORME_MAX as int,
            ;
        }
        let neto = Self::calcular_neto(&requerimientos);
        let (utilidades, iva, total_final) = Self::calcular_totales(neto);
        self.tic();
        let marca = self.reloj;
        let viejo = &self.informes_pago[indice];
        let nuevo = InformePago {
            id: viejo.id,
            codigo: viejo.codigo.clone(),
            jardin_codigo: viejo.jardin_codigo.clone(),
            fecha_creacion: viejo.fecha_creacion,
            neto,
            utilidades,
            iva,
            total_final,
            observaciones,
            updated_at: marca,
        };
        proof {
            assert(nuevo == (InformePago {
                neto: nuevo.neto,
                utilidades: nuevo.utilidades,
                iva: nuevo.iva,
                total_final: nuevo.total_final,
                observaciones: nuevo.observaciones,
                updated_at: marca,
                ..old(self).informes_pago@[indice as int]
            }));
        }
        vstd::std_specs::core::index_set(&mut self.informes_pago, indice, nuevo);
        proof {
            assert(forall|k: int|
                0 <= k < old(self).informes_pago@.len() && k != indice
                    ==> old(self).informes_pago@[k].id != informe_id);
            assert(forall|k: int|
                0 <= k < self.informes_pago@.len() && k != indice
                    ==> self.informes_pago@[k] == old(self).informes_pago@[k]);
            assert(self.informes_pago@[indice as int] == nuevo);
            assert(forall|k: int|
                0 <= k < self.informes_pago@.len() ==> #[trigger] self.informes_pago@[k].id == old(self).informes_pago@[k].id && self.informes_pago@[k].codigo@ == old(self).informes_pago@[k].codigo@);
            assert forall|k: int|
                0 <= k < self.requerimientos@.len() implies (match #[trigger] self.requerimientos@[k].informe_pago_id {
                Some(o) => existe_informe(self.informes_pago@, o),
                None => true,
            }) by {
                match self.requerimientos@[k].informe_pago_id {
                    Some(o) => {
                        let j = choose|j: int|
                            0 <= j < old(self).informes_pago@.len() && old(self).informes_pago@[j].id == o;
                        assert(self.informes_pago@[j].id == o);
                    },
                    None => {},
                }
            }
            assert(existe_informe(self.informes_pago@, informe_id)) by {
                assert(self.informes_pago@[indice as int].id == informe_id);
            }
        }
        let ghost antes_membresia = *self;
        proof {
            assert(antes_membresia.requerimientos@ == old(self).requerimientos@);
        }
        self.reemplazar_membresia_informe(informe_id, &requerimientos, marca);
        proof {
            assert(forall|k: int|
                0 <= k < old(self).requerimientos@.len()
                    ==> antes_membresia.requerimientos@[k] == old(self).requerimientos@[k]);
        }
        Ok(())
    }

    /// El índice del informe de pago con el identificador dado.
    fn indice_informe(&self, id: i64) -> (r: Option<usize>)
        ensures
            match r {
                Some(i) => i < self.informes_pago@.len() && self.informes_pago@[i as int].id == id,
                None => forall|k: int|
                    0 <= k < self.informes_pago@.len()
                        ==> #[trigger] self.informes_pago@[k].id != id,
            },
    {
        let mut i: usize = 0;
        while i < self.informes_pago.len()
            invariant
                i <= self.informes_pago@.len(),
                forall|k: int| 0 <= k < i ==> #[trigger] self.informes_pago@[k].id != id,
            decreases self.informes_pago@.len() - i,
        {
            if self.informes_pago[i].id == id {
                return Some(i);
            }
            i = i + 1;
        }
        None
    }

    /// Borra un informe de pago: todo miembro vuelve a pendiente con ambos
    /// vínculos en nulo, y la fila del informe desaparece. Con un
    /// identificador desconocido no borra fila alguna. Siempre tiene éxito.
    pub fn eliminar_informe_pago(&mut self, informe_id: i64) -> (r: Result<(), String>)
        requires
            old(self).wf(),
        ensures
            final(self).wf(),
            r is Ok,
            final(self).informes_pago@ == old(self).informes_pago@.filter(
                |o: InformePago| o.id != informe_id,
            ),
            final(self).requerimientos@.len() == old(self).requerimientos@.len(),
            forall|k: int|
                0 <= k < old(self).requerimientos@.len() ==> final(self).requerimientos@[k] == (
                if old(self).requerimientos@[k].informe_pago_id == Some(informe_id) {
                    desvinculado_de_informe(
                        old(self).requerimientos@[k],
                        old(self).reloj_avanzado(),
                    )
                } else {
                    old(self).requerimientos@[k]
                }),
            // todo miembro anterior queda pendiente con ambos vínculos nulos
            forall|k: int|
                0 <= k < old(self).requerimientos@.len()
                    && old(self).requerimientos@[k].informe_pago_id == Some(informe_id) ==> {
                    &&& #[trigger] final(self).requerimientos@[k].estado == Estado::Pendiente
                    &&& final(self).requerimientos@[k].ot_id is None
                    &&& final(self).requerimientos@[k].informe_pago_id is None
                },
            *final(self) == (Almacen {
                informes_pago: final(self).informes_pago,
                requerimientos: final(self).requerimientos,
                reloj: old(self).reloj_avanzado(),
                ..*old(self)
            }),
    {
        self.tic();
        let marca = self.reloj;
        let mut i: usize = 0;
        while i < self.requerimientos.len()
            invariant
                old(self).wf(),
                self.wf(),
                i <= self.requerimientos@.len(),
                self.requerimientos@.len() == old(self).requerimientos@.len(),
                forall|k: int|
                    0 <= k < i ==> self.requerimientos@[k] == (
                    if old(self).requerimientos@[k].informe_pago_id == Some(informe_id) {
                        desvinculado_de_informe(old(self).requerimientos@[k], marca)
                    } else {
                        old(self).requerimientos@[k]
                    }),
                forall|k: int|
                    i <= k < self.requerimientos@.len() ==> self.requerimientos@[k] == old(self).requerimientos@[k],
                *self == (Almacen {
                    requerimientos: self.requerimientos,
                    reloj: marca,
                    ..*old(self)
                }),
                marca == old(self).reloj_avanzado(),
            decreases self.requerimientos@.len() - i,
        {
            let es_miembro = match self.requerimientos[i].informe_pago_id {
                Some(o) => o == informe_id,
                None => false,
            };
            if es_miembro {
                let viejo = &self.requerimientos[i];
                let nuevo = Requerimiento {
                    id: viejo.id,
                    jardin_codigo: viejo.jardin_codigo.clone(),
                    recinto: clonar_opt_texto(&viejo.recinto),
                    partida_item: viejo.partida_item.clone(),
                    cantidad: viejo.cantidad,
                    precio_unitario: viejo.precio_unitario,
                    precio_total: viejo.precio_total,
                    fecha_inicio: viejo.fecha_inicio,
                    fecha_registro: viejo.fecha_registro,
                    estado: Estado::Pendiente,
                    ot_id: viejo.ot_id,
                    informe_pago_id: None,
                    fecha_recepcion: viejo.fecha_recepcion,
                    plazo_dias: viejo.plazo_dias,
                    plazo_adicional: viejo.plazo_adicional,
                    multa: viejo.multa,
                    descripcion: clonar_opt_texto(&viejo.descripcion),
                    observaciones: clonar_opt_texto(&viejo.observaciones),
                    updated_at: marca,
                };
                proof {
                    assert(old(self).requerimientos@[i as int].ot_id is None);
                    assert(nuevo == desvinculado_de_informe(
                        old(self).requerimientos@[i as int],
                        marca,
                    ));
                }
                vstd::std_specs::core::index_set(&mut self.requerimientos, i, nuevo);
            }
            i = i + 1;
        }
        let mut j: usize = 0;
        let ghost desvinculado = *self;
        while j < self.informes_pago.len()
            invariant
                desvinculado.wf(),
                *self == desvinculado,
                marca == old(self).reloj_avanzado(),
                desvinculado.requerimientos@.len() == old(self).requerimientos@.len(),
                forall|k: int|
                    0 <= k < old(self).requerimientos@.len() ==> desvinculado.requerimientos@[k]
                        == (if old(self).requerimientos@[k].informe_pago_id == Some(informe_id) {
                        desvinculado_de_informe(old(self).requerimientos@[k], marca)
                    } else {
                        old(self).requerimientos@[k]
                    }),
                desvinculado == (Almacen {
                    requerimientos: desvinculado.requerimientos,
                    reloj: marca,
                    ..*old(self)
                }),
                j <= self.informes_pago@.len(),
                forall|k: int| 0 <= k < j ==> #[trigger] self.informes_pago@[k].id != informe_id,
                forall|k: int|
                    0 <= k < self.requerimientos@.len()
                        ==> #[trigger] self.requerimientos@[k].informe_pago_id != Some(informe_id),
            decreases self.informes_pago@.len() - j,
        {
            if self.informes_pago[j].id == informe_id {
                self.informes_pago.remove(j);
                proof {
                    lema_remover_unico(
                        desvinculado.informes_pago@,
                        j as int,
                        |o: InformePago| o.id != informe_id,
                    );
                    assert forall|k: int|
                        0 <= k < self.requerimientos@.len() implies (match #[trigger] self.requerimientos@[k].informe_pago_id {
                        Some(o) => existe_informe(self.informes_pago@, o),
                        None => true,
                    }) by {
                        match self.requerimientos@[k].informe_pago_id {
                            Some(o) => {
                                lema_informe_sigue_existiendo(
                                    desvinculado.informes_pago@,
                                    j as int,
                                    o,
                                );
                            },
                            None => {},
                        }
                    }
                }
                return Ok(());
            }
            j = j + 1;
        }
        proof {
            lema_filtrar_todo(self.informes_pago@, |o: InformePago| o.id != informe_id);
        }
        Ok(())
    }
}

} // verus!
