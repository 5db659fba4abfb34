//! Agregador de órdenes de trabajo: creación con código correlativo,
//! reemplazo completo de la membresía con validación de jardín, y borrado
//! que devuelve cada miembro a pendiente.

use vstd::prelude::*;
use crate::entidades::{Requerimiento, OrdenTrabajo, Estado};
use crate::almacen::{Almacen, existe_orden, existe_requerimiento};
use crate::correlativo::{
    patron_de, maximo_sufijo, codigos_ordenes, construir_patron, codigo_con_numero3,
    lema_correlativo_sin_repeticion,
};
use crate::numeros::{relleno3, texto_entero, TOPE_CORRELATIVO};
use crate::secuencias::{lema_remover_unico, lema_filtrar_todo};
use crate::requerimientos::clonar_opt_texto;

verus! {

/// Un requerimiento vinculado a una orden de trabajo: el vínculo al informe
/// se limpia, el estado pasa a estar en orden y la marca se estampa.
pub open spec fn vinculado_a_ot(r: Requerimiento, ot: i64, marca: u64) -> Requerimiento {
    Requerimiento {
        ot_id: Some(ot),
        informe_pago_id: None,
        estado: Estado::EnOt,
        updated_at: marca,
        ..r
    }
}

/// Un requerimiento desvinculado de su orden de trabajo: vuelve a pendiente.
pub open spec fn desvinculado_de_ot(r: Requerimiento, marca: u64) -> Requerimiento {
    Requerimiento { ot_id: None, estado: Estado::Pendiente, updated_at: marca, ..r }
}

/// Si algún requerimiento lleva el identificador dado y pertenece al jardín
/// dado.
pub open spec fn cumple_jardin(s: Seq<Requerimiento>, id: i64, jardin: Seq<char>) -> bool {
    exists|j: int| 0 <= j < s.len() && s[j].id == id && s[j].jardin_codigo@ == jardin
}

/// Si cada identificador listado corresponde a un requerimiento existente y
/// del jardín dado.
pub open spec fn ids_del_jardin(s: Seq<Requerimiento>, ids: Seq<i64>, jardin: Seq<char>) -> bool {
    forall|k: int| 0 <= k < ids.len() ==> cumple_jardin(s, #[trigger] ids[k], jardin)
}

/// El patrón del alcance correlativo de las órdenes de trabajo de un jardín.
pub open spec fn patron_ot(jardin: Seq<char>, prefijo: Seq<char>) -> Seq<char> {
    patron_de("OT-"@, jardin, prefijo)
}

/// El mensaje que nombra al requerimiento infractor, su jardín y el de la
/// orden.
pub open spec fn mensaje_jardin_ajeno(
    id: int,
    jardin_requerimiento: Seq<char>,
    jardin_orden: Seq<char>,
) -> Seq<char> {
    "El requerimiento "@ + texto_entero(id) + " pertenece al jardin '"@ + jardin_requerimiento
        + "' pero la OT es del jardin '"@ + jardin_orden + "'"@
}

/// El mensaje que nombra a un requerimiento inexistente.
pub open spec fn mensaje_no_existe(id: int) -> Seq<char> {
    "Requerimiento "@ + texto_entero(id) + " no existe"@
}

/// El error que la validación de membresía emite para un identificador: o el
/// requerimiento no existe, o pertenece a otro jardín, y el mensaje lo
/// nombra.
pub open spec fn mensaje_de_rechazo(
    s: Seq<Requerimiento>,
    id: i64,
    jardin_orden: Seq<char>,
    mensaje: Seq<char>,
) -> bool {
    ||| (!existe_requerimiento(s, id) && mensaje == mensaje_no_existe(id as int))
    ||| (exists|j: int|
        0 <= j < s.len() && s[j].id == id && s[j].jardin_codigo@ != jardin_orden && mensaje
            == mensaje_jardin_ajeno(id as int, s[j].jardin_codigo@, jardin_orden))
}

/// Quitar una orden conserva la existencia de las demás.
proof fn lema_orden_sigue_existiendo(s: Seq<OrdenTrabajo>, i: int, id: i64)
    requires
        0 <= i < s.len(),
        existe_orden(s, id),
        s[i].id != id,
    ensures
        existe_orden(s.remove(i), id),
{
    let j = choose|j: int| 0 <= j < s.len() && s[j].id == id;
    if j < i {
        assert(s.remove(i)[j] == s[j]);
    } else {
        assert(s.remove(i)[j - 1] == s[j]);
    }
}

/// Si contiene el identificador.
pub fn contiene_id(ids: &Vec<i64>, id: i64) -> (r: bool)
    ensures
        r == ids@.contains(id),
{
    let mut i: usize = 0;
    while i < ids.len()
        invariant
            i <= ids@.len(),
            forall|k: int| 0 <= k < i ==> ids@[k] != id,
        decreases ids@.len() - i,
    {
        if ids[i] == id {
            return true;
        }
        i = i + 1;
    }
    false
}

impl Almacen {
    /// Las órdenes de trabajo almacenadas.
    pub fn get_ordenes_trabajo(&self) -> (r: &Vec<OrdenTrabajo>)
        ensures
            r == &self.ordenes_trabajo,
    {
        &self.ordenes_trabajo
    }

    /// El índice del requerimiento con el identificador dado.
    fn indice_requerimiento(&self, id: i64) -> (r: Option<usize>)
        ensures
            match r {
                Some(i) => i < self.requerimientos@.len() && self.requerimientos@[i as int].id
                    == id,
                None => forall|k: int|
                    0 <= k < self.requerimientos@.len()
                        ==> #[trigger] self.requerimientos@[k].id != id,
            },
    {
        let mut i: usize = 0;
        while i < self.requerimientos.len()
            invariant
                i <= self.requerimientos@.len(),
                forall|k: int| 0 <= k < i ==> #[trigger] self.requerimientos@[k].id != id,
            decreases self.requerimientos@.len() - i,
        {
            if self.requerimientos[i].id == id {
                return Some(i);
            }
            i = i + 1;
        }
        None
    }

    /// El índice de la orden de trabajo con el identificador dado.
    fn indice_orden(&self, id: i64) -> (r: Option<usize>)
        ensures
            match r {
                Some(i) => i < self.ordenes_trabajo@.len() && self.ordenes_trabajo@[i as int].id
                    == id,
                None => forall|k: int|
                    0 <= k < self.ordenes_trabajo@.len()
                        ==> #[trigger] self.ordenes_trabajo@[k].id != id,
            },
    {
        let mut i: usize = 0;
        while i < self.ordenes_trabajo.len()
            invariant
                i <= self.ordenes_trabajo@.len(),
                forall|k: int| 0 <= k < i ==> #[trigger] self.ordenes_trabajo@[k].id != id,
            decreases self.ordenes_trabajo@.len() - i,
        {
            if self.ordenes_trabajo[i].id == id {
                return Some(i);
            }
            i = i + 1;
        }
        None
    }

    /// Vincula a la orden dada todo requerimiento cuyo identificador esté en
    /// la lista, y desvincula (a pendiente) todo requerimiento vinculado a la
    /// orden cuyo identificador no esté en la lista.
    fn reemplazar_membresia_ot(&mut self, ot_id: i64, ids: &Vec<i64>, marca: u64)
        requires
            old(self).wf(),
            existe_orden(old(self).ordenes_trabajo@, ot_id),
        ensures
            final(self).wf(),
            final(self).requerimientos@.len() == old(self).requerimientos@.len(),
            forall|k: int|
                0 <= k < old(self).requerimientos@.len() ==> final(self).requerimientos@[k] == (
                if ids@.contains(old(self).requerimientos@[k].id) {
                    vinculado_a_ot(old(self).requerimientos@[k], ot_id, marca)
                } else if old(self).requerimientos@[k].ot_id == Some(ot_id) {
                    desvinculado_de_ot(old(self).requerimientos@[k], marca)
                } else {
                    old(self).requerimientos@[k]
                }),
            *final(self) == (Almacen { requerimientos: final(self).requerimientos, ..*old(self) }),
    {
        let mut i: usize = 0;
        while i < self.requerimientos.len()
            invariant
                old(self).wf(),
                existe_orden(old(self).ordenes_trabajo@, ot_id),
                self.wf(),
                i <= self.requerimientos@.len(),
                self.requerimientos@.len() == old(self).requerimientos@.len(),
                forall|k: int|
                    0 <= k < i ==> self.requerimientos@[k] == (
                    if ids@.contains(old(self).requerimientos@[k].id) {
                        vinculado_a_ot(old(self).requerimientos@[k], ot_id, marca)
                    } else if old(self).requerimientos@[k].ot_id == Some(ot_id) {
                        desvinculado_de_ot(old(self).requerimientos@[k], marca)
                    } else {
                        old(self).requerimientos@[k]
                    }),
                forall|k: int|
                    i <= k < self.requerimientos@.len() ==> self.requerimientos@[k] == old(self).requerimientos@[k],
                *self == (Almacen { requerimientos: self.requerimientos, ..*old(self) }),
            decreases self.requerimientos@.len() - i,
        {
            let rid = self.requerimientos[i].id;
            let vincular = contiene_id(ids, rid);
            let desvincular = !vincular && match self.requerimientos[i].ot_id {
                Some(o) => o == ot_id,
                None => false,
            };
            if vincular || desvincular {
                let viejo = &self.requerimientos[i];
                let nuevo = Requerimiento {
                    id: viejo.id,
                    jardin_codigo: viejo.jardin_codigo.clone(),
                    recinto: clonar_opt_texto(&viejo.recinto),
                    partida_item: viejo.partida_item.clone(),
                    cantidad: viejo.cantidad,
                    precio_unitario: viejo.precio_unitario,
                    precio_total: viejo.precio_total,
                    fecha_inicio: viejo.fecha_inicio,
                    fecha_registro: viejo.fecha_registro,
                    estado: if vincular {
                        Estado::EnOt
                    } else {
                        Estado::Pendiente
                    },
                    ot_id: if vincular {
                        Some(ot_id)
                    } else {
                        None
                    },
                    informe_pago_id: if vincular {
                        None
                    } else {
                        viejo.informe_pago_id
                    },
                    fecha_recepcion: viejo.fecha_recepcion,
                    plazo_dias: viejo.plazo_dias,
                    plazo_adicional: viejo.plazo_adicional,
                    multa: viejo.multa,
                    descripcion: clonar_opt_texto(&viejo.descripcion),
                    observaciones: clonar_opt_texto(&viejo.observaciones),
                    updated_at: marca,
                };
                proof {
                    if vincular {
                        assert(nuevo == vinculado_a_ot(old(self).requerimientos@[i as int], ot_id, marca));
                    } else {
                        assert(old(self).requerimientos@[i as int].informe_pago_id is None);
                        assert(nuevo == desvinculado_de_ot(
                            old(self).requerimientos@[i as int],
                            marca,
                        ));
                    }
                }
                vstd::std_specs::core::index_set(&mut self.requerimientos, i, nuevo);
            }
            i = i + 1;
        }
    }

    /// Crea una orden de trabajo para el jardín dado con el siguiente código
    /// correlativo del alcance, y vincula los requerimientos listados (los
    /// identificadores desconocidos se pasan por alto; la pertenencia al
    /// jardín no se valida al crear). Devuelve el identificador de la orden.
    pub fn crear_orden_trabajo(
        &mut self,
        jardin_codigo: String,
        fecha_creacion: i64,
        observaciones: Option<String>,
        requerimiento_ids: Vec<i64>,
    ) -> (r: Result<i64, String>)
        requires
            old(self).wf(),
            old(self).sig_orden < i64::MAX,
            maximo_sufijo(
                codigos_ordenes(old(self).ordenes_trabajo@),
                patron_ot(jardin_codigo@, old(self).configuracion.prefijo_correlativo@),
            ) < TOPE_CORRELATIVO,
        ensures
            final(self).wf(),
            match r {
                Ok(id) => {
                    &&& id == old(self).sig_orden
                    &&& final(self).ordenes_trabajo@.len() == old(self).ordenes_trabajo@.len() + 1
                    &&& final(self).ordenes_trabajo@.drop_last() == old(self).ordenes_trabajo@
                    &&& final(self).ordenes_trabajo@.last() == (OrdenTrabajo {
                        id: old(self).sig_orden,
                        codigo: final(self).ordenes_trabajo@.last().codigo,
                        jardin_codigo: jardin_codigo,
                        fecha_creacion: fecha_creacion,
                        observaciones: observaciones,
                        updated_at: old(self).reloj_avanzado(),
                    })
                    &&& final(self).ordenes_trabajo@.last().codigo@ == patron_ot(
                        jardin_codigo@,
                        old(self).configuracion.prefijo_correlativo@,
                    ) + relleno3(
                        (maximo_sufijo(
                            codigos_ordenes(old(self).ordenes_trabajo@),
                            patron_ot(jardin_codigo@, old(self).configuracion.prefijo_correlativo@),
                        ) + 1) as nat,
                    )
                    &&& final(self).requerimientos@.len() == old(self).requerimientos@.len()
                    &&& forall|k: int|
                        0 <= k < old(self).requerimientos@.len() ==> final(self).requerimientos@[k] == (
                        if requerimiento_ids@.contains(old(self).requerimientos@[k].id) {
                            vinculado_a_ot(
                                old(self).requerimientos@[k],
                                old(self).sig_orden,
                                old(self).reloj_avanzado(),
                            )
                        } else {
                            old(self).requerimientos@[k]
                        })
                    &&& *final(self) == (Almacen {
                        ordenes_trabajo: final(self).ordenes_trabajo,
                        requerimientos: final(self).requerimientos,
                        sig_orden: (old(self).sig_orden + 1) as i64,
                        reloj: old(self).reloj_avanzado(),
                        ..*old(self)
                    })
                },
                Err(_) => false,
            },
    {
        let patron = construir_patron("OT-", &jardin_codigo, &self.configuracion.prefijo_correlativo);
        proof {
            reveal_strlit("OT-");
        }
        let maximo = self.maximo_correlativo_ot(&patron);
        let n = maximo + 1;
        let codigo = codigo_con_numero3(&patron, n);
        proof {
            lema_correlativo_sin_repeticion(
                codigos_ordenes(self.ordenes_trabajo@),
                patron@,
                relleno3(n as nat),
            );
            assert(forall|k: int|
                0 <= k < self.ordenes_trabajo@.len()
                    ==> codigos_ordenes(self.ordenes_trabajo@)[k]
                    == #[trigger] self.ordenes_trabajo@[k].codigo@);
        }
        self.tic();
        let marca = self.reloj;
        let id = self.sig_orden;
        self.ordenes_trabajo.push(
            OrdenTrabajo {
                id,
                codigo,
                jardin_codigo,
                fecha_creacion,
                observaciones,
                updated_at: marca,
            },
        );
        self.sig_orden = id + 1;
        proof {
            assert(existe_orden(self.ordenes_trabajo@, id)) by {
                assert(self.ordenes_trabajo@.last().id == id);
            }
            assert forall|k: int|
                0 <= k < self.requerimientos@.len() implies (match #[trigger] self.requerimientos@[k].ot_id {
                Some(o) => existe_orden(self.ordenes_trabajo@, o),
                None => true,
            }) by {
                match self.requerimientos@[k].ot_id {
                    Some(o) => {
                        assert(existe_orden(old(self).ordenes_trabajo@, o));
                        let j = choose|j: int|
                            0 <= j < old(self).ordenes_trabajo@.len() && old(self).ordenes_trabajo@[j].id == o;
                        assert(self.ordenes_trabajo@[j].id == o);
                    },
                    None => {},
                }
            }
        }
        let ghost tras_orden = *self;
        self.reemplazar_membresia_ot(id, &requerimiento_ids, marca);
        proof {
            assert forall|k: int| 0 <= k < old(self).requerimientos@.len() implies self.requerimientos@[k]
                == (if requerimiento_ids@.contains(old(self).requerimientos@[k].id) {
                vinculado_a_ot(old(self).requerimientos@[k], id, marca)
            } else {
                old(self).requerimientos@[k]
            }) by {
                assert(tras_orden.requerimientos@[k] == old(self).requerimientos@[k]);
                if !requerimiento_ids@.contains(old(self).requerimientos@[k].id) {
                    if old(self).requerimientos@[k].ot_id == Some(id) {
                        assert(existe_orden(old(self).ordenes_trabajo@, id));
                        let j = choose|j: int|
                            0 <= j < old(self).ordenes_trabajo@.len() && old(self).ordenes_trabajo@[j].id == id;
                        assert(old(self).ordenes_trabajo@[j].id < old(self).sig_orden);
                        assert(false);
                    }
                }
            }
        }
        Ok(id)
    }

    /// Reemplaza por completo la membresía de una orden de trabajo y, si
    /// vienen, sus observaciones. Valida antes de mutar: si la orden no
    /// existe, o algún requerimiento listado no existe o pertenece a otro
    /// jardín, falla por entero sin cambiar nada y el error nombra al
    /// requerimiento infractor y su jardín. En el éxito, los miembros
    /// anteriores no listados vuelven a pendiente y los listados quedan en la
    /// orden.
    pub fn update_orden_trabajo(
        &mut self,
        ot_id: i64,
        requerimiento_ids: Vec<i64>,
        observaciones: Option<String>,
    ) -> (r: Result<(), String>)
        requires
            old(self).wf(),
        ensures
            final(self).wf(),
            match r {
                Ok(_) => {
                    &&& existe_orden(old(self).ordenes_trabajo@, ot_id)
                    &&& ids_del_jardin(
                        old(self).requerimientos@,
                        requerimiento_ids@,
                        jardin_de_orden(old(self).ordenes_trabajo@, ot_id),
                    )
                    &&& final(self).requerimientos@.len() == old(self).requerimientos@.len()
                    &&& forall|k: int|
                        0 <= k < old(self).requerimientos@.len() ==> final(self).requerimientos@[k] == (
                        if requerimiento_ids@.contains(old(self).requerimientos@[k].id) {
                            vinculado_a_ot(
                                old(self).requerimientos@[k],
                                ot_id,
                                old(self).reloj_avanzado(),
                            )
                        } else if old(self).requerimientos@[k].ot_id == Some(ot_id) {
                            desvinculado_de_ot(
                                old(self).requerimientos@[k],
                                old(self).reloj_avanzado(),
                            )
                        } else {
                            old(self).requerimientos@[k]
                        })
                    &&& final(self).ordenes_trabajo@.len() == old(self).ordenes_trabajo@.len()
                    &&& forall|k: int|
                        0 <= k < old(self).ordenes_trabajo@.len() ==> final(self).ordenes_trabajo@[k] == (
                        if old(self).ordenes_trabajo@[k].id == ot_id && observaciones is Some {
                            (OrdenTrabajo {
                                observaciones: observaciones,
                                updated_at: old(self).reloj_avanzado(),
                                ..old(self).ordenes_trabajo@[k]
                            })
                        } else {
                            old(self).ordenes_trabajo@[k]
                        })
                    &&& *final(self) == (Almacen {
                        ordenes_trabajo: final(self).ordenes_trabajo,
                        requerimientos: final(self).requerimientos,
                        reloj: old(self).reloj_avanzado(),
                        ..*old(self)
                    })
                },
                Err(e) => {
                    &&& *final(self) == *old(self)
                    &&& if !existe_orden(old(self).ordenes_trabajo@, ot_id) {
                        e@ == "OT no encontrada"@
                    } else {
                        &&& !ids_del_jardin(
                            old(self).requerimientos@,
                            requerimiento_ids@,
                            jardin_de_orden(old(self).ordenes_trabajo@, ot_id),
                        )
                        &&& exists|k: int|
                            0 <= k < requerimiento_ids@.len() && mensaje_de_rechazo(
                                old(self).requerimientos@,
                                #[trigger] requerimiento_ids@[k],
                                jardin_de_orden(old(self).ordenes_trabajo@, ot_id),
                                e@,
                            )
                    }
                },
            },
    {
        let indice_ot = match self.indice_orden(ot_id) {
            Some(i) => i,
            None => {
                return Err(String::from_str("OT no encontrada"));
            },
        };
        let ghost jardin_ot = self.ordenes_trabajo@[indice_ot as int].jardin_codigo@;
        proof {
            lema_jardin_de_orden(self.ordenes_trabajo@, ot_id, indice_ot as int);
        }
        // validar todos los requerimientos antes de mutar
        let mut v: usize = 0;
        while v < requerimiento_ids.len()
            invariant
                old(self).wf(),
                *self == *old(self),
                v <= requerimiento_ids@.len(),
                indice_ot < self.ordenes_trabajo@.len(),
                self.ordenes_trabajo@[indice_ot as int].id == ot_id,
                jardin_ot == self.ordenes_trabajo@[indice_ot as int].jardin_codigo@,
                jardin_ot == jardin_de_orden(self.ordenes_trabajo@, ot_id),
                forall|k: int|
                    0 <= k < v ==> cumple_jardin(
                        self.requerimientos@,
                        #[trigger] requerimiento_ids@[k],
                        jardin_ot,
                    ),
            decreases requerimiento_ids@.len() - v,
        {
            let rid = requerimiento_ids[v];
            match self.indice_requerimiento(rid) {
                Some(j) => {
                    if !(self.requerimientos[j].jardin_codigo
                        == self.ordenes_trabajo[indice_ot].jardin_codigo) {
                        let mut mensaje = String::from_str("El requerimiento ");
                        let numero = crate::numeros::texto_i64(rid);
                        mensaje.append(numero.as_str());
                        mensaje.append(" pertenece al jardin '");
                        mensaje.append(self.requerimientos[j].jardin_codigo.as_str());
                        mensaje.append("' pero la OT es del jardin '");
                        mensaje.append(self.ordenes_trabajo[indice_ot].jardin_codigo.as_str());
                        mensaje.append("'");
                        proof {
                            assert(mensaje@ =~= mensaje_jardin_ajeno(
                                rid as int,
                                self.requerimientos@[j as int].jardin_codigo@,
                                jardin_ot,
                            ));
                            assert(mensaje_de_rechazo(
                                self.requerimientos@,
                                rid,
                                jardin_ot,
                                mensaje@,
                            ));
                        }
                        return Err(mensaje);
                    }
                },
                None => {
                    let mut mensaje = String::from_str("Requerimiento ");
                    let numero = crate::numeros::texto_i64(rid);
                    mensaje.append(numero.as_str());
                    mensaje.append(" no existe");
                    proof {
                        assert(mensaje@ =~= mensaje_no_existe(rid as int));
                        assert(mensaje_de_rechazo(self.requerimientos@, rid, jardin_ot, mensaje@));
                    }
                    return Err(mensaje);
                },
            }
            proof {
                assert(cumple_jardin(self.requerimientos@, rid, jardin_ot));
            }
            v = v + 1;
        }
        proof {
            assert(ids_del_jardin(self.requerimientos@, requerimiento_ids@, jardin_ot));
        }
        self.tic();
        let marca = self.reloj;
        // actualizar observaciones si vienen
        if observaciones.is_some() {
            let viejo = &self.ordenes_trabajo[indice_ot];
            let nueva = OrdenTrabajo {
                id: viejo.id,
                codigo: viejo.codigo.clone(),
                jardin_codigo: viejo.jardin_codigo.clone(),
                fecha_creacion: viejo.fecha_creacion,
                observaciones,
                updated_at: marca,
            };
            proof {
                assert(nueva == (OrdenTrabajo {
                    observaciones: nueva.observaciones,
                    updated_at: marca,
                    ..old(self).ordenes_trabajo@[indice_ot as int]
                }));
            }
            vstd::std_specs::core::index_set(&mut self.ordenes_trabajo, indice_ot, nueva);
            proof {
                assert(forall|k: int|
                    0 <= k < old(self).ordenes_trabajo@.len() && k != indice_ot
                        ==> old(self).ordenes_trabajo@[k].id != ot_id);
                assert(forall|k: int|
                    0 <= k < self.ordenes_trabajo@.len() && k != indice_ot
                        ==> self.ordenes_trabajo@[k] == old(self).ordenes_trabajo@[k]);
                assert(self.ordenes_trabajo@[indice_ot as int] == nueva);
                assert(forall|k: int|
                    0 <= k < self.ordenes_trabajo@.len()
                        ==> #[trigger] self.ordenes_trabajo@[k].id == old(
                        self,
                    ).ordenes_trabajo@[k].id && self.ordenes_trabajo@[k].codigo@ == old(
                        self,
                    ).ordenes_trabajo@[k].codigo@);
                assert forall|k: int|
                    0 <= k < self.requerimientos@.len() implies (match #[trigger] self.requerimientos@[k].ot_id {
                    Some(o) => existe_orden(self.ordenes_trabajo@, o),
                    None => true,
                }) by {
                    match self.requerimientos@[k].ot_id {
                        Some(o) => {
                            let j = choose|j: int|
                                0 <= j < old(self).ordenes_trabajo@.len() && old(self).ordenes_trabajo@[j].id == o;
                            assert(self.ordenes_trabajo@[j].id == o);
                        },
                        None => {},
                    }
                }
            }
        }
        proof {
            assert(existe_orden(self.ordenes_trabajo@, ot_id)) by {
                assert(self.ordenes_trabajo@[indice_ot as int].id == ot_id);
            }
        }
        let ghost antes_membresia = *self;
        proof {
            assert(antes_membresia.requerimientos@ == old(self).requerimientos@);
        }
        self.reemplazar_membresia_ot(ot_id, &requerimiento_ids, marca);
        proof {
            assert(forall|k: int|
                0 <= k < old(self).requerimientos@.len()
                    ==> antes_membresia.requerimientos@[k] == old(self).requerimientos@[k]);
        }
        Ok(())
    }

    /// Borra una orden de trabajo: todo miembro vuelve a pendiente con ambos
    /// vínculos en nulo, y la fila de la orden desaparece. Con un
    /// identificador desconocido solo desvincula (nada hay que desvincular) y
    /// no borra fila alguna. Siempre tiene éxito.
    pub fn eliminar_orden_trabajo(&mut self, ot_id: i64) -> (r: Result<(), String>)
        requires
            old(self).wf(),
        ensures
            final(self).wf(),
            r is Ok,
            final(self).ordenes_trabajo@ == old(self).ordenes_trabajo@.filter(
                |o: OrdenTrabajo| o.id != ot_id,
            ),
            final(self).requerimientos@.len() == old(self).requerimientos@.len(),
            forall|k: int|
                0 <= k < old(self).requerimientos@.len() ==> final(self).requerimientos@[k] == (
                if old(self).requerimientos@[k].ot_id == Some(ot_id) {
                    desvinculado_de_ot(old(self).requerimientos@[k], old(self).reloj_avanzado())
                } else {
                    old(self).requerimientos@[k]
                }),
            // todo miembro anterior queda pendiente con ambos vínculos nulos
            forall|k: int|
                0 <= k < old(self).requerimientos@.len() && old(self).requerimientos@[k].ot_id
                    == Some(ot_id) ==> {
                    &&& #[trigger] final(self).requerimientos@[k].estado == Estado::Pendiente
                    &&& final(self).requerimientos@[k].ot_id is None
                    &&& final(self).requerimientos@[k].informe_pago_id is None
                },
            *final(self) == (Almacen {
                ordenes_trabajo: final(self).ordenes_trabajo,
                requerimientos: final(self).requerimientos,
                reloj: old(self).reloj_avanzado(),
                ..*old(self)
            }),
    {
        self.tic();
        let marca = self.reloj;
        let ghost previo = *self;
        // desvincular los miembros
        let mut i: usize = 0;
        while i < self.requerimientos.len()
            invariant
                old(self).wf(),
                self.wf(),
                i <= self.requerimientos@.len(),
                self.requerimientos@.len() == old(self).requerimientos@.len(),
                forall|k: int|
                    0 <= k < i ==> self.requerimientos@[k] == (
                    if old(self).requerimientos@[k].ot_id == Some(ot_id) {
                        desvinculado_de_ot(old(self).requerimientos@[k], marca)
                    } else {
                        old(self).requerimientos@[k]
                    }),
                forall|k: int|
                    i <= k < self.requerimientos@.len() ==> self.requerimientos@[k] == old(self).requerimientos@[k],
                *self == (Almacen {
                    requerimientos: self.requerimientos,
                    reloj: marca,
                    ..*old(self)
                }),
                marca == old(self).reloj_avanzado(),
            decreases self.requerimientos@.len() - i,
        {
            let es_miembro = match self.requerimientos[i].ot_id {
                Some(o) => o == ot_id,
                None => false,
            };
            if es_miembro {
                let viejo = &self.requerimientos[i];
                let nuevo = Requerimiento {
                    id: viejo.id,
                    jardin_codigo: viejo.jardin_codigo.clone(),
                    recinto: clonar_opt_texto(&viejo.recinto),
                    partida_item: viejo.partida_item.clone(),
                    cantidad: viejo.cantidad,
                    precio_unitario: viejo.precio_unitario,
                    precio_total: viejo.precio_total,
                    fecha_inicio: viejo.fecha_inicio,
                    fecha_registro: viejo.fecha_registro,
                    estado: Estado::Pendiente,
                    ot_id: None,
                    informe_pago_id: viejo.informe_pago_id,
                    fecha_recepcion: viejo.fecha_recepcion,
                    plazo_dias: viejo.plazo_dias,
                    plazo_adicional: viejo.plazo_adicional,
                    multa: viejo.multa,
                    descripcion: clonar_opt_texto(&viejo.descripcion),
                    observaciones: clonar_opt_texto(&viejo.observaciones),
                    updated_at: marca,
                };
                proof {
                    assert(old(self).requerimientos@[i as int].informe_pago_id is None);
                    assert(nuevo == desvinculado_de_ot(old(self).requerimientos@[i as int], marca));
                }
                vstd::std_specs::core::index_set(&mut self.requerimientos, i, nuevo);
            }
            i = i + 1;
        }
        // borrar la fila de la orden
        let mut j: usize = 0;
        let ghost desvinculado = *self;
        while j < self.ordenes_trabajo.len()
            invariant
                desvinculado.wf(),
                *self == desvinculado,
                marca == old(self).reloj_avanzado(),
                desvinculado.requerimientos@.len() == old(self).requerimientos@.len(),
                forall|k: int|
                    0 <= k < old(self).requerimientos@.len() ==> desvinculado.requerimientos@[k]
                        == (if old(self).requerimientos@[k].ot_id == Some(ot_id) {
                        desvinculado_de_ot(old(self).requerimientos@[k], marca)
                    } else {
                        old(self).requerimientos@[k]
                    }),
                desvinculado == (Almacen {
                    requerimientos: desvinculado.requerimientos,
                    reloj: marca,
                    ..*old(self)
                }),
                j <= self.ordenes_trabajo@.len(),
                forall|k: int| 0 <= k < j ==> #[trigger] self.ordenes_trabajo@[k].id != ot_id,
                forall|k: int|
                    0 <= k < self.requerimientos@.len()
                        ==> #[trigger] self.requerimientos@[k].ot_id != Some(ot_id),
            decreases self.ordenes_trabajo@.len() - j,
        {
            if self.ordenes_trabajo[j].id == ot_id {
                self.ordenes_trabajo.remove(j);
                proof {
                    lema_remover_unico(
                        desvinculado.ordenes_trabajo@,
                        j as int,
                        |o: OrdenTrabajo| o.id != ot_id,
                    );
                    assert forall|k: int|
                        0 <= k < self.requerimientos@.len() implies (match #[trigger] self.requerimientos@[k].ot_id {
                        Some(o) => existe_orden(self.ordenes_trabajo@, o),
                        None => true,
                    }) by {
                        match self.requerimientos@[k].ot_id {
                            Some(o) => {
                                lema_orden_sigue_existiendo(
                                    desvinculado.ordenes_trabajo@,
                                    j as int,
                                    o,
                                );
                            },
                            None => {},
                        }
                    }
                }
                return Ok(());
            }
            j = j + 1;
        }
        proof {
            lema_filtrar_todo(self.ordenes_trabajo@, |o: OrdenTrabajo| o.id != ot_id);
        }
        Ok(())
    }
}

/// El jardín de la orden con el identificador dado, si existe.
pub open spec fn jardin_de_orden(s: Seq<OrdenTrabajo>, id: i64) -> Seq<char> {
    let j = choose|j: int| 0 <= j < s.len() && s[j].id == id;
    s[j].jardin_codigo@
}

/// Con identificadores únicos, el jardín de la orden es el de su fila.
proof fn lema_jardin_de_orden(s: Seq<OrdenTrabajo>, id: i64, i: int)
    requires
        0 <= i < s.len(),
        s[i].id == id,
        forall|a: int, b: int| 0 <= a < b < s.len() ==> s[a].id != s[b].id,
    ensures
        jardin_de_orden(s, id) == s[i].jardin_codigo@,
{
    let j = choose|j: int| 0 <= j < s.len() && s[j].id == id;
    if j != i {
        if j < i {
            assert(s[j].id != s[i].id);
        } else {
            assert(s[i].id != s[j].id);
        }
    }
}

} // verus!
