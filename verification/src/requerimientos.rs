//! Ciclo de vida de los requerimientos: creación validada, actualización
//! parcial por conjunto de cambios, fechas de recepción y borrado.

use vstd::prelude::*;
use crate::entidades::{
    Requerimiento, RequerimientoCambios, Estado, req_valido, CANTIDAD_MAX, PRECIO_MAX,
    PRECIO_TOTAL_MAX, FECHA_MAX, PLAZO_MAX,
};
use crate::almacen::{Almacen, existe_jardin, existe_partida};
use crate::secuencias::lema_remover_unico;

verus! {

/// El producto de una cantidad y un precio acotados cabe en el total.
pub proof fn lema_producto_acotado(c: int, p: int)
    requires
        -CANTIDAD_MAX <= c <= CANTIDAD_MAX,
        -PRECIO_MAX <= p <= PRECIO_MAX,
    ensures
        -PRECIO_TOTAL_MAX <= c * p <= PRECIO_TOTAL_MAX,
{
    assert(-PRECIO_TOTAL_MAX <= c * p <= PRECIO_TOTAL_MAX) by (nonlinear_arith)
        requires
            -CANTIDAD_MAX <= c <= CANTIDAD_MAX,
            -PRECIO_MAX <= p <= PRECIO_MAX,
    ;
}

/// Un requerimiento tras aplicarle un conjunto de cambios: cada campo
/// presente reemplaza al almacenado; si viene cantidad o precio unitario, el
/// total se recalcula del par resultante; la marca de modificación se
/// estampa.
pub open spec fn con_cambios(r: Requerimiento, c: RequerimientoCambios, marca: u64) -> Requerimiento {
    let cantidad = match c.cantidad {
        Some(v) => v,
        None => r.cantidad,
    };
    let precio_unitario = match c.precio_unitario {
        Some(v) => v,
        None => r.precio_unitario,
    };
    Requerimiento {
        descripcion: if c.descripcion is Some {
            c.descripcion
        } else {
            r.descripcion
        },
        observaciones: if c.observaciones is Some {
            c.observaciones
        } else {
            r.observaciones
        },
        partida_item: match c.partida_item {
            Some(v) => v,
            None => r.partida_item,
        },
        cantidad,
        precio_unitario,
        precio_total: if c.cantidad is Some || c.precio_unitario is Some {
            (cantidad as int * precio_unitario as int) as i64
        } else {
            r.precio_total
        },
        fecha_inicio: match c.fecha_inicio {
            Some(v) => v,
            None => r.fecha_inicio,
        },
        plazo_dias: match c.plazo_dias {
            Some(v) => v,
            None => r.plazo_dias,
        },
        plazo_adicional: match c.plazo_adicional {
            Some(v) => v,
            None => r.plazo_adicional,
        },
        fecha_recepcion: if c.fecha_recepcion is Some {
            c.fecha_recepcion
        } else {
            r.fecha_recepcion
        },
        multa: match c.multa {
            Some(v) => v,
            None => r.multa,
        },
        updated_at: marca,
        ..r
    }
}

/// Duplica un texto opcional conservando su valor.
pub fn clonar_opt_texto(o: &Option<String>) -> (r: Option<String>)
    ensures
        r == *o,
{
    match o {
        Some(s) => Some(s.clone()),
        None => None,
    }
}

impl Almacen {
    /// Crea un requerimiento en estado pendiente con el total calculado como
    /// cantidad por precio unitario, y devuelve su identificador. Falla, sin
    /// cambiar nada, exactamente cuando el jardín o la partida referidos no
    /// existen.
    pub fn add_requerimiento(
        &mut self,
        jardin_codigo: String,
        recinto: Option<String>,
        partida_item: String,
        cantidad: i64,
        precio_unitario: i64,
        fecha_inicio: i64,
        fecha_registro: i64,
        plazo_dias: i64,
        descripcion: Option<String>,
    ) -> (r: Result<i64, String>)
        requires
            old(self).wf(),
            old(self).sig_requerimiento < i64::MAX,
            -CANTIDAD_MAX <= cantidad <= CANTIDAD_MAX,
            -PRECIO_MAX <= precio_unitario <= PRECIO_MAX,
            -FECHA_MAX <= fecha_inicio <= FECHA_MAX,
            -FECHA_MAX <= fecha_registro <= FECHA_MAX,
            -PLAZO_MAX <= plazo_dias <= PLAZO_MAX,
        ensures
            final(self).wf(),
            match r {
                Ok(id) => {
                    &&& existe_jardin(old(self).jardines@, jardin_codigo@)
                    &&& existe_partida(old(self).partidas@, partida_item@)
                    &&& id == old(self).sig_requerimiento
                    &&& final(self).requerimientos@ == old(self).requerimientos@.push(
                        (Requerimiento {
                            id: old(self).sig_requerimiento,
                            jardin_codigo: jardin_codigo,
                            recinto: recinto,
                            partida_item: partida_item,
                            cantidad: cantidad,
                            precio_unitario: precio_unitario,
                            precio_total: (cantidad as int * precio_unitario as int) as i64,
                            fecha_inicio: fecha_inicio,
                            fecha_registro: fecha_registro,
                            estado: Estado::Pendiente,
                            ot_id: None,
                            informe_pago_id: None,
                            fecha_recepcion: None,
                            plazo_dias: plazo_dias,
                            plazo_adicional: 0,
                            multa: 0,
                            descripcion: descripcion,
                            observaciones: None,
                            updated_at: old(self).reloj_avanzado(),
                        }),
                    )
                    &&& *final(self) == (Almacen {
                        requerimientos: final(self).requerimientos,
                        sig_requerimiento: (old(self).sig_requerimiento + 1) as i64,
                        reloj: old(self).reloj_avanzado(),
                        ..*old(self)
                    })
                },
                Err(_) => (!existe_jardin(old(self).jardines@, jardin_codigo@) || !existe_partida(
                    old(self).partidas@,
                    partida_item@,
                )) && *final(self) == *old(self),
            },
    {
        if self.get_jardin_by_codigo(&jardin_codigo).is_none() {
            return Err(String::from_str("jardin desconocido"));
        }
        let mut existe: bool = false;
        let mut i: usize = 0;
        while i < self.partidas.len()
            invariant
                old(self).wf(),
                *self == *old(self),
                i <= self.partidas@.len(),
                existe <==> exists|k: int|
                    0 <= k < i && #[trigger] self.partidas@[k].item@ == partida_item@,
            decreases self.partidas@.len() - i,
        {
            if self.partidas[i].item == partida_item {
                existe = true;
            }
            i = i + 1;
        }
        if !existe {
            return Err(String::from_str("partida desconocida"));
        }
        proof {
            lema_producto_acotado(cantidad as int, precio_unitario as int);
        }
        let precio_total = cantidad * precio_unitario;
        self.tic();
        let id = self.sig_requerimiento;
        self.requerimientos.push(
            Requerimiento {
                id,
                jardin_codigo,
                recinto,
                partida_item,
                cantidad,
                precio_unitario,
                precio_total,
                fecha_inicio,
                fecha_registro,
                estado: Estado::Pendiente,
                ot_id: None,
                informe_pago_id: None,
                fecha_recepcion: None,
                plazo_dias,
                plazo_adicional: 0,
                multa: 0,
                descripcion,
                observaciones: None,
                updated_at: self.reloj,
            },
        );
        self.sig_requerimiento = id + 1;
        Ok(id)
    }

    /// Aplica un conjunto de cambios al requerimiento con el identificador
    /// dado y estampa la marca de modificación. Con un conjunto vacío no
    /// cambia nada; con un identificador desconocido solo avanza el reloj.
    /// Siempre tiene éxito.
    pub fn update_requerimiento(&mut self, id: i64, cambios: RequerimientoCambios) -> (r: Result<
        (),
        String,
    >)
        requires
            old(self).wf(),
            cambios.acotado(),
        ensures
            final(self).wf(),
            r is Ok,
            !cambios.hay_cambios() ==> *final(self) == *old(self),
            cambios.hay_cambios() ==> {
                &&& final(self).requerimientos@.len() == old(self).requerimientos@.len()
                &&& forall|k: int|
                    0 <= k < old(self).requerimientos@.len()
                        ==> final(self).requerimientos@[k] == (
                    if old(self).requerimientos@[k].id == id {
                        con_cambios(
                            old(self).requerimientos@[k],
                            cambios,
                            old(self).reloj_avanzado(),
                        )
                    } else {
                        old(self).requerimientos@[k]
                    })
                &&& *final(self) == (Almacen {
                    requerimientos: final(self).requerimientos,
                    reloj: old(self).reloj_avanzado(),
                    ..*old(self)
                })
            },
    {
        let hay = cambios.descripcion.is_some() || cambios.observaciones.is_some()
            || cambios.partida_item.is_some() || cambios.cantidad.is_some()
            || cambios.precio_unitario.is_some() || cambios.fecha_inicio.is_some()
            || cambios.plazo_dias.is_some() || cambios.plazo_adicional.is_some()
            || cambios.fecha_recepcion.is_some() || cambios.multa.is_some();
        if !hay {
            return Ok(());
        }
        self.tic();
        let ghost previo = *self;
        let marca = self.reloj;
        let mut i: usize = 0;
        while i < self.requerimientos.len()
            invariant
                old(self).wf(),
                cambios.acotado(),
                cambios.hay_cambios(),
                *self == (Almacen { requerimientos: self.requerimientos, ..previo }),
                previo == (Almacen { reloj: marca, ..*old(self) }),
                marca == old(self).reloj_avanzado(),
                i <= self.requerimientos@.len(),
                self.requerimientos@.len() == old(self).requerimientos@.len(),
                forall|k: int| 0 <= k < i ==> #[trigger] old(self).requerimientos@[k].id != id,
                forall|k: int|
                    0 <= k < self.requerimientos@.len() ==> self.requerimientos@[k] == old(self).requerimientos@[k],
            decreases self.requerimientos@.len() - i,
        {
            if self.requerimientos[i].id == id {
                let viejo = &self.requerimientos[i];
                let cantidad = match cambios.cantidad {
                    Some(v) => v,
                    None => viejo.cantidad,
                };
                let precio_unitario = match cambios.precio_unitario {
                    Some(v) => v,
                    None => viejo.precio_unitario,
                };
                let recalcular = cambios.cantidad.is_some() || cambios.precio_unitario.is_some();
                proof {
                    assert(req_valido(old(self).requerimientos@[i as int]));
                    lema_producto_acotado(cantidad as int, precio_unitario as int);
                }
                let precio_total = if recalcular {
                    cantidad * precio_unitario
                } else {
                    viejo.precio_total
                };
                let nuevo = Requerimiento {
                    id: viejo.id,
                    jardin_codigo: viejo.jardin_codigo.clone(),
                    recinto: clonar_opt_texto(&viejo.recinto),
                    partida_item: match cambios.partida_item {
                        Some(v) => v,
                        None => viejo.partida_item.clone(),
                    },
                    cantidad,
                    precio_unitario,
                    precio_total,
                    fecha_inicio: match cambios.fecha_inicio {
                        Some(v) => v,
                        None => viejo.fecha_inicio,
                    },
                    fecha_registro: viejo.fecha_registro,
                    estado: viejo.estado,
                    ot_id: viejo.ot_id,
                    informe_pago_id: viejo.informe_pago_id,
                    fecha_recepcion: match cambios.fecha_recepcion {
                        Some(v) => Some(v),
                        None => viejo.fecha_recepcion,
                    },
                    plazo_dias: match cambios.plazo_dias {
                        Some(v) => v,
                        None => viejo.plazo_dias,
                    },
                    plazo_adicional: match cambios.plazo_adicional {
                        Some(v) => v,
                        None => viejo.plazo_adicional,
                    },
                    multa: match cambios.multa {
                        Some(v) => v,
                        None => viejo.multa,
                    },
                    descripcion: match cambios.descripcion {
                        Some(v) => Some(v),
                        None => clonar_opt_texto(&viejo.descripcion),
                    },
                    observaciones: match cambios.observaciones {
                        Some(v) => Some(v),
                        None => clonar_opt_texto(&viejo.observaciones),
                    },
                    updated_at: marca,
                };
                proof {
                    assert(nuevo == con_cambios(old(self).requerimientos@[i as int], cambios, marca));
                    assert(req_valido(nuevo));
                }
                vstd::std_specs::core::index_set(&mut self.requerimientos, i, nuevo);
                proof {
                    assert(forall|k: int|
                        0 <= k < old(self).requerimientos@.len() && k != i
                            ==> old(self).requerimientos@[k].id != id);
                    assert(forall|k: int|
                        0 <= k < self.requerimientos@.len() && k != i
                            ==> self.requerimientos@[k] == old(self).requerimientos@[k]);
                    assert(self.requerimientos@[i as int] == nuevo);
                    assert(forall|k: int|
                        0 <= k < self.requerimientos@.len()
                            ==> #[trigger] self.requerimientos@[k].id == old(self).requerimientos@[k].id && self.requerimientos@[k].ot_id == old(self).requerimientos@[k].ot_id && self.requerimientos@[k].informe_pago_id
                            == old(self).requerimientos@[k].informe_pago_id);
                }
                return Ok(());
            }
            i = i + 1;
        }
        proof {
            assert(self.requerimientos@ =~= old(self).requerimientos@);
        }
        Ok(())
    }

    /// Fija la fecha de recepción del requerimiento dado y estampa la marca
    /// de modificación; el estado no cambia. Siempre tiene éxito.
    pub fn actualizar_fecha_recepcion(&mut self, id: i64, fecha_recepcion: i64) -> (r: Result<
        (),
        String,
    >)
        requires
            old(self).wf(),
            -FECHA_MAX <= fecha_recepcion <= FECHA_MAX,
        ensures
            final(self).wf(),
            r is Ok,
            final(self).requerimientos@.len() == old(self).requerimientos@.len(),
            forall|k: int|
                0 <= k < old(self).requerimientos@.len() ==> final(self).requerimientos@[k] == (
                if old(self).requerimientos@[k].id == id {
                    (Requerimiento {
                        fecha_recepcion: Some(fecha_recepcion),
                        updated_at: old(self).reloj_avanzado(),
                        ..old(self).requerimientos@[k]
                    })
                } else {
                    old(self).requerimientos@[k]
                }),
            *final(self) == (Almacen {
                requerimientos: final(self).requerimientos,
                reloj: old(self).reloj_avanzado(),
                ..*old(self)
            }),
    {
        self.tic();
        let ghost previo = *self;
        let marca = self.reloj;
        let mut i: usize = 0;
        while i < self.requerimientos.len()
            invariant
                old(self).wf(),
                -FECHA_MAX <= fecha_recepcion <= FECHA_MAX,
                *self == (Almacen { requerimientos: self.requerimientos, ..previo }),
                previo == (Almacen { reloj: marca, ..*old(self) }),
                marca == old(self).reloj_avanzado(),
                i <= self.requerimientos@.len(),
                self.requerimientos@.len() == old(self).requerimientos@.len(),
                forall|k: int|
                    0 <= k < i ==> self.requerimientos@[k] == (
                    if old(self).requerimientos@[k].id == id {
                        (Requerimiento {
                            fecha_recepcion: Some(fecha_recepcion),
                            updated_at: marca,
                            ..old(self).requerimientos@[k]
                        })
                    } else {
                        old(self).requerimientos@[k]
                    }),
                forall|k: int|
                    i <= k < self.requerimientos@.len() ==> self.requerimientos@[k] == old(self).requerimientos@[k],
            decreases self.requerimientos@.len() - i,
        {
            if self.requerimientos[i].id == id {
                let viejo = &self.requerimientos[i];
                let nuevo = Requerimiento {
                    id: viejo.id,
                    jardin_codigo: viejo.jardin_codigo.clone(),
                    recinto: clonar_opt_texto(&viejo.recinto),
                    partida_item: viejo.partida_item.clone(),
                    cantidad: viejo.cantidad,
                    precio_unitario: viejo.precio_unitario,
                    precio_total: viejo.precio_total,
                    fecha_inicio: viejo.fecha_inicio,
                    fecha_registro: viejo.fecha_registro,
                    estado: viejo.estado,
                    ot_id: viejo.ot_id,
                    informe_pago_id: viejo.informe_pago_id,
                    fecha_recepcion: Some(fecha_recepcion),
                    plazo_dias: viejo.plazo_dias,
                    plazo_adicional: viejo.plazo_adicional,
                    multa: viejo.multa,
                    descripcion: clonar_opt_texto(&viejo.descripcion),
                    observaciones: clonar_opt_texto(&viejo.observaciones),
                    updated_at: marca,
                };
                vstd::std_specs::core::index_set(&mut self.requerimientos, i, nuevo);
                proof {
                    assert(forall|k: int|
                        0 <= k < old(self).requerimientos@.len() && k != i
                            ==> old(self).requerimientos@[k].id != id);
                }
                return Ok(());
            }
            i = i + 1;
        }
        Ok(())
    }

    /// Borra la fecha de recepción del requerimiento dado y estampa la marca
    /// de modificación; el estado no cambia. Siempre tiene éxito.
    pub fn eliminar_fecha_recepcion(&mut self, id: i64) -> (r: Result<(), String>)
        requires
            old(self).wf(),
        ensures
            final(self).wf(),
            r is Ok,
            final(self).requerimientos@.len() == old(self).requerimientos@.len(),
            forall|k: int|
                0 <= k < old(self).requerimientos@.len() ==> final(self).requerimientos@[k] == (
                if old(self).requerimientos@[k].id == id {
                    (Requerimiento {
                        fecha_recepcion: None,
                        updated_at: old(self).reloj_avanzado(),
                        ..old(self).requerimientos@[k]
                    })
                } else {
                    old(self).requerimientos@[k]
                }),
            *final(self) == (Almacen {
                requerimientos: final(self).requerimientos,
                reloj: old(self).reloj_avanzado(),
                ..*old(self)
            }),
    {
        self.tic();
        let ghost previo = *self;
        let marca = self.reloj;
        let mut i: usize = 0;
        while i < self.requerimientos.len()
            invariant
                old(self).wf(),
                *self == (Almacen { requerimientos: self.requerimientos, ..previo }),
                previo == (Almacen { reloj: marca, ..*old(self) }),
                marca == old(self).reloj_avanzado(),
                i <= self.requerimientos@.len(),
                self.requerimientos@.len() == old(self).requerimientos@.len(),
                forall|k: int|
                    0 <= k < i ==> self.requerimientos@[k] == (
                    if old(self).requerimientos@[k].id == id {
                        (Requerimiento {
                            fecha_recepcion: None,
                            updated_at: marca,
                            ..old(self).requerimientos@[k]
                        })
                    } else {
                        old(self).requerimientos@[k]
                    }),
                forall|k: int|
                    i <= k < self.requerimientos@.len() ==> self.requerimientos@[k] == old(self).requerimientos@[k],
            decreases self.requerimientos@.len() - i,
        {
            if self.requerimientos[i].id == id {
                let viejo = &self.requerimientos[i];
                let nuevo = Requerimiento {
                    id: viejo.id,
                    jardin_codigo: viejo.jardin_codigo.clone(),
                    recinto: clonar_opt_texto(&viejo.recinto),
                    partida_item: viejo.partida_item.clone(),
                    cantidad: viejo.cantidad,
                    precio_unitario: viejo.precio_unitario,
                    precio_total: viejo.precio_total,
                    fecha_inicio: viejo.fecha_inicio,
                    fecha_registro: viejo.fecha_registro,
                    estado: viejo.estado,
                    ot_id: viejo.ot_id,
                    informe_pago_id: viejo.informe_pago_id,
                    fecha_recepcion: None,
                    plazo_dias: viejo.plazo_dias,
                    plazo_adicional: viejo.plazo_adicional,
                    multa: viejo.multa,
                    descripcion: clonar_opt_texto(&viejo.descripcion),
                    observaciones: clonar_opt_texto(&viejo.observaciones),
                    updated_at: marca,
                };
                vstd::std_specs::core::index_set(&mut self.requerimientos, i, nuevo);
                proof {
                    assert(forall|k: int|
                        0 <= k < old(self).requerimientos@.len() && k != i
                            ==> old(self).requerimientos@[k].id != id);
                }
                return Ok(());
            }
            i = i + 1;
        }
        Ok(())
    }

    /// Borra el requerimiento con el identificador dado, cualquiera sea su
    /// estado; los agregados no se tocan. Con un identificador desconocido no
    /// cambia nada. Siempre tiene éxito.
    pub fn delete_requerimiento(&mut self, id: i64) -> (r: Result<(), String>)
        requires
            old(self).wf(),
        ensures
            final(self).wf(),
            r is Ok,
            final(self).requerimientos@ == old(self).requerimientos@.filter(
                |x: Requerimiento| x.id != id,
            ),
            *final(self) == (Almacen {
                requerimientos: final(self).requerimientos,
                ..*old(self)
            }),
    {
        let mut i: usize = 0;
        while i < self.requerimientos.len()
            invariant
                old(self).wf(),
                *self == *old(self),
                i <= self.requerimientos@.len(),
                forall|k: int| 0 <= k < i ==> #[trigger] self.requerimientos@[k].id != id,
            decreases self.requerimientos@.len() - i,
        {
            if self.requerimientos[i].id == id {
                self.requerimientos.remove(i);
                proof {
                    lema_remover_unico(
                        old(self).requerimientos@,
                        i as int,
                        |x: Requerimiento| x.id != id,
                    );
                }
                return Ok(());
            }
            i = i + 1;
        }
        proof {
            crate::secuencias::lema_filtrar_todo(
                old(self).requerimientos@,
                |x: Requerimiento| x.id != id,
            );
        }
        Ok(())
    }
}

} // verus!
