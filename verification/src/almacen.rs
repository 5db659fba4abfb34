//! El almacén en memoria: seis relaciones y el registro singleton de
//! configuración, con las invariantes que el sistema mantiene en cada
//! operación.

use vstd::prelude::*;
use crate::entidades::{
    Jardin, Partida, Recinto, Requerimiento, OrdenTrabajo, InformePago, ConfiguracionContrato,
    Estado, req_valido, PRECIO_MAX,
};

verus! {

/// El almacén de datos operacionales.
pub struct Almacen {
    pub jardines: Vec<Jardin>,
    pub partidas: Vec<Partida>,
    pub recintos: Vec<Recinto>,
    pub requerimientos: Vec<Requerimiento>,
    pub ordenes_trabajo: Vec<OrdenTrabajo>,
    pub informes_pago: Vec<InformePago>,
    pub configuracion: ConfiguracionContrato,
    /// Identificadores por asignar, uno por relación.
    pub sig_jardin: i64,
    pub sig_partida: i64,
    pub sig_recinto: i64,
    pub sig_requerimiento: i64,
    pub sig_orden: i64,
    pub sig_informe: i64,
    /// Reloj lógico: marca de última modificación.
    pub reloj: u64,
}

/// Si algún jardín de la secuencia lleva el código dado.
pub open spec fn existe_jardin(s: Seq<Jardin>, codigo: Seq<char>) -> bool {
    exists|i: int| 0 <= i < s.len() && s[i].codigo@ == codigo
}

/// Si alguna partida de la secuencia lleva el ítem dado.
pub open spec fn existe_partida(s: Seq<Partida>, item: Seq<char>) -> bool {
    exists|i: int| 0 <= i < s.len() && s[i].item@ == item
}

/// Si algún recinto de la secuencia lleva el par jardín y nombre dado.
pub open spec fn existe_recinto(s: Seq<Recinto>, jardin: Seq<char>, nombre: Seq<char>) -> bool {
    exists|i: int| 0 <= i < s.len() && s[i].jardin_codigo@ == jardin && s[i].nombre@ == nombre
}

/// Si alguna orden de trabajo de la secuencia lleva el identificador dado.
pub open spec fn existe_orden(s: Seq<OrdenTrabajo>, id: i64) -> bool {
    exists|i: int| 0 <= i < s.len() && s[i].id == id
}

/// Si algún informe de pago de la secuencia lleva el identificador dado.
pub open spec fn existe_informe(s: Seq<InformePago>, id: i64) -> bool {
    exists|i: int| 0 <= i < s.len() && s[i].id == id
}

/// Si algún requerimiento de la secuencia lleva el identificador dado.
pub open spec fn existe_requerimiento(s: Seq<Requerimiento>, id: i64) -> bool {
    exists|i: int| 0 <= i < s.len() && s[i].id == id
}

impl Almacen {
    /// Buena formación del almacén: identificadores únicos y bajo el contador
    /// de su relación, códigos de negocio únicos dentro de su relación,
    /// requerimientos válidos y vínculos que apuntan a agregados existentes.
    pub open spec fn wf(self) -> bool {
        &&& 1 <= self.sig_jardin
        &&& 1 <= self.sig_partida
        &&& 1 <= self.sig_recinto
        &&& 1 <= self.sig_requerimiento
        &&& 1 <= self.sig_orden
        &&& 1 <= self.sig_informe
        &&& forall|i: int|
            0 <= i < self.jardines@.len() ==> 1 <= #[trigger] self.jardines@[i].id
                < self.sig_jardin
        &&& forall|i: int, j: int|
            0 <= i < j < self.jardines@.len() ==> self.jardines@[i].id != self.jardines@[j].id
                && self.jardines@[i].codigo@ != self.jardines@[j].codigo@
        &&& forall|i: int|
            0 <= i < self.partidas@.len() ==> 1 <= #[trigger] self.partidas@[i].id
                < self.sig_partida
        &&& forall|i: int, j: int|
            0 <= i < j < self.partidas@.len() ==> self.partidas@[i].id != self.partidas@[j].id
                && self.partidas@[i].item@ != self.partidas@[j].item@
        &&& forall|i: int|
            0 <= i < self.recintos@.len() ==> 1 <= #[trigger] self.recintos@[i].id
                < self.sig_recinto
        &&& forall|i: int, j: int|
            0 <= i < j < self.recintos@.len() ==> self.recintos@[i].id != self.recintos@[j].id && !(
            self.recintos@[i].jardin_codigo@ == self.recintos@[j].jardin_codigo@
                && self.recintos@[i].nombre@ == self.recintos@[j].nombre@)
        &&& forall|i: int|
            0 <= i < self.ordenes_trabajo@.len() ==> 1 <= #[trigger] self.ordenes_trabajo@[i].id
                < self.sig_orden
        &&& forall|i: int, j: int|
            0 <= i < j < self.ordenes_trabajo@.len() ==> self.ordenes_trabajo@[i].id
                != self.ordenes_trabajo@[j].id && self.ordenes_trabajo@[i].codigo@
                != self.ordenes_trabajo@[j].codigo@
        &&& forall|i: int|
            0 <= i < self.informes_pago@.len() ==> 1 <= #[trigger] self.informes_pago@[i].id
                < self.sig_informe
        &&& forall|i: int, j: int|
            0 <= i < j < self.informes_pago@.len() ==> self.informes_pago@[i].id
                != self.informes_pago@[j].id && self.informes_pago@[i].codigo@
                != self.informes_pago@[j].codigo@
        &&& forall|i: int|
            0 <= i < self.requerimientos@.len() ==> 1 <= #[trigger] self.requerimientos@[i].id
                < self.sig_requerimiento
        &&& forall|i: int, j: int|
            0 <= i < j < self.requerimientos@.len() ==> self.requerimientos@[i].id
                != self.requerimientos@[j].id
        &&& forall|i: int|
            0 <= i < self.requerimientos@.len() ==> req_valido(#[trigger] self.requerimientos@[i])
        &&& forall|i: int|
            0 <= i < self.requerimientos@.len() ==> (match #[trigger] self.requerimientos@[i].ot_id {
                Some(o) => existe_orden(self.ordenes_trabajo@, o),
                None => true,
            })
        &&& forall|i: int|
            0 <= i < self.requerimientos@.len() ==> (match #[trigger] self.requerimientos@[i].informe_pago_id {
                Some(o) => existe_informe(self.informes_pago@, o),
                None => true,
            })
    }

    /// Ley de coherencia del estado: en un almacén bien formado, el estado de
    /// cada requerimiento coincide con exactamente uno de sus vínculos (sin
    /// vínculo es pendiente, con orden está en orden, con informe está en
    /// informe) y ninguno lleva ambos vínculos a la vez.
    pub proof fn lema_estado_coherente(self)
        requires
            self.wf(),
        ensures
            forall|i: int|
                0 <= i < self.requerimientos@.len() ==> {
                    let r = #[trigger] self.requerimientos@[i];
                    &&& (r.estado == Estado::Pendiente <==> r.ot_id is None
                        && r.informe_pago_id is None)
                    &&& (r.estado == Estado::EnOt <==> r.ot_id is Some)
                    &&& (r.estado == Estado::EnInforme <==> r.informe_pago_id is Some)
                    &&& !(r.ot_id is Some && r.informe_pago_id is Some)
                },
    {
        assert forall|i: int| 0 <= i < self.requerimientos@.len() implies {
            let r = #[trigger] self.requerimientos@[i];
            &&& (r.estado == Estado::Pendiente <==> r.ot_id is None && r.informe_pago_id is None)
            &&& (r.estado == Estado::EnOt <==> r.ot_id is Some)
            &&& (r.estado == Estado::EnInforme <==> r.informe_pago_id is Some)
            &&& !(r.ot_id is Some && r.informe_pago_id is Some)
        } by {
            assert(req_valido(self.requerimientos@[i]));
        }
    }

    /// Avance del reloj lógico, saturado en su tope.
    pub open spec fn reloj_avanzado(self) -> u64 {
        if self.reloj == u64::MAX {
            u64::MAX
        } else {
            (self.reloj + 1) as u64
        }
    }

    /// Un almacén vacío con la configuración por defecto.
    pub fn nuevo() -> (r: Almacen)
        ensures
            r.wf(),
            r.jardines@.len() == 0,
            r.partidas@.len() == 0,
            r.recintos@.len() == 0,
            r.requerimientos@.len() == 0,
            r.ordenes_trabajo@.len() == 0,
            r.informes_pago@.len() == 0,
            r.configuracion.titulo@ == Seq::<char>::empty(),
            r.configuracion.contratista@ == Seq::<char>::empty(),
            r.configuracion.prefijo_correlativo@ == Seq::<char>::empty(),
            r.configuracion.ito_nombre is None,
            r.configuracion.firma_png is None,
            r.sig_jardin == 1 && r.sig_partida == 1 && r.sig_recinto == 1 && r.sig_requerimiento
                == 1 && r.sig_orden == 1 && r.sig_informe == 1,
            r.reloj == 0,
    {
        Almacen {
            jardines: Vec::new(),
            partidas: Vec::new(),
            recintos: Vec::new(),
            requerimientos: Vec::new(),
            ordenes_trabajo: Vec::new(),
            informes_pago: Vec::new(),
            configuracion: ConfiguracionContrato {
                titulo: String::new(),
                contratista: String::new(),
                prefijo_correlativo: String::new(),
                ito_nombre: None,
                firma_png: None,
            },
            sig_jardin: 1,
            sig_partida: 1,
            sig_recinto: 1,
            sig_requerimiento: 1,
            sig_orden: 1,
            sig_informe: 1,
            reloj: 0,
        }
    }

    /// Avanza el reloj lógico.
    pub(crate) fn tic(&mut self)
        ensures
            *final(self) == (Almacen { reloj: old(self).reloj_avanzado(), ..*old(self) }),
    {
        if self.reloj < u64::MAX {
            self.reloj = self.reloj + 1;
        }
    }

    /// Los jardines almacenados, en el orden de inserción; el orden de
    /// presentación queda a cargo del llamador.
    pub fn get_jardines(&self) -> (r: &Vec<Jardin>)
        ensures
            r == &self.jardines,
    {
        &self.jardines
    }

    /// El jardín con el código dado, si existe.
    pub fn get_jardin_by_codigo(&self, codigo: &String) -> (r: Option<&Jardin>)
        ensures
            match r {
                Some(j) => existe_jardin(self.jardines@, codigo@) && j.codigo@ == codigo@ && (
                exists|i: int| 0 <= i < self.jardines@.len() && self.jardines@[i] == *j),
                None => !existe_jardin(self.jardines@, codigo@),
            },
    {
        let mut i: usize = 0;
        while i < self.jardines.len()
            invariant
                i <= self.jardines@.len(),
                forall|k: int| 0 <= k < i ==> #[trigger] self.jardines@[k].codigo@ != codigo@,
            decreases self.jardines@.len() - i,
        {
            if self.jardines[i].codigo == *codigo {
                return Some(&self.jardines[i]);
            }
            i = i + 1;
        }
        None
    }

    /// Agrega un jardín con un identificador nuevo y devuelve ese
    /// identificador. Falla exactamente cuando el código ya está en uso,
    /// sin cambiar nada.
    pub fn add_jardin(&mut self, codigo: String, nombre: String) -> (r: Result<i64, String>)
        requires
            old(self).wf(),
            old(self).sig_jardin < i64::MAX,
        ensures
            final(self).wf(),
            match r {
                Ok(id) => {
                    &&& !existe_jardin(old(self).jardines@, codigo@)
                    &&& id == old(self).sig_jardin
                    &&& final(self).jardines@ == old(self).jardines@.push(
                        (Jardin { id: old(self).sig_jardin, codigo: codigo, nombre: nombre }),
                    )
                    &&& *final(self) == (Almacen {
                        jardines: final(self).jardines,
                        sig_jardin: (old(self).sig_jardin + 1) as i64,
                        ..*old(self)
                    })
                },
                Err(_) => existe_jardin(old(self).jardines@, codigo@) && *final(self) == *old(self),
            },
    {
        let mut i: usize = 0;
        while i < self.jardines.len()
            invariant
                old(self).wf(),
                *self == *old(self),
                i <= self.jardines@.len(),
                forall|k: int| 0 <= k < i ==> #[trigger] self.jardines@[k].codigo@ != codigo@,
            decreases self.jardines@.len() - i,
        {
            if self.jardines[i].codigo == codigo {
                return Err(String::from_str("ya existe un jardin con ese codigo"));
            }
            i = i + 1;
        }
        let id = self.sig_jardin;
        self.jardines.push(Jardin { id, codigo, nombre });
        self.sig_jardin = id + 1;
        Ok(id)
    }

    /// Las partidas del catálogo.
    pub fn get_partidas(&self) -> (r: &Vec<Partida>)
        ensures
            r == &self.partidas,
    {
        &self.partidas
    }

    /// Agrega una partida de catálogo con un identificador nuevo y devuelve
    /// ese identificador. Falla exactamente cuando el ítem ya está en uso,
    /// sin cambiar nada.
    pub fn add_partida(
        &mut self,
        item: String,
        partida: String,
        unidad: Option<String>,
        precio_unitario: i64,
    ) -> (r: Result<i64, String>)
        requires
            old(self).wf(),
            old(self).sig_partida < i64::MAX,
            -PRECIO_MAX <= precio_unitario <= PRECIO_MAX,
        ensures
            final(self).wf(),
            match r {
                Ok(id) => {
                    &&& !existe_partida(old(self).partidas@, item@)
                    &&& id == old(self).sig_partida
                    &&& final(self).partidas@ == old(self).partidas@.push(
                        (Partida {
                            id: old(self).sig_partida,
                            item: item,
                            partida: partida,
                            unidad: unidad,
                            precio_unitario: precio_unitario,
                        }),
                    )
                    &&& *final(self) == (Almacen {
                        partidas: final(self).partidas,
                        sig_partida: (old(self).sig_partida + 1) as i64,
                        ..*old(self)
                    })
                },
                Err(_) => existe_partida(old(self).partidas@, item@) && *final(self) == *old(self),
            },
    {
        let mut i: usize = 0;
        while i < self.partidas.len()
            invariant
                old(self).wf(),
                *self == *old(self),
                i <= self.partidas@.len(),
                forall|k: int| 0 <= k < i ==> #[trigger] self.partidas@[k].item@ != item@,
            decreases self.partidas@.len() - i,
        {
            if self.partidas[i].item == item {
                return Err(String::from_str("ya existe una partida con ese item"));
            }
            i = i + 1;
        }
        let id = self.sig_partida;
        self.partidas.push(Partida { id, item, partida, unidad, precio_unitario });
        self.sig_partida = id + 1;
        Ok(id)
    }

    /// Los recintos almacenados.
    pub fn get_recintos(&self) -> (r: &Vec<Recinto>)
        ensures
            r == &self.recintos,
    {
        &self.recintos
    }

    /// Los recintos del jardín dado, en el orden de inserción; el orden de
    /// presentación queda a cargo del llamador.
    pub fn get_recintos_by_jardin(&self, jardin_codigo: &String) -> (r: Vec<Recinto>)
        ensures
            r@ == self.recintos@.filter(|x: Recinto| x.jardin_codigo@ == jardin_codigo@),
    {
        let mut r: Vec<Recinto> = Vec::new();
        let mut i: usize = 0;
        proof {
            reveal(Seq::filter);
            assert(self.recintos@.take(0int).filter(|x: Recinto| x.jardin_codigo@ == jardin_codigo@)
                =~= Seq::<Recinto>::empty());
        }
        while i < self.recintos.len()
            invariant
                i <= self.recintos@.len(),
                r@ == self.recintos@.take(i as int).filter(
                    |x: Recinto| x.jardin_codigo@ == jardin_codigo@,
                ),
            decreases self.recintos@.len() - i,
        {
            proof {
                reveal(Seq::filter);
                assert(self.recintos@.take(i as int + 1).drop_last() =~= self.recintos@.take(
                    i as int,
                ));
                assert(self.recintos@.take(i as int + 1).last() == self.recintos@[i as int]);
            }
            let rec = &self.recintos[i];
            if rec.jardin_codigo == *jardin_codigo {
                r.push(
                    Recinto {
                        id: rec.id,
                        jardin_codigo: rec.jardin_codigo.clone(),
                        nombre: rec.nombre.clone(),
                    },
                );
                proof {
                    reveal(Seq::filter);
                    assert(r@.last() == self.recintos@[i as int]);
                    assert(r@ =~= self.recintos@.take(i as int + 1).filter(
                        |x: Recinto| x.jardin_codigo@ == jardin_codigo@,
                    ));
                }
            } else {
                proof {
                    reveal(Seq::filter);
                    assert(r@ =~= self.recintos@.take(i as int + 1).filter(
                        |x: Recinto| x.jardin_codigo@ == jardin_codigo@,
                    ));
                }
            }
            i = i + 1;
        }
        proof {
            assert(self.recintos@.take(self.recintos@.len() as int) =~= self.recintos@);
        }
        r
    }

    /// Agrega un recinto con un identificador nuevo y devuelve ese
    /// identificador. Falla exactamente cuando el par jardín y nombre ya
    /// está en uso, sin cambiar nada.
    pub fn add_recinto(&mut self, jardin_codigo: String, nombre: String) -> (r: Result<i64, String>)
        requires
            old(self).wf(),
            old(self).sig_recinto < i64::MAX,
        ensures
            final(self).wf(),
            match r {
                Ok(id) => {
                    &&& !existe_recinto(old(self).recintos@, jardin_codigo@, nombre@)
                    &&& id == old(self).sig_recinto
                    &&& final(self).recintos@ == old(self).recintos@.push(
                        (Recinto {
                            id: old(self).sig_recinto,
                            jardin_codigo: jardin_codigo,
                            nombre: nombre,
                        }),
                    )
                    &&& *final(self) == (Almacen {
                        recintos: final(self).recintos,
                        sig_recinto: (old(self).sig_recinto + 1) as i64,
                        ..*old(self)
                    })
                },
                Err(_) => existe_recinto(old(self).recintos@, jardin_codigo@, nombre@)
                    && *final(self) == *old(self),
            },
    {
        let mut i: usize = 0;
        while i < self.recintos.len()
            invariant
                old(self).wf(),
                *self == *old(self),
                i <= self.recintos@.len(),
                forall|k: int|
                    0 <= k < i ==> !(#[trigger] self.recintos@[k].jardin_codigo@ == jardin_codigo@
                        && self.recintos@[k].nombre@ == nombre@),
            decreases self.recintos@.len() - i,
        {
            if self.recintos[i].jardin_codigo == jardin_codigo && self.recintos[i].nombre == nombre {
                return Err(String::from_str("ya existe un recinto con ese nombre en ese jardin"));
            }
            i = i + 1;
        }
        let id = self.sig_recinto;
        self.recintos.push(Recinto { id, jardin_codigo, nombre });
        self.sig_recinto = id + 1;
        Ok(id)
    }

    /// Borra todos los datos operacionales; la configuración se conserva.
    pub fn clear_all(&mut self)
        requires
            old(self).wf(),
        ensures
            final(self).wf(),
            final(self).jardines@.len() == 0,
            final(self).partidas@.len() == 0,
            final(self).recintos@.len() == 0,
            final(self).requerimientos@.len() == 0,
            final(self).ordenes_trabajo@.len() == 0,
            final(self).informes_pago@.len() == 0,
            final(self).sig_jardin == 1 && final(self).sig_partida == 1 && final(self).sig_recinto
                == 1 && final(self).sig_requerimiento == 1 && final(self).sig_orden == 1 && final(self).sig_informe == 1,
            final(self).configuracion == old(self).configuracion,
            final(self).reloj == old(self).reloj,
    {
        self.informes_pago = Vec::new();
        self.requerimientos = Vec::new();
        self.ordenes_trabajo = Vec::new();
        self.recintos = Vec::new();
        self.partidas = Vec::new();
        self.jardines = Vec::new();
        self.sig_jardin = 1;
        self.sig_partida = 1;
        self.sig_recinto = 1;
        self.sig_requerimiento = 1;
        self.sig_orden = 1;
        self.sig_informe = 1;
    }
}

} // verus!
