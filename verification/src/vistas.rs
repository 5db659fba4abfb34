//! Vistas enriquecidas: requerimientos con los campos derivados calculados al
//! leer (plazo total, fecha límite, días de atraso, monto a pago) y los
//! nombres y códigos de las entidades referidas; informes con nombre de
//! jardín y cuenta de miembros.

use vstd::prelude::*;
use crate::entidades::{
    Requerimiento, RequerimientoEnriquecido, Partida, OrdenTrabajo, InformePago,
    InformePagoEnriquecido, Jardin, req_valido, fecha_limite_de, a_pago_de,
};
use crate::almacen::Almacen;
use crate::requerimientos::clonar_opt_texto;

verus! {

/// La primera partida con el ítem dado.
pub open spec fn busca_partida(s: Seq<Partida>, item: Seq<char>) -> Option<Partida>
    decreases s.len(),
{
    if s.len() == 0 {
        None
    } else if s[0].item@ == item {
        Some(s[0])
    } else {
        busca_partida(s.skip(1), item)
    }
}

/// La primera orden de trabajo con el identificador dado.
pub open spec fn busca_orden(s: Seq<OrdenTrabajo>, id: i64) -> Option<OrdenTrabajo>
    decreases s.len(),
{
    if s.len() == 0 {
        None
    } else if s[0].id == id {
        Some(s[0])
    } else {
        busca_orden(s.skip(1), id)
    }
}

/// El primer informe de pago con el identificador dado.
pub open spec fn busca_informe(s: Seq<InformePago>, id: i64) -> Option<InformePago>
    decreases s.len(),
{
    if s.len() == 0 {
        None
    } else if s[0].id == id {
        Some(s[0])
    } else {
        busca_informe(s.skip(1), id)
    }
}

/// El primer jardín con el código dado.
pub open spec fn busca_jardin(s: Seq<Jardin>, codigo: Seq<char>) -> Option<Jardin>
    decreases s.len(),
{
    if s.len() == 0 {
        None
    } else if s[0].codigo@ == codigo {
        Some(s[0])
    } else {
        busca_jardin(s.skip(1), codigo)
    }
}

/// La vista enriquecida de un requerimiento: los campos almacenados, los
/// derivados calculados al leer, y lo que traen las entidades referidas. Con
/// `precio_catalogo`, el precio unitario mostrado es el de la partida del
/// catálogo; si no, el del requerimiento.
pub open spec fn enriquecido_de(
    r: Requerimiento,
    partidas: Seq<Partida>,
    ordenes: Seq<OrdenTrabajo>,
    informes: Seq<InformePago>,
    precio_catalogo: bool,
) -> RequerimientoEnriquecido {
    let p = busca_partida(partidas, r.partida_item@);
    RequerimientoEnriquecido {
        id: r.id,
        jardin_codigo: r.jardin_codigo,
        recinto: r.recinto,
        partida_item: r.partida_item,
        partida_nombre: match p {
            Some(x) => Some(x.partida),
            None => None,
        },
        partida_unidad: match p {
            Some(x) => x.unidad,
            None => None,
        },
        precio_unitario: if precio_catalogo {
            match p {
                Some(x) => Some(x.precio_unitario),
                None => None,
            }
        } else {
            Some(r.precio_unitario)
        },
        cantidad: r.cantidad,
        precio_total: r.precio_total,
        fecha_inicio: r.fecha_inicio,
        plazo_dias: r.plazo_dias,
        plazo_adicional: r.plazo_adicional,
        plazo_total: (r.plazo_dias + r.plazo_adicional) as i64,
        fecha_limite: match fecha_limite_de(
            r.fecha_inicio as int,
            r.plazo_dias as int,
            r.plazo_adicional as int,
        ) {
            Some(f) => Some(f as i64),
            None => None,
        },
        fecha_registro: r.fecha_registro,
        fecha_recepcion: r.fecha_recepcion,
        dias_atraso: r.dias_atraso() as i64,
        multa: r.multa,
        a_pago: a_pago_de(r.precio_total as int, r.multa as int) as i64,
        descripcion: r.descripcion,
        observaciones: r.observaciones,
        estado: r.estado,
        ot_id: r.ot_id,
        ot_codigo: match r.ot_id {
            Some(o) => match busca_orden(ordenes, o) {
                Some(x) => Some(x.codigo),
                None => None,
            },
            None => None,
        },
        informe_pago_id: r.informe_pago_id,
        informe_pago_codigo: match r.informe_pago_id {
            Some(o) => match busca_informe(informes, o) {
                Some(x) => Some(x.codigo),
                None => None,
            },
            None => None,
        },
        updated_at: r.updated_at,
    }
}

/// El número de requerimientos vinculados al informe dado.
pub open spec fn cuenta_miembros(s: Seq<Requerimiento>, informe_id: i64) -> int {
    s.filter(|r: Requerimiento| r.informe_pago_id == Some(informe_id)).len() as int
}

/// La vista enriquecida de un informe de pago: sus campos, el nombre de su
/// jardín y la cuenta de sus miembros.
pub open spec fn informe_enriquecido_de(
    inf: InformePago,
    jardines: Seq<Jardin>,
    requerimientos: Seq<Requerimiento>,
) -> InformePagoEnriquecido {
    InformePagoEnriquecido {
        id: inf.id,
        codigo: inf.codigo,
        jardin_codigo: inf.jardin_codigo,
        jardin_nombre: match busca_jardin(jardines, inf.jardin_codigo@) {
            Some(j) => Some(j.nombre),
            None => None,
        },
        fecha_creacion: inf.fecha_creacion,
        neto: inf.neto,
        utilidades: inf.utilidades,
        iva: inf.iva,
        total_final: inf.total_final,
        cantidad_requerimientos: cuenta_miembros(requerimientos, inf.id) as i64,
        observaciones: inf.observaciones,
        updated_at: inf.updated_at,
    }
}

impl Almacen {
    /// La primera partida con el ítem dado.
    fn buscar_partida(&self, item: &String) -> (r: Option<&Partida>)
        ensures
            match r {
                Some(p) => busca_partida(self.partidas@, item@) == Some(*p),
                None => busca_partida(self.partidas@, item@) is None,
            },
    {
        let mut i: usize = 0;
        proof {
            assert(self.partidas@.skip(0int) =~= self.partidas@);
        }
        while i < self.partidas.len()
            invariant
                i <= self.partidas@.len(),
                busca_partida(self.partidas@, item@) == busca_partida(
                    self.partidas@.skip(i as int),
                    item@,
                ),
            decreases self.partidas@.len() - i,
        {
            proof {
                assert(self.partidas@.skip(i as int)[0] == self.partidas@[i as int]);
                assert(self.partidas@.skip(i as int).skip(1) =~= self.partidas@.skip(i as int + 1));
            }
            if self.partidas[i].item == *item {
                return Some(&self.partidas[i]);
            }
            i = i + 1;
        }
        None
    }

    /// La primera orden de trabajo con el identificador dado.
    fn buscar_orden(&self, id: i64) -> (r: Option<&OrdenTrabajo>)
        ensures
            match r {
                Some(o) => busca_orden(self.ordenes_trabajo@, id) == Some(*o),
                None => busca_orden(self.ordenes_trabajo@, id) is None,
            },
    {
        let mut i: usize = 0;
        proof {
            assert(self.ordenes_trabajo@.skip(0int) =~= self.ordenes_trabajo@);
        }
        while i < self.ordenes_trabajo.len()
            invariant
                i <= self.ordenes_trabajo@.len(),
                busca_orden(self.ordenes_trabajo@, id) == busca_orden(
                    self.ordenes_trabajo@.skip(i as int),
                    id,
                ),
            decreases self.ordenes_trabajo@.len() - i,
        {
            proof {
                assert(self.ordenes_trabajo@.skip(i as int)[0] == self.ordenes_trabajo@[i as int]);
                assert(self.ordenes_trabajo@.skip(i as int).skip(1) =~= self.ordenes_trabajo@.skip(
                    i as int + 1,
                ));
            }
            if self.ordenes_trabajo[i].id == id {
                return Some(&self.ordenes_trabajo[i]);
            }
            i = i + 1;
        }
        None
    }

    /// El primer informe de pago con el identificador dado.
    fn buscar_informe(&self, id: i64) -> (r: Option<&InformePago>)
        ensures
            match r {
                Some(o) => busca_informe(self.informes_pago@, id) == Some(*o),
                None => busca_informe(self.informes_pago@, id) is None,
            },
    {
        let mut i: usize = 0;
        proof {
            assert(self.informes_pago@.skip(0int) =~= self.informes_pago@);
        }
        while i < self.informes_pago.len()
            invariant
                i <= self.informes_pago@.len(),
                busca_informe(self.informes_pago@, id) == busca_informe(
                    self.informes_pago@.skip(i as int),
                    id,
                ),
            decreases self.informes_pago@.len() - i,
        {
            proof {
                assert(self.informes_pago@.skip(i as int)[0] == self.informes_pago@[i as int]);
                assert(self.informes_pago@.skip(i as int).skip(1) =~= self.informes_pago@.skip(
                    i as int + 1,
                ));
            }
            if self.informes_pago[i].id == id {
                return Some(&self.informes_pago[i]);
            }
            i = i + 1;
        }
        None
    }

    /// El primer jardín con el código dado.
    fn buscar_jardin(&self, codigo: &String) -> (r: Option<&Jardin>)
        ensures
            match r {
                Some(j) => busca_jardin(self.jardines@, codigo@) == Some(*j),
                None => busca_jardin(self.jardines@, codigo@) is None,
            },
    {
        let mut i: usize = 0;
        proof {
            assert(self.jardines@.skip(0int) =~= self.jardines@);
        }
        while i < self.jardines.len()
            invariant
                i <= self.jardines@.len(),
                busca_jardin(self.jardines@, codigo@) == busca_jardin(
                    self.jardines@.skip(i as int),
                    codigo@,
                ),
            decreases self.jardines@.len() - i,
        {
            proof {
                assert(self.jardines@.skip(i as int)[0] == self.jardines@[i as int]);
                assert(self.jardines@.skip(i as int).skip(1) =~= self.jardines@.skip(i as int + 1));
            }
            if self.jardines[i].codigo == *codigo {
                return Some(&self.jardines[i]);
            }
            i = i + 1;
        }
        None
    }

    /// La vista enriquecida de un requerimiento.
    fn enriquecer(&self, r: &Requerimiento, precio_catalogo: bool) -> (e: RequerimientoEnriquecido)
        requires
            req_valido(*r),
        ensures
            e == enriquecido_de(
                *r,
                self.partidas@,
                self.ordenes_trabajo@,
                self.informes_pago@,
                precio_catalogo,
            ),
    {
        let partida = self.buscar_partida(&r.partida_item);
        let plazo_total = r.plazo_dias + r.plazo_adicional;
        let fecha_limite = if plazo_total > 0 {
            Some(r.fecha_inicio + plazo_total)
        } else {
            None
        };
        let dias_atraso = match (r.fecha_recepcion, fecha_limite) {
            (Some(recepcion), Some(limite)) => if limite < recepcion {
                recepcion - limite
            } else {
                0
            },
            _ => 0,
        };
        let a_pago = r.precio_total - r.multa;
        let ot_codigo = match r.ot_id {
            Some(o) => match self.buscar_orden(o) {
                Some(x) => Some(x.codigo.clone()),
                None => None,
            },
            None => None,
        };
        let informe_pago_codigo = match r.informe_pago_id {
            Some(o) => match self.buscar_informe(o) {
                Some(x) => Some(x.codigo.clone()),
                None => None,
            },
            None => None,
        };
        RequerimientoEnriquecido {
            id: r.id,
            jardin_codigo: r.jardin_codigo.clone(),
            recinto: clonar_opt_texto(&r.recinto),
            partida_item: r.partida_item.clone(),
            partida_nombre: match partida {
                Some(p) => Some(p.partida.clone()),
                None => None,
            },
            partida_unidad: match partida {
                Some(p) => clonar_opt_texto(&p.unidad),
                None => None,
            },
            precio_unitario: if precio_catalogo {
                match partida {
                    Some(p) => Some(p.precio_unitario),
                    None => None,
                }
            } else {
                Some(r.precio_unitario)
            },
            cantidad: r.cantidad,
            precio_total: r.precio_total,
            fecha_inicio: r.fecha_inicio,
            plazo_dias: r.plazo_dias,
            plazo_adicional: r.plazo_adicional,
            plazo_total,
            fecha_limite,
            fecha_registro: r.fecha_registro,
            fecha_recepcion: r.fecha_recepcion,
            dias_atraso,
            multa: r.multa,
            a_pago,
            descripcion: clonar_opt_texto(&r.descripcion),
            observaciones: clonar_opt_texto(&r.observaciones),
            estado: r.estado,
            ot_id: r.ot_id,
            ot_codigo,
            informe_pago_id: r.informe_pago_id,
            informe_pago_codigo,
            updated_at: r.updated_at,
        }
    }

    /// Todos los requerimientos, enriquecidos, en el orden almacenado; el
    /// orden de presentación queda a cargo del llamador.
    pub fn get_requerimientos(&self) -> (r: Vec<RequerimientoEnriquecido>)
        requires
            self.wf(),
        ensures
            r@.len() == self.requerimientos@.len(),
            forall|i: int|
                0 <= i < r@.len() ==> r@[i] == enriquecido_de(
                    self.requerimientos@[i],
                    self.partidas@,
                    self.ordenes_trabajo@,
                    self.informes_pago@,
                    false,
                ),
    {
        let mut r: Vec<RequerimientoEnriquecido> = Vec::new();
        let mut i: usize = 0;
        while i < self.requerimientos.len()
            invariant
                self.wf(),
                i <= self.requerimientos@.len(),
                r@.len() == i,
                forall|k: int|
                    0 <= k < i ==> r@[k] == enriquecido_de(
                        self.requerimientos@[k],
                        self.partidas@,
                        self.ordenes_trabajo@,
                        self.informes_pago@,
                        false,
                    ),
            decreases self.requerimientos@.len() - i,
        {
            let e = self.enriquecer(&self.requerimientos[i], false);
            r.push(e);
            i = i + 1;
        }
        r
    }

    /// Los requerimientos que cumplen un criterio, enriquecidos. El criterio
    /// se elige por bandera: miembros de una orden, miembros de un informe, o
    /// candidatos a informe de un jardín.
    fn enriquecer_filtrados(
        &self,
        pred: Ghost<spec_fn(Requerimiento) -> bool>,
        modo_orden: Option<i64>,
        modo_informe: Option<i64>,
        modo_jardin: Option<&String>,
        precio_catalogo: bool,
    ) -> (r: Vec<RequerimientoEnriquecido>)
        requires
            self.wf(),
            forall|x: Requerimiento| #[trigger] pred@(x) == cumple_criterio(
                x,
                modo_orden,
                modo_informe,
                match modo_jardin {
                    Some(j) => Some(j@),
                    None => None,
                },
            ),
        ensures
            r@ == self.requerimientos@.filter(pred@).map_values(
                |x: Requerimiento| enriquecido_de(
                    x,
                    self.partidas@,
                    self.ordenes_trabajo@,
                    self.informes_pago@,
                    precio_catalogo,
                ),
            ),
    {
        let enriquecer_spec = Ghost(
            |x: Requerimiento| enriquecido_de(
                x,
                self.partidas@,
                self.ordenes_trabajo@,
                self.informes_pago@,
                precio_catalogo,
            ),
        );
        let mut r: Vec<RequerimientoEnriquecido> = Vec::new();
        let mut i: usize = 0;
        proof {
            reveal(Seq::filter);
            assert(self.requerimientos@.take(0int).filter(pred@).map_values(enriquecer_spec@)
                =~= Seq::<RequerimientoEnriquecido>::empty());
        }
        while i < self.requerimientos.len()
            invariant
                self.wf(),
                i <= self.requerimientos@.len(),
                forall|x: Requerimiento| #[trigger] pred@(x) == cumple_criterio(
                    x,
                    modo_orden,
                    modo_informe,
                    match modo_jardin {
                        Some(j) => Some(j@),
                        None => None,
                    },
                ),
                enriquecer_spec@ == (|x: Requerimiento| enriquecido_de(
                    x,
                    self.partidas@,
                    self.ordenes_trabajo@,
                    self.informes_pago@,
                    precio_catalogo,
                )),
                r@ == self.requerimientos@.take(i as int).filter(pred@).map_values(
                    enriquecer_spec@,
                ),
            decreases self.requerimientos@.len() - i,
        {
            proof {
                reveal(Seq::filter);
                assert(self.requerimientos@.take(i as int + 1).drop_last() =~= self.requerimientos@.take(i as int));
                assert(self.requerimientos@.take(i as int + 1).last() == self.requerimientos@[i as int]);
            }
            let fila = &self.requerimientos[i];
            let cumple = match modo_orden {
                Some(o) => match fila.ot_id {
                    Some(x) => x == o,
                    None => false,
                },
                None => true,
            } && match modo_informe {
                Some(o) => match fila.informe_pago_id {
                    Some(x) => x == o,
                    None => false,
                },
                None => true,
            } && match modo_jardin {
                Some(j) => fila.jardin_codigo == *j && fila.fecha_recepcion.is_some()
                    && fila.informe_pago_id.is_none(),
                None => true,
            };
            if cumple {
                let e = self.enriquecer(fila, precio_catalogo);
                r.push(e);
                proof {
                    assert(self.requerimientos@.take(i as int + 1).filter(pred@)
                        =~= self.requerimientos@.take(i as int).filter(pred@).push(
                        self.requerimientos@[i as int],
                    ));
                    assert(r@ =~= self.requerimientos@.take(i as int + 1).filter(pred@).map_values(
                        enriquecer_spec@,
                    ));
                }
            } else {
                proof {
                    assert(r@ =~= self.requerimientos@.take(i as int + 1).filter(pred@).map_values(
                        enriquecer_spec@,
                    ));
                }
            }
            i = i + 1;
        }
        proof {
            assert(self.requerimientos@.take(self.requerimientos@.len() as int)
                =~= self.requerimientos@);
        }
        r
    }

    /// Los requerimientos miembros de la orden de trabajo dada, enriquecidos,
    /// en el orden almacenado.
    pub fn get_orden_trabajo_detalle(&self, ot_id: i64) -> (r: Vec<RequerimientoEnriquecido>)
        requires
            self.wf(),
        ensures
            r@ == self.requerimientos@.filter(|x: Requerimiento| x.ot_id == Some(ot_id)).map_values(
                |x: Requerimiento| enriquecido_de(
                    x,
                    self.partidas@,
                    self.ordenes_trabajo@,
                    self.informes_pago@,
                    false,
                ),
            ),
    {
        let r = self.enriquecer_filtrados(
            Ghost(|x: Requerimiento| cumple_criterio(x, Some(ot_id), None, None)),
            Some(ot_id),
            None,
            None,
            false,
        );
        proof {
            assert(self.requerimientos@.filter(
                |x: Requerimiento| cumple_criterio(x, Some(ot_id), None, None),
            ) =~= self.requerimientos@.filter(|x: Requerimiento| x.ot_id == Some(ot_id))) by {
                lema_filtro_equivalente(
                    self.requerimientos@,
                    |x: Requerimiento| cumple_criterio(x, Some(ot_id), None, None),
                    |x: Requerimiento| x.ot_id == Some(ot_id),
                );
            }
        }
        r
    }

    /// Los requerimientos miembros del informe de pago dado, enriquecidos, en
    /// el orden almacenado.
    pub fn get_informe_pago_detalle(&self, informe_id: i64) -> (r: Vec<RequerimientoEnriquecido>)
        requires
            self.wf(),
        ensures
            r@ == self.requerimientos@.filter(
                |x: Requerimiento| x.informe_pago_id == Some(informe_id),
            ).map_values(
                |x: Requerimiento| enriquecido_de(
                    x,
                    self.partidas@,
                    self.ordenes_trabajo@,
                    self.informes_pago@,
                    false,
                ),
            ),
    {
        let r = self.enriquecer_filtrados(
            Ghost(|x: Requerimiento| cumple_criterio(x, None, Some(informe_id), None)),
            None,
            Some(informe_id),
            None,
            false,
        );
        proof {
            lema_filtro_equivalente(
                self.requerimientos@,
                |x: Requerimiento| cumple_criterio(x, None, Some(informe_id), None),
                |x: Requerimiento| x.informe_pago_id == Some(informe_id),
            );
        }
        r
    }

    /// Los requerimientos del jardín dado elegibles para un informe nuevo:
    /// con fecha de recepción y sin informe actual (el estado pendiente o en
    /// orden no importa). Enriquecidos con el precio unitario del catálogo,
    /// en el orden almacenado.
    pub fn get_requerimientos_para_informe(&self, jardin_codigo: &String) -> (r: Vec<
        RequerimientoEnriquecido,
    >)
        requires
            self.wf(),
        ensures
            r@ == self.requerimientos@.filter(
                |x: Requerimiento| x.jardin_codigo@ == jardin_codigo@ && x.fecha_recepcion is Some
                    && x.informe_pago_id is None,
            ).map_values(
                |x: Requerimiento| enriquecido_de(
                    x,
                    self.partidas@,
                    self.ordenes_trabajo@,
                    self.informes_pago@,
                    true,
                ),
            ),
    {
        let r = self.enriquecer_filtrados(
            Ghost(|x: Requerimiento| cumple_criterio(x, None, None, Some(jardin_codigo@))),
            None,
            None,
            Some(jardin_codigo),
            true,
        );
        proof {
            lema_filtro_equivalente(
                self.requerimientos@,
                |x: Requerimiento| cumple_criterio(x, None, None, Some(jardin_codigo@)),
                |x: Requerimiento| x.jardin_codigo@ == jardin_codigo@ && x.fecha_recepcion is Some
                    && x.informe_pago_id is None,
            );
        }
        r
    }

    /// Todos los informes de pago, enriquecidos, en el orden almacenado; el
    /// orden de presentación queda a cargo del llamador.
    pub fn get_informes_pago(&self) -> (r: Vec<InformePagoEnriquecido>)
        requires
            self.wf(),
            self.requerimientos@.len() <= 0x7fff_ffff_ffff_ffff,
        ensures
            r@.len() == self.informes_pago@.len(),
            forall|i: int|
                0 <= i < r@.len() ==> r@[i] == informe_enriquecido_de(
                    self.informes_pago@[i],
                    self.jardines@,
                    self.requerimientos@,
                ),
    {
        let mut r: Vec<InformePagoEnriquecido> = Vec::new();
        let mut i: usize = 0;
        while i < self.informes_pago.len()
            invariant
                self.wf(),
                self.requerimientos@.len() <= 0x7fff_ffff_ffff_ffff,
                i <= self.informes_pago@.len(),
                r@.len() == i,
                forall|k: int|
                    0 <= k < i ==> r@[k] == informe_enriquecido_de(
                        self.informes_pago@[k],
                        self.jardines@,
                        self.requerimientos@,
                    ),
            decreases self.informes_pago@.len() - i,
        {
            let inf = &self.informes_pago[i];
            let jardin = self.buscar_jardin(&inf.jardin_codigo);
            let cantidad = self.contar_miembros(inf.id);
            let e = InformePagoEnriquecido {
                id: inf.id,
                codigo: inf.codigo.clone(),
                jardin_codigo: inf.jardin_codigo.clone(),
                jardin_nombre: match jardin {
                    Some(j) => Some(j.nombre.clone()),
                    None => None,
                },
                fecha_creacion: inf.fecha_creacion,
                neto: inf.neto,
                utilidades: inf.utilidades,
                iva: inf.iva,
                total_final: inf.total_final,
                cantidad_requerimientos: cantidad,
                observaciones: clonar_opt_texto(&inf.observaciones),
                updated_at: inf.updated_at,
            };
            r.push(e);
            i = i + 1;
        }
        r
    }

    /// El número de requerimientos vinculados al informe dado.
    fn contar_miembros(&self, informe_id: i64) -> (c: i64)
        requires
            self.wf(),
            self.requerimientos@.len() <= 0x7fff_ffff_ffff_ffff,
        ensures
            c as int == cuenta_miembros(self.requerimientos@, informe_id),
    {
        let mut c: usize = 0;
        let mut i: usize = 0;
        proof {
            reveal(Seq::filter);
            assert(self.requerimientos@.take(0int).filter(
                |r: Requerimiento| r.informe_pago_id == Some(informe_id),
            ) =~= Seq::<Requerimiento>::empty());
        }
        while i < self.requerimientos.len()
            invariant
                i <= self.requerimientos@.len(),
                0 <= c <= i,
                c as int == self.requerimientos@.take(i as int).filter(
                    |r: Requerimiento| r.informe_pago_id == Some(informe_id),
                ).len(),
            decreases self.requerimientos@.len() - i,
        {
            proof {
                reveal(Seq::filter);
                assert(self.requerimientos@.take(i as int + 1).drop_last()
                    =~= self.requerimientos@.take(i as int));
                assert(self.requerimientos@.take(i as int + 1).last()
                    == self.requerimientos@[i as int]);
                self.requerimientos@.take(i as int).lemma_filter_len(
                    |r: Requerimiento| r.informe_pago_id == Some(informe_id),
                );
            }
            let es = match self.requerimientos[i].informe_pago_id {
                Some(o) => o == informe_id,
                None => false,
            };
            if es {
                c = c + 1;
            }
            i = i + 1;
        }
        proof {
            assert(self.requerimientos@.take(self.requerimientos@.len() as int)
                =~= self.requerimientos@);
        }
        c as i64
    }
}

/// El criterio de las vistas filtradas: miembro de la orden dada, miembro del
/// informe dado, o candidato a informe del jardín dado.
pub open spec fn cumple_criterio(
    x: Requerimiento,
    modo_orden: Option<i64>,
    modo_informe: Option<i64>,
    modo_jardin: Option<Seq<char>>,
) -> bool {
    &&& (match modo_orden {
        Some(o) => x.ot_id == Some(o),
        None => true,
    })
    &&& (match modo_informe {
        Some(o) => x.informe_pago_id == Some(o),
        None => true,
    })
    &&& (match modo_jardin {
        Some(j) => x.jardin_codigo@ == j && x.fecha_recepcion is Some && x.informe_pago_id is None,
        None => true,
    })
}

/// Dos predicados iguales punto a punto filtran igual.
proof fn lema_filtro_equivalente<T>(s: Seq<T>, p: spec_fn(T) -> bool, q: spec_fn(T) -> bool)
    requires
        forall|x: T| #[trigger] p(x) == q(x),
    ensures
        s.filter(p) =~= s.filter(q),
    decreases s.len(),
{
    reveal(Seq::filter);
    if s.len() > 0 {
        lema_filtro_equivalente(s.drop_last(), p, q);
    }
}

} // verus!
