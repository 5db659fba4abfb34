//! Entidades del dominio y sus campos derivados.
//!
//! Los montos se modelan como enteros (`i64`) y las fechas como números de
//! día (días desde una época fija). Las cotas nombradas mantienen toda la
//! aritmética derivada dentro del rango de `i64`.

use vstd::prelude::*;

verus! {

/// Cota para la cantidad de un requerimiento.
pub const CANTIDAD_MAX: i64 = 1_000_000_000;

/// Cota para un precio unitario.
pub const PRECIO_MAX: i64 = 1_000_000_000;

/// Cota para un total almacenado (cantidad máxima por precio máximo).
pub const PRECIO_TOTAL_MAX: i64 = 1_000_000_000_000_000_000;

/// Cota para una multa.
pub const MULTA_MAX: i64 = 1_000_000_000_000_000_000;

/// Cota para un plazo en días.
pub const PLAZO_MAX: i64 = 1_000_000;

/// Cota para una fecha (número de día).
pub const FECHA_MAX: i64 = 100_000_000;

/// Cota para el monto de un ítem de informe de pago.
pub const MONTO_MAX: i64 = 1_000_000_000_000;

/// Cota para un monto agregado de un informe (neto, utilidades, iva, total).
pub const AGREGADO_MAX: i64 = 2_000_000_000_000_000_000;

/// Estado de un requerimiento dentro del ciclo de vida.
#[derive(Clone, Copy, PartialEq, Eq, Structural, Debug)]
pub enum Estado {
    Pendiente,
    EnOt,
    EnInforme,
}

/// Jardín administrado, identificado por su código único.
#[derive(Debug)]
pub struct Jardin {
    pub id: i64,
    pub codigo: String,
    pub nombre: String,
}

/// Partida del catálogo: unidad de trabajo facturable con precio por defecto.
#[derive(Debug)]
pub struct Partida {
    pub id: i64,
    pub item: String,
    pub partida: String,
    pub unidad: Option<String>,
    pub precio_unitario: i64,
}

/// Recinto: pertenece a un jardín y tiene un nombre.
#[derive(Debug)]
pub struct Recinto {
    pub id: i64,
    pub jardin_codigo: String,
    pub nombre: String,
}

/// Requerimiento de trabajo: la entidad mutable central.
#[derive(Debug)]
pub struct Requerimiento {
    pub id: i64,
    pub jardin_codigo: String,
    pub recinto: Option<String>,
    pub partida_item: String,
    pub cantidad: i64,
    pub precio_unitario: i64,
    pub precio_total: i64,
    pub fecha_inicio: i64,
    pub fecha_registro: i64,
    pub estado: Estado,
    pub ot_id: Option<i64>,
    pub informe_pago_id: Option<i64>,
    pub fecha_recepcion: Option<i64>,
    pub plazo_dias: i64,
    pub plazo_adicional: i64,
    pub multa: i64,
    pub descripcion: Option<String>,
    pub observaciones: Option<String>,
    pub updated_at: u64,
}

/// Orden de trabajo: agrupa requerimientos de un jardín bajo un código.
#[derive(Debug)]
pub struct OrdenTrabajo {
    pub id: i64,
    pub codigo: String,
    pub jardin_codigo: String,
    pub fecha_creacion: i64,
    pub observaciones: Option<String>,
    pub updated_at: u64,
}

/// Informe de pago: agrupa requerimientos y lleva los totales financieros.
#[derive(Debug)]
pub struct InformePago {
    pub id: i64,
    pub codigo: String,
    pub jardin_codigo: String,
    pub fecha_creacion: i64,
    pub neto: i64,
    pub utilidades: i64,
    pub iva: i64,
    pub total_final: i64,
    pub observaciones: Option<String>,
    pub updated_at: u64,
}

/// Vista enriquecida de un requerimiento: los campos almacenados junto a los
/// derivados calculados al leer y a lo que traen las entidades referidas.
#[derive(Debug)]
pub struct RequerimientoEnriquecido {
    pub id: i64,
    pub jardin_codigo: String,
    pub recinto: Option<String>,
    pub partida_item: String,
    pub partida_nombre: Option<String>,
    pub partida_unidad: Option<String>,
    pub precio_unitario: Option<i64>,
    pub cantidad: i64,
    pub precio_total: i64,
    pub fecha_inicio: i64,
    pub plazo_dias: i64,
    pub plazo_adicional: i64,
    pub plazo_total: i64,
    pub fecha_limite: Option<i64>,
    pub fecha_registro: i64,
    pub fecha_recepcion: Option<i64>,
    pub dias_atraso: i64,
    pub multa: i64,
    pub a_pago: i64,
    pub descripcion: Option<String>,
    pub observaciones: Option<String>,
    pub estado: Estado,
    pub ot_id: Option<i64>,
    pub ot_codigo: Option<String>,
    pub informe_pago_id: Option<i64>,
    pub informe_pago_codigo: Option<String>,
    pub updated_at: u64,
}

/// Vista enriquecida de un informe de pago: sus campos, el nombre de su
/// jardín y cuántos requerimientos lo integran.
#[derive(Debug)]
pub struct InformePagoEnriquecido {
    pub id: i64,
    pub codigo: String,
    pub jardin_codigo: String,
    pub jardin_nombre: Option<String>,
    pub fecha_creacion: i64,
    pub neto: i64,
    pub utilidades: i64,
    pub iva: i64,
    pub total_final: i64,
    pub cantidad_requerimientos: i64,
    pub observaciones: Option<String>,
    pub updated_at: u64,
}

/// Configuración del contrato tal como la ve el exterior: la firma va
/// codificada en base64 dentro de un URI de datos.
#[derive(Debug)]
pub struct Configuracion {
    pub id: i64,
    pub titulo: String,
    pub contratista: String,
    pub prefijo_correlativo: String,
    pub ito_nombre: Option<String>,
    pub ito_firma_base64: Option<String>,
}

/// Registro singleton de configuración tal como se almacena: la firma son
/// bytes opacos de imagen.
#[derive(Debug)]
pub struct ConfiguracionContrato {
    pub titulo: String,
    pub contratista: String,
    pub prefijo_correlativo: String,
    pub ito_nombre: Option<String>,
    pub firma_png: Option<Vec<u8>>,
}

/// Ítem aportado al crear o actualizar un informe de pago: un monto y,
/// opcionalmente, el requerimiento al que corresponde.
#[derive(Debug)]
pub struct ItemPago {
    pub id: Option<i64>,
    pub monto: i64,
}

/// Conjunto de cambios para la actualización parcial de un requerimiento:
/// cada campo presente reemplaza al almacenado; los ausentes se conservan.
#[derive(Debug)]
pub struct RequerimientoCambios {
    pub descripcion: Option<String>,
    pub observaciones: Option<String>,
    pub partida_item: Option<String>,
    pub cantidad: Option<i64>,
    pub precio_unitario: Option<i64>,
    pub fecha_inicio: Option<i64>,
    pub plazo_dias: Option<i64>,
    pub plazo_adicional: Option<i64>,
    pub fecha_recepcion: Option<i64>,
    pub multa: Option<i64>,
}

impl RequerimientoCambios {
    /// Un conjunto de cambios vacío.
    pub fn vacio() -> (r: RequerimientoCambios)
        ensures
            !r.hay_cambios(),
            r.descripcion is None,
            r.observaciones is None,
            r.partida_item is None,
            r.cantidad is None,
            r.precio_unitario is None,
            r.fecha_inicio is None,
            r.plazo_dias is None,
            r.plazo_adicional is None,
            r.fecha_recepcion is None,
            r.multa is None,
    {
        RequerimientoCambios {
            descripcion: None,
            observaciones: None,
            partida_item: None,
            cantidad: None,
            precio_unitario: None,
            fecha_inicio: None,
            plazo_dias: None,
            plazo_adicional: None,
            fecha_recepcion: None,
            multa: None,
        }
    }

    /// Si algún campo viene presente.
    pub open spec fn hay_cambios(self) -> bool {
        ||| self.descripcion is Some
        ||| self.observaciones is Some
        ||| self.partida_item is Some
        ||| self.cantidad is Some
        ||| self.precio_unitario is Some
        ||| self.fecha_inicio is Some
        ||| self.plazo_dias is Some
        ||| self.plazo_adicional is Some
        ||| self.fecha_recepcion is Some
        ||| self.multa is Some
    }

    /// Cotas de los valores presentes.
    pub open spec fn acotado(self) -> bool {
        &&& (self.cantidad matches Some(c) ==> -CANTIDAD_MAX <= c <= CANTIDAD_MAX)
        &&& (self.precio_unitario matches Some(p) ==> -PRECIO_MAX <= p <= PRECIO_MAX)
        &&& (self.fecha_inicio matches Some(f) ==> -FECHA_MAX <= f <= FECHA_MAX)
        &&& (self.plazo_dias matches Some(p) ==> -PLAZO_MAX <= p <= PLAZO_MAX)
        &&& (self.plazo_adicional matches Some(p) ==> -PLAZO_MAX <= p <= PLAZO_MAX)
        &&& (self.fecha_recepcion matches Some(f) ==> -FECHA_MAX <= f <= FECHA_MAX)
        &&& (self.multa matches Some(m) ==> -MULTA_MAX <= m <= MULTA_MAX)
    }
}

/// Validez local de un requerimiento: cotas numéricas y coherencia entre
/// el estado y los vínculos (nunca ambos vínculos a la vez).
pub open spec fn req_valido(r: Requerimiento) -> bool {
    &&& -CANTIDAD_MAX <= r.cantidad <= CANTIDAD_MAX
    &&& -PRECIO_MAX <= r.precio_unitario <= PRECIO_MAX
    &&& -PRECIO_TOTAL_MAX <= r.precio_total <= PRECIO_TOTAL_MAX
    &&& -MULTA_MAX <= r.multa <= MULTA_MAX
    &&& -PLAZO_MAX <= r.plazo_dias <= PLAZO_MAX
    &&& -PLAZO_MAX <= r.plazo_adicional <= PLAZO_MAX
    &&& -FECHA_MAX <= r.fecha_inicio <= FECHA_MAX
    &&& -FECHA_MAX <= r.fecha_registro <= FECHA_MAX
    &&& (r.fecha_recepcion matches Some(f) ==> -FECHA_MAX <= f <= FECHA_MAX)
    &&& (r.estado == Estado::EnOt <==> r.ot_id is Some)
    &&& (r.estado == Estado::EnInforme <==> r.informe_pago_id is Some)
    &&& !(r.ot_id is Some && r.informe_pago_id is Some)
}

/// Plazo total: plazo base más plazo adicional.
pub open spec fn plazo_total_de(plazo_dias: int, plazo_adicional: int) -> int {
    plazo_dias + plazo_adicional
}

/// Fecha límite: fecha de inicio más plazo total, indefinida si el plazo
/// total no es positivo.
pub open spec fn fecha_limite_de(fecha_inicio: int, plazo_dias: int, plazo_adicional: int) -> Option<
    int,
> {
    if plazo_total_de(plazo_dias, plazo_adicional) > 0 {
        Some(fecha_inicio + plazo_total_de(plazo_dias, plazo_adicional))
    } else {
        None
    }
}

/// Días de atraso: cuánto excede la fecha de recepción a la fecha límite,
/// y cero si no hay recepción, no hay fecha límite, o la recepción no la
/// excede.
pub open spec fn dias_atraso_de(
    fecha_inicio: int,
    plazo_dias: int,
    plazo_adicional: int,
    fecha_recepcion: Option<int>,
) -> int {
    match (fecha_recepcion, fecha_limite_de(fecha_inicio, plazo_dias, plazo_adicional)) {
        (Some(recepcion), Some(limite)) => if limite < recepcion {
            recepcion - limite
        } else {
            0
        },
        _ => 0,
    }
}

/// Monto a pago: total menos multa.
pub open spec fn a_pago_de(precio_total: int, multa: int) -> int {
    precio_total - multa
}

impl Requerimiento {
    /// Fecha límite del requerimiento.
    pub open spec fn fecha_limite(self) -> Option<int> {
        fecha_limite_de(self.fecha_inicio as int, self.plazo_dias as int, self.plazo_adicional as int)
    }

    /// Días de atraso del requerimiento.
    pub open spec fn dias_atraso(self) -> int {
        dias_atraso_de(
            self.fecha_inicio as int,
            self.plazo_dias as int,
            self.plazo_adicional as int,
            match self.fecha_recepcion {
                Some(f) => Some(f as int),
                None => None,
            },
        )
    }

    /// Monto a pago del requerimiento.
    pub open spec fn a_pago(self) -> int {
        a_pago_de(self.precio_total as int, self.multa as int)
    }
}

/// El monto a pago es siempre el total menos la multa, y los días de atraso
/// son cero cuando no hay fecha de recepción o cuando la recepción no es
/// posterior a la fecha límite.
pub proof fn lema_derivados_requerimiento(r: Requerimiento)
    ensures
        r.a_pago() == r.precio_total - r.multa,
        r.fecha_recepcion is None ==> r.dias_atraso() == 0,
        (r.fecha_recepcion matches Some(f) && r.fecha_limite() matches Some(l) && f <= l)
            ==> r.dias_atraso() == 0,
        r.fecha_limite() is None ==> r.dias_atraso() == 0,
{
}

} // verus!
