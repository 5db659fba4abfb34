//! Documentos JSON de importación. El texto se analiza con llamadas confiadas
//! y los valores dinámicos se recorren en código verificado, con la
//! resolución explícita de alias por campo (se prueba la clave en su forma
//! compuesta y, a falta de ella, en la forma con guion bajo); el documento
//! tipado resultante lo consume el reconciliador, cuyo contrato es exacto.
//! Sobre un valor JSON opaco nada más puede afirmarse: estos contratos dicen
//! lo que vale de cualquier resultado.

use vstd::prelude::*;
use crate::almacen::Almacen;
use crate::instantanea::{
    JardinImportado, PartidaImportada, RecintoImportado, OrdenImportada, InformeImportado,
    RequerimientoImportado, ConfiguracionImportada, BaseDatosCompleta, CatalogoImport, FILAS_MAX,
};

verus! {

/// Un valor JSON dinámico, opaco para los contratos.
#[verifier::external_type_specification]
#[verifier::external_body]
pub struct ExValor(serde_json::Value);

/// Se apoya en `serde_json::from_str`: analiza el texto como valor JSON.
#[verifier::external_body]
fn json_de_texto(s: &str) -> (r: Result<serde_json::Value, String>) {
    serde_json::from_str(s).map_err(|e| format!("Error parseando JSON: {}", e))
}

/// Se apoya en `serde_json::Value::get`: el valor bajo la clave, si el valor
/// es un objeto y la trae.
#[verifier::external_body]
fn json_obtener<'a>(v: &'a serde_json::Value, clave: &str) -> (r: Option<&'a serde_json::Value>) {
    v.get(clave)
}

/// Se apoya en `serde_json::Value::as_str`: el texto del valor, si es texto.
#[verifier::external_body]
fn json_texto(v: &serde_json::Value) -> (r: Option<String>) {
    v.as_str().map(|s| s.to_string())
}

/// Se apoya en `serde_json::Value::as_i64`: el entero del valor, si es un
/// entero representable.
#[verifier::external_body]
fn json_entero(v: &serde_json::Value) -> (r: Option<i64>) {
    v.as_i64()
}

/// Se apoya en `serde_json::Value::as_array`: los elementos del valor, si es
/// una lista.
#[verifier::external_body]
fn json_lista(v: &serde_json::Value) -> (r: Option<Vec<serde_json::Value>>) {
    v.as_array().cloned()
}

/// El valor bajo la primera clave o, a falta de ella, bajo la segunda: la
/// resolución de alias entre la convención compuesta y la de guion bajo.
fn obtener_alias<'a>(v: &'a serde_json::Value, clave: &str, alias: &str) -> (r: Option<
    &'a serde_json::Value,
>) {
    match json_obtener(v, clave) {
        Some(x) => Some(x),
        None => json_obtener(v, alias),
    }
}

/// El texto bajo la clave.
fn texto_en(v: &serde_json::Value, clave: &str) -> (r: Option<String>) {
    match json_obtener(v, clave) {
        Some(x) => json_texto(x),
        None => None,
    }
}

/// El texto bajo la clave o su alias.
fn texto_alias(v: &serde_json::Value, clave: &str, alias: &str) -> (r: Option<String>) {
    match obtener_alias(v, clave, alias) {
        Some(x) => json_texto(x),
        None => None,
    }
}

/// El entero bajo la clave o su alias.
fn entero_alias(v: &serde_json::Value, clave: &str, alias: &str) -> (r: Option<i64>) {
    match obtener_alias(v, clave, alias) {
        Some(x) => json_entero(x),
        None => None,
    }
}

/// Las filas de jardines de una lista de valores: cada objeto con código y
/// nombre produce una fila; los demás se pasan por alto.
fn extraer_jardines(lista: &Vec<serde_json::Value>) -> (r: Vec<JardinImportado>)
    ensures
        r@.len() <= lista@.len(),
{
    let mut r: Vec<JardinImportado> = Vec::new();
    let mut i: usize = 0;
    while i < lista.len()
        invariant
            i <= lista@.len(),
            r@.len() <= i,
        decreases lista@.len() - i,
    {
        let v = &lista[i];
        match (texto_en(v, "codigo"), texto_en(v, "nombre")) {
            (Some(codigo), Some(nombre)) => {
                r.push(JardinImportado { codigo, nombre });
            },
            _ => {},
        }
        i = i + 1;
    }
    r
}

/// Las filas de partidas de una lista de valores; el precio unitario acepta
/// ambas convenciones de clave y vale cero si falta o no es entero.
fn extraer_partidas(lista: &Vec<serde_json::Value>, con_alias: bool) -> (r: Vec<PartidaImportada>)
    ensures
        r@.len() <= lista@.len(),
{
    let mut r: Vec<PartidaImportada> = Vec::new();
    let mut i: usize = 0;
    while i < lista.len()
        invariant
            i <= lista@.len(),
            r@.len() <= i,
        decreases lista@.len() - i,
    {
        let v = &lista[i];
        match (texto_en(v, "item"), texto_en(v, "partida")) {
            (Some(item), Some(partida)) => {
                let unidad = texto_en(v, "unidad");
                let precio = if con_alias {
                    entero_alias(v, "precioUnitario", "precio_unitario")
                } else {
                    match json_obtener(v, "precio_unitario") {
                        Some(x) => json_entero(x),
                        None => None,
                    }
                };
                let precio_unitario = match precio {
                    Some(p) => p,
                    None => 0,
                };
                r.push(PartidaImportada { item, partida, unidad, precio_unitario });
            },
            _ => {},
        }
        i = i + 1;
    }
    r
}

/// Las filas de recintos de una lista de valores; el código del jardín acepta
/// ambas convenciones de clave.
fn extraer_recintos(lista: &Vec<serde_json::Value>, con_alias: bool) -> (r: Vec<RecintoImportado>)
    ensures
        r@.len() <= lista@.len(),
{
    let mut r: Vec<RecintoImportado> = Vec::new();
    let mut i: usize = 0;
    while i < lista.len()
        invariant
            i <= lista@.len(),
            r@.len() <= i,
        decreases lista@.len() - i,
    {
        let v = &lista[i];
        let jardin = if con_alias {
            texto_alias(v, "jardinCodigo", "jardin_codigo")
        } else {
            texto_en(v, "jardin_codigo")
        };
        match (jardin, texto_en(v, "nombre")) {
            (Some(jardin_codigo), Some(nombre)) => {
                r.push(RecintoImportado { jardin_codigo, nombre });
            },
            _ => {},
        }
        i = i + 1;
    }
    r
}

/// Las filas de órdenes de trabajo de una lista de valores: código, jardín y
/// fecha de creación son requeridos.
fn extraer_ordenes(lista: &Vec<serde_json::Value>) -> (r: Vec<OrdenImportada>)
    ensures
        r@.len() <= lista@.len(),
{
    let mut r: Vec<OrdenImportada> = Vec::new();
    let mut i: usize = 0;
    while i < lista.len()
        invariant
            i <= lista@.len(),
            r@.len() <= i,
        decreases lista@.len() - i,
    {
        let v = &lista[i];
        match (
            texto_en(v, "codigo"),
            texto_alias(v, "jardinCodigo", "jardin_codigo"),
            entero_alias(v, "fechaCreacion", "fecha_creacion"),
        ) {
            (Some(codigo), Some(jardin_codigo), Some(fecha_creacion)) => {
                r.push(
                    OrdenImportada {
                        codigo,
                        jardin_codigo,
                        fecha_creacion,
                        observaciones: texto_en(v, "observaciones"),
                    },
                );
            },
            _ => {},
        }
        i = i + 1;
    }
    r
}

/// Las filas de informes de pago de una lista de valores: los totales se
/// toman tal como vienen, con cero por defecto.
fn extraer_informes(lista: &Vec<serde_json::Value>) -> (r: Vec<InformeImportado>)
    ensures
        r@.len() <= lista@.len(),
{
    let mut r: Vec<InformeImportado> = Vec::new();
    let mut i: usize = 0;
    while i < lista.len()
        invariant
            i <= lista@.len(),
            r@.len() <= i,
        decreases lista@.len() - i,
    {
        let v = &lista[i];
        match (
            texto_en(v, "codigo"),
            texto_alias(v, "jardinCodigo", "jardin_codigo"),
            entero_alias(v, "fechaCreacion", "fecha_creacion"),
        ) {
            (Some(codigo), Some(jardin_codigo), Some(fecha_creacion)) => {
                let neto = entero_o_cero(v, "neto");
                r.push(
                    InformeImportado {
                        codigo,
                        jardin_codigo,
                        fecha_creacion,
                        neto,
                        utilidades: entero_o_cero(v, "utilidades"),
                        iva: entero_o_cero(v, "iva"),
                        total_final: match entero_alias(v, "totalFinal", "total_final") {
                            Some(x) => x,
                            None => 0,
                        },
                        observaciones: texto_en(v, "observaciones"),
                    },
                );
            },
            _ => {},
        }
        i = i + 1;
    }
    r
}

/// El entero bajo la clave, o cero si falta o no es entero.
fn entero_o_cero(v: &serde_json::Value, clave: &str) -> (r: i64) {
    match json_obtener(v, clave) {
        Some(x) => match json_entero(x) {
            Some(n) => n,
            None => 0,
        },
        None => 0,
    }
}

/// Las filas de requerimientos de una lista de valores: jardín y partida son
/// requeridos; los vínculos vienen solo como códigos (`ot_codigo` e
/// `informe_codigo`), y cualquier identificador numérico se pasa por alto.
fn extraer_requerimientos(lista: &Vec<serde_json::Value>) -> (r: Vec<RequerimientoImportado>)
    ensures
        r@.len() <= lista@.len(),
{
    let mut r: Vec<RequerimientoImportado> = Vec::new();
    let mut i: usize = 0;
    while i < lista.len()
        invariant
            i <= lista@.len(),
            r@.len() <= i,
        decreases lista@.len() - i,
    {
        let v = &lista[i];
        match (
            texto_alias(v, "jardinCodigo", "jardin_codigo"),
            texto_alias(v, "partidaItem", "partida_item"),
        ) {
            (Some(jardin_codigo), Some(partida_item)) => {
                let cantidad = match entero_alias(v, "cantidad", "cantidad") {
                    Some(x) => x,
                    None => 0,
                };
                let precio_unitario = match entero_alias(v, "precioUnitario", "precio_unitario") {
                    Some(x) => x,
                    None => 0,
                };
                r.push(
                    RequerimientoImportado {
                        jardin_codigo,
                        recinto: texto_en(v, "recinto"),
                        partida_item,
                        cantidad,
                        precio_unitario,
                        precio_total: entero_alias(v, "precioTotal", "precio_total"),
                        fecha_inicio: match entero_alias(v, "fechaInicio", "fecha_inicio") {
                            Some(x) => x,
                            None => 0,
                        },
                        fecha_registro: match entero_alias(v, "fechaRegistro", "fecha_registro") {
                            Some(x) => x,
                            None => 0,
                        },
                        ot_codigo: texto_en(v, "ot_codigo"),
                        informe_codigo: texto_en(v, "informe_codigo"),
                        plazo_dias: match entero_alias(v, "plazoDias", "plazo_dias") {
                            Some(x) => x,
                            None => 0,
                        },
                        plazo_adicional: match entero_alias(v, "plazoAdicional", "plazo_adicional") {
                            Some(x) => x,
                            None => 0,
                        },
                        multa: entero_o_cero(v, "multa"),
                        descripcion: texto_en(v, "descripcion"),
                        observaciones: texto_en(v, "observaciones"),
                        fecha_recepcion: entero_alias(v, "fechaRecepcion", "fecha_recepcion"),
                    },
                );
            },
            _ => {},
        }
        i = i + 1;
    }
    r
}

/// La sección de configuración de un documento, si la trae.
fn extraer_configuracion(v: &serde_json::Value) -> (r: ConfiguracionImportada) {
    let titulo = match texto_en(v, "titulo") {
        Some(x) => x,
        None => String::new(),
    };
    let contratista = match texto_en(v, "contratista") {
        Some(x) => x,
        None => String::new(),
    };
    let prefijo_correlativo = match texto_en(v, "prefijo_correlativo") {
        Some(x) => x,
        None => String::new(),
    };
    let ito_nombre = match texto_en(v, "ito_nombre") {
        Some(x) => x,
        None => String::new(),
    };
    ConfiguracionImportada {
        titulo,
        contratista,
        prefijo_correlativo,
        ito_nombre,
        firma_png_base64: texto_en(v, "firma_png_base64"),
    }
}

/// Una lista bajo la clave del documento, si la trae.
fn lista_en(doc: &serde_json::Value, clave: &str) -> (r: Option<Vec<serde_json::Value>>) {
    match json_obtener(doc, clave) {
        Some(x) => json_lista(x),
        None => None,
    }
}

impl Almacen {
    /// Importa una base de datos completa desde un documento JSON: analiza el
    /// texto, extrae la instantánea tipada resolviendo los alias de claves, y
    /// la repone entera mediante el reconciliador. Un texto que no es JSON o
    /// una instantánea inválida fallan sin cambiar nada.
    pub fn importar_base_datos_completa(&mut self, json_str: &String) -> (r: Result<String, String>)
        requires
            old(self).wf(),
        ensures
            final(self).wf(),
            r is Err ==> *final(self) == *old(self),
    {
        let doc = match json_de_texto(json_str.as_str()) {
            Ok(d) => d,
            Err(e) => {
                return Err(e);
            },
        };
        let jardines = match lista_en(&doc, "jardines") {
            Some(lista) => {
                if lista.len() > FILAS_MAX {
                    return Err(String::from_str("demasiadas filas"));
                }
                Some(extraer_jardines(&lista))
            },
            None => None,
        };
        let partidas = match lista_en(&doc, "partidas") {
            Some(lista) => {
                if lista.len() > FILAS_MAX {
                    return Err(String::from_str("demasiadas filas"));
                }
                Some(extraer_partidas(&lista, true))
            },
            None => None,
        };
        let recintos = match lista_en(&doc, "recintos") {
            Some(lista) => {
                if lista.len() > FILAS_MAX {
                    return Err(String::from_str("demasiadas filas"));
                }
                Some(extraer_recintos(&lista, true))
            },
            None => None,
        };
        let ordenes_trabajo = match lista_en(&doc, "ordenes_trabajo") {
            Some(lista) => {
                if lista.len() > FILAS_MAX {
                    return Err(String::from_str("demasiadas filas"));
                }
                Some(extraer_ordenes(&lista))
            },
            None => None,
        };
        let informes_pago = match lista_en(&doc, "informes_pago") {
            Some(lista) => {
                if lista.len() > FILAS_MAX {
                    return Err(String::from_str("demasiadas filas"));
                }
                Some(extraer_informes(&lista))
            },
            None => None,
        };
        let requerimientos = match lista_en(&doc, "requerimientos") {
            Some(lista) => {
                if lista.len() > FILAS_MAX {
                    return Err(String::from_str("demasiadas filas"));
                }
                Some(extraer_requerimientos(&lista))
            },
            None => None,
        };
        let configuracion = match json_obtener(&doc, "configuracion") {
            Some(v) => Some(extraer_configuracion(v)),
            None => None,
        };
        let datos = BaseDatosCompleta {
            jardines,
            partidas,
            recintos,
            requerimientos,
            ordenes_trabajo,
            informes_pago,
            configuracion,
        };
        self.importar_base_datos(&datos)
    }

    /// Importa un catálogo desde un documento JSON con las tres secciones:
    /// analiza el texto, extrae las filas tipadas y las agrega mediante el
    /// importador de catálogo. Un texto que no es JSON o un documento
    /// inválido fallan sin cambiar nada.
    pub fn importar_catalogo_json(&mut self, json_str: &String) -> (r: Result<String, String>)
        requires
            old(self).wf(),
            old(self).sig_jardin <= i64::MAX - FILAS_MAX,
            old(self).sig_partida <= i64::MAX - FILAS_MAX,
            old(self).sig_recinto <= i64::MAX - FILAS_MAX,
        ensures
            final(self).wf(),
            r is Err ==> *final(self) == *old(self),
    {
        let doc = match json_de_texto(json_str.as_str()) {
            Ok(d) => d,
            Err(e) => {
                return Err(e);
            },
        };
        let jardines = match lista_en(&doc, "jardines") {
            Some(lista) => {
                if lista.len() > FILAS_MAX {
                    return Err(String::from_str("demasiadas filas"));
                }
                Some(extraer_jardines(&lista))
            },
            None => None,
        };
        let partidas = match lista_en(&doc, "partidas") {
            Some(lista) => {
                if lista.len() > FILAS_MAX {
                    return Err(String::from_str("demasiadas filas"));
                }
                Some(extraer_partidas(&lista, false))
            },
            None => None,
        };
        let recintos = match lista_en(&doc, "recintos") {
            Some(lista) => {
                if lista.len() > FILAS_MAX {
                    return Err(String::from_str("demasiadas filas"));
                }
                Some(extraer_recintos(&lista, false))
            },
            None => None,
        };
        let datos = CatalogoImport { jardines, partidas, recintos };
        self.importar_catalogo(&datos)
    }
}

} // verus!
