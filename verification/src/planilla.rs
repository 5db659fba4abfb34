//! Importación de catálogo desde tablas de texto delimitado y desde libros de
//! cálculo: las celdas llegan como texto por llamadas confiadas, y la lógica
//! de filas (columnas requeridas, recortes, precios, supresión de duplicados)
//! está verificada sobre esas filas.

use vstd::prelude::*;
use crate::entidades::{Jardin, Partida, Recinto, PRECIO_MAX};
use crate::almacen::Almacen;
use crate::instantanea::{
    JardinImportado, PartidaImportada, RecintoImportado, jardines_cargados, partidas_cargadas,
    FILAS_MAX,
};
use crate::importacion::{
    resumen_catalogo, lema_jardines_cargados_distintos, lema_partidas_cargadas_distintas,
};
use crate::numeros::{es_digito, prefijo_numerico, es_digito_texto, valor_sufijo, entero_a_texto};

verus! {

/// Los registros que el lector de tablas delimitadas extrae de un texto, tras
/// consumir la fila de cabecera; indefinido cuando el texto está malformado.
pub uninterp spec fn registros_csv(texto: Seq<char>) -> Option<Seq<Vec<String>>>;

/// Se apoya en `csv::Reader::from_reader` y su iterador `records`: separa el
/// texto en registros y campos con la configuración por defecto (la primera
/// fila es cabecera y se consume), y el resultado depende solo del texto.
#[verifier::external_body]
fn leer_registros_csv(texto: &str) -> (r: Result<Vec<Vec<String>>, String>)
    ensures
        match r {
            Ok(filas) => registros_csv(texto@) == Some(filas@),
            Err(_) => registros_csv(texto@) is None,
        },
{
    let mut lector = csv::Reader::from_reader(texto.as_bytes());
    let mut filas: Vec<Vec<String>> = Vec::new();
    for registro in lector.records() {
        let registro = registro.map_err(|e| e.to_string())?;
        filas.push(registro.iter().map(|campo| campo.to_string()).collect());
    }
    Ok(filas)
}

/// Las celdas, como texto, de la hoja nombrada de un libro de cálculo dado en
/// bytes; indefinido cuando el libro no abre o la hoja no está.
pub uninterp spec fn celdas_xlsx(bytes: Seq<u8>, hoja: Seq<char>) -> Option<Seq<Vec<String>>>;

/// Se apoya en `calamine::open_workbook_from_rs` y `worksheet_range`: abre el
/// libro desde los bytes y entrega las celdas de la hoja nombrada como texto;
/// el resultado depende solo de los bytes y del nombre.
#[verifier::external_body]
fn leer_hoja_xlsx(bytes: &Vec<u8>, hoja: &str) -> (r: Result<Vec<Vec<String>>, String>)
    ensures
        match r {
            Ok(filas) => celdas_xlsx(bytes@, hoja@) == Some(filas@),
            Err(_) => celdas_xlsx(bytes@, hoja@) is None,
        },
{
    let cursor = std::io::Cursor::new(bytes.clone());
    let mut libro: calamine::Xlsx<_> = calamine::open_workbook_from_rs(cursor).map_err(
        |e| format!("Error abriendo Excel: {}", e),
    )?;
    let rango = calamine::Reader::worksheet_range(&mut libro, hoja).map_err(
        |e| format!("Error leyendo hoja: {}", e),
    )?;
    let mut filas: Vec<Vec<String>> = Vec::new();
    for fila in rango.rows() {
        filas.push(fila.iter().map(|celda| celda.to_string()).collect());
    }
    Ok(filas)
}

/// El texto sin su espacio en blanco inicial ni final.
pub uninterp spec fn recortado(s: Seq<char>) -> Seq<char>;

/// Se apoya en `str::trim`: quita el espacio en blanco inicial y final, así
/// que el resultado nunca es más largo que la entrada, y el resultado depende
/// solo de los caracteres.
#[verifier::external_body]
fn recortar(s: &str) -> (r: String)
    ensures
        r@ == recortado(s@),
        r@.len() <= s@.len(),
{
    s.trim().to_string()
}

/// Si el texto es una sucesión no vacía de dígitos decimales.
pub open spec fn solo_digitos(s: Seq<char>) -> bool {
    s.len() > 0 && forall|i: int| 0 <= i < s.len() ==> es_digito(#[trigger] s[i])
}

/// El precio que un texto denota: su valor decimal si es todo dígitos (con un
/// signo menos opcional) y cae dentro de la cota de precios; cero en
/// cualquier otro caso, como el precio por defecto del importador. En el
/// modelo de montos enteros un texto con parte fraccionaria no es un precio
/// y cae, como cualquier otro texto no numérico, en el valor por defecto.
pub open spec fn precio_de_texto(s: Seq<char>) -> i64 {
    if solo_digitos(s) && prefijo_numerico(s) <= PRECIO_MAX {
        prefijo_numerico(s) as i64
    } else if s.len() > 1 && s[0] == '-' && solo_digitos(s.skip(1)) && prefijo_numerico(s.skip(1))
        <= PRECIO_MAX {
        (-(prefijo_numerico(s.skip(1)) as i64)) as i64
    } else {
        0
    }
}

/// El precio que un texto denota.
pub fn texto_a_precio(s: &str) -> (r: i64)
    ensures
        r == precio_de_texto(s@),
        -PRECIO_MAX <= r <= PRECIO_MAX,
{
    let largo = s.unicode_len();
    if largo == 0 {
        return 0;
    }
    let negativo = s.get_char(0) == '-';
    let desde: usize = if negativo {
        1
    } else {
        0
    };
    if largo == desde {
        proof {
            assert(!solo_digitos(s@));
            assert(!(s@.len() > 1));
        }
        return 0;
    }
    let mut i = desde;
    while i < largo
        invariant
            largo == s@.len(),
            desde <= i <= largo,
            desde < largo,
            desde == 0 || desde == 1,
            desde == 1 ==> s@[0] == '-',
            desde == 0 ==> !(s@[0] == '-'),
            negativo == (desde == 1),
            forall|k: int| desde <= k < i ==> es_digito(#[trigger] s@[k]),
        decreases largo - i,
    {
        if !es_digito_texto(s.get_char(i)) {
            proof {
                assert(!solo_digitos(s@)) by {
                    assert(!es_digito(s@[i as int]));
                }
                if s@.len() > 1 && s@[0] == '-' {
                    assert(!solo_digitos(s@.skip(1))) by {
                        assert(s@.skip(1)[i as int - 1] == s@[i as int]);
                    }
                }
            }
            return 0;
        }
        i = i + 1;
    }
    proof {
        if desde == 0 {
            assert(solo_digitos(s@));
        } else {
            assert(solo_digitos(s@.skip(1))) by {
                assert(forall|k: int|
                    0 <= k < s@.skip(1).len() ==> #[trigger] s@.skip(1)[k] == s@[k + 1]);
            }
            assert(!es_digito('-'));
            assert(!solo_digitos(s@));
        }
    }
    let v = valor_sufijo(s, desde);
    if v > PRECIO_MAX as u64 {
        proof {
            if desde == 0 {
                assert(s@.skip(0int) =~= s@);
            }
        }
        return 0;
    }
    proof {
        if desde == 0 {
            assert(s@.skip(0int) =~= s@);
        }
    }
    if negativo {
        -(v as i64)
    } else {
        v as i64
    }
}

/// Las filas de jardines de una tabla: de cada registro con al menos dos
/// campos, el primero es el código y el segundo el nombre.
pub open spec fn jardines_de_filas(filas: Seq<Vec<String>>) -> Seq<JardinImportado> {
    filas.filter(|r: Vec<String>| r@.len() >= 2).map_values(
        |r: Vec<String>| JardinImportado { codigo: r@[0], nombre: r@[1] },
    )
}

/// Las filas de partidas de una tabla: de cada registro con al menos dos
/// campos, ítem, nombre, unidad opcional y precio (cero si falta o no es
/// numérico).
pub open spec fn partidas_de_filas(filas: Seq<Vec<String>>) -> Seq<PartidaImportada> {
    filas.filter(|r: Vec<String>| r@.len() >= 2).map_values(
        |r: Vec<String>| PartidaImportada {
            item: r@[0],
            partida: r@[1],
            unidad: if r@.len() > 2 {
                Some(r@[2])
            } else {
                None
            },
            precio_unitario: if r@.len() > 3 {
                precio_de_texto(r@[3]@)
            } else {
                0
            },
        },
    )
}

impl Almacen {
    /// Importa un catálogo desde filas de una tabla ya separada en campos: el
    /// tipo elige entre jardines y partidas; cualquier otro tipo es
    /// rechazado sin cambiar nada. Los registros con menos de dos campos se
    /// pasan por alto; los códigos o ítems ya presentes se ignoran en
    /// silencio. Devuelve la cuenta de filas procesadas.
    pub fn importar_catalogo_filas(&mut self, tipo: &String, filas: &Vec<Vec<String>>) -> (r:
        Result<String, String>)
        requires
            old(self).wf(),
            filas@.len() <= FILAS_MAX,
            old(self).sig_jardin <= i64::MAX - FILAS_MAX,
            old(self).sig_partida <= i64::MAX - FILAS_MAX,
        ensures
            final(self).wf(),
            match r {
                Ok(resumen) => {
                    &&& (tipo@ == "jardines"@ || tipo@ == "partidas"@)
                    &&& tipo@ == "jardines"@ ==> {
                        &&& final(self).jardines@ == jardines_cargados(
                            old(self).jardines@,
                            jardines_de_filas(filas@),
                            old(self).sig_jardin as int,
                        )
                        &&& final(self).sig_jardin == old(self).sig_jardin + final(self).jardines@.len() - old(self).jardines@.len()
                        &&& *final(self) == (Almacen {
                            jardines: final(self).jardines,
                            sig_jardin: final(self).sig_jardin,
                            ..*old(self)
                        })
                        &&& resumen@ == resumen_catalogo(jardines_de_filas(filas@).len())
                    }
                    &&& tipo@ == "partidas"@ ==> {
                        &&& final(self).partidas@ == partidas_cargadas(
                            old(self).partidas@,
                            partidas_de_filas(filas@),
                            old(self).sig_partida as int,
                        )
                        &&& final(self).sig_partida == old(self).sig_partida + final(self).partidas@.len() - old(self).partidas@.len()
                        &&& *final(self) == (Almacen {
                            partidas: final(self).partidas,
                            sig_partida: final(self).sig_partida,
                            ..*old(self)
                        })
                        &&& resumen@ == resumen_catalogo(partidas_de_filas(filas@).len())
                    }
                },
                Err(_) => !(tipo@ == "jardines"@ || tipo@ == "partidas"@) && *final(self) == *old(self),
            },
    {
        proof {
            reveal_strlit("jardines");
            reveal_strlit("partidas");
            assert("jardines"@[0] == 'j');
            assert("partidas"@[0] == 'p');
            assert("jardines"@ != "partidas"@);
        }
        if *tipo == String::from_str("jardines") {
            let tabla = filas_a_jardines(filas);
            self.cargar_jardines(&tabla);
            let mut resumen = entero_a_texto(tabla.len() as u64);
            resumen.append(" registros importados");
            proof {
                assert(resumen@ =~= resumen_catalogo(jardines_de_filas(filas@).len()));
            }
            Ok(resumen)
        } else if *tipo == String::from_str("partidas") {
            let tabla = filas_a_partidas(filas);
            self.cargar_partidas(&tabla);
            let mut resumen = entero_a_texto(tabla.len() as u64);
            resumen.append(" registros importados");
            proof {
                assert(resumen@ =~= resumen_catalogo(partidas_de_filas(filas@).len()));
            }
            Ok(resumen)
        } else {
            Err(String::from_str("Tipo de importacion no valido"))
        }
    }

    /// Importa un catálogo desde un texto de tabla delimitada: la cabecera se
    /// consume y el resto se procesa según el tipo. Un texto malformado o un
    /// tipo desconocido fallan sin cambiar nada.
    pub fn importar_catalogo_csv(&mut self, csv_str: &String, tipo: &String) -> (r: Result<
        String,
        String,
    >)
        requires
            old(self).wf(),
            old(self).sig_jardin <= i64::MAX - FILAS_MAX,
            old(self).sig_partida <= i64::MAX - FILAS_MAX,
        ensures
            final(self).wf(),
            match r {
                Ok(resumen) => {
                    &&& registros_csv(csv_str@) matches Some(filas)
                    &&& (tipo@ == "jardines"@ || tipo@ == "partidas"@)
                    &&& tipo@ == "jardines"@ ==> {
                        &&& final(self).jardines@ == jardines_cargados(
                            old(self).jardines@,
                            jardines_de_filas(filas),
                            old(self).sig_jardin as int,
                        )
                        &&& final(self).sig_jardin == old(self).sig_jardin + final(self).jardines@.len() - old(self).jardines@.len()
                        &&& *final(self) == (Almacen {
                            jardines: final(self).jardines,
                            sig_jardin: final(self).sig_jardin,
                            ..*old(self)
                        })
                        &&& resumen@ == resumen_catalogo(jardines_de_filas(filas).len())
                    }
                    &&& tipo@ == "partidas"@ ==> {
                        &&& final(self).partidas@ == partidas_cargadas(
                            old(self).partidas@,
                            partidas_de_filas(filas),
                            old(self).sig_partida as int,
                        )
                        &&& final(self).sig_partida == old(self).sig_partida + final(self).partidas@.len() - old(self).partidas@.len()
                        &&& *final(self) == (Almacen {
                            partidas: final(self).partidas,
                            sig_partida: final(self).sig_partida,
                            ..*old(self)
                        })
                        &&& resumen@ == resumen_catalogo(partidas_de_filas(filas).len())
                    }
                },
                Err(_) => (registros_csv(csv_str@) is None || (registros_csv(
                    csv_str@,
                ) matches Some(f) && f.len() > FILAS_MAX) || !(tipo@ == "jardines"@ || tipo@
                    == "partidas"@)) && *final(self) == *old(self),
            },
    {
        let filas = match leer_registros_csv(csv_str.as_str()) {
            Ok(f) => f,
            Err(e) => {
                return Err(e);
            },
        };
        if filas.len() > FILAS_MAX {
            return Err(String::from_str("demasiadas filas"));
        }
        self.importar_catalogo_filas(tipo, &filas)
    }
}

/// Convierte registros de tabla en filas de jardines.
fn filas_a_jardines(filas: &Vec<Vec<String>>) -> (r: Vec<JardinImportado>)
    ensures
        r@ == jardines_de_filas(filas@),
        r@.len() <= filas@.len(),
{
    let criterio = Ghost(|x: Vec<String>| x@.len() >= 2);
    let convertir = Ghost(|x: Vec<String>| JardinImportado { codigo: x@[0], nombre: x@[1] });
    let mut r: Vec<JardinImportado> = Vec::new();
    let mut i: usize = 0;
    proof {
        reveal(Seq::filter);
        assert(filas@.take(0int).filter(criterio@).map_values(convertir@) =~= Seq::<
            JardinImportado,
        >::empty());
    }
    while i < filas.len()
        invariant
            i <= filas@.len(),
            criterio@ == (|x: Vec<String>| x@.len() >= 2),
            convertir@ == (|x: Vec<String>| JardinImportado { codigo: x@[0], nombre: x@[1] }),
            r@ == filas@.take(i as int).filter(criterio@).map_values(convertir@),
            r@.len() <= i,
        decreases filas@.len() - i,
    {
        proof {
            reveal(Seq::filter);
            assert(filas@.take(i as int + 1).drop_last() =~= filas@.take(i as int));
            assert(filas@.take(i as int + 1).last() == filas@[i as int]);
            filas@.take(i as int).lemma_filter_len(criterio@);
        }
        let fila = &filas[i];
        if fila.len() >= 2 {
            r.push(JardinImportado { codigo: fila[0].clone(), nombre: fila[1].clone() });
        }
        proof {
            assert(r@ =~= filas@.take(i as int + 1).filter(criterio@).map_values(convertir@));
        }
        i = i + 1;
    }
    proof {
        assert(filas@.take(filas@.len() as int) =~= filas@);
        filas@.lemma_filter_len(criterio@);
    }
    r
}

/// Convierte registros de tabla en filas de partidas; el precio de la cuarta
/// columna se lee como entero y vale cero si falta o no es numérico.
fn filas_a_partidas(filas: &Vec<Vec<String>>) -> (r: Vec<PartidaImportada>)
    ensures
        r@ == partidas_de_filas(filas@),
        r@.len() <= filas@.len(),
        forall|k: int|
            0 <= k < r@.len() ==> -PRECIO_MAX <= (#[trigger] r@[k]).precio_unitario <= PRECIO_MAX,
{
    let criterio = Ghost(|x: Vec<String>| x@.len() >= 2);
    let convertir = Ghost(
        |x: Vec<String>| PartidaImportada {
            item: x@[0],
            partida: x@[1],
            unidad: if x@.len() > 2 {
                Some(x@[2])
            } else {
                None
            },
            precio_unitario: if x@.len() > 3 {
                precio_de_texto(x@[3]@)
            } else {
                0
            },
        },
    );
    let mut r: Vec<PartidaImportada> = Vec::new();
    let mut i: usize = 0;
    proof {
        reveal(Seq::filter);
        assert(filas@.take(0int).filter(criterio@).map_values(convertir@) =~= Seq::<
            PartidaImportada,
        >::empty());
    }
    while i < filas.len()
        invariant
            i <= filas@.len(),
            criterio@ == (|x: Vec<String>| x@.len() >= 2),
            convertir@ == (|x: Vec<String>| PartidaImportada {
                item: x@[0],
                partida: x@[1],
                unidad: if x@.len() > 2 {
                    Some(x@[2])
                } else {
                    None
                },
                precio_unitario: if x@.len() > 3 {
                    precio_de_texto(x@[3]@)
                } else {
                    0
                },
            }),
            r@ == filas@.take(i as int).filter(criterio@).map_values(convertir@),
            r@.len() <= i,
            forall|k: int|
                0 <= k < r@.len() ==> -PRECIO_MAX <= (#[trigger] r@[k]).precio_unitario
                    <= PRECIO_MAX,
        decreases filas@.len() - i,
    {
        proof {
            reveal(Seq::filter);
            assert(filas@.take(i as int + 1).drop_last() =~= filas@.take(i as int));
            assert(filas@.take(i as int + 1).last() == filas@[i as int]);
            filas@.take(i as int).lemma_filter_len(criterio@);
        }
        let fila = &filas[i];
        if fila.len() >= 2 {
            let unidad = if fila.len() > 2 {
                Some(fila[2].clone())
            } else {
                None
            };
            let precio_unitario = if fila.len() > 3 {
                texto_a_precio(fila[3].as_str())
            } else {
                0
            };
            r.push(
                PartidaImportada {
                    item: fila[0].clone(),
                    partida: fila[1].clone(),
                    unidad,
                    precio_unitario,
                },
            );
        }
        proof {
            assert(r@ =~= filas@.take(i as int + 1).filter(criterio@).map_values(convertir@));
        }
        i = i + 1;
    }
    proof {
        assert(filas@.take(filas@.len() as int) =~= filas@);
        filas@.lemma_filter_len(criterio@);
    }
    r
}

/// Si los bytes abren como libro de cálculo.
pub uninterp spec fn xlsx_abre(bytes: Seq<u8>) -> bool;

/// Se apoya en `calamine::open_workbook_from_rs`: dice si los bytes abren
/// como libro de cálculo, y el resultado depende solo de los bytes.
#[verifier::external_body]
fn abrir_xlsx(bytes: &Vec<u8>) -> (r: Result<(), String>)
    ensures
        r is Ok <==> xlsx_abre(bytes@),
{
    let cursor = std::io::Cursor::new(bytes.clone());
    let resultado: Result<calamine::Xlsx<_>, _> = calamine::open_workbook_from_rs(cursor);
    resultado.map(|_| ()).map_err(|e| format!("Error abriendo Excel: {}", e))
}

/// El resumen de una importación de catálogo por hojas: filas cargadas por
/// sección y si la configuración del contrato fue actualizada.
#[derive(Debug, PartialEq, Eq, Structural)]
pub struct ResumenXlsx {
    pub jardines: u64,
    pub partidas: u64,
    pub recintos: u64,
    pub contrato: bool,
}

/// Las filas de una hoja sin su fila de cabecera.
pub open spec fn cuerpo_de(filas: Seq<Vec<String>>) -> Seq<Vec<String>> {
    if filas.len() == 0 {
        filas
    } else {
        filas.skip(1)
    }
}

/// La vista de un texto opcional.
pub open spec fn opt_vista(o: Option<String>) -> Option<Seq<char>> {
    match o {
        Some(s) => Some(s@),
        None => None,
    }
}

/// El cuerpo de la hoja nombrada del libro dado en bytes, o nada si el libro
/// no abre o la hoja no está.
pub open spec fn hoja_cuerpo(bytes: Seq<u8>, nombre: Seq<char>) -> Seq<Vec<String>> {
    match celdas_xlsx(bytes, nombre) {
        Some(f) => cuerpo_de(f),
        None => Seq::<Vec<String>>::empty(),
    }
}

/// Las vistas (código, nombre) que la hoja de jardines produce: de cada fila
/// con al menos dos celdas cuyos dos primeros campos no quedan vacíos tras el
/// recorte, los campos recortados, en el orden de la hoja.
pub open spec fn jardines_de_hoja(celdas: Seq<Vec<String>>) -> Seq<(Seq<char>, Seq<char>)>
    decreases celdas.len(),
{
    if celdas.len() == 0 {
        Seq::<(Seq<char>, Seq<char>)>::empty()
    } else {
        let pre = jardines_de_hoja(celdas.drop_last());
        let fila = celdas.last();
        if fila@.len() >= 2 && recortado(fila@[0]@).len() > 0 && recortado(fila@[1]@).len() > 0 {
            pre.push((recortado(fila@[0]@), recortado(fila@[1]@)))
        } else {
            pre
        }
    }
}

/// Las vistas (ítem, nombre, unidad, precio) que la hoja de partidas produce:
/// campos recortados, unidad vacía como ausente y precio leído como entero.
pub open spec fn partidas_de_hoja(celdas: Seq<Vec<String>>) -> Seq<
    (Seq<char>, Seq<char>, Option<Seq<char>>, i64),
>
    decreases celdas.len(),
{
    if celdas.len() == 0 {
        Seq::<(Seq<char>, Seq<char>, Option<Seq<char>>, i64)>::empty()
    } else {
        let pre = partidas_de_hoja(celdas.drop_last());
        let fila = celdas.last();
        if fila@.len() >= 2 && recortado(fila@[0]@).len() > 0 && recortado(fila@[1]@).len() > 0 {
            pre.push(
                (
                    recortado(fila@[0]@),
                    recortado(fila@[1]@),
                    if fila@.len() > 2 && recortado(fila@[2]@).len() > 0 {
                        Some(recortado(fila@[2]@))
                    } else {
                        None
                    },
                    if fila@.len() > 3 {
                        precio_de_texto(recortado(fila@[3]@))
                    } else {
                        0
                    },
                ),
            )
        } else {
            pre
        }
    }
}

/// Las vistas (jardín, nombre) que la hoja de recintos produce.
pub open spec fn recintos_de_hoja(celdas: Seq<Vec<String>>) -> Seq<(Seq<char>, Seq<char>)>
    decreases celdas.len(),
{
    if celdas.len() == 0 {
        Seq::<(Seq<char>, Seq<char>)>::empty()
    } else {
        let pre = recintos_de_hoja(celdas.drop_last());
        let fila = celdas.last();
        if fila@.len() >= 2 && recortado(fila@[0]@).len() > 0 && recortado(fila@[1]@).len() > 0 {
            pre.push((recortado(fila@[0]@), recortado(fila@[1]@)))
        } else {
            pre
        }
    }
}

/// Si las primeras componentes no se repiten.
pub open spec fn claves_distintas(s: Seq<(Seq<char>, Seq<char>)>) -> bool {
    forall|i: int, j: int| 0 <= i < j < s.len() ==> s[i].0 != s[j].0
}

/// Si los ítems (primeras componentes) no se repiten.
pub open spec fn items_distintos(s: Seq<(Seq<char>, Seq<char>, Option<Seq<char>>, i64)>) -> bool {
    forall|i: int, j: int| 0 <= i < j < s.len() ==> s[i].0 != s[j].0
}

/// Si los pares no se repiten.
pub open spec fn pares_distintos(s: Seq<(Seq<char>, Seq<char>)>) -> bool {
    forall|i: int, j: int| 0 <= i < j < s.len() ==> !(s[i].0 == s[j].0 && s[i].1 == s[j].1)
}

/// Quita la fila de cabecera.
fn quitar_cabecera(filas: &mut Vec<Vec<String>>)
    ensures
        final(filas)@ == cuerpo_de(old(filas)@),
{
    if filas.len() > 0 {
        filas.remove(0);
        proof {
            assert(final(filas)@ =~= cuerpo_de(old(filas)@));
        }
    }
}

/// Convierte las filas de la hoja de jardines: celdas recortadas, y las filas
/// sin código o nombre se pasan por alto.
fn hoja_a_jardines(filas: &Vec<Vec<String>>) -> (r: Vec<JardinImportado>)
    ensures
        r@.len() == jardines_de_hoja(filas@).len(),
        forall|k: int|
            0 <= k < r@.len() ==> (#[trigger] r@[k]).codigo@ == jardines_de_hoja(filas@)[k].0
                && r@[k].nombre@ == jardines_de_hoja(filas@)[k].1,
{
    let mut r: Vec<JardinImportado> = Vec::new();
    let mut i: usize = 0;
    while i < filas.len()
        invariant
            i <= filas@.len(),
            r@.len() == jardines_de_hoja(filas@.take(i as int)).len(),
            forall|k: int|
                0 <= k < r@.len() ==> (#[trigger] r@[k]).codigo@ == jardines_de_hoja(
                    filas@.take(i as int),
                )[k].0 && r@[k].nombre@ == jardines_de_hoja(filas@.take(i as int))[k].1,
        decreases filas@.len() - i,
    {
        proof {
            assert(filas@.take(i as int + 1).drop_last() =~= filas@.take(i as int));
            assert(filas@.take(i as int + 1).last() == filas@[i as int]);
        }
        let ghost previa = jardines_de_hoja(filas@.take(i as int));
        let fila = &filas[i];
        let mut usable = false;
        if fila.len() >= 2 {
            let codigo = recortar(fila[0].as_str());
            let nombre = recortar(fila[1].as_str());
            if !codigo.as_str().is_empty() && !nombre.as_str().is_empty() {
                usable = true;
                r.push(JardinImportado { codigo, nombre });
                proof {
                    assert(jardines_de_hoja(filas@.take(i as int + 1)) == previa.push(
                        (recortado(filas@[i as int]@[0]@), recortado(filas@[i as int]@[1]@)),
                    ));
                }
            }
        }
        proof {
            if !usable {
                assert(jardines_de_hoja(filas@.take(i as int + 1)) == previa);
            }
        }
        i = i + 1;
    }
    proof {
        assert(filas@.take(filas@.len() as int) =~= filas@);
    }
    r
}

/// Convierte las filas de la hoja de partidas: celdas recortadas, unidad
/// vacía como ausente y precio leído como entero (cero si falta o no es
/// numérico).
fn hoja_a_partidas(filas: &Vec<Vec<String>>) -> (r: Vec<PartidaImportada>)
    ensures
        r@.len() == partidas_de_hoja(filas@).len(),
        forall|k: int|
            0 <= k < r@.len() ==> (#[trigger] r@[k]).item@ == partidas_de_hoja(filas@)[k].0
                && r@[k].partida@ == partidas_de_hoja(filas@)[k].1 && opt_vista(r@[k].unidad)
                == partidas_de_hoja(filas@)[k].2 && r@[k].precio_unitario == partidas_de_hoja(
                filas@,
            )[k].3,
        forall|k: int|
            0 <= k < r@.len() ==> -PRECIO_MAX <= (#[trigger] r@[k]).precio_unitario <= PRECIO_MAX,
{
    let mut r: Vec<PartidaImportada> = Vec::new();
    let mut i: usize = 0;
    while i < filas.len()
        invariant
            i <= filas@.len(),
            r@.len() == partidas_de_hoja(filas@.take(i as int)).len(),
            forall|k: int|
                0 <= k < r@.len() ==> (#[trigger] r@[k]).item@ == partidas_de_hoja(
                    filas@.take(i as int),
                )[k].0 && r@[k].partida@ == partidas_de_hoja(filas@.take(i as int))[k].1
                    && opt_vista(r@[k].unidad) == partidas_de_hoja(filas@.take(i as int))[k].2
                    && r@[k].precio_unitario == partidas_de_hoja(filas@.take(i as int))[k].3,
            forall|k: int|
                0 <= k < r@.len() ==> -PRECIO_MAX <= (#[trigger] r@[k]).precio_unitario
                    <= PRECIO_MAX,
        decreases filas@.len() - i,
    {
        proof {
            assert(filas@.take(i as int + 1).drop_last() =~= filas@.take(i as int));
            assert(filas@.take(i as int + 1).last() == filas@[i as int]);
        }
        let ghost previa = partidas_de_hoja(filas@.take(i as int));
        let fila = &filas[i];
        let mut usable = false;
        if fila.len() >= 2 {
            let item = recortar(fila[0].as_str());
            let partida = recortar(fila[1].as_str());
            if !item.as_str().is_empty() && !partida.as_str().is_empty() {
                usable = true;
                let unidad = if fila.len() > 2 {
                    let u = recortar(fila[2].as_str());
                    if u.as_str().is_empty() {
                        None
                    } else {
                        Some(u)
                    }
                } else {
                    None
                };
                let precio_unitario = if fila.len() > 3 {
                    let p = recortar(fila[3].as_str());
                    texto_a_precio(p.as_str())
                } else {
                    0
                };
                proof {
                    assert(opt_vista(unidad) == (if filas@[i as int]@.len() > 2 && recortado(
                        filas@[i as int]@[2]@,
                    ).len() > 0 {
                        Some(recortado(filas@[i as int]@[2]@))
                    } else {
                        None::<Seq<char>>
                    }));
                }
                r.push(PartidaImportada { item, partida, unidad, precio_unitario });
                proof {
                    assert(partidas_de_hoja(filas@.take(i as int + 1)) == previa.push(
                        (
                            recortado(filas@[i as int]@[0]@),
                            recortado(filas@[i as int]@[1]@),
                            if filas@[i as int]@.len() > 2 && recortado(
                                filas@[i as int]@[2]@,
                            ).len() > 0 {
                                Some(recortado(filas@[i as int]@[2]@))
                            } else {
                                None
                            },
                            if filas@[i as int]@.len() > 3 {
                                precio_de_texto(recortado(filas@[i as int]@[3]@))
                            } else {
                                0
                            },
                        ),
                    ));
                }
            }
        }
        proof {
            if !usable {
                assert(partidas_de_hoja(filas@.take(i as int + 1)) == previa);
            }
        }
        i = i + 1;
    }
    proof {
        assert(filas@.take(filas@.len() as int) =~= filas@);
    }
    r
}

/// Convierte las filas de la hoja de recintos: celdas recortadas, y las filas
/// sin jardín o nombre se pasan por alto.
fn hoja_a_recintos(filas: &Vec<Vec<String>>) -> (r: Vec<RecintoImportado>)
    ensures
        r@.len() == recintos_de_hoja(filas@).len(),
        forall|k: int|
            0 <= k < r@.len() ==> (#[trigger] r@[k]).jardin_codigo@ == recintos_de_hoja(
                filas@,
            )[k].0 && r@[k].nombre@ == recintos_de_hoja(filas@)[k].1,
{
    let mut r: Vec<RecintoImportado> = Vec::new();
    let mut i: usize = 0;
    while i < filas.len()
        invariant
            i <= filas@.len(),
            r@.len() == recintos_de_hoja(filas@.take(i as int)).len(),
            forall|k: int|
                0 <= k < r@.len() ==> (#[trigger] r@[k]).jardin_codigo@ == recintos_de_hoja(
                    filas@.take(i as int),
                )[k].0 && r@[k].nombre@ == recintos_de_hoja(filas@.take(i as int))[k].1,
        decreases filas@.len() - i,
    {
        proof {
            assert(filas@.take(i as int + 1).drop_last() =~= filas@.take(i as int));
            assert(filas@.take(i as int + 1).last() == filas@[i as int]);
        }
        let ghost previa = recintos_de_hoja(filas@.take(i as int));
        let fila = &filas[i];
        let mut usable = false;
        if fila.len() >= 2 {
            let jardin_codigo = recortar(fila[0].as_str());
            let nombre = recortar(fila[1].as_str());
            if !jardin_codigo.as_str().is_empty() && !nombre.as_str().is_empty() {
                usable = true;
                r.push(RecintoImportado { jardin_codigo, nombre });
                proof {
                    assert(recintos_de_hoja(filas@.take(i as int + 1)) == previa.push(
                        (recortado(filas@[i as int]@[0]@), recortado(filas@[i as int]@[1]@)),
                    ));
                }
            }
        }
        proof {
            if !usable {
                assert(recintos_de_hoja(filas@.take(i as int + 1)) == previa);
            }
        }
        i = i + 1;
    }
    proof {
        assert(filas@.take(filas@.len() as int) =~= filas@);
    }
    r
}

impl Almacen {
    /// Importa un catálogo desde una hoja de un libro de cálculo dado en
    /// bytes: la fila de cabecera se descarta y el resto se procesa según el
    /// tipo. Un libro malformado, una hoja ausente o un tipo desconocido
    /// fallan sin cambiar nada.
    pub fn importar_catalogo_xlsx(
        &mut self,
        file_bytes: &Vec<u8>,
        sheet_name: &String,
        tipo: &String,
    ) -> (r: Result<String, String>)
        requires
            old(self).wf(),
            old(self).sig_jardin <= i64::MAX - FILAS_MAX,
            old(self).sig_partida <= i64::MAX - FILAS_MAX,
        ensures
            final(self).wf(),
            match r {
                Ok(resumen) => {
                    &&& celdas_xlsx(file_bytes@, sheet_name@) matches Some(filas)
                    &&& (tipo@ == "jardines"@ || tipo@ == "partidas"@)
                    &&& tipo@ == "jardines"@ ==> {
                        &&& final(self).jardines@ == jardines_cargados(
                            old(self).jardines@,
                            jardines_de_filas(cuerpo_de(filas)),
                            old(self).sig_jardin as int,
                        )
                        &&& final(self).sig_jardin == old(self).sig_jardin + final(self).jardines@.len() - old(self).jardines@.len()
                        &&& *final(self) == (Almacen {
                            jardines: final(self).jardines,
                            sig_jardin: final(self).sig_jardin,
                            ..*old(self)
                        })
                        &&& resumen@ == resumen_catalogo(jardines_de_filas(cuerpo_de(filas)).len())
                    }
                    &&& tipo@ == "partidas"@ ==> {
                        &&& final(self).partidas@ == partidas_cargadas(
                            old(self).partidas@,
                            partidas_de_filas(cuerpo_de(filas)),
                            old(self).sig_partida as int,
                        )
                        &&& final(self).sig_partida == old(self).sig_partida + final(self).partidas@.len() - old(self).partidas@.len()
                        &&& *final(self) == (Almacen {
                            partidas: final(self).partidas,
                            sig_partida: final(self).sig_partida,
                            ..*old(self)
                        })
                        &&& resumen@ == resumen_catalogo(partidas_de_filas(cuerpo_de(filas)).len())
                    }
                },
                Err(_) => (celdas_xlsx(file_bytes@, sheet_name@) is None || (celdas_xlsx(
                    file_bytes@,
                    sheet_name@,
                ) matches Some(f) && f.len() > FILAS_MAX) || !(tipo@ == "jardines"@ || tipo@
                    == "partidas"@)) && *final(self) == *old(self),
            },
    {
        let mut filas = match leer_hoja_xlsx(file_bytes, sheet_name.as_str()) {
            Ok(f) => f,
            Err(e) => {
                return Err(e);
            },
        };
        if filas.len() > FILAS_MAX {
            return Err(String::from_str("demasiadas filas"));
        }
        quitar_cabecera(&mut filas);
        self.importar_catalogo_filas(tipo, &filas)
    }

    /// Importa el catálogo completo desde un libro de cálculo dado en bytes,
    /// con hojas fijas: el catálogo existente se borra y se reemplaza entero
    /// (a diferencia del importador de catálogo por documento, que solo
    /// ignora duplicados), y la hoja de configuración, si trae una fila
    /// usable, actualiza el título, el prefijo correlativo y el contratista.
    /// Un libro que no abre, o filas que repiten código, ítem o par jardín y
    /// nombre, fallan sin cambiar nada.
    pub fn importar_catalogo_xlsx_bytes(&mut self, file_bytes: &Vec<u8>) -> (r: Result<
        ResumenXlsx,
        String,
    >)
        requires
            old(self).wf(),
        ensures
            final(self).wf(),
            match r {
                Ok(res) => {
                    &&& xlsx_abre(file_bytes@)
                    &&& ({
                        let hj = jardines_de_hoja(hoja_cuerpo(file_bytes@, "jardines"@));
                        &&& hj.len() <= FILAS_MAX
                        &&& claves_distintas(hj)
                        &&& final(self).jardines@.len() == hj.len()
                        &&& forall|k: int|
                            0 <= k < hj.len() ==> (#[trigger] final(self).jardines@[k]).id == k + 1
                                && final(self).jardines@[k].codigo@ == hj[k].0 && final(self).jardines@[k].nombre@ == hj[k].1
                        &&& res.jardines as int == hj.len()
                        &&& final(self).sig_jardin == hj.len() + 1
                    })
                    &&& ({
                        let hp = partidas_de_hoja(hoja_cuerpo(file_bytes@, "partidas"@));
                        &&& hp.len() <= FILAS_MAX
                        &&& items_distintos(hp)
                        &&& final(self).partidas@.len() == hp.len()
                        &&& forall|k: int|
                            0 <= k < hp.len() ==> (#[trigger] final(self).partidas@[k]).id == k + 1
                                && final(self).partidas@[k].item@ == hp[k].0 && final(self).partidas@[k].partida@ == hp[k].1 && opt_vista(
                                final(self).partidas@[k].unidad,
                            ) == hp[k].2 && final(self).partidas@[k].precio_unitario == hp[k].3
                        &&& res.partidas as int == hp.len()
                        &&& final(self).sig_partida == hp.len() + 1
                    })
                    &&& ({
                        let hr = recintos_de_hoja(hoja_cuerpo(file_bytes@, "recintos"@));
                        &&& hr.len() <= FILAS_MAX
                        &&& pares_distintos(hr)
                        &&& final(self).recintos@.len() == hr.len()
                        &&& forall|k: int|
                            0 <= k < hr.len() ==> (#[trigger] final(self).recintos@[k]).id == k + 1
                                && final(self).recintos@[k].jardin_codigo@ == hr[k].0 && final(self).recintos@[k].nombre@ == hr[k].1
                        &&& res.recintos as int == hr.len()
                        &&& final(self).sig_recinto == hr.len() + 1
                    })
                    &&& {
                        let hoja = celdas_xlsx(file_bytes@, "configuracion"@);
                        if (hoja matches Some(filas) && filas.len() > 1 && filas[1]@.len() >= 3
                            && recortado(filas[1]@[0]@).len() > 0) {
                            let fila = hoja->Some_0[1];
                            &&& res.contrato
                            &&& final(self).configuracion.titulo@ == recortado(fila@[0]@)
                            &&& final(self).configuracion.prefijo_correlativo@ == recortado(
                                fila@[1]@,
                            )
                            &&& final(self).configuracion.contratista@ == recortado(fila@[2]@)
                            &&& final(self).configuracion.ito_nombre == old(self).configuracion.ito_nombre
                            &&& final(self).configuracion.firma_png == old(self).configuracion.firma_png
                        } else {
                            !res.contrato && final(self).configuracion == old(self).configuracion
                        }
                    }
                    &&& final(self).requerimientos@ == old(self).requerimientos@
                    &&& final(self).ordenes_trabajo@ == old(self).ordenes_trabajo@
                    &&& final(self).informes_pago@ == old(self).informes_pago@
                    &&& final(self).sig_requerimiento == old(self).sig_requerimiento
                    &&& final(self).sig_orden == old(self).sig_orden
                    &&& final(self).sig_informe == old(self).sig_informe
                    &&& final(self).reloj == old(self).reloj
                },
                Err(_) => {
                    &&& *final(self) == *old(self)
                    &&& (!xlsx_abre(file_bytes@) || jardines_de_hoja(
                        hoja_cuerpo(file_bytes@, "jardines"@),
                    ).len() > FILAS_MAX || partidas_de_hoja(
                        hoja_cuerpo(file_bytes@, "partidas"@),
                    ).len() > FILAS_MAX || recintos_de_hoja(
                        hoja_cuerpo(file_bytes@, "recintos"@),
                    ).len() > FILAS_MAX || !claves_distintas(
                        jardines_de_hoja(hoja_cuerpo(file_bytes@, "jardines"@)),
                    ) || !items_distintos(partidas_de_hoja(hoja_cuerpo(file_bytes@, "partidas"@)))
                        || !pares_distintos(
                        recintos_de_hoja(hoja_cuerpo(file_bytes@, "recintos"@)),
                    ))
                },
            },
    {
        if let Err(e) = abrir_xlsx(file_bytes) {
            return Err(e);
        }
        let hoja_jardines = match leer_hoja_xlsx(file_bytes, "jardines") {
            Ok(mut f) => {
                quitar_cabecera(&mut f);
                f
            },
            Err(_) => Vec::new(),
        };
        let hoja_partidas = match leer_hoja_xlsx(file_bytes, "partidas") {
            Ok(mut f) => {
                quitar_cabecera(&mut f);
                f
            },
            Err(_) => Vec::new(),
        };
        let hoja_recintos = match leer_hoja_xlsx(file_bytes, "recintos") {
            Ok(mut f) => {
                quitar_cabecera(&mut f);
                f
            },
            Err(_) => Vec::new(),
        };
        proof {
            assert(hoja_jardines@ =~= hoja_cuerpo(file_bytes@, "jardines"@));
            assert(hoja_partidas@ =~= hoja_cuerpo(file_bytes@, "partidas"@));
            assert(hoja_recintos@ =~= hoja_cuerpo(file_bytes@, "recintos"@));
        }
        let ghost hj = jardines_de_hoja(hoja_cuerpo(file_bytes@, "jardines"@));
        let ghost hp = partidas_de_hoja(hoja_cuerpo(file_bytes@, "partidas"@));
        let ghost hr = recintos_de_hoja(hoja_cuerpo(file_bytes@, "recintos"@));
        let jardines_t = hoja_a_jardines(&hoja_jardines);
        let partidas_t = hoja_a_partidas(&hoja_partidas);
        let recintos_t = hoja_a_recintos(&hoja_recintos);
        proof {
            assert(jardines_t@.len() == hj.len());
            assert(partidas_t@.len() == hp.len());
            assert(recintos_t@.len() == hr.len());
        }
        if jardines_t.len() > FILAS_MAX || partidas_t.len() > FILAS_MAX || recintos_t.len()
            > FILAS_MAX {
            return Err(String::from_str("demasiadas filas"));
        }
        // validar repeticiones antes de borrar el catálogo: la operación es
        // atómica
        let mut i: usize = 0;
        while i < jardines_t.len()
            invariant
                *self == *old(self),
                old(self).wf(),
                i <= jardines_t@.len(),
                hj == jardines_de_hoja(hoja_cuerpo(file_bytes@, "jardines"@)),
                jardines_t@.len() == hj.len(),
                forall|k: int|
                    0 <= k < jardines_t@.len() ==> (#[trigger] jardines_t@[k]).codigo@ == hj[k].0,
                forall|a: int, b: int|
                    0 <= a < b < i ==> jardines_t@[a].codigo@ != jardines_t@[b].codigo@,
            decreases jardines_t@.len() - i,
        {
            let mut j: usize = 0;
            while j < i
                invariant
                    *self == *old(self),
                    old(self).wf(),
                    i < jardines_t@.len(),
                    j <= i,
                    hj == jardines_de_hoja(hoja_cuerpo(file_bytes@, "jardines"@)),
                    jardines_t@.len() == hj.len(),
                    forall|k: int|
                        0 <= k < jardines_t@.len() ==> (#[trigger] jardines_t@[k]).codigo@
                            == hj[k].0,
                    forall|a: int, b: int|
                        0 <= a < b < i ==> jardines_t@[a].codigo@ != jardines_t@[b].codigo@,
                    forall|a: int|
                        0 <= a < j ==> #[trigger] jardines_t@[a].codigo@ != jardines_t@[i as int].codigo@,
                decreases i - j,
            {
                if jardines_t[j].codigo == jardines_t[i].codigo {
                    proof {
                        assert(jardines_t@[j as int].codigo@ == hj[j as int].0);
                        assert(jardines_t@[i as int].codigo@ == hj[i as int].0);
                        assert(hj[j as int].0 == hj[i as int].0);
                        assert(!claves_distintas(hj));
                    }
                    return Err(String::from_str("codigo de jardin repetido"));
                }
                j = j + 1;
            }
            i = i + 1;
        }
        let mut i: usize = 0;
        while i < partidas_t.len()
            invariant
                *self == *old(self),
                old(self).wf(),
                i <= partidas_t@.len(),
                hp == partidas_de_hoja(hoja_cuerpo(file_bytes@, "partidas"@)),
                partidas_t@.len() == hp.len(),
                forall|k: int|
                    0 <= k < partidas_t@.len() ==> (#[trigger] partidas_t@[k]).item@ == hp[k].0,
                forall|a: int, b: int| 0 <= a < b < i ==> partidas_t@[a].item@ != partidas_t@[b].item@,
            decreases partidas_t@.len() - i,
        {
            let mut j: usize = 0;
            while j < i
                invariant
                    *self == *old(self),
                    old(self).wf(),
                    i < partidas_t@.len(),
                    j <= i,
                    hp == partidas_de_hoja(hoja_cuerpo(file_bytes@, "partidas"@)),
                    partidas_t@.len() == hp.len(),
                    forall|k: int|
                        0 <= k < partidas_t@.len() ==> (#[trigger] partidas_t@[k]).item@
                            == hp[k].0,
                    forall|a: int, b: int|
                        0 <= a < b < i ==> partidas_t@[a].item@ != partidas_t@[b].item@,
                    forall|a: int|
                        0 <= a < j ==> #[trigger] partidas_t@[a].item@ != partidas_t@[i as int].item@,
                decreases i - j,
            {
                if partidas_t[j].item == partidas_t[i].item {
                    proof {
                        assert(partidas_t@[j as int].item@ == hp[j as int].0);
                        assert(partidas_t@[i as int].item@ == hp[i as int].0);
                        assert(hp[j as int].0 == hp[i as int].0);
                        assert(!items_distintos(hp));
                    }
                    return Err(String::from_str("item de partida repetido"));
                }
                j = j + 1;
            }
            i = i + 1;
        }
        let mut i: usize = 0;
        while i < recintos_t.len()
            invariant
                *self == *old(self),
                old(self).wf(),
                i <= recintos_t@.len(),
                hr == recintos_de_hoja(hoja_cuerpo(file_bytes@, "recintos"@)),
                recintos_t@.len() == hr.len(),
                forall|k: int|
                    0 <= k < recintos_t@.len() ==> (#[trigger] recintos_t@[k]).jardin_codigo@
                        == hr[k].0 && recintos_t@[k].nombre@ == hr[k].1,
                forall|a: int, b: int|
                    0 <= a < b < i ==> !(recintos_t@[a].jardin_codigo@
                        == recintos_t@[b].jardin_codigo@ && recintos_t@[a].nombre@
                        == recintos_t@[b].nombre@),
            decreases recintos_t@.len() - i,
        {
            let mut j: usize = 0;
            while j < i
                invariant
                    *self == *old(self),
                    old(self).wf(),
                    i < recintos_t@.len(),
                    j <= i,
                    hr == recintos_de_hoja(hoja_cuerpo(file_bytes@, "recintos"@)),
                    recintos_t@.len() == hr.len(),
                    forall|k: int|
                        0 <= k < recintos_t@.len() ==> (#[trigger] recintos_t@[k]).jardin_codigo@
                            == hr[k].0 && recintos_t@[k].nombre@ == hr[k].1,
                    forall|a: int, b: int|
                        0 <= a < b < i ==> !(recintos_t@[a].jardin_codigo@
                            == recintos_t@[b].jardin_codigo@ && recintos_t@[a].nombre@
                            == recintos_t@[b].nombre@),
                    forall|a: int|
                        0 <= a < j ==> !(#[trigger] recintos_t@[a].jardin_codigo@
                            == recintos_t@[i as int].jardin_codigo@ && recintos_t@[a].nombre@
                            == recintos_t@[i as int].nombre@),
                decreases i - j,
            {
                if recintos_t[j].jardin_codigo == recintos_t[i].jardin_codigo && recintos_t[j].nombre
                    == recintos_t[i].nombre {
                    proof {
                        assert(recintos_t@[j as int].jardin_codigo@ == hr[j as int].0
                            && recintos_t@[j as int].nombre@ == hr[j as int].1);
                        assert(recintos_t@[i as int].jardin_codigo@ == hr[i as int].0
                            && recintos_t@[i as int].nombre@ == hr[i as int].1);
                        assert(hr[j as int].0 == hr[i as int].0 && hr[j as int].1 == hr[i as int].1);
                        assert(!pares_distintos(hr));
                    }
                    return Err(String::from_str("recinto repetido"));
                }
                j = j + 1;
            }
            i = i + 1;
        }
        proof {
            assert forall|a: int, b: int| 0 <= a < b < hj.len() implies hj[a].0 != hj[b].0 by {
                assert(jardines_t@[a].codigo@ != jardines_t@[b].codigo@);
                assert(jardines_t@[a].codigo@ == hj[a].0);
                assert(jardines_t@[b].codigo@ == hj[b].0);
            }
            assert(claves_distintas(hj));
            assert forall|a: int, b: int| 0 <= a < b < hp.len() implies hp[a].0 != hp[b].0 by {
                assert(partidas_t@[a].item@ != partidas_t@[b].item@);
                assert(partidas_t@[a].item@ == hp[a].0);
                assert(partidas_t@[b].item@ == hp[b].0);
            }
            assert(items_distintos(hp));
            assert forall|a: int, b: int| 0 <= a < b < hr.len() implies !(hr[a].0 == hr[b].0
                && hr[a].1 == hr[b].1) by {
                assert(!(recintos_t@[a].jardin_codigo@ == recintos_t@[b].jardin_codigo@
                    && recintos_t@[a].nombre@ == recintos_t@[b].nombre@));
                assert(recintos_t@[a].jardin_codigo@ == hr[a].0 && recintos_t@[a].nombre@
                    == hr[a].1);
                assert(recintos_t@[b].jardin_codigo@ == hr[b].0 && recintos_t@[b].nombre@
                    == hr[b].1);
            }
            assert(pares_distintos(hr));
        }
        // borrar el catálogo existente y cargar el nuevo
        self.recintos = Vec::new();
        self.partidas = Vec::new();
        self.jardines = Vec::new();
        self.sig_recinto = 1;
        self.sig_partida = 1;
        self.sig_jardin = 1;
        proof {
            assert(self.recintos@ =~= Seq::<Recinto>::empty());
            assert(self.jardines@ =~= Seq::<Jardin>::empty());
            assert(self.partidas@ =~= Seq::<Partida>::empty());
        }
        self.cargar_jardines(&jardines_t);
        self.cargar_partidas(&partidas_t);
        self.cargar_recintos(&recintos_t);
        proof {
            lema_jardines_cargados_distintos(jardines_t@, 1);
            lema_partidas_cargadas_distintas(partidas_t@, 1);
            assert(self.jardines@ == jardines_cargados(Seq::<Jardin>::empty(), jardines_t@, 1));
            assert(self.partidas@ == partidas_cargadas(Seq::<Partida>::empty(), partidas_t@, 1));
            assert(self.recintos@ =~= Seq::new(
                recintos_t@.len(),
                |i: int| Recinto {
                    id: (1 + i) as i64,
                    jardin_codigo: recintos_t@[i].jardin_codigo,
                    nombre: recintos_t@[i].nombre,
                },
            ));
            assert(forall|k: int|
                0 <= k < hj.len() ==> (#[trigger] self.jardines@[k]).id == k + 1
                    && self.jardines@[k].codigo@ == hj[k].0 && self.jardines@[k].nombre@
                    == hj[k].1);
            assert(forall|k: int|
                0 <= k < hp.len() ==> (#[trigger] self.partidas@[k]).id == k + 1
                    && self.partidas@[k].item@ == hp[k].0 && self.partidas@[k].partida@ == hp[k].1
                    && opt_vista(self.partidas@[k].unidad) == hp[k].2
                    && self.partidas@[k].precio_unitario == hp[k].3);
            assert(forall|k: int|
                0 <= k < hr.len() ==> (#[trigger] self.recintos@[k]).id == k + 1
                    && self.recintos@[k].jardin_codigo@ == hr[k].0 && self.recintos@[k].nombre@
                    == hr[k].1);
        }
        let jardines_cuenta = self.jardines.len() as u64;
        let partidas_cuenta = self.partidas.len() as u64;
        let recintos_cuenta = self.recintos.len() as u64;
        // hoja de configuración: la segunda fila, si es usable
        let mut contrato = false;
        match leer_hoja_xlsx(file_bytes, "configuracion") {
            Ok(filas) => {
                if filas.len() > 1 {
                    let fila = &filas[1];
                    if fila.len() >= 3 {
                        let titulo = recortar(fila[0].as_str());
                        let prefijo = recortar(fila[1].as_str());
                        let contratista = recortar(fila[2].as_str());
                        if !titulo.as_str().is_empty() {
                            self.configuracion.titulo = titulo;
                            self.configuracion.prefijo_correlativo = prefijo;
                            self.configuracion.contratista = contratista;
                            contrato = true;
                        }
                    }
                }
            },
            Err(_) => {},
        }
        Ok(ResumenXlsx {
            jardines: jardines_cuenta,
            partidas: partidas_cuenta,
            recintos: recintos_cuenta,
            contrato,
        })
    }
}


} // verus!
