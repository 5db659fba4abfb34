//! Generador de códigos correlativos: dentro de un alcance (tipo de entidad,
//! jardín y prefijo configurado) el siguiente código lleva el número uno más
//! que el máximo de los números ya usados en ese alcance exacto.

use vstd::prelude::*;
use crate::numeros::{
    prefijo_numerico, relleno3, relleno2, digitos, lema_lectura_acotada, lema_lectura_rellena,
    valor_sufijo, entero_a_texto3, entero_a_texto2, TOPE_CORRELATIVO,
};
use crate::entidades::{OrdenTrabajo, InformePago};
use crate::almacen::Almacen;

verus! {

/// Si un texto comienza con el patrón dado.
pub open spec fn empieza_con(s: Seq<char>, patron: Seq<char>) -> bool {
    s.len() >= patron.len() && s.subrange(0, patron.len() as int) == patron
}

/// El número que un código usa dentro del alcance de un patrón: el prefijo
/// numérico de lo que sigue al patrón.
pub open spec fn sufijo_numerico(s: Seq<char>, patron: Seq<char>) -> nat {
    prefijo_numerico(s.skip(patron.len() as int))
}

/// El máximo número usado por los códigos que caen en el alcance del patrón;
/// cero si ninguno cae.
pub open spec fn maximo_sufijo(codigos: Seq<Seq<char>>, patron: Seq<char>) -> nat
    decreases codigos.len(),
{
    if codigos.len() == 0 {
        0
    } else {
        let resto = maximo_sufijo(codigos.drop_last(), patron);
        if empieza_con(codigos.last(), patron) && sufijo_numerico(codigos.last(), patron) > resto {
            sufijo_numerico(codigos.last(), patron)
        } else {
            resto
        }
    }
}

/// Los códigos de una secuencia de órdenes de trabajo.
pub open spec fn codigos_ordenes(s: Seq<OrdenTrabajo>) -> Seq<Seq<char>> {
    s.map_values(|o: OrdenTrabajo| o.codigo@)
}

/// Los códigos de una secuencia de informes de pago.
pub open spec fn codigos_informes(s: Seq<InformePago>) -> Seq<Seq<char>> {
    s.map_values(|o: InformePago| o.codigo@)
}

/// El sufijo numérico nunca excede el tope de lectura.
pub proof fn lema_sufijo_acotado(s: Seq<char>, patron: Seq<char>)
    ensures
        sufijo_numerico(s, patron) <= TOPE_CORRELATIVO,
{
    lema_lectura_acotada(s.skip(patron.len() as int), 0);
}

/// El máximo del alcance acota el sufijo de cada código que cae en él, y no
/// excede el tope de lectura.
pub proof fn lema_maximo_es_cota(codigos: Seq<Seq<char>>, patron: Seq<char>)
    ensures
        forall|i: int|
            0 <= i < codigos.len() && empieza_con(#[trigger] codigos[i], patron) ==> sufijo_numerico(
                codigos[i],
                patron,
            ) <= maximo_sufijo(codigos, patron),
        maximo_sufijo(codigos, patron) <= TOPE_CORRELATIVO,
    decreases codigos.len(),
{
    if codigos.len() == 0 {
    } else {
        lema_maximo_es_cota(codigos.drop_last(), patron);
        lema_sufijo_acotado(codigos.last(), patron);
        assert(forall|i: int|
            0 <= i < codigos.len() - 1 ==> codigos.drop_last()[i] == #[trigger] codigos[i]);
    }
}

/// El código formado por el patrón seguido de una escritura rellenada cae en
/// el alcance del patrón y usa exactamente el número escrito.
pub proof fn lema_codigo_generado(patron: Seq<char>, escritura: Seq<char>, n: nat)
    requires
        n <= TOPE_CORRELATIVO,
        escritura == relleno3(n) || escritura == relleno2(n) || escritura == digitos(n),
    ensures
        empieza_con(patron + escritura, patron),
        sufijo_numerico(patron + escritura, patron) == n,
{
    let codigo = patron + escritura;
    assert(codigo.subrange(0, patron.len() as int) =~= patron);
    assert(codigo.skip(patron.len() as int) =~= escritura);
    assert(escritura =~= escritura + Seq::<char>::empty());
    lema_lectura_rellena(escritura, n, Seq::<char>::empty());
}

/// Ley del generador correlativo: con `n` el número que sigue al máximo del
/// alcance, el código generado usa un número estrictamente mayor que el de
/// todo código existente del alcance, no coincide con ningún código
/// existente (los números borrados nunca se reexpiden mientras el máximo
/// sobreviva), y el nuevo máximo del alcance es exactamente `n`: los números
/// crecen de uno en uno, sin huecos ni repeticiones.
pub proof fn lema_correlativo_sin_repeticion(
    codigos: Seq<Seq<char>>,
    patron: Seq<char>,
    escritura: Seq<char>,
)
    requires
        maximo_sufijo(codigos, patron) < TOPE_CORRELATIVO,
        escritura == relleno3((maximo_sufijo(codigos, patron) + 1) as nat) || escritura == relleno2(
            (maximo_sufijo(codigos, patron) + 1) as nat,
        ) || escritura == digitos((maximo_sufijo(codigos, patron) + 1) as nat),
    ensures
        forall|i: int|
            0 <= i < codigos.len() && empieza_con(#[trigger] codigos[i], patron) ==> sufijo_numerico(
                codigos[i],
                patron,
            ) < sufijo_numerico(patron + escritura, patron),
        forall|i: int| 0 <= i < codigos.len() ==> #[trigger] codigos[i] != patron + escritura,
        maximo_sufijo(codigos.push(patron + escritura), patron) == maximo_sufijo(codigos, patron)
            + 1,
{
    let n = (maximo_sufijo(codigos, patron) + 1) as nat;
    let nuevo = patron + escritura;
    lema_maximo_es_cota(codigos, patron);
    lema_codigo_generado(patron, escritura, n);
    assert forall|i: int| 0 <= i < codigos.len() implies #[trigger] codigos[i] != nuevo by {
        if codigos[i] == nuevo {
            assert(empieza_con(codigos[i], patron));
            assert(sufijo_numerico(codigos[i], patron) == n);
        }
    }
    let ampliado = codigos.push(nuevo);
    assert(ampliado.drop_last() =~= codigos);
    assert(ampliado.last() == nuevo);
}

/// Si un texto comienza con el patrón dado.
pub fn empieza_con_texto(s: &str, patron: &str) -> (r: bool)
    ensures
        r == empieza_con(s@, patron@),
{
    let largo_s = s.unicode_len();
    let largo_p = patron.unicode_len();
    if largo_s < largo_p {
        return false;
    }
    let mut i: usize = 0;
    while i < largo_p
        invariant
            largo_s == s@.len(),
            largo_p == patron@.len(),
            largo_p <= largo_s,
            i <= largo_p,
            forall|k: int| 0 <= k < i ==> s@[k] == patron@[k],
        decreases largo_p - i,
    {
        if s.get_char(i) != patron.get_char(i) {
            proof {
                assert(s@.subrange(0, patron@.len() as int)[i as int] != patron@[i as int]);
            }
            return false;
        }
        i = i + 1;
    }
    proof {
        assert(s@.subrange(0, patron@.len() as int) =~= patron@);
    }
    true
}

impl Almacen {
    /// El máximo número usado por las órdenes de trabajo cuyo código cae en
    /// el alcance del patrón.
    pub fn maximo_correlativo_ot(&self, patron: &String) -> (m: u64)
        ensures
            m as nat == maximo_sufijo(codigos_ordenes(self.ordenes_trabajo@), patron@),
    {
        let mut m: u64 = 0;
        let mut i: usize = 0;
        while i < self.ordenes_trabajo.len()
            invariant
                i <= self.ordenes_trabajo@.len(),
                m as nat == maximo_sufijo(
                    codigos_ordenes(self.ordenes_trabajo@.take(i as int)),
                    patron@,
                ),
            decreases self.ordenes_trabajo@.len() - i,
        {
            let codigo = &self.ordenes_trabajo[i].codigo;
            proof {
                let parte = codigos_ordenes(self.ordenes_trabajo@.take(i as int + 1));
                assert(parte.drop_last() =~= codigos_ordenes(self.ordenes_trabajo@.take(i as int)));
                assert(parte.last() == codigo@);
            }
            if empieza_con_texto(codigo.as_str(), patron.as_str()) {
                let v = valor_sufijo(codigo.as_str(), patron.unicode_len());
                if v > m {
                    m = v;
                }
            }
            i = i + 1;
        }
        proof {
            assert(self.ordenes_trabajo@.take(self.ordenes_trabajo@.len() as int)
                =~= self.ordenes_trabajo@);
        }
        m
    }

    /// El máximo número usado por los informes de pago cuyo código cae en el
    /// alcance del patrón.
    pub fn maximo_correlativo_informe(&self, patron: &String) -> (m: u64)
        ensures
            m as nat == maximo_sufijo(codigos_informes(self.informes_pago@), patron@),
    {
        let mut m: u64 = 0;
        let mut i: usize = 0;
        while i < self.informes_pago.len()
            invariant
                i <= self.informes_pago@.len(),
                m as nat == maximo_sufijo(
                    codigos_informes(self.informes_pago@.take(i as int)),
                    patron@,
                ),
            decreases self.informes_pago@.len() - i,
        {
            let codigo = &self.informes_pago[i].codigo;
            proof {
                let parte = codigos_informes(self.informes_pago@.take(i as int + 1));
                assert(parte.drop_last() =~= codigos_informes(self.informes_pago@.take(i as int)));
                assert(parte.last() == codigo@);
            }
            if empieza_con_texto(codigo.as_str(), patron.as_str()) {
                let v = valor_sufijo(codigo.as_str(), patron.unicode_len());
                if v > m {
                    m = v;
                }
            }
            i = i + 1;
        }
        proof {
            assert(self.informes_pago@.take(self.informes_pago@.len() as int)
                =~= self.informes_pago@);
        }
        m
    }
}

/// El patrón de un alcance: el prefijo del tipo de entidad, el código del
/// jardín, un guion y el prefijo configurado.
pub open spec fn patron_de(tipo: Seq<char>, jardin: Seq<char>, prefijo: Seq<char>) -> Seq<char> {
    tipo + jardin + seq!['-'] + prefijo
}

/// Construye el patrón de un alcance como texto.
pub fn construir_patron(tipo: &str, jardin_codigo: &String, prefijo: &String) -> (r: String)
    ensures
        r@ == patron_de(tipo@, jardin_codigo@, prefijo@),
{
    proof {
        reveal_strlit("-");
    }
    let mut r = String::new();
    r.append(tipo);
    r.append(jardin_codigo.as_str());
    r.append("-");
    r.append(prefijo.as_str());
    proof {
        assert("-"@ =~= seq!['-']);
        assert(r@ =~= patron_de(tipo@, jardin_codigo@, prefijo@));
    }
    r
}

/// Concatena el patrón con el número rellenado a tres dígitos.
pub fn codigo_con_numero3(patron: &String, n: u64) -> (r: String)
    ensures
        r@ == patron@ + relleno3(n as nat),
{
    let mut r = patron.clone();
    let texto = entero_a_texto3(n);
    r.append(texto.as_str());
    r
}

/// Concatena el patrón con el número rellenado a dos dígitos.
pub fn codigo_con_numero2(patron: &String, n: u64) -> (r: String)
    ensures
        r@ == patron@ + relleno2(n as nat),
{
    let mut r = patron.clone();
    let texto = entero_a_texto2(n);
    r.append(texto.as_str());
    r
}

} // verus!
