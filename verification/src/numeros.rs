//! Representación decimal de enteros como texto, y lectura saturada del
//! prefijo numérico de un texto: la base del generador de códigos
//! correlativos. La lectura satura en `TOPE_CORRELATIVO` en vez de
//! desbordar, así que está definida para cualquier texto.

use vstd::prelude::*;

verus! {

/// Valor en que satura la lectura de un prefijo numérico.
pub const TOPE_CORRELATIVO: u64 = 0x7fff_ffff_ffff_ffff;

/// El carácter decimal de un dígito.
pub open spec fn digito(d: int) -> char {
    if d == 0 {
        '0'
    } else if d == 1 {
        '1'
    } else if d == 2 {
        '2'
    } else if d == 3 {
        '3'
    } else if d == 4 {
        '4'
    } else if d == 5 {
        '5'
    } else if d == 6 {
        '6'
    } else if d == 7 {
        '7'
    } else if d == 8 {
        '8'
    } else {
        '9'
    }
}

/// Si un carácter es un dígito decimal.
pub open spec fn es_digito(c: char) -> bool {
    c == '0' || c == '1' || c == '2' || c == '3' || c == '4' || c == '5' || c == '6' || c == '7'
        || c == '8' || c == '9'
}

/// El valor de un carácter que es dígito decimal.
pub open spec fn valor_digito(c: char) -> int {
    if c == '0' {
        0
    } else if c == '1' {
        1
    } else if c == '2' {
        2
    } else if c == '3' {
        3
    } else if c == '4' {
        4
    } else if c == '5' {
        5
    } else if c == '6' {
        6
    } else if c == '7' {
        7
    } else if c == '8' {
        8
    } else {
        9
    }
}

/// La escritura decimal de un entero no negativo, sin ceros a la izquierda.
pub open spec fn digitos(n: nat) -> Seq<char>
    decreases n,
{
    if n < 10 {
        seq![digito(n as int)]
    } else {
        digitos(n / 10) + seq![digito((n % 10) as int)]
    }
}

/// Escritura decimal rellenada con ceros a la izquierda hasta tres dígitos.
pub open spec fn relleno3(n: nat) -> Seq<char> {
    if n < 10 {
        seq!['0', '0'] + digitos(n)
    } else if n < 100 {
        seq!['0'] + digitos(n)
    } else {
        digitos(n)
    }
}

/// Escritura decimal rellenada con ceros a la izquierda hasta dos dígitos.
pub open spec fn relleno2(n: nat) -> Seq<char> {
    if n < 10 {
        seq!['0'] + digitos(n)
    } else {
        digitos(n)
    }
}

/// Saturación en el tope de lectura.
pub open spec fn saturado(x: nat) -> nat {
    if x > TOPE_CORRELATIVO as nat {
        TOPE_CORRELATIVO as nat
    } else {
        x
    }
}

/// Lectura del prefijo numérico de un texto partiendo del valor `acumulado`:
/// consume dígitos desde el comienzo, saturando en el tope, y se detiene en
/// el primer carácter que no es dígito.
pub open spec fn lectura_desde(s: Seq<char>, acumulado: nat) -> nat
    decreases s.len(),
{
    if s.len() == 0 || !es_digito(s[0]) {
        acumulado
    } else {
        lectura_desde(s.skip(1), saturado((acumulado * 10 + valor_digito(s[0])) as nat))
    }
}

/// El valor del prefijo numérico de un texto: cero si no comienza con un
/// dígito.
pub open spec fn prefijo_numerico(s: Seq<char>) -> nat {
    lectura_desde(s, 0)
}

/// Un paso de lectura sobre un dígito.
proof fn lema_lectura_paso(s: Seq<char>, acumulado: nat)
    requires
        s.len() > 0,
        es_digito(s[0]),
    ensures
        lectura_desde(s, acumulado) == lectura_desde(
            s.skip(1),
            saturado((acumulado * 10 + valor_digito(s[0])) as nat),
        ),
{
}

/// La lectura se detiene ante un texto vacío o que no comienza con dígito.
proof fn lema_lectura_parada(s: Seq<char>, acumulado: nat)
    requires
        s.len() == 0 || !es_digito(s[0]),
    ensures
        lectura_desde(s, acumulado) == acumulado,
{
}

/// La lectura nunca excede el tope cuando parte bajo el tope.
pub proof fn lema_lectura_acotada(s: Seq<char>, acumulado: nat)
    requires
        acumulado <= TOPE_CORRELATIVO,
    ensures
        lectura_desde(s, acumulado) <= TOPE_CORRELATIVO,
    decreases s.len(),
{
    if s.len() != 0 && es_digito(s[0]) {
        lema_lectura_acotada(s.skip(1), saturado((acumulado * 10 + valor_digito(s[0])) as nat));
    }
}

/// Todo carácter de la escritura decimal es un dígito.
pub proof fn lema_digitos_son_digitos(n: nat)
    ensures
        forall|i: int| 0 <= i < digitos(n).len() ==> #[trigger] es_digito(digitos(n)[i]),
    decreases n,
{
    if n < 10 {
        assert(digitos(n)[0] == digito(n as int));
        assert(es_digito(digito(n as int)));
    } else {
        lema_digitos_son_digitos(n / 10);
        let l = digitos(n / 10).len() as int;
        assert forall|i: int| 0 <= i < digitos(n).len() implies #[trigger] es_digito(
            digitos(n)[i],
        ) by {
            if i < l {
                assert(digitos(n)[i] == digitos(n / 10)[i]);
            } else {
                assert(digitos(n)[i] == digito((n % 10) as int));
                assert(es_digito(digito((n % 10) as int)));
            }
        }
    }
}

/// Leer una concatenación es leer la segunda parte partiendo del valor
/// alcanzado tras la primera, cuando la primera es todo dígitos.
proof fn lema_lectura_compuesta(s: Seq<char>, resto: Seq<char>, acumulado: nat)
    requires
        forall|i: int| 0 <= i < s.len() ==> #[trigger] es_digito(s[i]),
    ensures
        lectura_desde(s + resto, acumulado) == lectura_desde(resto, lectura_desde(s, acumulado)),
    decreases s.len(),
{
    if s.len() == 0 {
        assert(s + resto =~= resto);
    } else {
        let paso = saturado((acumulado * 10 + valor_digito(s[0])) as nat);
        assert((s + resto)[0] == s[0]);
        assert((s + resto).skip(1) =~= s.skip(1) + resto);
        assert(forall|i: int|
            0 <= i < s.skip(1).len() ==> #[trigger] es_digito(s.skip(1)[i]));
        lema_lectura_compuesta(s.skip(1), resto, paso);
    }
}

/// Leer la escritura decimal de `n` partiendo de `acumulado` devuelve
/// el acumulado corrido en tantas posiciones decimales más `n`, mientras el
/// resultado no alcance el tope.
proof fn lema_lectura_digitos(n: nat, acumulado: nat)
    requires
        acumulado * vstd::arithmetic::power::pow(10, digitos(n).len() as nat) + n
            <= TOPE_CORRELATIVO,
    ensures
        lectura_desde(digitos(n), acumulado) == acumulado * vstd::arithmetic::power::pow(
            10,
            digitos(n).len() as nat,
        ) + n,
    decreases n,
{
    let p = |k: nat| vstd::arithmetic::power::pow(10, k);
    if n < 10 {
        assert(vstd::arithmetic::power::pow(10, 1) == 10) by {
            vstd::arithmetic::power::lemma_pow1(10);
        }
        assert(digitos(n)[0] == digito(n as int));
        assert(es_digito(digito(n as int)));
        assert(valor_digito(digito(n as int)) == n);
        lema_lectura_paso(digitos(n), acumulado);
        assert(digitos(n).skip(1) =~= Seq::<char>::empty());
        lema_lectura_parada(digitos(n).skip(1), saturado((acumulado * 10 + n) as nat));
        assert(saturado((acumulado * 10 + n) as nat) == acumulado * 10 + n);
    } else {
        let l = digitos(n / 10).len();
        lema_digitos_son_digitos(n / 10);
        assert(digitos(n) =~= digitos(n / 10) + seq![digito((n % 10) as int)]);
        assert(digitos(n).len() == l + 1);
        assert(p((l + 1) as nat) == 10 * p(l)) by {
            vstd::arithmetic::power::lemma_pow_adds(10, 1, l);
            vstd::arithmetic::power::lemma_pow1(10);
        }
        let pl = p(l);
        let q = n / 10;
        let r = n % 10;
        assert(n == q * 10 + r);
        assert(0 <= r <= 9);
        assert((acumulado * pl + q) * 10 + r == acumulado * (10 * pl) + (q * 10 + r))
            by (nonlinear_arith);
        assert(acumulado * pl + q <= TOPE_CORRELATIVO) by (nonlinear_arith)
            requires
                (acumulado * pl + q) * 10 + r <= TOPE_CORRELATIVO,
                r >= 0,
        ;
        lema_lectura_digitos(q, acumulado);
        lema_lectura_compuesta(digitos(q), seq![digito(r as int)], acumulado);
        let alto = (acumulado * pl + q) as nat;
        let unidad = seq![digito(r as int)];
        assert(lectura_desde(unidad, alto) == saturado((alto * 10 + r) as nat)) by {
            assert(unidad[0] == digito(r as int));
            assert(es_digito(digito(r as int)));
            assert(valor_digito(digito(r as int)) == r);
            lema_lectura_paso(unidad, alto);
            assert(unidad.skip(1) =~= Seq::<char>::empty());
            lema_lectura_parada(unidad.skip(1), saturado((alto * 10 + r) as nat));
        }
        assert(saturado((alto * 10 + r) as nat) == alto * 10 + r);
    }
}

/// Leer la escritura decimal exacta de `n` devuelve `n`, para `n` bajo el
/// tope.
pub proof fn lema_lectura_de_digitos(n: nat)
    requires
        n <= TOPE_CORRELATIVO,
    ensures
        prefijo_numerico(digitos(n)) == n,
{
    vstd::arithmetic::power::lemma_pow_positive(10, digitos(n).len() as nat);
    lema_lectura_digitos(n, 0);
}

/// Leer una escritura rellenada con ceros, seguida de cualquier resto que no
/// comience con dígito, devuelve el número escrito, para `n` bajo el tope.
pub proof fn lema_lectura_rellena(escritura: Seq<char>, n: nat, resto: Seq<char>)
    requires
        n <= TOPE_CORRELATIVO,
        escritura == relleno3(n) || escritura == relleno2(n) || escritura == digitos(n),
        resto.len() == 0 || !es_digito(resto[0]),
    ensures
        prefijo_numerico(escritura + resto) == n,
{
    lema_digitos_son_digitos(n);
    assert(forall|i: int|
        0 <= i < escritura.len() ==> #[trigger] es_digito(escritura[i])) by {
        lema_ceros_iniciales_digitos(n);
    }
    lema_lectura_compuesta(escritura, resto, 0);
    assert(lectura_desde(escritura, 0) == n) by {
        lema_lectura_de_digitos(n);
        lema_ceros_iniciales(escritura, n);
    }
}

/// Toda escritura rellenada es todo dígitos.
proof fn lema_ceros_iniciales_digitos(n: nat)
    ensures
        forall|i: int| 0 <= i < relleno3(n).len() ==> #[trigger] es_digito(relleno3(n)[i]),
        forall|i: int| 0 <= i < relleno2(n).len() ==> #[trigger] es_digito(relleno2(n)[i]),
{
    lema_digitos_son_digitos(n);
}

/// Consumir los ceros de relleno deja el acumulado en cero, así que leer una
/// escritura rellenada es leer la escritura sin relleno.
proof fn lema_ceros_iniciales(escritura: Seq<char>, n: nat)
    requires
        escritura == relleno3(n) || escritura == relleno2(n) || escritura == digitos(n),
    ensures
        lectura_desde(escritura, 0) == lectura_desde(digitos(n), 0),
{
    assert(saturado(0) == 0);
    assert(es_digito('0'));
    assert(valor_digito('0') == 0);
    if escritura != digitos(n) && n < 10 {
        assert(escritura[0] == '0');
        lema_lectura_paso(escritura, 0);
        if escritura == relleno3(n) {
            assert(escritura.skip(1) =~= seq!['0'] + digitos(n));
            assert(escritura.skip(1)[0] == '0');
            lema_lectura_paso(escritura.skip(1), 0);
            assert(escritura.skip(1).skip(1) =~= digitos(n));
        } else {
            assert(escritura.skip(1) =~= digitos(n));
        }
    } else if escritura != digitos(n) && n < 100 {
        assert(escritura == relleno3(n));
        assert(escritura[0] == '0');
        lema_lectura_paso(escritura, 0);
        assert(escritura.skip(1) =~= digitos(n));
    } else {
        assert(escritura == digitos(n));
    }
}

/// Texto de un solo dígito decimal.
fn digito_texto(d: u64) -> (r: &'static str)
    requires
        d <= 9,
    ensures
        r@ =~= seq![digito(d as int)],
{
    proof {
        reveal_strlit("0");
        reveal_strlit("1");
        reveal_strlit("2");
        reveal_strlit("3");
        reveal_strlit("4");
        reveal_strlit("5");
        reveal_strlit("6");
        reveal_strlit("7");
        reveal_strlit("8");
        reveal_strlit("9");
    }
    if d == 0 {
        "0"
    } else if d == 1 {
        "1"
    } else if d == 2 {
        "2"
    } else if d == 3 {
        "3"
    } else if d == 4 {
        "4"
    } else if d == 5 {
        "5"
    } else if d == 6 {
        "6"
    } else if d == 7 {
        "7"
    } else if d == 8 {
        "8"
    } else {
        "9"
    }
}

/// La escritura decimal de un entero no negativo, como texto.
pub fn entero_a_texto(n: u64) -> (r: String)
    ensures
        r@ == digitos(n as nat),
    decreases n,
{
    if n < 10 {
        let mut r = String::new();
        r.append(digito_texto(n));
        assert(r@ =~= digitos(n as nat));
        r
    } else {
        let mut r = entero_a_texto(n / 10);
        r.append(digito_texto(n % 10));
        assert(r@ =~= digitos(n as nat));
        r
    }
}

/// La escritura decimal rellenada a tres dígitos, como texto.
pub fn entero_a_texto3(n: u64) -> (r: String)
    ensures
        r@ == relleno3(n as nat),
{
    proof {
        reveal_strlit("00");
        reveal_strlit("0");
    }
    let mut r = String::new();
    if n < 10 {
        r.append("00");
    } else if n < 100 {
        r.append("0");
    }
    let d = entero_a_texto(n);
    r.append(d.as_str());
    proof {
        if n < 10 {
            assert(r@ =~= relleno3(n as nat));
        } else if n < 100 {
            assert(r@ =~= relleno3(n as nat));
        } else {
            assert(r@ =~= relleno3(n as nat));
        }
    }
    r
}

/// La escritura decimal rellenada a dos dígitos, como texto.
pub fn entero_a_texto2(n: u64) -> (r: String)
    ensures
        r@ == relleno2(n as nat),
{
    proof {
        reveal_strlit("0");
    }
    let mut r = String::new();
    if n < 10 {
        r.append("0");
    }
    let d = entero_a_texto(n);
    r.append(d.as_str());
    assert(r@ =~= relleno2(n as nat));
    r
}

/// La escritura decimal de un entero con signo.
pub open spec fn texto_entero(n: int) -> Seq<char> {
    if n >= 0 {
        digitos(n as nat)
    } else {
        seq!['-'] + digitos((-n) as nat)
    }
}

/// La escritura decimal de un entero con signo, como texto.
pub fn texto_i64(n: i64) -> (r: String)
    ensures
        r@ == texto_entero(n as int),
{
    proof {
        reveal_strlit("-");
    }
    if n >= 0 {
        entero_a_texto(n as u64)
    } else {
        let magnitud: u64 = ((-(n + 1)) as u64) + 1;
        proof {
            assert(magnitud as int == -(n as int));
        }
        let mut r = String::from_str("-");
        let texto = entero_a_texto(magnitud);
        r.append(texto.as_str());
        proof {
            assert("-"@ =~= seq!['-']);
            assert(r@ =~= texto_entero(n as int));
        }
        r
    }
}

/// Si un carácter es un dígito decimal.
pub fn es_digito_texto(c: char) -> (r: bool)
    ensures
        r == es_digito(c),
{
    c == '0' || c == '1' || c == '2' || c == '3' || c == '4' || c == '5' || c == '6' || c == '7'
        || c == '8' || c == '9'
}

/// El valor de un carácter que es dígito decimal.
fn valor_digito_texto(c: char) -> (r: u64)
    requires
        es_digito(c),
    ensures
        r as int == valor_digito(c),
{
    if c == '0' {
        0
    } else if c == '1' {
        1
    } else if c == '2' {
        2
    } else if c == '3' {
        3
    } else if c == '4' {
        4
    } else if c == '5' {
        5
    } else if c == '6' {
        6
    } else if c == '7' {
        7
    } else if c == '8' {
        8
    } else {
        9
    }
}

/// El valor del prefijo numérico del texto `s` a partir de la posición
/// `desde` (en caracteres), con lectura saturada.
pub fn valor_sufijo(s: &str, desde: usize) -> (r: u64)
    requires
        desde <= s@.len(),
    ensures
        r as nat == prefijo_numerico(s@.skip(desde as int)),
{
    let largo = s.unicode_len();
    let mut acumulado: u64 = 0;
    let mut i = desde;
    proof {
        assert(lectura_desde(s@.skip(desde as int), 0) == prefijo_numerico(s@.skip(desde as int)));
    }
    while i < largo
        invariant
            desde <= i <= largo,
            largo == s@.len(),
            acumulado <= TOPE_CORRELATIVO,
            lectura_desde(s@.skip(i as int), acumulado as nat) == prefijo_numerico(
                s@.skip(desde as int),
            ),
        decreases largo - i,
    {
        let c = s.get_char(i);
        proof {
            assert(s@.skip(i as int)[0] == s@[i as int]);
        }
        if !es_digito_texto(c) {
            return acumulado;
        }
        let v = valor_digito_texto(c);
        let paso: u128 = acumulado as u128 * 10 + v as u128;
        let nuevo: u64 = if paso > TOPE_CORRELATIVO as u128 {
            TOPE_CORRELATIVO
        } else {
            paso as u64
        };
        proof {
            assert(nuevo as nat == saturado((acumulado as nat * 10 + valor_digito(c)) as nat));
            assert(s@.skip(i as int).skip(1) =~= s@.skip(i as int + 1));
        }
        acumulado = nuevo;
        i = i + 1;
    }
    proof {
        assert(s@.skip(largo as int) =~= Seq::<char>::empty());
    }
    acumulado
}

} // verus!
