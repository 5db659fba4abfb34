//! Codificación base64 de la firma: llamadas confiadas al motor estándar.

use vstd::prelude::*;
use base64::Engine as _;

verus! {

/// El texto base64 (alfabeto estándar, con relleno) de unos bytes.
pub uninterp spec fn b64_de(bytes: Seq<u8>) -> Seq<char>;

/// Los bytes que un texto base64 (alfabeto estándar, con relleno) denota, si
/// el texto es válido.
pub uninterp spec fn b64_bytes_de(texto: Seq<char>) -> Option<Seq<u8>>;

/// Se apoya en el `encode` del motor estándar de base64: el resultado depende
/// solo de los bytes.
#[verifier::external_body]
pub(crate) fn codificar_b64(bytes: &Vec<u8>) -> (r: String)
    ensures
        r@ == b64_de(bytes@),
{
    base64::engine::general_purpose::STANDARD.encode(bytes)
}

/// Se apoya en el `decode` del motor estándar de base64: devuelve los bytes
/// exactamente cuando el texto es base64 válido, y el resultado depende solo
/// del texto.
#[verifier::external_body]
pub(crate) fn decodificar_b64(texto: &str) -> (r: Result<Vec<u8>, String>)
    ensures
        match r {
            Ok(b) => b64_bytes_de(texto@) == Some(b@),
            Err(_) => b64_bytes_de(texto@) is None,
        },
{
    base64::engine::general_purpose::STANDARD.decode(texto).map_err(
        |e| format!("Error decodificando base64: {}", e),
    )
}

} // verus!
