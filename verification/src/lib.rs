//! Motor de ciclo de vida y agregación para mantenimiento de jardines.
//!
//! Requerimientos de trabajo se agrupan en órdenes de trabajo y luego en
//! informes de pago con totales calculados. El almacén en memoria mantiene
//! las invariantes: cada requerimiento pertenece a lo más a una orden y a
//! lo más a un informe, su estado refleja exactamente sus vínculos, y los
//! códigos correlativos por jardín nunca se repiten dentro de su alcance.

pub mod almacen;
pub mod codificacion;
pub mod configuracion;
pub mod correlativo;
pub mod importacion;
pub mod informes;
pub mod instantanea;
pub mod json;
pub mod ordenes;
pub mod requerimientos;
pub mod secuencias;
pub mod vistas;
pub mod entidades;
pub mod numeros;
pub mod planilla;
