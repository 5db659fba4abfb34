//! El registro singleton de configuración del contrato, y la firma del
//! inspector como imagen opaca: se guarda en bytes y sale codificada en
//! base64.

use vstd::prelude::*;
use crate::entidades::{Configuracion, ConfiguracionContrato};
use crate::almacen::Almacen;
use crate::codificacion::{b64_de, b64_bytes_de, codificar_b64, decodificar_b64};
use crate::requerimientos::clonar_opt_texto;

verus! {

impl Almacen {
    /// La configuración tal como la ve el exterior: la firma, si la hay, va
    /// codificada en base64 dentro de un URI de datos.
    pub fn get_configuracion(&self) -> (r: Configuracion)
        ensures
            r.id == 1,
            r.titulo@ == self.configuracion.titulo@,
            r.contratista@ == self.configuracion.contratista@,
            r.prefijo_correlativo@ == self.configuracion.prefijo_correlativo@,
            r.ito_nombre == self.configuracion.ito_nombre,
            match self.configuracion.firma_png {
                Some(bytes) => r.ito_firma_base64 matches Some(texto) && texto@
                    == "data:image/png;base64,"@ + b64_de(bytes@),
                None => r.ito_firma_base64 is None,
            },
    {
        let ito_firma_base64 = match &self.configuracion.firma_png {
            Some(bytes) => {
                let mut texto = String::from_str("data:image/png;base64,");
                let codificada = codificar_b64(bytes);
                texto.append(codificada.as_str());
                Some(texto)
            },
            None => None,
        };
        Configuracion {
            id: 1,
            titulo: self.configuracion.titulo.clone(),
            contratista: self.configuracion.contratista.clone(),
            prefijo_correlativo: self.configuracion.prefijo_correlativo.clone(),
            ito_nombre: clonar_opt_texto(&self.configuracion.ito_nombre),
            ito_firma_base64,
        }
    }

    /// Sobreescribe los campos de texto de la configuración; la firma no se
    /// toca. Siempre tiene éxito.
    pub fn update_configuracion(
        &mut self,
        titulo: String,
        contratista: String,
        prefijo_correlativo: String,
        ito_nombre: Option<String>,
    ) -> (r: Result<(), String>)
        requires
            old(self).wf(),
        ensures
            final(self).wf(),
            r is Ok,
            *final(self) == (Almacen {
                configuracion: (ConfiguracionContrato {
                    titulo: titulo,
                    contratista: contratista,
                    prefijo_correlativo: prefijo_correlativo,
                    ito_nombre: ito_nombre,
                    firma_png: old(self).configuracion.firma_png,
                }),
                ..*old(self)
            }),
    {
        self.configuracion.titulo = titulo;
        self.configuracion.contratista = contratista;
        self.configuracion.prefijo_correlativo = prefijo_correlativo;
        self.configuracion.ito_nombre = ito_nombre;
        Ok(())
    }

    /// Decodifica la imagen base64 y la guarda como firma. Falla, sin cambiar
    /// nada, exactamente cuando el texto no es base64 válido.
    pub fn importar_firma(&mut self, imagen_base64: &String) -> (r: Result<(), String>)
        requires
            old(self).wf(),
        ensures
            final(self).wf(),
            match r {
                Ok(_) => {
                    &&& b64_bytes_de(imagen_base64@) matches Some(bytes)
                    &&& final(self).configuracion.firma_png matches Some(b) && b@ == bytes
                    &&& *final(self) == (Almacen {
                        configuracion: (ConfiguracionContrato {
                            firma_png: final(self).configuracion.firma_png,
                            ..old(self).configuracion
                        }),
                        ..*old(self)
                    })
                },
                Err(_) => b64_bytes_de(imagen_base64@) is None && *final(self) == *old(self),
            },
    {
        let bytes = match decodificar_b64(imagen_base64.as_str()) {
            Ok(b) => b,
            Err(e) => {
                return Err(e);
            },
        };
        self.configuracion.firma_png = Some(bytes);
        Ok(())
    }

    /// La firma almacenada, codificada en base64 (sin URI de datos), si la
    /// hay. Siempre tiene éxito.
    pub fn get_firma(&self) -> (r: Result<Option<String>, String>)
        ensures
            match self.configuracion.firma_png {
                Some(bytes) => r matches Ok(Some(texto)) && texto@ == b64_de(bytes@),
                None => r matches Ok(o) && o is None,
            },
    {
        match &self.configuracion.firma_png {
            Some(bytes) => Ok(Some(codificar_b64(bytes))),
            None => Ok(None),
        }
    }
}

} // verus!
