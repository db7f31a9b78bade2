use crate::externo::novo_id;
use crate::traits::Identificavel;
use vstd::prelude::*;

verus! {

/// A library member who can hold loans.
#[derive(Debug)]
pub struct Usuario {
    pub id: u128,
    pub nome: String,
}

/// The mathematical value of a patron.
pub struct UsuarioV {
    pub id: u128,
    pub nome: Seq<char>,
}

impl View for Usuario {
    type V = UsuarioV;

    open spec fn view(&self) -> UsuarioV {
        UsuarioV { id: self.id, nome: self.nome@ }
    }
}

impl Identificavel for Usuario {
    open spec fn id_spec(&self) -> u128 {
        self.id
    }

    fn id(&self) -> (r: u128) {
        self.id
    }
}

impl Usuario {
    /// A new patron with a freshly drawn identifier.
    pub fn new(nome: String) -> (r: Usuario)
        ensures
            r.nome@ == nome@,
    {
        let id = novo_id();
        Usuario::com_id(id, nome)
    }

    /// A new patron with the given identifier.
    pub fn com_id(id: u128, nome: String) -> (r: Usuario)
        ensures
            r@ == (UsuarioV { id, nome: nome@ }),
    {
        Usuario { id, nome }
    }

    pub fn get_nome(&self) -> (r: String)
        ensures
            r@ == self.nome@,
    {
        self.nome.clone()
    }

    /// A copy of the patron with equal fields.
    pub fn copia(&self) -> (r: Usuario)
        ensures
            r@ == self@,
    {
        Usuario { id: self.id, nome: self.nome.clone() }
    }
}

} // verus!
