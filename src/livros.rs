use crate::erros::ErroBiblioteca;
use crate::externo::novo_id;
use crate::traits::Identificavel;
use vstd::prelude::*;

verus! {

/// Whether a book is on the shelf or out on loan.
#[derive(Debug, Clone, Copy, PartialEq, Eq, Structural)]
pub enum StatusLivro {
    Disponivel,
    Emprestado,
}

/// A catalog item that can be loaned.
#[derive(Debug)]
pub struct Livro {
    pub id: u128,
    pub titulo: String,
    pub autor: String,
    pub ano: u16,
    pub status: StatusLivro,
}

/// The mathematical value of a book.
pub struct LivroV {
    pub id: u128,
    pub titulo: Seq<char>,
    pub autor: Seq<char>,
    pub ano: u16,
    pub status: StatusLivro,
}

impl View for Livro {
    type V = LivroV;

    open spec fn view(&self) -> LivroV {
        LivroV {
            id: self.id,
            titulo: self.titulo@,
            autor: self.autor@,
            ano: self.ano,
            status: self.status,
        }
    }
}

impl Identificavel for Livro {
    open spec fn id_spec(&self) -> u128 {
        self.id
    }

    fn id(&self) -> (r: u128) {
        self.id
    }
}

impl Livro {
    /// A new available book with a freshly drawn identifier.
    pub fn new(titulo: String, autor: String, ano: u16) -> (r: Livro)
        ensures
            r.titulo@ == titulo@,
            r.autor@ == autor@,
            r.ano == ano,
            r.status == StatusLivro::Disponivel,
    {
        let id = novo_id();
        Livro::com_id(id, titulo, autor, ano)
    }

    /// A new available book with the given identifier.
    pub fn com_id(id: u128, titulo: String, autor: String, ano: u16) -> (r: Livro)
        ensures
            r@ == (LivroV { id, titulo: titulo@, autor: autor@, ano, status: StatusLivro::Disponivel }),
    {
        Livro { id, titulo, autor, ano, status: StatusLivro::Disponivel }
    }

    /// Marks the book as loaned; fails if it already is.
    pub fn emprestar(&mut self) -> (r: Result<(), ErroBiblioteca>)
        ensures
            old(self).status == StatusLivro::Disponivel ==> r is Ok
                && final(self)@ == (LivroV { status: StatusLivro::Emprestado, ..old(self)@ }),
            old(self).status == StatusLivro::Emprestado ==> r is Err
                && r->Err_0 is EstadoInvalido && final(self)@ == old(self)@,
    {
        match self.status {
            StatusLivro::Emprestado => Err(
                ErroBiblioteca::EstadoInvalido("Livro já está emprestado!".to_string()),
            ),
            StatusLivro::Disponivel => {
                self.status = StatusLivro::Emprestado;
                Ok(())
            },
        }
    }

    /// Marks the book as available again; fails if it already is.
    pub fn devolver(&mut self) -> (r: Result<(), ErroBiblioteca>)
        ensures
            old(self).status == StatusLivro::Emprestado ==> r is Ok
                && final(self)@ == (LivroV { status: StatusLivro::Disponivel, ..old(self)@ }),
            old(self).status == StatusLivro::Disponivel ==> r is Err
                && r->Err_0 is EstadoInvalido && final(self)@ == old(self)@,
    {
        match self.status {
            StatusLivro::Disponivel => Err(
                ErroBiblioteca::EstadoInvalido("Livro já está disponível!".to_string()),
            ),
            StatusLivro::Emprestado => {
                self.status = StatusLivro::Disponivel;
                Ok(())
            },
        }
    }

    pub fn esta_disponivel(&self) -> (r: bool)
        ensures
            r == (self.status == StatusLivro::Disponivel),
    {
        match self.status {
            StatusLivro::Disponivel => true,
            StatusLivro::Emprestado => false,
        }
    }

    pub fn get_titulo(&self) -> (r: &String)
        ensures
            r@ == self.titulo@,
    {
        &self.titulo
    }

    pub fn get_autor(&self) -> (r: &String)
        ensures
            r@ == self.autor@,
    {
        &self.autor
    }

    pub fn get_ano(&self) -> (r: u16)
        ensures
            r == self.ano,
    {
        self.ano
    }

    /// A copy of the book with equal fields.
    pub fn copia(&self) -> (r: Livro)
        ensures
            r@ == self@,
    {
        Livro {
            id: self.id,
            titulo: self.titulo.clone(),
            autor: self.autor.clone(),
            ano: self.ano,
            status: self.status,
        }
    }
}

} // verus!
