use crate::externo::{dia_de_hoje, novo_id};
use crate::traits::Identificavel;
use vstd::prelude::*;

verus! {

/// Days between the opening of a loan and its due date.
pub const DIAS_DE_PRAZO: i64 = 14;

/// A calendar date as a day number, where 0001-01-01 is day 1.
#[derive(Debug, Clone, Copy, PartialEq, Eq, Structural)]
pub struct Data {
    pub dia: i64,
}

impl Data {
    /// Today's local date.
    pub fn hoje() -> (r: Data)
        ensures
            i32::MIN <= r.dia <= i32::MAX,
    {
        Data { dia: dia_de_hoje() }
    }
}

/// Whether a loan is still open.
#[derive(Debug, Clone, Copy, PartialEq, Eq, Structural)]
pub enum StatusEmprestimo {
    Ativo,
    Devolvido,
}

/// A borrowing of one book by one patron. The due date is fixed when the
/// loan opens; the return date is recorded when it closes.
#[derive(Debug, Clone, Copy, PartialEq, Eq, Structural)]
pub struct Emprestimo {
    pub id_emprestimo: u128,
    pub id_livro: u128,
    pub id_usuario: u128,
    pub data_emprestimo: Data,
    pub data_prevista: Data,
    pub data_devolucao: Option<Data>,
    pub status: StatusEmprestimo,
}

/// The loan opened under `id` on `hoje`.
pub open spec fn emprestimo_aberto(id: u128, id_usuario: u128, id_livro: u128, hoje: Data) -> Emprestimo {
    Emprestimo {
        id_emprestimo: id,
        id_livro,
        id_usuario,
        data_emprestimo: hoje,
        data_prevista: Data { dia: (hoje.dia + DIAS_DE_PRAZO) as i64 },
        data_devolucao: None,
        status: StatusEmprestimo::Ativo,
    }
}

impl Identificavel for Emprestimo {
    open spec fn id_spec(&self) -> u128 {
        self.id_emprestimo
    }

    fn id(&self) -> (r: u128) {
        self.id_emprestimo
    }
}

impl Emprestimo {
    /// A new active loan dated today, with a freshly drawn identifier.
    pub fn new(id_usuario: u128, id_livro: u128) -> (r: Emprestimo)
        ensures
            r == emprestimo_aberto(r.id_emprestimo, id_usuario, id_livro, r.data_emprestimo),
            i32::MIN <= r.data_emprestimo.dia <= i32::MAX,
            r.data_prevista.dia == r.data_emprestimo.dia + DIAS_DE_PRAZO,
    {
        let id = novo_id();
        let hoje = Data::hoje();
        Emprestimo::com_data(id, id_usuario, id_livro, hoje)
    }

    /// A new active loan opened on `hoje`, due after the loan period.
    pub fn com_data(id: u128, id_usuario: u128, id_livro: u128, hoje: Data) -> (r: Emprestimo)
        requires
            hoje.dia <= i64::MAX - DIAS_DE_PRAZO,
        ensures
            r == emprestimo_aberto(id, id_usuario, id_livro, hoje),
            r.data_prevista.dia == hoje.dia + DIAS_DE_PRAZO,
    {
        Emprestimo {
            id_emprestimo: id,
            id_livro,
            id_usuario,
            data_emprestimo: hoje,
            data_prevista: Data { dia: hoje.dia + DIAS_DE_PRAZO },
            data_devolucao: None,
            status: StatusEmprestimo::Ativo,
        }
    }

    /// The actual return date, once the loan is closed.
    pub fn get_data_devolucao(&self) -> (r: Option<Data>)
        ensures
            r == self.data_devolucao,
    {
        self.data_devolucao
    }

    /// The due date fixed when the loan opened.
    pub fn get_data_prevista(&self) -> (r: Data)
        ensures
            r == self.data_prevista,
    {
        self.data_prevista
    }

    pub fn get_id_livro(&self) -> (r: u128)
        ensures
            r == self.id_livro,
    {
        self.id_livro
    }

    pub fn get_id_usuario(&self) -> (r: u128)
        ensures
            r == self.id_usuario,
    {
        self.id_usuario
    }
}

} // verus!
