//! A single-branch library catalog: books, patrons and loans, with the loan
//! state machine and the consistency between book status and active loans.
pub mod biblioteca;
pub mod colecoes;
pub mod emprestimos;
pub mod erros;
pub mod externo;
pub mod livros;
pub mod traits;
pub mod usuarios;
