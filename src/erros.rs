use vstd::prelude::*;

verus! {

/// Failures of the library's operations.
#[derive(Debug)]
pub enum ErroBiblioteca {
    /// No book with this identifier.
    LivroNaoEncontrado(u128),
    /// No patron with this identifier.
    UsuarioNaoEncontrado(u128),
    /// No loan with this identifier.
    EmprestimoNaoEncontrado(u128),
    /// The operation is not legal in the entity's current status.
    EstadoInvalido(String),
    /// Stored state could not be read back into a consistent library.
    ErroPersistencia(String),
}

} // verus!
