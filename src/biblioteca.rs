use crate::colecoes::{
    ativo, colecoes_validas, ids_emprestimos, ids_livros, ids_usuarios, indice_emprestimo,
    indice_livro, indice_usuario, lema_mesmos_ids_livros, lema_pos_emprestimo, lema_pos_livro,
    lema_pos_usuario, lema_tem_ativo_push, lema_tem_ativo_update, pos_emprestimo, pos_livro,
    pos_usuario, tem_ativo, tem_emprestimo, tem_livro, tem_usuario, validar, vistas_livros,
    vistas_usuarios,
};
use crate::emprestimos::{emprestimo_aberto, Data, Emprestimo, StatusEmprestimo, DIAS_DE_PRAZO};
use crate::erros::ErroBiblioteca;
use crate::externo::{corresponde, minusculas_de, novo_id};
use crate::livros::{Livro, LivroV, StatusLivro};
use crate::usuarios::{Usuario, UsuarioV};
use vstd::prelude::*;

verus! {

/// The catalog: books, patrons and loans, bound to the path it is saved to.
pub struct Biblioteca {
    livros: Vec<Livro>,
    usuarios: Vec<Usuario>,
    emprestimos: Vec<Emprestimo>,
    caminho_arquivo: String,
}

/// The mathematical value of a catalog.
pub struct BibliotecaV {
    pub livros: Seq<LivroV>,
    pub usuarios: Seq<UsuarioV>,
    pub emprestimos: Seq<Emprestimo>,
    pub caminho: Seq<char>,
}

impl View for Biblioteca {
    type V = BibliotecaV;

    closed spec fn view(&self) -> BibliotecaV {
        BibliotecaV {
            livros: vistas_livros(self.livros@),
            usuarios: vistas_usuarios(self.usuarios@),
            emprestimos: self.emprestimos@,
            caminho: self.caminho_arquivo@,
        }
    }
}

/// A book matches `q` on its author (`por_autor`) or on its title, ignoring
/// case.
pub open spec fn criterio(q: Seq<char>, por_autor: bool) -> spec_fn(LivroV) -> bool {
    |b: LivroV| minusculas_de(if por_autor { b.autor } else { b.titulo }) == minusculas_de(q)
}

impl BibliotecaV {
    /// What loading stored collections under `caminho` yields: the catalog
    /// they make when they are consistent, nothing otherwise.
    pub open spec fn carga(
        caminho: Seq<char>,
        livros: Seq<LivroV>,
        usuarios: Seq<UsuarioV>,
        emprestimos: Seq<Emprestimo>,
    ) -> Option<BibliotecaV> {
        if colecoes_validas(livros, usuarios, emprestimos) {
            Some(BibliotecaV::restaurada(caminho, livros, usuarios, emprestimos))
        } else {
            None
        }
    }

    /// The catalog made of stored collections, bound to `caminho`.
    pub open spec fn restaurada(
        caminho: Seq<char>,
        livros: Seq<LivroV>,
        usuarios: Seq<UsuarioV>,
        emprestimos: Seq<Emprestimo>,
    ) -> BibliotecaV {
        BibliotecaV { livros, usuarios, emprestimos, caminho }
    }

    pub open spec fn bem_formada(self) -> bool {
        colecoes_validas(self.livros, self.usuarios, self.emprestimos)
    }

    /// The empty catalog bound to `caminho`.
    pub open spec fn vazia(caminho: Seq<char>) -> BibliotecaV {
        BibliotecaV {
            livros: Seq::empty(),
            usuarios: Seq::empty(),
            emprestimos: Seq::empty(),
            caminho,
        }
    }

    /// The book `id_livro` is in the catalog and out on loan.
    pub open spec fn livro_emprestado(self, id_livro: u128) -> bool {
        tem_livro(self.livros, id_livro) && self.livros[pos_livro(self.livros, id_livro)].status
            == StatusLivro::Emprestado
    }

    /// The loan `id` is in the catalog and still active.
    pub open spec fn emprestimo_ativo(self, id: u128) -> bool {
        tem_emprestimo(self.emprestimos, id) && ativo(
            self.emprestimos[pos_emprestimo(self.emprestimos, id)],
        )
    }

    pub open spec fn com_livro(self, b: LivroV) -> BibliotecaV {
        BibliotecaV { livros: self.livros.push(b), ..self }
    }

    pub open spec fn com_usuario(self, u: UsuarioV) -> BibliotecaV {
        BibliotecaV { usuarios: self.usuarios.push(u), ..self }
    }

    /// The catalog after the book `id_livro` is lent to `id_usuario` under
    /// the loan `id` on `hoje`.
    pub open spec fn apos_abrir(self, id_livro: u128, id_usuario: u128, id: u128, hoje: Data) -> BibliotecaV {
        let k = pos_livro(self.livros, id_livro);
        BibliotecaV {
            livros: self.livros.update(k, LivroV { status: StatusLivro::Emprestado, ..self.livros[k] }),
            emprestimos: self.emprestimos.push(emprestimo_aberto(id, id_usuario, id_livro, hoje)),
            ..self
        }
    }

    /// The catalog after the loan `id` is closed on `hoje`.
    pub open spec fn apos_fechar(self, id: u128, hoje: Data) -> BibliotecaV {
        let i = pos_emprestimo(self.emprestimos, id);
        let e = self.emprestimos[i];
        let k = pos_livro(self.livros, e.id_livro);
        BibliotecaV {
            livros: self.livros.update(k, LivroV { status: StatusLivro::Disponivel, ..self.livros[k] }),
            emprestimos: self.emprestimos.update(
                i,
                Emprestimo { status: StatusEmprestimo::Devolvido, data_devolucao: Some(hoje), ..e },
            ),
            ..self
        }
    }
}

impl Biblioteca {
    pub open spec fn bem_formada(&self) -> bool {
        self@.bem_formada()
    }

    /// An empty catalog bound to `caminho`.
    pub fn nova(caminho: String) -> (r: Biblioteca)
        ensures
            r@ == BibliotecaV::vazia(caminho@),
            r.bem_formada(),
    {
        let r = Biblioteca {
            livros: Vec::new(),
            usuarios: Vec::new(),
            emprestimos: Vec::new(),
            caminho_arquivo: caminho,
        };
        assert(r@.livros =~= Seq::empty());
        assert(r@.usuarios =~= Seq::empty());
        r
    }

    /// Adds an available book under the identifier `id`; fails, changing
    /// nothing, when a book already has that identifier.
    pub fn adicionar_livro_com_id(&mut self, id: u128, titulo: String, autor: String, ano: u16) -> (r:
        Result<u128, ErroBiblioteca>)
        requires
            old(self).bem_formada(),
        ensures
            final(self).bem_formada(),
            !tem_livro(old(self)@.livros, id) ==> r == Ok::<u128, ErroBiblioteca>(id)
                && final(self)@ == old(self)@.com_livro(
                LivroV { id, titulo: titulo@, autor: autor@, ano, status: StatusLivro::Disponivel },
            ),
            tem_livro(old(self)@.livros, id) ==> r is Err && r->Err_0 is EstadoInvalido
                && final(self)@ == old(self)@,
    {
        match indice_livro(&self.livros, id) {
            Some(k) => {
                proof {
                    assert(self@.livros[k as int] == self.livros@[k as int]@);
                    assert(self.livros@[k as int].id == id);
                    assert(self@.livros[k as int].id == id);
                    assert(tem_livro(self@.livros, id));
                }
                Err(ErroBiblioteca::EstadoInvalido("Identificador de livro já em uso".to_string()))
            },
            None => {
                let ghost antes = self@;
                let livro = Livro::com_id(id, titulo, autor, ano);
                self.livros.push(livro);
                proof {
                    let l = self@.livros;
                    assert(l =~= antes.livros.push(livro@));
                    assert(self@ == antes.com_livro(livro@));
                    assert(ids_livros(l) =~= ids_livros(antes.livros).push(id));
                    assert forall|x: u128| tem_livro(antes.livros, x) implies tem_livro(l, x) by {
                        let k = choose|k: int| 0 <= k < antes.livros.len() && #[trigger] antes.livros[k].id == x;
                        assert(l[k] == antes.livros[k]);
                    }
                    assert forall|k: int| 0 <= k < l.len() implies ((#[trigger] l[k].status
                        == StatusLivro::Emprestado) <==> tem_ativo(antes.emprestimos, l[k].id)) by {
                        if k == antes.livros.len() {
                            if tem_ativo(antes.emprestimos, id) {
                                let i = choose|i: int| 0 <= i < antes.emprestimos.len() && ativo(#[trigger] antes.emprestimos[i]) && antes.emprestimos[i].id_livro == id;
                                assert(tem_livro(antes.livros, antes.emprestimos[i].id_livro));
                            }
                        } else {
                            assert(l[k] == antes.livros[k]);
                        }
                    }
                }
                Ok(id)
            },
        }
    }

    /// Adds a patron under the identifier `id`; fails, changing nothing,
    /// when a patron already has that identifier.
    pub fn adicionar_usuario_com_id(&mut self, id: u128, nome: String) -> (r: Result<u128, ErroBiblioteca>)
        requires
            old(self).bem_formada(),
        ensures
            final(self).bem_formada(),
            !tem_usuario(old(self)@.usuarios, id) ==> r == Ok::<u128, ErroBiblioteca>(id)
                && final(self)@ == old(self)@.com_usuario(UsuarioV { id, nome: nome@ }),
            tem_usuario(old(self)@.usuarios, id) ==> r is Err && r->Err_0 is EstadoInvalido
                && final(self)@ == old(self)@,
    {
        match indice_usuario(&self.usuarios, id) {
            Some(k) => {
                proof {
                    assert(self@.usuarios[k as int] == self.usuarios@[k as int]@);
                    assert(self@.usuarios[k as int].id == id);
                    assert(tem_usuario(self@.usuarios, id));
                }
                Err(ErroBiblioteca::EstadoInvalido("Identificador de usuário já em uso".to_string()))
            },
            None => {
                let ghost antes = self@;
                let usuario = Usuario::com_id(id, nome);
                self.usuarios.push(usuario);
                proof {
                    let u = self@.usuarios;
                    assert(u =~= antes.usuarios.push(usuario@));
                    assert(self@ == antes.com_usuario(usuario@));
                    assert(ids_usuarios(u) =~= ids_usuarios(antes.usuarios).push(id));
                    assert forall|x: u128| tem_usuario(antes.usuarios, x) implies tem_usuario(u, x) by {
                        let k = choose|k: int| 0 <= k < antes.usuarios.len() && #[trigger] antes.usuarios[k].id == x;
                        assert(u[k] == antes.usuarios[k]);
                    }
                }
                Ok(id)
            },
        }
    }

    /// Lends the book `id_livro` to the patron `id_usuario` under the loan
    /// identifier `id`, dated `hoje`. The book's state is checked before the
    /// patron, so a loaned book is refused whoever asks for it.
    pub fn abrir_emprestimo(&mut self, id_livro: u128, id_usuario: u128, id: u128, hoje: Data) -> (r:
        Result<u128, ErroBiblioteca>)
        requires
            old(self).bem_formada(),
            hoje.dia <= i64::MAX - DIAS_DE_PRAZO,
        ensures
            final(self).bem_formada(),
            !tem_livro(old(self)@.livros, id_livro) ==> r == Err::<u128, ErroBiblioteca>(
                ErroBiblioteca::LivroNaoEncontrado(id_livro),
            ),
            old(self)@.livro_emprestado(id_livro) ==> r is Err && r->Err_0 is EstadoInvalido,
            tem_livro(old(self)@.livros, id_livro) && !old(self)@.livro_emprestado(id_livro)
                && !tem_usuario(old(self)@.usuarios, id_usuario) ==> r == Err::<u128, ErroBiblioteca>(
                ErroBiblioteca::UsuarioNaoEncontrado(id_usuario),
            ),
            tem_livro(old(self)@.livros, id_livro) && !old(self)@.livro_emprestado(id_livro)
                && tem_usuario(old(self)@.usuarios, id_usuario) && tem_emprestimo(
                old(self)@.emprestimos,
                id,
            ) ==> r is Err && r->Err_0 is EstadoInvalido,
            tem_livro(old(self)@.livros, id_livro) && !old(self)@.livro_emprestado(id_livro)
                && tem_usuario(old(self)@.usuarios, id_usuario) && !tem_emprestimo(
                old(self)@.emprestimos,
                id,
            ) ==> r == Ok::<u128, ErroBiblioteca>(id) && final(self)@ == old(self)@.apos_abrir(
                id_livro,
                id_usuario,
                id,
                hoje,
            ),
            r is Err ==> final(self)@ == old(self)@,
    {
        let k = match indice_livro(&self.livros, id_livro) {
            None => {
                return Err(ErroBiblioteca::LivroNaoEncontrado(id_livro));
            },
            Some(k) => k,
        };
        proof {
            assert(self@.livros[k as int] == self.livros@[k as int]@);
            assert(self@.livros[k as int].id == id_livro);
            lema_pos_livro(self@.livros, id_livro, k as int);
        }
        if !self.livros[k].esta_disponivel() {
            return Err(ErroBiblioteca::EstadoInvalido("Livro já está emprestado!".to_string()));
        }
        match indice_usuario(&self.usuarios, id_usuario) {
            None => {
                return Err(ErroBiblioteca::UsuarioNaoEncontrado(id_usuario));
            },
            Some(j) => {
                proof {
                    assert(self@.usuarios[j as int] == self.usuarios@[j as int]@);
                    assert(self@.usuarios[j as int].id == id_usuario);
                }
            },
        }
        match indice_emprestimo(&self.emprestimos, id) {
            Some(_) => {
                return Err(
                    ErroBiblioteca::EstadoInvalido("Identificador de empréstimo já em uso".to_string()),
                );
            },
            None => {},
        }
        let ghost antes = self@;
        let ghost vl = self.livros@;
        self.livros[k].status = StatusLivro::Emprestado;
        let novo = Emprestimo::com_data(id, id_usuario, id_livro, hoje);
        self.emprestimos.push(novo);
        proof {
            let l = self@.livros;
            let ll = antes.livros;
            let e = self@.emprestimos;
            let ee = antes.emprestimos;
            let n = ee.len();
            assert(self.livros@ == vl.update(k as int, self.livros@[k as int]));
            assert(l =~= ll.update(k as int, LivroV { status: StatusLivro::Emprestado, ..ll[k as int] }));
            assert(e =~= ee.push(novo));
            assert(self@ == antes.apos_abrir(id_livro, id_usuario, id, hoje));
            assert(ids_livros(l) =~= ids_livros(ll));
            lema_mesmos_ids_livros(l, ll);
            assert forall|x: int| 0 <= x < n implies ids_emprestimos(ee)[x] != id by {
                assert(ids_emprestimos(ee)[x] == ee[x].id_emprestimo);
            }
            assert(ids_emprestimos(e) =~= ids_emprestimos(ee).push(id));
            assert(ll[k as int].status == StatusLivro::Disponivel);
            assert(!tem_ativo(ee, id_livro));
            assert forall|i: int, j: int|
                #![trigger e[i], e[j]]
                0 <= i < e.len() && 0 <= j < e.len() && ativo(e[i]) && ativo(e[j]) && e[i].id_livro
                    == e[j].id_livro implies i == j by {
                if i < n && j == n {
                    assert(ee[i] == e[i]);
                } else if i == n && j < n {
                    assert(ee[j] == e[j]);
                } else if i < n && j < n {
                    assert(ee[i] == e[i] && ee[j] == e[j]);
                }
            }
            assert forall|i: int| 0 <= i < e.len() implies tem_livro(l, #[trigger] e[i].id_livro)
                && tem_usuario(self@.usuarios, e[i].id_usuario) by {
                if i < n {
                    assert(ee[i] == e[i]);
                }
            }
            assert forall|m: int| 0 <= m < l.len() implies ((#[trigger] l[m].status
                == StatusLivro::Emprestado) <==> tem_ativo(e, l[m].id)) by {
                if m == k {
                    assert(e[n as int] == novo);
                } else {
                    assert(l[m] == ll[m]);
                    assert(ids_livros(ll)[m] == ll[m].id);
                    assert(ids_livros(ll)[k as int] == ll[k as int].id);
                    lema_tem_ativo_push(ee, novo, l[m].id);
                }
            }
            assert forall|i: int| 0 <= i < e.len() implies (ativo(#[trigger] e[i])
                <==> e[i].data_devolucao is None) by {
                if i < n {
                    assert(ee[i] == e[i]);
                }
            }
        }
        Ok(id)
    }

    /// Closes the loan `id`, recording `hoje` as its return date and making
    /// its book available again.
    pub fn fechar_emprestimo(&mut self, id: u128, hoje: Data) -> (r: Result<(), ErroBiblioteca>)
        requires
            old(self).bem_formada(),
        ensures
            final(self).bem_formada(),
            !tem_emprestimo(old(self)@.emprestimos, id) ==> r == Err::<(), ErroBiblioteca>(
                ErroBiblioteca::EmprestimoNaoEncontrado(id),
            ),
            tem_emprestimo(old(self)@.emprestimos, id) && !old(self)@.emprestimo_ativo(id) ==> r is Err
                && r->Err_0 is EstadoInvalido,
            old(self)@.emprestimo_ativo(id) ==> r is Ok && final(self)@ == old(self)@.apos_fechar(id, hoje),
            r is Err ==> final(self)@ == old(self)@,
    {
        let i = match indice_emprestimo(&self.emprestimos, id) {
            None => {
                return Err(ErroBiblioteca::EmprestimoNaoEncontrado(id));
            },
            Some(i) => i,
        };
        proof {
            lema_pos_emprestimo(self@.emprestimos, id, i as int);
        }
        if self.emprestimos[i].status == StatusEmprestimo::Devolvido {
            return Err(ErroBiblioteca::EstadoInvalido("Empréstimo já devolvido!".to_string()));
        }
        let id_livro = self.emprestimos[i].id_livro;
        let k = match indice_livro(&self.livros, id_livro) {
            None => {
                proof {
                    assert(tem_livro(self@.livros, self@.emprestimos[i as int].id_livro));
                }
                return Err(ErroBiblioteca::LivroNaoEncontrado(id_livro));
            },
            Some(k) => k,
        };
        proof {
            assert(self@.livros[k as int] == self.livros@[k as int]@);
            assert(self@.livros[k as int].id == id_livro);
            lema_pos_livro(self@.livros, id_livro, k as int);
        }
        let ghost antes = self@;
        let ghost vl = self.livros@;
        self.livros[k].status = StatusLivro::Disponivel;
        let mut fechado = self.emprestimos[i];
        fechado.status = StatusEmprestimo::Devolvido;
        fechado.data_devolucao = Some(hoje);
        self.emprestimos.set(i, fechado);
        proof {
            let l = self@.livros;
            let ll = antes.livros;
            let e = self@.emprestimos;
            let ee = antes.emprestimos;
            assert(self.livros@ == vl.update(k as int, self.livros@[k as int]));
            assert(l =~= ll.update(k as int, LivroV { status: StatusLivro::Disponivel, ..ll[k as int] }));
            assert(e =~= ee.update(i as int, fechado));
            assert(self@ == antes.apos_fechar(id, hoje));
            assert(ids_livros(l) =~= ids_livros(ll));
            lema_mesmos_ids_livros(l, ll);
            assert(ids_emprestimos(e) =~= ids_emprestimos(ee));
            assert forall|a: int, b: int|
                #![trigger e[a], e[b]]
                0 <= a < e.len() && 0 <= b < e.len() && ativo(e[a]) && ativo(e[b]) && e[a].id_livro
                    == e[b].id_livro implies a == b by {
                assert(ee[a] == e[a] && ee[b] == e[b]);
            }
            assert forall|a: int| 0 <= a < e.len() implies tem_livro(l, #[trigger] e[a].id_livro)
                && tem_usuario(self@.usuarios, e[a].id_usuario) by {
                assert(ee[a].id_livro == e[a].id_livro);
                assert(ee[a].id_usuario == e[a].id_usuario);
            }
            assert forall|a: int| 0 <= a < e.len() implies (ativo(#[trigger] e[a])
                <==> e[a].data_devolucao is None) by {
                if a != i {
                    assert(ee[a] == e[a]);
                }
            }
            assert forall|m: int| 0 <= m < l.len() implies ((#[trigger] l[m].status
                == StatusLivro::Emprestado) <==> tem_ativo(e, l[m].id)) by {
                if m == k {
                    if tem_ativo(e, id_livro) {
                        let j = choose|j: int| 0 <= j < e.len() && ativo(#[trigger] e[j]) && e[j].id_livro == id_livro;
                        assert(ee[j] == e[j]);
                        assert(ee[i as int] == ee[i as int]);
                    }
                } else {
                    assert(l[m] == ll[m]);
                    assert(ids_livros(ll)[m] == ll[m].id);
                    assert(ids_livros(ll)[k as int] == ll[k as int].id);
                    lema_tem_ativo_update(ee, i as int, fechado, l[m].id);
                }
            }
        }
        Ok(())
    }

    /// Adds an available book under a freshly drawn identifier. Fails,
    /// changing nothing, only if that identifier is already a book's.
    pub fn adicionar_livro(&mut self, titulo: String, autor: String, ano: u16) -> (r: Result<
        u128,
        ErroBiblioteca,
    >)
        requires
            old(self).bem_formada(),
        ensures
            final(self).bem_formada(),
            r is Ok ==> final(self)@ == old(self)@.com_livro(
                LivroV {
                    id: r->Ok_0,
                    titulo: titulo@,
                    autor: autor@,
                    ano,
                    status: StatusLivro::Disponivel,
                },
            ),
            r is Err ==> r->Err_0 is EstadoInvalido && final(self)@ == old(self)@,
            r is Err ==> old(self)@.livros.len() > 0,
    {
        let id = novo_id();
        self.adicionar_livro_com_id(id, titulo, autor, ano)
    }

    /// Adds a patron under a freshly drawn identifier. Fails, changing
    /// nothing, only if that identifier is already a patron's.
    pub fn adicionar_usuario(&mut self, nome: String) -> (r: Result<u128, ErroBiblioteca>)
        requires
            old(self).bem_formada(),
        ensures
            final(self).bem_formada(),
            r is Ok ==> final(self)@ == old(self)@.com_usuario(UsuarioV { id: r->Ok_0, nome: nome@ }),
            r is Err ==> r->Err_0 is EstadoInvalido && final(self)@ == old(self)@,
            r is Err ==> old(self)@.usuarios.len() > 0,
    {
        let id = novo_id();
        self.adicionar_usuario_com_id(id, nome)
    }

    /// Lends the book `id_livro` to the patron `id_usuario` today, under a
    /// freshly drawn loan identifier.
    pub fn registrar_emprestimo(&mut self, id_livro: u128, id_usuario: u128) -> (r: Result<
        u128,
        ErroBiblioteca,
    >)
        requires
            old(self).bem_formada(),
        ensures
            final(self).bem_formada(),
            !tem_livro(old(self)@.livros, id_livro) ==> r == Err::<u128, ErroBiblioteca>(
                ErroBiblioteca::LivroNaoEncontrado(id_livro),
            ),
            old(self)@.livro_emprestado(id_livro) ==> r is Err && r->Err_0 is EstadoInvalido,
            tem_livro(old(self)@.livros, id_livro) && !old(self)@.livro_emprestado(id_livro)
                && !tem_usuario(old(self)@.usuarios, id_usuario) ==> r == Err::<u128, ErroBiblioteca>(
                ErroBiblioteca::UsuarioNaoEncontrado(id_usuario),
            ),
            tem_livro(old(self)@.livros, id_livro) && !old(self)@.livro_emprestado(id_livro)
                && tem_usuario(old(self)@.usuarios, id_usuario) && r is Err ==> r->Err_0 is EstadoInvalido
                && old(self)@.emprestimos.len() > 0,
            r is Ok ==> i32::MIN <= final(self)@.emprestimos.last().data_emprestimo.dia <= i32::MAX
                && final(self)@.emprestimos.last().data_prevista.dia
                == final(self)@.emprestimos.last().data_emprestimo.dia + DIAS_DE_PRAZO,
            r is Ok ==> final(self)@ == old(self)@.apos_abrir(
                id_livro,
                id_usuario,
                r->Ok_0,
                final(self)@.emprestimos.last().data_emprestimo,
            ),
            r is Err ==> final(self)@ == old(self)@,
    {
        let id = novo_id();
        let hoje = Data::hoje();
        let r = self.abrir_emprestimo(id_livro, id_usuario, id, hoje);
        proof {
            if r is Ok {
                assert(self@.emprestimos.last() == emprestimo_aberto(id, id_usuario, id_livro, hoje));
            }
        }
        r
    }

    /// Closes the loan `id_emprestimo` today.
    pub fn registrar_devolucao(&mut self, id_emprestimo: u128) -> (r: Result<(), ErroBiblioteca>)
        requires
            old(self).bem_formada(),
        ensures
            final(self).bem_formada(),
            !tem_emprestimo(old(self)@.emprestimos, id_emprestimo) ==> r == Err::<(), ErroBiblioteca>(
                ErroBiblioteca::EmprestimoNaoEncontrado(id_emprestimo),
            ),
            tem_emprestimo(old(self)@.emprestimos, id_emprestimo) && !old(self)@.emprestimo_ativo(
                id_emprestimo,
            ) ==> r is Err && r->Err_0 is EstadoInvalido,
            old(self)@.emprestimo_ativo(id_emprestimo) ==> r is Ok && final(self)@ == old(
                self,
            )@.apos_fechar(
                id_emprestimo,
                final(self)@.emprestimos[pos_emprestimo(
                    old(self)@.emprestimos,
                    id_emprestimo,
                )].data_devolucao->Some_0,
            ),
            r is Err ==> final(self)@ == old(self)@,
    {
        let hoje = Data::hoje();
        self.fechar_emprestimo(id_emprestimo, hoje)
    }

    /// Marks `livro` as loaned and opens a loan of it to `id_usuario`,
    /// dated today; fails, changing nothing, if the book is already loaned.
    pub fn emprestar(livro: &mut Livro, id_usuario: u128, id_livro: u128) -> (r: Result<
        Emprestimo,
        ErroBiblioteca,
    >)
        ensures
            old(livro).status == StatusLivro::Disponivel ==> r is Ok && final(livro)@ == (LivroV {
                status: StatusLivro::Emprestado,
                ..old(livro)@
            }) && r->Ok_0 == emprestimo_aberto(
                r->Ok_0.id_emprestimo,
                id_usuario,
                id_livro,
                r->Ok_0.data_emprestimo,
            ) && i32::MIN <= r->Ok_0.data_emprestimo.dia <= i32::MAX
                && r->Ok_0.data_prevista.dia == r->Ok_0.data_emprestimo.dia + DIAS_DE_PRAZO,
            old(livro).status == StatusLivro::Emprestado ==> r is Err && r->Err_0 is EstadoInvalido
                && final(livro)@ == old(livro)@,
    {
        match livro.emprestar() {
            Err(e) => Err(e),
            Ok(()) => Ok(Emprestimo::new(id_usuario, id_livro)),
        }
    }

    /// The books that match `consulta` on author or title, ignoring case, in
    /// catalog order.
    fn filtrar(&self, consulta: &str, por_autor: bool) -> (r: Vec<Livro>)
        ensures
            vistas_livros(r@) == self@.livros.filter(criterio(consulta@, por_autor)),
    {
        let ghost pred = criterio(consulta@, por_autor);
        let ghost todos = self@.livros;
        let mut r: Vec<Livro> = Vec::new();
        let mut i: usize = 0;
        while i < self.livros.len()
            invariant
                i <= self.livros.len(),
                pred == criterio(consulta@, por_autor),
                todos == self@.livros,
                todos.len() == self.livros.len(),
                vistas_livros(r@) == todos.take(i as int).filter(pred),
            decreases self.livros.len() - i,
        {
            let b = &self.livros[i];
            proof {
                assert(todos[i as int] == b@);
                assert(todos.take(i as int + 1) =~= todos.take(i as int).push(b@));
                todos.take(i as int).lemma_filter_push(b@, pred);
            }
            let acerta = if por_autor {
                corresponde(b.autor.as_str(), consulta)
            } else {
                corresponde(b.titulo.as_str(), consulta)
            };
            if acerta {
                let ghost antes = r@;
                r.push(b.copia());
                assert(vistas_livros(r@) =~= vistas_livros(antes).push(b@));
            }
            i = i + 1;
        }
        assert(todos.take(i as int) =~= todos);
        r
    }

    /// The books whose title equals `titulo`, ignoring case.
    pub fn buscar_livro_por_titulo(&self, titulo: &str) -> (r: Vec<Livro>)
        ensures
            vistas_livros(r@) == self@.livros.filter(criterio(titulo@, false)),
    {
        self.filtrar(titulo, false)
    }

    /// The books whose author equals `autor`, ignoring case.
    pub fn buscar_livro_por_autor(&self, autor: &str) -> (r: Vec<Livro>)
        ensures
            vistas_livros(r@) == self@.livros.filter(criterio(autor@, true)),
    {
        self.filtrar(autor, true)
    }

    pub fn listar_livros(&self) -> (r: &Vec<Livro>)
        ensures
            vistas_livros(r@) == self@.livros,
    {
        &self.livros
    }

    pub fn listar_usuarios(&self) -> (r: &Vec<Usuario>)
        ensures
            vistas_usuarios(r@) == self@.usuarios,
    {
        &self.usuarios
    }

    pub fn listar_emprestimos(&self) -> (r: &Vec<Emprestimo>)
        ensures
            r@ == self@.emprestimos,
    {
        &self.emprestimos
    }

    pub fn caminho_arquivo(&self) -> (r: &String)
        ensures
            r@ == self@.caminho,
    {
        &self.caminho_arquivo
    }

    /// The title of the loan's book and the name of its patron, where the
    /// catalog holds them.
    pub fn exibir_emprestimo(&self, emprestimo: &Emprestimo) -> (r: (Option<String>, Option<String>))
        requires
            self.bem_formada(),
        ensures
            r.0 is Some <==> tem_livro(self@.livros, emprestimo.id_livro),
            r.0 is Some ==> r.0->Some_0@ == self@.livros[pos_livro(
                self@.livros,
                emprestimo.id_livro,
            )].titulo,
            r.1 is Some <==> tem_usuario(self@.usuarios, emprestimo.id_usuario),
            r.1 is Some ==> r.1->Some_0@ == self@.usuarios[pos_usuario(
                self@.usuarios,
                emprestimo.id_usuario,
            )].nome,
    {
        let titulo = match indice_livro(&self.livros, emprestimo.id_livro) {
            None => None,
            Some(k) => {
                proof {
                    assert(self@.livros[k as int] == self.livros@[k as int]@);
                    assert(self@.livros[k as int].id == emprestimo.id_livro);
                    lema_pos_livro(self@.livros, emprestimo.id_livro, k as int);
                }
                Some(self.livros[k].titulo.clone())
            },
        };
        let nome = match indice_usuario(&self.usuarios, emprestimo.id_usuario) {
            None => None,
            Some(j) => {
                proof {
                    assert(self@.usuarios[j as int] == self.usuarios@[j as int]@);
                    assert(self@.usuarios[j as int].id == emprestimo.id_usuario);
                    lema_pos_usuario(self@.usuarios, emprestimo.id_usuario, j as int);
                }
                Some(self.usuarios[j].nome.clone())
            },
        };
        (titulo, nome)
    }

    /// The catalog bound to `caminho`: empty when nothing is stored there
    /// (`dados` is `None`), else made of the stored books, patrons and
    /// loans, which must form a consistent catalog.
    pub fn carregar(
        caminho: String,
        dados: Option<(Vec<Livro>, Vec<Usuario>, Vec<Emprestimo>)>,
    ) -> (r: Result<Biblioteca, ErroBiblioteca>)
        ensures
            dados is None ==> r is Ok && r->Ok_0@ == BibliotecaV::vazia(caminho@),
            dados is Some ==> (r is Ok <==> BibliotecaV::carga(
                caminho@,
                vistas_livros(dados->Some_0.0@),
                vistas_usuarios(dados->Some_0.1@),
                dados->Some_0.2@,
            ) is Some),
            dados is Some && r is Ok ==> Some(r->Ok_0@) == BibliotecaV::carga(
                caminho@,
                vistas_livros(dados->Some_0.0@),
                vistas_usuarios(dados->Some_0.1@),
                dados->Some_0.2@,
            ),
            r is Ok ==> r->Ok_0.bem_formada(),
            r is Err ==> r->Err_0 is ErroPersistencia,
    {
        match dados {
            None => Ok(Biblioteca::nova(caminho)),
            Some((livros, usuarios, emprestimos)) => {
                if validar(&livros, &usuarios, &emprestimos) {
                    Ok(Biblioteca { livros, usuarios, emprestimos, caminho_arquivo: caminho })
                } else {
                    Err(
                        ErroBiblioteca::ErroPersistencia(
                            "Os dados gravados não formam um acervo coerente".to_string(),
                        ),
                    )
                }
            },
        }
    }

    /// Copies of the books, patrons and loans, in catalog order: what is
    /// stored when the catalog is saved.
    pub fn para_persistencia(&self) -> (r: (Vec<Livro>, Vec<Usuario>, Vec<Emprestimo>))
        ensures
            vistas_livros(r.0@) == self@.livros,
            vistas_usuarios(r.1@) == self@.usuarios,
            r.2@ == self@.emprestimos,
    {
        let mut livros: Vec<Livro> = Vec::new();
        let mut i: usize = 0;
        while i < self.livros.len()
            invariant
                i <= self.livros.len(),
                vistas_livros(livros@) == vistas_livros(self.livros@).take(i as int),
            decreases self.livros.len() - i,
        {
            let ghost antes = livros@;
            let c = self.livros[i].copia();
            livros.push(c);
            assert(vistas_livros(livros@) =~= vistas_livros(antes).push(c@));
            i = i + 1;
            assert(vistas_livros(livros@) =~= vistas_livros(self.livros@).take(i as int));
        }
        assert(vistas_livros(self.livros@).take(i as int) =~= vistas_livros(self.livros@));
        let mut usuarios: Vec<Usuario> = Vec::new();
        let mut j: usize = 0;
        while j < self.usuarios.len()
            invariant
                j <= self.usuarios.len(),
                vistas_usuarios(usuarios@) == vistas_usuarios(self.usuarios@).take(j as int),
            decreases self.usuarios.len() - j,
        {
            let ghost antes = usuarios@;
            let c = self.usuarios[j].copia();
            usuarios.push(c);
            assert(vistas_usuarios(usuarios@) =~= vistas_usuarios(antes).push(c@));
            j = j + 1;
            assert(vistas_usuarios(usuarios@) =~= vistas_usuarios(self.usuarios@).take(j as int));
        }
        assert(vistas_usuarios(self.usuarios@).take(j as int) =~= vistas_usuarios(self.usuarios@));
        let mut emprestimos: Vec<Emprestimo> = Vec::new();
        let mut k: usize = 0;
        while k < self.emprestimos.len()
            invariant
                k <= self.emprestimos.len(),
                emprestimos@ == self.emprestimos@.take(k as int),
            decreases self.emprestimos.len() - k,
        {
            emprestimos.push(self.emprestimos[k]);
            k = k + 1;
            assert(emprestimos@ =~= self.emprestimos@.take(k as int));
        }
        assert(self.emprestimos@.take(k as int) =~= self.emprestimos@);
        (livros, usuarios, emprestimos)
    }
}

/// The loan at `i` is active, references the book `x`, and is the only
/// active loan that does.
pub open spec fn unico_ativo(e: Seq<Emprestimo>, x: u128, i: int) -> bool {
    &&& 0 <= i < e.len()
    &&& ativo(e[i])
    &&& e[i].id_livro == x
    &&& forall|j: int| 0 <= j < e.len() && ativo(#[trigger] e[j]) && e[j].id_livro == x ==> j == i
}

/// In a consistent catalog a book is loaned exactly when exactly one active
/// loan references it.
pub proof fn lema_emprestado_sse_um_ativo(b: BibliotecaV, k: int)
    requires
        b.bem_formada(),
        0 <= k < b.livros.len(),
    ensures
        (b.livros[k].status == StatusLivro::Emprestado) <==> exists|i: int|
            unico_ativo(b.emprestimos, b.livros[k].id, i),
{
    let e = b.emprestimos;
    let x = b.livros[k].id;
    assert((b.livros[k].status == StatusLivro::Emprestado) <==> tem_ativo(e, x));
    if tem_ativo(e, x) {
        let i = choose|i: int| 0 <= i < e.len() && ativo(#[trigger] e[i]) && e[i].id_livro == x;
        assert forall|j: int| 0 <= j < e.len() && ativo(#[trigger] e[j]) && e[j].id_livro == x implies j == i by {
            assert(ativo(e[i]) && ativo(e[j]));
        }
        assert(unico_ativo(e, x, i));
    }
    if exists|i: int| unico_ativo(e, x, i) {
        let i = choose|i: int| unico_ativo(e, x, i);
        assert(ativo(e[i]));
    }
}

/// Closing an active loan leaves it closed with that return date, so that
/// a second close is refused and the recorded date stays.
pub proof fn lema_devolucao_dupla(b: BibliotecaV, id: u128, hoje: Data)
    requires
        b.bem_formada(),
        b.emprestimo_ativo(id),
    ensures
        tem_emprestimo(b.apos_fechar(id, hoje).emprestimos, id),
        !b.apos_fechar(id, hoje).emprestimo_ativo(id),
        b.apos_fechar(id, hoje).emprestimos[pos_emprestimo(b.apos_fechar(id, hoje).emprestimos, id)].data_devolucao
            == Some(hoje),
{
    let c = b.apos_fechar(id, hoje);
    let i = pos_emprestimo(b.emprestimos, id);
    assert(ids_emprestimos(c.emprestimos) =~= ids_emprestimos(b.emprestimos));
    lema_pos_emprestimo(c.emprestimos, id, i);
}

/// Saving and loading back: loading, under a catalog's own path, the
/// collections that `para_persistencia` hands out for it yields that same
/// catalog whenever it is consistent, as every operation keeps it.
pub proof fn lema_ida_e_volta(b: BibliotecaV)
    requires
        b.bem_formada(),
    ensures
        BibliotecaV::carga(b.caminho, b.livros, b.usuarios, b.emprestimos) == Some(b),
{
}

} // verus!
