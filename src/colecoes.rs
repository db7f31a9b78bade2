use crate::emprestimos::{Emprestimo, StatusEmprestimo};
use crate::livros::{Livro, LivroV, StatusLivro};
use crate::usuarios::{Usuario, UsuarioV};
use vstd::prelude::*;

verus! {

/// No value occurs twice in `s`.
pub open spec fn sem_repeticao(s: Seq<u128>) -> bool {
    forall|i: int, j: int|
        #![trigger s[i], s[j]]
        0 <= i < s.len() && 0 <= j < s.len() && i != j ==> s[i] != s[j]
}

pub open spec fn vistas_livros(v: Seq<Livro>) -> Seq<LivroV> {
    v.map_values(|b: Livro| b@)
}

pub open spec fn vistas_usuarios(v: Seq<Usuario>) -> Seq<UsuarioV> {
    v.map_values(|u: Usuario| u@)
}

pub open spec fn ids_livros(l: Seq<LivroV>) -> Seq<u128> {
    l.map_values(|b: LivroV| b.id)
}

pub open spec fn ids_usuarios(u: Seq<UsuarioV>) -> Seq<u128> {
    u.map_values(|p: UsuarioV| p.id)
}

pub open spec fn ids_emprestimos(e: Seq<Emprestimo>) -> Seq<u128> {
    e.map_values(|x: Emprestimo| x.id_emprestimo)
}

pub open spec fn tem_livro(l: Seq<LivroV>, id: u128) -> bool {
    exists|k: int| 0 <= k < l.len() && #[trigger] l[k].id == id
}

pub open spec fn tem_usuario(u: Seq<UsuarioV>, id: u128) -> bool {
    exists|k: int| 0 <= k < u.len() && #[trigger] u[k].id == id
}

pub open spec fn tem_emprestimo(e: Seq<Emprestimo>, id: u128) -> bool {
    exists|k: int| 0 <= k < e.len() && #[trigger] e[k].id_emprestimo == id
}

/// Where the book `id` stands (meaningful when it is there).
pub open spec fn pos_livro(l: Seq<LivroV>, id: u128) -> int {
    choose|k: int| 0 <= k < l.len() && #[trigger] l[k].id == id
}

/// Where the loan `id` stands (meaningful when it is there).
pub open spec fn pos_emprestimo(e: Seq<Emprestimo>, id: u128) -> int {
    choose|k: int| 0 <= k < e.len() && #[trigger] e[k].id_emprestimo == id
}

pub open spec fn ativo(e: Emprestimo) -> bool {
    e.status == StatusEmprestimo::Ativo
}

/// Some active loan references the book `id_livro`.
pub open spec fn tem_ativo(e: Seq<Emprestimo>, id_livro: u128) -> bool {
    exists|i: int| 0 <= i < e.len() && ativo(#[trigger] e[i]) && e[i].id_livro == id_livro
}

/// No two active loans reference the same book.
pub open spec fn ativos_distintos(e: Seq<Emprestimo>) -> bool {
    forall|i: int, j: int|
        #![trigger e[i], e[j]]
        0 <= i < e.len() && 0 <= j < e.len() && ativo(e[i]) && ativo(e[j]) && e[i].id_livro
            == e[j].id_livro ==> i == j
}

/// A loan has a return date exactly when it is closed.
pub open spec fn datas_coerentes(e: Seq<Emprestimo>) -> bool {
    forall|i: int| 0 <= i < e.len() ==> (ativo(#[trigger] e[i]) <==> e[i].data_devolucao is None)
}

/// Every loan references a book and a patron of the collections.
pub open spec fn referencias_validas(l: Seq<LivroV>, u: Seq<UsuarioV>, e: Seq<Emprestimo>) -> bool {
    forall|i: int|
        0 <= i < e.len() ==> tem_livro(l, #[trigger] e[i].id_livro) && tem_usuario(u, e[i].id_usuario)
}

/// A book is loaned exactly when an active loan references it.
pub open spec fn status_coerente(l: Seq<LivroV>, e: Seq<Emprestimo>) -> bool {
    forall|k: int|
        0 <= k < l.len() ==> ((#[trigger] l[k].status == StatusLivro::Emprestado) <==> tem_ativo(e, l[k].id))
}

/// The three collections form a consistent catalog.
pub open spec fn colecoes_validas(l: Seq<LivroV>, u: Seq<UsuarioV>, e: Seq<Emprestimo>) -> bool {
    &&& sem_repeticao(ids_livros(l))
    &&& sem_repeticao(ids_usuarios(u))
    &&& sem_repeticao(ids_emprestimos(e))
    &&& referencias_validas(l, u, e)
    &&& ativos_distintos(e)
    &&& datas_coerentes(e)
    &&& status_coerente(l, e)
}

pub proof fn lema_pos_livro(l: Seq<LivroV>, id: u128, k: int)
    requires
        sem_repeticao(ids_livros(l)),
        0 <= k < l.len(),
        l[k].id == id,
    ensures
        tem_livro(l, id),
        pos_livro(l, id) == k,
{
    assert(tem_livro(l, id));
    let p = pos_livro(l, id);
    assert(ids_livros(l)[p] == l[p].id);
    assert(ids_livros(l)[k] == l[k].id);
}

pub proof fn lema_pos_emprestimo(e: Seq<Emprestimo>, id: u128, k: int)
    requires
        sem_repeticao(ids_emprestimos(e)),
        0 <= k < e.len(),
        e[k].id_emprestimo == id,
    ensures
        tem_emprestimo(e, id),
        pos_emprestimo(e, id) == k,
{
    assert(tem_emprestimo(e, id));
    let p = pos_emprestimo(e, id);
    assert(ids_emprestimos(e)[p] == e[p].id_emprestimo);
    assert(ids_emprestimos(e)[k] == e[k].id_emprestimo);
}

/// Two book sequences with the same identifiers hold the same books.
pub proof fn lema_mesmos_ids_livros(a: Seq<LivroV>, b: Seq<LivroV>)
    requires
        ids_livros(a) == ids_livros(b),
    ensures
        forall|x: u128| tem_livro(a, x) == tem_livro(b, x),
{
    assert(a.len() == ids_livros(a).len());
    assert(b.len() == ids_livros(b).len());
    assert forall|x: u128| tem_livro(a, x) implies tem_livro(b, x) by {
        let k = choose|k: int| 0 <= k < a.len() && #[trigger] a[k].id == x;
        assert(ids_livros(a)[k] == a[k].id);
        assert(ids_livros(b)[k] == b[k].id);
    }
    assert forall|x: u128| tem_livro(b, x) implies tem_livro(a, x) by {
        let k = choose|k: int| 0 <= k < b.len() && #[trigger] b[k].id == x;
        assert(ids_livros(a)[k] == a[k].id);
        assert(ids_livros(b)[k] == b[k].id);
    }
}

/// A loan that leaves the book `x` aside does not change whether `x` has
/// an active loan.
pub proof fn lema_tem_ativo_push(e: Seq<Emprestimo>, n: Emprestimo, x: u128)
    requires
        n.id_livro != x,
    ensures
        tem_ativo(e.push(n), x) == tem_ativo(e, x),
{
    let f = e.push(n);
    if tem_ativo(f, x) {
        let i = choose|i: int| 0 <= i < f.len() && ativo(#[trigger] f[i]) && f[i].id_livro == x;
        assert(e[i] == f[i]);
    }
    if tem_ativo(e, x) {
        let i = choose|i: int| 0 <= i < e.len() && ativo(#[trigger] e[i]) && e[i].id_livro == x;
        assert(e[i] == f[i]);
    }
}

/// Changing one loan of another book does not change whether `x` has an
/// active loan.
pub proof fn lema_tem_ativo_update(e: Seq<Emprestimo>, i: int, n: Emprestimo, x: u128)
    requires
        0 <= i < e.len(),
        n.id_livro != x,
        e[i].id_livro != x,
    ensures
        tem_ativo(e.update(i, n), x) == tem_ativo(e, x),
{
    let f = e.update(i, n);
    if tem_ativo(f, x) {
        let j = choose|j: int| 0 <= j < f.len() && ativo(#[trigger] f[j]) && f[j].id_livro == x;
        assert(e[j] == f[j]);
    }
    if tem_ativo(e, x) {
        let j = choose|j: int| 0 <= j < e.len() && ativo(#[trigger] e[j]) && e[j].id_livro == x;
        assert(e[j] == f[j]);
    }
}

/// The index of the book `id` in `v`, if any.
pub fn indice_livro(v: &Vec<Livro>, id: u128) -> (r: Option<usize>)
    ensures
        match r {
            Some(k) => k < v.len() && v@[k as int].id == id,
            None => !tem_livro(vistas_livros(v@), id),
        },
{
    let mut i: usize = 0;
    while i < v.len()
        invariant
            i <= v.len(),
            forall|j: int| 0 <= j < i ==> v@[j].id != id,
        decreases v.len() - i,
    {
        if v[i].id == id {
            return Some(i);
        }
        i = i + 1;
    }
    assert forall|k: int| 0 <= k < v@.len() implies #[trigger] vistas_livros(v@)[k].id != id by {
        assert(vistas_livros(v@)[k] == v@[k]@);
    }
    None
}

/// The index of the patron `id` in `v`, if any.
pub fn indice_usuario(v: &Vec<Usuario>, id: u128) -> (r: Option<usize>)
    ensures
        match r {
            Some(k) => k < v.len() && v@[k as int].id == id,
            None => !tem_usuario(vistas_usuarios(v@), id),
        },
{
    let mut i: usize = 0;
    while i < v.len()
        invariant
            i <= v.len(),
            forall|j: int| 0 <= j < i ==> v@[j].id != id,
        decreases v.len() - i,
    {
        if v[i].id == id {
            return Some(i);
        }
        i = i + 1;
    }
    assert forall|k: int| 0 <= k < v@.len() implies #[trigger] vistas_usuarios(v@)[k].id != id by {
        assert(vistas_usuarios(v@)[k] == v@[k]@);
    }
    None
}

/// The index of the loan `id` in `v`, if any.
pub fn indice_emprestimo(v: &Vec<Emprestimo>, id: u128) -> (r: Option<usize>)
    ensures
        match r {
            Some(k) => k < v.len() && v@[k as int].id_emprestimo == id,
            None => !tem_emprestimo(v@, id),
        },
{
    let mut i: usize = 0;
    while i < v.len()
        invariant
            i <= v.len(),
            forall|j: int| 0 <= j < i ==> v@[j].id_emprestimo != id,
        decreases v.len() - i,
    {
        if v[i].id_emprestimo == id {
            return Some(i);
        }
        i = i + 1;
    }
    None
}

/// Where the patron `id` stands (meaningful when it is there).
pub open spec fn pos_usuario(u: Seq<UsuarioV>, id: u128) -> int {
    choose|k: int| 0 <= k < u.len() && #[trigger] u[k].id == id
}

pub proof fn lema_pos_usuario(u: Seq<UsuarioV>, id: u128, k: int)
    requires
        sem_repeticao(ids_usuarios(u)),
        0 <= k < u.len(),
        u[k].id == id,
    ensures
        tem_usuario(u, id),
        pos_usuario(u, id) == k,
{
    assert(tem_usuario(u, id));
    let p = pos_usuario(u, id);
    assert(ids_usuarios(u)[p] == u[p].id);
    assert(ids_usuarios(u)[k] == u[k].id);
}

/// Whether no value occurs twice in `v`.
pub fn sem_repeticao_exec(v: &Vec<u128>) -> (r: bool)
    ensures
        r == sem_repeticao(v@),
{
    let n = v.len();
    let mut i: usize = 0;
    while i < n
        invariant
            n == v.len(),
            i <= n,
            forall|a: int, b: int|
                #![trigger v@[a], v@[b]]
                0 <= a < i && 0 <= b < n && a != b ==> v@[a] != v@[b],
        decreases n - i,
    {
        let mut j: usize = 0;
        while j < n
            invariant
                n == v.len(),
                i < n,
                j <= n,
                forall|a: int, b: int|
                    #![trigger v@[a], v@[b]]
                    0 <= a < i && 0 <= b < n && a != b ==> v@[a] != v@[b],
                forall|b: int| 0 <= b < j && b != i ==> v@[i as int] != #[trigger] v@[b],
            decreases n - j,
        {
            if j != i && v[i] == v[j] {
                assert(v@[i as int] == v@[j as int]);
                return false;
            }
            j = j + 1;
        }
        i = i + 1;
    }
    true
}

/// The identifiers of the books of `l`, in order.
pub fn ids_de_livros(l: &Vec<Livro>) -> (r: Vec<u128>)
    ensures
        r@ == ids_livros(vistas_livros(l@)),
{
    let mut r: Vec<u128> = Vec::new();
    let mut i: usize = 0;
    while i < l.len()
        invariant
            i <= l.len(),
            r@ == ids_livros(vistas_livros(l@)).take(i as int),
        decreases l.len() - i,
    {
        r.push(l[i].id);
        i = i + 1;
        assert(r@ =~= ids_livros(vistas_livros(l@)).take(i as int));
    }
    assert(r@ =~= ids_livros(vistas_livros(l@)));
    r
}

/// The identifiers of the patrons of `u`, in order.
pub fn ids_de_usuarios(u: &Vec<Usuario>) -> (r: Vec<u128>)
    ensures
        r@ == ids_usuarios(vistas_usuarios(u@)),
{
    let mut r: Vec<u128> = Vec::new();
    let mut i: usize = 0;
    while i < u.len()
        invariant
            i <= u.len(),
            r@ == ids_usuarios(vistas_usuarios(u@)).take(i as int),
        decreases u.len() - i,
    {
        r.push(u[i].id);
        i = i + 1;
        assert(r@ =~= ids_usuarios(vistas_usuarios(u@)).take(i as int));
    }
    assert(r@ =~= ids_usuarios(vistas_usuarios(u@)));
    r
}

/// The identifiers of the loans of `e`, in order.
pub fn ids_de_emprestimos(e: &Vec<Emprestimo>) -> (r: Vec<u128>)
    ensures
        r@ == ids_emprestimos(e@),
{
    let mut r: Vec<u128> = Vec::new();
    let mut i: usize = 0;
    while i < e.len()
        invariant
            i <= e.len(),
            r@ == ids_emprestimos(e@).take(i as int),
        decreases e.len() - i,
    {
        r.push(e[i].id_emprestimo);
        i = i + 1;
        assert(r@ =~= ids_emprestimos(e@).take(i as int));
    }
    assert(r@ =~= ids_emprestimos(e@));
    r
}

/// Whether some active loan of `e` references the book `id_livro`.
pub fn possui_ativo(e: &Vec<Emprestimo>, id_livro: u128) -> (r: bool)
    ensures
        r == tem_ativo(e@, id_livro),
{
    let mut i: usize = 0;
    while i < e.len()
        invariant
            i <= e.len(),
            forall|j: int| 0 <= j < i ==> !(ativo(#[trigger] e@[j]) && e@[j].id_livro == id_livro),
        decreases e.len() - i,
    {
        if e[i].status == StatusEmprestimo::Ativo && e[i].id_livro == id_livro {
            assert(ativo(e@[i as int]));
            return true;
        }
        i = i + 1;
    }
    false
}

/// Whether the three collections form a consistent catalog.
pub fn validar(l: &Vec<Livro>, u: &Vec<Usuario>, e: &Vec<Emprestimo>) -> (r: bool)
    ensures
        r == colecoes_validas(vistas_livros(l@), vistas_usuarios(u@), e@),
{
    let ghost vl = vistas_livros(l@);
    let ghost vu = vistas_usuarios(u@);
    let ghost ve = e@;
    if !sem_repeticao_exec(&ids_de_livros(l)) || !sem_repeticao_exec(&ids_de_usuarios(u))
        || !sem_repeticao_exec(&ids_de_emprestimos(e)) {
        return false;
    }
    let n = e.len();
    let mut i: usize = 0;
    while i < n
        invariant
            n == e.len(),
            i <= n,
            vl == vistas_livros(l@),
            vu == vistas_usuarios(u@),
            ve == e@,
            sem_repeticao(ids_livros(vl)),
            sem_repeticao(ids_usuarios(vu)),
            sem_repeticao(ids_emprestimos(ve)),
            forall|a: int|
                0 <= a < i ==> tem_livro(vl, #[trigger] ve[a].id_livro) && tem_usuario(vu, ve[a].id_usuario),
            forall|a: int| 0 <= a < i ==> (ativo(#[trigger] ve[a]) <==> ve[a].data_devolucao is None),
            forall|a: int, b: int|
                #![trigger ve[a], ve[b]]
                0 <= a < i && 0 <= b < n && ativo(ve[a]) && ativo(ve[b]) && ve[a].id_livro
                    == ve[b].id_livro ==> a == b,
        decreases n - i,
    {
        match indice_livro(l, e[i].id_livro) {
            None => {
                return false;
            },
            Some(k) => {
                assert(vl[k as int] == l@[k as int]@);
                assert(vl[k as int].id == ve[i as int].id_livro);
            },
        }
        match indice_usuario(u, e[i].id_usuario) {
            None => {
                return false;
            },
            Some(k) => {
                assert(vu[k as int] == u@[k as int]@);
                assert(vu[k as int].id == ve[i as int].id_usuario);
            },
        }
        let ativo_i = e[i].status == StatusEmprestimo::Ativo;
        if ativo_i != e[i].data_devolucao.is_none() {
            return false;
        }
        if ativo_i {
            let mut j: usize = 0;
            while j < n
                invariant
                    n == e.len(),
                    ve == e@,
                    i < n,
                    j <= n,
                    ativo(ve[i as int]),
                    forall|b: int|
                        0 <= b < j && ativo(#[trigger] ve[b]) && ve[b].id_livro == ve[i as int].id_livro
                            ==> b == i,
                decreases n - j,
            {
                if j != i && e[j].status == StatusEmprestimo::Ativo && e[j].id_livro == e[i].id_livro {
                    assert(ativo(ve[j as int]));
                    return false;
                }
                j = j + 1;
            }
        }
        i = i + 1;
    }
    assert(referencias_validas(vl, vu, ve));
    assert(ativos_distintos(ve));
    assert(datas_coerentes(ve));
    let m = l.len();
    let mut k: usize = 0;
    while k < m
        invariant
            m == l.len(),
            k <= m,
            vl == vistas_livros(l@),
            ve == e@,
            colecoes_validas(vl, vu, ve) <==> status_coerente(vl, ve),
            forall|a: int|
                0 <= a < k ==> ((#[trigger] vl[a].status == StatusLivro::Emprestado) <==> tem_ativo(ve, vl[a].id)),
        decreases m - k,
    {
        assert(vl[k as int] == l@[k as int]@);
        let emprestado = match l[k].status {
            StatusLivro::Emprestado => true,
            StatusLivro::Disponivel => false,
        };
        if emprestado != possui_ativo(e, l[k].id) {
            assert(!((vl[k as int].status == StatusLivro::Emprestado) <==> tem_ativo(ve, vl[k as int].id)));
            return false;
        }
        k = k + 1;
    }
    true
}

} // verus!
