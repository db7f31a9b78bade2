use biblioteca::biblioteca::Biblioteca;
use biblioteca::emprestimos::{Data, Emprestimo, StatusEmprestimo, DIAS_DE_PRAZO};
use biblioteca::erros::ErroBiblioteca;
use biblioteca::externo::{corresponde, mesma_forma};
use biblioteca::livros::{Livro, StatusLivro};
use biblioteca::usuarios::Usuario;

fn status_do_livro(b: &Biblioteca, id: u128) -> StatusLivro {
    b.listar_livros().iter().find(|l| l.id == id).unwrap().status
}

fn emprestimo(b: &Biblioteca, id: u128) -> Emprestimo {
    *b.listar_emprestimos().iter().find(|e| e.id_emprestimo == id).unwrap()
}

#[test]
fn cenario_completo_de_emprestimo() {
    let mut b = Biblioteca::nova("acervo.json".to_string());
    let livro = b
        .adicionar_livro("Dune".to_string(), "Herbert".to_string(), 1965)
        .unwrap();
    assert_eq!(status_do_livro(&b, livro), StatusLivro::Disponivel);
    let ana = b.adicionar_usuario("Ana".to_string()).unwrap();
    let bia = b.adicionar_usuario("Bia".to_string()).unwrap();

    let hoje = Data::hoje();
    let id = b.registrar_emprestimo(livro, ana).unwrap();
    assert_eq!(status_do_livro(&b, livro), StatusLivro::Emprestado);
    let e = emprestimo(&b, id);
    assert_eq!(e.status, StatusEmprestimo::Ativo);
    assert_eq!(e.data_emprestimo, hoje);
    assert_eq!(e.data_prevista.dia, hoje.dia + DIAS_DE_PRAZO);
    assert_eq!(e.data_devolucao, None);

    let outra = b.registrar_emprestimo(livro, bia);
    assert!(matches!(outra, Err(ErroBiblioteca::EstadoInvalido(_))));

    b.registrar_devolucao(id).unwrap();
    assert_eq!(status_do_livro(&b, livro), StatusLivro::Disponivel);
    let e = emprestimo(&b, id);
    assert_eq!(e.status, StatusEmprestimo::Devolvido);
    assert_eq!(e.data_devolucao, Some(hoje));

    let de_novo = b.registrar_devolucao(id);
    assert!(matches!(de_novo, Err(ErroBiblioteca::EstadoInvalido(_))));
    assert_eq!(emprestimo(&b, id).data_devolucao, Some(hoje));
}

#[test]
fn busca_por_titulo_ignora_maiusculas() {
    let mut b = Biblioteca::nova("acervo.json".to_string());
    let id = b
        .adicionar_livro("Dune".to_string(), "Herbert".to_string(), 1965)
        .unwrap();
    b.adicionar_livro("Emma".to_string(), "Austen".to_string(), 1815)
        .unwrap();
    for consulta in ["dune", "DUNE", "Dune"] {
        let achados = b.buscar_livro_por_titulo(consulta);
        assert_eq!(achados.len(), 1);
        assert_eq!(achados[0].id, id);
        assert_eq!(achados[0].get_titulo(), "Dune");
    }
    assert!(b.buscar_livro_por_titulo("Dun").is_empty());
    assert!(b.buscar_livro_por_titulo("Herbert").is_empty());
}

#[test]
fn busca_por_autor_ignora_maiusculas_e_mantem_ordem() {
    let mut b = Biblioteca::nova("acervo.json".to_string());
    let a = b
        .adicionar_livro("Dune".to_string(), "Herbert".to_string(), 1965)
        .unwrap();
    b.adicionar_livro("Emma".to_string(), "Austen".to_string(), 1815)
        .unwrap();
    let c = b
        .adicionar_livro("Dune Messiah".to_string(), "HERBERT".to_string(), 1969)
        .unwrap();
    let achados = b.buscar_livro_por_autor("herbert");
    let ids: Vec<u128> = achados.iter().map(|l| l.id).collect();
    assert_eq!(ids, vec![a, c]);
    assert!(b.buscar_livro_por_autor("Tolkien").is_empty());
}

#[test]
fn corresponde_compara_sem_caixa() {
    assert!(corresponde("Dune", "dUNE"));
    assert!(corresponde("Ação", "AÇÃO"));
    assert!(!corresponde("Dune", "Dunes"));
    assert!(mesma_forma(&"dune".to_string(), &"dune".to_string()));
    assert!(!mesma_forma(&"dune".to_string(), &"Dune".to_string()));
}

#[test]
fn carregar_sem_arquivo_da_acervo_vazio() {
    let b = Biblioteca::carregar("nao_existe.json".to_string(), None).unwrap();
    assert!(b.listar_livros().is_empty());
    assert!(b.listar_usuarios().is_empty());
    assert!(b.listar_emprestimos().is_empty());
    assert_eq!(b.caminho_arquivo(), "nao_existe.json");
}

#[test]
fn salvar_e_carregar_reproduz_o_acervo() {
    let mut b = Biblioteca::nova("acervo.json".to_string());
    let l1 = b.adicionar_livro_com_id(1, "Dune".to_string(), "Herbert".to_string(), 1965).unwrap();
    b.adicionar_livro_com_id(2, "Emma".to_string(), "Austen".to_string(), 1815).unwrap();
    b.adicionar_usuario_com_id(10, "Ana".to_string()).unwrap();
    b.abrir_emprestimo(l1, 10, 100, Data { dia: 739000 }).unwrap();
    b.abrir_emprestimo(2, 10, 101, Data { dia: 739001 }).unwrap();
    b.fechar_emprestimo(101, Data { dia: 739005 }).unwrap();

    let (livros, usuarios, emprestimos) = b.para_persistencia();
    let c = Biblioteca::carregar("acervo.json".to_string(), Some((livros, usuarios, emprestimos))).unwrap();
    assert_eq!(c.caminho_arquivo(), "acervo.json");
    let ls = c.listar_livros();
    assert_eq!(ls.len(), 2);
    assert_eq!((ls[0].id, ls[0].get_titulo().as_str(), ls[0].get_autor().as_str(), ls[0].get_ano(), ls[0].status),
        (1, "Dune", "Herbert", 1965, StatusLivro::Emprestado));
    assert_eq!((ls[1].id, ls[1].get_titulo().as_str(), ls[1].status), (2, "Emma", StatusLivro::Disponivel));
    assert_eq!(c.listar_usuarios()[0].get_nome(), "Ana");
    assert_eq!(c.listar_emprestimos(), b.listar_emprestimos());
    assert_eq!(emprestimo(&c, 101).data_devolucao, Some(Data { dia: 739005 }));
}

#[test]
fn carregar_dados_incoerentes_falha() {
    let mut emprestado = Livro::com_id(1, "Dune".to_string(), "Herbert".to_string(), 1965);
    emprestado.emprestar().unwrap();
    let r = Biblioteca::carregar("a.json".to_string(), Some((vec![emprestado], vec![], vec![])));
    assert!(matches!(r, Err(ErroBiblioteca::ErroPersistencia(_))));

    let repetidos = vec![
        Livro::com_id(1, "Dune".to_string(), "Herbert".to_string(), 1965),
        Livro::com_id(1, "Emma".to_string(), "Austen".to_string(), 1815),
    ];
    let r = Biblioteca::carregar("a.json".to_string(), Some((repetidos, vec![], vec![])));
    assert!(matches!(r, Err(ErroBiblioteca::ErroPersistencia(_))));

    let orfao = Emprestimo::com_data(5, 10, 99, Data { dia: 739000 });
    let r = Biblioteca::carregar(
        "a.json".to_string(),
        Some((vec![], vec![Usuario::com_id(10, "Ana".to_string())], vec![orfao])),
    );
    assert!(matches!(r, Err(ErroBiblioteca::ErroPersistencia(_))));
}

#[test]
fn erros_de_abertura() {
    let mut b = Biblioteca::nova("a.json".to_string());
    b.adicionar_livro_com_id(1, "Dune".to_string(), "Herbert".to_string(), 1965).unwrap();
    b.adicionar_usuario_com_id(10, "Ana".to_string()).unwrap();
    let hoje = Data { dia: 739000 };
    assert!(matches!(b.abrir_emprestimo(2, 10, 100, hoje), Err(ErroBiblioteca::LivroNaoEncontrado(2))));
    assert!(matches!(b.abrir_emprestimo(1, 11, 100, hoje), Err(ErroBiblioteca::UsuarioNaoEncontrado(11))));
    assert_eq!(b.abrir_emprestimo(1, 10, 100, hoje).unwrap(), 100);
    // a loaned book is refused whoever asks, known patron or not
    assert!(matches!(b.abrir_emprestimo(1, 10, 101, hoje), Err(ErroBiblioteca::EstadoInvalido(_))));
    assert!(matches!(b.abrir_emprestimo(1, 11, 101, hoje), Err(ErroBiblioteca::EstadoInvalido(_))));
    assert_eq!(b.listar_emprestimos().len(), 1);
}

#[test]
fn identificador_de_emprestimo_repetido_e_recusado() {
    let mut b = Biblioteca::nova("a.json".to_string());
    b.adicionar_livro_com_id(1, "Dune".to_string(), "Herbert".to_string(), 1965).unwrap();
    b.adicionar_livro_com_id(2, "Emma".to_string(), "Austen".to_string(), 1815).unwrap();
    b.adicionar_usuario_com_id(10, "Ana".to_string()).unwrap();
    let hoje = Data { dia: 739000 };
    b.abrir_emprestimo(1, 10, 100, hoje).unwrap();
    assert!(matches!(b.abrir_emprestimo(2, 10, 100, hoje), Err(ErroBiblioteca::EstadoInvalido(_))));
    assert_eq!(status_do_livro(&b, 2), StatusLivro::Disponivel);
}

#[test]
fn erros_de_devolucao() {
    let mut b = Biblioteca::nova("a.json".to_string());
    assert!(matches!(b.fechar_emprestimo(7, Data { dia: 1 }), Err(ErroBiblioteca::EmprestimoNaoEncontrado(7))));
    assert!(matches!(b.registrar_devolucao(7), Err(ErroBiblioteca::EmprestimoNaoEncontrado(7))));
}

#[test]
fn identificadores_repetidos_sao_recusados() {
    let mut b = Biblioteca::nova("a.json".to_string());
    b.adicionar_livro_com_id(1, "Dune".to_string(), "Herbert".to_string(), 1965).unwrap();
    let r = b.adicionar_livro_com_id(1, "Emma".to_string(), "Austen".to_string(), 1815);
    assert!(matches!(r, Err(ErroBiblioteca::EstadoInvalido(_))));
    assert_eq!(b.listar_livros().len(), 1);
    b.adicionar_usuario_com_id(10, "Ana".to_string()).unwrap();
    let r = b.adicionar_usuario_com_id(10, "Bia".to_string());
    assert!(matches!(r, Err(ErroBiblioteca::EstadoInvalido(_))));
    assert_eq!(b.listar_usuarios().len(), 1);
}

#[test]
fn registrar_emprestimo_com_livro_ou_usuario_ausente() {
    let mut b = Biblioteca::nova("a.json".to_string());
    let livro = b.adicionar_livro("Dune".to_string(), "Herbert".to_string(), 1965).unwrap();
    assert!(matches!(b.registrar_emprestimo(livro + 1, 3), Err(ErroBiblioteca::LivroNaoEncontrado(x)) if x == livro + 1));
    assert!(matches!(b.registrar_emprestimo(livro, 3), Err(ErroBiblioteca::UsuarioNaoEncontrado(3))));
    assert_eq!(status_do_livro(&b, livro), StatusLivro::Disponivel);
}

#[test]
fn prazo_de_quatorze_dias() {
    let e = Emprestimo::com_data(1, 2, 3, Data { dia: 739000 });
    assert_eq!(e.get_data_prevista(), Data { dia: 739014 });
    assert_eq!(e.get_id_usuario(), 2);
    assert_eq!(e.get_id_livro(), 3);
    assert_eq!(e.get_data_devolucao(), None);
    assert_eq!(e.status, StatusEmprestimo::Ativo);
}

#[test]
fn livro_empresta_e_devolve() {
    let mut l = Livro::new("Dune".to_string(), "Herbert".to_string(), 1965);
    assert!(l.esta_disponivel());
    assert!(matches!(l.devolver(), Err(ErroBiblioteca::EstadoInvalido(_))));
    l.emprestar().unwrap();
    assert!(!l.esta_disponivel());
    assert!(matches!(l.emprestar(), Err(ErroBiblioteca::EstadoInvalido(_))));
    l.devolver().unwrap();
    assert_eq!(l.status, StatusLivro::Disponivel);
}

#[test]
fn emprestar_livro_avulso() {
    let mut l = Livro::com_id(4, "Dune".to_string(), "Herbert".to_string(), 1965);
    let e = Biblioteca::emprestar(&mut l, 9, 4).unwrap();
    assert_eq!(l.status, StatusLivro::Emprestado);
    assert_eq!((e.id_livro, e.id_usuario, e.status), (4, 9, StatusEmprestimo::Ativo));
    assert_eq!(e.data_prevista.dia, e.data_emprestimo.dia + 14);
    assert!(matches!(Biblioteca::emprestar(&mut l, 9, 4), Err(ErroBiblioteca::EstadoInvalido(_))));
}

#[test]
fn identificadores_sorteados_diferem() {
    let a = Livro::new("A".to_string(), "X".to_string(), 1);
    let b = Livro::new("A".to_string(), "X".to_string(), 1);
    assert_ne!(a.id, b.id);
    let u = Usuario::new("Ana".to_string());
    assert_eq!(u.get_nome(), "Ana");
    assert_ne!(u.id, a.id);
}

#[test]
fn hoje_e_uma_data_plausivel() {
    // 2020-01-01 is day 737425 counted from 0001-01-01 as day 1
    assert!(Data::hoje().dia > 737425);
}

#[test]
fn exibir_emprestimo_da_titulo_e_nome() {
    let mut b = Biblioteca::nova("a.json".to_string());
    b.adicionar_livro_com_id(1, "Dune".to_string(), "Herbert".to_string(), 1965).unwrap();
    b.adicionar_usuario_com_id(10, "Ana".to_string()).unwrap();
    b.abrir_emprestimo(1, 10, 100, Data { dia: 739000 }).unwrap();
    let e = emprestimo(&b, 100);
    let (titulo, nome) = b.exibir_emprestimo(&e);
    assert_eq!(titulo.as_deref(), Some("Dune"));
    assert_eq!(nome.as_deref(), Some("Ana"));
    let solto = Emprestimo::com_data(5, 77, 88, Data { dia: 1 });
    assert_eq!(b.exibir_emprestimo(&solto), (None, None));
}

#[test]
fn emprestimo_novo_vence_em_quatorze_dias() {
    let e = Emprestimo::new(2, 3);
    assert_eq!(e.get_data_prevista().dia, e.data_emprestimo.dia + 14);
    assert_eq!(e.data_emprestimo, Data::hoje());
    assert_eq!((e.get_id_usuario(), e.get_id_livro(), e.status), (2, 3, StatusEmprestimo::Ativo));
}
