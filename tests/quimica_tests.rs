use quimica::elemento::{Categoria, Elemento, ErroQuimico, Fase};
use quimica::molecula::{Ligacao, Molecula, NumeroDeLigacoes, TipoDeLigacao};

fn elemento(simbolo: &str, nome: &str, familia: i32, categoria: Categoria, camadas: Vec<i32>) -> Elemento {
    Elemento {
        numero_atomico: 1,
        nome: nome.to_string(),
        simbolo: simbolo.to_string(),
        categoria,
        periodo: 2,
        familia,
        fase: Fase::Gasoso,
        camadas,
        estados_de_oxidacao: vec![],
        carga: None,
    }
}

fn hidrogenio() -> Elemento {
    elemento("H", "hidrogênio", 1, Categoria::Hidrogenio, vec![1])
}

fn oxigenio() -> Elemento {
    elemento("O", "oxigênio", 16, Categoria::Ametal, vec![2, 6])
}

fn cloro() -> Elemento {
    elemento("Cl", "cloro", 17, Categoria::Halogenio, vec![2, 8, 7])
}

fn carbono() -> Elemento {
    elemento("C", "carbono", 14, Categoria::Ametal, vec![2, 4])
}

fn simples(m: &mut Molecula, e: Elemento, de: usize) -> usize {
    m.add_atom(e, de, TipoDeLigacao::Covalente, NumeroDeLigacoes::Simples).unwrap()
}

#[test]
fn valencia_e_a_ultima_camada() {
    assert_eq!(cloro().camada_de_valencia(), Ok(7));
    assert_eq!(oxigenio().camada_de_valencia(), Ok(6));
    let vazio = elemento("X", "x", 14, Categoria::Ametal, vec![]);
    assert_eq!(vazio.camada_de_valencia(), Err(ErroQuimico::DadosMalformados));
    assert_eq!(vazio.get_nox(), Err(ErroQuimico::DadosMalformados));
}

#[test]
fn precedencia_do_nox_fixo() {
    let estranho = elemento("Xx", "x", 1, Categoria::Halogenio, vec![7]);
    assert_eq!(estranho.get_fixed_nox(), Some(1));
    assert_eq!(elemento("Ag", "prata", 11, Categoria::MetalDeTransicao, vec![1]).get_fixed_nox(), Some(1));
    assert_eq!(elemento("Mg", "magnésio", 2, Categoria::MetalAlcalinoTerroso, vec![2]).get_fixed_nox(), Some(2));
    assert_eq!(elemento("Zn", "zinco", 12, Categoria::MetalDeTransicao, vec![2]).get_fixed_nox(), Some(2));
    assert_eq!(elemento("Cd", "cádmio", 12, Categoria::MetalDeTransicao, vec![2]).get_fixed_nox(), Some(2));
    assert_eq!(cloro().get_fixed_nox(), Some(-1));
    assert_eq!(elemento("Al", "alumínio", 13, Categoria::OutroMetal, vec![3]).get_fixed_nox(), Some(3));
    assert_eq!(oxigenio().get_fixed_nox(), Some(-2));
    assert_eq!(elemento("S", "enxofre", 16, Categoria::Ametal, vec![6]).get_fixed_nox(), Some(-2));
    assert_eq!(carbono().get_fixed_nox(), None);
}

#[test]
fn nox_padrao_segue_carga_fixo_e_valencia() {
    let mut c = carbono();
    assert_eq!(c.get_nox(), Ok(4));
    assert_eq!(hidrogenio().get_nox(), Ok(1));
    c.set_carga(-4);
    assert_eq!(c.carga, Some(-4));
    assert_eq!(c.get_nox(), Ok(-4));
}

#[test]
fn busca_por_simbolo() {
    let lista = vec![hidrogenio(), oxigenio(), cloro()];
    assert_eq!(Elemento::encontrar_por_simbolo(&lista, "O").unwrap().nome, "oxigênio");
    assert_eq!(Elemento::encontrar_por_simbolo(&lista, "Cl").unwrap().familia, 17);
    assert!(matches!(Elemento::encontrar_por_simbolo(&lista, "Zz"), Err(ErroQuimico::NaoEncontrado)));
    assert!(matches!(Elemento::encontrar_por_simbolo(&vec![], "H"), Err(ErroQuimico::NaoEncontrado)));
}

#[test]
fn categorias_e_fases() {
    assert_eq!(Categoria::do_rotulo(&"halogênio".to_string()), Categoria::Halogenio);
    assert_eq!(Categoria::do_rotulo(&"metal alcalino terroso".to_string()), Categoria::MetalAlcalinoTerroso);
    assert_eq!(Categoria::do_rotulo(&"actnídeo".to_string()), Categoria::Actinideo);
    assert_eq!(Categoria::do_rotulo(&"qualquer".to_string()), Categoria::Desconhecido);
    assert_eq!(Fase::da_letra('L'), Fase::Liquido);
    assert_eq!(Fase::da_letra('?'), Fase::Vazio);
    assert_eq!(cloro().get_categoria(), Categoria::Halogenio);
    assert_eq!(cloro().get_camadas(), vec![2, 8, 7]);
}

#[test]
fn radical_para_nome_de_acido() {
    assert_eq!(elemento("N", "nitrogênio", 15, Categoria::Ametal, vec![5]).remover_posfix(), "nitr");
    assert_eq!(elemento("S", "enxofre", 16, Categoria::Ametal, vec![6]).remover_posfix(), "sulfur");
    assert_eq!(cloro().remover_posfix(), "clor");
    assert_eq!(elemento("Se", "selênio", 16, Categoria::Ametal, vec![6]).remover_posfix(), "selen");
    assert_eq!(elemento("Br", "bromo", 17, Categoria::Halogenio, vec![7]).remover_posfix(), "brom");
}

#[test]
fn atomo_central_com_uma_ligacao() {
    let mut m = Molecula::new(carbono());
    simples(&mut m, oxigenio(), 0);
    assert_eq!(m.get_nox(0, None), Ok(4));
    assert_eq!(m.get_nox(1, None), Ok(-2));
}

#[test]
fn cadeia_de_tres_atomos() {
    let mut m = Molecula::new(oxigenio());
    let b = simples(&mut m, carbono(), 0);
    let c = simples(&mut m, hidrogenio(), b);
    let ab = Ligacao::new(0, b, TipoDeLigacao::Covalente, NumeroDeLigacoes::Simples);
    let bc = Ligacao::new(b, c, TipoDeLigacao::Covalente, NumeroDeLigacoes::Simples);
    let a_nox = m.get_nox(0, Some(&ab)).unwrap();
    let c_nox = m.get_nox(c, Some(&bc)).unwrap();
    assert_eq!(m.get_nox(b, None), Ok(-(a_nox + c_nox)));
    assert_eq!(m.get_nox(b, None), Ok(1));
}

#[test]
fn acido_perclorico_sem_duplas() {
    let mut m = Molecula::new(cloro());
    for _ in 0..7 {
        let o = simples(&mut m, oxigenio(), 0);
        simples(&mut m, hidrogenio(), o);
    }
    assert_eq!(m.get_atomos().len(), 15);
    // each oxygen keeps one bond once the one to chlorine is excluded, so it
    // answers with its own default of -2
    assert_eq!(m.get_nox(1, Some(&Ligacao::new(0, 1, TipoDeLigacao::Covalente, NumeroDeLigacoes::Simples))), Ok(-2));
    assert_eq!(m.get_nox(0, None), Ok(14));
}

#[test]
fn consulta_repetida_da_o_mesmo() {
    let mut m = Molecula::new(cloro());
    let o = simples(&mut m, oxigenio(), 0);
    simples(&mut m, hidrogenio(), o);
    simples(&mut m, oxigenio(), 0);
    let primeira = m.get_nox(0, None);
    let segunda = m.get_nox(0, None);
    assert_eq!(primeira, segunda);
    assert_eq!(primeira, Ok(4));
}

#[test]
fn insercao_so_acrescenta() {
    let mut m = Molecula::vazia();
    assert_eq!(m.add_atom(oxigenio(), 0, TipoDeLigacao::Covalente, NumeroDeLigacoes::Simples), Err(ErroQuimico::IndiceInvalido));
    let mut m2 = Molecula::new(cloro());
    assert_eq!(simples(&mut m2, oxigenio(), 0), 1);
    assert_eq!(simples(&mut m2, hidrogenio(), 1), 2);
    assert_eq!(m2.add_atom(oxigenio(), 9, TipoDeLigacao::Ionica, NumeroDeLigacoes::Dupla), Err(ErroQuimico::IndiceInvalido));
    assert_eq!(m2.add_atom(oxigenio(), 0, TipoDeLigacao::Covalente, NumeroDeLigacoes::Dupla), Ok(3));
    let simbolos: Vec<String> = m2.get_atomos().iter().map(|a| a.simbolo.clone()).collect();
    assert_eq!(simbolos, vec!["Cl", "O", "H", "O"]);
    assert_eq!(m.get_atomos().len(), 0);
}

#[test]
fn ligacoes_de_um_atomo() {
    let mut m = Molecula::new(cloro());
    let o = simples(&mut m, oxigenio(), 0);
    let h = simples(&mut m, hidrogenio(), o);
    let ls = m.get_ligacoes(o);
    assert_eq!(ls.len(), 2);
    assert_eq!(ls[0], Ligacao::new(0, o, TipoDeLigacao::Covalente, NumeroDeLigacoes::Simples));
    assert_eq!(ls[1], Ligacao::new(o, h, TipoDeLigacao::Covalente, NumeroDeLigacoes::Simples));
    assert_eq!(m.get_ligacoes(h).len(), 1);
}

#[test]
fn indice_invalido_na_consulta() {
    let m = Molecula::new(cloro());
    assert_eq!(m.get_nox(3, None), Err(ErroQuimico::IndiceInvalido));
    assert_eq!(m.get_nox(0, None), Ok(-1));
}

#[test]
fn estouro_na_soma() {
    let mut m = Molecula::new(carbono());
    let mut a = carbono();
    a.set_carga(i32::MAX);
    simples(&mut m, a.clone(), 0);
    simples(&mut m, a, 0);
    assert_eq!(m.get_nox(0, None), Err(ErroQuimico::Estouro));
}
