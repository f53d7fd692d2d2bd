use vstd::prelude::*;
use crate::elemento::{Elemento, ErroQuimico, nox_padrao_spec, lemma_nox_padrao_cabe};

verus! {

/// Kind of a chemical bond.
#[derive(Debug, Clone, Copy, PartialEq, Eq, Structural)]
pub enum TipoDeLigacao {
    Covalente,
    CovalenteDativa,
    Ionica,
    Metalica,
}

/// Bond order: single, double or triple.
#[derive(Debug, Clone, Copy, PartialEq, Eq, Structural)]
pub enum NumeroDeLigacoes {
    Simples,
    Dupla,
    Tripla,
}

/// A bond between the atoms at indices `alfa` and `beta`.
#[derive(Debug, Clone, Copy, PartialEq, Eq, Structural)]
pub struct Ligacao {
    pub tipo: TipoDeLigacao,
    pub eletrons_compartilhados: NumeroDeLigacoes,
    pub alfa: usize,
    pub beta: usize,
}

impl Ligacao {
    pub fn new(alfa: usize, beta: usize, tipo: TipoDeLigacao, eletrons_compartilhados: NumeroDeLigacoes) -> (r: Ligacao)
        ensures
            r == (Ligacao { tipo, eletrons_compartilhados, alfa, beta }),
    {
        Ligacao { alfa, beta, eletrons_compartilhados, tipo }
    }
}

/// An ordered sequence of atoms and the bonds between them.
#[derive(Debug)]
pub struct Molecula {
    pub(crate) atomos: Vec<Elemento>,
    pub(crate) ligacoes: Vec<Ligacao>,
}

/// Whether bond `l` touches the atom at `index`.
pub open spec fn toca(l: Ligacao, index: int) -> bool {
    l.alfa == index || l.beta == index
}

/// The bonds of `ligs` that touch `index`, in order.
pub open spec fn ligacoes_de(ligs: Seq<Ligacao>, index: int) -> Seq<Ligacao>
    decreases ligs.len(),
{
    if ligs.len() == 0 {
        Seq::<Ligacao>::empty()
    } else {
        let resto = ligacoes_de(ligs.drop_last(), index);
        if toca(ligs.last(), index) {
            resto.push(ligs.last())
        } else {
            resto
        }
    }
}

/// The bonds of `ligs` that touch `index`, in order, without those equal to `ignorar`.
pub open spec fn disponiveis(ligs: Seq<Ligacao>, index: int, ignorar: Option<Ligacao>) -> Seq<Ligacao>
    decreases ligs.len(),
{
    if ligs.len() == 0 {
        Seq::<Ligacao>::empty()
    } else {
        let resto = disponiveis(ligs.drop_last(), index, ignorar);
        if toca(ligs.last(), index) && ignorar != Some(ligs.last()) {
            resto.push(ligs.last())
        } else {
            resto
        }
    }
}

/// The endpoint of `l` that is not `index`.
pub open spec fn vizinho(l: Ligacao, index: int) -> int {
    if l.alfa == index {
        l.beta as int
    } else {
        l.alfa as int
    }
}

pub open spec fn cabe_i32(v: int) -> bool {
    i32::MIN <= v <= i32::MAX
}

/// Oxidation number of the atom at `index`, ignoring the bond `ignorar`, with
/// `passos` as the largest depth that the traversal may reach.
pub open spec fn nox_spec(
    atomos: Seq<Elemento>,
    ligs: Seq<Ligacao>,
    index: int,
    ignorar: Option<Ligacao>,
    passos: nat,
) -> Result<int, ErroQuimico>
    decreases passos, 0nat,
{
    if !(0 <= index < atomos.len()) {
        Err(ErroQuimico::IndiceInvalido)
    } else {
        let d = disponiveis(ligs, index, ignorar);
        if d.len() <= 1 {
            nox_padrao_spec(atomos[index])
        } else if passos == 0 {
            Err(ErroQuimico::EstruturaCiclica)
        } else {
            match soma_spec(atomos, ligs, index, d, (passos - 1) as nat) {
                Err(e) => Err(e),
                Ok(s) => if cabe_i32(-s) {
                    Ok(-s)
                } else {
                    Err(ErroQuimico::Estouro)
                },
            }
        }
    }
}

/// Sum of the oxidation numbers of the neighbours across the bonds `d` of `index`.
pub open spec fn soma_spec(
    atomos: Seq<Elemento>,
    ligs: Seq<Ligacao>,
    index: int,
    d: Seq<Ligacao>,
    passos: nat,
) -> Result<int, ErroQuimico>
    decreases passos, d.len() + 1,
{
    if d.len() == 0 {
        Ok(0)
    } else {
        match soma_spec(atomos, ligs, index, d.drop_last(), passos) {
            Err(e) => Err(e),
            Ok(s) => match nox_spec(atomos, ligs, vizinho(d.last(), index), Some(d.last()), passos) {
                Err(e) => Err(e),
                Ok(v) => if cabe_i32(v) && cabe_i32(s + v) {
                    Ok(s + v)
                } else {
                    Err(ErroQuimico::Estouro)
                },
            },
        }
    }
}

/// Oxidation number of the atom at `index` in a molecule with atoms `atomos` and bonds `ligs`.
pub open spec fn nox_de(atomos: Seq<Elemento>, ligs: Seq<Ligacao>, index: int, ignorar: Option<Ligacao>) -> Result<int, ErroQuimico> {
    nox_spec(atomos, ligs, index, ignorar, atomos.len())
}

proof fn lemma_soma_erro_propaga(
    atomos: Seq<Elemento>,
    ligs: Seq<Ligacao>,
    index: int,
    d: Seq<Ligacao>,
    k: int,
    passos: nat,
)
    requires
        0 <= k <= d.len(),
        soma_spec(atomos, ligs, index, d.subrange(0, k), passos) is Err,
    ensures
        soma_spec(atomos, ligs, index, d, passos) == soma_spec(atomos, ligs, index, d.subrange(0, k), passos),
    decreases d.len() - k,
{
    if k < d.len() {
        assert(d.subrange(0, k + 1).drop_last() =~= d.subrange(0, k));
        assert(soma_spec(atomos, ligs, index, d.subrange(0, k + 1), passos)
            == soma_spec(atomos, ligs, index, d.subrange(0, k), passos));
        lemma_soma_erro_propaga(atomos, ligs, index, d, k + 1, passos);
    } else {
        assert(d.subrange(0, k) =~= d);
    }
}

/// `r` is what the oxidation-number query on `m` for `index`, ignoring `ignorar`, returns.
pub open spec fn resultado_nox(m: Molecula, index: int, ignorar: Option<Ligacao>, r: Result<i32, ErroQuimico>) -> bool {
    match nox_de(m.atomos_spec(), m.ligacoes_spec(), index, ignorar) {
        Ok(v) => r == Ok::<i32, ErroQuimico>(v as i32),
        Err(e) => r == Err::<i32, ErroQuimico>(e),
    }
}

/// Asking twice for the same oxidation number on an unchanged molecule gives the same answer.
pub proof fn lei_consulta_idempotente(
    m: Molecula,
    index: int,
    ignorar: Option<Ligacao>,
    r1: Result<i32, ErroQuimico>,
    r2: Result<i32, ErroQuimico>,
)
    requires
        resultado_nox(m, index, ignorar, r1),
        resultado_nox(m, index, ignorar, r2),
    ensures
        r1 == r2,
{
}

/// A central atom bonded to exactly one other atom takes its own default oxidation number.
pub proof fn lei_atomo_com_uma_ligacao(atomos: Seq<Elemento>, l: Ligacao)
    requires
        atomos.len() == 2,
        (l.alfa == 0 && l.beta == 1) || (l.alfa == 1 && l.beta == 0),
    ensures
        nox_de(atomos, seq![l], 0, None) == nox_padrao_spec(atomos[0]),
{
    let ligs = seq![l];
    reveal_with_fuel(disponiveis, 2);
    assert(ligs.drop_last() =~= Seq::<Ligacao>::empty());
    assert(ligs.last() == l);
    assert(disponiveis(ligs, 0, None).len() == 1);
}

/// In a chain A–B–C (bonds `ab` from 0 to 1, `bc` from 1 to 2), B's oxidation number is
/// the negated sum of A's without `ab` and C's without `bc`, when that sum fits an `i32`.
pub proof fn lei_cadeia_de_tres(atomos: Seq<Elemento>, ab: Ligacao, bc: Ligacao)
    requires
        atomos.len() == 3,
        ab.alfa == 0,
        ab.beta == 1,
        bc.alfa == 1,
        bc.beta == 2,
    ensures
        ({
            let ligs = seq![ab, bc];
            match (nox_de(atomos, ligs, 0, Some(ab)), nox_de(atomos, ligs, 2, Some(bc))) {
                (Ok(a), Ok(c)) => cabe_i32(a + c) && cabe_i32(-(a + c)) ==> nox_de(atomos, ligs, 1, None)
                    == Ok::<int, ErroQuimico>(-(a + c)),
                _ => true,
            }
        }),
{
    let ligs = seq![ab, bc];
    reveal_with_fuel(disponiveis, 3);
    assert(ligs.drop_last() =~= seq![ab]);
    assert(ligs.last() == bc);
    assert(seq![ab].last() == ab);
    assert(seq![ab].drop_last() =~= Seq::<Ligacao>::empty());
    let d = disponiveis(ligs, 1, None);
    assert(d =~= seq![ab, bc]);
    assert(disponiveis(ligs, 0, Some(ab)).len() == 0);
    assert(disponiveis(ligs, 2, Some(bc)).len() == 0);
    assert(d.drop_last() =~= seq![ab]);
    assert(seq![ab].drop_last() =~= Seq::<Ligacao>::empty());
    assert(nox_spec(atomos, ligs, 0, Some(ab), 2) == nox_spec(atomos, ligs, 0, Some(ab), 3));
    assert(nox_spec(atomos, ligs, 2, Some(bc), 2) == nox_spec(atomos, ligs, 2, Some(bc), 3));
    assert(vizinho(ab, 1) == 0);
    assert(vizinho(bc, 1) == 2);
    assert(soma_spec(atomos, ligs, 1, Seq::<Ligacao>::empty(), 2) == Ok::<int, ErroQuimico>(0));
    assert(nox_spec(atomos, ligs, 0, Some(ab), 2) == nox_padrao_spec(atomos[0]));
    assert(nox_spec(atomos, ligs, 2, Some(bc), 2) == nox_padrao_spec(atomos[2]));
    lemma_nox_padrao_cabe(atomos[0]);
    lemma_nox_padrao_cabe(atomos[2]);
    if let (Ok(a), Ok(c)) = (nox_padrao_spec(atomos[0]), nox_padrao_spec(atomos[2])) {
        assert(soma_spec(atomos, ligs, 1, seq![ab], 2) == Ok::<int, ErroQuimico>(a));
        if cabe_i32(a + c) {
            assert(soma_spec(atomos, ligs, 1, d, 2) == Ok::<int, ErroQuimico>(a + c));
        }
    }
}

impl Molecula {
    /// Every bond joins two atoms of the molecule.
    pub open spec fn bem_formada(&self) -> bool {
        forall|i: int| 0 <= i < self.ligacoes_spec().len() ==>
            self.ligacoes_spec()[i].alfa < self.atomos_spec().len()
                && self.ligacoes_spec()[i].beta < self.atomos_spec().len()
    }

    pub closed spec fn atomos_spec(&self) -> Seq<Elemento> {
        self.atomos@
    }

    pub closed spec fn ligacoes_spec(&self) -> Seq<Ligacao> {
        self.ligacoes@
    }

    /// A molecule with no atoms.
    pub fn vazia() -> (r: Molecula)
        ensures
            r.atomos_spec().len() == 0,
            r.ligacoes_spec().len() == 0,
            r.bem_formada(),
    {
        Molecula { atomos: Vec::new(), ligacoes: Vec::new() }
    }

    /// A molecule holding `semente` alone, at index 0.
    pub fn new(semente: Elemento) -> (r: Molecula)
        ensures
            r.atomos_spec() == seq![semente],
            r.ligacoes_spec().len() == 0,
            r.bem_formada(),
    {
        let mut atomos: Vec<Elemento> = Vec::new();
        atomos.push(semente);
        Molecula { atomos, ligacoes: Vec::new() }
    }

    /// The atoms, in insertion order.
    pub fn get_atomos(&self) -> (r: &Vec<Elemento>)
        ensures
            r@ == self.atomos_spec(),
    {
        &self.atomos
    }

    /// Every bond that touches the atom at `index`, in insertion order.
    pub fn get_ligacoes(&self, index: usize) -> (r: Vec<Ligacao>)
        ensures
            r@ == ligacoes_de(self.ligacoes_spec(), index as int),
    {
        let mut r: Vec<Ligacao> = Vec::new();
        let mut i: usize = 0;
        while i < self.ligacoes.len()
            invariant
                i <= self.ligacoes@.len(),
                r@ == ligacoes_de(self.ligacoes@.subrange(0, i as int), index as int),
            decreases self.ligacoes@.len() - i,
        {
            let l = self.ligacoes[i];
            assert(self.ligacoes@.subrange(0, i as int + 1).drop_last() =~= self.ligacoes@.subrange(0, i as int));
            if l.alfa == index || l.beta == index {
                r.push(l);
            }
            i = i + 1;
        }
        assert(self.ligacoes@.subrange(0, i as int) =~= self.ligacoes@);
        r
    }

    fn disponiveis_exec(&self, index: usize, ignorar: Option<&Ligacao>) -> (r: Vec<Ligacao>)
        ensures
            r@ == disponiveis(self.ligacoes@, index as int, match ignorar { Some(l) => Some(*l), None => None }),
    {
        let ghost ig = match ignorar { Some(l) => Some(*l), None => None };
        let mut r: Vec<Ligacao> = Vec::new();
        let mut i: usize = 0;
        while i < self.ligacoes.len()
            invariant
                i <= self.ligacoes@.len(),
                ig == match ignorar { Some(l) => Some(*l), None => None::<Ligacao> },
                r@ == disponiveis(self.ligacoes@.subrange(0, i as int), index as int, ig),
            decreases self.ligacoes@.len() - i,
        {
            let l = self.ligacoes[i];
            assert(self.ligacoes@.subrange(0, i as int + 1).drop_last() =~= self.ligacoes@.subrange(0, i as int));
            let ignorada = match ignorar {
                Some(x) => *x == l,
                None => false,
            };
            if (l.alfa == index || l.beta == index) && !ignorada {
                r.push(l);
            }
            i = i + 1;
        }
        assert(self.ligacoes@.subrange(0, i as int) =~= self.ligacoes@);
        r
    }

    fn nox_rec(&self, index: usize, ignorar: Option<&Ligacao>, passos: usize) -> (r: Result<i32, ErroQuimico>)
        ensures
            match nox_spec(self.atomos@, self.ligacoes@, index as int, match ignorar { Some(l) => Some(*l), None => None }, passos as nat) {
                Ok(v) => r == Ok::<i32, ErroQuimico>(v as i32),
                Err(e) => r == Err::<i32, ErroQuimico>(e),
            },
        decreases passos,
    {
        if index >= self.atomos.len() {
            return Err(ErroQuimico::IndiceInvalido);
        }
        let d = self.disponiveis_exec(index, ignorar);
        if d.len() <= 1 {
            return self.atomos[index].get_nox();
        }
        if passos == 0 {
            return Err(ErroQuimico::EstruturaCiclica);
        }
        let ghost p = (passos - 1) as nat;
        let ghost ig = match ignorar { Some(l) => Some(*l), None => None::<Ligacao> };
        assert(nox_spec(self.atomos@, self.ligacoes@, index as int, ig, passos as nat) == match soma_spec(
            self.atomos@, self.ligacoes@, index as int, d@, p) {
            Err(e) => Err(e),
            Ok(s) => if cabe_i32(-s) { Ok(-s) } else { Err(ErroQuimico::Estouro) },
        });
        let mut soma: i32 = 0;
        let mut i: usize = 0;
        while i < d.len()
            invariant
                i <= d@.len(),
                passos > 0,
                p == passos - 1,
                nox_spec(self.atomos@, self.ligacoes@, index as int, ig, passos as nat) == match soma_spec(
                    self.atomos@, self.ligacoes@, index as int, d@, p) {
                    Err(e) => Err(e),
                    Ok(s) => if cabe_i32(-s) { Ok(-s) } else { Err(ErroQuimico::Estouro) },
                },
                ig == match ignorar { Some(l) => Some(*l), None => None::<Ligacao> },
                soma_spec(self.atomos@, self.ligacoes@, index as int, d@.subrange(0, i as int), p) == Ok::<int, ErroQuimico>(soma as int),
            decreases d@.len() - i,
        {
            let l = d[i];
            let ghost pre = d@.subrange(0, i as int);
            assert(d@.subrange(0, i as int + 1).drop_last() =~= pre);
            assert(d@.subrange(0, i as int + 1).last() == l);
            let viz: usize = if l.alfa == index { l.beta } else { l.alfa };
            let v = self.nox_rec(viz, Some(&l), passos - 1);
            match v {
                Err(e) => {
                    assert(soma_spec(self.atomos@, self.ligacoes@, index as int, d@.subrange(0, i as int + 1), p)
                        == Err::<int, ErroQuimico>(e));
                    proof {
                        lemma_soma_erro_propaga(self.atomos@, self.ligacoes@, index as int, d@, i as int + 1, p);
                    }
                    return Err(e);
                },
                Ok(v) => {
                    match soma.checked_add(v) {
                        Some(s) => {
                            soma = s;
                        },
                        None => {
                            assert(soma_spec(self.atomos@, self.ligacoes@, index as int, d@.subrange(0, i as int + 1), p)
                                == Err::<int, ErroQuimico>(ErroQuimico::Estouro));
                            proof {
                                lemma_soma_erro_propaga(self.atomos@, self.ligacoes@, index as int, d@, i as int + 1, p);
                            }
                            return Err(ErroQuimico::Estouro);
                        },
                    }
                },
            }
            i = i + 1;
        }
        assert(d@.subrange(0, i as int) =~= d@);
        if soma == i32::MIN {
            return Err(ErroQuimico::Estouro);
        }
        Ok(-soma)
    }

    /// Oxidation number of the atom at `index`, ignoring bonds equal to `ignore`.
    pub fn get_nox(&self, index: usize, ignore: Option<&Ligacao>) -> (r: Result<i32, ErroQuimico>)
        ensures
            resultado_nox(*self, index as int, match ignore { Some(l) => Some(*l), None => None }, r),
    {
        self.nox_rec(index, ignore, self.atomos.len())
    }

    /// Appends `elemento` as a new atom bonded to the atom at `from`; returns its index.
    pub fn add_atom(&mut self, elemento: Elemento, from: usize, tipo: TipoDeLigacao, eletrons: NumeroDeLigacoes) -> (r: Result<usize, ErroQuimico>)
        ensures
            from < old(self).atomos_spec().len() ==> {
                &&& r == Ok::<usize, ErroQuimico>(old(self).atomos_spec().len() as usize)
                &&& final(self).atomos_spec() == old(self).atomos_spec().push(elemento)
                &&& final(self).ligacoes_spec() == old(self).ligacoes_spec().push(
                    Ligacao { tipo, eletrons_compartilhados: eletrons, alfa: from, beta: old(self).atomos_spec().len() as usize })
            },
            from >= old(self).atomos_spec().len() ==> {
                &&& r == Err::<usize, ErroQuimico>(ErroQuimico::IndiceInvalido)
                &&& final(self).atomos_spec() == old(self).atomos_spec()
                &&& final(self).ligacoes_spec() == old(self).ligacoes_spec()
            },
            old(self).bem_formada() ==> final(self).bem_formada(),
    {
        let size = self.atomos.len();
        if from >= size {
            return Err(ErroQuimico::IndiceInvalido);
        }
        self.atomos.push(elemento);
        self.ligacoes.push(Ligacao::new(from, size, tipo, eletrons));
        Ok(size)
    }
}

} // verus!
