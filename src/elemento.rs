use vstd::prelude::*;
use vstd::string::StrSliceExecFns;

verus! {

/// Failures that the library reports to its callers.
#[derive(Debug, Clone, Copy, PartialEq, Eq, Structural)]
pub enum ErroQuimico {
    /// No element of the catalog has the requested symbol.
    NaoEncontrado,
    /// An element's electron-shell sequence is empty.
    DadosMalformados,
    /// An atom index does not name an atom of the molecule.
    IndiceInvalido,
    /// The bond graph is not a tree: traversal would not end.
    EstruturaCiclica,
    /// An oxidation number left the range of `i32`.
    Estouro,
}

/// Physical state of an element.
#[derive(Debug, Clone, Copy, PartialEq, Eq, Structural)]
pub enum Fase {
    Solido,
    Liquido,
    Gasoso,
    Vazio,
}

/// Category of an element in the periodic table.
#[derive(Debug, Clone, Copy, PartialEq, Eq, Structural)]
pub enum Categoria {
    Hidrogenio,
    MetalAlcalino,
    MetalAlcalinoTerroso,
    MetalDeTransicao,
    Metaloide,
    OutroMetal,
    Ametal,
    Halogenio,
    GasNobre,
    Lantanideo,
    Actinideo,
    Desconhecido,
}

/// The category named by a label of the element data; unknown labels give `Desconhecido`.
pub open spec fn categoria_spec(rotulo: Seq<char>) -> Categoria {
    if rotulo == "hidrogênio"@ {
        Categoria::Hidrogenio
    } else if rotulo == "metal alcalino"@ {
        Categoria::MetalAlcalino
    } else if rotulo == "metal alcalino terroso"@ {
        Categoria::MetalAlcalinoTerroso
    } else if rotulo == "metal de transição"@ {
        Categoria::MetalDeTransicao
    } else if rotulo == "outros metais"@ {
        Categoria::OutroMetal
    } else if rotulo == "metaloide"@ {
        Categoria::Metaloide
    } else if rotulo == "ametal"@ {
        Categoria::Ametal
    } else if rotulo == "halogênio"@ {
        Categoria::Halogenio
    } else if rotulo == "gás nobre"@ {
        Categoria::GasNobre
    } else if rotulo == "lantanídeo"@ {
        Categoria::Lantanideo
    } else if rotulo == "actnídeo"@ {
        Categoria::Actinideo
    } else {
        Categoria::Desconhecido
    }
}

impl Categoria {
    /// Maps a category label of the element data to its variant; never fails.
    pub fn do_rotulo(rotulo: &String) -> (r: Categoria)
        ensures
            r == categoria_spec(rotulo@),
    {
        if mesmo_texto(rotulo, "hidrogênio") {
            Categoria::Hidrogenio
        } else if mesmo_texto(rotulo, "metal alcalino") {
            Categoria::MetalAlcalino
        } else if mesmo_texto(rotulo, "metal alcalino terroso") {
            Categoria::MetalAlcalinoTerroso
        } else if mesmo_texto(rotulo, "metal de transição") {
            Categoria::MetalDeTransicao
        } else if mesmo_texto(rotulo, "outros metais") {
            Categoria::OutroMetal
        } else if mesmo_texto(rotulo, "metaloide") {
            Categoria::Metaloide
        } else if mesmo_texto(rotulo, "ametal") {
            Categoria::Ametal
        } else if mesmo_texto(rotulo, "halogênio") {
            Categoria::Halogenio
        } else if mesmo_texto(rotulo, "gás nobre") {
            Categoria::GasNobre
        } else if mesmo_texto(rotulo, "lantanídeo") {
            Categoria::Lantanideo
        } else if mesmo_texto(rotulo, "actnídeo") {
            Categoria::Actinideo
        } else {
            Categoria::Desconhecido
        }
    }
}

impl Fase {
    /// Maps the state letter of the element data ('S', 'L', 'G') to its variant.
    pub fn da_letra(c: char) -> (r: Fase)
        ensures
            r == (if c == 'S' { Fase::Solido } else if c == 'L' { Fase::Liquido } else if c == 'G' {
                Fase::Gasoso
            } else {
                Fase::Vazio
            }),
    {
        match c {
            'S' => Fase::Solido,
            'L' => Fase::Liquido,
            'G' => Fase::Gasoso,
            _ => Fase::Vazio,
        }
    }
}

/// One periodic-table entry; an atom of a molecule is an independent copy of one.
#[derive(Debug, Clone)]
pub struct Elemento {
    pub numero_atomico: i32,
    pub nome: String,
    pub simbolo: String,
    pub categoria: Categoria,
    pub periodo: i32,
    pub familia: i32,
    pub fase: Fase,
    /// Electron-shell occupancy, innermost first; the last one is the valence shell.
    pub camadas: Vec<i32>,
    /// Known oxidation states (informational).
    pub estados_de_oxidacao: Vec<i32>,
    /// Charge assigned to this atom, if any.
    pub carga: Option<i32>,
}

/// The valence-shell electron count: the last shell, if there is one.
pub open spec fn valencia_spec(e: Elemento) -> Option<int> {
    if e.camadas@.len() == 0 {
        None
    } else {
        Some(e.camadas@.last() as int)
    }
}

/// Fixed oxidation numbers, first matching rule wins.
pub open spec fn nox_fixo_spec(e: Elemento) -> Option<int> {
    if e.familia == 1 || e.simbolo@ == "Ag"@ {
        Some(1)
    } else if e.familia == 2 || e.simbolo@ == "Zn"@ || e.simbolo@ == "Cd"@ {
        Some(2)
    } else if e.categoria == Categoria::Halogenio {
        Some(-1)
    } else if e.simbolo@ == "Al"@ {
        Some(3)
    } else if e.simbolo@ == "O"@ || e.simbolo@ == "S"@ {
        Some(-2)
    } else {
        None
    }
}

/// Default oxidation number: the assigned charge, else the fixed value, else the valence count.
pub open spec fn nox_padrao_spec(e: Elemento) -> Result<int, ErroQuimico> {
    match e.carga {
        Some(c) => Ok(c as int),
        None => match nox_fixo_spec(e) {
            Some(d) => Ok(d),
            None => match valencia_spec(e) {
                Some(v) => Ok(v),
                None => Err(ErroQuimico::DadosMalformados),
            },
        },
    }
}

/// The fixed-valence rules are tried in order: an element of family 1 gets 1 even
/// when it is also marked as a halogen.
pub proof fn lei_precedencia_nox_fixo(e: Elemento)
    requires
        e.familia == 1,
        e.categoria == Categoria::Halogenio,
    ensures
        nox_fixo_spec(e) == Some(1int),
{
}

/// Vowels that are removed from the end of a name to form an acid stem.
pub open spec fn vogal(c: char) -> bool {
    c == 'a' || c == 'e' || c == 'i' || c == 'o' || c == 'u'
}

/// `s` without its trailing vowels.
pub open spec fn sem_vogais_finais(s: Seq<char>) -> Seq<char>
    decreases s.len(),
{
    if s.len() > 0 && vogal(s.last()) {
        sem_vogais_finais(s.drop_last())
    } else {
        s
    }
}

/// The ASCII transliteration of `s`.
pub uninterp spec fn ascii_de(s: Seq<char>) -> Seq<char>;

/// Relies on unidecode::unidecode: its result is the ASCII transliteration of the
/// characters of `s`, one after the other, so the empty string stays empty.
#[verifier::external_body]
fn translitera(s: &str) -> (r: String)
    ensures
        r@ == ascii_de(s@),
        s@.len() == 0 ==> r@.len() == 0,
{
    unidecode::unidecode(s)
}

/// The stem used to name an acid after an element.
pub open spec fn radical_spec(nome: Seq<char>) -> Seq<char> {
    if nome == "nitrogênio"@ {
        "nitr"@
    } else if nome == "enxofre"@ {
        "sulfur"@
    } else {
        ascii_de(sem_vogais_finais(nome))
    }
}

/// A default oxidation number always fits an `i32`.
pub proof fn lemma_nox_padrao_cabe(e: Elemento)
    ensures
        nox_padrao_spec(e) matches Ok(v) ==> i32::MIN <= v <= i32::MAX,
{
}

fn mesmo_texto(a: &String, b: &str) -> (r: bool)
    ensures
        r == (a@ == b@),
{
    let b_owned = b.to_owned();
    *a == b_owned
}

impl Elemento {
    /// The element's name without trailing vowels, transliterated to ASCII.
    pub fn remover_posfix(&self) -> (r: String)
        ensures
            r@ == radical_spec(self.nome@),
    {
        if mesmo_texto(&self.nome, "nitrogênio") {
            return "nitr".to_owned();
        }
        if mesmo_texto(&self.nome, "enxofre") {
            return "sulfur".to_owned();
        }
        let nome = self.nome.as_str();
        let mut k: usize = nome.unicode_len();
        let mut parar = false;
        assert(nome@.subrange(0, k as int) =~= nome@);
        while k > 0 && !parar
            invariant
                k <= nome@.len(),
                sem_vogais_finais(nome@) == sem_vogais_finais(nome@.subrange(0, k as int)),
                parar ==> k > 0 && !vogal(nome@[k - 1]),
            decreases k, if parar { 0int } else { 1int },
        {
            let c = nome.get_char(k - 1);
            if c == 'a' || c == 'e' || c == 'i' || c == 'o' || c == 'u' {
                assert(nome@.subrange(0, k as int).drop_last() =~= nome@.subrange(0, k as int - 1));
                k = k - 1;
            } else {
                parar = true;
            }
        }
        assert(nome@.subrange(0, k as int) == sem_vogais_finais(nome@.subrange(0, k as int)));
        let radical = nome.substring_char(0, k);
        translitera(radical)
    }

    pub fn get_fase(&self) -> (r: Fase)
        ensures
            r == self.fase,
    {
        self.fase
    }

    pub fn get_categoria(&self) -> (r: Categoria)
        ensures
            r == self.categoria,
    {
        self.categoria
    }

    pub fn get_estados_de_oxidacao(&self) -> (r: Vec<i32>)
        ensures
            r@ == self.estados_de_oxidacao@,
    {
        self.estados_de_oxidacao.clone()
    }

    pub fn get_camadas(&self) -> (r: Vec<i32>)
        ensures
            r@ == self.camadas@,
    {
        self.camadas.clone()
    }

    /// Electron count of the outermost shell.
    pub fn camada_de_valencia(&self) -> (r: Result<i32, ErroQuimico>)
        ensures
            match valencia_spec(*self) {
                Some(v) => r == Ok::<i32, ErroQuimico>(v as i32),
                None => r == Err::<i32, ErroQuimico>(ErroQuimico::DadosMalformados),
            },
    {
        let n = self.camadas.len();
        if n == 0 {
            Err(ErroQuimico::DadosMalformados)
        } else {
            Ok(self.camadas[n - 1])
        }
    }

    /// Oxidation number given by the fixed-valence rules, if one applies.
    pub fn get_fixed_nox(&self) -> (r: Option<i32>)
        ensures
            match nox_fixo_spec(*self) {
                Some(v) => r == Some(v as i32),
                None => r.is_none(),
            },
    {
        if self.familia == 1 || mesmo_texto(&self.simbolo, "Ag") {
            return Some(1);
        }
        if self.familia == 2 || mesmo_texto(&self.simbolo, "Zn") || mesmo_texto(&self.simbolo, "Cd") {
            return Some(2);
        }
        if self.categoria == Categoria::Halogenio {
            return Some(-1);
        }
        if mesmo_texto(&self.simbolo, "Al") {
            return Some(3);
        }
        if mesmo_texto(&self.simbolo, "O") || mesmo_texto(&self.simbolo, "S") {
            return Some(-2);
        }
        None
    }

    /// Default oxidation number of this atom.
    pub fn get_nox(&self) -> (r: Result<i32, ErroQuimico>)
        ensures
            match nox_padrao_spec(*self) {
                Ok(v) => r == Ok::<i32, ErroQuimico>(v as i32),
                Err(e) => r == Err::<i32, ErroQuimico>(e),
            },
    {
        match self.carga {
            Some(c) => Ok(c),
            None => match self.get_fixed_nox() {
                Some(d) => Ok(d),
                None => self.camada_de_valencia(),
            },
        }
    }

    pub fn set_carga(&mut self, nova_carga: i32)
        ensures
            final(self).carga == Some(nova_carga),
            final(self).numero_atomico == old(self).numero_atomico,
            final(self).nome == old(self).nome,
            final(self).simbolo == old(self).simbolo,
            final(self).categoria == old(self).categoria,
            final(self).periodo == old(self).periodo,
            final(self).familia == old(self).familia,
            final(self).fase == old(self).fase,
            final(self).camadas == old(self).camadas,
            final(self).estados_de_oxidacao == old(self).estados_de_oxidacao,
    {
        self.carga = Some(nova_carga);
    }

    /// The first element of `lista` whose symbol is `simbolo`.
    pub fn encontrar_por_simbolo<'a>(lista: &'a Vec<Elemento>, simbolo: &str) -> (r: Result<&'a Elemento, ErroQuimico>)
        ensures
            match r {
                Ok(e) => exists|i: int|
                    0 <= i < lista@.len() && lista@[i] == *e && e.simbolo@ == simbolo@
                        && forall|j: int| 0 <= j < i ==> lista@[j].simbolo@ != simbolo@,
                Err(err) => err == ErroQuimico::NaoEncontrado
                    && forall|j: int| 0 <= j < lista@.len() ==> lista@[j].simbolo@ != simbolo@,
            },
    {
        let mut i: usize = 0;
        while i < lista.len()
            invariant
                i <= lista@.len(),
                forall|j: int| 0 <= j < i ==> lista@[j].simbolo@ != simbolo@,
            decreases lista@.len() - i,
        {
            if mesmo_texto(&lista[i].simbolo, simbolo) {
                return Ok(&lista[i]);
            }
            i = i + 1;
        }
        Err(ErroQuimico::NaoEncontrado)
    }
}

} // verus!
