//! The record kinds and their column schemas.

use vstd::prelude::*;
use vstd::string::*;
use crate::header::{all_canonical, texts};

verus! {

/// The kinds of catalogue record that a workbook can hold.
#[derive(Debug, Clone, Copy, PartialEq, Eq, Structural)]
pub enum RecordKind {
    Museological,
    Bibliographic,
    Archival,
}

/// How a header row is held against a schema's fields.
#[derive(Debug, Clone, Copy, PartialEq, Eq, Structural)]
pub enum MatchPolicy {
    /// The header must be the fields, column by column, in their order.
    ExactOrder,
    /// The header must name the same set of fields: neither the order of the
    /// columns nor a repeated column matters.
    SameSet,
}

/// The columns that a workbook of one record kind must have, as canonical field
/// identifiers, those among them that every row must give a value for, and the
/// way in which a header row is matched against the columns.
#[derive(Debug)]
pub struct Schema {
    pub fields: Vec<String>,
    pub required: Vec<String>,
    pub policy: MatchPolicy,
}

/// A schema over plain texts.
pub struct SchemaView {
    pub fields: Seq<Seq<char>>,
    pub required: Seq<Seq<char>>,
    pub policy: MatchPolicy,
}

impl View for Schema {
    type V = SchemaView;

    open spec fn view(&self) -> SchemaView {
        SchemaView {
            fields: texts(self.fields@),
            required: texts(self.required@),
            policy: self.policy,
        }
    }
}

/// Every required field is one of the schema's fields.
pub open spec fn required_within(required: Seq<Seq<char>>, fields: Seq<Seq<char>>) -> bool {
    forall|i: int| 0 <= i < required.len() ==> fields.contains(#[trigger] required[i])
}

impl SchemaView {
    /// The fields are canonical identifiers, none of them stands twice, and the
    /// required fields are among them.
    pub open spec fn wf(self) -> bool {
        &&& all_canonical(self.fields)
        &&& self.fields.no_duplicates()
        &&& required_within(self.required, self.fields)
    }
}

impl Schema {
    /// The fields are canonical identifiers, none of them stands twice, and the
    /// required fields are among them.
    pub open spec fn wf(&self) -> bool {
        self@.wf()
    }
}

/// The columns of a museological workbook.
pub open spec fn museological_fields() -> Seq<Seq<char>> {
    seq![
        "nderegistro"@,
        "outrosnumeros"@,
        "situacao"@,
        "denominacao"@,
        "titulo"@,
        "autor"@,
        "classificacao"@,
        "resumodescritivo"@,
        "dimensoes"@,
        "altura"@,
        "largura"@,
        "profundidade"@,
        "diametro"@,
        "espressura"@,
        "uniddepesagem"@,
        "peso"@,
        "materialtecnica"@,
        "estadodeconservacao"@,
        "localdeproducao"@,
        "datadeproducao"@,
        "condicoesdereproducao"@,
        "midiasrelacionadas"@,
    ]
}

/// The museological fields that need a value in every row.
pub open spec fn museological_required() -> Seq<Seq<char>> {
    seq![
        "nderegistro"@,
        "situacao"@,
        "denominacao"@,
        "autor"@,
        "resumodescritivo"@,
        "dimensoes"@,
        "materialtecnica"@,
        "estadodeconservacao"@,
        "condicoesdereproducao"@,
    ]
}

/// The columns of a bibliographic workbook.
pub open spec fn bibliographic_fields() -> Seq<Seq<char>> {
    seq![
        "nderegistro"@,
        "outrosnumeros"@,
        "situacao"@,
        "titulo"@,
        "tipo"@,
        "identificacaoresponsabilidade"@,
        "localproducao"@,
        "editora"@,
        "datadeproducao"@,
        "dimensaofisica"@,
        "materialtecnica"@,
        "encardenacao"@,
        "resumodescritivo"@,
        "estadodeconservacao"@,
        "assuntoprincipal"@,
        "assuntocronologico"@,
        "assuntogeografico"@,
        "condicoesdereproducao"@,
        "midiasrelacionadas"@,
    ]
}

/// The bibliographic fields that need a value in every row.
pub open spec fn bibliographic_required() -> Seq<Seq<char>> {
    seq![
        "nderegistro"@,
        "situacao"@,
        "titulo"@,
        "tipo"@,
        "identificacaoresponsabilidade"@,
        "localproducao"@,
        "editora"@,
        "datadeproducao"@,
        "dimensaofisica"@,
        "materialtecnica"@,
        "encardenacao"@,
        "resumodescritivo"@,
        "estadodeconservacao"@,
        "assuntoprincipal"@,
        "condicoesdereproducao"@,
    ]
}

/// The columns of an archival workbook.
pub open spec fn archival_fields() -> Seq<Seq<char>> {
    seq![
        "coddereferencia"@,
        "titulo"@,
        "data"@,
        "niveldedescricao"@,
        "dimensaoesuporte"@,
        "nomedoprodutor"@,
        "historiaadministrativabiografia"@,
        "historiaarquivistica"@,
        "procedencia"@,
        "ambitoeconteudo"@,
        "sistemadearranjo"@,
        "condicoesreproducao"@,
        "existenciaelocalizacaodosoriginais"@,
        "notassobreconservacao"@,
        "pontosacessoeindexacaodeassuntos"@,
        "midiasrelacionadas"@,
    ]
}

/// The archival fields that need a value in every row.
pub open spec fn archival_required() -> Seq<Seq<char>> {
    seq![
        "coddereferencia"@,
        "titulo"@,
        "data"@,
        "niveldedescricao"@,
        "dimensaoesuporte"@,
        "nomedoprodutor"@,
    ]
}

/// The field identifiers of a record kind's schema.
pub open spec fn fields_of(kind: RecordKind) -> Seq<Seq<char>> {
    match kind {
        RecordKind::Museological => museological_fields(),
        RecordKind::Bibliographic => bibliographic_fields(),
        RecordKind::Archival => archival_fields(),
    }
}

/// The required field identifiers of a record kind's schema.
pub open spec fn required_of(kind: RecordKind) -> Seq<Seq<char>> {
    match kind {
        RecordKind::Museological => museological_required(),
        RecordKind::Bibliographic => bibliographic_required(),
        RecordKind::Archival => archival_required(),
    }
}

/// The schema of a record kind. Every kind is matched as a set of fields.
pub open spec fn built_in(kind: RecordKind) -> SchemaView {
    SchemaView {
        fields: fields_of(kind),
        required: required_of(kind),
        policy: MatchPolicy::SameSet,
    }
}

/// In the schema of every record kind the required fields are among the fields.
pub proof fn lemma_required_fields_are_fields(kind: RecordKind)
    ensures
        required_within(required_of(kind), fields_of(kind)),
{
    match kind {
        RecordKind::Museological => {
            assert(museological_required()[0] == museological_fields()[0]);
            assert(museological_required()[1] == museological_fields()[2]);
            assert(museological_required()[2] == museological_fields()[3]);
            assert(museological_required()[3] == museological_fields()[5]);
            assert(museological_required()[4] == museological_fields()[7]);
            assert(museological_required()[5] == museological_fields()[8]);
            assert(museological_required()[6] == museological_fields()[16]);
            assert(museological_required()[7] == museological_fields()[17]);
            assert(museological_required()[8] == museological_fields()[20]);
        },
        RecordKind::Bibliographic => {
            assert(bibliographic_required()[0] == bibliographic_fields()[0]);
            assert(bibliographic_required()[1] == bibliographic_fields()[2]);
            assert(bibliographic_required()[2] == bibliographic_fields()[3]);
            assert(bibliographic_required()[3] == bibliographic_fields()[4]);
            assert(bibliographic_required()[4] == bibliographic_fields()[5]);
            assert(bibliographic_required()[5] == bibliographic_fields()[6]);
            assert(bibliographic_required()[6] == bibliographic_fields()[7]);
            assert(bibliographic_required()[7] == bibliographic_fields()[8]);
            assert(bibliographic_required()[8] == bibliographic_fields()[9]);
            assert(bibliographic_required()[9] == bibliographic_fields()[10]);
            assert(bibliographic_required()[10] == bibliographic_fields()[11]);
            assert(bibliographic_required()[11] == bibliographic_fields()[12]);
            assert(bibliographic_required()[12] == bibliographic_fields()[13]);
            assert(bibliographic_required()[13] == bibliographic_fields()[14]);
            assert(bibliographic_required()[14] == bibliographic_fields()[17]);
        },
        RecordKind::Archival => {
            assert(archival_required()[0] == archival_fields()[0]);
            assert(archival_required()[1] == archival_fields()[1]);
            assert(archival_required()[2] == archival_fields()[2]);
            assert(archival_required()[3] == archival_fields()[3]);
            assert(archival_required()[4] == archival_fields()[4]);
            assert(archival_required()[5] == archival_fields()[5]);
        },
    }
}

/// The museological fields are canonical identifiers, and no two of them are equal.
proof fn lemma_museological_fields_are_sound()
    ensures
        all_canonical(museological_fields()),
        museological_fields().no_duplicates(),
{
    reveal_strlit("nderegistro");
    reveal_strlit("outrosnumeros");
    reveal_strlit("situacao");
    reveal_strlit("denominacao");
    reveal_strlit("titulo");
    reveal_strlit("autor");
    reveal_strlit("classificacao");
    reveal_strlit("resumodescritivo");
    reveal_strlit("dimensoes");
    reveal_strlit("altura");
    reveal_strlit("largura");
    reveal_strlit("profundidade");
    reveal_strlit("diametro");
    reveal_strlit("espressura");
    reveal_strlit("uniddepesagem");
    reveal_strlit("peso");
    reveal_strlit("materialtecnica");
    reveal_strlit("estadodeconservacao");
    reveal_strlit("localdeproducao");
    reveal_strlit("datadeproducao");
    reveal_strlit("condicoesdereproducao");
    reveal_strlit("midiasrelacionadas");
    assert("nderegistro"@.len() == 11);
    assert("nderegistro"@[0] == 'n');
    assert("outrosnumeros"@.len() == 13);
    assert("outrosnumeros"@[0] == 'o');
    assert("situacao"@.len() == 8);
    assert("situacao"@[0] == 's');
    assert("denominacao"@.len() == 11);
    assert("denominacao"@[0] == 'd');
    assert("titulo"@.len() == 6);
    assert("titulo"@[0] == 't');
    assert("autor"@.len() == 5);
    assert("classificacao"@.len() == 13);
    assert("classificacao"@[0] == 'c');
    assert("resumodescritivo"@.len() == 16);
    assert("dimensoes"@.len() == 9);
    assert("altura"@.len() == 6);
    assert("altura"@[0] == 'a');
    assert("largura"@.len() == 7);
    assert("profundidade"@.len() == 12);
    assert("diametro"@.len() == 8);
    assert("diametro"@[0] == 'd');
    assert("espressura"@.len() == 10);
    assert("uniddepesagem"@.len() == 13);
    assert("uniddepesagem"@[0] == 'u');
    assert("peso"@.len() == 4);
    assert("materialtecnica"@.len() == 15);
    assert("materialtecnica"@[0] == 'm');
    assert("estadodeconservacao"@.len() == 19);
    assert("localdeproducao"@.len() == 15);
    assert("localdeproducao"@[0] == 'l');
    assert("datadeproducao"@.len() == 14);
    assert("condicoesdereproducao"@.len() == 21);
    assert("midiasrelacionadas"@.len() == 18);
}

/// The bibliographic fields are canonical identifiers, and no two of them are equal.
proof fn lemma_bibliographic_fields_are_sound()
    ensures
        all_canonical(bibliographic_fields()),
        bibliographic_fields().no_duplicates(),
{
    reveal_strlit("nderegistro");
    reveal_strlit("outrosnumeros");
    reveal_strlit("situacao");
    reveal_strlit("titulo");
    reveal_strlit("tipo");
    reveal_strlit("identificacaoresponsabilidade");
    reveal_strlit("localproducao");
    reveal_strlit("editora");
    reveal_strlit("datadeproducao");
    reveal_strlit("dimensaofisica");
    reveal_strlit("materialtecnica");
    reveal_strlit("encardenacao");
    reveal_strlit("resumodescritivo");
    reveal_strlit("estadodeconservacao");
    reveal_strlit("assuntoprincipal");
    reveal_strlit("assuntocronologico");
    reveal_strlit("assuntogeografico");
    reveal_strlit("condicoesdereproducao");
    reveal_strlit("midiasrelacionadas");
    assert("nderegistro"@.len() == 11);
    assert("outrosnumeros"@.len() == 13);
    assert("outrosnumeros"@[0] == 'o');
    assert("situacao"@.len() == 8);
    assert("titulo"@.len() == 6);
    assert("tipo"@.len() == 4);
    assert("identificacaoresponsabilidade"@.len() == 29);
    assert("localproducao"@.len() == 13);
    assert("localproducao"@[0] == 'l');
    assert("editora"@.len() == 7);
    assert("datadeproducao"@.len() == 14);
    assert("datadeproducao"@[1] == 'a');
    assert("dimensaofisica"@.len() == 14);
    assert("dimensaofisica"@[1] == 'i');
    assert("materialtecnica"@.len() == 15);
    assert("encardenacao"@.len() == 12);
    assert("resumodescritivo"@.len() == 16);
    assert("resumodescritivo"@[0] == 'r');
    assert("estadodeconservacao"@.len() == 19);
    assert("assuntoprincipal"@.len() == 16);
    assert("assuntoprincipal"@[0] == 'a');
    assert("assuntocronologico"@.len() == 18);
    assert("assuntocronologico"@[0] == 'a');
    assert("assuntogeografico"@.len() == 17);
    assert("condicoesdereproducao"@.len() == 21);
    assert("midiasrelacionadas"@.len() == 18);
    assert("midiasrelacionadas"@[0] == 'm');
}

/// The archival fields are canonical identifiers, and no two of them are equal.
proof fn lemma_archival_fields_are_sound()
    ensures
        all_canonical(archival_fields()),
        archival_fields().no_duplicates(),
{
    reveal_strlit("coddereferencia");
    reveal_strlit("titulo");
    reveal_strlit("data");
    reveal_strlit("niveldedescricao");
    reveal_strlit("dimensaoesuporte");
    reveal_strlit("nomedoprodutor");
    reveal_strlit("historiaadministrativabiografia");
    reveal_strlit("historiaarquivistica");
    reveal_strlit("procedencia");
    reveal_strlit("ambitoeconteudo");
    reveal_strlit("sistemadearranjo");
    reveal_strlit("condicoesreproducao");
    reveal_strlit("existenciaelocalizacaodosoriginais");
    reveal_strlit("notassobreconservacao");
    reveal_strlit("pontosacessoeindexacaodeassuntos");
    reveal_strlit("midiasrelacionadas");
    assert("coddereferencia"@.len() == 15);
    assert("coddereferencia"@[0] == 'c');
    assert("titulo"@.len() == 6);
    assert("data"@.len() == 4);
    assert("niveldedescricao"@.len() == 16);
    assert("niveldedescricao"@[0] == 'n');
    assert("dimensaoesuporte"@.len() == 16);
    assert("dimensaoesuporte"@[0] == 'd');
    assert("nomedoprodutor"@.len() == 14);
    assert("historiaadministrativabiografia"@.len() == 31);
    assert("historiaarquivistica"@.len() == 20);
    assert("procedencia"@.len() == 11);
    assert("ambitoeconteudo"@.len() == 15);
    assert("ambitoeconteudo"@[0] == 'a');
    assert("sistemadearranjo"@.len() == 16);
    assert("sistemadearranjo"@[0] == 's');
    assert("condicoesreproducao"@.len() == 19);
    assert("existenciaelocalizacaodosoriginais"@.len() == 34);
    assert("notassobreconservacao"@.len() == 21);
    assert("pontosacessoeindexacaodeassuntos"@.len() == 32);
    assert("midiasrelacionadas"@.len() == 18);
}

/// In the schema of every record kind the fields are canonical identifiers, so
/// that a header row can name them, and no field stands twice.
pub proof fn lemma_fields_are_sound(kind: RecordKind)
    ensures
        all_canonical(fields_of(kind)),
        fields_of(kind).no_duplicates(),
{
    match kind {
        RecordKind::Museological => lemma_museological_fields_are_sound(),
        RecordKind::Bibliographic => lemma_bibliographic_fields_are_sound(),
        RecordKind::Archival => lemma_archival_fields_are_sound(),
    }
}

/// Appends one name to a list of names.
fn push_name(v: &mut Vec<String>, name: &str)
    ensures
        texts(final(v)@) == texts(old(v)@).push(name@),
{
    v.push(name.to_owned());
    assert(texts(v@) =~= texts(old(v)@).push(name@));
}

/// The museological columns as owned strings.
fn museological_field_names() -> (v: Vec<String>)
    ensures
        texts(v@) == museological_fields(),
{
    let mut v: Vec<String> = Vec::new();
    assert(texts(v@) =~= Seq::<Seq<char>>::empty());
    push_name(&mut v, "nderegistro");
    push_name(&mut v, "outrosnumeros");
    push_name(&mut v, "situacao");
    push_name(&mut v, "denominacao");
    push_name(&mut v, "titulo");
    push_name(&mut v, "autor");
    push_name(&mut v, "classificacao");
    push_name(&mut v, "resumodescritivo");
    push_name(&mut v, "dimensoes");
    push_name(&mut v, "altura");
    push_name(&mut v, "largura");
    push_name(&mut v, "profundidade");
    push_name(&mut v, "diametro");
    push_name(&mut v, "espressura");
    push_name(&mut v, "uniddepesagem");
    push_name(&mut v, "peso");
    push_name(&mut v, "materialtecnica");
    push_name(&mut v, "estadodeconservacao");
    push_name(&mut v, "localdeproducao");
    push_name(&mut v, "datadeproducao");
    push_name(&mut v, "condicoesdereproducao");
    push_name(&mut v, "midiasrelacionadas");
    v
}

/// The required museological fields as owned strings.
fn museological_required_names() -> (v: Vec<String>)
    ensures
        texts(v@) == museological_required(),
{
    let mut v: Vec<String> = Vec::new();
    assert(texts(v@) =~= Seq::<Seq<char>>::empty());
    push_name(&mut v, "nderegistro");
    push_name(&mut v, "situacao");
    push_name(&mut v, "denominacao");
    push_name(&mut v, "autor");
    push_name(&mut v, "resumodescritivo");
    push_name(&mut v, "dimensoes");
    push_name(&mut v, "materialtecnica");
    push_name(&mut v, "estadodeconservacao");
    push_name(&mut v, "condicoesdereproducao");
    v
}

/// The bibliographic columns as owned strings.
fn bibliographic_field_names() -> (v: Vec<String>)
    ensures
        texts(v@) == bibliographic_fields(),
{
    let mut v: Vec<String> = Vec::new();
    assert(texts(v@) =~= Seq::<Seq<char>>::empty());
    push_name(&mut v, "nderegistro");
    push_name(&mut v, "outrosnumeros");
    push_name(&mut v, "situacao");
    push_name(&mut v, "titulo");
    push_name(&mut v, "tipo");
    push_name(&mut v, "identificacaoresponsabilidade");
    push_name(&mut v, "localproducao");
    push_name(&mut v, "editora");
    push_name(&mut v, "datadeproducao");
    push_name(&mut v, "dimensaofisica");
    push_name(&mut v, "materialtecnica");
    push_name(&mut v, "encardenacao");
    push_name(&mut v, "resumodescritivo");
    push_name(&mut v, "estadodeconservacao");
    push_name(&mut v, "assuntoprincipal");
    push_name(&mut v, "assuntocronologico");
    push_name(&mut v, "assuntogeografico");
    push_name(&mut v, "condicoesdereproducao");
    push_name(&mut v, "midiasrelacionadas");
    v
}

/// The required bibliographic fields as owned strings.
fn bibliographic_required_names() -> (v: Vec<String>)
    ensures
        texts(v@) == bibliographic_required(),
{
    let mut v: Vec<String> = Vec::new();
    assert(texts(v@) =~= Seq::<Seq<char>>::empty());
    push_name(&mut v, "nderegistro");
    push_name(&mut v, "situacao");
    push_name(&mut v, "titulo");
    push_name(&mut v, "tipo");
    push_name(&mut v, "identificacaoresponsabilidade");
    push_name(&mut v, "localproducao");
    push_name(&mut v, "editora");
    push_name(&mut v, "datadeproducao");
    push_name(&mut v, "dimensaofisica");
    push_name(&mut v, "materialtecnica");
    push_name(&mut v, "encardenacao");
    push_name(&mut v, "resumodescritivo");
    push_name(&mut v, "estadodeconservacao");
    push_name(&mut v, "assuntoprincipal");
    push_name(&mut v, "condicoesdereproducao");
    v
}

/// The archival columns as owned strings.
fn archival_field_names() -> (v: Vec<String>)
    ensures
        texts(v@) == archival_fields(),
{
    let mut v: Vec<String> = Vec::new();
    assert(texts(v@) =~= Seq::<Seq<char>>::empty());
    push_name(&mut v, "coddereferencia");
    push_name(&mut v, "titulo");
    push_name(&mut v, "data");
    push_name(&mut v, "niveldedescricao");
    push_name(&mut v, "dimensaoesuporte");
    push_name(&mut v, "nomedoprodutor");
    push_name(&mut v, "historiaadministrativabiografia");
    push_name(&mut v, "historiaarquivistica");
    push_name(&mut v, "procedencia");
    push_name(&mut v, "ambitoeconteudo");
    push_name(&mut v, "sistemadearranjo");
    push_name(&mut v, "condicoesreproducao");
    push_name(&mut v, "existenciaelocalizacaodosoriginais");
    push_name(&mut v, "notassobreconservacao");
    push_name(&mut v, "pontosacessoeindexacaodeassuntos");
    push_name(&mut v, "midiasrelacionadas");
    v
}

/// The required archival fields as owned strings.
fn archival_required_names() -> (v: Vec<String>)
    ensures
        texts(v@) == archival_required(),
{
    let mut v: Vec<String> = Vec::new();
    assert(texts(v@) =~= Seq::<Seq<char>>::empty());
    push_name(&mut v, "coddereferencia");
    push_name(&mut v, "titulo");
    push_name(&mut v, "data");
    push_name(&mut v, "niveldedescricao");
    push_name(&mut v, "dimensaoesuporte");
    push_name(&mut v, "nomedoprodutor");
    v
}

/// The schema of a record kind.
pub fn schema_for(kind: RecordKind) -> (s: Schema)
    ensures
        s@ == built_in(kind),
        s.wf(),
{
    proof {
        lemma_required_fields_are_fields(kind);
        lemma_fields_are_sound(kind);
    }
    match kind {
        RecordKind::Museological => Schema {
            fields: museological_field_names(),
            required: museological_required_names(),
            policy: MatchPolicy::SameSet,
        },
        RecordKind::Bibliographic => Schema {
            fields: bibliographic_field_names(),
            required: bibliographic_required_names(),
            policy: MatchPolicy::SameSet,
        },
        RecordKind::Archival => Schema {
            fields: archival_field_names(),
            required: archival_required_names(),
            policy: MatchPolicy::SameSet,
        },
    }
}

} // verus!
