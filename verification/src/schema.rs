//! The schema model: a sum type as the derivation reads it.
//!
//! A [`Schema`] names the type and lists its variants in declaration order.
//! Each [`Variant`] has a shape and the raw configuration entries that were
//! attached to it. Field types are carried along as text and never examined.

use crate::text::str_eq;
use vstd::prelude::*;

verus! {

/// The category of a variant's shape.
#[derive(Clone, Copy, Debug, PartialEq, Eq, Structural)]
pub enum ShapeKind {
    /// No fields.
    Unit,
    /// Fields addressed by position.
    Positional,
    /// Fields addressed by name.
    Named,
}

/// A named field of a variant.
#[derive(Clone, Debug)]
pub struct Field {
    pub name: String,
    /// The field's type, as written in the declaration.
    pub ty: String,
}

/// What a [`Field`] holds, as a mathematical value.
pub struct FieldView {
    pub name: Seq<char>,
    pub ty: Seq<char>,
}

impl View for Field {
    type V = FieldView;

    open spec fn view(&self) -> FieldView {
        FieldView { name: self.name@, ty: self.ty@ }
    }
}

/// The fields that a variant carries.
#[derive(Clone, Debug)]
pub enum VariantShape {
    Unit,
    /// The types of the positional fields, in order.
    Positional(Vec<String>),
    /// The named fields, in declaration order.
    Named(Vec<Field>),
}

/// What a [`VariantShape`] holds, as a mathematical value.
pub enum VariantShapeView {
    Unit,
    Positional(Seq<Seq<char>>),
    Named(Seq<FieldView>),
}

impl View for VariantShape {
    type V = VariantShapeView;

    open spec fn view(&self) -> VariantShapeView {
        match self {
            VariantShape::Unit => VariantShapeView::Unit,
            VariantShape::Positional(types) => VariantShapeView::Positional(
                types@.map_values(|t: String| t@),
            ),
            VariantShape::Named(fields) => VariantShapeView::Named(
                fields@.map_values(|f: Field| f@),
            ),
        }
    }
}

impl VariantShapeView {
    /// The category of the shape.
    pub open spec fn kind(self) -> ShapeKind {
        match self {
            VariantShapeView::Unit => ShapeKind::Unit,
            VariantShapeView::Positional(_) => ShapeKind::Positional,
            VariantShapeView::Named(_) => ShapeKind::Named,
        }
    }

    /// The number of fields.
    pub open spec fn field_count(self) -> nat {
        match self {
            VariantShapeView::Unit => 0,
            VariantShapeView::Positional(types) => types.len(),
            VariantShapeView::Named(fields) => fields.len(),
        }
    }

    /// The position of the first named field called `name`; `None` where the
    /// shape has no such field, or no named fields at all.
    pub open spec fn position_of(self, name: Seq<char>) -> Option<nat> {
        match self {
            VariantShapeView::Named(fields) => find_field(fields, name),
            _ => None,
        }
    }
}

/// The position of the first of `fields` that is called `name`.
pub open spec fn find_field(fields: Seq<FieldView>, name: Seq<char>) -> Option<nat>
    decreases fields.len(),
{
    if fields.len() == 0 {
        None
    } else {
        match find_field(fields.drop_last(), name) {
            Some(p) => Some(p),
            None => if fields.last().name == name {
                Some((fields.len() - 1) as nat)
            } else {
                None
            },
        }
    }
}

/// What `find_field` finds: the least position whose field has the name.
pub proof fn lemma_find_field(fields: Seq<FieldView>, name: Seq<char>)
    ensures
        match find_field(fields, name) {
            Some(p) => p < fields.len() && fields[p as int].name == name && forall|j: int|
                0 <= j < p ==> (#[trigger] fields[j]).name != name,
            None => forall|j: int| 0 <= j < fields.len() ==> (#[trigger] fields[j]).name != name,
        },
    decreases fields.len(),
{
    if fields.len() > 0 {
        let front = fields.drop_last();
        lemma_find_field(front, name);
        assert(forall|j: int| 0 <= j < front.len() ==> front[j] == fields[j]);
    }
}

/// A field found among the first `n` fields is the field found among all.
pub proof fn lemma_find_field_prefix(fields: Seq<FieldView>, name: Seq<char>, n: int)
    requires
        0 <= n <= fields.len(),
        find_field(fields.take(n), name) is Some,
    ensures
        find_field(fields, name) == find_field(fields.take(n), name),
    decreases fields.len() - n,
{
    if n == fields.len() {
        assert(fields.take(n) =~= fields);
    } else {
        assert(fields.take(n + 1).drop_last() =~= fields.take(n));
        lemma_find_field_prefix(fields, name, n + 1);
    }
}

impl VariantShape {
    /// The category of the shape.
    pub fn kind(&self) -> (kind: ShapeKind)
        ensures
            kind == self@.kind(),
    {
        match self {
            VariantShape::Unit => ShapeKind::Unit,
            VariantShape::Positional(_) => ShapeKind::Positional,
            VariantShape::Named(_) => ShapeKind::Named,
        }
    }

    /// The number of fields.
    pub fn field_count(&self) -> (count: usize)
        ensures
            count == self@.field_count(),
    {
        match self {
            VariantShape::Unit => 0,
            VariantShape::Positional(types) => types.len(),
            VariantShape::Named(fields) => fields.len(),
        }
    }

    /// The position of the first named field called `name`; `None` where the
    /// shape has no such field, or no named fields at all.
    pub fn position_of(&self, name: &str) -> (position: Option<usize>)
        ensures
            position matches Some(p) ==> self@.position_of(name@) == Some(p as nat),
            position is None ==> self@.position_of(name@) is None,
    {
        match self {
            VariantShape::Named(fields) => {
                let ghost all = fields@.map_values(|f: Field| f@);
                let mut i: usize = 0;
                while i < fields.len()
                    invariant
                        i <= fields.len(),
                        all == fields@.map_values(|f: Field| f@),
                        self@ == VariantShapeView::Named(all),
                        find_field(all.take(i as int), name@) is None,
                    decreases fields.len() - i,
                {
                    proof {
                        assert(all.take(i + 1).drop_last() =~= all.take(i as int));
                    }
                    if str_eq(fields[i].name.as_str(), name) {
                        proof {
                            assert(all.take(i + 1).last().name == name@);
                            lemma_find_field_prefix(all, name@, i + 1);
                        }
                        return Some(i);
                    }
                    i += 1;
                }
                proof {
                    assert(all.take(i as int) =~= all);
                }
                None
            },
            _ => None,
        }
    }
}

/// The value of a configuration entry, as it was written.
#[derive(Clone, Debug)]
pub enum ConfigValue {
    /// An integer literal.
    Int(u64),
    /// A string literal.
    Str(String),
    /// A literal of any other kind.
    Other,
    /// No value: the key stands alone.
    Missing,
    /// A group of further entries where a single value was expected.
    Nested,
}

/// What a [`ConfigValue`] holds, as a mathematical value.
pub enum ConfigValueView {
    Int(u64),
    Str(Seq<char>),
    Other,
    Missing,
    Nested,
}

impl View for ConfigValue {
    type V = ConfigValueView;

    open spec fn view(&self) -> ConfigValueView {
        match self {
            ConfigValue::Int(n) => ConfigValueView::Int(*n),
            ConfigValue::Str(text) => ConfigValueView::Str(text@),
            ConfigValue::Other => ConfigValueView::Other,
            ConfigValue::Missing => ConfigValueView::Missing,
            ConfigValue::Nested => ConfigValueView::Nested,
        }
    }
}

/// One raw configuration entry of a variant.
#[derive(Clone, Debug)]
pub struct ConfigEntry {
    pub key: String,
    pub value: ConfigValue,
}

/// What a [`ConfigEntry`] holds, as a mathematical value.
pub struct ConfigEntryView {
    pub key: Seq<char>,
    pub value: ConfigValueView,
}

impl View for ConfigEntry {
    type V = ConfigEntryView;

    open spec fn view(&self) -> ConfigEntryView {
        ConfigEntryView { key: self.key@, value: self.value@ }
    }
}

/// One variant of the sum type.
#[derive(Clone, Debug)]
pub struct Variant {
    pub name: String,
    pub shape: VariantShape,
    /// The configuration entries of the variant, in the order written.
    pub config: Vec<ConfigEntry>,
}

/// What a [`Variant`] holds, as a mathematical value.
pub struct VariantView {
    pub name: Seq<char>,
    pub shape: VariantShapeView,
    pub config: Seq<ConfigEntryView>,
}

impl View for Variant {
    type V = VariantView;

    open spec fn view(&self) -> VariantView {
        VariantView {
            name: self.name@,
            shape: self.shape@,
            config: self.config@.map_values(|e: ConfigEntry| e@),
        }
    }
}

/// What kind of type a declaration declares.
#[derive(Clone, Debug)]
pub enum TypeBody {
    /// A sum type, with its variants in declaration order.
    Sum(Vec<Variant>),
    /// Any other kind of type.
    Other,
}

/// What a [`TypeBody`] holds, as a mathematical value.
pub enum TypeBodyView {
    Sum(Seq<VariantView>),
    Other,
}

impl View for TypeBody {
    type V = TypeBodyView;

    open spec fn view(&self) -> TypeBodyView {
        match self {
            TypeBody::Sum(variants) => TypeBodyView::Sum(variants@.map_values(|v: Variant| v@)),
            TypeBody::Other => TypeBodyView::Other,
        }
    }
}

/// The declaration of the type under derivation.
#[derive(Clone, Debug)]
pub struct Schema {
    pub name: String,
    /// The generic parameters of the type, passed through unexamined.
    pub generics: Vec<String>,
    pub body: TypeBody,
}

/// What a [`Schema`] holds, as a mathematical value.
pub struct SchemaView {
    pub name: Seq<char>,
    pub generics: Seq<Seq<char>>,
    pub body: TypeBodyView,
}

impl View for Schema {
    type V = SchemaView;

    open spec fn view(&self) -> SchemaView {
        SchemaView {
            name: self.name@,
            generics: self.generics@.map_values(|g: String| g@),
            body: self.body@,
        }
    }
}

/// Whether no two of `names` are the same.
pub open spec fn distinct(names: Seq<Seq<char>>) -> bool {
    forall|i: int, j: int| 0 <= i < j < names.len() ==> names[i] != names[j]
}

impl VariantShapeView {
    /// The names of the named fields, in declaration order.
    pub open spec fn field_names(self) -> Seq<Seq<char>> {
        match self {
            VariantShapeView::Named(fields) => fields.map_values(|f: FieldView| f.name),
            _ => Seq::empty(),
        }
    }
}

impl SchemaView {
    /// The variants of a sum type; none for any other type.
    pub open spec fn variants(self) -> Seq<VariantView> {
        match self.body {
            TypeBodyView::Sum(variants) => variants,
            TypeBodyView::Other => Seq::empty(),
        }
    }

    /// Whether the declaration is one that a compiler would take: no two
    /// variants have the same name, and within a variant no two fields have.
    pub open spec fn wf(self) -> bool {
        &&& distinct(self.variants().map_values(|v: VariantView| v.name))
        &&& forall|i: int|
            0 <= i < self.variants().len() ==> distinct(
                (#[trigger] self.variants()[i]).shape.field_names(),
            )
    }
}

/// Whether no two of `names` are the same.
pub fn are_distinct(names: &Vec<&str>) -> (ok: bool)
    ensures
        ok == distinct(names@.map_values(|n: &str| n@)),
{
    let ghost texts = names@.map_values(|n: &str| n@);
    let mut j: usize = 0;
    while j < names.len()
        invariant
            j <= names.len(),
            texts == names@.map_values(|n: &str| n@),
            forall|a: int, b: int| 0 <= a < b < j ==> texts[a] != texts[b],
        decreases names.len() - j,
    {
        let mut i: usize = 0;
        while i < j
            invariant
                i <= j < names.len(),
                texts == names@.map_values(|n: &str| n@),
                forall|a: int| 0 <= a < i ==> texts[a] != texts[j as int],
            decreases j - i,
        {
            if str_eq(names[i], names[j]) {
                assert(texts[i as int] == texts[j as int]);
                return false;
            }
            i += 1;
        }
        j += 1;
    }
    true
}

impl VariantShape {
    /// The names of the named fields, in declaration order.
    pub fn field_names(&self) -> (names: Vec<&str>)
        ensures
            names@.map_values(|n: &str| n@) == self@.field_names(),
    {
        let mut names: Vec<&str> = Vec::new();
        match self {
            VariantShape::Named(fields) => {
                let mut i: usize = 0;
                while i < fields.len()
                    invariant
                        i <= fields.len(),
                        self@ == VariantShapeView::Named(fields@.map_values(|f: Field| f@)),
                        names@.map_values(|n: &str| n@) == self@.field_names().take(i as int),
                    decreases fields.len() - i,
                {
                    let ghost before = names@.map_values(|n: &str| n@);
                    names.push(fields[i].name.as_str());
                    assert(names@.map_values(|n: &str| n@) =~= before.push(fields@[i as int].name@));
                    assert(self@.field_names().take(i + 1) =~= self@.field_names().take(
                        i as int,
                    ).push(fields@[i as int].name@));
                    i += 1;
                }
                assert(self@.field_names().take(i as int) =~= self@.field_names());
            },
            _ => {
                assert(names@.map_values(|n: &str| n@) =~= Seq::<Seq<char>>::empty());
            },
        }
        names
    }
}

impl Schema {
    /// Whether no two variants have the same name, and within a variant no
    /// two fields have.
    pub fn is_well_formed(&self) -> (ok: bool)
        ensures
            ok == self@.wf(),
    {
        let variants = match &self.body {
            TypeBody::Sum(variants) => variants,
            TypeBody::Other => {
                return true;
            },
        };
        let ghost views = self@.variants();
        let ghost all_names = views.map_values(|v: VariantView| v.name);
        let mut names: Vec<&str> = Vec::new();
        let mut i: usize = 0;
        while i < variants.len()
            invariant
                i <= variants.len(),
                views == variants@.map_values(|v: Variant| v@),
                views == self@.variants(),
                all_names == views.map_values(|v: VariantView| v.name),
                names@.map_values(|n: &str| n@) == all_names.take(i as int),
                forall|k: int| 0 <= k < i ==> distinct((#[trigger] views[k]).shape.field_names()),
            decreases variants.len() - i,
        {
            let fields = variants[i].shape.field_names();
            if !are_distinct(&fields) {
                assert(!distinct(views[i as int].shape.field_names()));
                return false;
            }
            let ghost before = names@.map_values(|n: &str| n@);
            names.push(variants[i].name.as_str());
            assert(names@.map_values(|n: &str| n@) =~= before.push(variants@[i as int].name@));
            assert(all_names.take(i + 1) =~= all_names.take(i as int).push(
                variants@[i as int].name@,
            ));
            i += 1;
        }
        assert(all_names.take(i as int) =~= all_names);
        are_distinct(&names)
    }
}

} // verus!
