//! The schema model: type references, fields, type definitions and
//! instructions, each with the mathematical view that contracts speak of.

use vstd::prelude::*;

verus! {

/// An atomic kind of the schema language.
#[derive(Clone, Copy, Debug, PartialEq, Eq, Structural)]
pub enum Primitive {
    Bool,
    U8,
    I8,
    U16,
    I16,
    U32,
    I32,
    F32,
    U64,
    I64,
    F64,
    U128,
    I128,
    U256,
    I256,
    Bytes,
    Text,
    PublicKey,
}

impl Primitive {
    /// Integers and floats of an explicit bit width.
    pub open spec fn is_numeric(self) -> bool {
        !(self is Bool || self is Bytes || self is Text || self is PublicKey)
    }

    /// The kinds whose values have a fixed size: everything but byte
    /// strings and text.
    pub open spec fn is_fixed_size(self) -> bool {
        !(self is Bytes || self is Text)
    }

    /// Whether values of this kind have a fixed size.
    pub fn fixed_size(self) -> (r: bool)
        ensures
            r == self.is_fixed_size(),
    {
        match self {
            Primitive::Bytes => false,
            Primitive::Text => false,
            _ => true,
        }
    }
}

/// A reference to a type, as it stands in a field or an argument.
#[derive(Debug)]
pub enum TypeRef {
    Primitive(Primitive),
    FixedArray(Box<TypeRef>, usize),
    Vector(Box<TypeRef>),
    Optional(Box<TypeRef>),
    Defined(String),
}

pub enum TypeRefView {
    Primitive(Primitive),
    FixedArray(Box<TypeRefView>, usize),
    Vector(Box<TypeRefView>),
    Optional(Box<TypeRefView>),
    Defined(Seq<char>),
}

/// The view of a type reference: the same tree, with each name as its
/// characters.
pub open spec fn type_ref_view(ty: TypeRef) -> TypeRefView
    decreases ty,
{
    match ty {
        TypeRef::Primitive(p) => TypeRefView::Primitive(p),
        TypeRef::FixedArray(element, len) => TypeRefView::FixedArray(
            Box::new(type_ref_view(*element)),
            len,
        ),
        TypeRef::Vector(element) => TypeRefView::Vector(Box::new(type_ref_view(*element))),
        TypeRef::Optional(element) => TypeRefView::Optional(Box::new(type_ref_view(*element))),
        TypeRef::Defined(name) => TypeRefView::Defined(name@),
    }
}

impl View for TypeRef {
    type V = TypeRefView;

    open spec fn view(&self) -> TypeRefView {
        type_ref_view(*self)
    }
}

/// A named, typed member of a struct or of an argument list.
#[derive(Debug)]
pub struct FieldDef {
    pub name: String,
    pub ty: TypeRef,
}

pub struct FieldDefView {
    pub name: Seq<char>,
    pub ty: TypeRefView,
}

impl View for FieldDef {
    type V = FieldDefView;

    open spec fn view(&self) -> FieldDefView {
        FieldDefView { name: self.name@, ty: self.ty@ }
    }
}

/// One variant of an enum definition with the types of its payload, in
/// order; the payload is empty for a variant without data.
#[derive(Debug)]
pub struct EnumVariant {
    pub name: String,
    pub payload: Vec<TypeRef>,
}

pub struct EnumVariantView {
    pub name: Seq<char>,
    pub payload: Seq<TypeRefView>,
}

impl View for EnumVariant {
    type V = EnumVariantView;

    open spec fn view(&self) -> EnumVariantView {
        EnumVariantView { name: self.name@, payload: type_views(self.payload@) }
    }
}

/// What a name of the definition table stands for.
#[derive(Debug)]
pub enum TypeDefKind {
    Struct { fields: Vec<FieldDef> },
    Enum { variants: Vec<EnumVariant> },
    Alias { target: TypeRef },
}

pub enum TypeDefKindView {
    Struct { fields: Seq<FieldDefView> },
    Enum { variants: Seq<EnumVariantView> },
    Alias { target: TypeRefView },
}

impl View for TypeDefKind {
    type V = TypeDefKindView;

    open spec fn view(&self) -> TypeDefKindView {
        match self {
            TypeDefKind::Struct { fields } => TypeDefKindView::Struct { fields: field_views(fields@) },
            TypeDefKind::Enum { variants } => TypeDefKindView::Enum {
                variants: variant_views(variants@),
            },
            TypeDefKind::Alias { target } => TypeDefKindView::Alias { target: target@ },
        }
    }
}

/// One entry of the definition table.
#[derive(Debug)]
pub struct TypeDef {
    pub name: String,
    pub kind: TypeDefKind,
}

pub struct TypeDefView {
    pub name: Seq<char>,
    pub kind: TypeDefKindView,
}

impl View for TypeDef {
    type V = TypeDefView;

    open spec fn view(&self) -> TypeDefView {
        TypeDefView { name: self.name@, kind: self.kind@ }
    }
}

/// An entry of an instruction's account list: a single account, or a named
/// group of further entries.
#[derive(Debug)]
pub enum AccountItem {
    Account { name: String, is_mut: bool, is_signer: bool },
    Group { name: String, accounts: Vec<AccountItem> },
}

pub enum AccountItemView {
    Account { name: Seq<char>, is_mut: bool, is_signer: bool },
    Group { name: Seq<char>, accounts: Seq<AccountItemView> },
}

/// The view of an account entry: the same tree, with each name as its
/// characters.
pub open spec fn account_item_view(item: AccountItem) -> AccountItemView
    decreases item,
{
    match item {
        AccountItem::Account { name, is_mut, is_signer } => AccountItemView::Account {
            name: name@,
            is_mut,
            is_signer,
        },
        AccountItem::Group { name, accounts } => AccountItemView::Group {
            name: name@,
            accounts: account_item_views(accounts@),
        },
    }
}

/// The views of a list of account entries, in order.
pub open spec fn account_item_views(items: Seq<AccountItem>) -> Seq<AccountItemView>
    decreases items,
{
    if items.len() == 0 {
        Seq::empty()
    } else {
        account_item_views(items.drop_last()).push(account_item_view(items.last()))
    }
}

impl View for AccountItem {
    type V = AccountItemView;

    open spec fn view(&self) -> AccountItemView {
        account_item_view(*self)
    }
}

/// The list of views has an entry for each item, in the same place.
pub proof fn lemma_account_item_views(items: Seq<AccountItem>)
    ensures
        account_item_views(items).len() == items.len(),
        forall|i: int|
            0 <= i < items.len() ==> #[trigger] account_item_views(items)[i] == items[i]@,
    decreases items.len(),
{
    if items.len() > 0 {
        lemma_account_item_views(items.drop_last());
    }
}

/// A program entry point: its name, its arguments and its accounts, each
/// list in declaration order.
#[derive(Debug)]
pub struct Instruction {
    pub name: String,
    pub args: Vec<FieldDef>,
    pub accounts: Vec<AccountItem>,
}

pub struct InstructionView {
    pub name: Seq<char>,
    pub args: Seq<FieldDefView>,
    pub accounts: Seq<AccountItemView>,
}

impl View for Instruction {
    type V = InstructionView;

    open spec fn view(&self) -> InstructionView {
        InstructionView {
            name: self.name@,
            args: field_views(self.args@),
            accounts: account_item_views(self.accounts@),
        }
    }
}

pub open spec fn instruction_views(ixs: Seq<Instruction>) -> Seq<InstructionView> {
    ixs.map_values(|ix: Instruction| ix@)
}

pub open spec fn type_views(types: Seq<TypeRef>) -> Seq<TypeRefView> {
    types.map_values(|t: TypeRef| t@)
}

pub open spec fn field_views(fields: Seq<FieldDef>) -> Seq<FieldDefView> {
    fields.map_values(|f: FieldDef| f@)
}

pub open spec fn variant_views(variants: Seq<EnumVariant>) -> Seq<EnumVariantView> {
    variants.map_values(|v: EnumVariant| v@)
}

pub open spec fn def_views(defs: Seq<TypeDef>) -> Seq<TypeDefView> {
    defs.map_values(|d: TypeDef| d@)
}

/// The types of a field list, in order.
pub open spec fn field_types(fields: Seq<FieldDefView>) -> Seq<TypeRefView> {
    fields.map_values(|f: FieldDefView| f.ty)
}

} // verus!
