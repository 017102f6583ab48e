//! Capability analysis: whether a list of fields may be duplicated by raw
//! copy, and whether it has a canonical default value. Both are decided
//! over the whole graph of definitions that the fields refer to.

use crate::error::result_view;
use crate::error::ErrorKind;
use crate::error::GenError;
use crate::error::GenErrorView;
use crate::schema::def_views;
use crate::schema::field_types;
use crate::schema::field_views;
use crate::schema::type_views;
use crate::schema::variant_views;
use crate::schema::EnumVariant;
use crate::schema::EnumVariantView;
use crate::schema::FieldDef;
use crate::schema::FieldDefView;
use crate::schema::Primitive;
use crate::schema::TypeDef;
use crate::schema::TypeDefKind;
use crate::schema::TypeDefKindView;
use crate::schema::TypeDefView;
use crate::schema::TypeRef;
use crate::schema::TypeRefView;
use crate::text::lemma_flatten_take_next;
use vstd::prelude::*;
use vstd::seq_lib::lemma_flatten_concat;
use vstd::set_lib::lemma_int_range;
use vstd::set_lib::lemma_len_subset;
use vstd::set_lib::set_int_range;

verus! {

/// The capabilities of a list of fields taken together.
#[derive(Clone, Copy, Debug, PartialEq, Eq, Structural)]
pub struct FieldListProperties {
    /// Every field may be duplicated by raw copy.
    pub can_copy: bool,
    /// Every field has a canonical default value.
    pub can_derive_default: bool,
}

impl View for FieldListProperties {
    type V = FieldListProperties;

    open spec fn view(&self) -> FieldListProperties {
        *self
    }
}

impl FieldListProperties {
    /// The capabilities of the empty list: both hold.
    pub open spec fn full() -> FieldListProperties {
        FieldListProperties { can_copy: true, can_derive_default: true }
    }

    /// The capabilities that both `self` and `other` have.
    pub open spec fn meet(self, other: FieldListProperties) -> FieldListProperties {
        FieldListProperties {
            can_copy: self.can_copy && other.can_copy,
            can_derive_default: self.can_derive_default && other.can_derive_default,
        }
    }

    /// The capabilities that both `self` and `other` have.
    pub fn and(self, other: FieldListProperties) -> (r: FieldListProperties)
        ensures
            r == self.meet(other),
    {
        FieldListProperties {
            can_copy: self.can_copy && other.can_copy,
            can_derive_default: self.can_derive_default && other.can_derive_default,
        }
    }
}

/// What a primitive kind contributes: byte strings and text are never
/// copied raw and start out empty; every other kind has both
/// capabilities.
pub open spec fn primitive_properties(p: Primitive) -> FieldListProperties {
    FieldListProperties { can_copy: p.is_fixed_size(), can_derive_default: true }
}

/// The longest fixed array that has a default value.
pub const MAX_DEFAULT_ARRAY_LEN: usize = 32;

/// `i` is the first entry of `table` under `name`.
pub open spec fn is_first_def(table: Seq<TypeDefView>, name: Seq<char>, i: int) -> bool {
    &&& 0 <= i < table.len()
    &&& table[i].name == name
    &&& forall|j: int| 0 <= j < i ==> (#[trigger] table[j]).name != name
}

/// The entry that `name` resolves to: the first one under that name.
pub open spec fn find_def(table: Seq<TypeDefView>, name: Seq<char>) -> Option<int> {
    if exists|i: int| is_first_def(table, name, i) {
        Some(choose|i: int| is_first_def(table, name, i))
    } else {
        None
    }
}

/// The payload types of all variants, in order.
pub open spec fn payload_types(variants: Seq<EnumVariantView>) -> Seq<TypeRefView> {
    variants.map_values(|v: EnumVariantView| v.payload).flatten()
}

/// The types that a definition is made of: the types of a struct's
/// fields, the payload types of an enum's variants, the target of an
/// alias.
pub open spec fn constituent_types(kind: TypeDefKindView) -> Seq<TypeRefView> {
    match kind {
        TypeDefKindView::Struct { fields } => field_types(fields),
        TypeDefKindView::Enum { variants } => payload_types(variants),
        TypeDefKindView::Alias { target } => seq![target],
    }
}

/// `visiting` is a set of entries of a table of `len` entries.
pub open spec fn within_table(len: nat, visiting: Set<int>) -> bool {
    visiting.finite() && visiting.subset_of(set_int_range(0, len as int))
}

/// Entering one more definition keeps the set inside the table, so the
/// number of definitions not yet entered goes down.
pub proof fn lemma_enter(len: nat, visiting: Set<int>, i: int)
    requires
        within_table(len, visiting),
        0 <= i < len,
        !visiting.contains(i),
    ensures
        within_table(len, visiting.insert(i)),
        visiting.insert(i).len() == visiting.len() + 1,
        visiting.insert(i).len() <= len,
{
    lemma_int_range(0, len as int);
    lemma_len_subset(visiting.insert(i), set_int_range(0, len as int));
}

/// How deeply a type reference is nested.
pub open spec fn nesting(ty: TypeRefView) -> nat
    decreases ty,
{
    match ty {
        TypeRefView::Primitive(_) => 0,
        TypeRefView::FixedArray(element, _) => nesting(*element) + 1,
        TypeRefView::Vector(element) => nesting(*element) + 1,
        TypeRefView::Optional(element) => nesting(*element) + 1,
        TypeRefView::Defined(_) => 0,
    }
}

/// The capabilities of one type, resolved against `table` while the
/// definitions in `visiting` are being resolved.
///
/// A fixed array has what its element has, and a default only up to
/// `MAX_DEFAULT_ARRAY_LEN` elements. A vector is never copied raw and
/// starts out empty, whatever it holds. An optional value is copied as
/// its content is and starts out absent. A defined name has what the
/// constituent types of its definition have together; a name that the
/// table lacks, or that leads back to a definition in `visiting`, is an
/// error.
pub open spec fn type_properties(
    table: Seq<TypeDefView>,
    visiting: Set<int>,
    ty: TypeRefView,
) -> Result<FieldListProperties, GenErrorView>
    decreases table.len() - visiting.len(), 0int, nesting(ty),
    when within_table(table.len(), visiting)
{
    match ty {
        TypeRefView::Primitive(p) => Ok(primitive_properties(p)),
        TypeRefView::FixedArray(element, len) => match type_properties(table, visiting, *element) {
            Ok(p) => Ok(
                FieldListProperties {
                    can_copy: p.can_copy,
                    can_derive_default: p.can_derive_default && len <= MAX_DEFAULT_ARRAY_LEN,
                },
            ),
            Err(e) => Err(e),
        },
        TypeRefView::Vector(_) => Ok(
            FieldListProperties { can_copy: false, can_derive_default: true },
        ),
        TypeRefView::Optional(element) => match type_properties(table, visiting, *element) {
            Ok(p) => Ok(FieldListProperties { can_copy: p.can_copy, can_derive_default: true }),
            Err(e) => Err(e),
        },
        TypeRefView::Defined(name) => match find_def(table, name) {
            None => Err(GenErrorView::of(ErrorKind::UnresolvedType, name)),
            Some(i) => if visiting.contains(i) {
                Err(GenErrorView::of(ErrorKind::CyclicType, name))
            } else {
                proof {
                    lemma_enter(table.len(), visiting, i);
                }
                type_list_properties(table, visiting.insert(i), constituent_types(table[i].kind))
            },
        },
    }
}

/// The capabilities that all of `types` have, or the error of the first
/// type that has one.
pub open spec fn type_list_properties(
    table: Seq<TypeDefView>,
    visiting: Set<int>,
    types: Seq<TypeRefView>,
) -> Result<FieldListProperties, GenErrorView>
    decreases table.len() - visiting.len(), 1int, types.len(),
    when within_table(table.len(), visiting)
{
    if types.len() == 0 {
        Ok(FieldListProperties::full())
    } else {
        match type_list_properties(table, visiting, types.drop_last()) {
            Err(e) => Err(e),
            Ok(p) => match type_properties(table, visiting, types.last()) {
                Err(e) => Err(e),
                Ok(q) => Ok(p.meet(q)),
            },
        }
    }
}

/// The capabilities of a field list, resolved against `table` from
/// scratch.
pub open spec fn field_list_properties(
    table: Seq<TypeDefView>,
    fields: Seq<FieldDefView>,
) -> Result<FieldListProperties, GenErrorView> {
    type_list_properties(table, Set::empty(), field_types(fields))
}

/// The outcome of two analyses in turn: the first error, or what both
/// results have.
pub open spec fn both(
    first: Result<FieldListProperties, GenErrorView>,
    second: Result<FieldListProperties, GenErrorView>,
) -> Result<FieldListProperties, GenErrorView> {
    match first {
        Err(e) => Err(e),
        Ok(p) => match second {
            Err(e) => Err(e),
            Ok(q) => Ok(p.meet(q)),
        },
    }
}

/// A list analysed in two parts gives what the whole list gives.
pub proof fn lemma_type_list_concat(
    table: Seq<TypeDefView>,
    visiting: Set<int>,
    front: Seq<TypeRefView>,
    back: Seq<TypeRefView>,
)
    requires
        within_table(table.len(), visiting),
    ensures
        type_list_properties(table, visiting, front + back) == both(
            type_list_properties(table, visiting, front),
            type_list_properties(table, visiting, back),
        ),
    decreases back.len(),
{
    if back.len() == 0 {
        assert(front + back =~= front);
    } else {
        assert((front + back).drop_last() =~= front + back.drop_last());
        assert((front + back).last() == back.last());
        lemma_type_list_concat(table, visiting, front, back.drop_last());
    }
}

/// A list of one type has what that type has.
pub proof fn lemma_type_list_single(table: Seq<TypeDefView>, visiting: Set<int>, ty: TypeRefView)
    requires
        within_table(table.len(), visiting),
    ensures
        type_list_properties(table, visiting, seq![ty]) == type_properties(table, visiting, ty),
{
    let types = seq![ty];
    assert(types.drop_last() =~= Seq::<TypeRefView>::empty());
    assert(types.last() == ty);
    assert(type_list_properties(table, visiting, types.drop_last()) == Ok::<
        FieldListProperties,
        GenErrorView,
    >(FieldListProperties::full()));
}

/// An entry that is the first under its name is the one the name
/// resolves to.
pub proof fn lemma_first_def_unique(table: Seq<TypeDefView>, name: Seq<char>, i: int)
    requires
        is_first_def(table, name, i),
    ensures
        find_def(table, name) == Some(i),
{
    let c = choose|c: int| is_first_def(table, name, c);
    assert(is_first_def(table, name, c));
    if c < i {
        assert(table[c].name != name);
    }
    if i < c {
        assert(table[i].name != name);
    }
}

/// No two entries of `table` have the same name.
pub open spec fn has_unique_names(table: Seq<TypeDefView>) -> bool {
    forall|i: int, j: int|
        0 <= i < j < table.len() ==> (#[trigger] table[i]).name != (#[trigger] table[j]).name
}

/// In a table of unique names every entry is the one that its name
/// resolves to.
pub proof fn lemma_unique_names_resolve(table: Seq<TypeDefView>, i: int)
    requires
        has_unique_names(table),
        0 <= i < table.len(),
    ensures
        find_def(table, table[i].name) == Some(i),
{
    lemma_first_def_unique(table, table[i].name, i);
}

/// The entries that a list of flags marks.
pub open spec fn marked(flags: Seq<bool>) -> Set<int> {
    Set::new(|i: int| 0 <= i < flags.len() && flags[i])
}

proof fn lemma_marked(flags: Seq<bool>)
    ensures
        within_table(flags.len(), marked(flags)),
{
    lemma_int_range(0, flags.len() as int);
    lemma_len_subset(marked(flags), set_int_range(0, flags.len() as int));
}

proof fn lemma_marked_update(flags: Seq<bool>, i: int)
    requires
        0 <= i < flags.len(),
    ensures
        marked(flags.update(i, true)) == marked(flags).insert(i),
{
    assert(marked(flags.update(i, true)) =~= marked(flags).insert(i));
}

fn unmarked(len: usize) -> (r: Vec<bool>)
    ensures
        r.len() == len,
        marked(r@) == Set::<int>::empty(),
{
    let mut r: Vec<bool> = Vec::new();
    let mut k: usize = 0;
    while k < len
        invariant
            k <= len,
            r.len() == k,
            forall|j: int| 0 <= j < k ==> !r[j],
        decreases len - k,
    {
        r.push(false);
        k = k + 1;
    }
    assert(marked(r@) =~= Set::<int>::empty());
    r
}

fn mark(visiting: &Vec<bool>, i: usize) -> (r: Vec<bool>)
    requires
        i < visiting.len(),
    ensures
        r@ == visiting@.update(i as int, true),
{
    let mut r: Vec<bool> = Vec::new();
    let mut k: usize = 0;
    while k < visiting.len()
        invariant
            k <= visiting.len(),
            i < visiting.len(),
            r@ == visiting@.update(i as int, true).take(k as int),
        decreases visiting.len() - k,
    {
        r.push(k == i || visiting[k]);
        assert(r@ =~= visiting@.update(i as int, true).take(k + 1));
        k = k + 1;
    }
    assert(r@ =~= visiting@.update(i as int, true));
    r
}

fn lookup(defs: &[TypeDef], name: &String) -> (r: Option<usize>)
    ensures
        match r {
            Some(i) => i < defs.len() && find_def(def_views(defs@), name@) == Some(i as int),
            None => find_def(def_views(defs@), name@) is None,
        },
{
    let ghost table = def_views(defs@);
    let mut i: usize = 0;
    while i < defs.len()
        invariant
            i <= defs.len(),
            table == def_views(defs@),
            forall|j: int| 0 <= j < i ==> (#[trigger] table[j]).name != name@,
        decreases defs.len() - i,
    {
        if defs[i].name.eq(name) {
            proof {
                assert(table[i as int].name == name@);
                lemma_first_def_unique(table, name@, i as int);
            }
            return Some(i);
        }
        i = i + 1;
    }
    assert forall|k: int| !is_first_def(table, name@, k) by {
        if 0 <= k < table.len() {
            assert(table[k].name != name@);
        }
    }
    None
}

fn resolve_type(defs: &[TypeDef], visiting: &Vec<bool>, ty: &TypeRef) -> (r: Result<
    FieldListProperties,
    GenError,
>)
    requires
        visiting.len() == defs.len(),
    ensures
        result_view(r) == type_properties(def_views(defs@), marked(visiting@), ty@),
    decreases defs.len() - marked(visiting@).len(), 0int, nesting(ty@),
{
    proof {
        lemma_marked(visiting@);
    }
    match ty {
        TypeRef::Primitive(p) => Ok(
            FieldListProperties { can_copy: p.fixed_size(), can_derive_default: true },
        ),
        TypeRef::FixedArray(element, len) => match resolve_type(defs, visiting, element) {
            Ok(p) => Ok(
                FieldListProperties {
                    can_copy: p.can_copy,
                    can_derive_default: p.can_derive_default && *len <= MAX_DEFAULT_ARRAY_LEN,
                },
            ),
            Err(e) => Err(e),
        },
        TypeRef::Vector(_) => Ok(FieldListProperties { can_copy: false, can_derive_default: true }),
        TypeRef::Optional(element) => match resolve_type(defs, visiting, element) {
            Ok(p) => Ok(FieldListProperties { can_copy: p.can_copy, can_derive_default: true }),
            Err(e) => Err(e),
        },
        TypeRef::Defined(name) => match lookup(defs, name) {
            None => Err(GenError::new(ErrorKind::UnresolvedType, name.clone())),
            Some(i) => {
                if visiting[i] {
                    Err(GenError::new(ErrorKind::CyclicType, name.clone()))
                } else {
                    let inner = mark(visiting, i);
                    proof {
                        lemma_marked_update(visiting@, i as int);
                        lemma_enter(defs.len() as nat, marked(visiting@), i as int);
                    }
                    match &defs[i].kind {
                        TypeDefKind::Struct { fields } => resolve_fields(
                            defs,
                            &inner,
                            fields.as_slice(),
                        ),
                        TypeDefKind::Enum { variants } => resolve_variants(
                            defs,
                            &inner,
                            variants.as_slice(),
                        ),
                        TypeDefKind::Alias { target } => {
                            proof {
                                lemma_type_list_single(def_views(defs@), marked(inner@), target@);
                            }
                            resolve_type(defs, &inner, target)
                        },
                    }
                }
            },
        },
    }
}

fn resolve_fields(defs: &[TypeDef], visiting: &Vec<bool>, fields: &[FieldDef]) -> (r: Result<
    FieldListProperties,
    GenError,
>)
    requires
        visiting.len() == defs.len(),
    ensures
        result_view(r) == type_list_properties(
            def_views(defs@),
            marked(visiting@),
            field_types(field_views(fields@)),
        ),
    decreases defs.len() - marked(visiting@).len(), 1int, 0int,
{
    let ghost table = def_views(defs@);
    let ghost vis = marked(visiting@);
    let ghost types = field_types(field_views(fields@));
    proof {
        lemma_marked(visiting@);
    }
    let mut acc = FieldListProperties { can_copy: true, can_derive_default: true };
    let mut i: usize = 0;
    while i < fields.len()
        invariant
            i <= fields.len(),
            visiting.len() == defs.len(),
            table == def_views(defs@),
            vis == marked(visiting@),
            types == field_types(field_views(fields@)),
            within_table(table.len(), vis),
            type_list_properties(table, vis, types.take(i as int)) == Ok::<
                FieldListProperties,
                GenErrorView,
            >(acc),
        decreases fields.len() - i,
    {
        proof {
            assert(types.take(i + 1).drop_last() =~= types.take(i as int));
            assert(types.take(i + 1).last() == fields@[i as int]@.ty);
            assert(types =~= types.take(i + 1) + types.skip(i + 1));
            lemma_type_list_concat(table, vis, types.take(i + 1), types.skip(i + 1));
        }
        match resolve_type(defs, visiting, &fields[i].ty) {
            Err(e) => {
                return Err(e);
            },
            Ok(q) => {
                acc = acc.and(q);
            },
        }
        i = i + 1;
    }
    assert(types.take(i as int) =~= types);
    Ok(acc)
}

fn resolve_payload(defs: &[TypeDef], visiting: &Vec<bool>, payload: &[TypeRef]) -> (r: Result<
    FieldListProperties,
    GenError,
>)
    requires
        visiting.len() == defs.len(),
    ensures
        result_view(r) == type_list_properties(
            def_views(defs@),
            marked(visiting@),
            type_views(payload@),
        ),
    decreases defs.len() - marked(visiting@).len(), 1int, 0int,
{
    let ghost table = def_views(defs@);
    let ghost vis = marked(visiting@);
    let ghost types = type_views(payload@);
    proof {
        lemma_marked(visiting@);
    }
    let mut acc = FieldListProperties { can_copy: true, can_derive_default: true };
    let mut i: usize = 0;
    while i < payload.len()
        invariant
            i <= payload.len(),
            visiting.len() == defs.len(),
            table == def_views(defs@),
            vis == marked(visiting@),
            types == type_views(payload@),
            within_table(table.len(), vis),
            type_list_properties(table, vis, types.take(i as int)) == Ok::<
                FieldListProperties,
                GenErrorView,
            >(acc),
        decreases payload.len() - i,
    {
        proof {
            assert(types.take(i + 1).drop_last() =~= types.take(i as int));
            assert(types.take(i + 1).last() == payload@[i as int]@);
            assert(types =~= types.take(i + 1) + types.skip(i + 1));
            lemma_type_list_concat(table, vis, types.take(i + 1), types.skip(i + 1));
        }
        match resolve_type(defs, visiting, &payload[i]) {
            Err(e) => {
                return Err(e);
            },
            Ok(q) => {
                acc = acc.and(q);
            },
        }
        i = i + 1;
    }
    assert(types.take(i as int) =~= types);
    Ok(acc)
}

fn resolve_variants(defs: &[TypeDef], visiting: &Vec<bool>, variants: &[EnumVariant]) -> (r:
    Result<FieldListProperties, GenError>)
    requires
        visiting.len() == defs.len(),
    ensures
        result_view(r) == type_list_properties(
            def_views(defs@),
            marked(visiting@),
            payload_types(variant_views(variants@)),
        ),
    decreases defs.len() - marked(visiting@).len(), 2int, 0int,
{
    let ghost table = def_views(defs@);
    let ghost vis = marked(visiting@);
    let ghost payloads = variant_views(variants@).map_values(|v: EnumVariantView| v.payload);
    proof {
        lemma_marked(visiting@);
    }
    let mut acc = FieldListProperties { can_copy: true, can_derive_default: true };
    let mut i: usize = 0;
    while i < variants.len()
        invariant
            i <= variants.len(),
            visiting.len() == defs.len(),
            table == def_views(defs@),
            vis == marked(visiting@),
            payloads == variant_views(variants@).map_values(|v: EnumVariantView| v.payload),
            within_table(table.len(), vis),
            type_list_properties(table, vis, payloads.take(i as int).flatten()) == Ok::<
                FieldListProperties,
                GenErrorView,
            >(acc),
        decreases variants.len() - i,
    {
        proof {
            lemma_flatten_take_next(payloads, i as int);
            lemma_type_list_concat(table, vis, payloads.take(i as int).flatten(), payloads[i as int]);
            assert(payloads =~= payloads.take(i + 1) + payloads.skip(i + 1));
            lemma_flatten_concat(payloads.take(i + 1), payloads.skip(i + 1));
            lemma_type_list_concat(
                table,
                vis,
                payloads.take(i + 1).flatten(),
                payloads.skip(i + 1).flatten(),
            );
            assert(payloads[i as int] == type_views(variants@[i as int].payload@));
        }
        match resolve_payload(defs, visiting, variants[i].payload.as_slice()) {
            Err(e) => {
                return Err(e);
            },
            Ok(q) => {
                acc = acc.and(q);
            },
        }
        i = i + 1;
    }
    assert(payloads.take(i as int) =~= payloads);
    Ok(acc)
}

/// The capabilities of a field list against the definition table `defs`.
pub fn get_field_list_properties(defs: &[TypeDef], fields: &[FieldDef]) -> (r: Result<
    FieldListProperties,
    GenError,
>)
    ensures
        result_view(r) == field_list_properties(def_views(defs@), field_views(fields@)),
{
    let visiting = unmarked(defs.len());
    resolve_fields(defs, &visiting, fields)
}

/// The capabilities of one type against the definition table `defs`.
pub fn get_type_properties(defs: &[TypeDef], ty: &TypeRef) -> (r: Result<
    FieldListProperties,
    GenError,
>)
    ensures
        result_view(r) == type_properties(def_views(defs@), Set::empty(), ty@),
{
    let visiting = unmarked(defs.len());
    resolve_type(defs, &visiting, ty)
}

/// A type that is a sequence of no fixed length: a vector, a byte string
/// or text.
pub open spec fn is_dynamic(ty: TypeRefView) -> bool {
    ty is Vector || ty == TypeRefView::Primitive(Primitive::Bytes) || ty == TypeRefView::Primitive(
        Primitive::Text,
    )
}

/// Whatever `whole` has, `part` has too.
pub open spec fn no_more_than(whole: FieldListProperties, part: FieldListProperties) -> bool {
    (whole.can_copy ==> part.can_copy) && (whole.can_derive_default ==> part.can_derive_default)
}

proof fn lemma_numeric_types(table: Seq<TypeDefView>, visiting: Set<int>, types: Seq<TypeRefView>)
    requires
        within_table(table.len(), visiting),
        forall|i: int|
            0 <= i < types.len() ==> (#[trigger] types[i] matches TypeRefView::Primitive(p)
                && p.is_numeric()),
    ensures
        type_list_properties(table, visiting, types) == Ok::<FieldListProperties, GenErrorView>(
            FieldListProperties::full(),
        ),
    decreases types.len(),
{
    if types.len() > 0 {
        lemma_numeric_types(table, visiting, types.drop_last());
        let last = types[types.len() - 1];
        assert(last is Primitive);
        let p = last->Primitive_0;
        assert(p.is_numeric());
        assert(types.last() == last);
        assert(type_properties(table, visiting, last) == Ok::<FieldListProperties, GenErrorView>(
            primitive_properties(p),
        ));
    }
}

/// A list of fields that are all numbers of a fixed width can be copied
/// and has a default value, whatever the definition table holds.
pub proof fn lemma_numeric_fields_have_both(
    table: Seq<TypeDefView>,
    fields: Seq<FieldDefView>,
)
    requires
        forall|i: int|
            0 <= i < fields.len() ==> ((#[trigger] fields[i]).ty matches TypeRefView::Primitive(p)
                && p.is_numeric()),
    ensures
        field_list_properties(table, fields) == Ok::<FieldListProperties, GenErrorView>(
            FieldListProperties { can_copy: true, can_derive_default: true },
        ),
{
    let types = field_types(fields);
    assert forall|i: int| 0 <= i < types.len() implies (#[trigger] types[i] matches TypeRefView::Primitive(p)
        && p.is_numeric()) by {
        assert(types[i] == fields[i].ty);
    }
    lemma_numeric_types(table, Set::empty(), types);
}

/// A list that is analysed without error has no capability that one of
/// its members lacks, and each member is analysed without error too.
pub proof fn lemma_list_no_more_than_member(
    table: Seq<TypeDefView>,
    visiting: Set<int>,
    types: Seq<TypeRefView>,
    k: int,
)
    requires
        within_table(table.len(), visiting),
        0 <= k < types.len(),
    ensures
        type_list_properties(table, visiting, types) matches Ok(whole) ==> (type_properties(
            table,
            visiting,
            types[k],
        ) matches Ok(part) && no_more_than(whole, part)),
    decreases types.len(),
{
    if k < types.len() - 1 {
        lemma_list_no_more_than_member(table, visiting, types.drop_last(), k);
        assert(types.drop_last()[k] == types[k]);
    }
}

/// One field that is a vector, a byte string or text keeps the whole
/// list from being copied, whatever the other fields are.
pub proof fn lemma_dynamic_field_blocks_copy(
    table: Seq<TypeDefView>,
    fields: Seq<FieldDefView>,
    k: int,
)
    requires
        0 <= k < fields.len(),
        is_dynamic(fields[k].ty),
    ensures
        field_list_properties(table, fields) matches Ok(p) ==> !p.can_copy,
{
    let types = field_types(fields);
    assert(types[k] == fields[k].ty);
    lemma_list_no_more_than_member(table, Set::empty(), types, k);
}

/// An analysis that succeeds while some definitions are being resolved
/// gives the same result while fewer are.
pub proof fn lemma_fewer_visiting_type(
    table: Seq<TypeDefView>,
    fewer: Set<int>,
    more: Set<int>,
    ty: TypeRefView,
)
    requires
        within_table(table.len(), fewer),
        within_table(table.len(), more),
        fewer.subset_of(more),
        type_properties(table, more, ty) is Ok,
    ensures
        type_properties(table, fewer, ty) == type_properties(table, more, ty),
    decreases table.len() - fewer.len(), 0int, nesting(ty),
{
    match ty {
        TypeRefView::Primitive(_) => {},
        TypeRefView::FixedArray(element, _) => {
            lemma_fewer_visiting_type(table, fewer, more, *element);
        },
        TypeRefView::Vector(_) => {},
        TypeRefView::Optional(element) => {
            lemma_fewer_visiting_type(table, fewer, more, *element);
        },
        TypeRefView::Defined(name) => {
            let i = find_def(table, name)->Some_0;
            lemma_enter(table.len(), fewer, i);
            lemma_enter(table.len(), more, i);
            lemma_fewer_visiting_list(
                table,
                fewer.insert(i),
                more.insert(i),
                constituent_types(table[i].kind),
            );
        },
    }
}

/// The same for a list of types.
pub proof fn lemma_fewer_visiting_list(
    table: Seq<TypeDefView>,
    fewer: Set<int>,
    more: Set<int>,
    types: Seq<TypeRefView>,
)
    requires
        within_table(table.len(), fewer),
        within_table(table.len(), more),
        fewer.subset_of(more),
        type_list_properties(table, more, types) is Ok,
    ensures
        type_list_properties(table, fewer, types) == type_list_properties(table, more, types),
    decreases table.len() - fewer.len(), 1int, types.len(),
{
    if types.len() > 0 {
        lemma_fewer_visiting_list(table, fewer, more, types.drop_last());
        lemma_fewer_visiting_type(table, fewer, more, types.last());
    }
}

/// Capabilities pass along references: a field list with a field of a
/// defined type has no capability that the definition's own constituent
/// types, analysed by themselves, lack. So a struct that refers to
/// a struct that cannot be copied cannot be copied either.
pub proof fn lemma_reference_inherits(
    table: Seq<TypeDefView>,
    fields: Seq<FieldDefView>,
    k: int,
    name: Seq<char>,
    i: int,
    referenced: FieldListProperties,
)
    requires
        0 <= k < fields.len(),
        fields[k].ty == TypeRefView::Defined(name),
        find_def(table, name) == Some(i),
        type_list_properties(table, Set::empty(), constituent_types(table[i].kind)) == Ok::<
            FieldListProperties,
            GenErrorView,
        >(referenced),
    ensures
        field_list_properties(table, fields) matches Ok(whole) ==> no_more_than(whole, referenced),
{
    let types = field_types(fields);
    let none = Set::<int>::empty();
    assert(types[k] == fields[k].ty);
    lemma_list_no_more_than_member(table, none, types, k);
    if field_list_properties(table, fields) is Ok {
        lemma_enter(table.len(), none, i);
        lemma_fewer_visiting_list(table, none, none.insert(i), constituent_types(table[i].kind));
    }
}

} // verus!
