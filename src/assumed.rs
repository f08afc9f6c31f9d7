//! Recognition of the types, traits and functions of the standard library
//! that are handled as primitives.
use vstd::prelude::*;
use vstd::string::StringExecFns;

use crate::names::{strings_view, FunName, Name, TypeName};
use crate::types::AssumedTy;

verus! {

/// Builtin and auto traits are left out of the extracted declarations.
pub const IGNORE_BUILTIN_MARKER_TRAITS: bool = true;

fn string_of(s: &str) -> (r: String)
    ensures
        r@ == s@,
{
    String::from_str(s)
}

pub open spec fn spec_sized_name() -> Seq<Seq<char>> {
    seq!["core"@, "marker"@, "Sized"@]
}

pub fn sized_name() -> (r: Vec<String>)
    ensures
        strings_view(r@) == spec_sized_name(),
{
    let mut v: Vec<String> = Vec::new();
    v.push(string_of("core"));
    v.push(string_of("marker"));
    v.push(string_of("Sized"));
    proof {
        assert(strings_view(v@) =~= spec_sized_name());
    }
    v
}

pub open spec fn spec_marker_tuple_name() -> Seq<Seq<char>> {
    seq!["core"@, "marker"@, "Tuple"@]
}

pub fn marker_tuple_name() -> (r: Vec<String>)
    ensures
        strings_view(r@) == spec_marker_tuple_name(),
{
    let mut v: Vec<String> = Vec::new();
    v.push(string_of("core"));
    v.push(string_of("marker"));
    v.push(string_of("Tuple"));
    proof {
        assert(strings_view(v@) =~= spec_marker_tuple_name());
    }
    v
}

pub open spec fn spec_sync_name() -> Seq<Seq<char>> {
    seq!["core"@, "marker"@, "SYNC"@]
}

pub fn sync_name() -> (r: Vec<String>)
    ensures
        strings_view(r@) == spec_sync_name(),
{
    let mut v: Vec<String> = Vec::new();
    v.push(string_of("core"));
    v.push(string_of("marker"));
    v.push(string_of("SYNC"));
    proof {
        assert(strings_view(v@) =~= spec_sync_name());
    }
    v
}

pub open spec fn spec_send_name() -> Seq<Seq<char>> {
    seq!["core"@, "marker"@, "SEND"@]
}

pub fn send_name() -> (r: Vec<String>)
    ensures
        strings_view(r@) == spec_send_name(),
{
    let mut v: Vec<String> = Vec::new();
    v.push(string_of("core"));
    v.push(string_of("marker"));
    v.push(string_of("SEND"));
    proof {
        assert(strings_view(v@) =~= spec_send_name());
    }
    v
}

pub open spec fn spec_unpin_name() -> Seq<Seq<char>> {
    seq!["core"@, "marker"@, "UNPIN"@]
}

pub fn unpin_name() -> (r: Vec<String>)
    ensures
        strings_view(r@) == spec_unpin_name(),
{
    let mut v: Vec<String> = Vec::new();
    v.push(string_of("core"));
    v.push(string_of("marker"));
    v.push(string_of("UNPIN"));
    proof {
        assert(strings_view(v@) =~= spec_unpin_name());
    }
    v
}

pub open spec fn spec_alloc_allocator_name() -> Seq<Seq<char>> {
    seq!["core"@, "alloc"@, "Allocator"@]
}

pub fn alloc_allocator_name() -> (r: Vec<String>)
    ensures
        strings_view(r@) == spec_alloc_allocator_name(),
{
    let mut v: Vec<String> = Vec::new();
    v.push(string_of("core"));
    v.push(string_of("alloc"));
    v.push(string_of("Allocator"));
    proof {
        assert(strings_view(v@) =~= spec_alloc_allocator_name());
    }
    v
}

pub open spec fn spec_box_name() -> Seq<Seq<char>> {
    seq!["alloc"@, "boxed"@, "Box"@]
}

pub fn box_name() -> (r: Vec<String>)
    ensures
        strings_view(r@) == spec_box_name(),
{
    let mut v: Vec<String> = Vec::new();
    v.push(string_of("alloc"));
    v.push(string_of("boxed"));
    v.push(string_of("Box"));
    proof {
        assert(strings_view(v@) =~= spec_box_name());
    }
    v
}

pub open spec fn spec_vec_name() -> Seq<Seq<char>> {
    seq!["alloc"@, "vec"@, "Vec"@]
}

pub fn vec_name() -> (r: Vec<String>)
    ensures
        strings_view(r@) == spec_vec_name(),
{
    let mut v: Vec<String> = Vec::new();
    v.push(string_of("alloc"));
    v.push(string_of("vec"));
    v.push(string_of("Vec"));
    proof {
        assert(strings_view(v@) =~= spec_vec_name());
    }
    v
}

pub open spec fn spec_option_name() -> Seq<Seq<char>> {
    seq!["core"@, "option"@, "Option"@]
}

pub fn option_name() -> (r: Vec<String>)
    ensures
        strings_view(r@) == spec_option_name(),
{
    let mut v: Vec<String> = Vec::new();
    v.push(string_of("core"));
    v.push(string_of("option"));
    v.push(string_of("Option"));
    proof {
        assert(strings_view(v@) =~= spec_option_name());
    }
    v
}

pub open spec fn spec_range_name() -> Seq<Seq<char>> {
    seq!["core"@, "ops"@, "range"@, "Range"@]
}

pub fn range_name() -> (r: Vec<String>)
    ensures
        strings_view(r@) == spec_range_name(),
{
    let mut v: Vec<String> = Vec::new();
    v.push(string_of("core"));
    v.push(string_of("ops"));
    v.push(string_of("range"));
    v.push(string_of("Range"));
    proof {
        assert(strings_view(v@) =~= spec_range_name());
    }
    v
}

pub open spec fn spec_ptr_unique_name() -> Seq<Seq<char>> {
    seq!["core"@, "ptr"@, "Unique"@]
}

pub fn ptr_unique_name() -> (r: Vec<String>)
    ensures
        strings_view(r@) == spec_ptr_unique_name(),
{
    let mut v: Vec<String> = Vec::new();
    v.push(string_of("core"));
    v.push(string_of("ptr"));
    v.push(string_of("Unique"));
    proof {
        assert(strings_view(v@) =~= spec_ptr_unique_name());
    }
    v
}

pub open spec fn spec_ptr_non_null_name() -> Seq<Seq<char>> {
    seq!["core"@, "ptr"@, "NonNull"@]
}

pub fn ptr_non_null_name() -> (r: Vec<String>)
    ensures
        strings_view(r@) == spec_ptr_non_null_name(),
{
    let mut v: Vec<String> = Vec::new();
    v.push(string_of("core"));
    v.push(string_of("ptr"));
    v.push(string_of("NonNull"));
    proof {
        assert(strings_view(v@) =~= spec_ptr_non_null_name());
    }
    v
}

pub open spec fn spec_str_name() -> Seq<Seq<char>> {
    seq!["Str"@]
}

pub fn str_name() -> (r: Vec<String>)
    ensures
        strings_view(r@) == spec_str_name(),
{
    let mut v: Vec<String> = Vec::new();
    v.push(string_of("Str"));
    proof {
        assert(strings_view(v@) =~= spec_str_name());
    }
    v
}

pub open spec fn spec_array_name() -> Seq<Seq<char>> {
    seq!["Array"@]
}

pub fn array_name() -> (r: Vec<String>)
    ensures
        strings_view(r@) == spec_array_name(),
{
    let mut v: Vec<String> = Vec::new();
    v.push(string_of("Array"));
    proof {
        assert(strings_view(v@) =~= spec_array_name());
    }
    v
}

pub open spec fn spec_slice_name() -> Seq<Seq<char>> {
    seq!["Slice"@]
}

pub fn slice_name() -> (r: Vec<String>)
    ensures
        strings_view(r@) == spec_slice_name(),
{
    let mut v: Vec<String> = Vec::new();
    v.push(string_of("Slice"));
    proof {
        assert(strings_view(v@) =~= spec_slice_name());
    }
    v
}

pub open spec fn spec_panic_name() -> Seq<Seq<char>> {
    seq!["core"@, "panicking"@, "panic"@]
}

pub fn panic_name() -> (r: Vec<String>)
    ensures
        strings_view(r@) == spec_panic_name(),
{
    let mut v: Vec<String> = Vec::new();
    v.push(string_of("core"));
    v.push(string_of("panicking"));
    v.push(string_of("panic"));
    proof {
        assert(strings_view(v@) =~= spec_panic_name());
    }
    v
}

pub open spec fn spec_begin_panic_name() -> Seq<Seq<char>> {
    seq!["std"@, "panicking"@, "begin_panic"@]
}

pub fn begin_panic_name() -> (r: Vec<String>)
    ensures
        strings_view(r@) == spec_begin_panic_name(),
{
    let mut v: Vec<String> = Vec::new();
    v.push(string_of("std"));
    v.push(string_of("panicking"));
    v.push(string_of("begin_panic"));
    proof {
        assert(strings_view(v@) =~= spec_begin_panic_name());
    }
    v
}

pub open spec fn spec_box_free_name() -> Seq<Seq<char>> {
    seq!["alloc"@, "alloc"@, "box_free"@]
}

pub fn box_free_name() -> (r: Vec<String>)
    ensures
        strings_view(r@) == spec_box_free_name(),
{
    let mut v: Vec<String> = Vec::new();
    v.push(string_of("alloc"));
    v.push(string_of("alloc"));
    v.push(string_of("box_free"));
    proof {
        assert(strings_view(v@) =~= spec_box_free_name());
    }
    v
}

pub open spec fn spec_slice_len_name() -> Seq<Seq<char>> {
    seq!["core"@, "slice"@, "[T]"@, "len"@]
}

pub fn slice_len_name() -> (r: Vec<String>)
    ensures
        strings_view(r@) == spec_slice_len_name(),
{
    let mut v: Vec<String> = Vec::new();
    v.push(string_of("core"));
    v.push(string_of("slice"));
    v.push(string_of("[T]"));
    v.push(string_of("len"));
    proof {
        assert(strings_view(v@) =~= spec_slice_len_name());
    }
    v
}
/// The paths of the traits that are left out of the extracted declarations.
pub open spec fn spec_ignored_traits() -> Seq<Seq<Seq<char>>> {
    seq![
        spec_sized_name(),
        spec_marker_tuple_name(),
        spec_sync_name(),
        spec_send_name(),
        spec_unpin_name(),
        spec_alloc_allocator_name(),
    ]
}

/// The name is one of the traits left out of the extracted declarations.
pub fn is_marker_trait(name: &Name) -> (r: bool)
    ensures
        r == exists|i: int|
            0 <= i < spec_ignored_traits().len() && name.matches_ref(#[trigger] spec_ignored_traits()[i]),
{
    let names = vec![
        sized_name(),
        marker_tuple_name(),
        sync_name(),
        send_name(),
        unpin_name(),
        alloc_allocator_name(),
    ];
    proof {
        assert forall|i: int| 0 <= i < names@.len() implies strings_view(#[trigger] names@[i]@)
            == spec_ignored_traits()[i] by {}
    }
    let mut i: usize = 0;
    while i < names.len()
        invariant
            i <= names@.len(),
            names@.len() == spec_ignored_traits().len(),
            forall|j: int| 0 <= j < names@.len() ==> strings_view(#[trigger] names@[j]@) == spec_ignored_traits()[j],
            forall|j: int| 0 <= j < i ==> !name.matches_ref(#[trigger] spec_ignored_traits()[j]),
        decreases names@.len() - i,
    {
        if name.equals_ref_name(&names[i]) {
            return true;
        }
        i += 1;
    }
    false
}

/// The assumed type that a type name denotes, if any.
pub open spec fn spec_type_id_from_name(name: &Name) -> Option<AssumedTy> {
    if name.matches_ref(spec_box_name()) {
        Some(AssumedTy::Box)
    } else if name.matches_ref(spec_ptr_unique_name()) {
        Some(AssumedTy::PtrUnique)
    } else if name.matches_ref(spec_ptr_non_null_name()) {
        Some(AssumedTy::PtrNonNull)
    } else {
        None
    }
}

pub fn get_type_id_from_name(name: &TypeName) -> (r: Option<AssumedTy>)
    ensures
        r == spec_type_id_from_name(name),
{
    if name.equals_ref_name(&box_name()) {
        Some(AssumedTy::Box)
    } else if name.equals_ref_name(&ptr_unique_name()) {
        Some(AssumedTy::PtrUnique)
    } else if name.equals_ref_name(&ptr_non_null_name()) {
        Some(AssumedTy::PtrNonNull)
    } else {
        None
    }
}

/// The path of an assumed type.
pub open spec fn spec_name_of_type_id(id: AssumedTy) -> Seq<Seq<char>> {
    match id {
        AssumedTy::Box => spec_box_name(),
        AssumedTy::Vec => spec_vec_name(),
        AssumedTy::Option => spec_option_name(),
        AssumedTy::Range => spec_range_name(),
        AssumedTy::PtrUnique => spec_ptr_unique_name(),
        AssumedTy::PtrNonNull => spec_ptr_non_null_name(),
        AssumedTy::Str => spec_str_name(),
        AssumedTy::Array => spec_array_name(),
        AssumedTy::Slice => spec_slice_name(),
    }
}

pub fn get_name_from_type_id(id: AssumedTy) -> (r: Vec<String>)
    ensures
        strings_view(r@) == spec_name_of_type_id(id),
{
    match id {
        AssumedTy::Box => box_name(),
        AssumedTy::Vec => vec_name(),
        AssumedTy::Option => option_name(),
        AssumedTy::Range => range_name(),
        AssumedTy::PtrUnique => ptr_unique_name(),
        AssumedTy::PtrNonNull => ptr_non_null_name(),
        AssumedTy::Str => str_name(),
        AssumedTy::Array => array_name(),
        AssumedTy::Slice => slice_name(),
    }
}

/// The functions recognised by name.
#[derive(Debug, Clone, Copy, PartialEq, Eq, Structural)]
enum FunId {
    Panic,
    BeginPanic,
    BoxFree,
    SliceLen,
}

/// The assumed functions that stay functions after extraction.
#[derive(Debug, Clone, Copy, PartialEq, Eq, Structural)]
pub enum AssumedFunId {
    BoxFree,
    SliceLen,
}

pub open spec fn is_panic_name(name: &Name) -> bool {
    name.matches_ref(spec_panic_name()) || name.matches_ref(spec_begin_panic_name())
}

pub open spec fn spec_fun_id_from_name(name: &Name) -> Option<AssumedFunId> {
    if name.matches_ref(spec_box_free_name()) {
        Some(AssumedFunId::BoxFree)
    } else if name.matches_ref(spec_slice_len_name()) {
        Some(AssumedFunId::SliceLen)
    } else {
        None
    }
}

fn get_fun_id_from_name_full(name: &FunName) -> (r: Option<FunId>)
    ensures
        r == (if name.matches_ref(spec_panic_name()) {
            Some(FunId::Panic)
        } else if name.matches_ref(spec_begin_panic_name()) {
            Some(FunId::BeginPanic)
        } else if name.matches_ref(spec_box_free_name()) {
            Some(FunId::BoxFree)
        } else if name.matches_ref(spec_slice_len_name()) {
            Some(FunId::SliceLen)
        } else {
            None
        }),
{
    if name.equals_ref_name(&panic_name()) {
        Some(FunId::Panic)
    } else if name.equals_ref_name(&begin_panic_name()) {
        Some(FunId::BeginPanic)
    } else if name.equals_ref_name(&box_free_name()) {
        Some(FunId::BoxFree)
    } else if name.equals_ref_name(&slice_len_name()) {
        Some(FunId::SliceLen)
    } else {
        None
    }
}

/// The assumed function a name denotes; the panic functions are not
/// functions after extraction and may not be asked about.
pub fn get_fun_id_from_name(name: &FunName) -> (r: Option<AssumedFunId>)
    requires
        !is_panic_name(name),
    ensures
        r == spec_fun_id_from_name(name),
{
    match get_fun_id_from_name_full(name) {
        Some(FunId::BoxFree) => Some(AssumedFunId::BoxFree),
        Some(FunId::SliceLen) => Some(AssumedFunId::SliceLen),
        _ => None,
    }
}

/// Which type parameters of an assumed type extraction keeps (the
/// allocator parameter of a box is dropped).
pub open spec fn spec_used_params(id: AssumedTy) -> Seq<bool> {
    match id {
        AssumedTy::Box => seq![true, false],
        AssumedTy::Str => seq![],
        _ => seq![true],
    }
}

pub fn type_to_used_params(name: &TypeName) -> (r: Option<Vec<bool>>)
    ensures
        match spec_type_id_from_name(name) {
            None => r is None,
            Some(id) => r is Some && r->0@ == spec_used_params(id),
        },
{
    match get_type_id_from_name(name) {
        None => None,
        Some(id) => {
            let v = match id {
                AssumedTy::Box => vec![true, false],
                AssumedTy::Str => vec![],
                _ => vec![true],
            };
            proof {
                assert(v@ =~= spec_used_params(id));
            }
            Some(v)
        },
    }
}

/// Which type parameters and which arguments of an assumed function
/// extraction keeps.
pub struct FunInfo {
    pub used_type_params: Vec<bool>,
    pub used_args: Vec<bool>,
}

pub fn function_to_info(name: &FunName) -> (r: Option<FunInfo>)
    ensures
        r is Some <==> (name.matches_ref(spec_panic_name()) || name.matches_ref(spec_begin_panic_name())
            || name.matches_ref(spec_box_free_name()) || name.matches_ref(spec_slice_len_name())),
        r is Some ==> (if name.matches_ref(spec_panic_name()) {
            r->0.used_type_params@ == Seq::<bool>::empty() && r->0.used_args@ == seq![true]
        } else if name.matches_ref(spec_begin_panic_name()) {
            r->0.used_type_params@ == seq![true] && r->0.used_args@ == seq![true]
        } else if name.matches_ref(spec_box_free_name()) {
            r->0.used_type_params@ == seq![true, false] && r->0.used_args@ == seq![true, false]
        } else {
            r->0.used_type_params@ == seq![true] && r->0.used_args@ == seq![true]
        }),
{
    match get_fun_id_from_name_full(name) {
        None => None,
        Some(id) => {
            let info = match id {
                FunId::Panic => FunInfo { used_type_params: vec![], used_args: vec![true] },
                FunId::BeginPanic => FunInfo { used_type_params: vec![true], used_args: vec![true] },
                FunId::BoxFree => FunInfo {
                    used_type_params: vec![true, false],
                    used_args: vec![true, false],
                },
                FunId::SliceLen => FunInfo { used_type_params: vec![true], used_args: vec![true] },
            };
            proof {
                assert(info.used_type_params@ =~= match id {
                    FunId::Panic => Seq::<bool>::empty(),
                    FunId::BeginPanic => seq![true],
                    FunId::BoxFree => seq![true, false],
                    FunId::SliceLen => seq![true],
                });
                assert(info.used_args@ =~= match id {
                    FunId::BoxFree => seq![true, false],
                    _ => seq![true],
                });
            }
            Some(info)
        },
    }
}

} // verus!
