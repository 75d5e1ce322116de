//! `thin_vec::ThinVec` as the verified code sees it.

use crate::ast::tree::{FieldDecl, FnParam, Item, Variant};
use crate::ast::TyFnParam;
use thin_vec::ThinVec;
use vstd::prelude::*;

verus! {

/// `thin_vec::ThinVec`, a vector behind one pointer. Nothing of its inside
/// is known here; what it holds is named by the functions below.
#[verifier::external_type_specification]
#[verifier::external_body]
#[verifier::reject_recursive_types(T)]
pub struct ExThinVec<T>(ThinVec<T>);

/// The parameters that a list holds, first to last.
pub uninterp spec fn ty_params(list: ThinVec<TyFnParam>) -> Seq<TyFnParam>;

/// `ThinVec::as_slice`: the parameters of the list as a slice, in the same
/// order.
#[verifier::external_body]
pub(crate) fn ty_params_slice(list: &ThinVec<TyFnParam>) -> (slice: &[TyFnParam])
    ensures
        slice@ == ty_params(*list),
{
    list.as_slice()
}

/// The parameters that a list holds, first to last.
pub uninterp spec fn param_list(list: ThinVec<FnParam>) -> Seq<FnParam>;

/// `ThinVec::new`: a list without parameters.
#[verifier::external_body]
pub(crate) fn new_param_list() -> (list: ThinVec<FnParam>)
    ensures
        param_list(list) == Seq::<FnParam>::empty(),
{
    ThinVec::new()
}

/// `ThinVec::push`: `param` becomes the last of the list, behind the parameters
/// that it held. Like `Vec::push` the call does not return where the longer
/// list cannot be allocated: it panics where that would take more than
/// `isize::MAX` bytes, which no list that is held in memory comes near.
#[verifier::external_body]
pub(crate) fn push_param(list: &mut ThinVec<FnParam>, param: FnParam)
    ensures
        param_list(*final(list)) == param_list(*old(list)).push(param),
{
    list.push(param);
}

/// The fields that a list holds, first to last.
pub uninterp spec fn field_list(list: ThinVec<FieldDecl>) -> Seq<FieldDecl>;

/// `ThinVec::new`: a list without fields.
#[verifier::external_body]
pub(crate) fn new_field_list() -> (list: ThinVec<FieldDecl>)
    ensures
        field_list(list) == Seq::<FieldDecl>::empty(),
{
    ThinVec::new()
}

/// `ThinVec::push`: `field` becomes the last of the list, behind the fields
/// that it held. Like `Vec::push` the call does not return where the longer
/// list cannot be allocated: it panics where that would take more than
/// `isize::MAX` bytes, which no list that is held in memory comes near.
#[verifier::external_body]
pub(crate) fn push_field(list: &mut ThinVec<FieldDecl>, field: FieldDecl)
    ensures
        field_list(*final(list)) == field_list(*old(list)).push(field),
{
    list.push(field);
}

/// The variants that a list holds, first to last.
pub uninterp spec fn variant_list(list: ThinVec<Variant>) -> Seq<Variant>;

/// `ThinVec::new`: a list without variants.
#[verifier::external_body]
pub(crate) fn new_variant_list() -> (list: ThinVec<Variant>)
    ensures
        variant_list(list) == Seq::<Variant>::empty(),
{
    ThinVec::new()
}

/// `ThinVec::push`: `variant` becomes the last of the list, behind the variants
/// that it held. Like `Vec::push` the call does not return where the longer
/// list cannot be allocated: it panics where that would take more than
/// `isize::MAX` bytes, which no list that is held in memory comes near.
#[verifier::external_body]
pub(crate) fn push_variant(list: &mut ThinVec<Variant>, variant: Variant)
    ensures
        variant_list(*final(list)) == variant_list(*old(list)).push(variant),
{
    list.push(variant);
}

/// The items that a list holds, first to last.
pub uninterp spec fn item_list(list: ThinVec<Item>) -> Seq<Item>;

/// `ThinVec::new`: a list without items.
#[verifier::external_body]
pub(crate) fn new_item_list() -> (list: ThinVec<Item>)
    ensures
        item_list(list) == Seq::<Item>::empty(),
{
    ThinVec::new()
}

/// `ThinVec::push`: `item` becomes the last of the list, behind the items
/// that it held. Like `Vec::push` the call does not return where the longer
/// list cannot be allocated: it panics where that would take more than
/// `isize::MAX` bytes, which no list that is held in memory comes near.
#[verifier::external_body]
pub(crate) fn push_item(list: &mut ThinVec<Item>, item: Item)
    ensures
        item_list(*final(list)) == item_list(*old(list)).push(item),
{
    list.push(item);
}

} // verus!
