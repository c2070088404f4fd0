//! Members of the `PropertyObject` object (`IPropertyObject`).
use vstd::prelude::*;

verus! {

pub const GET_VAL_NUMBER: i32 = 0x01f5;

pub const SET_VAL_NUMBER: i32 = 0x01f6;

pub const GET_VAL_BOOLEAN: i32 = 0x01f7;

pub const SET_VAL_BOOLEAN: i32 = 0x01f8;

pub const GET_VAL_STRING: i32 = 0x01f9;

pub const SET_VAL_STRING: i32 = 0x01fa;

pub const GET_PROPERTY_OBJECT: i32 = 0x01fb;

pub const SET_PROPERTY_OBJECT: i32 = 0x01fc;

pub const GET_TYPE: i32 = 0x0214;

pub const NEW_SUB_PROPERTY: i32 = 0x0226;

pub const DELETE_SUB_PROPERTY: i32 = 0x0227;

pub const EXISTS: i32 = 0x023a;

pub const CLONE: i32 = 0x023b;

} // verus!
