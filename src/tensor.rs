use vstd::prelude::*;

use crate::error::ModelError;
use crate::shape::{check_fits, fits, resolve, Dim};

verus! {

/// The element types a tensor can hold. Every one of them is 32 bits wide, and
/// values travel through the library as their bit patterns, so no conversion
/// ever touches them.
#[derive(Clone, Copy, Debug, PartialEq, Eq, Structural)]
pub enum ElementType {
    Float32,
    Int32,
    Uint32,
}

/// A named tensor as the model declares it.
#[derive(Debug)]
pub struct TensorDescriptor {
    pub name: String,
    pub shape: Vec<Dim>,
    pub element_type: ElementType,
}

pub struct DescriptorView {
    pub name: Seq<char>,
    pub shape: Seq<Dim>,
    pub element_type: ElementType,
}

impl View for TensorDescriptor {
    type V = DescriptorView;

    open spec fn view(&self) -> DescriptorView {
        DescriptorView { name: self.name@, shape: self.shape@, element_type: self.element_type }
    }
}

/// Values laid out flat, with the shape they stand for.
#[derive(Debug)]
pub struct TensorBuffer {
    pub data: Vec<u32>,
    pub shape: Vec<u64>,
    pub element_type: ElementType,
}

/// A tensor in the form handed to and received from the engine.
#[derive(Debug)]
pub struct NativeTensor {
    pub data: Vec<u32>,
    pub dims: Vec<u64>,
    pub element_type: ElementType,
}

pub struct TensorView {
    pub data: Seq<u32>,
    pub shape: Seq<u64>,
    pub element_type: ElementType,
}

impl View for TensorBuffer {
    type V = TensorView;

    open spec fn view(&self) -> TensorView {
        TensorView { data: self.data@, shape: self.shape@, element_type: self.element_type }
    }
}

impl View for NativeTensor {
    type V = TensorView;

    open spec fn view(&self) -> TensorView {
        TensorView { data: self.data@, shape: self.dims@, element_type: self.element_type }
    }
}

/// The engine tensor that `values` of type `t` become under the declared shape `d`.
pub open spec fn packed(values: Seq<u32>, t: ElementType, d: Seq<Dim>) -> TensorView {
    TensorView { data: values, shape: resolve(d, values.len() as u64), element_type: t }
}

/// The flat buffer copied out of an engine tensor.
pub open spec fn unpacked(n: TensorView) -> TensorView {
    TensorView { data: n.data, shape: n.shape, element_type: n.element_type }
}

pub fn copy_u32s(v: &Vec<u32>) -> (r: Vec<u32>)
    ensures
        r@ == v@,
{
    let mut r: Vec<u32> = Vec::new();
    let mut i: usize = 0;
    while i < v.len()
        invariant
            i <= v.len(),
            r@ =~= v@.take(i as int),
        decreases v.len() - i,
    {
        r.push(v[i]);
        i = i + 1;
    }
    assert(r@ =~= v@);
    r
}

pub fn copy_u64s(v: &Vec<u64>) -> (r: Vec<u64>)
    ensures
        r@ == v@,
{
    let mut r: Vec<u64> = Vec::new();
    let mut i: usize = 0;
    while i < v.len()
        invariant
            i <= v.len(),
            r@ =~= v@.take(i as int),
        decreases v.len() - i,
    {
        r.push(v[i]);
        i = i + 1;
    }
    assert(r@ =~= v@);
    r
}

pub fn copy_dims(v: &Vec<Dim>) -> (r: Vec<Dim>)
    ensures
        r@ == v@,
{
    let mut r: Vec<Dim> = Vec::new();
    let mut i: usize = 0;
    while i < v.len()
        invariant
            i <= v.len(),
            r@ =~= v@.take(i as int),
        decreases v.len() - i,
    {
        r.push(v[i]);
        i = i + 1;
    }
    assert(r@ =~= v@);
    r
}

impl TensorDescriptor {
    pub fn new(name: String, shape: Vec<Dim>, element_type: ElementType) -> (r: TensorDescriptor)
        ensures
            r.name == name,
            r.shape@ == shape@,
            r.element_type == element_type,
    {
        TensorDescriptor { name, shape, element_type }
    }

    /// A fresh copy that the caller owns.
    pub fn duplicate(&self) -> (r: TensorDescriptor)
        ensures
            r@ == self@,
    {
        TensorDescriptor {
            name: self.name.clone(),
            shape: copy_dims(&self.shape),
            element_type: self.element_type,
        }
    }
}

/// Turns caller-owned `values` of type `element_type` into a fresh engine
/// tensor for the input described by `desc`, with the open dimensions
/// resolved from the number of values.
pub fn pack(values: &Vec<u32>, element_type: ElementType, desc: &TensorDescriptor) -> (r: Result<
    NativeTensor,
    ModelError,
>)
    ensures
        r is Ok <==> (element_type == desc.element_type && fits(desc.shape@, values@.len() as u64)),
        element_type != desc.element_type ==> r == Err::<NativeTensor, ModelError>(
            ModelError::TypeMismatch { expected: desc.element_type, actual: element_type },
        ),
        element_type == desc.element_type && !fits(desc.shape@, values@.len() as u64) ==> (
        match r {
            Err(ModelError::ShapeMismatch { expected, actual }) => expected@ == resolve(
                desc.shape@,
                values@.len() as u64,
            ) && actual == values@.len() as u64,
            _ => false,
        }),
        r matches Ok(t) ==> t@ == packed(values@, element_type, desc.shape@),
{
    if element_type != desc.element_type {
        return Err(ModelError::TypeMismatch { expected: desc.element_type, actual: element_type });
    }
    let len = values.len() as u64;
    let (ok, shape) = check_fits(&desc.shape, len);
    if !ok {
        return Err(ModelError::ShapeMismatch { expected: shape, actual: len });
    }
    Ok(NativeTensor { data: copy_u32s(values), dims: shape, element_type })
}

/// Copies an engine tensor out into a fresh flat buffer with its shape.
pub fn unpack(native: &NativeTensor) -> (r: TensorBuffer)
    ensures
        r@ == unpacked(native@),
{
    TensorBuffer {
        data: copy_u32s(&native.data),
        shape: copy_u64s(&native.dims),
        element_type: native.element_type,
    }
}

/// Unpacking what `pack` made gives back exactly the values that went in,
/// their element type, and the shape they were resolved to.
pub proof fn lemma_pack_round_trip(values: Seq<u32>, t: ElementType, d: Seq<Dim>)
    requires
        values.len() <= u64::MAX,
        fits(d, values.len() as u64),
    ensures
        unpacked(packed(values, t, d)).data == values,
        unpacked(packed(values, t, d)).shape == resolve(d, values.len() as u64),
        unpacked(packed(values, t, d)).element_type == t,
        crate::shape::product(unpacked(packed(values, t, d)).shape) == values.len(),
{
}

} // verus!
