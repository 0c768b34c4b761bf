use vstd::prelude::*;

verus! {

/// A named, typed value passed from host code into an active program.
///
/// `transpose` is only consulted for matrix kinds: it controls whether the
/// native upload call transposes the matrix.
#[derive(Debug, Clone)]
pub struct Uniform {
    pub name: String,
    pub kind: UniformType,
    pub transpose: bool,
}

/// The typed payload of a uniform: scalars, vectors (arities 2 to 4) and
/// square matrices (sizes 2 to 4), each in float, double or integer flavour.
///
/// Float and double payloads are carried as bit patterns (`u32` for `f32`,
/// `u64` for `f64`), so the verified core can store and forward them without
/// doing float arithmetic; the unverified shell reinterprets the bits at
/// upload time.  Matrices are in column-major element order, as the native
/// API expects them.
#[derive(Debug, Copy, Clone, PartialEq, Eq)]
pub enum UniformType {
    D(u64),
    F(u32),
    I(i32),
    D2([u64; 2]),
    F2([u32; 2]),
    I2([i32; 2]),
    D3([u64; 3]),
    F3([u32; 3]),
    I3([i32; 3]),
    D4([u64; 4]),
    F4([u32; 4]),
    I4([i32; 4]),
    DMat2([u64; 4]),
    FMat2([u32; 4]),
    DMat3([u64; 9]),
    FMat3([u32; 9]),
    DMat4([u64; 16]),
    FMat4([u32; 16]),
}

impl Uniform {
    pub fn new(name: &str, kind: UniformType, transpose: bool) -> (r: Self)
        ensures
            r.name@ == name@,
            r.kind == kind,
            r.transpose == transpose,
    {
        Self { name: name.to_owned(), kind, transpose }
    }

    pub fn new_1d(name: &str, value_bits: u64) -> (r: Self)
        ensures
            r.name@ == name@ && r.kind == UniformType::D(value_bits) && !r.transpose,
    {
        Self::new(name, UniformType::D(value_bits), false)
    }

    pub fn new_1f(name: &str, value_bits: u32) -> (r: Self)
        ensures
            r.name@ == name@ && r.kind == UniformType::F(value_bits) && !r.transpose,
    {
        Self::new(name, UniformType::F(value_bits), false)
    }

    pub fn new_1i(name: &str, value: i32) -> (r: Self)
        ensures
            r.name@ == name@ && r.kind == UniformType::I(value) && !r.transpose,
    {
        Self::new(name, UniformType::I(value), false)
    }

    pub fn new_2d(name: &str, value_bits: [u64; 2]) -> (r: Self)
        ensures
            r.name@ == name@ && r.kind == UniformType::D2(value_bits) && !r.transpose,
    {
        Self::new(name, UniformType::D2(value_bits), false)
    }

    pub fn new_2f(name: &str, value_bits: [u32; 2]) -> (r: Self)
        ensures
            r.name@ == name@ && r.kind == UniformType::F2(value_bits) && !r.transpose,
    {
        Self::new(name, UniformType::F2(value_bits), false)
    }

    pub fn new_2i(name: &str, value: [i32; 2]) -> (r: Self)
        ensures
            r.name@ == name@ && r.kind == UniformType::I2(value) && !r.transpose,
    {
        Self::new(name, UniformType::I2(value), false)
    }

    pub fn new_3d(name: &str, value_bits: [u64; 3]) -> (r: Self)
        ensures
            r.name@ == name@ && r.kind == UniformType::D3(value_bits) && !r.transpose,
    {
        Self::new(name, UniformType::D3(value_bits), false)
    }

    pub fn new_3f(name: &str, value_bits: [u32; 3]) -> (r: Self)
        ensures
            r.name@ == name@ && r.kind == UniformType::F3(value_bits) && !r.transpose,
    {
        Self::new(name, UniformType::F3(value_bits), false)
    }

    pub fn new_3i(name: &str, value: [i32; 3]) -> (r: Self)
        ensures
            r.name@ == name@ && r.kind == UniformType::I3(value) && !r.transpose,
    {
        Self::new(name, UniformType::I3(value), false)
    }

    pub fn new_4d(name: &str, value_bits: [u64; 4]) -> (r: Self)
        ensures
            r.name@ == name@ && r.kind == UniformType::D4(value_bits) && !r.transpose,
    {
        Self::new(name, UniformType::D4(value_bits), false)
    }

    pub fn new_4f(name: &str, value_bits: [u32; 4]) -> (r: Self)
        ensures
            r.name@ == name@ && r.kind == UniformType::F4(value_bits) && !r.transpose,
    {
        Self::new(name, UniformType::F4(value_bits), false)
    }

    pub fn new_4i(name: &str, value: [i32; 4]) -> (r: Self)
        ensures
            r.name@ == name@ && r.kind == UniformType::I4(value) && !r.transpose,
    {
        Self::new(name, UniformType::I4(value), false)
    }

    pub fn new_mat2dv(name: &str, value_bits: [u64; 4], transpose: bool) -> (r: Self)
        ensures
            r.name@ == name@ && r.kind == UniformType::DMat2(value_bits) && r.transpose
                == transpose,
    {
        Self::new(name, UniformType::DMat2(value_bits), transpose)
    }

    pub fn new_mat2fv(name: &str, value_bits: [u32; 4], transpose: bool) -> (r: Self)
        ensures
            r.name@ == name@ && r.kind == UniformType::FMat2(value_bits) && r.transpose
                == transpose,
    {
        Self::new(name, UniformType::FMat2(value_bits), transpose)
    }

    pub fn new_mat3dv(name: &str, value_bits: [u64; 9], transpose: bool) -> (r: Self)
        ensures
            r.name@ == name@ && r.kind == UniformType::DMat3(value_bits) && r.transpose
                == transpose,
    {
        Self::new(name, UniformType::DMat3(value_bits), transpose)
    }

    pub fn new_mat3fv(name: &str, value_bits: [u32; 9], transpose: bool) -> (r: Self)
        ensures
            r.name@ == name@ && r.kind == UniformType::FMat3(value_bits) && r.transpose
                == transpose,
    {
        Self::new(name, UniformType::FMat3(value_bits), transpose)
    }

    pub fn new_mat4dv(name: &str, value_bits: [u64; 16], transpose: bool) -> (r: Self)
        ensures
            r.name@ == name@ && r.kind == UniformType::DMat4(value_bits) && r.transpose
                == transpose,
    {
        Self::new(name, UniformType::DMat4(value_bits), transpose)
    }

    pub fn new_mat4fv(name: &str, value_bits: [u32; 16], transpose: bool) -> (r: Self)
        ensures
            r.name@ == name@ && r.kind == UniformType::FMat4(value_bits) && r.transpose
                == transpose,
    {
        Self::new(name, UniformType::FMat4(value_bits), transpose)
    }
}

} // verus!
