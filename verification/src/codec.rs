use vstd::prelude::*;

verus! {

/// How the operating system marshals the request and response buffers of a
/// control transfer between user and kernel space. Occupies the two lowest
/// bits of a control code.
#[derive(Clone, Copy, Debug, PartialEq, Eq, Structural)]
pub enum Method {
    Buffered,
    Indirect,
    OutDirect,
    Neither,
}

/// The declared direction of a control transfer, used by the operating system
/// for access checking. Occupies bits 14 and 15 of a control code.
#[derive(Clone, Copy, Debug, PartialEq, Eq, Structural)]
pub enum Access {
    Any,
    Read,
    Write,
}

/// The two-bit field value of a transfer method.
pub open spec fn method_bits(method: Method) -> u32 {
    match method {
        Method::Buffered => 0,
        Method::Indirect => 1,
        Method::OutDirect => 2,
        Method::Neither => 3,
    }
}

/// The two-bit field value of an access mode.
pub open spec fn access_bits(access: Access) -> u32 {
    match access {
        Access::Any => 0,
        Access::Read => 1,
        Access::Write => 2,
    }
}

/// The bit-packed control code: device type in the top 16 bits, access in
/// bits 14-15, function number in bits 2-13, transfer method in bits 0-1.
pub open spec fn spec_control_code(device_type: u32, function: u32, method: u32, access: u32) -> u32 {
    (device_type << 16) | (access << 14) | (function << 2) | method
}

/// The device-type field of a control code (top 16 bits).
pub open spec fn spec_device_type_of(code: u32) -> u32 {
    code >> 16
}

/// The access field of a control code (bits 14-15).
pub open spec fn spec_access_of(code: u32) -> u32 {
    (code >> 14) & 0x3
}

/// The function-number field of a control code (bits 2-13).
pub open spec fn spec_function_of(code: u32) -> u32 {
    (code >> 2) & 0xfff
}

/// The transfer-method field of a control code (bits 0-1).
pub open spec fn spec_method_of(code: u32) -> u32 {
    code & 0x3
}

/// The numeric field value of a transfer method.
pub fn method_value(method: Method) -> (r: u32)
    ensures
        r == method_bits(method),
{
    match method {
        Method::Buffered => 0,
        Method::Indirect => 1,
        Method::OutDirect => 2,
        Method::Neither => 3,
    }
}

/// The numeric field value of an access mode.
pub fn access_value(access: Access) -> (r: u32)
    ensures
        r == access_bits(access),
{
    match access {
        Access::Any => 0,
        Access::Read => 1,
        Access::Write => 2,
    }
}

/// Packs the four fields of a device-I/O control code into the single 32-bit
/// value the operating system expects:
/// `(device_type << 16) | (access << 14) | (function << 2) | method`.
///
/// The packing is pure and has no error case. A `device_type` above `0xFFFF`
/// or a `function` above `0xFFF` overflows into a neighbouring field; staying
/// in range is the caller's contract, and [`lemma_control_code_roundtrip`]
/// states that in-range fields are recoverable from the code.
pub fn io_control_code(device_type: u32, function: u32, method: Method, access: Access) -> (code: u32)
    ensures
        code == spec_control_code(device_type, function, method_bits(method), access_bits(access)),
{
    (device_type << 16u32) | (access_value(access) << 14u32) | (function << 2u32) | method_value(method)
}

/// The device-type field of a control code.
pub fn device_type_of(code: u32) -> (r: u32)
    ensures
        r == spec_device_type_of(code),
{
    code >> 16u32
}

/// The access field of a control code.
pub fn access_of(code: u32) -> (r: u32)
    ensures
        r == spec_access_of(code),
{
    (code >> 14u32) & 0x3
}

/// The function-number field of a control code.
pub fn function_of(code: u32) -> (r: u32)
    ensures
        r == spec_function_of(code),
{
    (code >> 2u32) & 0xfff
}

/// The transfer-method field of a control code.
pub fn method_of(code: u32) -> (r: u32)
    ensures
        r == spec_method_of(code),
{
    code & 0x3
}

/// Law: for every in-range device type (16 bits), function number (12 bits),
/// method (2 bits) and access (at most 2), extracting each field of the packed
/// control code returns the original value.
pub proof fn lemma_control_code_roundtrip(device_type: u32, function: u32, method: u32, access: u32)
    requires
        device_type <= 0xffff,
        function <= 0xfff,
        method <= 3,
        access <= 2,
    ensures
        spec_device_type_of(spec_control_code(device_type, function, method, access)) == device_type,
        spec_access_of(spec_control_code(device_type, function, method, access)) == access,
        spec_function_of(spec_control_code(device_type, function, method, access)) == function,
        spec_method_of(spec_control_code(device_type, function, method, access)) == method,
{
    assert({
        &&& spec_device_type_of(spec_control_code(device_type, function, method, access)) == device_type
        &&& spec_access_of(spec_control_code(device_type, function, method, access)) == access
        &&& spec_function_of(spec_control_code(device_type, function, method, access)) == function
        &&& spec_method_of(spec_control_code(device_type, function, method, access)) == method
    }) by (bit_vector)
        requires
            device_type <= 0xffff,
            function <= 0xfff,
            method <= 3,
            access <= 2,
    ;
}

/// Law: the fields of a code packed from typed `Method` and `Access` values
/// and an in-range device type and function number decode to those values.
pub proof fn lemma_control_code_roundtrip_typed(device_type: u32, function: u32, method: Method, access: Access)
    requires
        device_type <= 0xffff,
        function <= 0xfff,
    ensures
        spec_device_type_of(spec_control_code(device_type, function, method_bits(method), access_bits(access))) == device_type,
        spec_access_of(spec_control_code(device_type, function, method_bits(method), access_bits(access))) == access_bits(access),
        spec_function_of(spec_control_code(device_type, function, method_bits(method), access_bits(access))) == function,
        spec_method_of(spec_control_code(device_type, function, method_bits(method), access_bits(access))) == method_bits(method),
{
    lemma_control_code_roundtrip(device_type, function, method_bits(method), access_bits(access));
}

} // verus!
