use win_kernel_driver::codec::access_of;
use win_kernel_driver::codec::access_value;
use win_kernel_driver::codec::device_type_of;
use win_kernel_driver::codec::function_of;
use win_kernel_driver::codec::method_of;
use win_kernel_driver::codec::method_value;
use win_kernel_driver::io_control_code;
use win_kernel_driver::Access;
use win_kernel_driver::Method;

#[test]
fn read_msr_control_code() {
    let code = io_control_code(40000, 0x821, Method::Buffered, Access::Any);
    assert_eq!(code, (40000u32 << 16) | (0u32 << 14) | (0x821u32 << 2) | 0u32);
    assert_eq!(code, 0x9C40_2084);
}

#[test]
fn method_field_values() {
    assert_eq!(method_value(Method::Buffered), 0);
    assert_eq!(method_value(Method::Indirect), 1);
    assert_eq!(method_value(Method::OutDirect), 2);
    assert_eq!(method_value(Method::Neither), 3);
}

#[test]
fn access_field_values() {
    assert_eq!(access_value(Access::Any), 0);
    assert_eq!(access_value(Access::Read), 1);
    assert_eq!(access_value(Access::Write), 2);
}

#[test]
fn extract_fields_of_known_code() {
    let code = 0x9C40_2084;
    assert_eq!(device_type_of(code), 40000);
    assert_eq!(access_of(code), 0);
    assert_eq!(function_of(code), 0x821);
    assert_eq!(method_of(code), 0);
}

#[test]
fn roundtrip_every_device_type() {
    for device_type in 0u32..=0xFFFF {
        let code = io_control_code(device_type, 0xABC, Method::Neither, Access::Write);
        assert_eq!(device_type_of(code), device_type);
        assert_eq!(access_of(code), 2);
        assert_eq!(function_of(code), 0xABC);
        assert_eq!(method_of(code), 3);
    }
}

#[test]
fn roundtrip_every_function() {
    for function in 0u32..=0xFFF {
        let code = io_control_code(0xFFFF, function, Method::Indirect, Access::Read);
        assert_eq!(device_type_of(code), 0xFFFF);
        assert_eq!(access_of(code), 1);
        assert_eq!(function_of(code), function);
        assert_eq!(method_of(code), 1);
    }
}

#[test]
fn roundtrip_every_method_and_access() {
    let methods = [Method::Buffered, Method::Indirect, Method::OutDirect, Method::Neither];
    let accesses = [Access::Any, Access::Read, Access::Write];
    for (mi, method) in methods.iter().enumerate() {
        for (ai, access) in accesses.iter().enumerate() {
            let code = io_control_code(0, 0, *method, *access);
            assert_eq!(device_type_of(code), 0);
            assert_eq!(access_of(code), ai as u32);
            assert_eq!(function_of(code), 0);
            assert_eq!(method_of(code), mi as u32);
        }
    }
}
