use win_kernel_driver::channel::RESPONSE_LEN;
use win_kernel_driver::DriverBuilder;
use win_kernel_driver::DriverConfig;
use win_kernel_driver::DriverError;
use win_kernel_driver::WinKernelDriver;

fn test_config() -> DriverConfig {
    DriverBuilder::new()
        .set_device_id(String::from("TestDrv"))
        .set_driver_path(String::from("C:\\drivers\\custom.sys"))
        .build("C:\\Temp")
        .unwrap()
}

#[test]
fn new_connection_is_closed() {
    let connection = WinKernelDriver::new(test_config());
    assert!(!connection.opened());
}

#[test]
fn open_request_names_symbolic_path() {
    let connection = WinKernelDriver::new(test_config());
    assert_eq!(connection.open_request().unwrap(), "\\\\.\\TestDrv");
}

#[test]
fn open_complete_stores_handle() {
    let mut connection = WinKernelDriver::new(test_config());
    assert_eq!(connection.open_complete(Some(42)), Ok(()));
    assert!(connection.opened());
}

#[test]
fn open_complete_without_handle_fails_and_stays_closed() {
    let mut connection = WinKernelDriver::new(test_config());
    assert_eq!(connection.open_complete(None), Err(DriverError::OpenFailed));
    assert!(!connection.opened());
}

#[test]
fn open_while_open_is_already_open_and_keeps_handle() {
    let mut connection = WinKernelDriver::new(test_config());
    connection.open_complete(Some(42)).unwrap();
    assert_eq!(connection.open_request().unwrap_err(), DriverError::AlreadyOpen);
    // The held handle is untouched.
    assert!(connection.opened());
    assert_eq!(connection.io_request(1, 0).unwrap().handle, 42);
}

#[test]
fn close_while_closed_is_not_open() {
    let mut connection = WinKernelDriver::new(test_config());
    assert_eq!(connection.close(), Err(DriverError::NotOpen));
}

#[test]
fn close_returns_handle_and_reopen_is_legal() {
    let mut connection = WinKernelDriver::new(test_config());
    connection.open_complete(Some(42)).unwrap();
    assert_eq!(connection.close(), Ok(42));
    assert!(!connection.opened());
    // open -> close -> open is legal.
    assert_eq!(connection.open_request().unwrap(), "\\\\.\\TestDrv");
    connection.open_complete(Some(7)).unwrap();
    assert_eq!(connection.close(), Ok(7));
}

#[test]
fn io_while_closed_is_not_open() {
    let connection = WinKernelDriver::new(test_config());
    assert_eq!(connection.io_request(0x9C40_2084, 0xC000_0082).unwrap_err(), DriverError::NotOpen);
}

#[test]
fn io_request_frames_little_endian_input() {
    let mut connection = WinKernelDriver::new(test_config());
    connection.open_complete(Some(42)).unwrap();
    let request = connection.io_request(0x9C40_2084, 0xDEAD_BEEF).unwrap();
    assert_eq!(request.handle, 42);
    assert_eq!(request.code, 0x9C40_2084);
    assert_eq!(request.input, vec![0xEF, 0xBE, 0xAD, 0xDE]);
    assert_eq!(request.response_len, RESPONSE_LEN);
    assert_eq!(request.response_len, 8);
}

#[test]
fn io_complete_decodes_little_endian_response() {
    let response: Vec<u8> = vec![0x01, 0x00, 0x00, 0x00, 0x00, 0x00, 0x00, 0x00];
    assert_eq!(WinKernelDriver::io_complete(0x9C40_2084, Ok(response)), Ok(1));
    let response: Vec<u8> = vec![0x88, 0x77, 0x66, 0x55, 0x44, 0x33, 0x22, 0x11];
    assert_eq!(
        WinKernelDriver::io_complete(0x9C40_2084, Ok(response)),
        Ok(0x1122_3344_5566_7788)
    );
}

#[test]
fn io_complete_maps_failure_to_io_control_failed() {
    assert_eq!(
        WinKernelDriver::io_complete(0x9C40_2084, Err(0x1F)),
        Err(DriverError::IoControlFailed { code: 0x9C40_2084, last_error: 0x1F })
    );
}
