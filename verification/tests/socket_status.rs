use rsfml::ffi::sfml_types::{bool_to_sf, sf_to_bool, ForeignError, SFFALSE, SFTRUE};
use rsfml::network::socket_status::SocketStatus;

#[test]
fn each_socket_status_code_is_read() {
    assert_eq!(SocketStatus::from_code(0), Ok(SocketStatus::SocketDone));
    assert_eq!(SocketStatus::from_code(1), Ok(SocketStatus::SocketNotReady));
    assert_eq!(SocketStatus::from_code(2), Ok(SocketStatus::SocketDisconnected));
    assert_eq!(SocketStatus::from_code(3), Ok(SocketStatus::SocketError));
}

#[test]
fn each_socket_status_has_its_code() {
    assert_eq!(SocketStatus::SocketDone.code(), 0);
    assert_eq!(SocketStatus::SocketNotReady.code(), 1);
    assert_eq!(SocketStatus::SocketDisconnected.code(), 2);
    assert_eq!(SocketStatus::SocketError.code(), 3);
}

#[test]
fn socket_status_codes_round_trip() {
    for code in 0..4 {
        assert_eq!(SocketStatus::from_code(code).unwrap().code(), code);
    }
}

#[test]
fn socket_statuses_round_trip() {
    for status in [
        SocketStatus::SocketDone,
        SocketStatus::SocketNotReady,
        SocketStatus::SocketDisconnected,
        SocketStatus::SocketError,
    ] {
        assert_eq!(SocketStatus::from_code(status.code()), Ok(status));
    }
}

#[test]
fn unknown_socket_status_code_is_reported() {
    assert_eq!(SocketStatus::from_code(4), Err(ForeignError::UnknownSocketStatus(4)));
    assert_eq!(SocketStatus::from_code(-1), Err(ForeignError::UnknownSocketStatus(-1)));
    assert_eq!(
        SocketStatus::from_code(i32::MAX),
        Err(ForeignError::UnknownSocketStatus(i32::MAX))
    );
    assert_eq!(
        SocketStatus::from_code(i32::MIN),
        Err(ForeignError::UnknownSocketStatus(i32::MIN))
    );
}

#[test]
fn status_code_256_is_not_read_as_done() {
    assert_eq!(SocketStatus::from_code(256), Err(ForeignError::UnknownSocketStatus(256)));
}

#[test]
fn foreign_booleans_are_zero_and_one() {
    assert_eq!(SFFALSE, 0);
    assert_eq!(SFTRUE, 1);
    assert_eq!(bool_to_sf(false), 0);
    assert_eq!(bool_to_sf(true), 1);
}

#[test]
fn foreign_booleans_are_read() {
    assert_eq!(sf_to_bool(0), Ok(false));
    assert_eq!(sf_to_bool(1), Ok(true));
}

#[test]
fn booleans_round_trip() {
    for code in [SFFALSE, SFTRUE] {
        assert_eq!(bool_to_sf(sf_to_bool(code).unwrap()), code);
    }
    for value in [false, true] {
        assert_eq!(sf_to_bool(bool_to_sf(value)), Ok(value));
    }
}

#[test]
fn unknown_boolean_is_reported() {
    assert_eq!(sf_to_bool(2), Err(ForeignError::UnknownBool(2)));
    assert_eq!(sf_to_bool(-1), Err(ForeignError::UnknownBool(-1)));
}
