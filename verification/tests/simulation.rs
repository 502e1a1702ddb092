use stylus_check::addr::Address;
use stylus_check::simulate::{
    activation_calldata, activation_contract_address, build_activation_call, decode_version,
    interpret_simulation, ActivationError,
};

fn target_a() -> Address {
    let mut b = vec![0xaau8; 19];
    b.push(0x01);
    Address::from_bytes(b).unwrap()
}

#[test]
fn short_response_is_malformed() {
    match decode_version(vec![0x07]) {
        Err(ActivationError::MalformedResponse { response }) => {
            assert_eq!(response, vec![0x07]);
        }
        _ => panic!("a one-byte response must be malformed"),
    }
    assert!(matches!(
        decode_version(vec![]),
        Err(ActivationError::MalformedResponse { .. })
    ));
}

#[test]
fn trailing_two_bytes_decode_big_endian() {
    assert_eq!(decode_version(vec![0x00, 0x01]).unwrap(), 1);
    assert_eq!(decode_version(vec![0x00, 0x00, 0x00, 0x02]).unwrap(), 2);
    assert_eq!(decode_version(vec![0xff, 0x12, 0x34]).unwrap(), 0x1234);
    assert_eq!(decode_version(vec![0xff, 0xff]).unwrap(), 0xffff);
}

#[test]
fn simulation_is_idempotent() {
    let first = decode_version(vec![0x00, 0x00, 0x00, 0x02]).unwrap();
    let second = decode_version(vec![0x00, 0x00, 0x00, 0x02]).unwrap();
    assert_eq!(first, second);
}

#[test]
fn activation_call_shape() {
    let target = target_a();
    let artifact = vec![0x01u8, 0x02, 0x03];
    let call = build_activation_call(&target, &artifact);

    assert_eq!(call.target.bytes, activation_contract_address().bytes);
    assert_eq!(
        hex::encode(&call.target.bytes),
        "0000000000000000000000000000000000000071"
    );
    assert_eq!(call.override_address.bytes, target.bytes);
    assert_eq!(call.override_code, artifact);

    let data = activation_calldata(&target);
    assert_eq!(call.payload, data);
    assert_eq!(data.len(), 36);
    assert_eq!(&data[0..4], &[0x58, 0xc7, 0x80, 0xc2]);
    assert_eq!(&data[4..16], &[0u8; 12]);
    assert_eq!(&data[16..36], target.bytes.as_slice());
}

#[test]
fn scenario_simulated_response_decodes_to_version_two() {
    let call = build_activation_call(&target_a(), &vec![0x01u8, 0x02, 0x03]);
    let r = interpret_simulation(&call, Ok(vec![0x00, 0x00, 0x00, 0x02]));
    assert_eq!(r.unwrap(), 2);
}

#[test]
fn scenario_empty_response_is_malformed() {
    let call = build_activation_call(&target_a(), &vec![0x01u8, 0x02, 0x03]);
    match interpret_simulation(&call, Ok(vec![])) {
        Err(ActivationError::MalformedResponse { response }) => assert!(response.is_empty()),
        _ => panic!("an empty response must be malformed"),
    }
}

#[test]
fn transport_failure_carries_target_context() {
    let call = build_activation_call(&target_a(), &vec![0x01u8]);
    match interpret_simulation(&call, Err("connection refused".to_string())) {
        Err(ActivationError::NetworkFailure { target, cause }) => {
            assert_eq!(
                hex::encode(&target.bytes),
                "0000000000000000000000000000000000000071"
            );
            assert_eq!(cause, "connection refused");
        }
        _ => panic!("a transport failure must surface as a network failure"),
    }
}

#[test]
fn error_descriptions_render_raw_bytes_in_hex() {
    let malformed = ActivationError::MalformedResponse {
        response: vec![0x00, 0x01],
    };
    assert_eq!(
        malformed.describe(),
        "version response too short, expected at least 2 bytes but got: 0x0001"
    );

    let network = ActivationError::NetworkFailure {
        target: activation_contract_address(),
        cause: "timed out".to_string(),
    };
    assert_eq!(
        network.describe(),
        "activation check failed against system contract 0x0000000000000000000000000000000000000071: timed out"
    );
}
