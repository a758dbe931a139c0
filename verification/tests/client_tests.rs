use sm2_co_sign_core::ApiResponse;
use sm2_co_sign_core::ClientConfig;
use sm2_co_sign_core::Error;

#[test]
fn test_client_config_default() {
    let config = ClientConfig::default();
    assert_eq!(config.server_url, "http://127.0.0.1:8080");
    assert_eq!(config.timeout, 30);
    assert!(config.verify_tls);
}

#[test]
fn test_envelope_ok() {
    let resp: ApiResponse<u32> = ApiResponse {
        code: 0,
        message: String::new(),
        data: Some(17),
    };
    assert_eq!(resp.into_data().unwrap(), 17);
}

#[test]
fn test_envelope_api_error() {
    let resp: ApiResponse<u32> = ApiResponse {
        code: 5,
        message: String::from("bad request"),
        data: Some(17),
    };
    match resp.into_data() {
        Err(Error::Api { code, message }) => {
            assert_eq!(code, 5);
            assert_eq!(message, "bad request");
        }
        other => panic!("expected the peer's error, got {:?}", other),
    }
}

#[test]
fn test_envelope_missing_data() {
    let resp: ApiResponse<u32> = ApiResponse {
        code: 0,
        message: String::new(),
        data: None,
    };
    assert!(matches!(resp.into_data(), Err(Error::InvalidState(_))));
}
