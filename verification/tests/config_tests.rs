use yaab::config::WsConfigData;
use yaab::error::BError;

#[test]
fn test_ws_config_data_default() {
    let json_build_config = r#"
        {
            "version": "5"
        }"#;
    let data: WsConfigData =
        WsConfigData::from_str(json_build_config).expect("Failed to parse config data");
    assert_eq!(data.version(), "5");
    assert_eq!(data.name(), "NA");
}

#[test]
fn test_ws_config_data() {
    let json_build_config = r#"
        {
            "version": "5",
            "name": "test-name",
            "initenv": "$#[WORK_DIR]/build/envsetup.sh "
        }"#;
    let data: WsConfigData =
        WsConfigData::from_str(json_build_config).expect("Failed to parse config data");
    assert_eq!(data.version(), "5");
    assert_eq!(data.name(), "test-name");
    assert_eq!(data.init_env(), "$#[WORK_DIR]/build/envsetup.sh ");
}

#[test]
fn test_ws_config_data_missing_init_env_defaults() {
    let json_build_config = r#"{"version": "5", "name": "n"}"#;
    let data = WsConfigData::from_str(json_build_config).expect("Failed to parse config data");
    assert_eq!(data.init_env(), "NA");
}

#[test]
fn test_ws_config_data_missing_version_fails() {
    let json_build_config = r#"{"name": "test-name"}"#;
    let err = WsConfigData::from_str(json_build_config).unwrap_err();
    assert!(matches!(err, BError::ConfigParseError(_)));
}

#[test]
fn test_ws_config_data_malformed_json_fails() {
    let err = WsConfigData::from_str("{ not json").unwrap_err();
    assert!(matches!(err, BError::ConfigParseError(_)));
}

#[test]
fn test_ws_config_data_non_string_version_fails() {
    let err = WsConfigData::from_str(r#"{"version": 5}"#).unwrap_err();
    assert!(matches!(err, BError::ConfigParseError(_)));
}
