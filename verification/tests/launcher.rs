use okc_gpg::decimal::u16_to_decimal;
use okc_gpg::launch::{encode_args, launcher_argv};

#[test]
fn decimal_renders_port_numbers() {
    assert_eq!(u16_to_decimal(0), "0");
    assert_eq!(u16_to_decimal(7), "7");
    assert_eq!(u16_to_decimal(10), "10");
    assert_eq!(u16_to_decimal(8080), "8080");
    assert_eq!(u16_to_decimal(65535), "65535");
}

#[test]
fn encode_args_empty_list_is_empty() {
    assert_eq!(encode_args(&vec![]), "");
}

#[test]
fn encode_args_single_argument_is_its_base64() {
    // RFC 4648 test vector: base64("f") is "Zg==", not "f" itself.
    assert_eq!(encode_args(&vec!["f".to_string()]), "Zg==");
}

#[test]
fn encode_args_joins_with_commas() {
    let args = vec!["f".to_string(), "fo".to_string(), "foo".to_string()];
    assert_eq!(encode_args(&args), "Zg==,Zm8=,Zm9v");
}

#[test]
fn launcher_argv_without_arguments() {
    let argv = launcher_argv(8080, &vec![]);
    assert_eq!(
        argv,
        vec![
            "am".to_string(),
            "broadcast".to_string(),
            "-n".to_string(),
            "org.ddosolitary.okcagent/.GpgProxyReceiver".to_string(),
            "--ei".to_string(),
            "org.ddosolitary.okcagent.extra.PROXY_PORT".to_string(),
            "8080".to_string(),
        ]
    );
}

#[test]
fn launcher_argv_with_arguments_appends_encoded_extra() {
    let argv = launcher_argv(1234, &vec!["foo".to_string()]);
    assert_eq!(argv.len(), 10);
    assert_eq!(argv[6], "1234");
    assert_eq!(argv[7], "--esa");
    assert_eq!(argv[8], "org.ddosolitary.okcagent.extra.GPG_ARGS");
    assert_eq!(argv[9], "Zm9v");
}
