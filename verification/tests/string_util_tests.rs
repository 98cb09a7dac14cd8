use media_service::configs::default_config_file_path;
use media_service::configs::mask_creds;
use media_service::obj_storage_client::key_for_size;
use media_service::string_util::keccak256_hash_bs58str;
use media_service::string_util::StrUtil;

#[test]
fn test_trim_right_slash() {
    assert_eq!("/aaa/bbb/".trim_right_slash(), "/aaa/bbb");
    assert_eq!("/aaa/bbb///".trim_right_slash(), "/aaa/bbb");
    assert_eq!("status_spark_1.2.0/".to_string().as_str().trim_right_slash(), "status_spark_1.2.0");
}

#[test]
fn trim_right_slash_leaves_plain_strings() {
    assert_eq!("abc".trim_right_slash(), "abc");
    assert_eq!("".trim_right_slash(), "");
    assert_eq!("///".trim_right_slash(), "");
}

#[test]
fn asset_id_of_empty_string_is_base58_of_keccak_empty() {
    // Keccak-256 of the empty input, a published test vector.
    let digest: [u8; 32] = [
        0xc5, 0xd2, 0x46, 0x01, 0x86, 0xf7, 0x23, 0x3c, 0x92, 0x7e, 0x7d, 0xb2, 0xdc, 0xc7, 0x03,
        0xc0, 0xe5, 0x00, 0xb6, 0x53, 0xca, 0x82, 0x27, 0x3b, 0x7b, 0xfa, 0xd8, 0x04, 0x5d, 0x85,
        0xa4, 0x70,
    ];
    let expected = bs58::encode(&digest).into_string();
    assert_eq!(keccak256_hash_bs58str(""), expected);
}

#[test]
fn asset_id_is_stable_and_distinguishes_urls() {
    let a1 = keccak256_hash_bs58str("https://x/cat.png");
    let a2 = keccak256_hash_bs58str("https://x/cat.png");
    let b = keccak256_hash_bs58str("https://x/dog.png");
    assert_eq!(a1, a2);
    assert_ne!(a1, b);
}

#[test]
fn storage_key_prefixes_media() {
    assert_eq!(key_for_size("abc123"), "media/abc123");
    assert_eq!(key_for_size(""), "media/");
}

#[test]
fn mask_creds_keeps_two_chars_and_length() {
    assert_eq!(mask_creds("AKIDEXAMPLE"), "AK*********");
    assert_eq!(mask_creds("ab"), "ab");
    assert_eq!(mask_creds("abcd"), "ab**");
}

#[test]
fn default_config_file_path_trims_and_appends() {
    assert_eq!(default_config_file_path("./config"), "./config/default.toml");
    assert_eq!(default_config_file_path("./config///"), "./config/default.toml");
}
