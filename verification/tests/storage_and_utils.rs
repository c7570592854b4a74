use rs_chat::ids::Uuid;
use rs_chat::provider::ChatRsFileType;
use rs_chat::provider_models::{provider_not_found, ModelsDevServiceProvider};
use rs_chat::storage::data_guard::{check_upload, file_type_of, MediaType, UploadError, MAX_FILE_SIZE};
use rs_chat::storage::local::{LocalStorage, StoragePathError};
use rs_chat::text::parse_usize;
use rs_chat::utils::create_provider::{
    key_type_for, openai_base_url, ChatRsProviderKeyType, LLMBackendInput, LLMConfig, OpenAIConfig,
    OpenRouterConfig, ProviderConfigInput,
};
use rs_chat::utils::encryption::{ChatRsError, Encryptor};
use rs_chat::utils::generate_title::{session_title, title_prompt, TITLE_TOKENS};

#[test]
fn local_storage_paths() {
    let storage = LocalStorage::new("/data/storage".to_string());
    let user = Uuid::from_u128(1);
    let session = Uuid::from_u128(2);
    assert_eq!(
        storage.get_file_path(&user, Some(&session), "notes/a.txt").unwrap(),
        "/data/storage/00000000-0000-0000-0000-000000000001/sessions/00000000-0000-0000-0000-000000000002/notes/a.txt"
    );
    assert_eq!(
        storage.get_file_path(&user, None, "a.txt").unwrap(),
        "/data/storage/00000000-0000-0000-0000-000000000001/files/a.txt"
    );
    let err = storage.get_file_path(&user, None, "/etc/passwd").unwrap_err();
    assert_eq!(err, StoragePathError::NotRelative);
    assert_eq!(err.message(), "Path must be relative");
}

#[test]
fn uploads() {
    let png = MediaType { top: "image", sub: "PNG" };
    assert_eq!(file_type_of(&png), ChatRsFileType::Image);
    assert_eq!(file_type_of(&MediaType { top: "application", sub: "pdf" }), ChatRsFileType::Pdf);
    assert_eq!(file_type_of(&MediaType { top: "text", sub: "csv" }), ChatRsFileType::Text);

    let ok = check_upload(true, Some(MediaType { top: "image", sub: "jpeg" }), Some("1024")).unwrap();
    assert_eq!(ok.content_length, 1024);
    assert_eq!(ok.file_type, ChatRsFileType::Image);
    assert_eq!(check_upload(true, Some(MediaType { top: "text", sub: "plain" }), Some("abc")).unwrap().content_length, 0);
    assert_eq!(check_upload(false, None, None).unwrap_err(), UploadError::NoData);
    assert_eq!(check_upload(true, None, Some("1")).unwrap_err(), UploadError::NoContentType);
    let e = check_upload(true, Some(MediaType { top: "text", sub: "plain" }), None).unwrap_err();
    assert_eq!((e.status(), e.message()), (411, "No content length found"));
    let too_big = (MAX_FILE_SIZE + 1).to_string();
    let e = check_upload(true, Some(MediaType { top: "text", sub: "plain" }), Some(&too_big)).unwrap_err();
    assert_eq!((e.status(), e.message()), (413, "File size exceeds maximum"));
}

#[test]
fn usize_parsing() {
    assert_eq!(parse_usize("42"), Some(42));
    assert_eq!(parse_usize("+7"), Some(7));
    assert_eq!(parse_usize(""), None);
    assert_eq!(parse_usize("+"), None);
    assert_eq!(parse_usize("-1"), None);
    assert_eq!(parse_usize("99999999999999999999999"), None);
    assert_eq!(parse_usize(&usize::MAX.to_string()), Some(usize::MAX));
}

#[test]
fn encryption_round_trip() {
    let key = "00112233445566778899aabbccddeeff00112233445566778899AABBCCDDEEFF";
    let enc = Encryptor::new(key).ok().expect("valid key");
    let (ciphertext, nonce) = enc.encrypt_string("sk-secret").unwrap();
    assert_eq!(nonce.len(), 12);
    assert_eq!(ciphertext.len(), "sk-secret".len() + 16);
    assert_eq!(enc.decrypt_string(&ciphertext, &nonce).unwrap(), "sk-secret");
    let mut tampered = ciphertext.clone();
    tampered[0] ^= 1;
    assert_eq!(enc.decrypt_string(&tampered, &nonce).unwrap_err(), ChatRsError::DecryptionError);
    let (c, n) = enc.encrypt_bytes(&[0xff, 0xfe]).unwrap();
    assert_eq!(enc.decrypt_bytes(&c, &n).unwrap(), vec![0xff, 0xfe]);
    assert_eq!(enc.decrypt_string(&c, &n).unwrap_err(), ChatRsError::DecryptionError);
    assert!(matches!(Encryptor::new("abc"), Err(ChatRsError::EncryptionError)));
    assert!(matches!(Encryptor::new("zz"), Err(ChatRsError::EncryptionError)));
    assert!(matches!(Encryptor::new("0011"), Err(ChatRsError::EncryptionError)));
}

#[test]
fn provider_selection() {
    assert_eq!(key_type_for(&ProviderConfigInput::Lorem), None);
    let openrouter = ProviderConfigInput::OpenRouter(OpenRouterConfig { model: "m".to_string(), temperature: None, max_tokens: None });
    assert_eq!(key_type_for(&openrouter), Some(ChatRsProviderKeyType::Openrouter));
    assert_eq!(openai_base_url(&openrouter), Some("https://openrouter.ai/api/v1"));
    let openai = ProviderConfigInput::OpenAI(OpenAIConfig { model: "m".to_string(), temperature: None, max_tokens: None, base_url: None });
    assert_eq!(openai_base_url(&openai), None);
    let llm = ProviderConfigInput::Llm(LLMConfig { backend: LLMBackendInput::Google, model: "m".to_string(), temperature: None, max_tokens: None });
    assert_eq!(key_type_for(&llm), Some(ChatRsProviderKeyType::Google));
}

#[test]
fn titles() {
    assert_eq!(TITLE_TOKENS, 20);
    assert!(title_prompt("hi").ends_with("(no quotes or prefixes): \"hi\""));
    assert_eq!(session_title("  A Title \n"), "A Title");
}

#[test]
fn models_providers() {
    assert_eq!(ModelsDevServiceProvider::OpenRouter.as_str(), "openrouter");
    assert_eq!(ModelsDevServiceProvider::all().len(), 3);
    assert_eq!(ModelsDevServiceProvider::for_openai_base_url("https://openrouter.ai/api/v1"), ModelsDevServiceProvider::OpenRouter);
    assert_eq!(ModelsDevServiceProvider::for_openai_base_url("https://api.openai.com/v1"), ModelsDevServiceProvider::OpenAI);
    match provider_not_found(ModelsDevServiceProvider::Anthropic) {
        rs_chat::provider::LlmError::ModelsDevError(m) => assert_eq!(m, "Provider 'anthropic' not found"),
        _ => panic!(),
    }
}
