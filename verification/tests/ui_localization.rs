use latite_launcher::localization::{
    get_locale_translation, get_translation_for_locale, normalize_locale_id, resolve_locale,
    language_preference, resolve_locale_candidate, LocaleCatalog, LocaleTranslations,
};
use latite_launcher::ui::{
    interpolate_translation, translate_dialog_message, UiDialog, UiDialogLevel, UiMessage,
};

#[test]
fn placeholders_are_filled_in_order() {
    let args = vec!["a".to_string(), "b".to_string()];
    assert_eq!(interpolate_translation("x {} y {} z", &args), "x a y b z");
    assert_eq!(interpolate_translation("{}{}{}", &args), "ab{}");
    assert_eq!(interpolate_translation("{{}}", &args), "{a}");
    assert_eq!(interpolate_translation("no placeholders", &args), "no placeholders");
    assert_eq!(interpolate_translation("", &args), "");
    assert_eq!(interpolate_translation("{ }", &[]), "{ }");
}

#[test]
fn messages_and_dialogs_collect_arguments() {
    let message = UiMessage::new("launcher.status.injecting.name").with_arg("...");
    assert_eq!(message.key, "launcher.status.injecting.name");
    assert_eq!(message.args, vec!["...".to_string()]);
    let dialog = UiDialog::error("k").with_arg("1").with_arg("2");
    assert_eq!(dialog.level, UiDialogLevel::Error);
    assert_eq!(dialog.args, vec!["1".to_string(), "2".to_string()]);
    assert_eq!(UiDialog::info("i").level, UiDialogLevel::Info);
    assert_eq!(translate_dialog_message(&dialog, Some("{} of {}".to_string())), "1 of 2");
    assert_eq!(translate_dialog_message(&dialog, None), "k");
}

#[test]
fn locale_ids_are_normalized() {
    assert_eq!(normalize_locale_id("en-us.UTF-8"), Some("en_US".to_string()));
    assert_eq!(normalize_locale_id(" PT_pt "), Some("pt_PT".to_string()));
    assert_eq!(normalize_locale_id("zh_Hant_TW"), Some("zh_HANT_TW".to_string()));
    assert_eq!(normalize_locale_id("en__x"), Some("en_x".to_string()));
    assert_eq!(normalize_locale_id("   "), None);
    assert_eq!(normalize_locale_id(".UTF-8"), None);
    assert_eq!(normalize_locale_id("_US"), None);
}

#[test]
fn locale_candidates_resolve_to_shipped_locales() {
    assert_eq!(resolve_locale_candidate("ja-JP"), "ja_JP");
    assert_eq!(resolve_locale_candidate("es_MX"), "es_ES");
    assert_eq!(resolve_locale_candidate("fa"), "fa_IR");
    assert_eq!(resolve_locale_candidate("fr_CA"), "fr_FR");
    assert_eq!(resolve_locale_candidate("de_DE"), "en_US");
    assert_eq!(resolve_locale_candidate(""), "en_US");
}

#[test]
fn preference_then_system_then_default() {
    assert_eq!(resolve_locale(Some("nl_NL"), Some("pl_PL")), "nl_NL");
    assert_eq!(resolve_locale(Some("auto"), Some("pl-PL")), "pl_PL");
    assert_eq!(resolve_locale(Some("AUTO"), None), "en_US");
    assert_eq!(resolve_locale(None, Some("cs_CZ")), "cs_CZ");
    assert_eq!(resolve_locale(Some(""), Some("pt_BR")), "pt_PT");
    assert_eq!(resolve_locale(None, None), "en_US");
}

fn catalog() -> LocaleCatalog {
    LocaleCatalog {
        locales: vec![
            LocaleTranslations {
                locale_id: "en_US".to_string(),
                json: r#"{"translations": {"hello": "Hello", "bye": "Bye", "count": 3}}"#
                    .to_string(),
            },
            LocaleTranslations {
                locale_id: "fr_FR".to_string(),
                json: r#"{"translations": {"hello": "Bonjour"}}"#.to_string(),
            },
        ],
    }
}

#[test]
fn translations_fall_back_to_english() {
    let catalog = catalog();
    assert_eq!(get_locale_translation(&catalog, "fr_FR", "hello"), Some("Bonjour".to_string()));
    assert_eq!(get_locale_translation(&catalog, "fr_FR", "bye"), None);
    assert_eq!(get_translation_for_locale(&catalog, "fr_FR", "bye"), Some("Bye".to_string()));
    assert_eq!(get_translation_for_locale(&catalog, "ja_JP", "hello"), Some("Hello".to_string()));
    assert_eq!(get_translation_for_locale(&catalog, "en_US", "missing"), None);
    assert_eq!(get_locale_translation(&catalog, "en_US", "count"), None);
}

#[test]
fn unreadable_translation_files_give_nothing() {
    let catalog = LocaleCatalog {
        locales: vec![
            LocaleTranslations { locale_id: "en_US".to_string(), json: "not json".to_string() },
            LocaleTranslations {
                locale_id: "fr_FR".to_string(),
                json: r#"{"messages": {"hello": "Salut"}}"#.to_string(),
            },
        ],
    };
    assert_eq!(get_locale_translation(&catalog, "en_US", "hello"), None);
    assert_eq!(get_translation_for_locale(&catalog, "fr_FR", "hello"), None);
}

#[test]
fn language_preference_from_settings() {
    assert_eq!(
        language_preference(r#"{"rpc_enabled": true, "launcher_language": "fr_FR"}"#),
        Some("fr_FR".to_string())
    );
    assert_eq!(language_preference(r#"{"launcher_language": 3}"#), None);
    assert_eq!(language_preference(r#"{"rpc_enabled": true}"#), None);
    assert_eq!(language_preference("not json"), None);
    assert_eq!(language_preference(r#"["launcher_language"]"#), None);
}

#[test]
fn normalized_locale_ids_keep_their_shape() {
    for value in [" en-us.UTF-8 ", "PT_br", "zh_hant_TW", "fa", "en_ us _ x "] {
        let id = normalize_locale_id(value).expect("a language is given");
        assert!(!id.is_empty() && !id.contains('-') && !id.contains('.'));
        let language = id.split('_').next().unwrap();
        assert!(!language.is_empty() && language.trim() == language);
        assert!(!language.chars().any(|c| c.is_ascii_uppercase()));
        assert_eq!(normalize_locale_id(&id), Some(id.clone()));
    }
    // An empty region lets a later piece move up; the next pass upper-cases it.
    assert_eq!(normalize_locale_id("en__x"), Some("en_x".to_string()));
    assert_eq!(normalize_locale_id("en_x"), Some("en_X".to_string()));
}
