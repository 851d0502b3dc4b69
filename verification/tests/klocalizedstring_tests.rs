use ki18n::bridge::Bridge;
use ki18n::call::NativeCall;
use ki18n::klocalizedcontext::KLocalizedContext;
use ki18n::klocalizedstring::KLocalizedString;

fn strings(list: &[&str]) -> Vec<String> {
    list.iter().map(|s| s.to_string()).collect()
}

#[test]
fn application_domain() {
    const APPLICATION_DOMAIN: &str = "KI18n";
    let mut bridge = Bridge::new();
    let domain = APPLICATION_DOMAIN.as_bytes();

    KLocalizedString::set_application_domain(&mut bridge, domain);
    let domain = KLocalizedString::application_domain(&bridge);
    println!("{:#?}", domain);

    assert_eq!(std::str::from_utf8(&domain).unwrap(), "KI18n");
}

#[test]
fn application_domain_is_empty_at_first() {
    let bridge = Bridge::new();
    assert_eq!(KLocalizedString::application_domain(&bridge), Vec::<u8>::new());
}

#[test]
fn application_domain_round_trip_keeps_every_byte() {
    let mut bridge = Bridge::new();
    let all: Vec<u8> = (0..=255).collect();
    let domains: [Vec<u8>; 5] =
        [vec![], b"kcalc".to_vec(), vec![0], vec![b'a', 0, b'b', 0xff, 0x80], all];

    for domain in domains {
        let call = KLocalizedString::set_application_domain(&mut bridge, &domain);
        assert_eq!(call, NativeCall::SetApplicationDomain { domain: domain.clone() });
        assert_eq!(KLocalizedString::application_domain(&bridge), domain);
    }
}

#[test]
fn application_domain_is_the_last_one_set() {
    let mut bridge = Bridge::new();
    KLocalizedString::set_application_domain(&mut bridge, b"first");
    KLocalizedString::set_application_domain(&mut bridge, b"second");
    assert_eq!(KLocalizedString::application_domain(&bridge), b"second".to_vec());
}

#[test]
fn application_domain_leaves_objects_and_languages_alone() {
    let mut bridge = Bridge::new();
    let (mut context, _) = KLocalizedContext::create_default(&mut bridge);
    context.set_translation_domain(&mut bridge, "context".to_string());
    KLocalizedString::set_languages(&mut bridge, &strings(&["de", "en"]));

    KLocalizedString::set_application_domain(&mut bridge, b"app");

    assert!(context.is_valid(&bridge));
    assert_eq!(context.translation_domain(&bridge), "context");
    assert_eq!(KLocalizedString::languages(&bridge), Some(strings(&["de", "en"])));
}

#[test]
fn languages_are_not_overridden_at_first() {
    let bridge = Bridge::new();
    assert_eq!(KLocalizedString::languages(&bridge), None);
}

#[test]
fn languages_keep_their_order() {
    let mut bridge = Bridge::new();
    let languages = strings(&["pt_BR", "pt", "en_GB", "en"]);

    let call = KLocalizedString::set_languages(&mut bridge, &languages);

    assert_eq!(call, NativeCall::SetLanguages { languages: languages.clone() });
    assert_eq!(KLocalizedString::languages(&bridge), Some(languages));
}

#[test]
fn empty_override_is_not_the_same_as_none() {
    let mut bridge = Bridge::new();
    KLocalizedString::set_languages(&mut bridge, &Vec::new());
    assert_eq!(KLocalizedString::languages(&bridge), Some(Vec::new()));
}

#[test]
fn cleared_languages_are_gone() {
    let mut bridge = Bridge::new();
    KLocalizedString::set_application_domain(&mut bridge, b"app");
    KLocalizedString::set_languages(&mut bridge, &strings(&["fr"]));

    let call = KLocalizedString::clear_languages(&mut bridge);

    assert_eq!(call, NativeCall::ClearLanguages);
    assert_eq!(KLocalizedString::languages(&bridge), None);
    assert_eq!(KLocalizedString::application_domain(&bridge), b"app".to_vec());

    // Clearing twice is clearing once.
    assert_eq!(KLocalizedString::clear_languages(&mut bridge), NativeCall::ClearLanguages);
    assert_eq!(KLocalizedString::languages(&bridge), None);
}

#[test]
fn add_domain_locale_dir_forwards_domain_and_path() {
    let call = KLocalizedString::add_domain_locale_dir(
        b"plasma_applet".to_vec(),
        "/opt/plasma/locale".to_string(),
    );
    assert_eq!(
        call,
        NativeCall::AddDomainLocaleDir {
            domain: b"plasma_applet".to_vec(),
            path: "/opt/plasma/locale".to_string(),
        }
    );
}

#[test]
fn is_application_translated_into_forwards_the_language() {
    let call = KLocalizedString::is_application_translated_into("tlh".to_string());
    assert_eq!(call, NativeCall::IsApplicationTranslatedInto { language: "tlh".to_string() });
}

#[test]
fn localized_file_path_forwards_the_path() {
    let call = KLocalizedString::localized_file_path("/usr/share/icons/flag.png".to_string());
    assert_eq!(
        call,
        NativeCall::LocalizedFilePath { file_path: "/usr/share/icons/flag.png".to_string() }
    );
}

#[test]
fn remove_accelerator_marker_forwards_the_label() {
    let call = KLocalizedString::remove_accelerator_marker("&File".to_string());
    assert_eq!(call, NativeCall::RemoveAcceleratorMarker { label: "&File".to_string() });

    let call = KLocalizedString::remove_accelerator_marker("File".to_string());
    assert_eq!(call, NativeCall::RemoveAcceleratorMarker { label: "File".to_string() });
}

#[test]
fn default_string_is_looked_for_everywhere() {
    let string = KLocalizedString::default();
    assert_eq!(
        string.to_qstring(),
        NativeCall::Finalize { within_domain: None, within_languages: None }
    );
}

#[test]
fn with_domain_sets_the_domain_only() {
    let string = KLocalizedString::default().with_languages(&strings(&["nl"]));

    let scoped = string.with_domain(b"kwin");

    assert_eq!(
        scoped.to_qstring(),
        NativeCall::Finalize {
            within_domain: Some(b"kwin".to_vec()),
            within_languages: Some(strings(&["nl"])),
        }
    );
    // The string it was made from is as it was.
    assert_eq!(
        string.to_qstring(),
        NativeCall::Finalize { within_domain: None, within_languages: Some(strings(&["nl"])) }
    );
}

#[test]
fn with_languages_sets_the_languages_only() {
    let string = KLocalizedString::default().with_domain(b"kwin");

    let scoped = string.with_languages(&strings(&["sv", "da"]));

    assert_eq!(
        scoped.to_qstring(),
        NativeCall::Finalize {
            within_domain: Some(b"kwin".to_vec()),
            within_languages: Some(strings(&["sv", "da"])),
        }
    );
    assert_eq!(
        string.to_qstring(),
        NativeCall::Finalize { within_domain: Some(b"kwin".to_vec()), within_languages: None }
    );
}

#[test]
fn later_scope_replaces_earlier_one() {
    let string = KLocalizedString::default()
        .with_domain(b"old")
        .with_languages(&strings(&["it"]))
        .with_domain(b"new")
        .with_languages(&strings(&["es", "ca"]));

    assert_eq!(
        string,
        KLocalizedString::default()
            .with_languages(&strings(&["es", "ca"]))
            .with_domain(b"new")
    );
}
