use ki18n::bridge::Bridge;
use ki18n::call::{Kind, NativeCall};
use ki18n::klocalizedcontext::KLocalizedContext;
use ki18n::klocalizedtranslator::KLocalizedTranslator;

const DIALOG: usize = 0x7f00_3000;
const WINDOW: usize = 0x7f00_2000;

#[test]
fn translator_is_made_as_a_child() {
    let mut bridge = Bridge::new();

    let (translator, call) = KLocalizedTranslator::new(&mut bridge, DIALOG);

    assert_eq!(
        call,
        NativeCall::Construct { kind: Kind::Translator, object: 1, parent: Some(DIALOG) }
    );
    assert!(translator.is_valid(&bridge));
    assert!(bridge.holds(1, Kind::Translator));
    assert!(!bridge.holds(1, Kind::Context));
    assert_eq!(bridge.handles(1), 0);
}

#[test]
fn fresh_translator_has_empty_translation_domain() {
    let mut bridge = Bridge::new();
    let (translator, _) = KLocalizedTranslator::new(&mut bridge, DIALOG);
    assert_eq!(translator.translation_domain(&bridge), "");
}

#[test]
fn translator_translation_domain_round_trip() {
    let mut bridge = Bridge::new();
    let (mut translator, _) = KLocalizedTranslator::new(&mut bridge, DIALOG);
    let (mut other, _) = KLocalizedTranslator::new(&mut bridge, DIALOG);
    let (context, _) = KLocalizedContext::new(&mut bridge, DIALOG);

    let call = translator.set_translation_domain(&mut bridge, "ktexteditor".to_string());

    assert_eq!(
        call,
        NativeCall::SetTranslationDomain {
            object: 1,
            translation_domain: "ktexteditor".to_string(),
        }
    );
    assert_eq!(translator.translation_domain(&bridge), "ktexteditor");
    assert_eq!(other.translation_domain(&bridge), "");
    assert_eq!(context.translation_domain(&bridge), "");

    other.set_translation_domain(&mut bridge, "kparts".to_string());
    assert_eq!(translator.translation_domain(&bridge), "ktexteditor");
    assert_eq!(other.translation_domain(&bridge), "kparts");
}

#[test]
fn monitored_contexts_are_forwarded() {
    let mut bridge = Bridge::new();
    let (_context, _) = KLocalizedContext::create_default(&mut bridge);
    let (mut translator, _) = KLocalizedTranslator::new(&mut bridge, DIALOG);

    let add = translator.add_context_to_monitor(&bridge, "MainWindow".to_string());
    let remove = translator.remove_context_to_moitor(&bridge, "MainWindow".to_string());

    assert_eq!(
        add,
        NativeCall::AddContextToMonitor { object: 2, context: "MainWindow".to_string() }
    );
    assert_eq!(
        remove,
        NativeCall::RemoveContextToMonitor { object: 2, context: "MainWindow".to_string() }
    );
    assert!(translator.is_valid(&bridge));
}

#[test]
fn translator_goes_with_its_parent() {
    let mut bridge = Bridge::new();
    let (of_dialog, _) = KLocalizedTranslator::new(&mut bridge, DIALOG);
    let (of_window, _) = KLocalizedTranslator::new(&mut bridge, WINDOW);

    bridge.parent_destroyed(DIALOG);

    assert!(!of_dialog.is_valid(&bridge));
    assert!(of_window.is_valid(&bridge));
}
