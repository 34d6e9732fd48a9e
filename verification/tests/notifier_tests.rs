use kaze::notifier::{fallback_line, urgency_from_label, Urgency};

#[test]
fn urgency_labels() {
    assert!(matches!(urgency_from_label("critical"), Urgency::Critical));
    assert!(matches!(urgency_from_label("low"), Urgency::Low));
    assert!(matches!(urgency_from_label("normal"), Urgency::Normal));
    assert!(matches!(urgency_from_label("CRITICAL"), Urgency::Normal));
}

#[test]
fn fallback_notice_line() {
    assert_eq!(
        fallback_line("Kaze - Erro no node", "npm não está instalado"),
        "[NOTIFY] Kaze - Erro no node: npm não está instalado"
    );
}
