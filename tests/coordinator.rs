use factures::coordinator::{BuildCoordinator, BuildOrder, BuildStatus, Demand, ThrottlePolicy};
use factures::latex::{BuildError, PdfFile};
use factures::model::{Address, Author, Client, InvoiceData, Product};

fn address() -> Address {
    Address {
        number_and_street: "1 Rue X".to_string(),
        postcode: "75000".to_string(),
        city: "Paris".to_string(),
    }
}

fn snapshot(number: &str) -> InvoiceData {
    InvoiceData {
        author: Author {
            title: "Studio".to_string(),
            name: "Jean".to_string(),
            address: address(),
            siret: "123".to_string(),
            ape: "7410Z".to_string(),
            ..Author::default()
        },
        is_devis: false,
        number: number.to_string(),
        client: Client { name: "Acme".to_string(), address: address(), ..Client::default() },
        nature: String::new(),
        diffuseur: false,
        dispense_path: None,
        products: vec![Product {
            name: "Service".to_string(),
            description: String::new(),
            quantity: 2,
            price: 100_000,
        }],
        date: "01/02/2025".to_string(),
    }
}

fn invalid() -> InvoiceData {
    let mut s = snapshot("1");
    s.products.clear();
    s
}

fn pdf(p: &str) -> PdfFile {
    PdfFile { path: p.to_string() }
}

fn single() -> ThrottlePolicy {
    ThrottlePolicy { max_in_flight: 1, cooldown_ms: 100 }
}

#[test]
fn edit_dispatches_a_build() {
    let mut c = BuildCoordinator::new(invalid(), single());
    let e = c.on_snapshot_changed(snapshot("1"), 1000);
    assert_eq!(e.dispatch, Some(BuildOrder { snapshot_id: 1 }));
    assert!(e.show.is_none());
    assert_eq!(c.in_flight(), 1);
    assert_eq!(c.status(), BuildStatus::Stale);
    assert!(!c.pending());
}

#[test]
fn invalid_snapshot_is_never_dispatched() {
    let mut c = BuildCoordinator::new(invalid(), single());
    let e = c.evaluate_dispatch(1000);
    assert!(e.dispatch.is_none());
    assert_eq!(c.in_flight(), 0);
    let e = c.on_snapshot_changed(invalid(), 2000);
    assert!(e.dispatch.is_none());
    assert!(!c.pending());
}

#[test]
fn hidden_preview_dispatches_nothing() {
    let mut c = BuildCoordinator::new(snapshot("1"), single());
    let e = c.set_preview_active(false, 1000);
    assert!(e.dispatch.is_none());
    let e = c.on_snapshot_changed(snapshot("2"), 2000);
    assert!(e.dispatch.is_none());
    let e = c.set_preview_active(true, 3000);
    assert_eq!(e.dispatch, Some(BuildOrder { snapshot_id: 1 }));
}

#[test]
fn second_evaluation_within_cooldown_is_deferred() {
    let mut c = BuildCoordinator::new(snapshot("1"), single());
    let first = c.evaluate_dispatch(1000);
    assert!(first.dispatch.is_some());
    let second = c.evaluate_dispatch(1050);
    assert!(second.dispatch.is_none());
    assert_eq!(c.in_flight(), 1);
    assert!(c.pending());
}

#[test]
fn cooldown_alone_defers_dispatch() {
    let mut c = BuildCoordinator::new(snapshot("1"), ThrottlePolicy { max_in_flight: 5, cooldown_ms: 100 });
    assert!(c.evaluate_dispatch(1000).dispatch.is_some());
    let e = c.on_snapshot_changed(snapshot("2"), 1099);
    assert!(e.dispatch.is_none());
    assert!(c.pending());
    let e = c.on_snapshot_changed(snapshot("3"), 1100);
    assert_eq!(e.dispatch, Some(BuildOrder { snapshot_id: 2 }));
    assert_eq!(c.in_flight(), 2);
    assert!(!c.pending());
}

#[test]
fn stale_result_is_discarded() {
    let mut c = BuildCoordinator::new(snapshot("1"), single());
    let order = c.evaluate_dispatch(1000).dispatch.unwrap();
    c.on_snapshot_changed(snapshot("2"), 1010);
    assert_eq!(c.status(), BuildStatus::Stale);
    let e = c.on_build_completed(Ok(pdf("/tmp/a.pdf")), order.snapshot_id, 2000);
    assert_eq!(c.status(), BuildStatus::Stale);
    assert_eq!(c.artifact_path(), None);
    assert_eq!(c.in_flight(), 1);
    // the pending rebuild for the newer snapshot follows at once
    assert_eq!(e.dispatch, Some(BuildOrder { snapshot_id: 1 }));
    assert!(e.show.is_none());
}

#[test]
fn current_result_is_installed_and_shown() {
    let mut c = BuildCoordinator::new(snapshot("1"), single());
    let order = c.evaluate_dispatch(1000).dispatch.unwrap();
    let e = c.on_build_completed(Ok(pdf("/tmp/a.pdf")), order.snapshot_id, 2000);
    assert_eq!(c.status(), BuildStatus::Previewed);
    assert_eq!(c.artifact_path(), Some("/tmp/a.pdf".to_string()));
    assert_eq!(e.show, Some("/tmp/a.pdf".to_string()));
    assert!(e.dispatch.is_none());
    assert_eq!(c.in_flight(), 0);
    // a later evaluation shows the same document without a build
    let e = c.evaluate_dispatch(5000);
    assert!(e.dispatch.is_none());
    assert_eq!(e.show, Some("/tmp/a.pdf".to_string()));
}

#[test]
fn failed_build_keeps_last_document() {
    let mut c = BuildCoordinator::new(snapshot("1"), single());
    let order = c.evaluate_dispatch(1000).dispatch.unwrap();
    c.on_build_completed(Ok(pdf("/tmp/a.pdf")), order.snapshot_id, 1500);
    let order = c.on_snapshot_changed(snapshot("2"), 2000).dispatch.unwrap();
    let e = c.on_build_completed(Err(BuildError::Launch("gone".to_string())), order.snapshot_id, 2500);
    assert_eq!(c.artifact_path(), Some("/tmp/a.pdf".to_string()));
    assert_eq!(c.status(), BuildStatus::Stale);
    // still eligible: the evaluation that follows dispatches again
    assert_eq!(e.dispatch, Some(BuildOrder { snapshot_id: 1 }));
    assert_eq!(c.in_flight(), 1);
}

#[test]
fn export_twice_builds_once_and_copies_twice() {
    let mut c = BuildCoordinator::new(snapshot("1"), single());
    let mut builds = 0;
    let mut copies = Vec::new();
    for _ in 0..2 {
        let path = match c.request_export() {
            Demand::Build(order) => {
                builds += 1;
                assert!(c.install(pdf("/tmp/sync.pdf"), order.snapshot_id));
                "/tmp/sync.pdf".to_string()
            }
            Demand::Ready(p) => p,
        };
        copies.push(path);
        c.mark_exported();
    }
    assert_eq!(builds, 1);
    assert_eq!(copies, vec!["/tmp/sync.pdf".to_string(), "/tmp/sync.pdf".to_string()]);
    assert_eq!(c.status(), BuildStatus::Exported);
}

#[test]
fn edit_after_export_makes_stale() {
    let mut c = BuildCoordinator::new(snapshot("1"), single());
    if let Demand::Build(o) = c.request_preview() {
        assert!(c.install(pdf("/tmp/p.pdf"), o.snapshot_id));
    }
    assert_eq!(c.status(), BuildStatus::Previewed);
    c.mark_exported();
    assert_eq!(c.status(), BuildStatus::Exported);
    c.on_snapshot_changed(snapshot("2"), 1000);
    assert_eq!(c.status(), BuildStatus::Stale);
    assert!(matches!(c.request_export(), Demand::Build(BuildOrder { snapshot_id: 1 })));
    // exporting is refused a stale document
    c.mark_exported();
    assert_eq!(c.status(), BuildStatus::Stale);
}

#[test]
fn preview_of_current_document_is_ready() {
    let mut c = BuildCoordinator::new(snapshot("1"), single());
    assert!(!c.install(pdf("/tmp/old.pdf"), 9));
    assert_eq!(c.status(), BuildStatus::Stale);
    assert!(c.install(pdf("/tmp/p.pdf"), c.snapshot_id()));
    match c.request_preview() {
        Demand::Ready(p) => assert_eq!(p, "/tmp/p.pdf"),
        Demand::Build(_) => panic!("document should be ready"),
    }
    assert_eq!(c.snapshot().number, "1");
}
