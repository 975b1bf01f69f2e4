use factures::model::{Address, Author, BillType, Client, InvoiceData, Product};

fn address() -> Address {
    Address {
        number_and_street: "1 Rue X".to_string(),
        postcode: "75000".to_string(),
        city: "Paris".to_string(),
    }
}

fn author() -> Author {
    Author {
        title: "Studio".to_string(),
        name: "Jean Dupont".to_string(),
        address: address(),
        siret: "123 456 789 00010".to_string(),
        ape: "7410Z".to_string(),
        ..Author::default()
    }
}

fn client() -> Client {
    Client { name: "Acme".to_string(), address: address(), ..Client::default() }
}

fn service() -> Product {
    Product {
        name: "Service".to_string(),
        description: String::new(),
        quantity: 2,
        price: 100_000,
    }
}

fn snapshot() -> InvoiceData {
    InvoiceData {
        author: author(),
        is_devis: false,
        number: "F-013".to_string(),
        client: client(),
        nature: "Prestation".to_string(),
        diffuseur: false,
        dispense_path: None,
        products: vec![service()],
        date: "01/02/2025".to_string(),
    }
}

#[test]
fn address_needs_every_part() {
    assert!(address().valid());
    let mut a = address();
    a.postcode.clear();
    assert!(!a.valid());
    let mut a = address();
    a.city.clear();
    assert!(!a.valid());
    let mut a = address();
    a.number_and_street.clear();
    assert!(!a.valid());
}

#[test]
fn author_needs_required_fields() {
    assert!(author().valid());
    let mut a = author();
    a.siret.clear();
    assert!(!a.valid());
    let mut a = author();
    a.ape.clear();
    assert!(!a.valid());
    let mut a = author();
    a.address.city.clear();
    assert!(!a.valid());
}

#[test]
fn client_needs_name_and_address() {
    assert!(client().valid());
    let mut c = client();
    c.name.clear();
    assert!(!c.valid());
    assert!(!Client::default().valid());
}

#[test]
fn line_total_of_two_at_ten() {
    let p = service();
    assert_eq!(p.total(), 2000);
}

#[test]
fn line_total_rounds_half_up() {
    // 0.125 x 1 is 12.5 cents, rounded to 13
    let p = Product { price: 1250, quantity: 1, ..Product::default() };
    assert_eq!(p.total(), 13);
    // 0.1249 x 1 is 12.49 cents, rounded to 12
    let p = Product { price: 1249, quantity: 1, ..Product::default() };
    assert_eq!(p.total(), 12);
    assert_eq!(p.unit_price_cents(), 12);
}

#[test]
fn line_total_follows_each_edit() {
    let mut p = service();
    assert_eq!(p.total(), 2000);
    p.set_quantity(3);
    assert_eq!(p.total(), 3000);
    p.set_price(12_345);
    assert_eq!(p.total(), 370);
    p.set_quantity(0);
    assert_eq!(p.total(), 0);
}

#[test]
fn line_total_of_largest_values() {
    let p = Product { price: u64::MAX, quantity: u32::MAX, ..Product::default() };
    let exact = (u64::MAX as u128) * (u32::MAX as u128);
    assert_eq!(p.total(), (exact + 50) / 100);
}

#[test]
fn grand_total_sums_lines() {
    let mut s = snapshot();
    s.products.push(Product { price: 1250, quantity: 1, ..service() });
    assert_eq!(s.total_cents(), Some(2013));
    s.products.clear();
    assert_eq!(s.total_cents(), Some(0));
}

#[test]
fn complete_snapshot_is_form_valid() {
    assert!(snapshot().is_form_valid());
}

#[test]
fn exemption_without_document_is_invalid() {
    let mut s = snapshot();
    s.diffuseur = true;
    s.dispense_path = None;
    assert!(!s.is_form_valid());
    s.dispense_path = Some("/tmp/dispense.pdf".to_string());
    assert!(s.is_form_valid());
}

#[test]
fn snapshot_needs_named_lines() {
    let mut s = snapshot();
    s.products.clear();
    assert!(!s.is_form_valid());
    let mut s = snapshot();
    s.products.push(Product { name: String::new(), ..service() });
    assert!(!s.is_form_valid());
    let mut s = snapshot();
    s.client.address.postcode.clear();
    assert!(!s.is_form_valid());
    let mut s = snapshot();
    s.author.title.clear();
    assert!(!s.is_form_valid());
}

#[test]
fn issue_date_has_day_month_year_shape() {
    let d = factures::model::issue_date_today();
    let c: Vec<char> = d.chars().collect();
    assert!(c.len() >= 10);
    assert_eq!(c[2], '/');
    assert_eq!(c[5], '/');
}

#[test]
fn address_text_has_two_lines() {
    assert_eq!(address().display_text(), "1 Rue X\n75000 Paris");
}

#[test]
fn client_card_lists_set_identifiers() {
    let mut c = client();
    assert_eq!(c.display_text(), "Acme\n1 Rue X\n75000 Paris");
    c.siret = Some("123".to_string());
    c.tva_icc = Some("FR1".to_string());
    c.custom_field = Some("Contact: Bob".to_string());
    assert_eq!(
        c.display_text(),
        "Acme\n1 Rue X\n75000 Paris\nSIRET: 123\nTVA ICC: FR1\nContact: Bob"
    );
}

#[test]
fn product_line_text() {
    let p = Product { description: "Design".to_string(), ..service() };
    assert_eq!(p.display_text(), "Service -> 2 x 10,00 € = 20,00 €\n - Design");
}

#[test]
fn bill_type_tells_quotes() {
    assert!(BillType::Devis.is_devis());
    assert!(!BillType::Facture.is_devis());
    assert!(!BillType::default().is_devis());
}

#[test]
fn line_needs_a_name() {
    assert!(service().has_name());
    assert!(!Product::default().has_name());
}
