use factures::config::Config;
use factures::model::{Address, Client};

fn client(name: &str, city: &str) -> Client {
    Client {
        name: name.to_string(),
        address: Address {
            number_and_street: "1 Rue X".to_string(),
            postcode: "75000".to_string(),
            city: city.to_string(),
        },
        ..Client::default()
    }
}

fn config() -> Config {
    Config {
        author: None,
        tex_output_path: "facture.tex".to_string(),
        pdf_output_path: "facture.pdf".to_string(),
        clients: Vec::new(),
        last_facture: None,
        last_dispense: Some("/tmp/dispense.pdf".to_string()),
    }
}

#[test]
fn set_clients_keeps_one_per_name() {
    let mut c = config();
    c.set_clients(vec![client("Acme", "Paris"), client("Beta", "Lyon"), client("Acme", "Nice")]);
    assert_eq!(c.clients.len(), 2);
    let acme: Vec<&Client> = c.clients.iter().filter(|x| x.name == "Acme").collect();
    assert_eq!(acme.len(), 1);
    assert_eq!(acme[0].address.city, "Nice");
    assert!(c.clients.iter().any(|x| x.name == "Beta"));
}

#[test]
fn remember_client_replaces_same_name() {
    let mut c = config();
    c.remember_client(client("Acme", "Paris"));
    c.remember_client(client("Beta", "Lyon"));
    c.remember_client(client("Acme", "Nice"));
    assert_eq!(c.clients.len(), 2);
    assert_eq!(c.clients[0].address.city, "Nice");
}

#[test]
fn missing_dispense_is_forgotten() {
    let mut c = config();
    c.drop_missing_dispense(true);
    assert_eq!(c.last_dispense, Some("/tmp/dispense.pdf".to_string()));
    c.drop_missing_dispense(false);
    assert_eq!(c.last_dispense, None);
}
