use vstd::prelude::*;
use chrono::Datelike;
use crate::text::{currency_text, decimal, format_currency, push_decimal, IssueDate};

verus! {

/// Whether a text field holds something.
pub open spec fn filled(s: Seq<char>) -> bool {
    s.len() > 0
}

fn is_filled(s: &String) -> (r: bool)
    ensures
        r == filled(s@),
{
    !s.as_str().is_empty()
}

/// A postal address.
#[derive(Debug, Clone, Default)]
pub struct Address {
    pub number_and_street: String,
    pub postcode: String,
    pub city: String,
}

impl Address {
    /// An address is complete when none of its parts is empty.
    pub open spec fn complete(&self) -> bool {
        &&& filled(self.number_and_street@)
        &&& filled(self.postcode@)
        &&& filled(self.city@)
    }

    pub fn valid(&self) -> (r: bool)
        ensures
            r == self.complete(),
    {
        is_filled(&self.number_and_street) && is_filled(&self.postcode) && is_filled(
            &self.city,
        )
    }

    /// The street on one line, the postcode and the city on the next.
    pub open spec fn text(&self) -> Seq<char> {
        self.number_and_street@ + "\n"@ + self.postcode@ + " "@ + self.city@
    }

    pub fn display_text(&self) -> (r: String)
        ensures
            r@ == self.text(),
    {
        let mut out = self.number_and_street.clone();
        out.append("\n");
        out.append(self.postcode.as_str());
        out.append(" ");
        out.append(self.city.as_str());
        assert(out@ =~= self.text());
        out
    }
}

/// An optional field on a line of its own after `label`, or nothing.
pub open spec fn labelled(label: Seq<char>, value: Option<String>) -> Seq<char> {
    match value {
        Some(v) => label + v@,
        None => Seq::empty(),
    }
}

fn push_labelled(out: &mut String, label: &str, value: &Option<String>)
    ensures
        final(out)@ == old(out)@ + labelled(label@, *value),
{
    if let Some(v) = value {
        out.append(label);
        out.append(v.as_str());
        assert(final(out)@ =~= old(out)@ + labelled(label@, *value));
    } else {
        assert(final(out)@ =~= old(out)@ + labelled(label@, *value));
    }
}

/// The issuer of the document.
#[derive(Debug, Clone, Default)]
pub struct Author {
    /// large display name
    pub title: String,
    /// legal name, may span several lines
    pub name: String,
    pub address: Address,
    pub siret: String,
    pub ape: String,
    pub email: Option<String>,
    pub iban: Option<String>,
    pub signature_file_name: Option<String>,
    pub comptes_a_jour_file_name: Option<String>,
}

impl Author {
    /// Every required field of the issuer is filled and the address is complete.
    pub open spec fn complete(&self) -> bool {
        &&& filled(self.title@)
        &&& filled(self.name@)
        &&& self.address.complete()
        &&& filled(self.siret@)
        &&& filled(self.ape@)
    }

    pub fn valid(&self) -> (r: bool)
        ensures
            r == self.complete(),
    {
        is_filled(&self.title) && is_filled(&self.name) && self.address.valid() && is_filled(
            &self.siret,
        ) && is_filled(&self.ape)
    }
}

/// The customer the document is addressed to.
#[derive(Debug, Clone, Default)]
pub struct Client {
    pub name: String,
    pub address: Address,
    pub siret: Option<String>,
    pub code_ape: Option<String>,
    pub tva: Option<String>,
    pub tva_icc: Option<String>,
    pub custom_field: Option<String>,
}

impl Client {
    /// A client needs a name and a complete address.
    pub open spec fn complete(&self) -> bool {
        &&& filled(self.name@)
        &&& self.address.complete()
    }

    pub fn valid(&self) -> (r: bool)
        ensures
            r == self.complete(),
    {
        is_filled(&self.name) && self.address.valid()
    }

    /// The client's card: name, address, then each identifier that is set.
    pub open spec fn text(&self) -> Seq<char> {
        self.name@ + "\n"@ + self.address.text() + labelled("\nSIRET: "@, self.siret)
            + labelled("\nAPE: "@, self.code_ape) + labelled("\nTVA: "@, self.tva) + labelled(
            "\nTVA ICC: "@,
            self.tva_icc,
        ) + labelled("\n"@, self.custom_field)
    }

    pub fn display_text(&self) -> (r: String)
        ensures
            r@ == self.text(),
    {
        let mut out = self.name.clone();
        out.append("\n");
        let address = self.address.display_text();
        out.append(address.as_str());
        push_labelled(&mut out, "\nSIRET: ", &self.siret);
        push_labelled(&mut out, "\nAPE: ", &self.code_ape);
        push_labelled(&mut out, "\nTVA: ", &self.tva);
        push_labelled(&mut out, "\nTVA ICC: ", &self.tva_icc);
        push_labelled(&mut out, "\n", &self.custom_field);
        assert(out@ =~= self.text());
        out
    }
}

/// Rounds `price * quantity`, with the price in ten-thousandths of the
/// currency unit, half up to a whole number of cents.
pub open spec fn line_total(price: nat, quantity: nat) -> nat {
    (price * quantity + 50) / 100
}

/// One line of the document.
#[derive(Debug, Clone, Default)]
pub struct Product {
    pub name: String,
    pub description: String,
    pub quantity: u32,
    /// unit price, in ten-thousandths of the currency unit
    pub price: u64,
}

impl Product {
    /// The line total in cents. It is computed from the current price and
    /// quantity on each call, so it never lags behind an edit of either.
    pub fn total(&self) -> (r: u128)
        ensures
            r as nat == line_total(self.price as nat, self.quantity as nat),
    {
        let p: u128 = self.price as u128;
        let q: u128 = self.quantity as u128;
        assert(p * q <= 0xffff_ffff_ffff_ffffu128 * 0xffff_ffffu128) by (nonlinear_arith)
            requires
                p <= 0xffff_ffff_ffff_ffffu128,
                q <= 0xffff_ffffu128,
        ;
        (p * q + 50) / 100
    }

    /// The unit price rounded half up to whole cents.
    pub fn unit_price_cents(&self) -> (r: u64)
        ensures
            r as nat == line_total(self.price as nat, 1),
    {
        let p: u128 = self.price as u128;
        ((p + 50) / 100) as u64
    }

    /// A line can be kept once it has a name.
    pub fn has_name(&self) -> (r: bool)
        ensures
            r == filled(self.name@),
    {
        is_filled(&self.name)
    }

    /// One line of text: name, quantity, unit price and total, then the
    /// description.
    pub open spec fn text(&self) -> Seq<char> {
        self.name@ + " -> "@ + decimal(self.quantity as nat) + " x "@ + currency_text(
            line_total(self.price as nat, 1),
        ) + " € = "@ + currency_text(line_total(self.price as nat, self.quantity as nat))
            + " €\n - "@ + self.description@
    }

    pub fn display_text(&self) -> (r: String)
        ensures
            r@ == self.text(),
    {
        let mut out = self.name.clone();
        out.append(" -> ");
        push_decimal(&mut out, self.quantity as u128);
        out.append(" x ");
        let unit = format_currency(self.unit_price_cents() as u128);
        out.append(unit.as_str());
        out.append(" € = ");
        let total = format_currency(self.total());
        out.append(total.as_str());
        out.append(" €\n - ");
        out.append(self.description.as_str());
        assert(out@ =~= self.text());
        out
    }

    pub fn set_price(&mut self, price: u64)
        ensures
            final(self).price == price,
            final(self).quantity == old(self).quantity,
            final(self).name == old(self).name,
            final(self).description == old(self).description,
    {
        self.price = price;
    }

    pub fn set_quantity(&mut self, quantity: u32)
        ensures
            final(self).quantity == quantity,
            final(self).price == old(self).price,
            final(self).name == old(self).name,
            final(self).description == old(self).description,
    {
        self.quantity = quantity;
    }
}

/// The sum of the line totals, in cents.
pub open spec fn lines_total(products: Seq<Product>) -> nat
    decreases products.len(),
{
    if products.len() == 0 {
        0
    } else {
        lines_total(products.drop_last()) + line_total(
            products.last().price as nat,
            products.last().quantity as nat,
        )
    }
}

/// The total of all lines is at least that of the first `k`.
proof fn lemma_lines_total_grows(products: Seq<Product>, k: int)
    requires
        0 <= k <= products.len(),
    ensures
        lines_total(products.subrange(0, k)) <= lines_total(products),
    decreases products.len(),
{
    if k < products.len() {
        assert(products.drop_last().subrange(0, k) =~= products.subrange(0, k));
        lemma_lines_total_grows(products.drop_last(), k);
    } else {
        assert(products.subrange(0, k) =~= products);
    }
}

/// Relies on chrono::Local::now, DateTime::date_naive and NaiveDate's
/// Datelike day, month and year: today's local date, day and month counted
/// from one.
#[verifier::external_body]
fn today() -> (r: IssueDate)
    ensures
        r.well_formed(),
{
    let d = chrono::Local::now().date_naive();
    IssueDate { day: d.day(), month: d.month(), year: d.year() }
}

/// Today's local date as dd/mm/yyyy, the issue date of a snapshot taken now.
pub fn issue_date_today() -> (r: String)
    ensures
        exists|d: IssueDate| d.well_formed() && r@ == #[trigger] d.text(),
{
    let d = today();
    let r = d.format();
    assert(d.well_formed() && r@ == d.text());
    r
}

/// The two kinds of document.
#[derive(Debug, Clone, Copy, PartialEq, Eq, Structural, Default)]
pub enum BillType {
    #[default]
    Facture,
    Devis,
}

impl BillType {
    pub fn is_devis(self) -> (r: bool)
        ensures
            r == (self == BillType::Devis),
    {
        matches!(self, BillType::Devis)
    }
}

/// Everything needed to render one document.
#[derive(Debug, Clone)]
pub struct InvoiceData {
    pub author: Author,
    /// a quote rather than an invoice
    pub is_devis: bool,
    /// free-form document number, may carry a prefix
    pub number: String,
    pub client: Client,
    pub nature: String,
    /// the regulatory exemption applies
    pub diffuseur: bool,
    /// the document that supports the exemption
    pub dispense_path: Option<String>,
    pub products: Vec<Product>,
    /// issue date, as dd/mm/yyyy
    pub date: String,
}

impl InvoiceData {
    /// The snapshot may be built: both parties are complete, there is at least
    /// one line and every line is named, and a claimed exemption comes with its
    /// supporting document.
    pub open spec fn form_valid(&self) -> bool {
        &&& self.author.complete()
        &&& self.client.complete()
        &&& self.products@.len() > 0
        &&& forall|i: int| 0 <= i < self.products@.len() ==> filled(#[trigger] self.products@[i].name@)
        &&& (self.diffuseur ==> self.dispense_path is Some)
    }

    /// The sum of the line totals in cents, or `None` where it would not fit
    /// in 128 bits.
    pub fn total_cents(&self) -> (r: Option<u128>)
        ensures
            match r {
                Some(t) => t as nat == lines_total(self.products@),
                None => lines_total(self.products@) > u128::MAX,
            },
    {
        let mut sum: u128 = 0;
        let mut i: usize = 0;
        while i < self.products.len()
            invariant
                i <= self.products@.len(),
                sum as nat == lines_total(self.products@.subrange(0, i as int)),
            decreases self.products@.len() - i,
        {
            let line = self.products[i].total();
            let ghost next = self.products@.subrange(0, i + 1);
            assert(next.drop_last() =~= self.products@.subrange(0, i as int));
            match sum.checked_add(line) {
                Some(t) => {
                    sum = t;
                },
                None => {
                    proof { lemma_lines_total_grows(self.products@, i + 1); }
                    return None;
                },
            }
            i = i + 1;
        }
        assert(self.products@.subrange(0, i as int) =~= self.products@);
        Some(sum)
    }

    pub fn is_form_valid(&self) -> (r: bool)
        ensures
            r == self.form_valid(),
    {
        if !self.author.valid() {
            return false;
        }
        if !self.client.valid() {
            return false;
        }
        if self.products.len() == 0 {
            return false;
        }
        let mut i: usize = 0;
        while i < self.products.len()
            invariant
                i <= self.products@.len(),
                forall|j: int| 0 <= j < i ==> filled(#[trigger] self.products@[j].name@),
            decreases self.products@.len() - i,
        {
            if !self.products[i].has_name() {
                return false;
            }
            i = i + 1;
        }
        if self.diffuseur && self.dispense_path.is_none() {
            return false;
        }
        true
    }
}

} // verus!
