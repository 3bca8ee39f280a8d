use vstd::prelude::*;
use crate::json::{json_array, json_int, json_member, json_object, json_string, JsonWriter};
use crate::types::{primitive::Integer, user::User};

verus! {

/// Basic information about an invoice
#[derive(Clone, Debug)]
pub struct Invoice {
    /// Product name
    pub title: String,
    /// Product description
    pub description: String,
    /// Unique bot deep-linking parameter that can be used to generate this invoice
    pub start_parameter: String,
    /// Three-letter ISO 4217 currency code
    pub currency: String,
    /// Total price in the smallest units of the currency (integer, not float/double)
    ///
    /// For example, for a price of US$ 1.45 pass amount = 145
    /// See the exp parameter in currencies.json, it shows the number of digits past
    /// the decimal point for each currency (2 for the majority of currencies)
    pub total_amount: Integer,
}

/// Portion of the price for goods or services
#[derive(Clone, Debug)]
pub struct LabeledPrice {
    label: String,
    amount: Integer,
}

impl LabeledPrice {
    /// The portion label.
    pub closed spec fn spec_label(&self) -> Seq<char> {
        self.label@
    }

    /// The amount.
    pub closed spec fn spec_amount(&self) -> Integer {
        self.amount
    }

    /// Creates a new LabeledPrice
    ///
    /// # Arguments
    ///
    /// * label - Portion label
    /// * amount - For example, for a price of US$ 1.45 pass amount = 145
    ///            See the exp parameter in currencies.json, it shows the number of digits past the
    ///            decimal point for each currency (2 for the majority of currencies)
    pub fn new(label: &str, amount: Integer) -> (r: Self)
        ensures
            r.spec_label() == label@,
            r.spec_amount() == amount,
    {
        Self { label: label.to_owned(), amount }
    }

    /// Returns a portion label
    pub fn label(&self) -> (r: &str)
        ensures
            r@ == self.spec_label(),
    {
        self.label.as_str()
    }

    /// Returns an amount
    pub fn amount(&self) -> (r: Integer)
        ensures
            r == self.spec_amount(),
    {
        self.amount
    }
}

/// Information about an order
#[derive(Clone, Debug)]
pub struct OrderInfo {
    /// User name
    pub name: Option<String>,
    /// User's phone number
    pub phone_number: Option<String>,
    /// User email
    pub email: Option<String>,
    /// User shipping address
    pub shipping_address: Option<ShippingAddress>,
}

/// Information about an incoming pre-checkout query
#[derive(Clone, Debug)]
pub struct PreCheckoutQuery {
    /// Unique query identifier
    pub id: String,
    /// User who sent the query
    pub from: User,
    /// Three-letter ISO 4217 currency code
    pub currency: String,
    /// Total price in the smallest units of the currency (integer, not float/double)
    ///
    /// For example, for a price of US$ 1.45 pass amount = 145
    /// See the exp parameter in currencies.json, it shows the number of digits past the
    /// decimal point for each currency (2 for the majority of currencies)
    pub total_amount: Integer,
    /// Bot specified invoice payload
    pub invoice_payload: String,
    /// Identifier of the shipping option chosen by the user
    pub shipping_option_id: Option<String>,
    /// Order info provided by the user
    pub order_info: Option<OrderInfo>,
}

/// Shipping address
#[derive(Clone, Debug)]
pub struct ShippingAddress {
    /// ISO 3166-1 alpha-2 country code
    pub country_code: String,
    /// State, if applicable
    pub state: String,
    /// City
    pub city: String,
    /// First line for the address
    pub street_line1: String,
    /// Second line for the address
    pub street_line2: String,
    /// Address post code
    pub post_code: String,
}

/// Shipping option
#[derive(Clone, Debug)]
pub struct ShippingOption {
    id: String,
    title: String,
    prices: Vec<LabeledPrice>,
}

impl ShippingOption {
    /// The option identifier.
    pub closed spec fn spec_id(&self) -> Seq<char> {
        self.id@
    }

    /// The option title.
    pub closed spec fn spec_title(&self) -> Seq<char> {
        self.title@
    }

    /// The price portions.
    pub closed spec fn spec_prices(&self) -> Seq<LabeledPrice> {
        self.prices@
    }

    /// Creates a new ShippingOption
    ///
    /// # Arguments
    ///
    /// * id - Shipping option identifier
    /// * title - Option title
    /// * prices - List of price portions
    pub fn new(id: &str, title: &str, prices: Vec<LabeledPrice>) -> (r: Self)
        ensures
            r.spec_id() == id@,
            r.spec_title() == title@,
            r.spec_prices() == prices@,
    {
        Self { id: id.to_owned(), title: title.to_owned(), prices }
    }

    /// Returns an option id
    pub fn id(&self) -> (r: &str)
        ensures
            r@ == self.spec_id(),
    {
        self.id.as_str()
    }

    /// Returns an option title
    pub fn title(&self) -> (r: &str)
        ensures
            r@ == self.spec_title(),
    {
        self.title.as_str()
    }

    /// Returns price portions
    pub fn prices(&self) -> (r: &[LabeledPrice])
        ensures
            r@ == self.spec_prices(),
    {
        self.prices.as_slice()
    }
}

/// Information about an incoming shipping query
#[derive(Clone, Debug)]
pub struct ShippingQuery {
    /// Unique query identifier
    pub id: String,
    /// User who sent the query
    pub from: User,
    /// Bot specified invoice payload
    pub invoice_payload: String,
    /// User specified shipping address
    pub shipping_address: ShippingAddress,
}

/// Basic information about a successful payment
#[derive(Clone, Debug)]
pub struct SuccessfulPayment {
    /// Three-letter ISO 4217 currency code
    pub currency: String,
    /// Total price in the smallest units of the currency (integer, not float/double)
    ///
    /// For example, for a price of US$ 1.45 pass amount = 145
    /// See the exp parameter in currencies.json, it shows the number of digits past the
    /// decimal point for each currency (2 for the majority of currencies)
    pub total_amount: Integer,
    /// Bot specified invoice payload
    pub invoice_payload: String,
    /// Identifier of the shipping option chosen by the user
    pub shipping_option_id: Option<String>,
    /// Order info provided by the user
    pub order_info: Option<OrderInfo>,
    /// Telegram payment identifier
    pub telegram_payment_charge_id: String,
    /// Provider payment identifier
    pub provider_payment_charge_id: String,
}

/// A price portion as JSON: the label, then the amount.
pub open spec fn labeled_price_json(p: LabeledPrice) -> Seq<char> {
    json_object(seq![json_member("label"@, json_string(p.spec_label())), json_member("amount"@, json_int(p.spec_amount() as int))])
}

/// A shipping option as JSON: the identifier, the title, then the price portions.
pub open spec fn shipping_option_json(o: ShippingOption) -> Seq<char> {
    json_object(
        seq![
            json_member("id"@, json_string(o.spec_id())),
            json_member("title"@, json_string(o.spec_title())),
            json_member("prices"@, json_array(o.spec_prices().map_values(|p: LabeledPrice| labeled_price_json(p)))),
        ],
    )
}

impl LabeledPrice {
    /// The price portion as a JSON object
    pub fn to_json(&self) -> (r: String)
        ensures
            r@ == labeled_price_json(*self),
    {
        let mut w = JsonWriter::object();
        w.member_string("label", self.label.as_str());
        w.member_int("amount", self.amount);
        assert(w.parts() =~= seq![json_member("label"@, json_string(self.spec_label())), json_member("amount"@, json_int(self.spec_amount() as int))]);
        w.finish()
    }
}

impl ShippingOption {
    /// The shipping option as a JSON object
    pub fn to_json(&self) -> (r: String)
        ensures
            r@ == shipping_option_json(*self),
    {
        let mut prices = JsonWriter::array();
        let mut i: usize = 0;
        while i < self.prices.len()
            invariant
                i <= self.prices.len(),
                !prices.is_object(),
                prices.parts() == self.prices@.take(i as int).map_values(|p: LabeledPrice| labeled_price_json(p)),
            decreases self.prices.len() - i,
        {
            let j = self.prices[i].to_json();
            prices.push_raw(j.as_str());
            assert(self.prices@.take(i + 1) =~= self.prices@.take(i as int).push(self.prices@[i as int]));
            i = i + 1;
            assert(prices.parts() =~= self.prices@.take(i as int).map_values(|p: LabeledPrice| labeled_price_json(p)));
        }
        assert(self.prices@.take(i as int) =~= self.prices@);
        let list = prices.finish();
        let mut w = JsonWriter::object();
        w.member_string("id", self.id.as_str());
        w.member_string("title", self.title.as_str());
        w.member_raw("prices", list.as_str());
        assert(w.parts() =~= seq![
            json_member("id"@, json_string(self.spec_id())),
            json_member("title"@, json_string(self.spec_title())),
            json_member("prices"@, json_array(self.spec_prices().map_values(|p: LabeledPrice| labeled_price_json(p)))),
        ]);
        w.finish()
    }
}

} // verus!
